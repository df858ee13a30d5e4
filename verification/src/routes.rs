//! The registry of static routes, kept by the operator beside the node's
//! identity.

use vstd::prelude::*;
use vstd::string::{StrSliceExecFns, StringExecFns};

use crate::config::copy_all;
use crate::digest::hex_text;
use crate::identity::{lemma_key_text_is_injective, parsed_endpoint, EndpointId};
use crate::net::{IpAddr, IpNet};
use crate::prefix::{format_prefix, parse_prefix, parsed_prefix, prefix_text, reads_as};
use crate::sort::{
    bytes_at_most, is_byte_key, is_sorted, is_strictly_sorted, key_le, keys, lemma_contains_push,
    lemma_key_antisymmetric, lemma_pair_order, lemma_strictly_sorted_by_is_unique, pair_key, sorted,
    sorted_distinct, SortKey,
};
use crate::text::{
    chars_of, find_char, find_words, lemma_text_key_is_injective, next_char, places, text_key,
    word_places,
};

verus! {

/// The format that the registry is written in.
pub const ROUTE_FILE_VERSION: u8 = 1;

/// The prefixes that an endpoint owns.
#[derive(Debug)]
pub struct RouteOriginConfig {
    pub endpoint_id: EndpointId,
    pub prefixes: Vec<IpNet>,
}

/// The prefixes of an owner.
#[verifier::ext_equal]
pub ghost struct OriginModel {
    pub owner: Seq<u8>,
    pub prefixes: Seq<IpNet>,
}

impl RouteOriginConfig {
    /// The prefixes and their owner.
    pub open spec fn model(&self) -> OriginModel {
        OriginModel { owner: self.endpoint_id@, prefixes: self.prefixes@ }
    }
}

/// The prefixes and owners of a run of routes.
pub open spec fn origins(routes: Seq<RouteOriginConfig>) -> Seq<OriginModel> {
    routes.map_values(|route: RouteOriginConfig| route.model())
}

/// Why routes are refused.
#[derive(Clone, Copy, Debug, PartialEq, Eq)]
pub enum RouteErrorV2 {
    /// The registry has another format.
    UnsupportedVersion { found: u8 },
    /// An owner has no prefix.
    NoPrefixes { owner: EndpointId },
    /// A line names no endpoint.
    InvalidEndpoint { line: usize },
    /// A line holds what is no prefix.
    InvalidPrefix { line: usize },
    /// A line has no prefix behind the endpoint.
    MissingPrefix { line: usize },
    /// A selector is neither a prefix nor an endpoint.
    InvalidSelector,
}

/// The static routes that the operator manages.
#[derive(Debug)]
pub struct RouteRegistry {
    pub version: u8,
    pub routes: Vec<RouteOriginConfig>,
}

impl Default for RouteRegistry {
    /// No routes.
    fn default() -> (r: RouteRegistry)
        ensures
            r.version == ROUTE_FILE_VERSION,
            r.routes@.len() == 0,
    {
        RouteRegistry { version: ROUTE_FILE_VERSION, routes: Vec::new() }
    }
}

/// Whether an owner has a prefix.
pub open spec fn owns(routes: Seq<OriginModel>, owner: Seq<u8>, prefix: IpNet) -> bool {
    exists|i: int|
        0 <= i < routes.len() && (#[trigger] routes[i]).owner == owner && routes[i].prefixes.contains(
            prefix,
        )
}

/// The place of an owner in the order of owners: the text of its key.
pub open spec fn owner_key(owner: Seq<u8>) -> Seq<int> {
    text_key(hex_text(owner))
}

/// The place of a prefix in the order of prefixes: its text.
pub open spec fn prefix_key(prefix: IpNet) -> Seq<int> {
    text_key(prefix_text(prefix))
}

/// The prefixes are sorted by their text, each once, and there are some.
pub open spec fn is_normal_origin(origin: OriginModel) -> bool {
    &&& origin.prefixes.len() > 0
    &&& is_strictly_sorted(origin.prefixes.map_values(|prefix: IpNet| prefix_key(prefix)))
}

/// The owners are sorted by their text, each once, and so are their prefixes.
pub open spec fn is_normal(routes: Seq<OriginModel>) -> bool {
    &&& is_strictly_sorted(routes.map_values(|origin: OriginModel| owner_key(origin.owner)))
    &&& forall|i: int| 0 <= i < routes.len() ==> is_normal_origin(#[trigger] routes[i])
}

/// The same ownership, in normal form.
pub open spec fn is_normal_form_of(normal: Seq<OriginModel>, routes: Seq<OriginModel>) -> bool {
    &&& is_normal(normal)
    &&& forall|owner: Seq<u8>, prefix: IpNet|
        #[trigger] owns(normal, owner, prefix) == owns(routes, owner, prefix)
}

/// Every prefix has a length of its family.
pub open spec fn routes_wf(routes: Seq<RouteOriginConfig>) -> bool {
    forall|i: int, j: int|
        0 <= i < routes.len() && 0 <= j < routes[i].prefixes@.len() ==> (
        #[trigger] routes[i].prefixes@[j]).wf()
}

/// A prefix with its owner, and the two texts by which they are ordered.
#[derive(Debug)]
struct RouteEntry {
    owner: EndpointId,
    prefix: IpNet,
    first: String,
    second: String,
}

impl SortKey for RouteEntry {
    closed spec fn key(&self) -> Seq<int> {
        pair_key(text_key(self.first@), text_key(self.second@))
    }

    fn at_most(&self, other: &Self) -> (r: bool) {
        let a: &[u8] = self.first.as_str().as_bytes();
        let b: &[u8] = other.first.as_str().as_bytes();
        proof {
            lemma_text_key_is_bytes(self.first@);
            lemma_text_key_is_bytes(other.first@);
            lemma_pair_order(
                text_key(self.first@),
                text_key(self.second@),
                text_key(other.first@),
                text_key(other.second@),
            );
        }
        if !bytes_at_most(a, b) {
            return false;
        }
        if !bytes_at_most(b, a) {
            proof {
                crate::sort::lemma_key_reflexive(text_key(self.first@));
            }
            return true;
        }
        proof {
            lemma_key_antisymmetric(text_key(self.first@), text_key(other.first@));
        }
        bytes_at_most(self.second.as_str().as_bytes(), other.second.as_str().as_bytes())
    }
}

/// A text's key holds bytes.
proof fn lemma_text_key_is_bytes(text: Seq<char>)
    ensures
        is_byte_key(text_key(text)),
{
}

/// Whether an entry of the registry carries the texts of its owner and prefix.
spec fn entry_by_owner(entry: RouteEntry) -> bool {
    &&& entry.first@ == hex_text(entry.owner@)
    &&& entry.second@ == prefix_text(entry.prefix)
    &&& reads_as(entry.second@, entry.prefix)
    &&& entry.prefix.wf()
}

/// Whether some entry has that owner and prefix.
spec fn listed(entries: Seq<RouteEntry>, owner: Seq<u8>, prefix: IpNet) -> bool {
    exists|i: int|
        0 <= i < entries.len() && (#[trigger] entries[i]).owner@ == owner && entries[i].prefix
            == prefix
}

/// One more entry.
proof fn lemma_listed_push(entries: Seq<RouteEntry>, entry: RouteEntry)
    ensures
        forall|owner: Seq<u8>, prefix: IpNet|
            #[trigger] listed(entries.push(entry), owner, prefix) == (listed(
                entries,
                owner,
                prefix,
            ) || (entry.owner@ == owner && entry.prefix == prefix)),
{
    let more = entries.push(entry);
    assert forall|owner: Seq<u8>, prefix: IpNet|
        #[trigger] listed(more, owner, prefix) == (listed(entries, owner, prefix) || (entry.owner@
            == owner && entry.prefix == prefix)) by {
        if listed(entries, owner, prefix) {
            let i = choose|i: int|
                0 <= i < entries.len() && (#[trigger] entries[i]).owner@ == owner
                    && entries[i].prefix == prefix;
            assert(more[i].owner@ == owner && more[i].prefix == prefix);
        }
        if entry.owner@ == owner && entry.prefix == prefix {
            assert(more[entries.len() as int].owner@ == owner);
        }
        if listed(more, owner, prefix) {
            let i = choose|i: int|
                0 <= i < more.len() && (#[trigger] more[i]).owner@ == owner && more[i].prefix
                    == prefix;
            if i < entries.len() {
                assert(entries[i].owner@ == owner);
            }
        }
    }
}

/// The entries of one owner are put behind the others.
fn add_entries(entries: &mut Vec<RouteEntry>, owner: &EndpointId, prefixes: &Vec<IpNet>)
    requires
        forall|i: int| 0 <= i < old(entries)@.len() ==> entry_by_owner(#[trigger] old(entries)@[i]),
        forall|j: int| 0 <= j < prefixes@.len() ==> (#[trigger] prefixes@[j]).wf(),
    ensures
        forall|i: int|
            0 <= i < final(entries)@.len() ==> entry_by_owner(#[trigger] final(entries)@[i]),
        forall|o: Seq<u8>, p: IpNet|
            #[trigger] listed(final(entries)@, o, p) == (listed(old(entries)@, o, p) || (owner@ == o
                && prefixes@.contains(p))),
{
    let ghost before = entries@;
    let mut at: usize = 0;
    let text: String = owner.to_text();
    while at < prefixes.len()
        invariant
            before == old(entries)@,
            at <= prefixes@.len(),
            text@ == hex_text(owner@),
            forall|i: int| 0 <= i < entries@.len() ==> entry_by_owner(#[trigger] entries@[i]),
            forall|j: int| 0 <= j < prefixes@.len() ==> (#[trigger] prefixes@[j]).wf(),
            forall|o: Seq<u8>, p: IpNet|
                #[trigger] listed(entries@, o, p) == (listed(before, o, p) || (owner@ == o
                    && prefixes@.take(at as int).contains(p))),
        decreases prefixes@.len() - at,
    {
        let ghost earlier = entries@;
        let prefix: IpNet = prefixes[at];
        entries.push(
            RouteEntry {
                owner: *owner,
                prefix,
                first: text.clone(),
                second: format_prefix(&prefix),
            },
        );
        proof {
            lemma_listed_push(earlier, entries@.last());
            assert(entries@ =~= earlier.push(entries@.last()));
            assert(prefixes@.take(at + 1) =~= prefixes@.take(at as int).push(prefix));
            assert forall|o: Seq<u8>, p: IpNet|
                #[trigger] listed(entries@, o, p) == (listed(before, o, p) || (owner@ == o
                    && prefixes@.take(at + 1).contains(p))) by {
                lemma_contains_push(prefixes@.take(at as int), prefix, p);
                assert(listed(earlier, o, p) == (listed(before, o, p) || (owner@ == o
                    && prefixes@.take(at as int).contains(p))));
            }
        }
        at = at + 1;
    }
    assert(prefixes@.take(at as int) =~= prefixes@);
}

/// One more route.
proof fn lemma_owns_push(routes: Seq<OriginModel>, origin: OriginModel)
    ensures
        forall|owner: Seq<u8>, prefix: IpNet|
            #[trigger] owns(routes.push(origin), owner, prefix) == (owns(routes, owner, prefix) || (
            origin.owner == owner && origin.prefixes.contains(prefix))),
{
    let more = routes.push(origin);
    assert forall|owner: Seq<u8>, prefix: IpNet|
        #[trigger] owns(more, owner, prefix) == (owns(routes, owner, prefix) || (origin.owner
            == owner && origin.prefixes.contains(prefix))) by {
        if owns(routes, owner, prefix) {
            let i = choose|i: int|
                0 <= i < routes.len() && (#[trigger] routes[i]).owner == owner
                    && routes[i].prefixes.contains(prefix);
            assert(more[i].owner == owner && more[i].prefixes.contains(prefix));
        }
        if origin.owner == owner && origin.prefixes.contains(prefix) {
            assert(more[routes.len() as int].owner == owner);
        }
        if owns(more, owner, prefix) {
            let i = choose|i: int|
                0 <= i < more.len() && (#[trigger] more[i]).owner == owner
                    && more[i].prefixes.contains(prefix);
            if i < routes.len() {
                assert(routes[i].owner == owner);
            }
        }
    }
}

/// Entries in order become routes in normal form.
fn grouped_routes(entries: Vec<RouteEntry>) -> (r: Vec<RouteOriginConfig>)
    requires
        forall|i: int| 0 <= i < entries@.len() ==> entry_by_owner(#[trigger] entries@[i]),
        is_strictly_sorted(keys(entries@)),
    ensures
        is_normal(origins(r@)),
        forall|o: Seq<u8>, p: IpNet| #[trigger] owns(origins(r@), o, p) == listed(entries@, o, p),
        routes_wf(r@),
{
    let mut routes: Vec<RouteOriginConfig> = Vec::new();
    let mut index: usize = 0;
    proof {
        assert(origins(routes@) =~= Seq::empty());
        assert(entries@.take(0) =~= Seq::empty());
    }
    while index < entries.len()
        invariant
            forall|i: int| 0 <= i < entries@.len() ==> entry_by_owner(#[trigger] entries@[i]),
            is_strictly_sorted(keys(entries@)),
            index <= entries@.len(),
            is_normal(origins(routes@)),
            routes_wf(routes@),
            forall|o: Seq<u8>, p: IpNet|
                #[trigger] owns(origins(routes@), o, p) == listed(entries@.take(index as int), o, p),
            index > 0 <==> routes@.len() > 0,
            index > 0 ==> routes@.last().endpoint_id@ == entries@[index - 1].owner@
                && routes@.last().prefixes@.len() > 0 && routes@.last().prefixes@.last()
                == entries@[index - 1].prefix,
        decreases entries@.len() - index,
    {
        let entry: &RouteEntry = &entries[index];
        let ghost before = routes@;
        let owner: EndpointId = entry.owner;
        let prefix: IpNet = entry.prefix;
        proof {
            lemma_listed_push(entries@.take(index as int), entries@[index as int]);
            assert(entries@.take(index + 1) =~= entries@.take(index as int).push(
                entries@[index as int],
            ));
            if index > 0 {
                lemma_entry_order(entries@[index - 1], entries@[index as int]);
                assert(key_le(keys(entries@)[index - 1], keys(entries@)[index as int]));
            }
        }
        let joins: bool = match routes.last() {
            Some(last) => last.endpoint_id.same(&owner),
            None => false,
        };
        if joins {
            let mut last: RouteOriginConfig = match routes.pop() {
                Some(last) => last,
                None => return routes,
            };
            let ghost rest = routes@;
            last.prefixes.push(prefix);
            routes.push(last);
            proof {
                assert(routes@.drop_last() =~= rest);
                lemma_joined(before, rest, routes@, prefix);
            }
        } else {
            let mut prefixes: Vec<IpNet> = Vec::new();
            prefixes.push(prefix);
            routes.push(RouteOriginConfig { endpoint_id: owner, prefixes });
            proof {
                assert(routes@.drop_last() =~= before);
                lemma_new_owner(before, routes@, prefix);
            }
        }
        index = index + 1;
    }
    assert(entries@.take(index as int) =~= entries@);
    routes
}

/// What the order of two entries says of their owners and prefixes.
proof fn lemma_entry_order(a: RouteEntry, b: RouteEntry)
    requires
        entry_by_owner(a),
        entry_by_owner(b),
    ensures
        key_le(a.key(), b.key()) == (key_le(owner_key(a.owner@), owner_key(b.owner@)) && (owner_key(
            a.owner@,
        ) != owner_key(b.owner@) || key_le(prefix_key(a.prefix), prefix_key(b.prefix)))),
        a.key() == b.key() ==> a.owner@ == b.owner@ && a.prefix == b.prefix,
        owner_key(a.owner@) == owner_key(b.owner@) ==> a.owner@ == b.owner@,
        prefix_key(a.prefix) == prefix_key(b.prefix) ==> a.prefix == b.prefix,
{
    lemma_text_key_is_bytes(a.first@);
    lemma_text_key_is_bytes(b.first@);
    lemma_pair_order(text_key(a.first@), text_key(a.second@), text_key(b.first@), text_key(b.second@));
    if owner_key(a.owner@) == owner_key(b.owner@) {
        lemma_text_key_is_injective(hex_text(a.owner@), hex_text(b.owner@));
        lemma_key_text_is_injective(a.owner@, b.owner@);
    }
    if prefix_key(a.prefix) == prefix_key(b.prefix) {
        lemma_text_key_is_injective(prefix_text(a.prefix), prefix_text(b.prefix));
        crate::prefix::lemma_text_names_prefix(a.prefix, b.prefix);
    }
}

/// A prefix joins the last route.
proof fn lemma_joined(
    before: Seq<RouteOriginConfig>,
    rest: Seq<RouteOriginConfig>,
    after: Seq<RouteOriginConfig>,
    prefix: IpNet,
)
    requires
        before.len() > 0,
        rest == before.drop_last(),
        after.len() == before.len(),
        after.drop_last() == rest,
        after.last().endpoint_id == before.last().endpoint_id,
        after.last().prefixes@ == before.last().prefixes@.push(prefix),
        is_normal(origins(before)),
        routes_wf(before),
        prefix.wf(),
        key_le(prefix_key(before.last().prefixes@.last()), prefix_key(prefix)),
        prefix_key(before.last().prefixes@.last()) != prefix_key(prefix),
    ensures
        is_normal(origins(after)),
        routes_wf(after),
        forall|o: Seq<u8>, p: IpNet|
            #[trigger] owns(origins(after), o, p) == (owns(origins(before), o, p) || (
            before.last().endpoint_id@ == o && prefix == p)),
{
    let old_last = before.last().model();
    let new_last = after.last().model();
    let count = before.len() - 1;
    assert(origins(before) =~= origins(rest).push(old_last));
    assert(origins(after) =~= origins(rest).push(new_last)) by {
        assert forall|i: int| 0 <= i < rest.len() implies after[i] == rest[i] by {
            assert(after.drop_last()[i] == rest[i]);
        }
    }
    lemma_owns_push(origins(rest), old_last);
    lemma_owns_push(origins(rest), new_last);
    assert forall|o: Seq<u8>, p: IpNet|
        #[trigger] owns(origins(after), o, p) == (owns(origins(before), o, p) || (
        before.last().endpoint_id@ == o && prefix == p)) by {
        lemma_contains_push(old_last.prefixes, prefix, p);
    }
    let key = |origin: OriginModel| owner_key(origin.owner);
    assert(origins(after).map_values(key) =~= origins(before).map_values(key));
    let pkey = |p: IpNet| prefix_key(p);
    assert(is_normal_origin(origins(before)[count]));
    assert(origins(before)[count] == old_last);
    let ks = old_last.prefixes.map_values(pkey);
    assert(ks.last() == prefix_key(old_last.prefixes.last()));
    crate::sort::lemma_strict_push(ks, prefix_key(prefix));
    assert(new_last.prefixes.map_values(pkey) =~= ks.push(prefix_key(prefix)));
    assert forall|i: int| 0 <= i < origins(after).len() implies is_normal_origin(
        #[trigger] origins(after)[i],
    ) by {
        if i < count {
            assert(origins(after)[i] == origins(before)[i]);
            assert(is_normal_origin(origins(before)[i]));
        } else {
            assert(origins(after)[i] == new_last);
        }
    }
    assert forall|i: int, j: int|
        0 <= i < after.len() && 0 <= j < after[i].prefixes@.len() implies (
    #[trigger] after[i].prefixes@[j]).wf() by {
        if i < count {
            assert(after.drop_last()[i] == before[i]);
            assert(before[i].prefixes@[j].wf());
        } else if j < old_last.prefixes.len() {
            assert(before[count].prefixes@[j].wf());
        }
    }
}

/// A route of a new owner follows the others.
proof fn lemma_new_owner(
    before: Seq<RouteOriginConfig>,
    after: Seq<RouteOriginConfig>,
    prefix: IpNet,
)
    requires
        after.len() == before.len() + 1,
        after.drop_last() == before,
        after.last().prefixes@ == seq![prefix],
        is_normal(origins(before)),
        routes_wf(before),
        prefix.wf(),
        before.len() > 0 ==> key_le(
            owner_key(before.last().endpoint_id@),
            owner_key(after.last().endpoint_id@),
        ) && owner_key(before.last().endpoint_id@) != owner_key(after.last().endpoint_id@),
    ensures
        is_normal(origins(after)),
        routes_wf(after),
        forall|o: Seq<u8>, p: IpNet|
            #[trigger] owns(origins(after), o, p) == (owns(origins(before), o, p) || (
            after.last().endpoint_id@ == o && prefix == p)),
{
    let last = after.last().model();
    assert(origins(after) =~= origins(before).push(last)) by {
        assert forall|i: int| 0 <= i < before.len() implies after[i] == before[i] by {
            assert(after.drop_last()[i] == before[i]);
        }
    }
    lemma_owns_push(origins(before), last);
    assert forall|p: IpNet| last.prefixes.contains(p) == (prefix == p) by {
        if prefix == p {
            assert(last.prefixes[0] == p);
        }
    }
    let key = |origin: OriginModel| owner_key(origin.owner);
    let ks = origins(before).map_values(key);
    if before.len() > 0 {
        assert(ks.last() == owner_key(before.last().endpoint_id@));
    }
    crate::sort::lemma_strict_push(ks, owner_key(last.owner));
    assert(origins(after).map_values(key) =~= ks.push(owner_key(last.owner)));
    assert forall|i: int| 0 <= i < origins(after).len() implies is_normal_origin(
        #[trigger] origins(after)[i],
    ) by {
        if i < before.len() {
            assert(origins(after)[i] == origins(before)[i]);
            assert(is_normal_origin(origins(before)[i]));
        }
    }
    assert forall|i: int, j: int|
        0 <= i < after.len() && 0 <= j < after[i].prefixes@.len() implies (
    #[trigger] after[i].prefixes@[j]).wf() by {
        if i < before.len() {
            assert(after.drop_last()[i] == before[i]);
            assert(before[i].prefixes@[j].wf());
        }
    }
}

/// The first owner without prefixes.
pub open spec fn empty_owner(routes: Seq<OriginModel>) -> Option<Seq<u8>>
    decreases routes.len(),
{
    if routes.len() == 0 {
        None
    } else if routes[0].prefixes.len() == 0 {
        Some(routes[0].owner)
    } else {
        empty_owner(routes.drop_first())
    }
}

/// Prefixes of all routes, counted as often as they occur.
pub open spec fn total_prefixes(routes: Seq<OriginModel>) -> nat
    decreases routes.len(),
{
    if routes.len() == 0 {
        0
    } else {
        total_prefixes(routes.drop_last()) + routes.last().prefixes.len()
    }
}

/// The first owner without prefixes.
fn find_empty_owner(routes: &Vec<RouteOriginConfig>) -> (r: Option<EndpointId>)
    ensures
        match r {
            Some(owner) => empty_owner(origins(routes@)) == Some(owner@),
            None => empty_owner(origins(routes@)) is None,
        },
{
    let mut index: usize = 0;
    let ghost all = origins(routes@);
    assert(all.skip(0) =~= all);
    while index < routes.len()
        invariant
            all == origins(routes@),
            index <= routes@.len(),
            empty_owner(all) == empty_owner(all.skip(index as int)),
        decreases routes@.len() - index,
    {
        proof {
            assert(all.skip(index as int)[0] == routes@[index as int].model());
            assert(all.skip(index as int).drop_first() =~= all.skip(index + 1));
        }
        if routes[index].prefixes.len() == 0 {
            return Some(routes[index].endpoint_id);
        }
        index = index + 1;
    }
    None
}

/// Every prefix of every route becomes an entry.
fn collect_entries(routes: &Vec<RouteOriginConfig>) -> (r: Vec<RouteEntry>)
    requires
        routes_wf(routes@),
    ensures
        forall|i: int| 0 <= i < r@.len() ==> entry_by_owner(#[trigger] r@[i]),
        forall|o: Seq<u8>, p: IpNet| #[trigger] listed(r@, o, p) == owns(origins(routes@), o, p),
{
    let mut entries: Vec<RouteEntry> = Vec::new();
    let mut index: usize = 0;
    assert(origins(routes@.take(0)) =~= Seq::empty());
    while index < routes.len()
        invariant
            routes_wf(routes@),
            index <= routes@.len(),
            forall|i: int| 0 <= i < entries@.len() ==> entry_by_owner(#[trigger] entries@[i]),
            forall|o: Seq<u8>, p: IpNet|
                #[trigger] listed(entries@, o, p) == owns(
                    origins(routes@.take(index as int)),
                    o,
                    p,
                ),
        decreases routes@.len() - index,
    {
        let ghost before = entries@;
        assert forall|j: int| 0 <= j < routes@[index as int].prefixes@.len() implies (
        #[trigger] routes@[index as int].prefixes@[j]).wf() by {}
        add_entries(&mut entries, &routes[index].endpoint_id, &routes[index].prefixes);
        proof {
            let small = origins(routes@.take(index as int));
            let origin = routes@[index as int].model();
            lemma_owns_push(small, origin);
            assert(origins(routes@.take(index + 1)) =~= small.push(origin));
            assert forall|o: Seq<u8>, p: IpNet|
                #[trigger] listed(entries@, o, p) == owns(
                    origins(routes@.take(index + 1)),
                    o,
                    p,
                ) by {
                assert(listed(before, o, p) == owns(small, o, p));
            }
        }
        index = index + 1;
    }
    assert(routes@.take(index as int) =~= routes@);
    entries
}

/// Entries with the same keys list the same owners and prefixes.
proof fn lemma_listed_by_keys(a: Seq<RouteEntry>, b: Seq<RouteEntry>, owner: Seq<u8>, prefix: IpNet)
    requires
        forall|i: int| 0 <= i < a.len() ==> entry_by_owner(#[trigger] a[i]),
        forall|i: int| 0 <= i < b.len() ==> entry_by_owner(#[trigger] b[i]),
        keys(a).to_set() == keys(b).to_set(),
    ensures
        listed(a, owner, prefix) ==> listed(b, owner, prefix),
{
    if listed(a, owner, prefix) {
        let i = choose|i: int|
            0 <= i < a.len() && (#[trigger] a[i]).owner@ == owner && a[i].prefix == prefix;
        assert(keys(a)[i] == a[i].key());
        assert(keys(a).to_set().contains(a[i].key()));
        assert(keys(b).to_set().contains(a[i].key()));
        assert(keys(b).contains(a[i].key()));
        let j = choose|j: int| 0 <= j < keys(b).len() && keys(b)[j] == a[i].key();
        assert(keys(b)[j] == b[j].key());
        lemma_entry_order(a[i], b[j]);
        assert(b[j].owner@ == owner && b[j].prefix == prefix);
    }
}

/// How the result of a normalisation relates to the routes before it.
pub open spec fn normalized(
    before: Seq<OriginModel>,
    after: Seq<OriginModel>,
    r: Result<(), RouteErrorV2>,
) -> bool {
    match empty_owner(before) {
        Some(owner) => (r matches Err(RouteErrorV2::NoPrefixes { owner: found }) && found@ == owner)
            && after.len() == 0,
        None => r is Ok && is_normal_form_of(after, before),
    }
}

impl RouteRegistry {
    /// Bring the routes in normal form: one route per owner, in the order of
    /// the owners' texts, with its prefixes in the order of their texts, each
    /// once. An owner without prefixes is refused, and the routes are dropped.
    pub fn normalize(&mut self) -> (r: Result<(), RouteErrorV2>)
        requires
            routes_wf(old(self).routes@),
        ensures
            final(self).version == old(self).version,
            routes_wf(final(self).routes@),
            old(self).version != ROUTE_FILE_VERSION ==> (r matches Err(
                RouteErrorV2::UnsupportedVersion { found },
            ) && found == old(self).version) && final(self).routes@ == old(self).routes@,
            old(self).version == ROUTE_FILE_VERSION ==> normalized(
                origins(old(self).routes@),
                origins(final(self).routes@),
                r,
            ),
    {
        if self.version != ROUTE_FILE_VERSION {
            return Err(RouteErrorV2::UnsupportedVersion { found: self.version });
        }
        let ghost all = origins(self.routes@);
        if let Some(owner) = find_empty_owner(&self.routes) {
            self.routes = Vec::new();
            return Err(RouteErrorV2::NoPrefixes { owner });
        }
        let entries: Vec<RouteEntry> = collect_entries(&self.routes);
        let ghost collected = entries@;
        let ordered: Vec<RouteEntry> = sorted_distinct(entries);
        proof {
            assert forall|i: int| 0 <= i < ordered@.len() implies entry_by_owner(
                #[trigger] ordered@[i],
            ) by {
                assert(collected.contains(ordered@[i]));
                let j = choose|j: int| 0 <= j < collected.len() && collected[j] == ordered@[i];
                assert(entry_by_owner(collected[j]));
            }
            assert forall|o: Seq<u8>, p: IpNet|
                #[trigger] listed(ordered@, o, p) == owns(all, o, p) by {
                lemma_listed_by_keys(ordered@, collected, o, p);
                lemma_listed_by_keys(collected, ordered@, o, p);
                assert(listed(collected, o, p) == owns(all, o, p));
            }
        }
        let ghost last = ordered@;
        self.routes = grouped_routes(ordered);
        proof {
            assert forall|o: Seq<u8>, p: IpNet|
                #[trigger] owns(origins(self.routes@), o, p) == owns(all, o, p) by {
                assert(owns(origins(self.routes@), o, p) == listed(last, o, p));
            }
        }
        Ok(())
    }

    /// Add imported routes and bring the whole in normal form.
    pub fn merge(&mut self, imported: RouteRegistry) -> (r: Result<(), RouteErrorV2>)
        requires
            routes_wf(old(self).routes@),
            routes_wf(imported.routes@),
        ensures
            final(self).version == old(self).version,
            routes_wf(final(self).routes@),
            old(self).version != ROUTE_FILE_VERSION ==> (r matches Err(
                RouteErrorV2::UnsupportedVersion { found },
            ) && found == old(self).version) && final(self).routes@ == old(self).routes@
                + imported.routes@,
            old(self).version == ROUTE_FILE_VERSION ==> normalized(
                origins(old(self).routes@) + origins(imported.routes@),
                origins(final(self).routes@),
                r,
            ),
    {
        let ghost first = self.routes@;
        let ghost second = imported.routes@;
        let mut more: Vec<RouteOriginConfig> = imported.routes;
        self.routes.append(&mut more);
        proof {
            assert(self.routes@ =~= first + second);
            assert(origins(self.routes@) =~= origins(first) + origins(second));
            assert forall|i: int, j: int|
                0 <= i < self.routes@.len() && 0 <= j < self.routes@[i].prefixes@.len() implies (
            #[trigger] self.routes@[i].prefixes@[j]).wf() by {
                if i < first.len() {
                    assert(first[i].prefixes@[j].wf());
                } else {
                    assert(second[i - first.len()].prefixes@[j].wf());
                }
            }
        }
        self.normalize()
    }

    /// Prefixes of all routes.
    pub fn prefix_count(&self) -> (r: usize)
        requires
            total_prefixes(origins(self.routes@)) <= usize::MAX,
        ensures
            r == total_prefixes(origins(self.routes@)),
    {
        let mut count: usize = 0;
        let mut index: usize = 0;
        let ghost all = origins(self.routes@);
        assert(all.take(0).len() == 0);
        while index < self.routes.len()
            invariant
                all == origins(self.routes@),
                total_prefixes(all) <= usize::MAX,
                index <= self.routes@.len(),
                count == total_prefixes(all.take(index as int)),
            decreases self.routes@.len() - index,
        {
            proof {
                assert(all.take(index + 1).drop_last() =~= all.take(index as int));
                lemma_total_is_monotonic(all, index + 1);
            }
            count = count + self.routes[index].prefixes.len();
            index = index + 1;
        }
        assert(all.take(index as int) =~= all);
        count
    }
}

/// The first routes hold no more prefixes than all.
proof fn lemma_total_is_monotonic(routes: Seq<OriginModel>, count: int)
    requires
        0 <= count <= routes.len(),
    ensures
        total_prefixes(routes.take(count)) <= total_prefixes(routes),
    decreases routes.len(),
{
    if count < routes.len() {
        assert(routes.drop_last().take(count) =~= routes.take(count));
        lemma_total_is_monotonic(routes.drop_last(), count);
    } else {
        assert(routes.take(count) =~= routes);
    }
}

/// The normal form is fixed by who owns what.
pub proof fn lemma_normal_form_is_unique(a: Seq<OriginModel>, b: Seq<OriginModel>)
    requires
        is_normal(a),
        is_normal(b),
        forall|owner: Seq<u8>, prefix: IpNet|
            #[trigger] owns(a, owner, prefix) == owns(b, owner, prefix),
    ensures
        a == b,
{
    assert forall|i: int| 0 <= i < a.len() implies b.contains(#[trigger] a[i]) by {
        lemma_same_origin(a, b, i);
    }
    assert forall|i: int| 0 <= i < b.len() implies a.contains(#[trigger] b[i]) by {
        lemma_same_origin(b, a, i);
    }
    assert forall|x: OriginModel| a.to_set().contains(x) == b.to_set().contains(x) by {
        if a.contains(x) {
            let i = choose|i: int| 0 <= i < a.len() && a[i] == x;
            assert(b.contains(a[i]));
        }
        if b.contains(x) {
            let i = choose|i: int| 0 <= i < b.len() && b[i] == x;
            assert(a.contains(b[i]));
        }
    }
    assert(a.to_set() =~= b.to_set());
    lemma_strictly_sorted_by_is_unique(a, b, |origin: OriginModel| owner_key(origin.owner));
}

/// In normal form an owner has one route.
proof fn lemma_one_route(routes: Seq<OriginModel>, i: int, j: int)
    requires
        is_normal(routes),
        0 <= i < routes.len(),
        0 <= j < routes.len(),
        routes[i].owner == routes[j].owner,
    ensures
        i == j,
{
    let ks = routes.map_values(|origin: OriginModel| owner_key(origin.owner));
    assert(is_strictly_sorted(ks));
    assert(ks[i] == owner_key(routes[i].owner));
    assert(ks[j] == owner_key(routes[j].owner));
    if i < j {
        assert(key_le(ks[i], ks[j]));
    } else if j < i {
        assert(key_le(ks[j], ks[i]));
    }
}

/// In normal form an owner's route is fixed by what the owner has.
proof fn lemma_same_origin(a: Seq<OriginModel>, b: Seq<OriginModel>, at: int)
    requires
        is_normal(a),
        is_normal(b),
        forall|owner: Seq<u8>, prefix: IpNet|
            #[trigger] owns(a, owner, prefix) == owns(b, owner, prefix),
        0 <= at < a.len(),
    ensures
        b.contains(a[at]),
{
    let owner = a[at].owner;
    assert(is_normal_origin(a[at]));
    let first = a[at].prefixes[0];
    assert(a[at].prefixes.contains(first));
    assert(owns(a, owner, first));
    assert(owns(b, owner, first));
    let other = choose|i: int|
        0 <= i < b.len() && (#[trigger] b[i]).owner == owner && b[i].prefixes.contains(first);
    assert(is_normal_origin(b[other]));
    let left = a[at].prefixes;
    let right = b[other].prefixes;
    assert forall|p: IpNet| left.to_set().contains(p) == right.to_set().contains(p) by {
        assert(owns(a, owner, p) == owns(b, owner, p));
        if left.contains(p) {
            assert(owns(a, owner, p));
            let i = choose|i: int|
                0 <= i < b.len() && (#[trigger] b[i]).owner == owner && b[i].prefixes.contains(p);
            lemma_one_route(b, i, other);
        }
        if right.contains(p) {
            assert(owns(b, owner, p));
            let i = choose|i: int|
                0 <= i < a.len() && (#[trigger] a[i]).owner == owner && a[i].prefixes.contains(p);
            lemma_one_route(a, i, at);
        }
    }
    assert(left.to_set() =~= right.to_set());
    lemma_strictly_sorted_by_is_unique(left, right, |prefix: IpNet| prefix_key(prefix));
    assert(b[other] =~= a[at]);
}

/// Normalising again changes nothing.
pub proof fn lemma_normalize_is_idempotent(
    routes: Seq<OriginModel>,
    once: Seq<OriginModel>,
    twice: Seq<OriginModel>,
)
    requires
        is_normal_form_of(once, routes),
        is_normal_form_of(twice, once),
    ensures
        twice == once,
{
    lemma_normal_form_is_unique(once, twice);
}

/// Merging in either order gives the same routes.
pub proof fn lemma_merge_is_commutative(
    a: Seq<OriginModel>,
    b: Seq<OriginModel>,
    ab: Seq<OriginModel>,
    ba: Seq<OriginModel>,
)
    requires
        is_normal_form_of(ab, a + b),
        is_normal_form_of(ba, b + a),
    ensures
        ab == ba,
{
    assert forall|owner: Seq<u8>, prefix: IpNet|
        #[trigger] owns(ab, owner, prefix) == owns(ba, owner, prefix) by {
        lemma_owns_concat(a, b, owner, prefix);
        lemma_owns_concat(b, a, owner, prefix);
        assert(owns(ab, owner, prefix) == owns(a + b, owner, prefix));
        assert(owns(ba, owner, prefix) == owns(b + a, owner, prefix));
    }
    lemma_normal_form_is_unique(ab, ba);
}

/// Both runs of routes count.
pub proof fn lemma_owns_concat(
    a: Seq<OriginModel>,
    b: Seq<OriginModel>,
    owner: Seq<u8>,
    prefix: IpNet,
)
    ensures
        owns(a + b, owner, prefix) == (owns(a, owner, prefix) || owns(b, owner, prefix)),
{
    let all = a + b;
    if owns(a, owner, prefix) {
        let i = choose|i: int|
            0 <= i < a.len() && (#[trigger] a[i]).owner == owner && a[i].prefixes.contains(prefix);
        assert(all[i] == a[i]);
    }
    if owns(b, owner, prefix) {
        let i = choose|i: int|
            0 <= i < b.len() && (#[trigger] b[i]).owner == owner && b[i].prefixes.contains(prefix);
        assert(all[a.len() + i] == b[i]);
    }
    if owns(all, owner, prefix) {
        let i = choose|i: int|
            0 <= i < all.len() && (#[trigger] all[i]).owner == owner && all[i].prefixes.contains(
                prefix,
            );
        if i < a.len() {
            assert(a[i] == all[i]);
        } else {
            assert(b[i - a.len()] == all[i]);
        }
    }
}

/// The prefix of plain values.
pub open spec fn net_of(parts: (bool, u128, u8)) -> IpNet {
    IpNet {
        addr: if parts.0 {
            IpAddr::V6(parts.1)
        } else {
            IpAddr::V4(parts.1 as u32)
        },
        prefix_len: parts.2,
    }
}

/// The prefixes other than one, in order.
pub open spec fn others(prefixes: Seq<IpNet>, prefix: IpNet) -> Seq<IpNet> {
    prefixes.filter(|candidate: IpNet| candidate != prefix)
}

/// The routes without one prefix. Owners that are left without prefixes go.
pub open spec fn without_prefix(routes: Seq<OriginModel>, prefix: IpNet) -> Seq<OriginModel>
    decreases routes.len(),
{
    if routes.len() == 0 {
        Seq::empty()
    } else {
        let rest = without_prefix(routes.drop_last(), prefix);
        let kept = others(routes.last().prefixes, prefix);
        if kept.len() == 0 {
            rest
        } else {
            rest.push(OriginModel { owner: routes.last().owner, prefixes: kept })
        }
    }
}

/// The routes without one owner.
pub open spec fn without_owner(routes: Seq<OriginModel>, owner: Seq<u8>) -> Seq<OriginModel> {
    routes.filter(|origin: OriginModel| origin.owner != owner)
}

/// What a selector leaves of the routes: it names a prefix or else an owner.
pub open spec fn selected(routes: Seq<OriginModel>, selector: Seq<char>) -> Option<Seq<OriginModel>> {
    match parsed_prefix(selector) {
        Some(parts) => Some(without_prefix(routes, net_of(parts))),
        None => match parsed_endpoint(selector) {
            Some(owner) => Some(without_owner(routes, owner)),
            None => None,
        },
    }
}

/// One more prefix.
proof fn lemma_others_push(prefixes: Seq<IpNet>, next: IpNet, prefix: IpNet)
    ensures
        others(prefixes.push(next), prefix) == if next != prefix {
            others(prefixes, prefix).push(next)
        } else {
            others(prefixes, prefix)
        },
{
    reveal(Seq::filter);
    assert(prefixes.push(next).drop_last() =~= prefixes);
}

/// Prefixes other than one, in order.
fn other_prefixes(prefixes: &Vec<IpNet>, prefix: IpNet) -> (r: Vec<IpNet>)
    ensures
        r@ == others(prefixes@, prefix),
        r@.len() <= prefixes@.len(),
        forall|i: int| 0 <= i < r@.len() ==> prefixes@.contains(#[trigger] r@[i]),
{
    let mut kept: Vec<IpNet> = Vec::new();
    let mut index: usize = 0;
    proof {
        reveal(Seq::filter);
        assert(kept@ =~= others(prefixes@.take(0), prefix));
    }
    while index < prefixes.len()
        invariant
            index <= prefixes@.len(),
            kept@ == others(prefixes@.take(index as int), prefix),
            kept@.len() <= index,
            forall|i: int| 0 <= i < kept@.len() ==> prefixes@.contains(#[trigger] kept@[i]),
        decreases prefixes@.len() - index,
    {
        proof {
            lemma_others_push(prefixes@.take(index as int), prefixes@[index as int], prefix);
            assert(prefixes@.take(index + 1) =~= prefixes@.take(index as int).push(
                prefixes@[index as int],
            ));
            assert(prefixes@.contains(prefixes@[index as int]));
        }
        if prefixes[index] != prefix {
            kept.push(prefixes[index]);
        }
        index = index + 1;
    }
    assert(prefixes@.take(index as int) =~= prefixes@);
    kept
}

/// The routes without one prefix.
fn drop_prefix(routes: &Vec<RouteOriginConfig>, prefix: IpNet) -> (r: Vec<RouteOriginConfig>)
    requires
        routes_wf(routes@),
    ensures
        origins(r@) == without_prefix(origins(routes@), prefix),
        total_prefixes(origins(r@)) <= total_prefixes(origins(routes@)),
        routes_wf(r@),
{
    let mut kept: Vec<RouteOriginConfig> = Vec::new();
    let mut index: usize = 0;
    let ghost all = origins(routes@);
    proof {
        assert(all.take(0).len() == 0);
        assert(origins(kept@) =~= Seq::empty());
    }
    while index < routes.len()
        invariant
            all == origins(routes@),
            routes_wf(routes@),
            routes_wf(kept@),
            index <= routes@.len(),
            origins(kept@) == without_prefix(all.take(index as int), prefix),
            total_prefixes(origins(kept@)) <= total_prefixes(all.take(index as int)),
        decreases routes@.len() - index,
    {
        let ghost before = kept@;
        let prefixes: Vec<IpNet> = other_prefixes(&routes[index].prefixes, prefix);
        proof {
            assert(all.take(index + 1).drop_last() =~= all.take(index as int));
            assert(all.take(index + 1).last() == routes@[index as int].model());
        }
        if prefixes.len() > 0 {
            let ghost list = prefixes@;
            kept.push(RouteOriginConfig { endpoint_id: routes[index].endpoint_id, prefixes });
            proof {
                let last = kept@.last().model();
                assert(origins(kept@) =~= origins(before).push(last));
                assert(origins(kept@).drop_last() =~= origins(before));
                assert forall|i: int, j: int|
                    0 <= i < kept@.len() && 0 <= j < kept@[i].prefixes@.len() implies (
                #[trigger] kept@[i].prefixes@[j]).wf() by {
                    if i < before.len() {
                        assert(before[i].prefixes@[j].wf());
                    } else {
                        let source = routes@[index as int].prefixes@;
                        assert(source.contains(list[j]));
                        let k = choose|k: int| 0 <= k < source.len() && source[k] == list[j];
                        assert(routes@[index as int].prefixes@[k].wf());
                    }
                }
            }
        }
        index = index + 1;
    }
    assert(all.take(index as int) =~= all);
    kept
}

/// The routes without one owner.
fn drop_owner(routes: &Vec<RouteOriginConfig>, owner: &EndpointId) -> (r: Vec<RouteOriginConfig>)
    requires
        routes_wf(routes@),
    ensures
        origins(r@) == without_owner(origins(routes@), owner@),
        total_prefixes(origins(r@)) <= total_prefixes(origins(routes@)),
        routes_wf(r@),
{
    let mut kept: Vec<RouteOriginConfig> = Vec::new();
    let mut index: usize = 0;
    let ghost all = origins(routes@);
    let ghost keep = |origin: OriginModel| origin.owner != owner@;
    proof {
        reveal(Seq::filter);
        assert(all.take(0).len() == 0);
        assert(origins(kept@) =~= all.take(0).filter(keep));
    }
    while index < routes.len()
        invariant
            all == origins(routes@),
            keep == (|origin: OriginModel| origin.owner != owner@),
            routes_wf(routes@),
            routes_wf(kept@),
            index <= routes@.len(),
            origins(kept@) == all.take(index as int).filter(keep),
            total_prefixes(origins(kept@)) <= total_prefixes(all.take(index as int)),
        decreases routes@.len() - index,
    {
        let ghost before = kept@;
        proof {
            reveal(Seq::filter);
            assert(all.take(index + 1).drop_last() =~= all.take(index as int));
            assert(all.take(index + 1).last() == routes@[index as int].model());
        }
        if !routes[index].endpoint_id.same(owner) {
            let prefixes: Vec<IpNet> = copy_all(&routes[index].prefixes);
            let ghost list = prefixes@;
            kept.push(RouteOriginConfig { endpoint_id: routes[index].endpoint_id, prefixes });
            proof {
                let last = kept@.last().model();
                assert(last == routes@[index as int].model());
                assert(origins(kept@) =~= origins(before).push(last));
                assert(origins(kept@).drop_last() =~= origins(before));
                assert forall|i: int, j: int|
                    0 <= i < kept@.len() && 0 <= j < kept@[i].prefixes@.len() implies (
                #[trigger] kept@[i].prefixes@[j]).wf() by {
                    if i < before.len() {
                        assert(before[i].prefixes@[j].wf());
                    } else {
                        assert(list[j] == routes@[index as int].prefixes@[j]);
                        assert(routes@[index as int].prefixes@[j].wf());
                    }
                }
            }
        }
        index = index + 1;
    }
    assert(all.take(index as int) =~= all);
    kept
}

/// The prefixes with their owners, in order.
pub open spec fn pairs(routes: Seq<OriginModel>) -> Seq<(IpNet, Seq<u8>)>
    decreases routes.len(),
{
    if routes.len() == 0 {
        Seq::empty()
    } else {
        pairs(routes.drop_last()) + routes.last().prefixes.map_values(
            |prefix: IpNet| (prefix, routes.last().owner),
        )
    }
}

/// The place of a pair: by the prefix's text, then by the owner's.
pub open spec fn flat_key(pair: (IpNet, Seq<u8>)) -> Seq<int> {
    pair_key(prefix_key(pair.0), owner_key(pair.1))
}

/// Pairs over the owner's key.
pub open spec fn pair_views(list: Seq<(IpNet, EndpointId)>) -> Seq<(IpNet, Seq<u8>)> {
    list.map_values(|pair: (IpNet, EndpointId)| (pair.0, pair.1@))
}

/// Whether an entry carries the texts of its prefix and owner.
spec fn entry_by_prefix(entry: RouteEntry) -> bool {
    &&& entry.first@ == prefix_text(entry.prefix)
    &&& entry.second@ == hex_text(entry.owner@)
}

/// The pair of an entry.
spec fn entry_pair(entry: RouteEntry) -> (IpNet, Seq<u8>) {
    (entry.prefix, entry.owner@)
}

/// Every prefix of every route becomes an entry, ordered by prefix.
fn flat_entries(routes: &Vec<RouteOriginConfig>) -> (r: Vec<RouteEntry>)
    requires
        routes_wf(routes@),
    ensures
        forall|i: int| 0 <= i < r@.len() ==> entry_by_prefix(#[trigger] r@[i]),
        r@.map_values(|entry: RouteEntry| entry_pair(entry)) == pairs(origins(routes@)),
{
    let mut entries: Vec<RouteEntry> = Vec::new();
    let mut index: usize = 0;
    let ghost all = origins(routes@);
    let ghost of = |entry: RouteEntry| entry_pair(entry);
    proof {
        assert(all.take(0).len() == 0);
        assert(entries@.map_values(of) =~= pairs(all.take(0)));
    }
    while index < routes.len()
        invariant
            all == origins(routes@),
            of == (|entry: RouteEntry| entry_pair(entry)),
            routes_wf(routes@),
            index <= routes@.len(),
            forall|i: int| 0 <= i < entries@.len() ==> entry_by_prefix(#[trigger] entries@[i]),
            entries@.map_values(of) == pairs(all.take(index as int)),
        decreases routes@.len() - index,
    {
        let owner: EndpointId = routes[index].endpoint_id;
        let prefixes: &Vec<IpNet> = &routes[index].prefixes;
        let text: String = owner.to_text();
        let ghost before = entries@;
        let ghost with = |prefix: IpNet| (prefix, owner@);
        let mut at: usize = 0;
        proof {
            assert(entries@.map_values(of) =~= before.map_values(of) + prefixes@.take(0).map_values(
                with,
            ));
        }
        while at < prefixes.len()
            invariant
                of == (|entry: RouteEntry| entry_pair(entry)),
                with == (|prefix: IpNet| (prefix, owner@)),
                text@ == hex_text(owner@),
                routes_wf(routes@),
                index < routes@.len(),
                prefixes@ == routes@[index as int].prefixes@,
                at <= prefixes@.len(),
                forall|i: int| 0 <= i < entries@.len() ==> entry_by_prefix(#[trigger] entries@[i]),
                entries@.map_values(of) == before.map_values(of) + prefixes@.take(
                    at as int,
                ).map_values(with),
            decreases prefixes@.len() - at,
        {
            let prefix: IpNet = prefixes[at];
            assert(routes@[index as int].prefixes@[at as int].wf());
            let ghost earlier = entries@;
            entries.push(
                RouteEntry {
                    owner,
                    prefix,
                    first: format_prefix(&prefix),
                    second: text.clone(),
                },
            );
            proof {
                assert(entries@.map_values(of) =~= earlier.map_values(of).push((prefix, owner@)));
                assert(prefixes@.take(at + 1).map_values(with) =~= prefixes@.take(
                    at as int,
                ).map_values(with).push((prefix, owner@)));
                assert(entries@.map_values(of) =~= before.map_values(of) + prefixes@.take(
                    at + 1,
                ).map_values(with));
            }
            at = at + 1;
        }
        proof {
            assert(prefixes@.take(at as int) =~= prefixes@);
            assert(all.take(index + 1).drop_last() =~= all.take(index as int));
            assert(all.take(index + 1).last() == routes@[index as int].model());
            let last = all.take(index + 1).last();
            assert(last.prefixes.map_values(|prefix: IpNet| (prefix, last.owner))
                =~= prefixes@.map_values(with));
            assert(entries@.map_values(of) =~= pairs(all.take(index + 1)));
        }
        index = index + 1;
    }
    assert(all.take(index as int) =~= all);
    entries
}

impl RouteRegistry {
    /// Remove a prefix from every owner, or an owner with all its prefixes, and
    /// tell how many prefixes went.
    pub fn remove(&mut self, selector: &str) -> (r: Result<usize, RouteErrorV2>)
        requires
            routes_wf(old(self).routes@),
            total_prefixes(origins(old(self).routes@)) <= usize::MAX,
        ensures
            final(self).version == old(self).version,
            routes_wf(final(self).routes@),
            match selected(origins(old(self).routes@), selector@) {
                Some(rest) => origins(final(self).routes@) == rest && r == Ok::<usize, RouteErrorV2>(
                    (total_prefixes(origins(old(self).routes@)) - total_prefixes(rest)) as usize,
                ) && total_prefixes(rest) <= total_prefixes(origins(old(self).routes@)),
                None => r == Err::<usize, RouteErrorV2>(RouteErrorV2::InvalidSelector)
                    && final(self).routes@ == old(self).routes@,
            },
    {
        if let Some(prefix) = parse_prefix(selector) {
            let before: usize = self.prefix_count();
            self.routes = drop_prefix(&self.routes, prefix);
            return Ok(before - self.prefix_count());
        }
        match EndpointId::parse(selector) {
            Ok(owner) => {
                let before: usize = self.prefix_count();
                self.routes = drop_owner(&self.routes, &owner);
                Ok(before - self.prefix_count())
            },
            Err(_) => Err(RouteErrorV2::InvalidSelector),
        }
    }

    /// Every prefix with its owner, in the order of the prefixes' texts, then
    /// of the owners'.
    pub fn flattened(&self) -> (r: Vec<(IpNet, EndpointId)>)
        requires
            routes_wf(self.routes@),
        ensures
            pair_views(r@).to_multiset() == pairs(origins(self.routes@)).to_multiset(),
            is_sorted(
                pair_views(r@).map_values(|pair: (IpNet, Seq<u8>)| flat_key(pair)),
            ),
    {
        let entries: Vec<RouteEntry> = flat_entries(&self.routes);
        let ghost all = entries@;
        let ordered: Vec<RouteEntry> = sorted(entries);
        let ghost of = |entry: RouteEntry| entry_pair(entry);
        let mut list: Vec<(IpNet, EndpointId)> = Vec::new();
        let mut index: usize = 0;
        proof {
            crate::sort::lemma_map_keeps_multiset(ordered@, all, of);
        }
        while index < ordered.len()
            invariant
                index <= ordered@.len(),
                list@.len() == index,
                of == (|entry: RouteEntry| entry_pair(entry)),
                forall|i: int|
                    0 <= i < index ==> (#[trigger] list@[i]).0 == ordered@[i].prefix && list@[i].1
                        == ordered@[i].owner,
            decreases ordered@.len() - index,
        {
            list.push((ordered[index].prefix, ordered[index].owner));
            index = index + 1;
        }
        proof {
            assert(pair_views(list@) =~= ordered@.map_values(of));
            let flat = |pair: (IpNet, Seq<u8>)| flat_key(pair);
            assert(pair_views(list@).map_values(flat) =~= keys(ordered@)) by {
                assert forall|i: int| 0 <= i < ordered@.len() implies flat_key(
                    entry_pair(#[trigger] ordered@[i]),
                ) == ordered@[i].key() by {
                    lemma_sorted_member(all, ordered@, i);
                    let j = choose|j: int| 0 <= j < all.len() && all[j] == ordered@[i];
                    assert(entry_by_prefix(all[j]));
                }
            }
        }
        list
    }
}

/// What is in the sorted run was in the run.
proof fn lemma_sorted_member(all: Seq<RouteEntry>, ordered: Seq<RouteEntry>, at: int)
    requires
        ordered.to_multiset() == all.to_multiset(),
        0 <= at < ordered.len(),
    ensures
        all.contains(ordered[at]),
{
    broadcast use vstd::seq_lib::group_to_multiset_ensures;

    assert(ordered.contains(ordered[at]));
    assert(ordered.to_multiset().contains(ordered[at]));
    assert(all.to_multiset().contains(ordered[at]));
}

/// The prefixes that words spell, if each spells one.
pub open spec fn spelled_prefixes(text: Seq<char>, words: Seq<(int, int)>) -> Option<Seq<IpNet>>
    decreases words.len(),
{
    if words.len() == 0 {
        Some(Seq::empty())
    } else {
        match spelled_prefixes(text, words.drop_last()) {
            Some(earlier) => match parsed_prefix(text.subrange(words.last().0, words.last().1)) {
                Some(parts) => Some(earlier.push(net_of(parts))),
                None => None,
            },
            None => None,
        }
    }
}

/// What one line says: an owner and its prefixes, or nothing. A comment starts
/// with `#`.
pub open spec fn line_origin(text: Seq<char>, from: int, to: int, before: int) -> Result<
    Option<OriginModel>,
    RouteErrorV2,
> {
    let words = word_places(text, from, next_char(text, from, to, '#'), false);
    let line = (before + 1) as usize;
    if words.len() == 0 {
        Ok(None)
    } else {
        match parsed_endpoint(text.subrange(words[0].0, words[0].1)) {
            None => Err(RouteErrorV2::InvalidEndpoint { line }),
            Some(owner) => match spelled_prefixes(text, words.skip(1)) {
                None => Err(RouteErrorV2::InvalidPrefix { line }),
                Some(prefixes) => if prefixes.len() == 0 {
                    Err(RouteErrorV2::MissingPrefix { line })
                } else {
                    Ok(Some(OriginModel { owner, prefixes }))
                },
            },
        }
    }
}

/// Nothing or one.
pub open spec fn at_most_one(found: Option<OriginModel>) -> Seq<OriginModel> {
    match found {
        Some(origin) => seq![origin],
        None => Seq::empty(),
    }
}

/// What the lines from a place on say, or the first line that is wrong.
pub open spec fn lines_from(text: Seq<char>, from: int, before: int) -> Result<
    Seq<OriginModel>,
    RouteErrorV2,
>
    decreases text.len() - from,
{
    let end = next_char(text, from, text.len() as int, '\n');
    match line_origin(text, from, end, before) {
        Err(error) => Err(error),
        Ok(found) => if end >= text.len() || end < from {
            Ok(at_most_one(found))
        } else {
            match lines_from(text, end + 1, before + 1) {
                Err(error) => Err(error),
                Ok(rest) => Ok(at_most_one(found) + rest),
            }
        },
    }
}

/// Earlier routes in front of what follows.
pub open spec fn with_earlier(
    earlier: Seq<OriginModel>,
    rest: Result<Seq<OriginModel>, RouteErrorV2>,
) -> Result<Seq<OriginModel>, RouteErrorV2> {
    match rest {
        Ok(later) => Ok(earlier + later),
        Err(error) => Err(error),
    }
}

/// The prefixes that words spell, if each spells one.
fn read_prefixes(raw: &str, words: &Vec<(usize, usize)>, from: usize) -> (r: Option<Vec<IpNet>>)
    requires
        from <= words@.len(),
        forall|i: int|
            0 <= i < words@.len() ==> (#[trigger] words@[i]).0 <= words@[i].1 <= raw@.len(),
    ensures
        match r {
            Some(prefixes) => spelled_prefixes(raw@, places(words@).skip(from as int)) == Some(
                prefixes@,
            ) && forall|i: int| 0 <= i < prefixes@.len() ==> (#[trigger] prefixes@[i]).wf(),
            None => spelled_prefixes(raw@, places(words@).skip(from as int)) is None,
        },
{
    let mut prefixes: Vec<IpNet> = Vec::new();
    let mut index: usize = from;
    let ghost all = places(words@).skip(from as int);
    proof {
        assert(all.take(0).len() == 0);
    }
    while index < words.len()
        invariant
            all == places(words@).skip(from as int),
            from <= index <= words@.len(),
            forall|i: int|
                0 <= i < words@.len() ==> (#[trigger] words@[i]).0 <= words@[i].1 <= raw@.len(),
            spelled_prefixes(raw@, all.take(index - from)) == Some(prefixes@),
            forall|i: int| 0 <= i < prefixes@.len() ==> (#[trigger] prefixes@[i]).wf(),
        decreases words@.len() - index,
    {
        let place: (usize, usize) = words[index];
        proof {
            let longer = all.take(index - from + 1);
            assert(longer.drop_last() =~= all.take(index - from));
            assert(longer.last() == (place.0 as int, place.1 as int));
        }
        match parse_prefix(raw.substring_char(place.0, place.1)) {
            Some(prefix) => {
                prefixes.push(prefix);
            },
            None => {
                proof {
                    lemma_spelling_fails(raw@, all, index - from + 1);
                }
                return None;
            },
        }
        index = index + 1;
    }
    assert(all.take(index - from) =~= all);
    Some(prefixes)
}

/// One word that is no prefix spoils the rest.
proof fn lemma_spelling_fails(text: Seq<char>, words: Seq<(int, int)>, count: int)
    requires
        0 <= count <= words.len(),
        spelled_prefixes(text, words.take(count)) is None,
    ensures
        spelled_prefixes(text, words) is None,
    decreases words.len(),
{
    if count < words.len() {
        assert(words.drop_last().take(count) =~= words.take(count));
        lemma_spelling_fails(text, words.drop_last(), count);
    } else {
        assert(words.take(count) =~= words);
    }
}

/// What one line says.
fn read_line(raw: &str, text: &Vec<char>, from: usize, to: usize, before: usize) -> (r: Result<
    Option<RouteOriginConfig>,
    RouteErrorV2,
>)
    requires
        text@ == raw@,
        from <= to <= text@.len(),
        before <= from,
    ensures
        match r {
            Ok(Some(route)) => line_origin(raw@, from as int, to as int, before as int) == Ok::<
                Option<OriginModel>,
                RouteErrorV2,
            >(Some(route.model())) && forall|j: int|
                0 <= j < route.prefixes@.len() ==> (#[trigger] route.prefixes@[j]).wf(),
            Ok(None) => line_origin(raw@, from as int, to as int, before as int) == Ok::<
                Option<OriginModel>,
                RouteErrorV2,
            >(None),
            Err(error) => line_origin(raw@, from as int, to as int, before as int) == Err::<
                Option<OriginModel>,
                RouteErrorV2,
            >(error),
        },
{
    let cut: usize = find_char(text, from, to, '#');
    let words: Vec<(usize, usize)> = find_words(text, from, cut, false);
    assert(places(words@).len() == words@.len());
    if words.len() == 0 {
        return Ok(None);
    }
    assert(places(words@)[0] == (words@[0].0 as int, words@[0].1 as int));
    let line: usize = before + 1;
    let owner: EndpointId = match EndpointId::parse(raw.substring_char(words[0].0, words[0].1)) {
        Ok(owner) => owner,
        Err(_) => return Err(RouteErrorV2::InvalidEndpoint { line }),
    };
    let prefixes: Vec<IpNet> = match read_prefixes(raw, &words, 1) {
        Some(prefixes) => prefixes,
        None => return Err(RouteErrorV2::InvalidPrefix { line }),
    };
    if prefixes.len() == 0 {
        return Err(RouteErrorV2::MissingPrefix { line });
    }
    Ok(Some(RouteOriginConfig { endpoint_id: owner, prefixes }))
}

/// No owner is without prefixes.
proof fn lemma_no_empty_owner(routes: Seq<OriginModel>)
    requires
        forall|i: int| 0 <= i < routes.len() ==> (#[trigger] routes[i]).prefixes.len() > 0,
    ensures
        empty_owner(routes) is None,
    decreases routes.len(),
{
    if routes.len() > 0 {
        assert(routes[0].prefixes.len() > 0);
        let rest = routes.drop_first();
        assert forall|i: int| 0 <= i < rest.len() implies (
        #[trigger] rest[i]).prefixes.len() > 0 by {
            assert(rest[i] == routes[i + 1]);
        }
        lemma_no_empty_owner(rest);
    }
}

impl RouteRegistry {
    /// Read one owner and one or more prefixes per line. Blank lines and
    /// comments, which start with `#`, are skipped. The first line that is
    /// wrong names the error; lines are counted from one.
    pub fn parse_lines(raw: &str) -> (r: Result<RouteRegistry, RouteErrorV2>)
        ensures
            match lines_from(raw@, 0, 0) {
                Ok(found) => (r matches Ok(registry) && registry.version == ROUTE_FILE_VERSION
                    && is_normal_form_of(origins(registry.routes@), found) && routes_wf(
                    registry.routes@,
                )),
                Err(error) => r == Err::<RouteRegistry, RouteErrorV2>(error),
            },
    {
        let text: Vec<char> = chars_of(raw);
        let mut routes: Vec<RouteOriginConfig> = Vec::new();
        let mut from: usize = 0;
        let mut before: usize = 0;
        let ghost whole = lines_from(raw@, 0, 0);
        proof {
            assert(origins(routes@) =~= Seq::empty());
            match whole {
                Ok(found) => {
                    assert(Seq::empty() + found =~= found);
                },
                Err(_) => {},
            }
        }
        loop
            invariant_except_break
                text@ == raw@,
                before <= from <= text@.len(),
                whole == with_earlier(
                    origins(routes@),
                    lines_from(raw@, from as int, before as int),
                ),
                whole == lines_from(raw@, 0, 0),
                routes_wf(routes@),
                forall|i: int|
                    0 <= i < routes@.len() ==> (#[trigger] routes@[i]).prefixes@.len() > 0,
            ensures
                whole == Ok::<Seq<OriginModel>, RouteErrorV2>(origins(routes@)),
                routes_wf(routes@),
                forall|i: int|
                    0 <= i < routes@.len() ==> (#[trigger] routes@[i]).prefixes@.len() > 0,
            decreases text@.len() - from,
        {
            let end: usize = find_char(&text, from, text.len(), '\n');
            let ghost earlier = routes@;
            let ghost rest = lines_from(raw@, from as int, before as int);
            match read_line(raw, &text, from, end, before) {
                Err(error) => {
                    return Err(error);
                },
                Ok(found) => {
                    let ghost one = line_origin(raw@, from as int, end as int, before as int);
                    if let Some(route) = found {
                        routes.push(route);
                        proof {
                            assert(origins(routes@) =~= origins(earlier).push(route.model()));
                            assert forall|i: int, j: int|
                                0 <= i < routes@.len() && 0 <= j
                                    < routes@[i].prefixes@.len() implies (
                            #[trigger] routes@[i].prefixes@[j]).wf() by {
                                if i < earlier.len() {
                                    assert(earlier[i].prefixes@[j].wf());
                                } else {
                                    assert(route.prefixes@[j].wf());
                                }
                            }
                        }
                    }
                    proof {
                        assert(one is Ok);
                        assert(origins(routes@) =~= origins(earlier) + at_most_one(one->Ok_0));
                    }
                    if end == text.len() {
                        proof {
                            assert(rest == Ok::<Seq<OriginModel>, RouteErrorV2>(
                                at_most_one(one->Ok_0),
                            ));
                        }
                        break;
                    }
                    proof {
                        let later = lines_from(raw@, end + 1, before + 1);
                        match later {
                            Ok(more) => {
                                assert(origins(earlier) + (at_most_one(one->Ok_0) + more)
                                    =~= origins(routes@) + more);
                            },
                            Err(_) => {},
                        }
                    }
                },
            }
            from = end + 1;
            before = before + 1;
        }
        let ghost found = origins(routes@);
        proof {
            assert forall|i: int| 0 <= i < found.len() implies (
            #[trigger] found[i]).prefixes.len() > 0 by {
                assert(routes@[i].prefixes@.len() > 0);
            }
            lemma_no_empty_owner(found);
        }
        let mut registry: RouteRegistry = RouteRegistry { version: ROUTE_FILE_VERSION, routes };
        match registry.normalize() {
            Ok(()) => Ok(registry),
            Err(error) => Err(error),
        }
    }

    /// The operator's routes together with those of the extensions that are
    /// active, in normal form.
    pub fn compose(operator: RouteRegistry, extensions: Vec<RouteOriginConfig>) -> (r: Result<
        RouteRegistry,
        RouteErrorV2,
    >)
        requires
            routes_wf(operator.routes@),
            routes_wf(extensions@),
        ensures
            operator.version != ROUTE_FILE_VERSION ==> (r matches Err(
                RouteErrorV2::UnsupportedVersion { found },
            ) && found == operator.version),
            operator.version == ROUTE_FILE_VERSION ==> match empty_owner(
                origins(operator.routes@) + origins(extensions@),
            ) {
                Some(owner) => r matches Err(RouteErrorV2::NoPrefixes { owner: found }) && found@
                    == owner,
                None => r matches Ok(registry) && registry.version == ROUTE_FILE_VERSION
                    && is_normal_form_of(
                    origins(registry.routes@),
                    origins(operator.routes@) + origins(extensions@),
                ) && routes_wf(registry.routes@),
            },
    {
        let mut registry: RouteRegistry = operator;
        match registry.merge(RouteRegistry { version: ROUTE_FILE_VERSION, routes: extensions }) {
            Ok(()) => Ok(registry),
            Err(error) => Err(error),
        }
    }

    /// The routes that a configuration runs with. Routes that the main
    /// configuration embeds stand alone where there are no others; else they
    /// are merged with them.
    pub fn compose_with_embedded(dynamic: RouteRegistry, embedded: Vec<RouteOriginConfig>) -> (r:
        Result<Vec<RouteOriginConfig>, RouteErrorV2>)
        requires
            routes_wf(dynamic.routes@),
            routes_wf(embedded@),
        ensures
            dynamic.routes@.len() == 0 ==> r == Ok::<Vec<RouteOriginConfig>, RouteErrorV2>(embedded),
            dynamic.routes@.len() > 0 ==> match empty_owner(
                origins(embedded@) + origins(dynamic.routes@),
            ) {
                Some(owner) => r matches Err(RouteErrorV2::NoPrefixes { owner: found }) && found@
                    == owner,
                None => r matches Ok(routes) && is_normal_form_of(
                    origins(routes@),
                    origins(embedded@) + origins(dynamic.routes@),
                ),
            },
    {
        if dynamic.routes.len() == 0 {
            return Ok(embedded);
        }
        let mut combined: RouteRegistry = RouteRegistry {
            version: ROUTE_FILE_VERSION,
            routes: embedded,
        };
        match combined.merge(dynamic) {
            Ok(()) => Ok(combined.routes),
            Err(error) => Err(error),
        }
    }
}

/// A path without trailing separators and current-directory parts. The root
/// and a leading `.` stay.
pub open spec fn trimmed_path(path: Seq<char>) -> Seq<char>
    decreases path.len(),
{
    if path.len() >= 2 && (path.last() == '/' || (path.last() == '.' && path[path.len() - 2]
        == '/')) {
        trimmed_path(path.drop_last())
    } else {
        path
    }
}

/// One behind the last separator of a path; zero where there is none.
pub open spec fn behind_last_separator(path: Seq<char>) -> int
    decreases path.len(),
{
    if path.len() == 0 || path.last() == '/' {
        path.len() as int
    } else {
        behind_last_separator(path.drop_last())
    }
}

/// The directory that a file stands in, where it has one: the root and the
/// empty path have none.
pub open spec fn parent_path(path: Seq<char>) -> Option<Seq<char>> {
    let file = trimmed_path(path);
    if file.len() == 0 || file == seq!['/'] {
        None
    } else {
        Some(trimmed_path(file.take(behind_last_separator(file))))
    }
}

/// A file name in a directory.
pub open spec fn joined_path(directory: Seq<char>, name: Seq<char>) -> Seq<char> {
    if directory.len() == 0 {
        name
    } else if directory.last() == '/' {
        directory + name
    } else {
        directory + seq!['/'] + name
    }
}

/// The length of a path without trailing separators and current-directory
/// parts.
fn trimmed_length(path: &Vec<char>, length: usize) -> (r: usize)
    requires
        length <= path@.len(),
    ensures
        r <= length,
        path@.take(r as int) == trimmed_path(path@.take(length as int)),
{
    let mut end: usize = length;
    while end >= 2 && (path[end - 1] == '/' || (path[end - 1] == '.' && path[end - 2] == '/'))
        invariant
            end <= length <= path@.len(),
            trimmed_path(path@.take(end as int)) == trimmed_path(path@.take(length as int)),
        decreases end,
    {
        assert(path@.take(end as int).drop_last() =~= path@.take(end - 1));
        end = end - 1;
    }
    end
}

/// One behind the last separator before a place.
fn last_separator(path: &Vec<char>, length: usize) -> (r: usize)
    requires
        length <= path@.len(),
    ensures
        r <= length,
        r == behind_last_separator(path@.take(length as int)),
{
    let mut end: usize = length;
    while end > 0 && path[end - 1] != '/'
        invariant
            end <= length <= path@.len(),
            behind_last_separator(path@.take(end as int)) == behind_last_separator(
                path@.take(length as int),
            ),
        decreases end,
    {
        assert(path@.take(end as int).drop_last() =~= path@.take(end - 1));
        end = end - 1;
    }
    end
}

/// A name beside the node's identity.
pub open spec fn path_beside(identity_file: Seq<char>, name: Seq<char>) -> Seq<char> {
    match parent_path(identity_file) {
        Some(directory) => joined_path(directory, name),
        None => joined_path(seq!['.'], name),
    }
}

/// Where the registry is kept: beside the node's identity, so that ordinary
/// packages and immutable main configurations need no further setting.
pub fn registry_path(identity_file: &str) -> (r: String)
    ensures
        r@ == path_beside(identity_file@, "routes.toml"@),
{
    beside_identity(identity_file, "routes.toml")
}

/// Where learned tuning state is kept: beside the node's identity.
pub fn autotune_state_dir(identity_file: &str) -> (r: String)
    ensures
        r@ == path_beside(identity_file@, "autotune"@),
{
    beside_identity(identity_file, "autotune")
}

/// A name beside the node's identity.
fn beside_identity(identity_file: &str, name: &str) -> (r: String)
    ensures
        r@ == path_beside(identity_file@, name@),
{
    proof {
        reveal_strlit("/");
        reveal_strlit(".");
        assert("/"@ =~= seq!['/']);
        assert("."@ =~= seq!['.']);
    }
    let path: Vec<char> = chars_of(identity_file);
    assert(path@.take(path@.len() as int) =~= path@);
    let file: usize = trimmed_length(&path, path.len());
    let ghost whole = path@.take(file as int);
    if file == 0 || (file == 1 && path[0] == '/') {
        proof {
            if file == 1 {
                assert(whole =~= seq!['/']);
            }
        }
        let mut result: String = ".".to_owned();
        result.append("/");
        result.append(name);
        return result;
    }
    proof {
        if file == 1 {
            assert(whole[0] != '/');
        }
        assert(whole != seq!['/']);
    }
    let cut: usize = last_separator(&path, file);
    assert(whole.take(cut as int) =~= path@.take(cut as int));
    let directory: usize = trimmed_length(&path, cut);
    let mut result: String = identity_file.substring_char(0, directory).to_owned();
    assert(result@ =~= path@.take(directory as int));
    if directory > 0 && path[directory - 1] != '/' {
        result.append("/");
    }
    result.append(name);
    result
}

/// Removing a prefix takes it from every owner and leaves everything else.
pub proof fn lemma_removing_prefix(
    routes: Seq<OriginModel>,
    removed: IpNet,
    owner: Seq<u8>,
    prefix: IpNet,
)
    ensures
        owns(without_prefix(routes, removed), owner, prefix) == (owns(routes, owner, prefix)
            && prefix != removed),
    decreases routes.len(),
{
    if routes.len() > 0 {
        let rest = routes.drop_last();
        let last = routes.last();
        lemma_removing_prefix(rest, removed, owner, prefix);
        lemma_owns_push(rest, last);
        assert(routes =~= rest.push(last));
        lemma_others_contains(last.prefixes, removed, prefix);
        let kept = others(last.prefixes, removed);
        if kept.len() > 0 {
            lemma_owns_push(
                without_prefix(rest, removed),
                OriginModel { owner: last.owner, prefixes: kept },
            );
        } else {
            assert(!kept.contains(prefix));
        }
    }
}

/// Which prefixes are left.
proof fn lemma_others_contains(prefixes: Seq<IpNet>, removed: IpNet, prefix: IpNet)
    ensures
        others(prefixes, removed).contains(prefix) == (prefixes.contains(prefix) && prefix
            != removed),
    decreases prefixes.len(),
{
    if prefixes.len() == 0 {
        reveal(Seq::filter);
    } else {
        let rest = prefixes.drop_last();
        let last = prefixes.last();
        lemma_others_contains(rest, removed, prefix);
        lemma_others_push(rest, last, removed);
        assert(prefixes =~= rest.push(last));
        lemma_contains_push(rest, last, prefix);
        lemma_contains_push(others(rest, removed), last, prefix);
    }
}

/// Removing an owner takes all its prefixes and leaves everything else.
pub proof fn lemma_removing_owner(
    routes: Seq<OriginModel>,
    removed: Seq<u8>,
    owner: Seq<u8>,
    prefix: IpNet,
)
    ensures
        owns(without_owner(routes, removed), owner, prefix) == (owns(routes, owner, prefix) && owner
            != removed),
    decreases routes.len(),
{
    reveal(Seq::filter);
    if routes.len() > 0 {
        let rest = routes.drop_last();
        let last = routes.last();
        lemma_removing_owner(rest, removed, owner, prefix);
        lemma_owns_push(rest, last);
        lemma_owns_push(without_owner(rest, removed), last);
        assert(routes =~= rest.push(last));
    }
}

/// A comment or white space alone is no route: what follows a hash sign is not
/// read, and a line without words adds nothing.
pub proof fn lemma_comments_are_not_read(text: Seq<char>, from: int, hash: int, to: int, before: int)
    requires
        0 <= from <= hash < to <= text.len(),
        text[hash] == '#',
        forall|i: int| from <= i < hash ==> #[trigger] text[i] != '#',
    ensures
        line_origin(text, from, to, before) == line_origin(text, from, hash, before),
        (forall|i: int| from <= i < hash ==> crate::text::is_space(#[trigger] text[i])) ==> line_origin(
            text,
            from,
            to,
            before,
        ) == Ok::<Option<OriginModel>, RouteErrorV2>(None),
{
    crate::text::lemma_next_char_is_the_first(text, from, to, '#');
    crate::text::lemma_next_char_is_the_first(text, from, hash, '#');
    let found = next_char(text, from, to, '#');
    if found < hash {
        assert(text[found] != '#');
    }
    if found > hash {
        assert(text[hash] != '#');
    }
    let short = next_char(text, from, hash, '#');
    if short < hash {
        assert(text[short] != '#');
    }
    if forall|i: int| from <= i < hash ==> crate::text::is_space(#[trigger] text[i]) {
        crate::text::lemma_words_are_the_runs(text, from, hash, hash, hash, false);
    }
}

/// A line names an endpoint and then its prefixes. The line of an error is
/// counted from one, and says whether the endpoint, a prefix or every prefix is
/// missing.
pub proof fn lemma_line_names_its_error(text: Seq<char>, from: int, to: int, before: int)
    requires
        0 <= before < usize::MAX,
        0 <= from <= to <= text.len(),
        forall|i: int| from <= i < to ==> #[trigger] text[i] != '#',
        word_places(text, from, to, false).len() > 0,
    ensures
        ({
            let words = word_places(text, from, to, false);
            let endpoint = parsed_endpoint(text.subrange(words[0].0, words[0].1));
            let result = line_origin(text, from, to, before);
            &&& endpoint is None ==> (result matches Err(
                RouteErrorV2::InvalidEndpoint { line },
            ) && line == before + 1)
            &&& endpoint is Some && words.len() == 1 ==> (result matches Err(
                RouteErrorV2::MissingPrefix { line },
            ) && line == before + 1)
            &&& endpoint matches Some(owner) ==> (words.len() == 2 ==> match parsed_prefix(
                text.subrange(words[1].0, words[1].1),
            ) {
                Some(parts) => result == Ok::<Option<OriginModel>, RouteErrorV2>(
                    Some(OriginModel { owner, prefixes: seq![net_of(parts)] }),
                ),
                None => result matches Err(RouteErrorV2::InvalidPrefix { line }) && line == before
                    + 1,
            })
        }),
{
    crate::text::lemma_next_char_is_the_first(text, from, to, '#');
    let words = word_places(text, from, to, false);
    let rest = words.skip(1);
    reveal_with_fuel(spelled_prefixes, 3);
    if words.len() == 2 {
        assert(rest.drop_last().len() == 0);
        assert(rest.last() == words[1]);
        if let Some(parts) = parsed_prefix(text.subrange(words[1].0, words[1].1)) {
            assert(Seq::<IpNet>::empty().push(net_of(parts)) =~= seq![net_of(parts)]);
        }
    }
}

/// Lines are read one after another: the routes of the first line come before
/// those of the rest, an error of the first line is the error of the text, and
/// the rest counts its lines on.
pub proof fn lemma_lines_are_read_in_order(text: Seq<char>, from: int, end: int, before: int)
    requires
        0 <= from <= end < text.len(),
        text[end] == '\n',
        forall|i: int| from <= i < end ==> #[trigger] text[i] != '\n',
    ensures
        line_origin(text, from, end, before) matches Err(error) ==> lines_from(text, from, before)
            == Err::<Seq<OriginModel>, RouteErrorV2>(error),
        line_origin(text, from, end, before) matches Ok(None) ==> lines_from(text, from, before)
            == lines_from(text, end + 1, before + 1),
        line_origin(text, from, end, before) matches Ok(Some(origin)) ==> match lines_from(
            text,
            end + 1,
            before + 1,
        ) {
            Ok(rest) => lines_from(text, from, before) == Ok::<Seq<OriginModel>, RouteErrorV2>(
                seq![origin] + rest,
            ),
            Err(error) => lines_from(text, from, before) == Err::<Seq<OriginModel>, RouteErrorV2>(
                error,
            ),
        },
{
    crate::text::lemma_next_char_is_the_first(text, from, text.len() as int, '\n');
    let found = next_char(text, from, text.len() as int, '\n');
    if found < end {
        assert(text[found] != '\n');
    }
    if found > end {
        assert(text[end] != '\n');
    }
    if let Ok(rest) = lines_from(text, end + 1, before + 1) {
        assert(Seq::<OriginModel>::empty() + rest =~= rest);
    }
}

/// The first owner without prefixes is the one that is named.
pub proof fn lemma_first_empty_owner(routes: Seq<OriginModel>, at: int)
    requires
        0 <= at <= routes.len(),
        forall|i: int| 0 <= i < at ==> (#[trigger] routes[i]).prefixes.len() > 0,
    ensures
        at == routes.len() ==> empty_owner(routes) is None,
        at < routes.len() && routes[at].prefixes.len() == 0 ==> empty_owner(routes) == Some(
            routes[at].owner,
        ),
    decreases at,
{
    if at > 0 {
        assert(routes[0].prefixes.len() > 0);
        let rest = routes.drop_first();
        assert forall|i: int| 0 <= i < at - 1 implies (#[trigger] rest[i]).prefixes.len() > 0 by {
            assert(rest[i] == routes[i + 1]);
        }
        lemma_first_empty_owner(rest, at - 1);
    }
}

/// An owner has a prefix exactly where one of its routes lists it, and the flat
/// list holds that prefix beside that owner.
pub proof fn lemma_flat_list_names_every_owner(
    routes: Seq<OriginModel>,
    owner: Seq<u8>,
    prefix: IpNet,
    at: int,
    place: int,
)
    ensures
        0 <= at < routes.len() && routes[at].owner == owner && 0 <= place
            < routes[at].prefixes.len() && routes[at].prefixes[place] == prefix ==> owns(
            routes,
            owner,
            prefix,
        ),
        (forall|i: int|
            0 <= i < routes.len() && (#[trigger] routes[i]).owner == owner
                ==> !routes[i].prefixes.contains(prefix)) ==> !owns(routes, owner, prefix),
        pairs(routes).contains((prefix, owner)) <==> owns(routes, owner, prefix),
    decreases routes.len(),
{
    if routes.len() > 0 {
        let rest = routes.drop_last();
        let last = routes.last();
        lemma_flat_list_names_every_owner(rest, owner, prefix, at, place);
        lemma_owns_push(rest, last);
        assert(rest.push(last) =~= routes);
        let earlier = pairs(rest);
        let later = last.prefixes.map_values(|p: IpNet| (p, last.owner));
        let all = earlier + later;
        assert(pairs(routes) == all);
        if all.contains((prefix, owner)) {
            let i = choose|i: int| 0 <= i < all.len() && all[i] == (prefix, owner);
            if i < earlier.len() {
                assert(earlier[i] == (prefix, owner));
            } else {
                assert(later[i - earlier.len()] == (prefix, owner));
                assert(last.prefixes[i - earlier.len()] == prefix);
                assert(routes[routes.len() - 1].prefixes.contains(prefix));
            }
        }
        if earlier.contains((prefix, owner)) {
            let i = choose|i: int| 0 <= i < earlier.len() && earlier[i] == (prefix, owner);
            assert(all[i] == (prefix, owner));
        }
        if last.owner == owner && last.prefixes.contains(prefix) {
            let i = choose|i: int| 0 <= i < last.prefixes.len() && last.prefixes[i] == prefix;
            assert(later[i] == (prefix, owner));
            assert(all[earlier.len() + i] == (prefix, owner));
        }
        if 0 <= at < routes.len() && routes[at].owner == owner && 0 <= place
            < routes[at].prefixes.len() && routes[at].prefixes[place] == prefix {
            assert(routes[at].prefixes.contains(prefix));
        }
    }
}

/// A file beside the identity file stands in the same directory: what stands
/// behind the last separator is replaced.
pub proof fn lemma_file_beside_the_identity(directory: Seq<char>, file: Seq<char>, name: Seq<char>)
    requires
        file.len() > 0,
        forall|i: int| 0 <= i < file.len() ==> #[trigger] file[i] != '/',
        file != seq!['.'],
    ensures
        directory.len() > 0 && directory.last() != '/' && !(directory.len() >= 2 && directory.last()
            == '.' && directory[directory.len() - 2] == '/') ==> path_beside(
            directory + seq!['/'] + file,
            name,
        ) == directory + seq!['/'] + name,
        path_beside(file, name) == name,
        path_beside(seq!['/'] + file, name) == seq!['/'] + name,
{
    lemma_behind_the_separator(Seq::empty(), file);
    assert(file.last() != '/');
    assert(Seq::<char>::empty() + file =~= file);
    assert(file.take(0) =~= Seq::<char>::empty());
    if file.len() >= 2 {
        assert(file[file.len() - 2] != '/');
    }
    assert(trimmed_path(file) == file);
    assert(file != seq!['/']) by {
        assert(file[0] != '/');
        assert(seq!['/'][0] == '/');
    }
    let root = seq!['/'];
    let top = root + file;
    lemma_behind_the_separator(root, file);
    lemma_plain_file_stays(root, file);
    assert(top.take(1) =~= root);
    assert(trimmed_path(root) == root);
    assert(top != root);
    if directory.len() > 0 && directory.last() != '/' && !(directory.len() >= 2 && directory.last()
        == '.' && directory[directory.len() - 2] == '/') {
        let base = directory + seq!['/'];
        let path = base + file;
        lemma_behind_the_separator(base, file);
        lemma_plain_file_stays(base, file);
        assert(path.take(base.len() as int) =~= base);
        assert(path.len() > 1);
        assert(path != root);
        assert(base.drop_last() =~= directory);
        assert(base.last() == '/');
        reveal_with_fuel(trimmed_path, 3);
        assert(trimmed_path(base) == directory);
    }
}

proof fn lemma_plain_file_stays(base: Seq<char>, file: Seq<char>)
    requires
        base.len() > 0,
        base.last() == '/',
        file.len() > 0,
        forall|i: int| 0 <= i < file.len() ==> #[trigger] file[i] != '/',
        file != seq!['.'],
    ensures
        trimmed_path(base + file) == base + file,
{
    let path = base + file;
    assert(path.last() == file.last());
    assert(file.last() != '/');
    if file.len() >= 2 {
        assert(path[path.len() - 2] == file[file.len() - 2]);
    } else if file[0] == '.' {
        assert(file =~= seq!['.']);
    }
}

proof fn lemma_behind_the_separator(base: Seq<char>, file: Seq<char>)
    requires
        base.len() == 0 || base.last() == '/',
        forall|i: int| 0 <= i < file.len() ==> #[trigger] file[i] != '/',
    ensures
        behind_last_separator(base + file) == base.len(),
    decreases file.len(),
{
    let path = base + file;
    if file.len() == 0 {
        assert(path =~= base);
    } else {
        assert(path.last() == file.last());
        assert(file.last() != '/');
        let shorter = file.drop_last();
        assert forall|i: int| 0 <= i < shorter.len() implies #[trigger] shorter[i] != '/' by {
            assert(shorter[i] == file[i]);
        }
        lemma_behind_the_separator(base, shorter);
        assert(path.drop_last() =~= base + shorter);
    }
}

} // verus!
