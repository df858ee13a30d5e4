//! Configured peers. A peer may be configured more than once; its locators are
//! merged.

use vstd::prelude::*;

use crate::config::{extend_with, DerpPublicKey, V2PeerConfig};
use crate::identity::EndpointId;
use crate::net::SocketAddr;
use crate::sort::{is_strictly_sorted, keys, lemma_distinct_values, sorted_distinct};

verus! {

/// What a peer is to every rule: its identity and its locators, in no order.
#[verifier::ext_equal]
pub ghost struct PeerModel {
    pub id: Seq<u8>,
    pub addresses: Set<SocketAddr>,
    pub derp_public_key: Option<DerpPublicKey>,
}

impl PeerModel {
    /// Whether this node can dial the peer.
    pub open spec fn is_dialable(self) -> bool {
        self.derp_public_key is Some || exists|address: SocketAddr|
            self.addresses.contains(address)
    }
}

/// What one configured peer is.
pub open spec fn peer_model(peer: V2PeerConfig) -> PeerModel {
    PeerModel {
        id: peer.endpoint_id@,
        addresses: peer.addresses@.to_set(),
        derp_public_key: peer.derp_public_key,
    }
}

/// A configured peer can be dialed where what it is can be dialed.
pub proof fn lemma_dialable_model(peer: V2PeerConfig)
    ensures
        peer.is_dialable() == peer_model(peer).is_dialable(),
{
    if peer.addresses@.len() > 0 {
        assert(peer_model(peer).addresses.contains(peer.addresses@[0]));
    }
}

/// What each configured peer is, in order.
pub open spec fn peer_models(peers: Seq<V2PeerConfig>) -> Seq<PeerModel> {
    peers.map_values(|peer: V2PeerConfig| peer_model(peer))
}

/// The identities of the peers, each once, in the order in which they first
/// occur.
pub open spec fn peer_ids(peers: Seq<PeerModel>) -> Seq<Seq<u8>>
    decreases peers.len(),
{
    if peers.len() == 0 {
        Seq::empty()
    } else {
        let rest = peer_ids(peers.drop_last());
        if rest.contains(peers.last().id) {
            rest
        } else {
            rest.push(peers.last().id)
        }
    }
}

/// The addresses of a peer: those of all its entries.
pub open spec fn addresses_of(peers: Seq<PeerModel>, id: Seq<u8>) -> Set<SocketAddr> {
    Set::new(
        |address: SocketAddr|
            exists|i: int|
                0 <= i < peers.len() && (#[trigger] peers[i]).id == id
                    && peers[i].addresses.contains(address),
    )
}

/// The DERP key of a peer: that of its first entry that has one.
pub open spec fn derp_key_of(peers: Seq<PeerModel>, id: Seq<u8>) -> Option<DerpPublicKey>
    decreases peers.len(),
{
    if peers.len() == 0 {
        None
    } else {
        match derp_key_of(peers.drop_last(), id) {
            Some(key) => Some(key),
            None => if peers.last().id == id {
                peers.last().derp_public_key
            } else {
                None
            },
        }
    }
}

/// All entries of a peer as one.
pub open spec fn merged_peer(peers: Seq<PeerModel>, id: Seq<u8>) -> PeerModel {
    PeerModel { id, addresses: addresses_of(peers, id), derp_public_key: derp_key_of(peers, id) }
}

/// One entry for each identity, in the order in which they first occur.
pub open spec fn merged(peers: Seq<PeerModel>) -> Seq<PeerModel> {
    peer_ids(peers).map_values(|id: Seq<u8>| merged_peer(peers, id))
}

/// The configured peers with the entries of each merged.
pub open spec fn merged_peers(peers: Seq<V2PeerConfig>) -> Seq<PeerModel> {
    merged(peer_models(peers))
}

/// Whether a list of peers is what merging gives back: an entry for each
/// merged peer, its addresses each once and in order.
pub open spec fn is_merged_list(list: Seq<V2PeerConfig>, peers: Seq<PeerModel>) -> bool {
    &&& peer_models(list) == merged(peers)
    &&& forall|i: int|
        0 <= i < list.len() ==> is_strictly_sorted(keys((#[trigger] list[i]).addresses@))
}

/// The identities of the peers, each once.
fn distinct_ids(peers: &Vec<V2PeerConfig>) -> (r: Vec<EndpointId>)
    ensures
        r@.map_values(|id: EndpointId| id@) == peer_ids(peer_models(peers@)),
{
    let ghost models = peer_models(peers@);
    let mut ids: Vec<EndpointId> = Vec::new();
    let mut index: usize = 0;
    assert(models.take(0).len() == 0);
    assert(ids@.map_values(|id: EndpointId| id@) =~= peer_ids(models.take(0)));
    while index < peers.len()
        invariant
            index <= peers@.len(),
            models == peer_models(peers@),
            ids@.map_values(|id: EndpointId| id@) == peer_ids(models.take(index as int)),
        decreases peers@.len() - index,
    {
        let id: EndpointId = peers[index].endpoint_id;
        let ghost known_ids = ids@.map_values(|id: EndpointId| id@);
        proof {
            assert(models.take(index + 1).drop_last() =~= models.take(index as int));
            assert(models.take(index + 1).last() == peer_model(peers@[index as int]));
        }
        let mut known: bool = false;
        let mut at: usize = 0;
        while at < ids.len() && !known
            invariant
                at <= ids@.len(),
                known_ids == ids@.map_values(|id: EndpointId| id@),
                known ==> known_ids.contains(id@),
                !known ==> forall|j: int| 0 <= j < at ==> #[trigger] known_ids[j] != id@,
            decreases ids@.len() - at,
        {
            if ids[at].same(&id) {
                assert(known_ids[at as int] == id@);
                known = true;
            }
            at = at + 1;
        }
        if !known {
            assert(!known_ids.contains(id@));
            ids.push(id);
            assert(ids@.map_values(|id: EndpointId| id@) =~= known_ids.push(id@));
        }
        index = index + 1;
    }
    assert(models.take(index as int) =~= models);
    ids
}

/// The addresses of a peer with one more entry.
proof fn lemma_addresses_grow(peers: Seq<PeerModel>, id: Seq<u8>)
    requires
        peers.len() > 0,
    ensures
        addresses_of(peers, id) == if peers.last().id == id {
            addresses_of(peers.drop_last(), id).union(peers.last().addresses)
        } else {
            addresses_of(peers.drop_last(), id)
        },
{
    let rest = peers.drop_last();
    let last = peers.last();
    let expected = if last.id == id {
        addresses_of(rest, id).union(last.addresses)
    } else {
        addresses_of(rest, id)
    };
    assert forall|address: SocketAddr|
        addresses_of(peers, id).contains(address) == expected.contains(address) by {
        if addresses_of(rest, id).contains(address) {
            let i = choose|i: int|
                0 <= i < rest.len() && (#[trigger] rest[i]).id == id && rest[i].addresses.contains(
                    address,
                );
            assert(peers[i].id == id && peers[i].addresses.contains(address));
        }
        if last.id == id && last.addresses.contains(address) {
            assert(peers[peers.len() - 1].id == id);
        }
        if addresses_of(peers, id).contains(address) {
            let i = choose|i: int|
                0 <= i < peers.len() && (#[trigger] peers[i]).id == id
                    && peers[i].addresses.contains(address);
            if i < rest.len() {
                assert(rest[i].id == id && rest[i].addresses.contains(address));
            }
        }
    }
    assert(addresses_of(peers, id) =~= expected);
}

/// All entries of a peer as one.
fn merge_entries(peers: &Vec<V2PeerConfig>, id: EndpointId) -> (r: V2PeerConfig)
    ensures
        peer_model(r) == merged_peer(peer_models(peers@), id@),
        is_strictly_sorted(keys(r.addresses@)),
{
    let ghost models = peer_models(peers@);
    let mut addresses: Vec<SocketAddr> = Vec::new();
    let mut derp_public_key: Option<DerpPublicKey> = None;
    let mut index: usize = 0;
    assert(models.take(0).len() == 0);
    assert(addresses@.to_set() =~= addresses_of(models.take(0), id@));
    while index < peers.len()
        invariant
            index <= peers@.len(),
            models == peer_models(peers@),
            addresses@.to_set() == addresses_of(models.take(index as int), id@),
            derp_public_key == derp_key_of(models.take(index as int), id@),
        decreases peers@.len() - index,
    {
        let peer: &V2PeerConfig = &peers[index];
        let ghost before = addresses@;
        proof {
            assert(models.take(index + 1).drop_last() =~= models.take(index as int));
            assert(models.take(index + 1).last() == peer_model(*peer));
            lemma_addresses_grow(models.take(index + 1), id@);
        }
        if peer.endpoint_id.same(&id) {
            extend_with(&mut addresses, &peer.addresses);
            if derp_public_key.is_none() {
                derp_public_key = peer.derp_public_key;
            }
            proof {
                lemma_joined_set(before, peer.addresses@);
            }
        }
        index = index + 1;
    }
    let ghost all = addresses@;
    let sorted: Vec<SocketAddr> = sorted_distinct(addresses);
    proof {
        assert(models.take(index as int) =~= models);
        crate::net::lemma_endpoint_keys();
        lemma_distinct_values(all, sorted@);
    }
    V2PeerConfig { endpoint_id: id, addresses: sorted, derp_public_key }
}

/// The values of two runs together.
proof fn lemma_joined_set<T>(a: Seq<T>, b: Seq<T>)
    ensures
        (a + b).to_set() == a.to_set().union(b.to_set()),
{
    assert forall|item: T|
        (a + b).to_set().contains(item) == a.to_set().union(b.to_set()).contains(item) by {
        if a.contains(item) {
            let i = choose|i: int| 0 <= i < a.len() && a[i] == item;
            assert((a + b)[i] == item);
        }
        if b.contains(item) {
            let i = choose|i: int| 0 <= i < b.len() && b[i] == item;
            assert((a + b)[a.len() + i] == item);
        }
        if (a + b).contains(item) {
            let i = choose|i: int| 0 <= i < (a + b).len() && (a + b)[i] == item;
            if i < a.len() {
                assert(a[i] == item);
            } else {
                assert(b[i - a.len()] == item);
            }
        }
    }
    assert((a + b).to_set() =~= a.to_set().union(b.to_set()));
}

/// One entry for each configured identity, in the order in which they first
/// occur. It has the addresses of all entries of that identity, each once and
/// in order, and the DERP key of the first entry that has one.
pub fn merge_peers(peers: &Vec<V2PeerConfig>) -> (r: Vec<V2PeerConfig>)
    ensures
        is_merged_list(r@, peer_models(peers@)),
        r@.len() == merged_peers(peers@).len(),
        forall|i: int, j: int|
            0 <= i < j < r@.len() ==> (#[trigger] r@[i]).endpoint_id@ != (
            #[trigger] r@[j]).endpoint_id@,
        forall|i: int|
            0 <= i < peers@.len() ==> exists|j: int|
                0 <= j < r@.len() && (#[trigger] r@[j]).endpoint_id@ == (
                #[trigger] peers@[i]).endpoint_id@,
{
    let ghost models = peer_models(peers@);
    let ids: Vec<EndpointId> = distinct_ids(peers);
    let ghost views = ids@.map_values(|id: EndpointId| id@);
    let mut list: Vec<V2PeerConfig> = Vec::new();
    let mut index: usize = 0;
    assert(peer_models(list@) =~= merged(models).take(0));
    while index < ids.len()
        invariant
            index <= ids@.len(),
            models == peer_models(peers@),
            views == ids@.map_values(|id: EndpointId| id@),
            views == peer_ids(models),
            list@.len() == index,
            peer_models(list@) == merged(models).take(index as int),
            forall|i: int|
                0 <= i < list@.len() ==> is_strictly_sorted(keys((#[trigger] list@[i]).addresses@)),
        decreases ids@.len() - index,
    {
        let ghost before = list@;
        let peer: V2PeerConfig = merge_entries(peers, ids[index]);
        list.push(peer);
        proof {
            assert(views[index as int] == ids@[index as int]@);
            assert(merged(models)[index as int] == merged_peer(models, views[index as int]));
            assert(peer_models(list@) =~= peer_models(before).push(peer_model(peer)));
            assert(merged(models).take(index + 1) =~= merged(models).take(index as int).push(
                merged(models)[index as int],
            ));
        }
        index = index + 1;
    }
    proof {
        assert(merged(models).take(index as int) =~= merged(models));
        lemma_each_peer_stands_once(models);
        assert forall|i: int| 0 <= i < list@.len() implies (#[trigger] list@[i]).endpoint_id@
            == merged(models)[i].id by {
            assert(peer_models(list@)[i] == peer_model(list@[i]));
        }
        assert forall|i: int| 0 <= i < peers@.len() implies exists|j: int|
            0 <= j < list@.len() && (#[trigger] list@[j]).endpoint_id@ == (
            #[trigger] peers@[i]).endpoint_id@ by {
            assert(models[i].id == peers@[i].endpoint_id@);
            let j = choose|j: int|
                0 <= j < merged(models).len() && (#[trigger] merged(models)[j]).id == models[i].id;
            assert(list@[j].endpoint_id@ == peers@[i].endpoint_id@);
        }
    }
    list
}

/// The identities of the peers have no repeat, and none is missing or added.
proof fn lemma_ids(peers: Seq<PeerModel>)
    ensures
        peer_ids(peers).no_duplicates(),
        forall|i: int| 0 <= i < peers.len() ==> peer_ids(peers).contains((#[trigger] peers[i]).id),
        forall|j: int|
            0 <= j < peer_ids(peers).len() ==> exists|i: int|
                0 <= i < peers.len() && (#[trigger] peers[i]).id == #[trigger] peer_ids(peers)[j],
    decreases peers.len(),
{
    if peers.len() > 0 {
        let rest = peers.drop_last();
        let last = peers.last();
        let before = peer_ids(rest);
        let after = peer_ids(peers);
        lemma_ids(rest);
        assert forall|i: int| 0 <= i < peers.len() implies after.contains(
            (#[trigger] peers[i]).id,
        ) by {
            if i < rest.len() {
                assert(before.contains(rest[i].id));
                let j = choose|j: int| 0 <= j < before.len() && before[j] == rest[i].id;
                assert(after[j] == rest[i].id);
            } else if !before.contains(last.id) {
                assert(after[before.len() as int] == last.id);
            }
        }
        assert forall|j: int| 0 <= j < after.len() implies exists|i: int|
            0 <= i < peers.len() && (#[trigger] peers[i]).id == #[trigger] after[j] by {
            if j < before.len() {
                assert(after[j] == before[j]);
                let i = choose|i: int|
                    0 <= i < rest.len() && (#[trigger] rest[i]).id == before[j];
                assert(peers[i].id == after[j]);
            } else {
                assert(peers[peers.len() - 1].id == after[j]);
            }
        }
    }
}

/// After merging each peer stands once: no two entries share an identity, every
/// configured identity has an entry, and no other has one.
pub proof fn lemma_each_peer_stands_once(peers: Seq<PeerModel>)
    ensures
        forall|i: int, j: int|
            0 <= i < j < merged(peers).len() ==> (#[trigger] merged(peers)[i]).id != (
            #[trigger] merged(peers)[j]).id,
        forall|i: int|
            0 <= i < peers.len() ==> exists|j: int|
                0 <= j < merged(peers).len() && (#[trigger] merged(peers)[j]).id == (
                #[trigger] peers[i]).id,
        forall|j: int|
            0 <= j < merged(peers).len() ==> exists|i: int|
                0 <= i < peers.len() && (#[trigger] peers[i]).id == (
                #[trigger] merged(peers)[j]).id,
{
    lemma_ids(peers);
    let ids = peer_ids(peers);
    assert forall|j: int| 0 <= j < merged(peers).len() implies (#[trigger] merged(peers)[j]).id
        == ids[j] by {}
    assert forall|i: int| 0 <= i < peers.len() implies exists|j: int|
        0 <= j < merged(peers).len() && (#[trigger] merged(peers)[j]).id == (
        #[trigger] peers[i]).id by {
        let j = choose|j: int| 0 <= j < ids.len() && ids[j] == peers[i].id;
        assert(merged(peers)[j].id == peers[i].id);
    }
    assert forall|j: int| 0 <= j < merged(peers).len() implies exists|i: int|
        0 <= i < peers.len() && (#[trigger] peers[i]).id == (#[trigger] merged(peers)[j]).id by {
        assert(merged(peers)[j].id == ids[j]);
        let i = choose|i: int| 0 <= i < peers.len() && (#[trigger] peers[i]).id == ids[j];
        assert(peers[i].id == merged(peers)[j].id);
    }
}

/// The DERP key of a peer that is configured once.
proof fn lemma_key_of_single(peers: Seq<PeerModel>, at: int)
    requires
        0 <= at < peers.len(),
        forall|i: int|
            0 <= i < peers.len() && i != at ==> (#[trigger] peers[i]).id != peers[at].id,
    ensures
        derp_key_of(peers, peers[at].id) == peers[at].derp_public_key,
    decreases peers.len(),
{
    let rest = peers.drop_last();
    if at < rest.len() {
        assert(rest[at] == peers[at]);
        assert(peers[peers.len() - 1].id != peers[at].id);
        lemma_key_of_single(rest, at);
    } else {
        lemma_key_of_absent(rest, peers[at].id);
    }
}

/// A peer that is not configured has no DERP key.
proof fn lemma_key_of_absent(peers: Seq<PeerModel>, id: Seq<u8>)
    requires
        forall|i: int| 0 <= i < peers.len() ==> (#[trigger] peers[i]).id != id,
    ensures
        derp_key_of(peers, id) is None,
    decreases peers.len(),
{
    if peers.len() > 0 {
        let rest = peers.drop_last();
        assert(peers[peers.len() - 1].id != id);
        lemma_key_of_absent(rest, id);
    }
}

/// The identities of peers without a repeat are those of the entries.
proof fn lemma_ids_of_distinct(peers: Seq<PeerModel>)
    requires
        forall|i: int, j: int|
            0 <= i < j < peers.len() ==> (#[trigger] peers[i]).id != (#[trigger] peers[j]).id,
    ensures
        peer_ids(peers) == peers.map_values(|peer: PeerModel| peer.id),
    decreases peers.len(),
{
    let ids = |peer: PeerModel| peer.id;
    if peers.len() > 0 {
        let rest = peers.drop_last();
        lemma_ids_of_distinct(rest);
        if peer_ids(rest).contains(peers.last().id) {
            let i = choose|i: int|
                0 <= i < peer_ids(rest).len() && peer_ids(rest)[i] == peers.last().id;
            assert(rest[i].id == peers.last().id);
            assert(peers[i].id != peers[peers.len() - 1].id);
        }
        assert(peers.map_values(ids) =~= rest.map_values(ids).push(peers.last().id));
    } else {
        assert(peers.map_values(ids) =~= Seq::empty());
    }
}

/// Merging leaves peers without a repeat as they are.
pub proof fn lemma_distinct_peers_stay(peers: Seq<PeerModel>)
    requires
        forall|i: int, j: int|
            0 <= i < j < peers.len() ==> (#[trigger] peers[i]).id != (#[trigger] peers[j]).id,
    ensures
        merged(peers) == peers,
{
    lemma_ids_of_distinct(peers);
    assert forall|i: int| 0 <= i < peers.len() implies #[trigger] merged(peers)[i] == peers[i] by {
        let id = peers[i].id;
        lemma_key_of_single(peers, i);
        assert forall|address: SocketAddr|
            addresses_of(peers, id).contains(address) == peers[i].addresses.contains(address) by {
            if addresses_of(peers, id).contains(address) {
                let j = choose|j: int|
                    0 <= j < peers.len() && (#[trigger] peers[j]).id == id
                        && peers[j].addresses.contains(address);
                assert(j == i);
            }
        }
        assert(addresses_of(peers, id) =~= peers[i].addresses);
    }
    assert(merged(peers) =~= peers);
}

/// Merging merged peers changes nothing.
pub proof fn lemma_merging_again_changes_nothing(peers: Seq<PeerModel>)
    ensures
        merged(merged(peers)) == merged(peers),
{
    lemma_each_peer_stands_once(peers);
    lemma_distinct_peers_stay(merged(peers));
}

/// A merged peer can be dialed where one of its entries can.
pub proof fn lemma_dialable_by_any_entry(peers: Seq<PeerModel>, id: Seq<u8>)
    ensures
        merged_peer(peers, id).is_dialable() <==> exists|i: int|
            0 <= i < peers.len() && (#[trigger] peers[i]).id == id && peers[i].is_dialable(),
    decreases peers.len(),
{
    let peer = merged_peer(peers, id);
    if peers.len() > 0 {
        let rest = peers.drop_last();
        let last = peers.last();
        lemma_dialable_by_any_entry(rest, id);
        lemma_addresses_grow(peers, id);
        if merged_peer(rest, id).is_dialable() {
            let i = choose|i: int|
                0 <= i < rest.len() && (#[trigger] rest[i]).id == id && rest[i].is_dialable();
            assert(peers[i].id == id && peers[i].is_dialable());
            if derp_key_of(rest, id) is None {
                let address = choose|address: SocketAddr|
                    addresses_of(rest, id).contains(address);
                assert(peer.addresses.contains(address));
            }
        }
        if last.id == id && last.is_dialable() {
            assert(peers[peers.len() - 1].id == id);
            if last.derp_public_key is None {
                let address = choose|address: SocketAddr| last.addresses.contains(address);
                assert(peer.addresses.contains(address));
            }
        }
        if exists|i: int|
            0 <= i < peers.len() && (#[trigger] peers[i]).id == id && peers[i].is_dialable() {
            let i = choose|i: int|
                0 <= i < peers.len() && (#[trigger] peers[i]).id == id && peers[i].is_dialable();
            if i < rest.len() {
                assert(rest[i].id == id && rest[i].is_dialable());
            }
        }
        if peer.is_dialable() && derp_key_of(peers, id) is None {
            let address = choose|address: SocketAddr| peer.addresses.contains(address);
            if addresses_of(rest, id).contains(address) {
                assert(merged_peer(rest, id).addresses.contains(address));
            } else {
                assert(last.addresses.contains(address));
            }
        }
    }
}

} // verus!
