//! Runtime configuration and its validation.

use vstd::prelude::*;

use crate::identity::EndpointId;
use crate::net::{IpAddr, IpNet, SocketAddr};
use crate::peers::{
    addresses_of, is_merged_list, merge_peers, merged, merged_peer, merged_peers, peer_ids, peer_model,
    peer_models, PeerModel,
};
use crate::sort::{is_strictly_sorted, keys, lemma_distinct_values, sorted_distinct};
use crate::text::same_text;

verus! {

/// Bytes of the longest network name.
pub const MAX_NETWORK_ID_BYTES: usize = 128;

/// Bytes of the longest host name.
pub const MAX_COVER_NAME_BYTES: usize = 253;

/// Bytes of the longest label of a host name.
pub const MAX_COVER_LABEL_BYTES: usize = 63;

/// Why a configuration is refused.
#[derive(Clone, Copy, Debug, PartialEq, Eq, Structural)]
pub enum ConfigErrorV2 {
    /// The path-migration timers contradict each other.
    PathMigration,
    /// The network has no name.
    EmptyNetworkId,
    /// The network's name is too long.
    LongNetworkId,
    /// Cover profile generation zero is reserved.
    ZeroCoverProfile,
    /// There is no cover name.
    EmptyCoverPool,
    /// A cover name is no host name.
    InvalidCoverName,
    /// A cover name occurs twice.
    DuplicateCoverName,
    /// The TUN interface has no name.
    EmptyTunName,
    /// The rule priority leaves no room around the kernel's own rules.
    RulePriority,
    /// The routing table is one of the kernel's.
    RoutingTable,
    /// A node address is no host prefix.
    NodeAddressNotHost,
    /// Two node addresses share a family.
    NodeAddressFamilyTwice,
    /// The advertised routes are not valid.
    Advertisement,
    /// A default route was not explicitly enabled.
    DefaultRouteNotEnabled,
    /// A peer address has no port.
    PeerPortZero,
    /// A peer address lies inside an excluded underlay prefix.
    PeerAddressExcluded,
    /// DERP servers and identity file go together.
    DerpIdentityMismatch,
    /// A peer has a DERP locator but there are no servers.
    DerpPeerWithoutServers,
    /// A DERP region occurs twice.
    DuplicateDerpRegion,
    /// A DERP key occurs twice.
    DuplicateDerpPeer,
    /// There is more than one bind address.
    BindAddresses { found: usize },
    /// A private link, named by its place, is shared or falls back.
    LinkNotExclusive { link: usize },
}

/// The key under which a peer is reached over DERP.
#[derive(Clone, Copy, Debug, PartialEq, Eq, Hash)]
pub struct DerpPublicKey {
    pub bytes: [u8; 32],
}

impl View for DerpPublicKey {
    type V = Seq<u8>;

    open spec fn view(&self) -> Seq<u8> {
        self.bytes@
    }
}

/// A DERP server.
#[derive(Clone, Copy, Debug, PartialEq, Eq, Structural)]
pub struct DerpServer {
    pub region_id: u16,
}

/// A peer and where it can be reached.
#[derive(Debug)]
pub struct V2PeerConfig {
    pub endpoint_id: EndpointId,
    pub addresses: Vec<SocketAddr>,
    pub derp_public_key: Option<DerpPublicKey>,
}

impl V2PeerConfig {
    /// Whether this node can dial the peer. An invite issuer knows the member
    /// identity before that member has an address; such a peer is accepted but
    /// never dialed.
    pub open spec fn spec_is_dialable(&self) -> bool {
        self.addresses@.len() > 0 || self.derp_public_key is Some
    }

    /// Whether this node can dial the peer.
    #[verifier::when_used_as_spec(spec_is_dialable)]
    pub fn is_dialable(&self) -> (r: bool)
        ensures
            r == self.spec_is_dialable(),
    {
        self.addresses.len() > 0 || self.derp_public_key.is_some()
    }
}

/// Timers of path migration, in milliseconds.
#[derive(Clone, Copy, Debug, PartialEq, Eq, Structural)]
pub struct PathMigrationConfig {
    pub keep_alive_ms: u64,
    pub idle_timeout_ms: u64,
    pub recovery_probation_ms: u64,
}

impl PathMigrationConfig {
    /// A path is kept alive more often than it times out, and a recovered path
    /// is watched for some time.
    pub open spec fn spec_is_valid(&self) -> bool {
        &&& self.keep_alive_ms > 0
        &&& self.idle_timeout_ms > self.keep_alive_ms
        &&& self.recovery_probation_ms > 0
    }

    /// A path is kept alive more often than it times out, and a recovered path
    /// is watched for some time.
    #[verifier::when_used_as_spec(spec_is_valid)]
    pub fn is_valid(&self) -> (r: bool)
        ensures
            r == self.spec_is_valid(),
    {
        self.keep_alive_ms > 0 && self.idle_timeout_ms > self.keep_alive_ms
            && self.recovery_probation_ms > 0
    }
}

/// Who tunes the dataplane.
#[derive(Clone, Copy, Debug, PartialEq, Eq, Structural)]
pub enum AutotuneMode {
    Off,
    Shadow,
    On,
}

/// What tuning aims at.
#[derive(Clone, Copy, Debug, PartialEq, Eq, Structural)]
pub enum AutotuneObjective {
    Balanced,
    Throughput,
    Latency,
}

/// Settings of external policy components.
#[derive(Clone, Copy, Debug, PartialEq, Eq, Structural)]
pub struct WasmPolicyConfig {
    /// Bytes of state that a policy may keep.
    pub maximum_state_bytes: u64,
    /// Seconds between two writes of changed state.
    pub state_flush_interval_secs: u64,
}

/// Settings of the tuner.
#[derive(Debug)]
pub struct AutotuneConfig {
    pub mode: AutotuneMode,
    pub objective: AutotuneObjective,
    pub policy: String,
    /// The path of a component that observes without deciding.
    pub shadow_policy: Option<String>,
    /// Whether learned state is kept on disk.
    pub memory: bool,
    pub wasm: WasmPolicyConfig,
}

/// Settings of one dataplane generation.
#[derive(Debug)]
pub struct V2RuntimeConfig {
    pub identity_file: String,
    pub bind: SocketAddr,
    /// IP prefixes that neither side of an automatically discovered direct
    /// underlay path may use. This is enforced by the live path selector, not
    /// only when configured locators are parsed.
    pub excluded_underlay_prefixes: Vec<IpNet>,
    /// Static authenticated adjacencies of the mesh. Repeating an identity
    /// merges its locators. Dial ownership is derived from the two identities
    /// so only one side initiates each direct QUIC adjacency.
    pub mesh_peers: Vec<V2PeerConfig>,
    pub derp_servers: Vec<DerpServer>,
    pub derp_identity_file: Option<String>,
    pub network_id: String,
    /// Network-level cover-name pool. The dialer chooses one stable entry per
    /// peer and cover-profile generation; pool order is irrelevant.
    pub cover_sni_pool: Vec<String>,
    pub cover_profile_id: u32,
    pub tun_name: String,
    pub tun_mtu: u16,
    /// Keep every overlay destination in a dedicated policy-routing table.
    pub isolate_overlay: bool,
    pub routing_table: u32,
    pub routing_rule_priority: u32,
    /// Stable local overlay host addresses.
    pub node_addresses: Vec<IpNet>,
    pub routes: Vec<IpNet>,
    pub advertised_routes: Vec<IpNet>,
    pub allow_default_routes: bool,
    pub subnet_nat: bool,
    pub transit_enabled: bool,
    pub autotune: AutotuneConfig,
    pub path_migration: PathMigrationConfig,
    pub max_egress_bytes_per_second: Option<u64>,
}

/// Copy a run of plain values.
pub fn copy_all<T: Copy>(items: &Vec<T>) -> (r: Vec<T>)
    ensures
        r@ == items@,
{
    let mut copied: Vec<T> = Vec::new();
    let mut index: usize = 0;
    while index < items.len()
        invariant
            index <= items@.len(),
            copied@ == items@.take(index as int),
        decreases items@.len() - index,
    {
        copied.push(items[index]);
        index = index + 1;
        assert(copied@ =~= items@.take(index as int));
    }
    assert(copied@ =~= items@);
    copied
}

/// Put a copy of one run behind another.
pub fn extend_with<T: Copy>(items: &mut Vec<T>, more: &Vec<T>)
    ensures
        final(items)@ == old(items)@ + more@,
{
    let mut index: usize = 0;
    assert(items@ =~= old(items)@ + more@.take(0));
    while index < more.len()
        invariant
            index <= more@.len(),
            items@ == old(items)@ + more@.take(index as int),
        decreases more@.len() - index,
    {
        items.push(more[index]);
        index = index + 1;
        assert(items@ =~= old(items)@ + more@.take(index as int));
    }
    assert(more@.take(index as int) =~= more@);
}

/// Whether two byte arrays are the same.
pub fn same_bytes(a: &[u8; 32], b: &[u8; 32]) -> (r: bool)
    ensures
        r == (a@ == b@),
{
    let mut index: usize = 0;
    while index < 32
        invariant
            index <= 32,
            forall|i: int| 0 <= i < index ==> a@[i] == b@[i],
        decreases 32 - index,
    {
        if a[index] != b[index] {
            assert(a@[index as int] != b@[index as int]);
            return false;
        }
        index = index + 1;
    }
    assert(a@ =~= b@);
    true
}

/// Whether a byte may stand in a label of a host name.
pub open spec fn is_label_byte(byte: u8) -> bool {
    (48 <= byte <= 57) || (65 <= byte <= 90) || (97 <= byte <= 122) || byte == 45
}

/// Whether the bytes from `from` up to `to` are a label: one to 63 letters,
/// digits and hyphens, with no hyphen at either end.
pub open spec fn is_label(name: Seq<u8>, from: int, to: int) -> bool {
    &&& from < to <= from + MAX_COVER_LABEL_BYTES
    &&& name[from] != 45
    &&& name[to - 1] != 45
    &&& forall|i: int| from <= i < to ==> is_label_byte(#[trigger] name[i])
}

/// Where the label that starts at `from` ends.
pub open spec fn label_end(name: Seq<u8>, from: int) -> int
    decreases name.len() - from,
{
    if from >= name.len() || name[from] == 46 {
        from
    } else {
        label_end(name, from + 1)
    }
}

/// Whether the name consists of labels from `from` on, with a dot between
/// each two.
pub open spec fn labels_from(name: Seq<u8>, from: int) -> bool
    decreases name.len() - from,
{
    let end = label_end(name, from);
    if from < 0 || end < from || end > name.len() {
        false
    } else {
        &&& is_label(name, from, end)
        &&& end == name.len() || labels_from(name, end + 1)
    }
}

/// Whether a text is a host name.
pub open spec fn is_cover_name(name: Seq<u8>) -> bool {
    name.len() <= MAX_COVER_NAME_BYTES && labels_from(name, 0)
}

/// Whether a text is a host name: at most 253 bytes of dot-separated labels.
pub fn validate_cover_sni(name: &str) -> (r: Result<(), ConfigErrorV2>)
    ensures
        r == if is_cover_name(vstd::utf8::encode_utf8(name@)) {
            Ok::<(), ConfigErrorV2>(())
        } else {
            Err(ConfigErrorV2::InvalidCoverName)
        },
{
    let bytes: &[u8] = name.as_bytes();
    let total: usize = bytes.len();
    if total > MAX_COVER_NAME_BYTES {
        return Err(ConfigErrorV2::InvalidCoverName);
    }
    let mut from: usize = 0;
    loop
        invariant
            bytes@ == vstd::utf8::encode_utf8(name@),
            total == bytes@.len(),
            total <= MAX_COVER_NAME_BYTES,
            from <= total,
            labels_from(bytes@, 0) == labels_from(bytes@, from as int),
        decreases total - from + 1,
    {
        let end: usize = find_label_end(bytes, from);
        if !check_label(bytes, from, end) {
            return Err(ConfigErrorV2::InvalidCoverName);
        }
        if end == total {
            return Ok(());
        }
        from = end + 1;
    }
}

/// Where the label that starts at `from` ends.
fn find_label_end(bytes: &[u8], from: usize) -> (r: usize)
    requires
        from <= bytes@.len(),
    ensures
        r == label_end(bytes@, from as int),
        from <= r <= bytes@.len(),
        r < bytes@.len() ==> bytes@[r as int] == 46,
{
    let mut end: usize = from;
    while end < bytes.len() && bytes[end] != 46
        invariant
            from <= end <= bytes@.len(),
            label_end(bytes@, from as int) == label_end(bytes@, end as int),
        decreases bytes@.len() - end,
    {
        end = end + 1;
    }
    end
}

/// Whether the bytes from `from` up to `to` are a label.
fn check_label(bytes: &[u8], from: usize, to: usize) -> (r: bool)
    requires
        from <= to <= bytes@.len(),
        bytes@.len() <= MAX_COVER_NAME_BYTES,
    ensures
        r == is_label(bytes@, from as int, to as int),
{
    if to == from || to - from > MAX_COVER_LABEL_BYTES {
        return false;
    }
    if bytes[from] == 45 || bytes[to - 1] == 45 {
        return false;
    }
    let mut index: usize = from;
    while index < to
        invariant
            from <= index <= to <= bytes@.len(),
            forall|i: int| from <= i < index ==> is_label_byte(#[trigger] bytes@[i]),
        decreases to - index,
    {
        let byte: u8 = bytes[index];
        let allowed: bool = (byte >= 48 && byte <= 57) || (byte >= 65 && byte <= 90) || (byte >= 97
            && byte <= 122) || byte == 45;
        if !allowed {
            assert(!is_label_byte(bytes@[index as int]));
            return false;
        }
        index = index + 1;
    }
    true
}

/// A name occurs twice.
pub open spec fn has_twin(names: Seq<String>) -> bool {
    exists|i: int, j: int| 0 <= i < j < names.len() && #[trigger] names[i]@ == #[trigger] names[j]@
}

/// Whether a name occurs twice.
fn names_repeat(names: &Vec<String>) -> (r: bool)
    ensures
        r == has_twin(names@),
{
    let mut left: usize = 0;
    while left < names.len()
        invariant
            left <= names@.len(),
            forall|i: int, j: int|
                0 <= i < left && i < j < names@.len() ==> #[trigger] names@[i]@
                    != #[trigger] names@[j]@,
        decreases names@.len() - left,
    {
        let mut right: usize = left + 1;
        while right < names.len()
            invariant
                left < right <= names@.len(),
                forall|j: int| left < j < right ==> names@[left as int]@ != #[trigger] names@[j]@,
            decreases names@.len() - right,
        {
            if same_text(names[left].as_str(), names[right].as_str()) {
                assert(names@[left as int]@ == names@[right as int]@);
                return true;
            }
            right = right + 1;
        }
        left = left + 1;
    }
    false
}

/// The DERP keys of two peers are the same.
pub open spec fn same_derp_key(a: PeerModel, b: PeerModel) -> bool {
    match (a.derp_public_key, b.derp_public_key) {
        (Some(left), Some(right)) => left@ == right@,
        _ => false,
    }
}

/// A DERP key occurs twice.
pub open spec fn derp_keys_repeat(peers: Seq<PeerModel>) -> bool {
    exists|i: int, j: int|
        0 <= i < j < peers.len() && #[trigger] same_derp_key(peers[i], peers[j])
}

/// Whether a DERP key occurs twice.
fn check_derp_keys_repeat(peers: &Vec<V2PeerConfig>) -> (r: bool)
    ensures
        r == derp_keys_repeat(peer_models(peers@)),
{
    let ghost models = peer_models(peers@);
    let mut left: usize = 0;
    while left < peers.len()
        invariant
            left <= peers@.len(),
            models == peer_models(peers@),
            forall|i: int, j: int|
                0 <= i < left && i < j < peers@.len() ==> !#[trigger] same_derp_key(
                    models[i],
                    models[j],
                ),
        decreases peers@.len() - left,
    {
        let mut right: usize = left + 1;
        while right < peers.len()
            invariant
                left < right <= peers@.len(),
                models == peer_models(peers@),
                forall|j: int|
                    left < j < right ==> !#[trigger] same_derp_key(models[left as int], models[j]),
            decreases peers@.len() - right,
        {
            let same: bool = match (peers[left].derp_public_key, peers[right].derp_public_key) {
                (Some(a), Some(b)) => same_bytes(&a.bytes, &b.bytes),
                _ => false,
            };
            assert(same == same_derp_key(models[left as int], models[right as int]));
            if same {
                return true;
            }
            right = right + 1;
        }
        left = left + 1;
    }
    false
}

/// A DERP region occurs twice.
pub open spec fn regions_repeat(servers: Seq<DerpServer>) -> bool {
    exists|i: int, j: int|
        0 <= i < j < servers.len() && (#[trigger] servers[i]).region_id == (
        #[trigger] servers[j]).region_id
}

/// Whether a DERP region occurs twice.
fn check_regions_repeat(servers: &Vec<DerpServer>) -> (r: bool)
    ensures
        r == regions_repeat(servers@),
{
    let mut left: usize = 0;
    while left < servers.len()
        invariant
            left <= servers@.len(),
            forall|i: int, j: int|
                0 <= i < left && i < j < servers@.len() ==> (#[trigger] servers@[i]).region_id != (
                #[trigger] servers@[j]).region_id,
        decreases servers@.len() - left,
    {
        let mut right: usize = left + 1;
        while right < servers.len()
            invariant
                left < right <= servers@.len(),
                forall|j: int|
                    left < j < right ==> servers@[left as int].region_id != (
                    #[trigger] servers@[j]).region_id,
            decreases servers@.len() - right,
        {
            if servers[left].region_id == servers[right].region_id {
                assert(servers@[left as int].region_id == servers@[right as int].region_id);
                return true;
            }
            right = right + 1;
        }
        left = left + 1;
    }
    false
}

/// A prefix of length zero covers everything.
pub open spec fn has_default_route(prefixes: Seq<IpNet>) -> bool {
    exists|i: int| 0 <= i < prefixes.len() && (#[trigger] prefixes[i]).prefix_len == 0
}

/// Whether a prefix of length zero is among these.
fn check_default_route(prefixes: &Vec<IpNet>) -> (r: bool)
    ensures
        r == has_default_route(prefixes@),
{
    let mut index: usize = 0;
    while index < prefixes.len()
        invariant
            index <= prefixes@.len(),
            forall|i: int| 0 <= i < index ==> (#[trigger] prefixes@[i]).prefix_len != 0,
        decreases prefixes@.len() - index,
    {
        if prefixes[index].prefix_len == 0 {
            assert(prefixes@[index as int].prefix_len == 0);
            return true;
        }
        index = index + 1;
    }
    false
}

/// Whether advertised routes are acceptable: a default route has to be
/// enabled.
pub open spec fn is_advertisable(prefixes: Seq<IpNet>, allow_default_routes: bool) -> bool {
    allow_default_routes || !has_default_route(prefixes)
}

/// What is wrong with the node addresses, in order.
pub open spec fn node_address_error(addresses: Seq<IpNet>) -> Option<ConfigErrorV2>
    decreases addresses.len(),
{
    if addresses.len() == 0 {
        None
    } else {
        let rest = addresses.drop_last();
        let last = addresses.last();
        match node_address_error(rest) {
            Some(error) => Some(error),
            None => if last.prefix_len != last.addr.width() {
                Some(ConfigErrorV2::NodeAddressNotHost)
            } else if has_family(rest, last.addr.is_ipv6()) {
                Some(ConfigErrorV2::NodeAddressFamilyTwice)
            } else {
                None
            },
        }
    }
}

/// Whether an address of that family is among these.
pub open spec fn has_family(addresses: Seq<IpNet>, ipv6: bool) -> bool {
    exists|i: int| 0 <= i < addresses.len() && (#[trigger] addresses[i]).addr.is_ipv6() == ipv6
}

/// What is wrong with the node addresses, in order.
fn check_node_addresses(addresses: &Vec<IpNet>) -> (r: Option<ConfigErrorV2>)
    ensures
        r == node_address_error(addresses@),
{
    let mut index: usize = 0;
    let mut seen_ipv4: bool = false;
    let mut seen_ipv6: bool = false;
    assert(addresses@.take(0).len() == 0);
    while index < addresses.len()
        invariant
            index <= addresses@.len(),
            node_address_error(addresses@.take(index as int)) is None,
            seen_ipv4 == has_family(addresses@.take(index as int), false),
            seen_ipv6 == has_family(addresses@.take(index as int), true),
        decreases addresses@.len() - index,
    {
        let address: IpNet = addresses[index];
        let ghost before = addresses@.take(index as int);
        let ghost after = addresses@.take(index + 1);
        proof {
            assert(after.drop_last() =~= before);
            assert(after.last() == address);
            lemma_family_grows(before, address);
            assert(after =~= before.push(address));
        }
        if address.prefix_len != address.addr.width() {
            proof {
                lemma_node_error_stays(addresses@, index + 1);
            }
            return Some(ConfigErrorV2::NodeAddressNotHost);
        }
        let ipv6: bool = address.addr.is_ipv6();
        if (ipv6 && seen_ipv6) || (!ipv6 && seen_ipv4) {
            proof {
                lemma_node_error_stays(addresses@, index + 1);
            }
            return Some(ConfigErrorV2::NodeAddressFamilyTwice);
        }
        if ipv6 {
            seen_ipv6 = true;
        } else {
            seen_ipv4 = true;
        }
        index = index + 1;
    }
    assert(addresses@.take(index as int) =~= addresses@);
    None
}

/// The families with one more address.
proof fn lemma_family_grows(before: Seq<IpNet>, address: IpNet)
    ensures
        forall|ipv6: bool|
            #[trigger] has_family(before.push(address), ipv6) == (has_family(before, ipv6)
                || address.addr.is_ipv6() == ipv6),
{
    let after = before.push(address);
    assert forall|ipv6: bool| #[trigger] has_family(after, ipv6) == (has_family(before, ipv6)
        || address.addr.is_ipv6() == ipv6) by {
        if has_family(before, ipv6) {
            let i = choose|i: int|
                0 <= i < before.len() && (#[trigger] before[i]).addr.is_ipv6() == ipv6;
            assert(after[i] == before[i]);
        }
        if address.addr.is_ipv6() == ipv6 {
            assert(after[before.len() as int].addr.is_ipv6() == ipv6);
        }
        if has_family(after, ipv6) && !has_family(before, ipv6) {
            let i = choose|i: int|
                0 <= i < after.len() && (#[trigger] after[i]).addr.is_ipv6() == ipv6;
            if i < before.len() {
                assert(before[i] == after[i]);
            }
        }
    }
}

/// The first error is the error of the whole run.
proof fn lemma_node_error_stays(addresses: Seq<IpNet>, count: int)
    requires
        0 <= count <= addresses.len(),
        node_address_error(addresses.take(count)) is Some,
    ensures
        node_address_error(addresses) == node_address_error(addresses.take(count)),
    decreases addresses.len(),
{
    if count == addresses.len() {
        assert(addresses.take(count) =~= addresses);
    } else {
        assert(addresses.drop_last().take(count) =~= addresses.take(count));
        lemma_node_error_stays(addresses.drop_last(), count);
    }
}

/// Some address of a peer has no port.
pub open spec fn has_port_zero(addresses: Set<SocketAddr>) -> bool {
    exists|address: SocketAddr| #[trigger] addresses.contains(address) && address.port == 0
}

/// Some address lies in a prefix.
pub open spec fn is_excluded(address: IpAddr, prefixes: Seq<IpNet>) -> bool {
    exists|i: int| 0 <= i < prefixes.len() && (#[trigger] prefixes[i]).holds(address)
}

/// Some address of a peer lies in an excluded prefix.
pub open spec fn has_excluded(addresses: Set<SocketAddr>, prefixes: Seq<IpNet>) -> bool {
    exists|address: SocketAddr| #[trigger]
        addresses.contains(address) && is_excluded(address.ip, prefixes)
}

/// What is wrong with the peers' addresses, in order.
pub open spec fn peer_address_error(peers: Seq<PeerModel>, exclusions: Seq<IpNet>) -> Option<
    ConfigErrorV2,
>
    decreases peers.len(),
{
    if peers.len() == 0 {
        None
    } else {
        match peer_address_error(peers.drop_last(), exclusions) {
            Some(error) => Some(error),
            None => if has_port_zero(peers.last().addresses) {
                Some(ConfigErrorV2::PeerPortZero)
            } else if has_excluded(peers.last().addresses, exclusions) {
                Some(ConfigErrorV2::PeerAddressExcluded)
            } else {
                None
            },
        }
    }
}

/// Whether some address has no port.
fn check_port_zero(addresses: &Vec<SocketAddr>) -> (r: bool)
    ensures
        r == has_port_zero(addresses@.to_set()),
{
    let mut index: usize = 0;
    while index < addresses.len()
        invariant
            index <= addresses@.len(),
            forall|i: int| 0 <= i < index ==> (#[trigger] addresses@[i]).port != 0,
        decreases addresses@.len() - index,
    {
        if addresses[index].port == 0 {
            assert(addresses@.to_set().contains(addresses@[index as int]));
            return true;
        }
        index = index + 1;
    }
    false
}

/// Every prefix has a length of its family.
pub open spec fn all_wf(prefixes: Seq<IpNet>) -> bool {
    forall|i: int| 0 <= i < prefixes.len() ==> (#[trigger] prefixes[i]).wf()
}

/// Whether an address lies in one of the prefixes.
pub fn check_excluded(address: IpAddr, prefixes: &Vec<IpNet>) -> (r: bool)
    requires
        all_wf(prefixes@),
    ensures
        r == is_excluded(address, prefixes@),
{
    let mut index: usize = 0;
    while index < prefixes.len()
        invariant
            all_wf(prefixes@),
            index <= prefixes@.len(),
            forall|i: int| 0 <= i < index ==> !(#[trigger] prefixes@[i]).holds(address),
        decreases prefixes@.len() - index,
    {
        if prefixes[index].contains(&address) {
            assert(prefixes@[index as int].holds(address));
            return true;
        }
        index = index + 1;
    }
    false
}

/// Whether some address lies in one of the prefixes.
fn check_any_excluded(addresses: &Vec<SocketAddr>, prefixes: &Vec<IpNet>) -> (r: bool)
    requires
        all_wf(prefixes@),
    ensures
        r == has_excluded(addresses@.to_set(), prefixes@),
{
    let mut index: usize = 0;
    while index < addresses.len()
        invariant
            all_wf(prefixes@),
            index <= addresses@.len(),
            forall|i: int|
                0 <= i < index ==> !is_excluded((#[trigger] addresses@[i]).ip, prefixes@),
        decreases addresses@.len() - index,
    {
        if check_excluded(addresses[index].ip, prefixes) {
            assert(addresses@.to_set().contains(addresses@[index as int]));
            return true;
        }
        index = index + 1;
    }
    false
}

/// What is wrong with the peers' addresses, in order.
fn check_peer_addresses(peers: &Vec<V2PeerConfig>, exclusions: &Vec<IpNet>) -> (r: Option<
    ConfigErrorV2,
>)
    requires
        all_wf(exclusions@),
    ensures
        r == peer_address_error(peer_models(peers@), exclusions@),
{
    let ghost models = peer_models(peers@);
    let mut index: usize = 0;
    assert(models.take(0).len() == 0);
    while index < peers.len()
        invariant
            all_wf(exclusions@),
            index <= peers@.len(),
            models == peer_models(peers@),
            peer_address_error(models.take(index as int), exclusions@) is None,
        decreases peers@.len() - index,
    {
        proof {
            assert(models.take(index + 1).drop_last() =~= models.take(index as int));
            assert(models.take(index + 1).last() == peer_model(peers@[index as int]));
        }
        if check_port_zero(&peers[index].addresses) {
            proof {
                lemma_peer_error_stays(models, exclusions@, index + 1);
            }
            return Some(ConfigErrorV2::PeerPortZero);
        }
        if check_any_excluded(&peers[index].addresses, exclusions) {
            proof {
                lemma_peer_error_stays(models, exclusions@, index + 1);
            }
            return Some(ConfigErrorV2::PeerAddressExcluded);
        }
        index = index + 1;
    }
    assert(models.take(index as int) =~= models);
    None
}

/// The first error is the error of the whole run.
proof fn lemma_peer_error_stays(peers: Seq<PeerModel>, exclusions: Seq<IpNet>, count: int)
    requires
        0 <= count <= peers.len(),
        peer_address_error(peers.take(count), exclusions) is Some,
    ensures
        peer_address_error(peers, exclusions) == peer_address_error(peers.take(count), exclusions),
    decreases peers.len(),
{
    if count == peers.len() {
        assert(peers.take(count) =~= peers);
    } else {
        assert(peers.drop_last().take(count) =~= peers.take(count));
        lemma_peer_error_stays(peers.drop_last(), exclusions, count);
    }
}

/// Some cover name is no host name.
pub open spec fn has_invalid_name(names: Seq<String>) -> bool {
    exists|i: int|
        0 <= i < names.len() && !is_cover_name(vstd::utf8::encode_utf8(#[trigger] names[i]@))
}

/// Whether some cover name is no host name.
fn check_names(names: &Vec<String>) -> (r: bool)
    ensures
        r == has_invalid_name(names@),
{
    let mut index: usize = 0;
    while index < names.len()
        invariant
            index <= names@.len(),
            forall|i: int|
                0 <= i < index ==> is_cover_name(
                    vstd::utf8::encode_utf8(#[trigger] names@[i]@),
                ),
        decreases names@.len() - index,
    {
        if validate_cover_sni(names[index].as_str()).is_err() {
            assert(!is_cover_name(vstd::utf8::encode_utf8(names@[index as int]@)));
            return true;
        }
        index = index + 1;
    }
    false
}

/// Some peer has a DERP key.
pub open spec fn has_derp_peer(peers: Seq<PeerModel>) -> bool {
    exists|i: int| 0 <= i < peers.len() && (#[trigger] peers[i]).derp_public_key is Some
}

/// Whether some peer has a DERP key.
fn check_derp_peer(peers: &Vec<V2PeerConfig>) -> (r: bool)
    ensures
        r == has_derp_peer(peer_models(peers@)),
{
    let mut index: usize = 0;
    while index < peers.len()
        invariant
            index <= peers@.len(),
            forall|i: int| 0 <= i < index ==> (#[trigger] peers@[i]).derp_public_key is None,
        decreases peers@.len() - index,
    {
        if peers[index].derp_public_key.is_some() {
            assert(peer_models(peers@)[index as int].derp_public_key is Some);
            return true;
        }
        index = index + 1;
    }
    false
}

impl V2RuntimeConfig {
    /// Every prefix of the configuration has a length of its family.
    pub open spec fn wf(&self) -> bool {
        &&& all_wf(self.excluded_underlay_prefixes@)
        &&& all_wf(self.node_addresses@)
        &&& all_wf(self.routes@)
        &&& all_wf(self.advertised_routes@)
    }

    /// The prefixes that no underlay path may use.
    pub open spec fn exclusions(&self) -> Seq<IpNet> {
        self.excluded_underlay_prefixes@ + self.node_addresses@ + self.routes@
            + self.advertised_routes@
    }

    /// The prefixes that no underlay path may use, each once and in order.
    pub fn underlay_path_exclusions(&self) -> (r: Vec<IpNet>)
        ensures
            is_strictly_sorted(keys(r@)),
            r@.to_set() == self.exclusions().to_set(),
            self.wf() ==> all_wf(r@),
    {
        let mut prefixes: Vec<IpNet> = copy_all(&self.excluded_underlay_prefixes);
        extend_with(&mut prefixes, &self.node_addresses);
        extend_with(&mut prefixes, &self.routes);
        extend_with(&mut prefixes, &self.advertised_routes);
        let ghost all = prefixes@;
        let sorted: Vec<IpNet> = sorted_distinct(prefixes);
        proof {
            crate::net::lemma_block_keys();
            lemma_distinct_values(all, sorted@);
            if self.wf() {
                assert forall|i: int| 0 <= i < sorted@.len() implies (
                #[trigger] sorted@[i]).wf() by {
                    assert(all.contains(sorted@[i]));
                    let j = choose|j: int| 0 <= j < all.len() && all[j] == sorted@[i];
                    let a = self.excluded_underlay_prefixes@.len() as int;
                    let b = a + self.node_addresses@.len();
                    let c = b + self.routes@.len();
                    if j < a {
                        assert(self.excluded_underlay_prefixes@[j].wf());
                    } else if j < b {
                        assert(self.node_addresses@[j - a].wf());
                    } else if j < c {
                        assert(self.routes@[j - b].wf());
                    } else {
                        assert(self.advertised_routes@[j - c].wf());
                    }
                }
            }
        }
        sorted
    }

    /// What is wrong with the configuration: the first check that fails.
    pub open spec fn first_error(&self) -> Option<ConfigErrorV2> {
        let derp_enabled = self.derp_servers@.len() > 0;
        let peers = merged_peers(self.mesh_peers@);
        if !self.path_migration.is_valid() {
            Some(ConfigErrorV2::PathMigration)
        } else if self.network_id@.len() == 0 {
            Some(ConfigErrorV2::EmptyNetworkId)
        } else if vstd::utf8::encode_utf8(self.network_id@).len() > MAX_NETWORK_ID_BYTES {
            Some(ConfigErrorV2::LongNetworkId)
        } else if self.cover_profile_id == 0 {
            Some(ConfigErrorV2::ZeroCoverProfile)
        } else if self.cover_sni_pool@.len() == 0 {
            Some(ConfigErrorV2::EmptyCoverPool)
        } else if has_invalid_name(self.cover_sni_pool@) {
            Some(ConfigErrorV2::InvalidCoverName)
        } else if has_twin(self.cover_sni_pool@) {
            Some(ConfigErrorV2::DuplicateCoverName)
        } else if self.tun_name@.len() == 0 {
            Some(ConfigErrorV2::EmptyTunName)
        } else if !(2 <= self.routing_rule_priority < 32_766) {
            Some(ConfigErrorV2::RulePriority)
        } else if is_kernel_table(self.routing_table) {
            Some(ConfigErrorV2::RoutingTable)
        } else if node_address_error(self.node_addresses@) is Some {
            node_address_error(self.node_addresses@)
        } else if !is_advertisable(self.advertised_routes@, self.allow_default_routes) {
            Some(ConfigErrorV2::Advertisement)
        } else if !self.allow_default_routes && has_default_route(self.routes@) {
            Some(ConfigErrorV2::DefaultRouteNotEnabled)
        } else if peer_address_error(peers, self.exclusions()) is Some {
            peer_address_error(peers, self.exclusions())
        } else if derp_enabled != self.derp_identity_file is Some {
            Some(ConfigErrorV2::DerpIdentityMismatch)
        } else if has_derp_peer(peers) && !derp_enabled {
            Some(ConfigErrorV2::DerpPeerWithoutServers)
        } else if regions_repeat(self.derp_servers@) {
            Some(ConfigErrorV2::DuplicateDerpRegion)
        } else if derp_keys_repeat(peers) {
            Some(ConfigErrorV2::DuplicateDerpPeer)
        } else {
            None
        }
    }

    /// Check the configuration; the first check that fails names the error.
    pub fn validate(&self) -> (r: Result<(), ConfigErrorV2>)
        requires
            self.wf(),
        ensures
            r == match self.first_error() {
                Some(error) => Err::<(), ConfigErrorV2>(error),
                None => Ok(()),
            },
    {
        match self.check_names_and_tables() {
            Some(error) => return Err(error),
            None => {},
        }
        if let Some(error) = check_node_addresses(&self.node_addresses) {
            return Err(error);
        }
        if !self.allow_default_routes && check_default_route(&self.advertised_routes) {
            return Err(ConfigErrorV2::Advertisement);
        }
        if !self.allow_default_routes && check_default_route(&self.routes) {
            return Err(ConfigErrorV2::DefaultRouteNotEnabled);
        }
        let peers: Vec<V2PeerConfig> = merge_peers(&self.mesh_peers);
        let exclusions: Vec<IpNet> = self.underlay_path_exclusions();
        proof {
            lemma_exclusion_by_set(peer_models(peers@), exclusions@, self.exclusions());
        }
        if let Some(error) = check_peer_addresses(&peers, &exclusions) {
            return Err(error);
        }
        let derp_enabled: bool = self.derp_servers.len() > 0;
        if derp_enabled != self.derp_identity_file.is_some() {
            return Err(ConfigErrorV2::DerpIdentityMismatch);
        }
        if check_derp_peer(&peers) && !derp_enabled {
            return Err(ConfigErrorV2::DerpPeerWithoutServers);
        }
        if check_regions_repeat(&self.derp_servers) {
            return Err(ConfigErrorV2::DuplicateDerpRegion);
        }
        if check_derp_keys_repeat(&peers) {
            return Err(ConfigErrorV2::DuplicateDerpPeer);
        }
        Ok(())
    }

    /// The checks on timers, names and tables.
    fn check_names_and_tables(&self) -> (r: Option<ConfigErrorV2>)
        ensures
            r is Some ==> r == self.first_error(),
            r is None ==> {
                &&& self.path_migration.is_valid()
                &&& self.network_id@.len() > 0
                &&& vstd::utf8::encode_utf8(self.network_id@).len() <= MAX_NETWORK_ID_BYTES
                &&& self.cover_profile_id != 0
                &&& self.cover_sni_pool@.len() > 0
                &&& !has_invalid_name(self.cover_sni_pool@)
                &&& !has_twin(self.cover_sni_pool@)
                &&& self.tun_name@.len() > 0
                &&& 2 <= self.routing_rule_priority < 32_766
                &&& !is_kernel_table(self.routing_table)
            },
    {
        if !self.path_migration.is_valid() {
            return Some(ConfigErrorV2::PathMigration);
        }
        if self.network_id.as_str().is_empty() {
            return Some(ConfigErrorV2::EmptyNetworkId);
        }
        if self.network_id.as_str().as_bytes().len() > MAX_NETWORK_ID_BYTES {
            return Some(ConfigErrorV2::LongNetworkId);
        }
        if self.cover_profile_id == 0 {
            return Some(ConfigErrorV2::ZeroCoverProfile);
        }
        if self.cover_sni_pool.len() == 0 {
            return Some(ConfigErrorV2::EmptyCoverPool);
        }
        if check_names(&self.cover_sni_pool) {
            return Some(ConfigErrorV2::InvalidCoverName);
        }
        if names_repeat(&self.cover_sni_pool) {
            return Some(ConfigErrorV2::DuplicateCoverName);
        }
        if self.tun_name.as_str().is_empty() {
            return Some(ConfigErrorV2::EmptyTunName);
        }
        if self.routing_rule_priority < 2 || self.routing_rule_priority >= 32_766 {
            return Some(ConfigErrorV2::RulePriority);
        }
        if self.routing_table == 0 || self.routing_table == 253 || self.routing_table == 254
            || self.routing_table == 255 {
            return Some(ConfigErrorV2::RoutingTable);
        }
        None
    }
}

/// The kernel's own tables: unspecified, default, main and local.
pub open spec fn is_kernel_table(table: u32) -> bool {
    table == 0 || table == 253 || table == 254 || table == 255
}

/// Exclusion depends only on which prefixes there are.
proof fn lemma_exclusion_by_set(peers: Seq<PeerModel>, a: Seq<IpNet>, b: Seq<IpNet>)
    requires
        a.to_set() == b.to_set(),
    ensures
        peer_address_error(peers, a) == peer_address_error(peers, b),
    decreases peers.len(),
{
    if peers.len() > 0 {
        lemma_exclusion_by_set(peers.drop_last(), a, b);
        assert forall|address: IpAddr| is_excluded(address, a) == is_excluded(address, b) by {
            lemma_excluded_transfer(address, a, b);
            lemma_excluded_transfer(address, b, a);
        }
        let addresses = peers.last().addresses;
        if has_excluded(addresses, a) {
            let address = choose|address: SocketAddr| #[trigger]
                addresses.contains(address) && is_excluded(address.ip, a);
            assert(is_excluded(address.ip, b));
        }
        if has_excluded(addresses, b) {
            let address = choose|address: SocketAddr| #[trigger]
                addresses.contains(address) && is_excluded(address.ip, b);
            assert(is_excluded(address.ip, a));
        }
    }
}

/// What one list excludes, another with the same prefixes excludes.
proof fn lemma_excluded_transfer(address: IpAddr, a: Seq<IpNet>, b: Seq<IpNet>)
    requires
        a.to_set() == b.to_set(),
    ensures
        is_excluded(address, a) ==> is_excluded(address, b),
{
    if is_excluded(address, a) {
        let i = choose|i: int| 0 <= i < a.len() && (#[trigger] a[i]).holds(address);
        assert(a.to_set().contains(a[i]));
        assert(b.contains(a[i]));
        let j = choose|j: int| 0 <= j < b.len() && b[j] == a[i];
        assert(b[j].holds(address));
    }
}

/// Whether every address of an entry is acceptable: it has a port and lies in no
/// excluded prefix.
pub open spec fn has_good_addresses(peer: PeerModel, exclusions: Seq<IpNet>) -> bool {
    !has_port_zero(peer.addresses) && !has_excluded(peer.addresses, exclusions)
}

/// The addresses of a list are acceptable where those of each entry are.
proof fn lemma_good_addresses(peers: Seq<PeerModel>, exclusions: Seq<IpNet>)
    ensures
        peer_address_error(peers, exclusions) is None <==> forall|i: int|
            0 <= i < peers.len() ==> has_good_addresses(#[trigger] peers[i], exclusions),
    decreases peers.len(),
{
    if peers.len() > 0 {
        let rest = peers.drop_last();
        lemma_good_addresses(rest, exclusions);
        if forall|i: int|
            0 <= i < peers.len() ==> has_good_addresses(#[trigger] peers[i], exclusions) {
            assert forall|i: int| 0 <= i < rest.len() implies has_good_addresses(
                #[trigger] rest[i],
                exclusions,
            ) by {
                assert(has_good_addresses(peers[i], exclusions));
            }
            assert(has_good_addresses(peers[peers.len() - 1], exclusions));
        }
        if peer_address_error(peers, exclusions) is None {
            assert forall|i: int| 0 <= i < peers.len() implies has_good_addresses(
                #[trigger] peers[i],
                exclusions,
            ) by {
                if i < rest.len() {
                    assert(has_good_addresses(rest[i], exclusions));
                }
            }
        }
    }
}

/// Repeating a peer is no error: merging finds fault with the addresses exactly
/// where some entry has an address that is not acceptable by itself.
pub proof fn lemma_repeating_a_peer_is_no_error(peers: Seq<PeerModel>, exclusions: Seq<IpNet>)
    ensures
        peer_address_error(merged(peers), exclusions) is None <==> forall|i: int|
            0 <= i < peers.len() ==> has_good_addresses(#[trigger] peers[i], exclusions),
{
    let list = merged(peers);
    lemma_good_addresses(list, exclusions);
    crate::peers::lemma_each_peer_stands_once(peers);
    if forall|i: int| 0 <= i < peers.len() ==> has_good_addresses(#[trigger] peers[i], exclusions) {
        assert forall|j: int| 0 <= j < list.len() implies has_good_addresses(
            #[trigger] list[j],
            exclusions,
        ) by {
            let id = peer_ids(peers)[j];
            assert(list[j] == merged_peer(peers, id));
            assert forall|address: SocketAddr| #[trigger]
                addresses_of(peers, id).contains(address) implies address.port != 0
                && !is_excluded(address.ip, exclusions) by {
                let i = choose|i: int|
                    0 <= i < peers.len() && (#[trigger] peers[i]).id == id
                        && peers[i].addresses.contains(address);
                assert(has_good_addresses(peers[i], exclusions));
            }
        }
    }
    if forall|j: int| 0 <= j < list.len() ==> has_good_addresses(#[trigger] list[j], exclusions) {
        assert forall|i: int| 0 <= i < peers.len() implies has_good_addresses(
            #[trigger] peers[i],
            exclusions,
        ) by {
            let id = peers[i].id;
            let j = choose|j: int| 0 <= j < list.len() && (#[trigger] list[j]).id == id;
            assert(has_good_addresses(list[j], exclusions));
            assert(list[j] == merged_peer(peers, peer_ids(peers)[j]));
            assert forall|address: SocketAddr| #[trigger]
                peers[i].addresses.contains(address) implies address.port != 0 && !is_excluded(
                address.ip,
                exclusions,
            ) by {
                assert(addresses_of(peers, id).contains(address));
                assert(list[j].addresses.contains(address));
            }
        }
    }
}

/// Validation decides alike on a configuration and on the same one with its
/// peers merged.
pub proof fn lemma_merging_peers_keeps_the_verdict(config: V2RuntimeConfig, other: V2RuntimeConfig)
    requires
        other == (V2RuntimeConfig { mesh_peers: other.mesh_peers, ..config }),
        is_merged_list(other.mesh_peers@, peer_models(config.mesh_peers@)),
    ensures
        config.first_error() == other.first_error(),
{
    crate::peers::lemma_merging_again_changes_nothing(peer_models(config.mesh_peers@));
}

/// A host name: letters, digits and hyphens in runs that dots part, where no
/// run is empty or begins or ends with a hyphen. Every accepted cover name is
/// one.
pub proof fn lemma_cover_names_are_host_names(name: Seq<u8>)
    requires
        is_cover_name(name),
    ensures
        1 <= name.len() <= 253,
        forall|i: int|
            0 <= i < name.len() ==> (48 <= #[trigger] name[i] <= 57) || (65 <= name[i] <= 90) || (97
                <= name[i] <= 122) || name[i] == 45 || name[i] == 46,
        name[0] != 45 && name[0] != 46,
        name.last() != 45 && name.last() != 46,
        forall|i: int, j: int|
            0 <= i && j == i + 1 && j < name.len() && #[trigger] name[i] == 46 ==> #[trigger] name[j]
                != 45 && name[j] != 46,
        forall|i: int, j: int|
            0 <= i && j == i + 1 && j < name.len() && #[trigger] name[j] == 46 ==> #[trigger] name[i]
                != 45,
{
    lemma_labels_make_a_host_name(name, 0);
}

proof fn lemma_labels_make_a_host_name(name: Seq<u8>, from: int)
    requires
        0 <= from,
        labels_from(name, from),
    ensures
        from < name.len(),
        forall|i: int|
            from <= i < name.len() ==> (48 <= #[trigger] name[i] <= 57) || (65 <= name[i] <= 90) || (
            97 <= name[i] <= 122) || name[i] == 45 || name[i] == 46,
        name[from] != 45 && name[from] != 46,
        name.last() != 45 && name.last() != 46,
        forall|i: int, j: int|
            from <= i && j == i + 1 && j < name.len() && #[trigger] name[i] == 46
                ==> #[trigger] name[j] != 45 && name[j] != 46,
        forall|i: int, j: int|
            from <= i && j == i + 1 && j < name.len() && #[trigger] name[j] == 46
                ==> #[trigger] name[i] != 45,
    decreases name.len() - from,
{
    let end = label_end(name, from);
    lemma_label_end_is_the_next_dot(name, from);
    assert(is_label_byte(name[from]));
    assert(is_label_byte(name[end - 1]));
    assert forall|i: int| from <= i < end implies is_label_byte(#[trigger] name[i]) by {}
    if end < name.len() {
        lemma_labels_make_a_host_name(name, end + 1);
        assert forall|i: int, j: int|
            from <= i && j == i + 1 && j < name.len() && #[trigger] name[i] == 46 implies
            #[trigger] name[j] != 45 && name[j] != 46 by {
            if i < end {
                assert(is_label_byte(name[i]));
            }
        }
        assert forall|i: int, j: int|
            from <= i && j == i + 1 && j < name.len() && #[trigger] name[j] == 46 implies
            #[trigger] name[i] != 45 by {
            if j < end {
                assert(is_label_byte(name[j]));
            }
        }
    } else {
        assert forall|i: int, j: int|
            from <= i && j == i + 1 && j < name.len() && #[trigger] name[i] == 46 implies
            #[trigger] name[j] != 45 && name[j] != 46 by {
            assert(is_label_byte(name[i]));
        }
        assert forall|i: int, j: int|
            from <= i && j == i + 1 && j < name.len() && #[trigger] name[j] == 46 implies
            #[trigger] name[i] != 45 by {
            assert(is_label_byte(name[j]));
        }
    }
}

proof fn lemma_label_end_is_the_next_dot(name: Seq<u8>, from: int)
    requires
        0 <= from <= name.len(),
    ensures
        ({
            let end = label_end(name, from);
            &&& from <= end <= name.len()
            &&& end == name.len() || name[end] == 46
            &&& forall|i: int| from <= i < end ==> #[trigger] name[i] != 46
        }),
    decreases name.len() - from,
{
    if from < name.len() && name[from] != 46 {
        lemma_label_end_is_the_next_dot(name, from + 1);
    }
}

/// Whether a dot stands among so many bytes from a place on.
pub open spec fn dot_within(name: Seq<u8>, start: int, count: int) -> bool {
    exists|i: int| start <= i < start + count && #[trigger] name[i] == 46
}

/// No accepted cover name holds a run of more than sixty-three bytes without a
/// dot.
pub proof fn lemma_cover_name_runs_are_short(name: Seq<u8>, start: int)
    requires
        is_cover_name(name),
        0 <= start,
        start + 64 <= name.len(),
    ensures
        dot_within(name, start, 64),
{
    lemma_label_runs_are_short(name, 0, start);
}

proof fn lemma_label_runs_are_short(name: Seq<u8>, from: int, start: int)
    requires
        labels_from(name, from),
        0 <= from <= start,
        start + 64 <= name.len(),
    ensures
        dot_within(name, start, 64),
    decreases name.len() - from,
{
    let end = label_end(name, from);
    lemma_label_end_is_the_next_dot(name, from);
    if end < name.len() {
        if start <= end {
            assert(name[end] == 46);
        } else {
            lemma_label_runs_are_short(name, end + 1, start);
        }
    }
}

/// Every host name of at most two hundred and fifty-three bytes, with no run of
/// more than sixty-three bytes between its dots, is an accepted cover name.
pub proof fn lemma_host_names_are_cover_names(name: Seq<u8>)
    requires
        1 <= name.len() <= 253,
        forall|i: int|
            0 <= i < name.len() ==> (48 <= #[trigger] name[i] <= 57) || (65 <= name[i] <= 90) || (97
                <= name[i] <= 122) || name[i] == 45 || name[i] == 46,
        name[0] != 45 && name[0] != 46,
        name.last() != 45 && name.last() != 46,
        forall|i: int, j: int|
            0 <= i && j == i + 1 && j < name.len() && #[trigger] name[i] == 46 ==> #[trigger] name[j]
                != 45 && name[j] != 46,
        forall|i: int, j: int|
            0 <= i && j == i + 1 && j < name.len() && #[trigger] name[j] == 46 ==> #[trigger] name[i]
                != 45,
        forall|start: int|
            0 <= start && start + 64 <= name.len() ==> #[trigger] dot_within(name, start, 64),
    ensures
        is_cover_name(name),
{
    lemma_host_name_makes_labels(name, 0);
}

proof fn lemma_host_name_makes_labels(name: Seq<u8>, from: int)
    requires
        0 <= from < name.len(),
        forall|i: int|
            0 <= i < name.len() ==> (48 <= #[trigger] name[i] <= 57) || (65 <= name[i] <= 90) || (97
                <= name[i] <= 122) || name[i] == 45 || name[i] == 46,
        name[from] != 45 && name[from] != 46,
        name.last() != 45 && name.last() != 46,
        forall|i: int, j: int|
            0 <= i && j == i + 1 && j < name.len() && #[trigger] name[i] == 46 ==> #[trigger] name[j]
                != 45 && name[j] != 46,
        forall|i: int, j: int|
            0 <= i && j == i + 1 && j < name.len() && #[trigger] name[j] == 46 ==> #[trigger] name[i]
                != 45,
        forall|start: int|
            0 <= start && start + 64 <= name.len() ==> #[trigger] dot_within(name, start, 64),
    ensures
        labels_from(name, from),
    decreases name.len() - from,
{
    let end = label_end(name, from);
    lemma_label_end_is_the_next_dot(name, from);
    assert(end > from);
    if end > from + 63 {
        assert(dot_within(name, from, 64));
        let i = choose|i: int| from <= i < from + 64 && #[trigger] name[i] == 46;
        assert(name[i] != 46);
    }
    assert forall|i: int| from <= i < end implies is_label_byte(#[trigger] name[i]) by {
        assert(name[i] != 46);
    }
    if end < name.len() {
        assert(name[end] == 46);
        let before = end - 1;
        assert(name[before] != 45);
        assert(name.last() == name[name.len() - 1]);
        assert(end + 1 < name.len());
        let after = end + 1;
        assert(name[after] != 45 && name[after] != 46);
        lemma_host_name_makes_labels(name, after);
    } else {
        assert(name[end - 1] == name.last());
    }
}

/// The addresses of a node are host addresses, at most one of each family.
/// Otherwise the error says which of the two was broken.
pub proof fn lemma_node_addresses_are_hosts(addresses: Seq<IpNet>)
    ensures
        node_address_error(addresses) is None <==> (forall|i: int|
            0 <= i < addresses.len() ==> (#[trigger] addresses[i]).prefix_len == (
            if addresses[i].addr is V4 {
                32int
            } else {
                128
            })) && (forall|i: int, j: int|
            0 <= i < j < addresses.len() ==> ((#[trigger] addresses[i]).addr is V4) != ((
            #[trigger] addresses[j]).addr is V4)),
        node_address_error(addresses) is Some && (forall|i: int|
            0 <= i < addresses.len() ==> (#[trigger] addresses[i]).prefix_len == (
            if addresses[i].addr is V4 {
                32int
            } else {
                128
            })) ==> node_address_error(addresses) == Some(ConfigErrorV2::NodeAddressFamilyTwice),
        node_address_error(addresses) is Some && (forall|i: int, j: int|
            0 <= i < j < addresses.len() ==> ((#[trigger] addresses[i]).addr is V4) != ((
            #[trigger] addresses[j]).addr is V4)) ==> node_address_error(addresses) == Some(
            ConfigErrorV2::NodeAddressNotHost,
        ),
    decreases addresses.len(),
{
    if addresses.len() > 0 {
        let rest = addresses.drop_last();
        let last = addresses.last();
        lemma_node_addresses_are_hosts(rest);
        assert forall|i: int| 0 <= i < rest.len() implies rest[i] == addresses[i] by {}
        if has_family(rest, last.addr.is_ipv6()) {
            let i = choose|i: int|
                0 <= i < rest.len() && (#[trigger] rest[i]).addr.is_ipv6() == last.addr.is_ipv6();
            assert((addresses[i].addr is V4) == (addresses[addresses.len() - 1].addr is V4));
        } else {
            assert forall|i: int| 0 <= i < rest.len() implies ((#[trigger] addresses[i]).addr is V4)
                != (last.addr is V4) by {
                assert(rest[i].addr.is_ipv6() != last.addr.is_ipv6());
            }
        }
        if node_address_error(rest) is Some {
            if forall|i: int|
                0 <= i < addresses.len() ==> (#[trigger] addresses[i]).prefix_len == (
                if addresses[i].addr is V4 {
                    32int
                } else {
                    128
                }) {
                assert forall|i: int| 0 <= i < rest.len() implies (#[trigger] rest[i]).prefix_len
                    == (if rest[i].addr is V4 {
                    32int
                } else {
                    128
                }) by {
                    assert(rest[i] == addresses[i]);
                }
            }
            if forall|i: int, j: int|
                0 <= i < j < addresses.len() ==> ((#[trigger] addresses[i]).addr is V4) != ((
                #[trigger] addresses[j]).addr is V4) {
                assert forall|i: int, j: int| 0 <= i < j < rest.len() implies ((
                #[trigger] rest[i]).addr is V4) != ((#[trigger] rest[j]).addr is V4) by {
                    assert(rest[i] == addresses[i] && rest[j] == addresses[j]);
                }
            }
        }
    }
}

/// The addresses of the peers are fit to dial when each has a port and none
/// lies in an excluded prefix. Otherwise the error says which was broken.
pub proof fn lemma_peer_addresses_are_fit_to_dial(peers: Seq<PeerModel>, exclusions: Seq<IpNet>)
    ensures
        peer_address_error(peers, exclusions) is None <==> (forall|i: int, address: SocketAddr|
            0 <= i < peers.len() && #[trigger] peers[i].addresses.contains(address) ==> address.port
                != 0 && !is_excluded(address.ip, exclusions)),
        peer_address_error(peers, exclusions) is Some && (forall|i: int, address: SocketAddr|
            0 <= i < peers.len() && #[trigger] peers[i].addresses.contains(address) ==> address.port
                != 0) ==> peer_address_error(peers, exclusions) == Some(
            ConfigErrorV2::PeerAddressExcluded,
        ),
        peer_address_error(peers, exclusions) is Some && (forall|i: int, address: SocketAddr|
            0 <= i < peers.len() && #[trigger] peers[i].addresses.contains(address) ==> !is_excluded(
                address.ip,
                exclusions,
            )) ==> peer_address_error(peers, exclusions) == Some(ConfigErrorV2::PeerPortZero),
    decreases peers.len(),
{
    if peers.len() > 0 {
        let rest = peers.drop_last();
        let last = peers.last();
        lemma_peer_addresses_are_fit_to_dial(rest, exclusions);
        assert forall|i: int| 0 <= i < rest.len() implies rest[i] == peers[i] by {}
        let at = peers.len() - 1;
        assert(peers[at] == last);
        if has_port_zero(last.addresses) {
            let address = choose|address: SocketAddr| #[trigger]
                last.addresses.contains(address) && address.port == 0;
            assert(peers[at].addresses.contains(address));
        }
        if has_excluded(last.addresses, exclusions) {
            let address = choose|address: SocketAddr| #[trigger]
                last.addresses.contains(address) && is_excluded(address.ip, exclusions);
            assert(peers[at].addresses.contains(address));
        }
        if peer_address_error(rest, exclusions) is Some {
            let (i, address) = choose|i: int, address: SocketAddr|
                0 <= i < rest.len() && #[trigger] rest[i].addresses.contains(address) && !(
                address.port != 0 && !is_excluded(address.ip, exclusions));
            assert(peers[i].addresses.contains(address));
            assert forall|i: int, address: SocketAddr|
                0 <= i < rest.len() && #[trigger] rest[i].addresses.contains(address) implies peers[i].addresses.contains(
                address,
            ) by {}
        } else {
            assert forall|i: int, address: SocketAddr|
                0 <= i < rest.len() && #[trigger] peers[i].addresses.contains(address) implies address.port
                != 0 && !is_excluded(address.ip, exclusions) by {
                assert(rest[i].addresses.contains(address));
            }
        }
    }
}

/// What an accepted configuration has: a keep-alive that fires before the
/// session idles out, a network identifier of at most a hundred and twenty-eight
/// bytes, a cover profile and distinct cover names, a named interface, a rule
/// priority and a table that leave the kernel's own alone, no default route
/// unless allowed, and relay servers exactly where a relay identity is.
pub proof fn lemma_accepted_configuration(config: V2RuntimeConfig)
    requires
        config.first_error() is None,
    ensures
        0 < config.path_migration.keep_alive_ms < config.path_migration.idle_timeout_ms,
        0 < config.path_migration.recovery_probation_ms,
        config.network_id@.len() > 0,
        vstd::utf8::encode_utf8(config.network_id@).len() <= 128,
        config.cover_profile_id != 0,
        config.cover_sni_pool@.len() > 0,
        forall|i: int|
            0 <= i < config.cover_sni_pool@.len() ==> is_cover_name(
                vstd::utf8::encode_utf8(#[trigger] config.cover_sni_pool@[i]@),
            ),
        forall|i: int, j: int|
            0 <= i < j < config.cover_sni_pool@.len() ==> #[trigger] config.cover_sni_pool@[i]@
                != #[trigger] config.cover_sni_pool@[j]@,
        config.tun_name@.len() > 0,
        2 <= config.routing_rule_priority <= 32_765,
        config.routing_table != 0 && config.routing_table != 253 && config.routing_table != 254
            && config.routing_table != 255,
        node_address_error(config.node_addresses@) is None,
        !config.allow_default_routes ==> forall|i: int|
            0 <= i < config.routes@.len() ==> (#[trigger] config.routes@[i]).prefix_len != 0,
        !config.allow_default_routes ==> forall|i: int|
            0 <= i < config.advertised_routes@.len() ==> (
            #[trigger] config.advertised_routes@[i]).prefix_len != 0,
        config.derp_servers@.len() > 0 <==> config.derp_identity_file is Some,
        forall|i: int, j: int|
            0 <= i < j < config.derp_servers@.len() ==> (
            #[trigger] config.derp_servers@[i]).region_id != (
            #[trigger] config.derp_servers@[j]).region_id,
{
}

/// The relay keys of an accepted configuration: none without a relay server,
/// and no two peers share one.
pub proof fn lemma_accepted_relay_keys(config: V2RuntimeConfig)
    requires
        config.first_error() is None,
    ensures
        ({
            let peers = merged_peers(config.mesh_peers@);
            &&& config.derp_servers@.len() == 0 ==> forall|i: int|
                0 <= i < peers.len() ==> (#[trigger] peers[i]).derp_public_key is None
            &&& forall|i: int, j: int|
                0 <= i < j < peers.len() && (#[trigger] peers[i]).derp_public_key is Some && (
                #[trigger] peers[j]).derp_public_key is Some ==> peers[i].derp_public_key->0@
                    != peers[j].derp_public_key->0@
        }),
{
    let peers = merged_peers(config.mesh_peers@);
    assert forall|i: int, j: int|
        0 <= i < j < peers.len() && (#[trigger] peers[i]).derp_public_key is Some && (
        #[trigger] peers[j]).derp_public_key is Some implies peers[i].derp_public_key->0@
        != peers[j].derp_public_key->0@ by {
        assert(!same_derp_key(peers[i], peers[j]));
    }
}

/// No peer of an accepted configuration is dialed without a port, nor inside a
/// prefix that is excluded from the underlay, is the node's own, is routed into
/// the overlay or is advertised.
pub proof fn lemma_accepted_peers_stay_outside_the_overlay(
    config: V2RuntimeConfig,
    peer: int,
    address: SocketAddr,
    at: int,
)
    requires
        config.first_error() is None,
        0 <= peer < merged_peers(config.mesh_peers@).len(),
        merged_peers(config.mesh_peers@)[peer].addresses.contains(address),
    ensures
        address.port != 0,
        0 <= at < config.excluded_underlay_prefixes@.len()
            ==> !config.excluded_underlay_prefixes@[at].holds(address.ip),
        0 <= at < config.node_addresses@.len() ==> !config.node_addresses@[at].holds(address.ip),
        0 <= at < config.routes@.len() ==> !config.routes@[at].holds(address.ip),
        0 <= at < config.advertised_routes@.len() ==> !config.advertised_routes@[at].holds(
            address.ip,
        ),
{
    let all = config.exclusions();
    lemma_peer_addresses_are_fit_to_dial(merged_peers(config.mesh_peers@), all);
    assert(!is_excluded(address.ip, all));
    let a = config.excluded_underlay_prefixes@.len() as int;
    let b = a + config.node_addresses@.len();
    let c = b + config.routes@.len();
    if 0 <= at < config.excluded_underlay_prefixes@.len() {
        assert(all[at] == config.excluded_underlay_prefixes@[at]);
    }
    if 0 <= at < config.node_addresses@.len() {
        assert(all[a + at] == config.node_addresses@[at]);
    }
    if 0 <= at < config.routes@.len() {
        assert(all[b + at] == config.routes@[at]);
    }
    if 0 <= at < config.advertised_routes@.len() {
        assert(all[c + at] == config.advertised_routes@[at]);
    }
}

/// Which error a refused configuration gives, field by field in the order in
/// which they are looked at.
pub proof fn lemma_refused_configuration(config: V2RuntimeConfig, at: int, other: int)
    ensures
        ({
            let timing = config.path_migration.keep_alive_ms > 0
                && config.path_migration.idle_timeout_ms > config.path_migration.keep_alive_ms
                && config.path_migration.recovery_probation_ms > 0;
            let named = timing && config.network_id@.len() > 0 && vstd::utf8::encode_utf8(
                config.network_id@,
            ).len() <= 128;
            let covered = named && config.cover_profile_id != 0 && config.cover_sni_pool@.len() > 0;
            let pooled = covered && (forall|i: int|
                0 <= i < config.cover_sni_pool@.len() ==> is_cover_name(
                    vstd::utf8::encode_utf8(#[trigger] config.cover_sni_pool@[i]@),
                ));
            let distinct = pooled && (forall|i: int, j: int|
                0 <= i < j < config.cover_sni_pool@.len() ==> #[trigger] config.cover_sni_pool@[i]@
                    != #[trigger] config.cover_sni_pool@[j]@);
            let placed = distinct && config.tun_name@.len() > 0 && 2 <= config.routing_rule_priority
                <= 32_765;
            let tabled = placed && config.routing_table != 0 && config.routing_table != 253
                && config.routing_table != 254 && config.routing_table != 255;
            let error = config.first_error();
            &&& !timing ==> error == Some(ConfigErrorV2::PathMigration)
            &&& timing && config.network_id@.len() == 0 ==> error == Some(
                ConfigErrorV2::EmptyNetworkId,
            )
            &&& timing && config.network_id@.len() > 0 && !named ==> error == Some(
                ConfigErrorV2::LongNetworkId,
            )
            &&& named && config.cover_profile_id == 0 ==> error == Some(
                ConfigErrorV2::ZeroCoverProfile,
            )
            &&& named && config.cover_profile_id != 0 && config.cover_sni_pool@.len() == 0 ==> error
                == Some(ConfigErrorV2::EmptyCoverPool)
            &&& covered && !pooled ==> error == Some(ConfigErrorV2::InvalidCoverName)
            &&& pooled && !distinct ==> error == Some(ConfigErrorV2::DuplicateCoverName)
            &&& distinct && config.tun_name@.len() == 0 ==> error == Some(
                ConfigErrorV2::EmptyTunName,
            )
            &&& distinct && config.tun_name@.len() > 0 && !placed ==> error == Some(
                ConfigErrorV2::RulePriority,
            )
            &&& placed && !tabled ==> error == Some(ConfigErrorV2::RoutingTable)
            &&& tabled && node_address_error(config.node_addresses@) is Some ==> error
                == node_address_error(config.node_addresses@)
            &&& tabled && node_address_error(config.node_addresses@) is None
                && !config.allow_default_routes && 0 <= at < config.advertised_routes@.len()
                && config.advertised_routes@[at].prefix_len == 0 ==> error == Some(
                ConfigErrorV2::Advertisement,
            )
            &&& tabled && node_address_error(config.node_addresses@) is None
                && !config.allow_default_routes && 0 <= at < config.routes@.len()
                && config.routes@[at].prefix_len == 0 && (forall|i: int|
                0 <= i < config.advertised_routes@.len() ==> (
                #[trigger] config.advertised_routes@[i]).prefix_len != 0) ==> error == Some(
                ConfigErrorV2::DefaultRouteNotEnabled,
            )
        }),
{
}

/// Which error the peers and the relay settings of an otherwise accepted
/// configuration give.
pub proof fn lemma_refused_relay_settings(config: V2RuntimeConfig, accepted: V2RuntimeConfig)
    requires
        accepted.first_error() is None,
        config.path_migration == accepted.path_migration,
        config.network_id == accepted.network_id,
        config.cover_profile_id == accepted.cover_profile_id,
        config.cover_sni_pool == accepted.cover_sni_pool,
        config.tun_name == accepted.tun_name,
        config.routing_rule_priority == accepted.routing_rule_priority,
        config.routing_table == accepted.routing_table,
        config.node_addresses == accepted.node_addresses,
        config.advertised_routes == accepted.advertised_routes,
        config.routes == accepted.routes,
        config.allow_default_routes == accepted.allow_default_routes,
        config.excluded_underlay_prefixes == accepted.excluded_underlay_prefixes,
    ensures
        ({
            let peers = merged_peers(config.mesh_peers@);
            let fit = peer_address_error(peers, config.exclusions()) is None;
            let matched = fit && ((config.derp_servers@.len() > 0) == (
            config.derp_identity_file is Some));
            let served = matched && (config.derp_servers@.len() > 0 || forall|i: int|
                0 <= i < peers.len() ==> (#[trigger] peers[i]).derp_public_key is None);
            let distinct = served && forall|i: int, j: int|
                0 <= i < j < config.derp_servers@.len() ==> (
                #[trigger] config.derp_servers@[i]).region_id != (
                #[trigger] config.derp_servers@[j]).region_id;
            let error = config.first_error();
            &&& !fit ==> error == peer_address_error(peers, config.exclusions())
            &&& fit && !matched ==> error == Some(ConfigErrorV2::DerpIdentityMismatch)
            &&& matched && !served ==> error == Some(ConfigErrorV2::DerpPeerWithoutServers)
            &&& served && !distinct ==> error == Some(ConfigErrorV2::DuplicateDerpRegion)
            &&& distinct && error is Some ==> error == Some(ConfigErrorV2::DuplicateDerpPeer)
        }),
{
}

} // verus!
