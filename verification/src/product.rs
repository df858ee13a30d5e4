//! The product configuration, and how it becomes a runtime configuration.

use vstd::prelude::*;

use crate::config::{
    all_wf, copy_all, extend_with, has_invalid_name, has_twin, is_cover_name, AutotuneConfig,
    ConfigErrorV2, DerpPublicKey, DerpServer, PathMigrationConfig, V2PeerConfig, V2RuntimeConfig,
};
use crate::identity::EndpointId;
use crate::net::{IpAddr, IpNet, SocketAddr};
use crate::peers::{is_merged_list, merge_peers, merged, peer_model, peer_models, PeerModel};
use crate::sort::{
    is_strictly_sorted, keys, lemma_distinct_values, lemma_distinct_values_are_unique, sorted_distinct,
};
use crate::text::{copy_texts, texts};

verus! {

/// The port that a node binds where none is configured.
pub const DEFAULT_BIND_PORT: u16 = 4000;

/// A configured peer.
#[derive(Debug)]
pub struct PeerConfig {
    pub name: String,
    pub endpoint_id: EndpointId,
    pub direct_addresses: Vec<SocketAddr>,
    pub derp_public_key: Option<DerpPublicKey>,
}

/// A private link to a peer.
#[derive(Debug)]
pub struct LinkConfig {
    pub name: String,
    pub peer_id: EndpointId,
    pub exclusive: bool,
    pub fallback: bool,
    pub remote_addresses: Vec<SocketAddr>,
}

/// Prefixes that a node originates.
#[derive(Debug)]
pub struct RouteOrigin {
    pub prefixes: Vec<IpNet>,
}

/// Cover settings.
#[derive(Debug)]
pub struct CoverConfig {
    pub sni_pool: Vec<String>,
    pub profile_id: u32,
}

/// Routing settings.
#[derive(Clone, Copy, Debug, PartialEq, Eq, Structural)]
pub struct RoutingConfig {
    pub isolate_overlay: bool,
    pub table: u32,
    pub rule_priority: u32,
    pub allow_default_routes: bool,
    pub nat_enabled: bool,
    pub transit_enabled: bool,
    pub max_egress_mbps: Option<u32>,
}

impl RoutingConfig {
    /// The egress limit in bits per second.
    pub open spec fn spec_max_egress_bps(&self) -> Option<u64> {
        match self.max_egress_mbps {
            Some(mbps) => Some((mbps * 1_000_000) as u64),
            None => None,
        }
    }

    /// The egress limit in bits per second.
    #[verifier::when_used_as_spec(spec_max_egress_bps)]
    pub fn max_egress_bps(&self) -> (r: Option<u64>)
        ensures
            r == self.spec_max_egress_bps(),
    {
        match self.max_egress_mbps {
            Some(mbps) => Some(mbps as u64 * 1_000_000),
            None => None,
        }
    }
}

/// The product configuration as far as the dataplane reads it.
#[derive(Debug)]
pub struct ProductConfigV2 {
    pub identity_file: String,
    pub bind_addresses: Vec<SocketAddr>,
    pub excluded_underlay_prefixes: Vec<IpNet>,
    pub peers: Vec<PeerConfig>,
    pub links: Vec<LinkConfig>,
    pub route_origins: Vec<RouteOrigin>,
    pub derp_servers: Vec<DerpServer>,
    pub derp_enabled: bool,
    pub derp_identity_file: String,
    pub network_id: String,
    pub cover: CoverConfig,
    pub node_interface: String,
    pub tun_mtu: u16,
    pub routing: RoutingConfig,
    pub node_addresses: Vec<IpNet>,
    pub advertised_prefixes: Vec<IpNet>,
    pub autotune: AutotuneConfig,
    pub path_migration: PathMigrationConfig,
}

impl ProductConfigV2 {
    /// Every prefix has a length of its family.
    pub open spec fn wf(&self) -> bool {
        &&& all_wf(self.excluded_underlay_prefixes@)
        &&& all_wf(self.node_addresses@)
        &&& all_wf(self.advertised_prefixes@)
        &&& forall|i: int|
            0 <= i < self.route_origins@.len() ==> all_wf(
                (#[trigger] self.route_origins@[i]).prefixes@,
            )
    }
}

/// An invite that the local authority issued to an endpoint.
#[derive(Clone, Copy, Debug)]
pub struct InviteV2 {
    pub endpoint: EndpointId,
    pub revoked: bool,
}

/// Whether every invite of an endpoint was revoked. An endpoint that was never
/// invited is not revoked.
pub open spec fn is_revoked(invites: Seq<InviteV2>, endpoint: Seq<u8>) -> bool {
    &&& exists|i: int| 0 <= i < invites.len() && (#[trigger] invites[i]).endpoint@ == endpoint
    &&& forall|i: int|
        0 <= i < invites.len() && (#[trigger] invites[i]).endpoint@ == endpoint
            ==> invites[i].revoked
}

/// Whether every invite of an endpoint was revoked.
pub fn invite_revoked(invites: &Vec<InviteV2>, endpoint: &EndpointId) -> (r: bool)
    ensures
        r == is_revoked(invites@, endpoint@),
{
    let mut known: bool = false;
    let mut index: usize = 0;
    while index < invites.len()
        invariant
            index <= invites@.len(),
            known == exists|i: int| 0 <= i < index && (#[trigger] invites@[i]).endpoint@ == endpoint@,
            forall|i: int|
                0 <= i < index && (#[trigger] invites@[i]).endpoint@ == endpoint@
                    ==> invites@[i].revoked,
        decreases invites@.len() - index,
    {
        if invites[index].endpoint.same(endpoint) {
            assert(invites@[index as int].endpoint@ == endpoint@);
            if !invites[index].revoked {
                return false;
            }
            known = true;
        }
        index = index + 1;
    }
    known
}

/// Whether a link belongs to a peer.
pub open spec fn is_link_of(link: LinkConfig, peer: Seq<u8>) -> bool {
    link.peer_id@ == peer
}

/// The addresses at which the links of a peer end, in order.
pub open spec fn link_addresses(links: Seq<LinkConfig>, peer: Seq<u8>) -> Seq<SocketAddr>
    decreases links.len(),
{
    if links.len() == 0 {
        Seq::empty()
    } else {
        let rest = link_addresses(links.drop_last(), peer);
        if is_link_of(links.last(), peer) {
            rest + links.last().remote_addresses@
        } else {
            rest
        }
    }
}

/// The first link of a peer that is shared or falls back.
pub open spec fn weak_link(links: Seq<LinkConfig>, peer: Seq<u8>) -> Option<int>
    decreases links.len(),
{
    if links.len() == 0 {
        None
    } else {
        match weak_link(links.drop_last(), peer) {
            Some(at) => Some(at),
            None => if is_link_of(links.last(), peer) && (!links.last().exclusive
                || links.last().fallback) {
                Some(links.len() - 1)
            } else {
                None
            },
        }
    }
}

/// The first weak link of the peers that were not revoked.
pub open spec fn first_weak_link(
    peers: Seq<PeerConfig>,
    links: Seq<LinkConfig>,
    invites: Seq<InviteV2>,
) -> Option<int>
    decreases peers.len(),
{
    if peers.len() == 0 {
        None
    } else {
        match first_weak_link(peers.drop_last(), links, invites) {
            Some(at) => Some(at),
            None => if is_revoked(invites, peers.last().endpoint_id@) {
                None
            } else {
                weak_link(links, peers.last().endpoint_id@)
            },
        }
    }
}

/// What a configured peer is: its addresses are the direct ones and those of
/// its links.
pub open spec fn product_peer(peer: PeerConfig, links: Seq<LinkConfig>) -> PeerModel {
    PeerModel {
        id: peer.endpoint_id@,
        addresses: (peer.direct_addresses@ + link_addresses(links, peer.endpoint_id@)).to_set(),
        derp_public_key: peer.derp_public_key,
    }
}

/// The configured peers that were not revoked.
pub open spec fn kept_peers(peers: Seq<PeerConfig>, invites: Seq<InviteV2>) -> Seq<PeerConfig> {
    peers.filter(|peer: PeerConfig| !is_revoked(invites, peer.endpoint_id@))
}

/// What each configured peer is, in order.
pub open spec fn product_peers(peers: Seq<PeerConfig>, links: Seq<LinkConfig>) -> Seq<PeerModel> {
    peers.map_values(|peer: PeerConfig| product_peer(peer, links))
}

/// The originated prefixes, in order.
pub open spec fn originated(origins: Seq<RouteOrigin>) -> Seq<IpNet>
    decreases origins.len(),
{
    if origins.len() == 0 {
        Seq::empty()
    } else {
        originated(origins.drop_last()) + origins.last().prefixes@
    }
}

/// The address to bind: the configured one, or every address of both families.
pub open spec fn bind_of(addresses: Seq<SocketAddr>) -> SocketAddr {
    if addresses.len() == 0 {
        SocketAddr::new(IpAddr::V6(0), DEFAULT_BIND_PORT)
    } else {
        addresses[0]
    }
}

/// What keeps a product configuration from being translated.
pub open spec fn translation_error(config: ProductConfigV2, invites: Seq<InviteV2>) -> Option<
    ConfigErrorV2,
> {
    let binds = config.bind_addresses@.to_set().len();
    if binds > 1 {
        Some(ConfigErrorV2::BindAddresses { found: binds as usize })
    } else {
        match first_weak_link(config.peers@, config.links@, invites) {
            Some(at) => Some(ConfigErrorV2::LinkNotExclusive { link: at as usize }),
            None => None,
        }
    }
}

/// Whether a runtime configuration is the translation of a product
/// configuration.
pub open spec fn translates(
    config: ProductConfigV2,
    invites: Seq<InviteV2>,
    runtime: V2RuntimeConfig,
) -> bool {
    &&& runtime.identity_file@ == config.identity_file@
    &&& runtime.bind == bind_of(config.bind_addresses@)
    &&& runtime.excluded_underlay_prefixes@ == config.excluded_underlay_prefixes@
    &&& is_merged_list(
        runtime.mesh_peers@,
        product_peers(kept_peers(config.peers@, invites), config.links@),
    )
    &&& runtime.derp_servers@ == config.derp_servers@
    &&& (runtime.derp_identity_file is Some) == config.derp_enabled
    &&& runtime.derp_identity_file matches Some(file) ==> file@ == config.derp_identity_file@
    &&& runtime.network_id@ == config.network_id@
    &&& texts(runtime.cover_sni_pool@) == texts(config.cover.sni_pool@)
    &&& runtime.cover_profile_id == config.cover.profile_id
    &&& runtime.tun_name@ == config.node_interface@
    &&& runtime.tun_mtu == config.tun_mtu
    &&& runtime.isolate_overlay == config.routing.isolate_overlay
    &&& runtime.routing_table == config.routing.table
    &&& runtime.routing_rule_priority == config.routing.rule_priority
    &&& runtime.node_addresses@ == config.node_addresses@
    &&& is_strictly_sorted(keys(runtime.routes@))
    &&& runtime.routes@.to_set() == originated(config.route_origins@).to_set()
    &&& runtime.advertised_routes@ == config.advertised_prefixes@
    &&& runtime.allow_default_routes == config.routing.allow_default_routes
    &&& runtime.subnet_nat == config.routing.nat_enabled
    &&& runtime.transit_enabled == config.routing.transit_enabled
    &&& runtime.autotune.mode == config.autotune.mode
    &&& runtime.autotune.objective == config.autotune.objective
    &&& runtime.autotune.policy@ == config.autotune.policy@
    &&& (runtime.autotune.shadow_policy is Some) == (config.autotune.shadow_policy is Some)
    &&& runtime.autotune.shadow_policy matches Some(path) ==> path@
        == config.autotune.shadow_policy->0@
    &&& runtime.autotune.memory == config.autotune.memory
    &&& runtime.autotune.wasm == config.autotune.wasm
    &&& runtime.path_migration == config.path_migration
    &&& runtime.max_egress_bytes_per_second == match config.routing.max_egress_bps() {
        Some(bits) => Some(bits / 8),
        None => None,
    }
}

/// The addresses of a peer, or its first weak link.
fn peer_addresses(peer: &PeerConfig, links: &Vec<LinkConfig>) -> (r: Result<Vec<SocketAddr>, usize>)
    ensures
        match r {
            Ok(addresses) => weak_link(links@, peer.endpoint_id@) is None && addresses@
                == peer.direct_addresses@ + link_addresses(links@, peer.endpoint_id@),
            Err(at) => weak_link(links@, peer.endpoint_id@) == Some(at as int),
        },
{
    let mut addresses: Vec<SocketAddr> = copy_all(&peer.direct_addresses);
    let mut index: usize = 0;
    let ghost id = peer.endpoint_id@;
    proof {
        assert(links@.take(0).len() == 0);
        assert(addresses@ =~= peer.direct_addresses@ + link_addresses(links@.take(0), id));
    }
    while index < links.len()
        invariant
            index <= links@.len(),
            id == peer.endpoint_id@,
            weak_link(links@.take(index as int), id) is None,
            addresses@ == peer.direct_addresses@ + link_addresses(links@.take(index as int), id),
        decreases links@.len() - index,
    {
        proof {
            assert(links@.take(index + 1).drop_last() =~= links@.take(index as int));
            assert(links@.take(index + 1).last() == links@[index as int]);
        }
        let link: &LinkConfig = &links[index];
        if link.peer_id.same(&peer.endpoint_id) {
            if !link.exclusive || link.fallback {
                proof {
                    lemma_weak_link_stays(links@, id, index + 1);
                }
                return Err(index);
            }
            extend_with(&mut addresses, &link.remote_addresses);
        }
        assert(addresses@ =~= peer.direct_addresses@ + link_addresses(
            links@.take(index + 1),
            id,
        ));
        index = index + 1;
    }
    assert(links@.take(index as int) =~= links@);
    Ok(addresses)
}

/// The first weak link is that of every longer run.
proof fn lemma_weak_link_stays(links: Seq<LinkConfig>, peer: Seq<u8>, count: int)
    requires
        0 <= count <= links.len(),
        weak_link(links.take(count), peer) is Some,
    ensures
        weak_link(links, peer) == weak_link(links.take(count), peer),
    decreases links.len(),
{
    if count == links.len() {
        assert(links.take(count) =~= links);
    } else {
        assert(links.drop_last().take(count) =~= links.take(count));
        lemma_weak_link_stays(links.drop_last(), peer, count);
    }
}

/// The first weak link is that of every longer run of peers.
proof fn lemma_first_weak_link_stays(
    peers: Seq<PeerConfig>,
    links: Seq<LinkConfig>,
    invites: Seq<InviteV2>,
    count: int,
)
    requires
        0 <= count <= peers.len(),
        first_weak_link(peers.take(count), links, invites) is Some,
    ensures
        first_weak_link(peers, links, invites) == first_weak_link(peers.take(count), links, invites),
    decreases peers.len(),
{
    if count == peers.len() {
        assert(peers.take(count) =~= peers);
    } else {
        assert(peers.drop_last().take(count) =~= peers.take(count));
        lemma_first_weak_link_stays(peers.drop_last(), links, invites, count);
    }
}

/// The runtime peers, the entries of each merged, or the first weak link.
fn mesh_peers(
    peers: &Vec<PeerConfig>,
    links: &Vec<LinkConfig>,
    invites: &Vec<InviteV2>,
) -> (r: Result<Vec<V2PeerConfig>, usize>)
    ensures
        match r {
            Ok(mesh) => first_weak_link(peers@, links@, invites@) is None && is_merged_list(
                mesh@,
                product_peers(kept_peers(peers@, invites@), links@),
            ),
            Err(at) => first_weak_link(peers@, links@, invites@) == Some(at as int),
        },
{
    let mut mesh: Vec<V2PeerConfig> = Vec::new();
    let mut index: usize = 0;
    let ghost keep = |peer: PeerConfig| !is_revoked(invites@, peer.endpoint_id@);
    proof {
        reveal(Seq::filter);
        assert(peers@.take(0).len() == 0);
        assert(peer_models(mesh@) =~= product_peers(peers@.take(0).filter(keep), links@));
    }
    while index < peers.len()
        invariant
            index <= peers@.len(),
            keep == (|peer: PeerConfig| !is_revoked(invites@, peer.endpoint_id@)),
            first_weak_link(peers@.take(index as int), links@, invites@) is None,
            peer_models(mesh@) == product_peers(peers@.take(index as int).filter(keep), links@),
        decreases peers@.len() - index,
    {
        let peer: &PeerConfig = &peers[index];
        proof {
            reveal(Seq::filter);
            assert(peers@.take(index + 1).drop_last() =~= peers@.take(index as int));
            assert(peers@.take(index + 1).last() == peers@[index as int]);
        }
        if !invite_revoked(invites, &peer.endpoint_id) {
            match peer_addresses(peer, links) {
                Ok(addresses) => {
                    let ghost before = mesh@;
                    let entry: V2PeerConfig = V2PeerConfig {
                        endpoint_id: peer.endpoint_id,
                        addresses,
                        derp_public_key: peer.derp_public_key,
                    };
                    mesh.push(entry);
                    proof {
                        let kept = peers@.take(index as int).filter(keep);
                        assert(peer_models(mesh@) =~= peer_models(before).push(peer_model(entry)));
                        assert(peers@.take(index + 1).filter(keep) =~= kept.push(*peer));
                        assert(product_peers(kept.push(*peer), links@) =~= product_peers(
                            kept,
                            links@,
                        ).push(product_peer(*peer, links@)));
                    }
                },
                Err(at) => {
                    proof {
                        lemma_first_weak_link_stays(peers@, links@, invites@, index + 1);
                    }
                    return Err(at);
                },
            }
        }
        index = index + 1;
    }
    assert(peers@.take(index as int) =~= peers@);
    Ok(merge_peers(&mesh))
}

/// The originated prefixes, each once and in order.
fn originated_routes(origins: &Vec<RouteOrigin>) -> (r: Vec<IpNet>)
    ensures
        is_strictly_sorted(keys(r@)),
        r@.to_set() == originated(origins@).to_set(),
{
    let mut prefixes: Vec<IpNet> = Vec::new();
    let mut index: usize = 0;
    assert(origins@.take(0).len() == 0);
    while index < origins.len()
        invariant
            index <= origins@.len(),
            prefixes@ == originated(origins@.take(index as int)),
        decreases origins@.len() - index,
    {
        extend_with(&mut prefixes, &origins[index].prefixes);
        proof {
            assert(origins@.take(index + 1).drop_last() =~= origins@.take(index as int));
            assert(origins@.take(index + 1).last() == origins@[index as int]);
        }
        index = index + 1;
    }
    let ghost all = prefixes@;
    let r: Vec<IpNet> = sorted_distinct(prefixes);
    proof {
        assert(origins@.take(index as int) =~= origins@);
        crate::net::lemma_block_keys();
        lemma_distinct_values(all, r@);
    }
    r
}

/// Originated prefixes have a length of their family.
proof fn lemma_originated_wf(origins: Seq<RouteOrigin>)
    requires
        forall|i: int| 0 <= i < origins.len() ==> all_wf((#[trigger] origins[i]).prefixes@),
    ensures
        all_wf(originated(origins)),
    decreases origins.len(),
{
    if origins.len() > 0 {
        let rest = origins.drop_last();
        assert forall|i: int| 0 <= i < rest.len() implies all_wf(
            (#[trigger] rest[i]).prefixes@,
        ) by {
            assert(rest[i] == origins[i]);
        }
        lemma_originated_wf(rest);
        assert(all_wf(origins[origins.len() - 1].prefixes@));
        assert forall|i: int| 0 <= i < originated(origins).len() implies (#[trigger] originated(
            origins,
        )[i]).wf() by {
            let earlier = originated(rest);
            if i < earlier.len() {
                assert(earlier[i].wf());
            } else {
                assert(origins.last().prefixes@[i - earlier.len()].wf());
            }
        }
    }
}

impl V2RuntimeConfig {
    /// Translate the product configuration, without validating the result.
    pub fn translate_product_config(config: &ProductConfigV2, invites: &Vec<InviteV2>) -> (r: Result<
        V2RuntimeConfig,
        ConfigErrorV2,
    >)
        requires
            config.wf(),
        ensures
            match translation_error(*config, invites@) {
                Some(error) => r == Err::<V2RuntimeConfig, ConfigErrorV2>(error),
                None => r matches Ok(runtime) && translates(*config, invites@, runtime)
                    && runtime.wf(),
            },
    {
        let binds: Vec<SocketAddr> = sorted_distinct(copy_all(&config.bind_addresses));
        proof {
            crate::net::lemma_endpoint_keys();
            lemma_distinct_values(config.bind_addresses@, binds@);
        }
        if binds.len() > 1 {
            return Err(ConfigErrorV2::BindAddresses { found: binds.len() });
        }
        let bind: SocketAddr = if binds.len() == 0 {
            proof {
                if config.bind_addresses@.len() > 0 {
                    assert(config.bind_addresses@.to_set().contains(config.bind_addresses@[0]));
                    assert(binds@.contains(config.bind_addresses@[0]));
                }
            }
            SocketAddr::new(IpAddr::V6(0), DEFAULT_BIND_PORT)
        } else {
            proof {
                assert(binds@.to_set().contains(binds@[0]));
                assert(config.bind_addresses@.contains(binds@[0]));
                assert(config.bind_addresses@.to_set().contains(config.bind_addresses@[0]));
                assert(binds@.contains(config.bind_addresses@[0]));
            }
            binds[0]
        };
        let mesh: Vec<V2PeerConfig> = match mesh_peers(&config.peers, &config.links, invites) {
            Ok(mesh) => mesh,
            Err(at) => return Err(ConfigErrorV2::LinkNotExclusive { link: at }),
        };
        let routes: Vec<IpNet> = originated_routes(&config.route_origins);
        proof {
            lemma_originated_wf(config.route_origins@);
            let all = originated(config.route_origins@);
            assert forall|i: int| 0 <= i < routes@.len() implies (#[trigger] routes@[i]).wf() by {
                assert(routes@.to_set().contains(routes@[i]));
                assert(all.contains(routes@[i]));
                let j = choose|j: int| 0 <= j < all.len() && all[j] == routes@[i];
                assert(all[j].wf());
            }
        }
        let derp_identity_file: Option<String> = if config.derp_enabled {
            Some(config.derp_identity_file.clone())
        } else {
            None
        };
        let shadow_policy: Option<String> = match &config.autotune.shadow_policy {
            Some(path) => Some(path.clone()),
            None => None,
        };
        let max_egress_bytes_per_second: Option<u64> = match config.routing.max_egress_bps() {
            Some(bits) => Some(bits / 8),
            None => None,
        };
        Ok(
            V2RuntimeConfig {
                identity_file: config.identity_file.clone(),
                bind,
                excluded_underlay_prefixes: copy_all(&config.excluded_underlay_prefixes),
                mesh_peers: mesh,
                derp_servers: copy_all(&config.derp_servers),
                derp_identity_file,
                network_id: config.network_id.clone(),
                cover_sni_pool: copy_texts(&config.cover.sni_pool),
                cover_profile_id: config.cover.profile_id,
                tun_name: config.node_interface.clone(),
                tun_mtu: config.tun_mtu,
                isolate_overlay: config.routing.isolate_overlay,
                routing_table: config.routing.table,
                routing_rule_priority: config.routing.rule_priority,
                node_addresses: copy_all(&config.node_addresses),
                routes,
                advertised_routes: copy_all(&config.advertised_prefixes),
                allow_default_routes: config.routing.allow_default_routes,
                subnet_nat: config.routing.nat_enabled,
                transit_enabled: config.routing.transit_enabled,
                autotune: AutotuneConfig {
                    mode: config.autotune.mode,
                    objective: config.autotune.objective,
                    policy: config.autotune.policy.clone(),
                    shadow_policy,
                    memory: config.autotune.memory,
                    wasm: config.autotune.wasm,
                },
                path_migration: config.path_migration,
                max_egress_bytes_per_second,
            },
        )
    }

    /// Translate the product configuration and validate the result. An
    /// unsupported transport shape is refused: more than one bind address, or
    /// a private link that is shared or falls back.
    pub fn from_product_config(config: &ProductConfigV2, invites: &Vec<InviteV2>) -> (r: Result<
        V2RuntimeConfig,
        ConfigErrorV2,
    >)
        requires
            config.wf(),
        ensures
            match translation_error(*config, invites@) {
                Some(error) => r == Err::<V2RuntimeConfig, ConfigErrorV2>(error),
                None => exists|runtime: V2RuntimeConfig| #[trigger]
                    translates(*config, invites@, runtime) && match runtime.first_error() {
                        Some(error) => r == Err::<V2RuntimeConfig, ConfigErrorV2>(error),
                        None => r == Ok::<V2RuntimeConfig, ConfigErrorV2>(runtime),
                    },
            },
    {
        let runtime: V2RuntimeConfig = match V2RuntimeConfig::translate_product_config(
            config,
            invites,
        ) {
            Ok(runtime) => runtime,
            Err(error) => return Err(error),
        };
        match runtime.validate() {
            Ok(()) => Ok(runtime),
            Err(error) => Err(error),
        }
    }
}

/// Whether two peers are the same to every rule.
pub open spec fn alike(a: V2PeerConfig, b: V2PeerConfig) -> bool {
    &&& a.endpoint_id@ == b.endpoint_id@
    &&& a.addresses@ == b.addresses@
    &&& a.derp_public_key == b.derp_public_key
}

/// The translation is fixed by the product configuration and the invites: two
/// translations hold the same addresses and routes, and validation decides
/// alike on both.
pub proof fn lemma_translation_is_unique(
    config: ProductConfigV2,
    invites: Seq<InviteV2>,
    a: V2RuntimeConfig,
    b: V2RuntimeConfig,
)
    requires
        translates(config, invites, a),
        translates(config, invites, b),
    ensures
        a.routes@ == b.routes@,
        a.mesh_peers@.len() == b.mesh_peers@.len(),
        forall|i: int|
            0 <= i < a.mesh_peers@.len() ==> alike(#[trigger] a.mesh_peers@[i], b.mesh_peers@[i]),
        a.first_error() == b.first_error(),
{
    crate::net::lemma_block_keys();
    crate::net::lemma_endpoint_keys();
    lemma_distinct_values_are_unique(a.routes@, b.routes@);
    let left = peer_models(a.mesh_peers@);
    let right = peer_models(b.mesh_peers@);
    assert(left.len() == a.mesh_peers@.len());
    assert(right.len() == b.mesh_peers@.len());
    assert forall|i: int| 0 <= i < a.mesh_peers@.len() implies alike(
        #[trigger] a.mesh_peers@[i],
        b.mesh_peers@[i],
    ) by {
        assert(left[i] == peer_model(a.mesh_peers@[i]));
        assert(right[i] == peer_model(b.mesh_peers@[i]));
        lemma_distinct_values_are_unique(
            a.mesh_peers@[i].addresses@,
            b.mesh_peers@[i].addresses@,
        );
    }
    lemma_names_alike(a.cover_sni_pool@, b.cover_sni_pool@);
    lemma_names_alike(b.cover_sni_pool@, a.cover_sni_pool@);
    assert(a.exclusions() == b.exclusions());
    assert(texts(a.cover_sni_pool@).len() == texts(b.cover_sni_pool@).len());
}

/// Names with the same texts break the same rules.
proof fn lemma_names_alike(a: Seq<String>, b: Seq<String>)
    requires
        texts(a) == texts(b),
    ensures
        has_invalid_name(a) ==> has_invalid_name(b),
        has_twin(a) ==> has_twin(b),
{
    assert(texts(a).len() == a.len());
    assert(texts(b).len() == b.len());
    assert forall|i: int| 0 <= i < a.len() implies #[trigger] a[i]@ == b[i]@ by {
        assert(texts(a)[i] == texts(b)[i]);
    }
    if has_invalid_name(a) {
        let i = choose|i: int|
            0 <= i < a.len() && !is_cover_name(vstd::utf8::encode_utf8(#[trigger] a[i]@));
        assert(!is_cover_name(vstd::utf8::encode_utf8(b[i]@)));
    }
    if has_twin(a) {
        let (i, j) = choose|i: int, j: int|
            0 <= i < j < a.len() && #[trigger] a[i]@ == #[trigger] a[j]@;
        assert(b[i]@ == b[j]@);
    }
}

/// A peer whose every invite was revoked is no adjacency.
pub proof fn lemma_revoked_peer_is_left_out(
    config: ProductConfigV2,
    invites: Seq<InviteV2>,
    runtime: V2RuntimeConfig,
)
    requires
        translates(config, invites, runtime),
    ensures
        forall|i: int|
            0 <= i < runtime.mesh_peers@.len() ==> !is_revoked(
                invites,
                (#[trigger] runtime.mesh_peers@[i]).endpoint_id@,
            ),
{
    let keep = |peer: PeerConfig| !is_revoked(invites, peer.endpoint_id@);
    let kept = kept_peers(config.peers@, invites);
    let models = product_peers(kept, config.links@);
    let list = peer_models(runtime.mesh_peers@);
    crate::peers::lemma_each_peer_stands_once(models);
    assert(list.len() == runtime.mesh_peers@.len());
    assert forall|i: int| 0 <= i < runtime.mesh_peers@.len() implies !is_revoked(
        invites,
        (#[trigger] runtime.mesh_peers@[i]).endpoint_id@,
    ) by {
        assert(list[i].id == runtime.mesh_peers@[i].endpoint_id@);
        assert(list[i] == merged(models)[i]);
        let j = choose|j: int|
            0 <= j < models.len() && (#[trigger] models[j]).id == merged(models)[i].id;
        config.peers@.lemma_filter_pred(keep, j);
        assert(models[j] == product_peer(kept[j], config.links@));
    }
}

/// An endpoint is shut out once every invite that it was given is revoked. One
/// standing invite keeps it in, and so does having been given none.
pub proof fn lemma_one_standing_invite_is_enough(
    invites: Seq<InviteV2>,
    endpoint: Seq<u8>,
    at: int,
)
    ensures
        0 <= at < invites.len() && invites[at].endpoint@ == endpoint && !invites[at].revoked
            ==> !is_revoked(invites, endpoint),
        (forall|i: int| 0 <= i < invites.len() ==> (#[trigger] invites[i]).endpoint@ != endpoint)
            ==> !is_revoked(invites, endpoint),
        0 <= at < invites.len() && invites[at].endpoint@ == endpoint && (forall|i: int|
            0 <= i < invites.len() && (#[trigger] invites[i]).endpoint@ == endpoint
                ==> invites[i].revoked) ==> is_revoked(invites, endpoint),
{
}

/// A peer is reached at its direct addresses and at those of the links that
/// name it, and nowhere else.
pub proof fn lemma_peer_is_reached_at_its_own_addresses(
    peer: PeerConfig,
    links: Seq<LinkConfig>,
    address: SocketAddr,
)
    ensures
        product_peer(peer, links).id == peer.endpoint_id@,
        product_peer(peer, links).derp_public_key == peer.derp_public_key,
        product_peer(peer, links).addresses.contains(address) <==> peer.direct_addresses@.contains(
            address,
        ) || exists|i: int|
            0 <= i < links.len() && (#[trigger] links[i]).peer_id@ == peer.endpoint_id@
                && links[i].remote_addresses@.contains(address),
{
    let own = peer.direct_addresses@;
    let linked = link_addresses(links, peer.endpoint_id@);
    lemma_link_addresses_belong_to_the_peer(links, peer.endpoint_id@, address);
    let all = own + linked;
    if all.contains(address) {
        let i = choose|i: int| 0 <= i < all.len() && all[i] == address;
        if i < own.len() {
            assert(own[i] == address);
        } else {
            assert(linked[i - own.len()] == address);
        }
    }
    if own.contains(address) {
        let i = choose|i: int| 0 <= i < own.len() && own[i] == address;
        assert(all[i] == address);
    }
    if linked.contains(address) {
        let i = choose|i: int| 0 <= i < linked.len() && linked[i] == address;
        assert(all[own.len() + i] == address);
    }
}

proof fn lemma_link_addresses_belong_to_the_peer(
    links: Seq<LinkConfig>,
    peer: Seq<u8>,
    address: SocketAddr,
)
    ensures
        link_addresses(links, peer).contains(address) <==> exists|i: int|
            0 <= i < links.len() && (#[trigger] links[i]).peer_id@ == peer
                && links[i].remote_addresses@.contains(address),
    decreases links.len(),
{
    if links.len() > 0 {
        let before = links.drop_last();
        let last = links.last();
        let rest = link_addresses(before, peer);
        lemma_link_addresses_belong_to_the_peer(before, peer, address);
        if exists|i: int|
            0 <= i < before.len() && (#[trigger] before[i]).peer_id@ == peer
                && before[i].remote_addresses@.contains(address) {
            let i = choose|i: int|
                0 <= i < before.len() && (#[trigger] before[i]).peer_id@ == peer
                    && before[i].remote_addresses@.contains(address);
            assert(links[i] == before[i]);
        }
        if exists|i: int|
            0 <= i < links.len() && (#[trigger] links[i]).peer_id@ == peer
                && links[i].remote_addresses@.contains(address) {
            let i = choose|i: int|
                0 <= i < links.len() && (#[trigger] links[i]).peer_id@ == peer
                    && links[i].remote_addresses@.contains(address);
            if i < before.len() {
                assert(before[i] == links[i]);
            }
        }
        if last.peer_id@ == peer {
            let all = rest + last.remote_addresses@;
            if all.contains(address) {
                let i = choose|i: int| 0 <= i < all.len() && all[i] == address;
                if i < rest.len() {
                    assert(rest[i] == address);
                } else {
                    assert(last.remote_addresses@[i - rest.len()] == address);
                    assert(links[links.len() - 1].remote_addresses@.contains(address));
                }
            }
            if rest.contains(address) {
                let i = choose|i: int| 0 <= i < rest.len() && rest[i] == address;
                assert(all[i] == address);
            }
            if last.remote_addresses@.contains(address) {
                let i = choose|i: int|
                    0 <= i < last.remote_addresses@.len() && last.remote_addresses@[i] == address;
                assert(all[rest.len() + i] == address);
            }
        }
    }
}

/// The weak link of a peer is the first link of that peer that is shared or
/// falls back to another path.
pub proof fn lemma_weak_link_is_the_first(links: Seq<LinkConfig>, peer: Seq<u8>)
    ensures
        match weak_link(links, peer) {
            Some(at) => {
                &&& 0 <= at < links.len()
                &&& links[at].peer_id@ == peer
                &&& !links[at].exclusive || links[at].fallback
                &&& forall|i: int|
                    0 <= i < at && (#[trigger] links[i]).peer_id@ == peer ==> links[i].exclusive
                        && !links[i].fallback
            },
            None => forall|i: int|
                0 <= i < links.len() && (#[trigger] links[i]).peer_id@ == peer ==> links[i].exclusive
                    && !links[i].fallback,
        },
    decreases links.len(),
{
    if links.len() > 0 {
        let before = links.drop_last();
        lemma_weak_link_is_the_first(before, peer);
        assert forall|i: int| 0 <= i < before.len() implies before[i] == #[trigger] links[i] by {}
    }
}

/// A configuration is refused for a link exactly when some peer that was not
/// revoked has a link that is shared or falls back, and more than one bind
/// address is refused before that.
pub proof fn lemma_untranslatable_configuration(
    config: ProductConfigV2,
    invites: Seq<InviteV2>,
    peer: int,
    link: int,
)
    requires
        config.bind_addresses@.to_set().len() <= usize::MAX,
        config.links@.len() <= usize::MAX,
    ensures
        config.bind_addresses@.to_set().len() > 1 ==> (translation_error(config, invites) matches Some(
            ConfigErrorV2::BindAddresses { found },
        ) && found == config.bind_addresses@.to_set().len()),
        config.bind_addresses@.to_set().len() <= 1 && 0 <= peer < config.peers@.len() && 0 <= link
            < config.links@.len() && !is_revoked(invites, config.peers@[peer].endpoint_id@)
            && config.links@[link].peer_id@ == config.peers@[peer].endpoint_id@ && (
        !config.links@[link].exclusive || config.links@[link].fallback) ==> (translation_error(
            config,
            invites,
        ) matches Some(ConfigErrorV2::LinkNotExclusive { link: found }) && found
            < config.links@.len() && (!config.links@[found as int].exclusive
            || config.links@[found as int].fallback)),
        config.bind_addresses@.to_set().len() <= 1 && (forall|i: int|
            0 <= i < config.links@.len() ==> (#[trigger] config.links@[i]).exclusive
                && !config.links@[i].fallback) ==> translation_error(config, invites) is None,
{
    lemma_first_weak_link(config.peers@, config.links@, invites);
    if 0 <= peer < config.peers@.len() {
        lemma_weak_link_is_the_first(config.links@, config.peers@[peer].endpoint_id@);
    }
}

proof fn lemma_first_weak_link(
    peers: Seq<PeerConfig>,
    links: Seq<LinkConfig>,
    invites: Seq<InviteV2>,
)
    ensures
        match first_weak_link(peers, links, invites) {
            Some(at) => 0 <= at < links.len() && (!links[at].exclusive || links[at].fallback),
            None => forall|i: int|
                0 <= i < peers.len() && !is_revoked(invites, (#[trigger] peers[i]).endpoint_id@)
                    ==> weak_link(links, peers[i].endpoint_id@) is None,
        },
    decreases peers.len(),
{
    if peers.len() > 0 {
        let before = peers.drop_last();
        lemma_first_weak_link(before, links, invites);
        lemma_weak_link_is_the_first(links, peers.last().endpoint_id@);
        assert forall|i: int| 0 <= i < before.len() implies before[i] == #[trigger] peers[i] by {}
    }
}

/// What a translation carries over: the first bind address, or port four
/// thousand of every address; the relay identity exactly where the relay is
/// enabled; the settings under the names that the runtime gives them; and an
/// eighth of the egress limit, which is configured in megabits, as bytes.
pub proof fn lemma_translation_carries_the_settings(
    config: ProductConfigV2,
    invites: Seq<InviteV2>,
    runtime: V2RuntimeConfig,
)
    requires
        translates(config, invites, runtime),
    ensures
        config.bind_addresses@.len() == 0 ==> runtime.bind.ip == IpAddr::V6(0) && runtime.bind.port
            == 4000 && runtime.bind.flowinfo == 0 && runtime.bind.scope_id == 0,
        config.bind_addresses@.len() > 0 ==> runtime.bind == config.bind_addresses@[0],
        config.derp_enabled ==> (runtime.derp_identity_file matches Some(file) && file@
            == config.derp_identity_file@),
        !config.derp_enabled ==> runtime.derp_identity_file is None,
        config.routing.max_egress_mbps matches Some(mbps) ==> (
        runtime.max_egress_bytes_per_second matches Some(bytes) && bytes == mbps * 125_000),
        config.routing.max_egress_mbps is None ==> runtime.max_egress_bytes_per_second is None,
        runtime.identity_file@ == config.identity_file@,
        runtime.network_id@ == config.network_id@,
        runtime.tun_name@ == config.node_interface@,
        runtime.tun_mtu == config.tun_mtu,
        runtime.cover_profile_id == config.cover.profile_id,
        texts(runtime.cover_sni_pool@) == texts(config.cover.sni_pool@),
        runtime.derp_servers@ == config.derp_servers@,
        runtime.excluded_underlay_prefixes@ == config.excluded_underlay_prefixes@,
        runtime.node_addresses@ == config.node_addresses@,
        runtime.advertised_routes@ == config.advertised_prefixes@,
        runtime.isolate_overlay == config.routing.isolate_overlay,
        runtime.routing_table == config.routing.table,
        runtime.routing_rule_priority == config.routing.rule_priority,
        runtime.allow_default_routes == config.routing.allow_default_routes,
        runtime.subnet_nat == config.routing.nat_enabled,
        runtime.transit_enabled == config.routing.transit_enabled,
        runtime.path_migration == config.path_migration,
        runtime.autotune.mode == config.autotune.mode,
        runtime.autotune.objective == config.autotune.objective,
        runtime.autotune.policy@ == config.autotune.policy@,
        runtime.autotune.memory == config.autotune.memory,
        runtime.autotune.wasm == config.autotune.wasm,
{
    if let Some(mbps) = config.routing.max_egress_mbps {
        assert((mbps * 1_000_000) as u64 == mbps * 1_000_000);
        assert((mbps * 1_000_000) / 8 == mbps * 125_000);
    }
}

/// The routes of a translation are the originated prefixes: every prefix of
/// every origin, and nothing else.
pub proof fn lemma_translation_routes_every_origin(
    config: ProductConfigV2,
    invites: Seq<InviteV2>,
    runtime: V2RuntimeConfig,
    prefix: IpNet,
)
    requires
        translates(config, invites, runtime),
    ensures
        runtime.routes@.contains(prefix) <==> exists|i: int|
            0 <= i < config.route_origins@.len() && (
            #[trigger] config.route_origins@[i]).prefixes@.contains(prefix),
{
    lemma_originated_prefixes(config.route_origins@, prefix);
    assert(runtime.routes@.to_set().contains(prefix) == originated(
        config.route_origins@,
    ).to_set().contains(prefix));
}

proof fn lemma_originated_prefixes(origins: Seq<RouteOrigin>, prefix: IpNet)
    ensures
        originated(origins).contains(prefix) <==> exists|i: int|
            0 <= i < origins.len() && (#[trigger] origins[i]).prefixes@.contains(prefix),
    decreases origins.len(),
{
    if origins.len() > 0 {
        let before = origins.drop_last();
        let rest = originated(before);
        let last = origins.last().prefixes@;
        lemma_originated_prefixes(before, prefix);
        let all = rest + last;
        if exists|i: int| 0 <= i < before.len() && (#[trigger] before[i]).prefixes@.contains(prefix) {
            let i = choose|i: int|
                0 <= i < before.len() && (#[trigger] before[i]).prefixes@.contains(prefix);
            assert(origins[i].prefixes@.contains(prefix));
        }
        if exists|i: int|
            0 <= i < origins.len() && (#[trigger] origins[i]).prefixes@.contains(prefix) {
            let i = choose|i: int|
                0 <= i < origins.len() && (#[trigger] origins[i]).prefixes@.contains(prefix);
            if i < before.len() {
                assert(before[i].prefixes@.contains(prefix));
            }
        }
        if all.contains(prefix) {
            let i = choose|i: int| 0 <= i < all.len() && all[i] == prefix;
            if i < rest.len() {
                assert(rest[i] == prefix);
            } else {
                assert(last[i - rest.len()] == prefix);
                assert(origins[origins.len() - 1].prefixes@.contains(prefix));
            }
        }
        if rest.contains(prefix) {
            let i = choose|i: int| 0 <= i < rest.len() && rest[i] == prefix;
            assert(all[i] == prefix);
        }
        if last.contains(prefix) {
            let i = choose|i: int| 0 <= i < last.len() && last[i] == prefix;
            assert(all[rest.len() + i] == prefix);
        }
    }
}

} // verus!
