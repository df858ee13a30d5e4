use ironet::autotune::reload::{policy_store, shadow_selection, state_cap_bytes, PolicyStoreV1};
use ironet::config::{
    validate_cover_sni, AutotuneConfig, AutotuneMode, AutotuneObjective, ConfigErrorV2,
    DerpPublicKey, DerpServer, PathMigrationConfig, V2PeerConfig, V2RuntimeConfig, WasmPolicyConfig,
};
use ironet::connection::{
    dial_plan, draw_cover_name, endpoint_bind_addresses, first_retry_delay, incoming_connection,
    mesh_should_dial, next_retry_delay, select_cover_sni, select_cover_sni_for_peer,
    select_cover_sni_with_preference, session_policy, IncomingV2, PeerSessionV2, PeerSessionsV2,
};
use ironet::host_network::{
    derived_overlay_address, derived_overlay_ipv4_address, local_overlay_addresses,
    TUN_FQ_CODEL_MEMORY_BYTES,
};
use ironet::identity::EndpointId;
use ironet::net::{IpAddr, IpNet, SocketAddr};
use ironet::peers::merge_peers;
use ironet::product::{
    invite_revoked, CoverConfig, InviteV2, LinkConfig, PeerConfig, ProductConfigV2, RoutingConfig,
};
use ironet::routing::AdjacencyIdV2;
use ironet::time::Duration;

fn id(byte: u8) -> EndpointId {
    let key = iroh_base::SecretKey::from_bytes(&[byte; 32]).public();
    EndpointId::from_bytes(key.as_bytes()).unwrap()
}

fn v4(a: u8, b: u8, c: u8, d: u8) -> IpAddr {
    IpAddr::V4(u32::from_be_bytes([a, b, c, d]))
}

fn host(addr: IpAddr) -> IpNet {
    IpNet { addr, prefix_len: if addr.is_ipv6() { 128 } else { 32 } }
}

fn product_config() -> ProductConfigV2 {
    ProductConfigV2 {
        identity_file: "/var/lib/ironet/identity".to_owned(),
        bind_addresses: vec![SocketAddr::new(IpAddr::V6(0), 4000)],
        excluded_underlay_prefixes: vec![IpNet { addr: v4(10, 99, 0, 0), prefix_len: 16 }],
        peers: Vec::new(),
        links: Vec::new(),
        route_origins: Vec::new(),
        derp_servers: Vec::new(),
        derp_enabled: false,
        derp_identity_file: "/var/lib/ironet/derp".to_owned(),
        network_id: "example-network".to_owned(),
        cover: CoverConfig { sni_pool: vec!["media.example".to_owned()], profile_id: 1 },
        node_interface: "ironet0".to_owned(),
        tun_mtu: 1_280,
        routing: RoutingConfig {
            isolate_overlay: true,
            table: 21_000,
            rule_priority: 21_000,
            allow_default_routes: false,
            nat_enabled: false,
            transit_enabled: true,
            max_egress_mbps: None,
        },
        node_addresses: vec![host(v4(21, 0, 0, 1)), host(IpAddr::V6((0x21 << 112) | 1))],
        advertised_prefixes: vec![IpNet { addr: v4(10, 8, 0, 0), prefix_len: 16 }],
        autotune: AutotuneConfig {
            mode: AutotuneMode::Shadow,
            objective: AutotuneObjective::Balanced,
            policy: "builtin".to_owned(),
            memory: true,
            shadow_policy: Some("/var/lib/ironet/shadow.wasm".to_owned()),
            wasm: WasmPolicyConfig {
                maximum_state_bytes: 65_536,
                state_flush_interval_secs: 30,
            },
        },
        path_migration: PathMigrationConfig {
            keep_alive_ms: 1_000,
            idle_timeout_ms: 30_000,
            recovery_probation_ms: 5_000,
        },
    }
}

fn runtime_config() -> V2RuntimeConfig {
    V2RuntimeConfig::from_product_config(&product_config(), &Vec::new()).unwrap()
}

fn peer(byte: u8) -> PeerConfig {
    PeerConfig {
        name: format!("peer-{byte}"),
        endpoint_id: id(byte),
        direct_addresses: vec![SocketAddr::new(v4(192, 0, 2, byte), 4000)],
        derp_public_key: None,
    }
}

fn refused(config: &ProductConfigV2) -> ConfigErrorV2 {
    V2RuntimeConfig::from_product_config(config, &Vec::new()).unwrap_err()
}

#[test]
fn product_configuration_has_one_strict_v2_runtime_translation() {
    let mut config = product_config();
    config.routing.max_egress_mbps = Some(80);
    config.autotune.mode = AutotuneMode::On;
    let runtime = V2RuntimeConfig::from_product_config(&config, &Vec::new()).unwrap();
    assert_eq!(runtime.bind, SocketAddr::new(IpAddr::V6(0), 4000));
    assert_eq!(runtime.tun_name, config.node_interface);
    assert_eq!(runtime.isolate_overlay, config.routing.isolate_overlay);
    assert_eq!(runtime.routing_table, config.routing.table);
    assert_eq!(runtime.routing_rule_priority, config.routing.rule_priority);
    assert_eq!(runtime.node_addresses, config.node_addresses);
    assert_eq!(runtime.advertised_routes, config.advertised_prefixes);
    assert_eq!(
        runtime.excluded_underlay_prefixes,
        config.excluded_underlay_prefixes
    );
    let path_exclusions = runtime.underlay_path_exclusions();
    assert!(config
        .node_addresses
        .iter()
        .chain(&config.advertised_prefixes)
        .all(|prefix| path_exclusions.contains(prefix)));
    assert_eq!(runtime.cover_sni_pool, ["media.example"]);
    assert!(runtime.mesh_peers.is_empty());
    assert_eq!(runtime.autotune.mode, AutotuneMode::On);
    assert_eq!(runtime.path_migration, config.path_migration);
    assert_eq!(runtime.max_egress_bytes_per_second, Some(10_000_000));
}

#[test]
fn missing_bind_address_means_the_default_port_on_both_families() {
    let mut config = product_config();
    config.bind_addresses = Vec::new();
    let runtime = V2RuntimeConfig::from_product_config(&config, &Vec::new()).unwrap();
    assert_eq!(runtime.bind, SocketAddr::new(IpAddr::V6(0), 4000));
}

#[test]
fn runtime_session_policy_advertises_the_cell_codec_ceiling() {
    let runtime = runtime_config();
    let policy = session_policy(&runtime, id(1), id(2));

    assert_eq!(policy.limits.max_datagram_size, u16::MAX);
    assert_eq!(policy.limits.max_train_size, 64 * 1024);
    assert_eq!(policy.limits.max_control_size, 1024 * 1024);
    assert_eq!(policy.limits.max_cells_per_train, 256);
    assert_eq!(policy.network_id, "example-network");
}

#[test]
fn unspecified_product_bind_expands_to_a_dual_stack_socket_pair() {
    assert_eq!(
        endpoint_bind_addresses(SocketAddr::new(IpAddr::V6(0), 4000)),
        [
            SocketAddr::new(v4(0, 0, 0, 0), 4000),
            SocketAddr::new(IpAddr::V6(0), 4000),
        ]
    );
    assert_eq!(
        endpoint_bind_addresses(SocketAddr::new(v4(0, 0, 0, 0), 4001)),
        [
            SocketAddr::new(v4(0, 0, 0, 0), 4001),
            SocketAddr::new(IpAddr::V6(0), 4001),
        ]
    );
    assert_eq!(
        endpoint_bind_addresses(SocketAddr::new(v4(192, 0, 2, 7), 4002)),
        [SocketAddr::new(v4(192, 0, 2, 7), 4002)]
    );
}

#[test]
fn product_translation_rejects_multiple_bind_addresses() {
    let mut config = product_config();
    config.bind_addresses = vec![
        SocketAddr::new(v4(0, 0, 0, 0), 4000),
        SocketAddr::new(IpAddr::V6(0), 4000),
    ];
    assert_eq!(refused(&config), ConfigErrorV2::BindAddresses { found: 2 });
}

#[test]
fn product_translation_accepts_invited_accept_only_peer() {
    let mut config = product_config();
    config.peers.push(PeerConfig {
        name: "invited-peer".into(),
        endpoint_id: id(9),
        direct_addresses: Vec::new(),
        derp_public_key: None,
    });
    let runtime = V2RuntimeConfig::from_product_config(&config, &Vec::new()).unwrap();
    assert_eq!(runtime.mesh_peers.len(), 1);
    assert!(!runtime.mesh_peers[0].is_dialable());
}

#[test]
fn live_media_sni_pool_selection_is_stable_symmetric_and_order_independent() {
    let one = id(1);
    let two = id(2);
    let pool = vec![
        "video-c.example".to_owned(),
        "video-a.example".to_owned(),
        "video-b.example".to_owned(),
    ];
    let selected = select_cover_sni(&pool, "network-a", &one, &two, 7).unwrap();
    assert!(pool.iter().any(|candidate| *candidate == selected));
    assert_eq!(
        selected,
        select_cover_sni(&pool, "network-a", &two, &one, 7).unwrap()
    );
    let mut reversed = pool.clone();
    reversed.reverse();
    assert_eq!(
        selected,
        select_cover_sni(&reversed, "network-a", &one, &two, 7).unwrap()
    );
    assert!(validate_cover_sni("live-edge.example").is_ok());
    assert!(validate_cover_sni("-invalid.example").is_err());
    assert!(validate_cover_sni("invalid..example").is_err());
}

#[test]
fn live_media_sni_prefers_names_matching_peer_direct_addresses() {
    let one = id(1);
    let two = id(2);
    let pool = vec![
        "video-c.example".to_owned(),
        "video-a.example".to_owned(),
        "video-b.example".to_owned(),
    ];
    let preferred = vec!["video-a.example".to_owned(), "video-b.example".to_owned()];
    let selected =
        select_cover_sni_with_preference(&pool, &preferred, "network-a", &one, &two, 7).unwrap();
    assert!(preferred.contains(&selected));
    assert_eq!(
        selected,
        select_cover_sni_with_preference(&pool, &preferred, "network-a", &two, &one, 7).unwrap()
    );

    let unmatched = vec!["not-in-pool.example".to_owned()];
    assert_eq!(
        select_cover_sni_with_preference(&pool, &unmatched, "network-a", &one, &two, 7).unwrap(),
        select_cover_sni(&pool, "network-a", &one, &two, 7).unwrap()
    );
}

#[test]
fn live_media_sni_dns_ranking_is_bounded_and_uses_direct_ip() {
    let pool = vec!["not-a-real-name.invalid".to_owned(), "localhost".to_owned()];
    let lookups = vec![None, Some(vec![v4(127, 0, 0, 1)])];
    let selected = select_cover_sni_for_peer(
        &pool,
        &lookups,
        "network-a",
        &id(1),
        &id(2),
        7,
        &vec![SocketAddr::new(v4(127, 0, 0, 1), 443)],
    )
    .unwrap();
    assert_eq!(selected, "localhost");
}

#[test]
fn cover_draws_are_exact_and_an_empty_pool_is_refused() {
    let pool = vec!["b.example".to_owned(), "a.example".to_owned()];
    let none: Vec<String> = Vec::new();
    assert_eq!(draw_cover_name(&pool, &none, 0).unwrap(), "a.example");
    assert_eq!(draw_cover_name(&pool, &none, 3).unwrap(), "b.example");
    assert_eq!(
        draw_cover_name(&pool, &vec!["b.example".to_owned()], 0).unwrap(),
        "b.example"
    );
    assert_eq!(draw_cover_name(&none, &none, 0), Err(ConfigErrorV2::EmptyCoverPool));
    // The digest of a network name decides, so another network may differ.
    let wide: Vec<String> = (0..64).map(|index| format!("v{index}.example")).collect();
    let draws: Vec<String> = (0..8)
        .map(|network| {
            select_cover_sni(&wide, &format!("network-{network}"), &id(1), &id(2), 7).unwrap()
        })
        .collect();
    assert!(draws.iter().any(|draw| *draw != draws[0]));
}

#[test]
fn every_configuration_fault_has_its_error() {
    let change = |edit: &dyn Fn(&mut ProductConfigV2)| {
        let mut config = product_config();
        edit(&mut config);
        refused(&config)
    };
    assert_eq!(
        change(&|config| config.path_migration.keep_alive_ms = 0),
        ConfigErrorV2::PathMigration
    );
    assert_eq!(
        change(&|config| config.network_id = String::new()),
        ConfigErrorV2::EmptyNetworkId
    );
    assert_eq!(
        change(&|config| config.network_id = "n".repeat(129)),
        ConfigErrorV2::LongNetworkId
    );
    assert_eq!(
        change(&|config| config.cover.profile_id = 0),
        ConfigErrorV2::ZeroCoverProfile
    );
    assert_eq!(
        change(&|config| config.cover.sni_pool.clear()),
        ConfigErrorV2::EmptyCoverPool
    );
    assert_eq!(
        change(&|config| config.cover.sni_pool.push("-bad.example".to_owned())),
        ConfigErrorV2::InvalidCoverName
    );
    assert_eq!(
        change(&|config| config.cover.sni_pool.push("media.example".to_owned())),
        ConfigErrorV2::DuplicateCoverName
    );
    assert_eq!(
        change(&|config| config.node_interface = String::new()),
        ConfigErrorV2::EmptyTunName
    );
    assert_eq!(
        change(&|config| config.routing.rule_priority = 0),
        ConfigErrorV2::RulePriority
    );
    assert_eq!(
        change(&|config| config.routing.table = 254),
        ConfigErrorV2::RoutingTable
    );
    assert_eq!(
        change(&|config| config.node_addresses[0].prefix_len = 24),
        ConfigErrorV2::NodeAddressNotHost
    );
    assert_eq!(
        change(&|config| config.node_addresses.push(host(v4(21, 0, 0, 2)))),
        ConfigErrorV2::NodeAddressFamilyTwice
    );
    assert_eq!(
        change(&|config| {
            config.peers.push(peer(3));
            config.peers[0].direct_addresses[0].port = 0;
        }),
        ConfigErrorV2::PeerPortZero
    );
    assert_eq!(
        change(&|config| {
            config.peers.push(peer(3));
            config.peers[0].direct_addresses[0].ip = v4(10, 99, 1, 1);
        }),
        ConfigErrorV2::PeerAddressExcluded
    );
    assert_eq!(
        change(&|config| {
            config.derp_enabled = true;
            config.derp_servers =
                vec![DerpServer { region_id: 7 }, DerpServer { region_id: 7 }];
        }),
        ConfigErrorV2::DuplicateDerpRegion
    );
    assert_eq!(
        change(&|config| {
            config.derp_enabled = true;
            config.derp_servers = vec![DerpServer { region_id: 7 }];
            for byte in [3, 4] {
                let mut member = peer(byte);
                member.derp_public_key = Some(DerpPublicKey { bytes: [9; 32] });
                config.peers.push(member);
            }
        }),
        ConfigErrorV2::DuplicateDerpPeer
    );
    assert_eq!(
        change(&|config| {
            config.peers.push(peer(3));
            config.links.push(LinkConfig {
                name: "office".to_owned(),
                peer_id: id(3),
                exclusive: false,
                fallback: false,
                remote_addresses: Vec::new(),
            })
        }),
        ConfigErrorV2::LinkNotExclusive { link: 0 }
    );
}

#[test]
fn revoked_peers_are_left_out_and_reinvited_ones_are_not() {
    let mut config = product_config();
    config.peers = vec![peer(3), peer(4)];
    let revoked = InviteV2 { endpoint: id(3), revoked: true };
    let invites = vec![revoked];
    assert!(invite_revoked(&invites, &id(3)));
    assert!(!invite_revoked(&invites, &id(4)));
    let runtime = V2RuntimeConfig::from_product_config(&config, &invites).unwrap();
    assert_eq!(runtime.mesh_peers.len(), 1);
    assert_eq!(runtime.mesh_peers[0].endpoint_id, id(4));
    let again = vec![
        InviteV2 { endpoint: id(3), revoked: true },
        InviteV2 { endpoint: id(3), revoked: false },
    ];
    let runtime = V2RuntimeConfig::from_product_config(&config, &again).unwrap();
    assert_eq!(runtime.mesh_peers.len(), 2);
}

fn entry(byte: u8, addresses: &[SocketAddr], derp: Option<u8>) -> V2PeerConfig {
    V2PeerConfig {
        endpoint_id: id(byte),
        addresses: addresses.to_vec(),
        derp_public_key: derp.map(|byte| DerpPublicKey { bytes: [byte; 32] }),
    }
}

#[test]
fn repeating_a_peer_merges_its_locators() {
    let a = SocketAddr::new(v4(192, 0, 2, 1), 4000);
    let b = SocketAddr::new(v4(192, 0, 2, 2), 4000);
    let c = SocketAddr::new(v4(192, 0, 2, 3), 4000);
    let peers = vec![
        entry(3, &[b], None),
        entry(4, &[], Some(8)),
        entry(3, &[c, b, a], Some(9)),
        entry(4, &[], Some(7)),
    ];
    let merged = merge_peers(&peers);
    assert_eq!(merged.len(), 2);
    assert_eq!(merged[0].endpoint_id, id(3));
    assert_eq!(merged[0].addresses, [a, b, c]);
    assert_eq!(merged[0].derp_public_key, Some(DerpPublicKey { bytes: [9; 32] }));
    assert_eq!(merged[1].endpoint_id, id(4));
    assert!(merged[1].addresses.is_empty());
    assert_eq!(merged[1].derp_public_key, Some(DerpPublicKey { bytes: [8; 32] }));
    let again = merge_peers(&merged);
    assert_eq!(again.len(), 2);
    assert_eq!(again[0].addresses, [a, b, c]);
    assert!(merge_peers(&Vec::new()).is_empty());
}

#[test]
fn a_repeated_peer_is_valid_and_dialed_once() {
    let mut config = product_config();
    config.peers.push(peer(3));
    config.peers.push(peer(4));
    config.peers.push(peer(3));
    config.peers[2].direct_addresses = vec![SocketAddr::new(v4(192, 0, 2, 200), 4001)];
    let mut runtime = V2RuntimeConfig::from_product_config(&config, &Vec::new()).unwrap();
    assert_eq!(runtime.mesh_peers.len(), 2);
    assert_eq!(
        runtime.mesh_peers[0].addresses,
        [
            SocketAddr::new(v4(192, 0, 2, 3), 4000),
            SocketAddr::new(v4(192, 0, 2, 200), 4001),
        ]
    );
    let other = SocketAddr::new(v4(192, 0, 2, 201), 4002);
    runtime.mesh_peers.push(entry(3, &[other], None));
    assert_eq!(runtime.validate(), Ok(()));
    let plan = dial_plan(&runtime.mesh_peers, &id(5));
    assert_eq!(plan.iter().map(|dial| dial.peer).collect::<Vec<_>>(), [0, 1]);
    runtime.mesh_peers.push(entry(4, &[SocketAddr::new(v4(192, 0, 2, 202), 0)], None));
    assert_eq!(runtime.validate(), Err(ConfigErrorV2::PeerPortZero));
}

#[test]
fn one_locator_of_a_repeated_peer_is_enough_to_dial() {
    let address = SocketAddr::new(v4(192, 0, 2, 1), 4000);
    let peers = vec![entry(3, &[], None), entry(3, &[address], None)];
    let owner = if mesh_should_dial(&id(1), &id(3)) { 1 } else { 3 };
    let plan = dial_plan(&peers, &id(1));
    assert_eq!(plan.len(), 1);
    assert_eq!(plan[0].peer, 0);
    assert_eq!(plan[0].delay.is_none(), owner == 1);
    assert_eq!(
        incoming_connection(&peers, &id(1), &id(3)) == IncomingV2::Unexpected,
        owner == 1
    );
}

#[test]
fn addresses_that_differ_in_scope_are_two_locators() {
    let base = SocketAddr::new(IpAddr::V6((0xfe80 << 112) | 1), 4000);
    let scoped = SocketAddr { scope_id: 3, ..base };
    let labelled = SocketAddr { flowinfo: 1, ..base };
    let merged = merge_peers(&vec![
        entry(3, &[labelled, scoped], None),
        entry(3, &[base, scoped], None),
    ]);
    assert_eq!(merged[0].addresses, [base, scoped, labelled]);
}

#[test]
fn tuner_settings_reach_the_runtime() {
    let mut config = product_config();
    let runtime = V2RuntimeConfig::from_product_config(&config, &Vec::new()).unwrap();
    assert_eq!(runtime.autotune.policy, "builtin");
    assert_eq!(
        runtime.autotune.shadow_policy.as_deref(),
        Some("/var/lib/ironet/shadow.wasm")
    );
    assert_eq!(runtime.autotune.wasm, config.autotune.wasm);
    assert_eq!(shadow_selection(&runtime.autotune), Some("/var/lib/ironet/shadow.wasm"));
    assert_eq!(state_cap_bytes(&runtime.autotune), 65_536);
    assert_eq!(
        policy_store(&runtime.autotune),
        Some(PolicyStoreV1 {
            flush_interval: Duration::from_secs(30),
            maximum_state_bytes: 65_536,
        })
    );
    config.autotune.memory = false;
    config.autotune.shadow_policy = Some("shadow.wasm".to_owned());
    config.autotune.wasm.maximum_state_bytes = u64::MAX;
    let runtime = V2RuntimeConfig::from_product_config(&config, &Vec::new()).unwrap();
    assert_eq!(shadow_selection(&runtime.autotune), None);
    assert_eq!(state_cap_bytes(&runtime.autotune), u32::MAX);
    assert_eq!(policy_store(&runtime.autotune), None);
    config.autotune.shadow_policy = None;
    let runtime = V2RuntimeConfig::from_product_config(&config, &Vec::new()).unwrap();
    assert!(runtime.autotune.shadow_policy.is_none());
    assert_eq!(shadow_selection(&runtime.autotune), None);
}

#[test]
fn one_side_of_every_pair_dials() {
    assert_ne!(mesh_should_dial(&id(1), &id(2)), mesh_should_dial(&id(2), &id(1)));
    assert!(!mesh_should_dial(&id(1), &id(1)));
    let members: Vec<V2PeerConfig> = [1, 2, 3]
        .into_iter()
        .map(|byte| V2PeerConfig {
            endpoint_id: id(byte),
            addresses: vec![SocketAddr::new(v4(192, 0, 2, byte), 4000)],
            derp_public_key: None,
        })
        .collect();
    for local in [4, 5, 6] {
        let plan = dial_plan(&members, &id(local));
        assert_eq!(plan.len(), 3);
        let dialed = plan.iter().filter(|dial| dial.delay.is_none()).count();
        assert!(plan
            .iter()
            .all(|dial| dial.delay.is_none() || dial.delay == Some(Duration::from_millis(750))));
        let accepted = members
            .iter()
            .filter(|member| {
                incoming_connection(&members, &id(local), &member.endpoint_id)
                    == IncomingV2::Negotiate
            })
            .count();
        assert_eq!(dialed + accepted, 3);
    }
    assert_eq!(
        incoming_connection(&members, &id(4), &id(9)),
        IncomingV2::Unexpected
    );
}

#[test]
fn retries_back_off_to_three_seconds() {
    let mut delay = first_retry_delay();
    let mut delays = vec![delay];
    for _ in 0..5 {
        delay = next_retry_delay(delay);
        delays.push(delay);
    }
    let millis: Vec<u128> = delays.iter().map(|delay| delay.as_micros() / 1_000).collect();
    assert_eq!(millis, [200, 400, 800, 1_600, 3_000, 3_000]);
    assert_eq!(next_retry_delay(Duration::from_secs(9)), Duration::from_secs(3));
}

#[test]
fn sessions_are_kept_once_per_peer_and_sorted() {
    let session = |byte: u8, number: u32| PeerSessionV2 {
        id: AdjacencyIdV2::new(number).unwrap(),
        remote_id: id(byte),
        connection: u64::from(number),
    };
    let mut sessions = PeerSessionsV2::new();
    assert!(sessions.insert(session(1, 3)).is_none());
    assert!(sessions.insert(session(2, 1)).is_none());
    let replaced = sessions.insert(session(1, 2)).unwrap();
    assert_eq!(replaced.connection, 3);
    let peers = |bytes: &[u8]| -> Vec<V2PeerConfig> {
        bytes
            .iter()
            .map(|byte| V2PeerConfig {
                endpoint_id: id(*byte),
                addresses: Vec::new(),
                derp_public_key: None,
            })
            .collect()
    };
    assert!(sessions.is_complete(&peers(&[1, 2])));
    assert!(sessions.is_complete(&peers(&[1, 2, 1])));
    assert!(!sessions.is_complete(&peers(&[1, 2, 3])));
    assert_eq!(sessions.into_sorted().len(), 2);
}

#[test]
fn tun_fq_codel_memory_tracks_the_bounded_userspace_merge_window() {
    assert_eq!(ironet::dataplane::TUN_REGULAR_INPUT_BYTES, 512 * 1024);
    assert_eq!(TUN_FQ_CODEL_MEMORY_BYTES, 1024 * 1024);
    assert_eq!(
        TUN_FQ_CODEL_MEMORY_BYTES,
        ironet::dataplane::TUN_REGULAR_INPUT_BYTES * 2
    );
}

#[test]
fn derived_addresses_are_stable_network_and_endpoint_scoped() {
    let one = id(1);
    let two = id(2);
    let first = derived_overlay_address("network-a", &one);
    assert_eq!(first, derived_overlay_address("network-a", &one));
    assert_ne!(first, derived_overlay_address("network-a", &two));
    assert_ne!(first, derived_overlay_address("network-b", &one));
    match first {
        IpAddr::V6(bits) => assert_eq!(bits.to_be_bytes()[0], 0xfd),
        IpAddr::V4(_) => panic!("not an IPv6 address"),
    }

    let first_v4 = derived_overlay_ipv4_address("network-a", &one);
    assert_eq!(first_v4, derived_overlay_ipv4_address("network-a", &one));
    assert_ne!(first_v4, derived_overlay_ipv4_address("network-a", &two));
    assert_ne!(first_v4, derived_overlay_ipv4_address("network-b", &one));
    let shared = IpNet { addr: v4(100, 64, 0, 0), prefix_len: 10 };
    assert!(shared.contains(&first_v4));
}

#[test]
fn product_node_addresses_override_lab_derivation() {
    let runtime = runtime_config();
    let endpoint = id(3);
    let (ipv4, ipv6) = local_overlay_addresses(&runtime, &endpoint);
    assert_eq!(ipv4, v4(21, 0, 0, 1));
    assert_eq!(ipv6, IpAddr::V6((0x21 << 112) | 1));
    let mut derived = product_config();
    derived.node_addresses.clear();
    let derived = V2RuntimeConfig::from_product_config(&derived, &Vec::new()).unwrap();
    assert_eq!(
        local_overlay_addresses(&derived, &endpoint),
        (
            derived_overlay_ipv4_address("example-network", &endpoint),
            derived_overlay_address("example-network", &endpoint),
        )
    );
}
