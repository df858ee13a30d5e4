use ironet::config::{
    AutotuneConfig, AutotuneMode, AutotuneObjective, PathMigrationConfig, V2PeerConfig,
    V2RuntimeConfig, WasmPolicyConfig,
};
use ironet::dataplane::route_sync::{RouteAdvertisementV2, RouteSyncStepV2, RouteSyncV2};
use ironet::host_network::kernel::{
    configure_mesh_tunnel, host_prefix_v2, CommandV2, KernelRoutePolicyV2, ProgramV2, RunModeV2,
};
use ironet::host_network::masquerade::{
    cleanup_v2_nat_all, holds_owned_chain, install_v2_nat_family, next_nat_slot, reconcile_v2_nat,
    NatObservationV2,
};
use ironet::identity::EndpointId;
use ironet::net::{IpAddr, IpNet, SocketAddr};

fn id(byte: u8) -> EndpointId {
    let key = iroh_base::SecretKey::from_bytes(&[byte; 32]).public();
    EndpointId::from_bytes(key.as_bytes()).unwrap()
}

fn v4(a: u8, b: u8, c: u8, d: u8) -> IpAddr {
    IpAddr::V4(u32::from_be_bytes([a, b, c, d]))
}

fn net(a: u8, b: u8, c: u8, d: u8, prefix_len: u8) -> IpNet {
    IpNet { addr: v4(a, b, c, d), prefix_len }
}

fn config(isolate_overlay: bool) -> V2RuntimeConfig {
    V2RuntimeConfig {
        identity_file: "/var/lib/ironet/identity".to_owned(),
        bind: SocketAddr::new(IpAddr::V6(0), 4000),
        excluded_underlay_prefixes: Vec::new(),
        mesh_peers: vec![V2PeerConfig {
            endpoint_id: id(2),
            addresses: vec![SocketAddr::new(v4(192, 0, 2, 9), 4000)],
            derp_public_key: None,
        }],
        derp_servers: Vec::new(),
        derp_identity_file: None,
        network_id: "example-network".to_owned(),
        cover_sni_pool: vec!["media.example".to_owned()],
        cover_profile_id: 1,
        tun_name: "ironet0".to_owned(),
        tun_mtu: 1_280,
        isolate_overlay,
        routing_table: 21_000,
        routing_rule_priority: 9_000,
        node_addresses: Vec::new(),
        routes: vec![net(10, 1, 0, 0, 16)],
        advertised_routes: Vec::new(),
        allow_default_routes: false,
        subnet_nat: false,
        transit_enabled: true,
        autotune: AutotuneConfig {
            mode: AutotuneMode::Shadow,
            objective: AutotuneObjective::Balanced,
            policy: "builtin".to_owned(),
            memory: true,
            shadow_policy: Some("/var/lib/ironet/shadow.wasm".to_owned()),
            wasm: WasmPolicyConfig {
                maximum_state_bytes: 65_536,
                state_flush_interval_secs: 30,
            },
        },
        path_migration: PathMigrationConfig {
            keep_alive_ms: 1_000,
            idle_timeout_ms: 30_000,
            recovery_probation_ms: 5_000,
        },
        max_egress_bytes_per_second: None,
    }
}

fn local_v6() -> IpAddr {
    IpAddr::V6((0x21 << 112) | 1)
}

fn policy(isolate: bool) -> KernelRoutePolicyV2 {
    KernelRoutePolicyV2::from_config(&config(isolate), v4(21, 0, 0, 1), local_v6())
}

fn spelled(command: &CommandV2) -> String {
    let program = match command.program {
        ProgramV2::Ip => "ip",
        ProgramV2::Tc => "tc",
        ProgramV2::Sysctl => "sysctl",
        ProgramV2::Iptables => "iptables",
        ProgramV2::Ip6tables => "ip6tables",
    };
    format!("{program} {}", command.arguments.join(" "))
}

fn all_spelled(commands: &[CommandV2]) -> Vec<String> {
    commands.iter().map(spelled).collect()
}

#[test]
fn policy_routing_commands_are_exact() {
    let policy = policy(true);
    let install = policy.install_policy();
    assert_eq!(
        all_spelled(&install),
        [
            "ip -4 rule del priority 9000 lookup 21000",
            "ip -4 rule add priority 9000 lookup 21000 protocol static",
            "ip -6 rule del priority 9000 lookup 21000",
            "ip -6 rule add priority 9000 lookup 21000 protocol static",
            "ip -4 rule del priority 8999 to 192.0.2.9/32 lookup main",
            "ip -4 rule add priority 8999 to 192.0.2.9/32 lookup main protocol static",
        ]
    );
    assert_eq!(install[0].mode, RunModeV2::UntilFailure { limit: Some(32) });
    assert_eq!(install[1].mode, RunModeV2::MustSucceed);
    let replace = policy.replace_route(net(10, 1, 0, 0, 16));
    assert!(spelled(&replace).starts_with("ip -4 route replace table 21000 10.1.0.0/16 dev ironet0"));
    assert!(spelled(&replace).ends_with("src 21.0.0.1"));
    let delete = policy.delete_route(IpNet { addr: local_v6(), prefix_len: 128 });
    assert!(spelled(&delete).starts_with("ip -6 route del table 21000 21::1/128"));
    assert_eq!(delete.mode, RunModeV2::MayFail);
    assert_eq!(host_prefix_v2(local_v6()), "21::1/128");
    let shared = KernelRoutePolicyV2::from_config(&config(false), v4(21, 0, 0, 1), local_v6());
    assert_eq!(shared.table, 254);
    assert!(shared.install_policy().is_empty());
}

#[test]
fn tunnel_setup_clears_old_state_before_it_adds_routes() {
    let commands = configure_mesh_tunnel(
        &policy(true),
        v4(21, 0, 0, 1),
        local_v6(),
        &config(true).routes,
    );
    let spelled = all_spelled(&commands);
    let place = |text: &str| {
        spelled
            .iter()
            .position(|command| command.contains(text))
            .unwrap()
    };
    assert!(place("route flush table 21000") < place("link set dev ironet0 up"));
    assert!(place("link set dev ironet0 up") < place("qdisc replace dev ironet0 root fq_codel"));
    assert!(place("21.0.0.1/32 dev ironet0") < place("rule add priority 9000"));
    assert!(place("rule add priority 9000") < place("route replace table 21000 10.1.0.0/16"));
    assert!(spelled
        .iter()
        .any(|command| command.contains("memory_limit 1048576 ecn")));
}

fn seen(available: bool, owned: bool, active_slot: Option<usize>) -> NatObservationV2 {
    NatObservationV2 { available, owned, active_slot }
}

#[test]
fn missing_firewall_programs_leave_nothing_to_clean() {
    let none = seen(false, false, None);
    assert!(cleanup_v2_nat_all(false, false).is_empty());
    assert!(reconcile_v2_nat("ironet0", &Vec::new(), false, none, none).is_empty());
    let routed = reconcile_v2_nat("ironet0", &vec![net(10, 0, 0, 0, 8)], false, none, none);
    assert_eq!(all_spelled(&routed), ["sysctl -q -w net.ipv4.ip_forward=1"]);
    assert!(!cleanup_v2_nat_all(true, false).is_empty());
}

#[test]
fn next_translation_generation_replaces_the_active_one() {
    assert_eq!(next_nat_slot(None), 0);
    assert_eq!(next_nat_slot(Some(0)), 1);
    assert_eq!(next_nat_slot(Some(1)), 0);
    let prefixes = vec![net(10, 0, 0, 0, 8)];
    assert!(install_v2_nat_family(false, "ironet0", &Vec::new(), Some(0)).is_err());
    let commands =
        all_spelled(&install_v2_nat_family(false, "ironet0", &prefixes, Some(0)).unwrap());
    let place = |text: &str| commands.iter().position(|command| command.contains(text)).unwrap();
    let hooked = place("-t mangle -I PREROUTING 1 -j IRONET_V2_NAT_IN_B");
    assert!(place("-t nat -I POSTROUTING 1 -j IRONET_V2_NAT_OUT_B") < hooked);
    assert!(place("-A IRONET_V2_NAT_OUT_B") < hooked);
    assert!(commands
        .iter()
        .enumerate()
        .filter(|(_, command)| command.contains("IRONET_V2_NAT_IN_A"))
        .all(|(index, _)| index > hooked));
    assert!(commands.iter().any(|command| command.contains("-d 10.0.0.0/8 -j MASQUERADE")));
    let off = reconcile_v2_nat(
        "ironet0",
        &Vec::new(),
        true,
        seen(true, true, Some(0)),
        seen(true, false, None),
    );
    assert!(all_spelled(&off).iter().all(|command| command.starts_with("iptables ")));
}

#[test]
fn owned_chains_are_recognized_in_rules() {
    assert!(holds_owned_chain("-P PREROUTING ACCEPT\n-N IRONET_V2_NAT_OUT_B\n"));
    assert!(!holds_owned_chain("-P PREROUTING ACCEPT\n-N DOCKER\n"));
    assert!(!holds_owned_chain(""));
}

#[test]
fn advertised_routes_are_installed_by_generation() {
    let policy = policy(true);
    let mut sync = RouteSyncV2::new(vec![net(10, 1, 0, 0, 16)]);
    let advertise = |generation: u64, prefixes: Vec<IpNet>| RouteAdvertisementV2 {
        generation,
        prefixes,
    };
    let step = sync.advertise(
        &policy,
        advertise(2, vec![net(10, 1, 0, 0, 16), net(10, 2, 0, 0, 16)]),
    );
    match step {
        RouteSyncStepV2::Apply { commands } => {
            assert_eq!(commands.len(), 1);
            assert!(spelled(&commands[0]).contains("route replace table 21000 10.2.0.0/16"));
        }
        other => panic!("{other:?}"),
    }
    assert_eq!(sync.published(), [net(10, 1, 0, 0, 16), net(10, 2, 0, 0, 16)]);
    assert!(matches!(
        sync.advertise(&policy, advertise(1, Vec::new())),
        RouteSyncStepV2::Stale
    ));
    assert!(matches!(
        sync.advertise(&policy, advertise(2, vec![net(10, 2, 0, 0, 16)])),
        RouteSyncStepV2::Replay
    ));
    assert!(matches!(
        sync.advertise(&policy, advertise(2, vec![net(10, 3, 0, 0, 16)])),
        RouteSyncStepV2::Conflict
    ));
    match sync.advertise(&policy, advertise(3, vec![net(10, 3, 0, 0, 16)])) {
        RouteSyncStepV2::Apply { commands } => {
            let spelled = all_spelled(&commands);
            assert!(spelled.iter().any(|command| command.contains("del table 21000 10.2.0.0/16")));
            assert!(spelled
                .iter()
                .any(|command| command.contains("replace table 21000 10.3.0.0/16")));
        }
        other => panic!("{other:?}"),
    }
}
