use ironet::identity::{EndpointId, EndpointIdErrorV2};
use ironet::net::{IpAddr, IpNet};
use ironet::routes::{autotune_state_dir, registry_path, RouteErrorV2, RouteOriginConfig, RouteRegistry};

fn id(byte: u8) -> EndpointId {
    let key = iroh_base::SecretKey::from_bytes(&[byte; 32]).public();
    EndpointId::from_bytes(key.as_bytes()).unwrap()
}

fn name(byte: u8) -> String {
    iroh_base::SecretKey::from_bytes(&[byte; 32]).public().to_string()
}

fn net(a: u8, b: u8, c: u8, d: u8, prefix_len: u8) -> IpNet {
    IpNet { addr: IpAddr::V4(u32::from_be_bytes([a, b, c, d])), prefix_len }
}

#[test]
fn endpoint_names_are_those_of_the_transport() {
    assert_eq!(id(1).to_text(), name(1));
    assert!(EndpointId::parse(&name(1)).unwrap().same(&id(1)));
    assert!(!id(1).same(&id(2)));
    assert_eq!(EndpointId::parse("nobody"), Err(EndpointIdErrorV2::InvalidText));
    let invalid = [2_u8; 32];
    assert_eq!(
        EndpointId::from_bytes(&invalid).is_ok(),
        iroh_base::PublicKey::from_bytes(&invalid).is_ok()
    );
}

#[test]
fn line_import_groups_owners_and_deduplicates_prefixes() {
    let first = name(1);
    let second = name(2);
    let registry = RouteRegistry::parse_lines(&format!(
        "# generated\n{first} 10.0.0.0/24 10.0.1.0/24\n{first} 10.0.0.0/24\n{second} 10.0.2.0/24\n"
    ))
    .unwrap();
    assert_eq!(registry.routes.len(), 2);
    assert_eq!(registry.prefix_count(), 3);
}

#[test]
fn selector_removes_a_prefix_or_an_owner() {
    let first = name(3);
    let second = name(4);
    let mut registry = RouteRegistry::parse_lines(&format!(
        "{first} 10.1.0.0/24 10.1.1.0/24\n{second} 10.2.0.0/24\n"
    ))
    .unwrap();
    assert_eq!(registry.remove("10.1.0.0/24").unwrap(), 1);
    assert_eq!(registry.remove(&second).unwrap(), 1);
    assert_eq!(registry.prefix_count(), 1);
    assert_eq!(registry.remove("10.1.0.0/24").unwrap(), 0);
    assert_eq!(registry.remove("everything"), Err(RouteErrorV2::InvalidSelector));
}

#[test]
fn route_sources_merge_operator_and_active_extension_routes() {
    let operator = RouteRegistry::parse_lines(&format!("{} 10.4.0.0/24\n", name(6))).unwrap();
    let active = vec![RouteOriginConfig {
        endpoint_id: id(7),
        prefixes: vec![net(10, 5, 0, 0, 24)],
    }];
    let routes = RouteRegistry::compose(operator, active).unwrap();
    assert_eq!(
        routes.flattened(),
        vec![
            (net(10, 4, 0, 0, 24), id(6)),
            (net(10, 5, 0, 0, 24), id(7)),
        ]
    );
}

#[test]
fn embedded_routes_stand_alone_or_are_merged() {
    let embedded = || {
        vec![RouteOriginConfig { endpoint_id: id(9), prefixes: vec![net(10, 9, 0, 0, 24)] }]
    };
    let alone = RouteRegistry::compose_with_embedded(RouteRegistry::default(), embedded()).unwrap();
    assert_eq!(alone.len(), 1);
    let dynamic =
        RouteRegistry::parse_lines(&format!("{} 10.4.0.0/24 10.9.0.0/24\n", name(9))).unwrap();
    let merged = RouteRegistry::compose_with_embedded(dynamic, embedded()).unwrap();
    assert_eq!(merged.len(), 1);
    assert_eq!(merged[0].prefixes, [net(10, 4, 0, 0, 24), net(10, 9, 0, 0, 24)]);
}

#[test]
fn every_route_fault_has_its_error() {
    let refused = |text: &str| RouteRegistry::parse_lines(text).unwrap_err();
    assert_eq!(
        refused(&format!("\nnobody 10.0.0.0/24\n")),
        RouteErrorV2::InvalidEndpoint { line: 2 }
    );
    assert_eq!(
        refused(&format!("{} 10.0.0.0/33\n", name(1))),
        RouteErrorV2::InvalidPrefix { line: 1 }
    );
    assert_eq!(
        refused(&format!("# c\n{} # none\n", name(1))),
        RouteErrorV2::MissingPrefix { line: 2 }
    );
    let mut old = RouteRegistry::default();
    old.version = 99;
    assert_eq!(old.normalize(), Err(RouteErrorV2::UnsupportedVersion { found: 99 }));
    let mut bare = RouteRegistry::default();
    bare.routes.push(RouteOriginConfig { endpoint_id: id(2), prefixes: Vec::new() });
    assert_eq!(bare.normalize(), Err(RouteErrorV2::NoPrefixes { owner: id(2) }));
}

#[test]
fn prefixes_are_read_and_ordered_by_their_text() {
    let registry = RouteRegistry::parse_lines(&format!(
        "{} 9.0.0.0/8 10.0.0.0/8 fd00::/8 0.0.0.0/0\n",
        name(1)
    ))
    .unwrap();
    let prefixes = &registry.routes[0].prefixes;
    assert_eq!(
        *prefixes,
        [
            net(0, 0, 0, 0, 0),
            net(10, 0, 0, 0, 8),
            net(9, 0, 0, 0, 8),
            IpNet { addr: IpAddr::V6(0xfd << 120), prefix_len: 8 },
        ]
    );
    let flat = registry.flattened();
    assert_eq!(flat.len(), 4);
    assert_eq!(flat[3].0, IpNet { addr: IpAddr::V6(0xfd << 120), prefix_len: 8 });
}

#[test]
fn merging_is_the_same_in_either_order() {
    let left = || {
        RouteRegistry::parse_lines(&format!("{} 10.0.0.0/24 10.0.1.0/24\n", name(1))).unwrap()
    };
    let right = || {
        RouteRegistry::parse_lines(&format!(
            "{} 10.0.1.0/24\n{} 10.0.2.0/24\n",
            name(1),
            name(2)
        ))
        .unwrap()
    };
    let mut one = left();
    one.merge(right()).unwrap();
    let mut other = right();
    other.merge(left()).unwrap();
    assert_eq!(one.flattened(), other.flattened());
    assert_eq!(one.prefix_count(), 3);
    let before = one.flattened();
    one.normalize().unwrap();
    assert_eq!(one.flattened(), before);
}

#[test]
fn registry_stands_beside_the_identity() {
    assert_eq!(registry_path("/var/lib/ironet/identity"), "/var/lib/ironet/routes.toml");
    assert_eq!(registry_path("identity"), "routes.toml");
    assert_eq!(autotune_state_dir("/var/lib/ironet/identity"), "/var/lib/ironet/autotune");
    assert_eq!(autotune_state_dir("/"), "./autotune");
}
