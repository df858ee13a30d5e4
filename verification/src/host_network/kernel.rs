//! The commands that route overlay traffic into the TUN interface.

use vstd::prelude::*;

use super::{MAIN_TABLE, RULE_REMOVAL_LIMIT, TUN_FQ_CODEL_MEMORY_BYTES, TUN_FQ_CODEL_PACKET_LIMIT};
use crate::config::{all_wf, V2PeerConfig, V2RuntimeConfig};
use crate::net::{IpAddr, IpNet, SocketAddr};
use crate::prefix::{address_text, format_address, format_prefix, prefix_text};
use crate::sort::{is_strictly_sorted, keys, lemma_distinct_values, sorted_distinct};
use crate::text::{decimal, decimal_text, push_word, texts};

verus! {

/// A program of the host.
#[derive(Clone, Copy, Debug, PartialEq, Eq, Structural)]
pub enum ProgramV2 {
    Ip,
    Tc,
    Sysctl,
    Iptables,
    Ip6tables,
}

/// How a command is run.
#[derive(Clone, Copy, Debug, PartialEq, Eq, Structural)]
pub enum RunModeV2 {
    /// Once; a failure fails the setup.
    MustSucceed,
    /// Once; a failure is ignored.
    MayFail,
    /// Again and again until it fails, or until it ran that often.
    UntilFailure { limit: Option<u32> },
}

/// A command of the host.
#[derive(Debug)]
pub struct CommandV2 {
    pub program: ProgramV2,
    pub arguments: Vec<String>,
    pub mode: RunModeV2,
}

/// What a command is.
#[verifier::ext_equal]
pub ghost struct CommandModel {
    pub program: ProgramV2,
    pub arguments: Seq<Seq<char>>,
    pub mode: RunModeV2,
}

impl CommandV2 {
    /// What the command is.
    pub open spec fn model(&self) -> CommandModel {
        CommandModel {
            program: self.program,
            arguments: texts(self.arguments@),
            mode: self.mode,
        }
    }
}

/// What a run of commands is.
pub open spec fn models(commands: Seq<CommandV2>) -> Seq<CommandModel> {
    commands.map_values(|command: CommandV2| command.model())
}

/// Put a command behind the others.
pub fn push_command(plan: &mut Vec<CommandV2>, command: CommandV2)
    ensures
        models(final(plan)@) == models(old(plan)@).push(command.model()),
{
    let ghost before = plan@;
    plan.push(command);
    assert(models(plan@) =~= models(before).push(command.model()));
}

/// Put commands behind the others.
pub fn push_commands(plan: &mut Vec<CommandV2>, more: Vec<CommandV2>)
    ensures
        models(final(plan)@) == models(old(plan)@) + models(more@),
{
    let ghost before = plan@;
    let ghost added = more@;
    let mut more: Vec<CommandV2> = more;
    plan.append(&mut more);
    assert(models(plan@) =~= models(before) + models(added));
}

/// The family option of `ip`.
pub open spec fn family_text(ipv6: bool) -> Seq<char> {
    if ipv6 {
        "-6"@
    } else {
        "-4"@
    }
}

/// The family option of `ip`.
fn family_option(ipv6: bool) -> (r: &'static str)
    ensures
        r@ == family_text(ipv6),
{
    if ipv6 {
        "-6"
    } else {
        "-4"
    }
}

/// The host prefix of an address, as text.
pub open spec fn host_text(address: IpAddr) -> Seq<char> {
    prefix_text(IpNet { addr: address, prefix_len: address.width() })
}

/// The host prefix of an address, as text.
pub fn host_prefix_v2(address: IpAddr) -> (r: String)
    ensures
        r@ == host_text(address),
{
    format_prefix(&IpNet::host(address))
}

/// The name of a routing table.
pub open spec fn table_text(table: u32) -> Seq<char> {
    if table == MAIN_TABLE {
        "main"@
    } else {
        decimal_text(table as int)
    }
}

/// The name of a routing table.
fn table_name(table: u32) -> (r: String)
    ensures
        r@ == table_text(table),
{
    if table == MAIN_TABLE {
        "main".to_owned()
    } else {
        decimal(table as u64)
    }
}

/// Remove every copy of the rule for all destinations.
pub open spec fn remove_rule_command(ipv6: bool, priority: u32, table: u32) -> CommandModel {
    CommandModel {
        program: ProgramV2::Ip,
        arguments: seq![
            family_text(ipv6),
            "rule"@,
            "del"@,
            "priority"@,
            decimal_text(priority as int),
            "lookup"@,
            table_text(table),
        ],
        mode: RunModeV2::UntilFailure { limit: Some(RULE_REMOVAL_LIMIT) },
    }
}

/// Remove every copy of the rule for all destinations.
pub fn remove_rule(ipv6: bool, priority: u32, table: u32) -> (r: CommandV2)
    ensures
        r.model() == remove_rule_command(ipv6, priority, table),
{
    let mut arguments: Vec<String> = Vec::new();
    let priority_text: String = decimal(priority as u64);
    let lookup: String = table_name(table);
    push_word(&mut arguments, family_option(ipv6));
    push_word(&mut arguments, "rule");
    push_word(&mut arguments, "del");
    push_word(&mut arguments, "priority");
    push_word(&mut arguments, priority_text.as_str());
    push_word(&mut arguments, "lookup");
    push_word(&mut arguments, lookup.as_str());
    let r: CommandV2 = CommandV2 {
        program: ProgramV2::Ip,
        arguments,
        mode: RunModeV2::UntilFailure { limit: Some(RULE_REMOVAL_LIMIT) },
    };
    assert(r.model() =~= remove_rule_command(ipv6, priority, table));
    r
}

/// Look up all destinations in the overlay table.
pub open spec fn add_rule_command(ipv6: bool, priority: u32, table: u32) -> CommandModel {
    CommandModel {
        program: ProgramV2::Ip,
        arguments: seq![
            family_text(ipv6),
            "rule"@,
            "add"@,
            "priority"@,
            decimal_text(priority as int),
            "lookup"@,
            decimal_text(table as int),
            "protocol"@,
            "static"@,
        ],
        mode: RunModeV2::MustSucceed,
    }
}

/// Look up all destinations in the overlay table.
pub fn add_rule(ipv6: bool, priority: u32, table: u32) -> (r: CommandV2)
    ensures
        r.model() == add_rule_command(ipv6, priority, table),
{
    let mut arguments: Vec<String> = Vec::new();
    let priority_text: String = decimal(priority as u64);
    let table_number: String = decimal(table as u64);
    push_word(&mut arguments, family_option(ipv6));
    push_word(&mut arguments, "rule");
    push_word(&mut arguments, "add");
    push_word(&mut arguments, "priority");
    push_word(&mut arguments, priority_text.as_str());
    push_word(&mut arguments, "lookup");
    push_word(&mut arguments, table_number.as_str());
    push_word(&mut arguments, "protocol");
    push_word(&mut arguments, "static");
    let r: CommandV2 = CommandV2 {
        program: ProgramV2::Ip,
        arguments,
        mode: RunModeV2::MustSucceed,
    };
    assert(r.model() =~= add_rule_command(ipv6, priority, table));
    r
}

/// Remove every copy of the rule for an underlay address.
pub open spec fn remove_underlay_rule_command(address: IpAddr, priority: u32) -> CommandModel {
    CommandModel {
        program: ProgramV2::Ip,
        arguments: seq![
            family_text(address.is_ipv6()),
            "rule"@,
            "del"@,
            "priority"@,
            decimal_text(priority as int),
            "to"@,
            host_text(address),
            "lookup"@,
            "main"@,
        ],
        mode: RunModeV2::UntilFailure { limit: Some(RULE_REMOVAL_LIMIT) },
    }
}

/// Remove every copy of the rule for an underlay address.
pub fn remove_underlay_rule(address: IpAddr, priority: u32) -> (r: CommandV2)
    ensures
        r.model() == remove_underlay_rule_command(address, priority),
{
    let mut arguments: Vec<String> = Vec::new();
    let priority_text: String = decimal(priority as u64);
    let host: String = host_prefix_v2(address);
    push_word(&mut arguments, family_option(address.is_ipv6()));
    push_word(&mut arguments, "rule");
    push_word(&mut arguments, "del");
    push_word(&mut arguments, "priority");
    push_word(&mut arguments, priority_text.as_str());
    push_word(&mut arguments, "to");
    push_word(&mut arguments, host.as_str());
    push_word(&mut arguments, "lookup");
    push_word(&mut arguments, "main");
    let r: CommandV2 = CommandV2 {
        program: ProgramV2::Ip,
        arguments,
        mode: RunModeV2::UntilFailure { limit: Some(RULE_REMOVAL_LIMIT) },
    };
    assert(r.model() =~= remove_underlay_rule_command(address, priority));
    r
}

/// Look up an underlay address in the main table.
pub open spec fn add_underlay_rule_command(address: IpAddr, priority: u32) -> CommandModel {
    CommandModel {
        program: ProgramV2::Ip,
        arguments: seq![
            family_text(address.is_ipv6()),
            "rule"@,
            "add"@,
            "priority"@,
            decimal_text(priority as int),
            "to"@,
            host_text(address),
            "lookup"@,
            "main"@,
            "protocol"@,
            "static"@,
        ],
        mode: RunModeV2::MustSucceed,
    }
}

/// Look up an underlay address in the main table.
pub fn add_underlay_rule(address: IpAddr, priority: u32) -> (r: CommandV2)
    ensures
        r.model() == add_underlay_rule_command(address, priority),
{
    let mut arguments: Vec<String> = Vec::new();
    let priority_text: String = decimal(priority as u64);
    let host: String = host_prefix_v2(address);
    push_word(&mut arguments, family_option(address.is_ipv6()));
    push_word(&mut arguments, "rule");
    push_word(&mut arguments, "add");
    push_word(&mut arguments, "priority");
    push_word(&mut arguments, priority_text.as_str());
    push_word(&mut arguments, "to");
    push_word(&mut arguments, host.as_str());
    push_word(&mut arguments, "lookup");
    push_word(&mut arguments, "main");
    push_word(&mut arguments, "protocol");
    push_word(&mut arguments, "static");
    let r: CommandV2 = CommandV2 {
        program: ProgramV2::Ip,
        arguments,
        mode: RunModeV2::MustSucceed,
    };
    assert(r.model() =~= add_underlay_rule_command(address, priority));
    r
}

/// Drop the routes that this runtime owns.
pub open spec fn flush_routes_command(ipv6: bool, table: u32) -> CommandModel {
    CommandModel {
        program: ProgramV2::Ip,
        arguments: seq![
            family_text(ipv6),
            "route"@,
            "flush"@,
            "table"@,
            decimal_text(table as int),
            "proto"@,
            "100"@,
        ],
        mode: RunModeV2::MayFail,
    }
}

/// Drop the routes that this runtime owns.
pub fn flush_routes(ipv6: bool, table: u32) -> (r: CommandV2)
    ensures
        r.model() == flush_routes_command(ipv6, table),
{
    let mut arguments: Vec<String> = Vec::new();
    let table_number: String = decimal(table as u64);
    push_word(&mut arguments, family_option(ipv6));
    push_word(&mut arguments, "route");
    push_word(&mut arguments, "flush");
    push_word(&mut arguments, "table");
    push_word(&mut arguments, table_number.as_str());
    push_word(&mut arguments, "proto");
    push_word(&mut arguments, "100");
    let r: CommandV2 = CommandV2 {
        program: ProgramV2::Ip,
        arguments,
        mode: RunModeV2::MayFail,
    };
    assert(r.model() =~= flush_routes_command(ipv6, table));
    r
}

/// Drop one route that this runtime owns.
pub open spec fn delete_route_in_command(prefix: IpNet, table: u32) -> CommandModel {
    CommandModel {
        program: ProgramV2::Ip,
        arguments: seq![
            family_text(prefix.addr.is_ipv6()),
            "route"@,
            "del"@,
            "table"@,
            decimal_text(table as int),
            prefix_text(prefix),
            "proto"@,
            "100"@,
        ],
        mode: RunModeV2::MayFail,
    }
}

/// Drop one route that this runtime owns.
pub fn delete_route_in(prefix: IpNet, table: u32) -> (r: CommandV2)
    requires
        prefix.wf(),
    ensures
        r.model() == delete_route_in_command(prefix, table),
{
    let mut arguments: Vec<String> = Vec::new();
    let table_number: String = decimal(table as u64);
    let text: String = format_prefix(&prefix);
    push_word(&mut arguments, family_option(prefix.addr.is_ipv6()));
    push_word(&mut arguments, "route");
    push_word(&mut arguments, "del");
    push_word(&mut arguments, "table");
    push_word(&mut arguments, table_number.as_str());
    push_word(&mut arguments, text.as_str());
    push_word(&mut arguments, "proto");
    push_word(&mut arguments, "100");
    let r: CommandV2 = CommandV2 {
        program: ProgramV2::Ip,
        arguments,
        mode: RunModeV2::MayFail,
    };
    assert(r.model() =~= delete_route_in_command(prefix, table));
    r
}

/// Bring the interface up.
pub open spec fn link_up_command(tun_name: Seq<char>) -> CommandModel {
    CommandModel {
        program: ProgramV2::Ip,
        arguments: seq![
            "link"@,
            "set"@,
            "dev"@,
            tun_name,
            "up"@,
        ],
        mode: RunModeV2::MustSucceed,
    }
}

/// Bring the interface up.
pub fn link_up(tun_name: &str) -> (r: CommandV2)
    ensures
        r.model() == link_up_command(tun_name@),
{
    let mut arguments: Vec<String> = Vec::new();
    push_word(&mut arguments, "link");
    push_word(&mut arguments, "set");
    push_word(&mut arguments, "dev");
    push_word(&mut arguments, tun_name);
    push_word(&mut arguments, "up");
    let r: CommandV2 = CommandV2 {
        program: ProgramV2::Ip,
        arguments,
        mode: RunModeV2::MustSucceed,
    };
    assert(r.model() =~= link_up_command(tun_name@));
    r
}

/// Give the interface an address.
pub open spec fn replace_address_command(tun_name: Seq<char>, address: IpAddr) -> CommandModel {
    CommandModel {
        program: ProgramV2::Ip,
        arguments: seq![
            family_text(address.is_ipv6()),
            "address"@,
            "replace"@,
            host_text(address),
            "dev"@,
            tun_name,
        ],
        mode: RunModeV2::MustSucceed,
    }
}

/// Give the interface an address.
pub fn replace_address(tun_name: &str, address: IpAddr) -> (r: CommandV2)
    ensures
        r.model() == replace_address_command(tun_name@, address),
{
    let mut arguments: Vec<String> = Vec::new();
    let host: String = host_prefix_v2(address);
    push_word(&mut arguments, family_option(address.is_ipv6()));
    push_word(&mut arguments, "address");
    push_word(&mut arguments, "replace");
    push_word(&mut arguments, host.as_str());
    push_word(&mut arguments, "dev");
    push_word(&mut arguments, tun_name);
    let r: CommandV2 = CommandV2 {
        program: ProgramV2::Ip,
        arguments,
        mode: RunModeV2::MustSucceed,
    };
    assert(r.model() =~= replace_address_command(tun_name@, address));
    r
}

/// Bound the queue of the interface.
pub open spec fn egress_aqm_command(tun_name: Seq<char>) -> CommandModel {
    CommandModel {
        program: ProgramV2::Tc,
        arguments: seq![
            "qdisc"@,
            "replace"@,
            "dev"@,
            tun_name,
            "root"@,
            "fq_codel"@,
            "limit"@,
            decimal_text(TUN_FQ_CODEL_PACKET_LIMIT as int),
            "memory_limit"@,
            decimal_text(TUN_FQ_CODEL_MEMORY_BYTES as int),
            "ecn"@,
        ],
        mode: RunModeV2::MustSucceed,
    }
}

/// Bound the queue of the interface.
pub fn egress_aqm(tun_name: &str) -> (r: CommandV2)
    ensures
        r.model() == egress_aqm_command(tun_name@),
{
    let mut arguments: Vec<String> = Vec::new();
    let packets: String = decimal(TUN_FQ_CODEL_PACKET_LIMIT as u64);
    let memory: String = decimal(TUN_FQ_CODEL_MEMORY_BYTES as u64);
    push_word(&mut arguments, "qdisc");
    push_word(&mut arguments, "replace");
    push_word(&mut arguments, "dev");
    push_word(&mut arguments, tun_name);
    push_word(&mut arguments, "root");
    push_word(&mut arguments, "fq_codel");
    push_word(&mut arguments, "limit");
    push_word(&mut arguments, packets.as_str());
    push_word(&mut arguments, "memory_limit");
    push_word(&mut arguments, memory.as_str());
    push_word(&mut arguments, "ecn");
    let r: CommandV2 = CommandV2 {
        program: ProgramV2::Tc,
        arguments,
        mode: RunModeV2::MustSucceed,
    };
    assert(r.model() =~= egress_aqm_command(tun_name@));
    r
}

/// How the kernel routes overlay traffic into the TUN interface.
#[derive(Debug)]
pub struct KernelRoutePolicyV2 {
    pub tun_name: String,
    pub isolate_overlay: bool,
    pub table: u32,
    pub rule_priority: u32,
    pub underlay_addresses: Vec<IpAddr>,
    pub ipv4_source: Option<IpAddr>,
    pub ipv6_source: Option<IpAddr>,
}

/// Whether an address is where some peer is reached.
pub open spec fn is_underlay(peers: Seq<V2PeerConfig>, address: IpAddr) -> bool {
    &&& !address.is_unspecified()
    &&& exists|i: int, j: int|
        0 <= i < peers.len() && 0 <= j < peers[i].addresses@.len() && (
        #[trigger] peers[i].addresses@[j]).ip == address
}

/// The addresses at which peers are reached.
pub open spec fn underlay_set(peers: Seq<V2PeerConfig>) -> Set<IpAddr> {
    Set::new(|address: IpAddr| is_underlay(peers, address))
}

/// Whether an address is among the first of a list.
pub open spec fn is_listed(list: Seq<SocketAddr>, count: int, address: IpAddr) -> bool {
    exists|j: int| 0 <= j < count && (#[trigger] list[j]).ip == address
}

/// One more of the list.
proof fn lemma_listed_grows(list: Seq<SocketAddr>, count: int, address: IpAddr)
    requires
        0 <= count < list.len(),
    ensures
        is_listed(list, count + 1, address) == (is_listed(list, count, address) || list[count].ip
            == address),
{
    if is_listed(list, count, address) {
        let j = choose|j: int| 0 <= j < count && (#[trigger] list[j]).ip == address;
        assert(0 <= j < count + 1 && list[j].ip == address);
    }
    if list[count].ip == address {
        assert(0 <= count < count + 1 && list[count].ip == address);
    }
}

/// One more peer.
proof fn lemma_underlay_grows(peers: Seq<V2PeerConfig>, count: int, address: IpAddr)
    requires
        0 <= count < peers.len(),
    ensures
        is_underlay(peers.take(count + 1), address) == (is_underlay(peers.take(count), address) || (
        !address.is_unspecified() && is_listed(
            peers[count].addresses@,
            peers[count].addresses@.len() as int,
            address,
        ))),
{
    let small = peers.take(count);
    let large = peers.take(count + 1);
    let list = peers[count].addresses@;
    assert(large[count] == peers[count]);
    if is_underlay(large, address) {
        let (i, j) = choose|i: int, j: int|
            0 <= i < large.len() && 0 <= j < large[i].addresses@.len() && (
            #[trigger] large[i].addresses@[j]).ip == address;
        if i < count {
            assert(small[i].addresses@[j].ip == address);
        } else {
            assert(list[j].ip == address);
        }
    }
    if is_underlay(small, address) {
        let (i, j) = choose|i: int, j: int|
            0 <= i < small.len() && 0 <= j < small[i].addresses@.len() && (
            #[trigger] small[i].addresses@[j]).ip == address;
        assert(large[i].addresses@[j].ip == address);
    }
    if is_listed(list, list.len() as int, address) {
        let j = choose|j: int| 0 <= j < list.len() && (#[trigger] list[j]).ip == address;
        assert(large[count].addresses@[j].ip == address);
    }
}

/// Put the addresses of one peer behind the others.
fn add_underlay(addresses: &mut Vec<IpAddr>, list: &Vec<SocketAddr>)
    ensures
        forall|x: IpAddr| #[trigger]
            final(addresses)@.contains(x) == (old(addresses)@.contains(x) || (!x.is_unspecified()
                && is_listed(list@, list@.len() as int, x))),
{
    let ghost before = addresses@;
    let mut at: usize = 0;
    while at < list.len()
        invariant
            before == old(addresses)@,
            at <= list@.len(),
            forall|x: IpAddr| #[trigger]
                addresses@.contains(x) == (before.contains(x) || (!x.is_unspecified() && is_listed(
                    list@,
                    at as int,
                    x,
                ))),
        decreases list@.len() - at,
    {
        let ghost earlier = addresses@;
        let address: IpAddr = list[at].ip;
        if !address.is_unspecified() {
            addresses.push(address);
        }
        proof {
            assert forall|x: IpAddr| #[trigger]
                addresses@.contains(x) == (before.contains(x) || (!x.is_unspecified() && is_listed(
                    list@,
                    at + 1,
                    x,
                ))) by {
                lemma_listed_grows(list@, at as int, x);
                assert(earlier.contains(x) == (before.contains(x) || (!x.is_unspecified()
                    && is_listed(list@, at as int, x))));
                if !address.is_unspecified() {
                    assert(addresses@[earlier.len() as int] == address);
                    if earlier.contains(x) {
                        let k = choose|k: int| 0 <= k < earlier.len() && earlier[k] == x;
                        assert(addresses@[k] == x);
                    }
                    if addresses@.contains(x) && x != address {
                        let k = choose|k: int| 0 <= k < addresses@.len() && addresses@[k] == x;
                        assert(earlier[k] == x);
                    }
                }
            }
        }
        at = at + 1;
    }
}

/// The addresses at which peers are reached, in order of the peers.
fn collect_underlay(peers: &Vec<V2PeerConfig>) -> (r: Vec<IpAddr>)
    ensures
        r@.to_set() == underlay_set(peers@),
{
    let mut addresses: Vec<IpAddr> = Vec::new();
    let mut index: usize = 0;
    while index < peers.len()
        invariant
            index <= peers@.len(),
            forall|x: IpAddr| #[trigger]
                addresses@.contains(x) == is_underlay(peers@.take(index as int), x),
        decreases peers@.len() - index,
    {
        let ghost before = addresses@;
        add_underlay(&mut addresses, &peers[index].addresses);
        proof {
            assert forall|x: IpAddr| #[trigger]
                addresses@.contains(x) == is_underlay(peers@.take(index + 1), x) by {
                lemma_underlay_grows(peers@, index as int, x);
                assert(before.contains(x) == is_underlay(peers@.take(index as int), x));
            }
        }
        index = index + 1;
    }
    proof {
        assert(peers@.take(index as int) =~= peers@);
        assert(addresses@.to_set() =~= underlay_set(peers@));
    }
    addresses
}

/// The commands that pin underlay addresses to the main table.
pub open spec fn underlay_rules(addresses: Seq<IpAddr>, priority: u32) -> Seq<CommandModel>
    decreases addresses.len(),
{
    if addresses.len() == 0 {
        Seq::empty()
    } else {
        underlay_rules(addresses.drop_last(), priority).push(
            remove_underlay_rule_command(addresses.last(), priority),
        ).push(add_underlay_rule_command(addresses.last(), priority))
    }
}

/// The commands that release underlay addresses.
pub open spec fn underlay_removals(addresses: Seq<IpAddr>, priority: u32) -> Seq<CommandModel> {
    addresses.map_values(|address: IpAddr| remove_underlay_rule_command(address, priority))
}

/// The priority of the rules for underlay addresses, one before the overlay.
pub open spec fn underlay_priority(priority: u32) -> u32 {
    if priority == 0 {
        0
    } else {
        (priority - 1) as u32
    }
}

/// The words of a route replacement.
pub open spec fn replace_route_words(policy: KernelRoutePolicyV2, prefix: IpNet) -> Seq<Seq<char>> {
    let ipv6 = prefix.addr.is_ipv6();
    let source = if ipv6 {
        policy.ipv6_source
    } else {
        policy.ipv4_source
    };
    let words = seq![
        family_text(ipv6),
        "route"@,
        "replace"@,
        "table"@,
        decimal_text(policy.table as int),
        prefix_text(prefix),
        "dev"@,
        policy.tun_name@,
        "proto"@,
        "100"@,
    ];
    match source {
        Some(address) => words.push("src"@).push(address_text(address)),
        None => words,
    }
}

/// Replaces a route.
pub open spec fn replace_route_command(policy: KernelRoutePolicyV2, prefix: IpNet) -> CommandModel {
    CommandModel {
        program: ProgramV2::Ip,
        arguments: replace_route_words(policy, prefix),
        mode: RunModeV2::MustSucceed,
    }
}

/// Replaces each route, in order.
pub open spec fn replace_routes(policy: KernelRoutePolicyV2, routes: Seq<IpNet>) -> Seq<
    CommandModel,
> {
    routes.map_values(|route: IpNet| replace_route_command(policy, route))
}

impl KernelRoutePolicyV2 {
    /// The policy of a configuration. Without isolation routes go to the main
    /// table.
    pub fn from_config(config: &V2RuntimeConfig, local_v4: IpAddr, local_v6: IpAddr) -> (r:
        KernelRoutePolicyV2)
        ensures
            r.tun_name@ == config.tun_name@,
            r.isolate_overlay == config.isolate_overlay,
            r.table == if config.isolate_overlay {
                config.routing_table
            } else {
                MAIN_TABLE
            },
            r.rule_priority == config.routing_rule_priority,
            is_strictly_sorted(keys(r.underlay_addresses@)),
            r.underlay_addresses@.to_set() == underlay_set(config.mesh_peers@),
            r.ipv4_source == Some(local_v4),
            r.ipv6_source == Some(local_v6),
    {
        let collected: Vec<IpAddr> = collect_underlay(&config.mesh_peers);
        let ghost all = collected@;
        let underlay_addresses: Vec<IpAddr> = sorted_distinct(collected);
        proof {
            crate::net::lemma_address_keys();
            lemma_distinct_values(all, underlay_addresses@);
        }
        KernelRoutePolicyV2 {
            tun_name: config.tun_name.clone(),
            isolate_overlay: config.isolate_overlay,
            table: if config.isolate_overlay {
                config.routing_table
            } else {
                MAIN_TABLE
            },
            rule_priority: config.routing_rule_priority,
            underlay_addresses,
            ipv4_source: Some(local_v4),
            ipv6_source: Some(local_v6),
        }
    }

    /// The commands that install the policy.
    pub open spec fn install_commands(&self) -> Seq<CommandModel> {
        if !self.isolate_overlay {
            Seq::empty()
        } else {
            seq![
                remove_rule_command(false, self.rule_priority, self.table),
                add_rule_command(false, self.rule_priority, self.table),
                remove_rule_command(true, self.rule_priority, self.table),
                add_rule_command(true, self.rule_priority, self.table),
            ] + underlay_rules(self.underlay_addresses@, underlay_priority(self.rule_priority))
        }
    }

    /// The commands that install the policy: overlay destinations are looked up
    /// in the overlay table, underlay addresses before that in the main one.
    pub fn install_policy(&self) -> (r: Vec<CommandV2>)
        ensures
            models(r@) == self.install_commands(),
    {
        let mut plan: Vec<CommandV2> = Vec::new();
        assert(models(plan@) =~= Seq::empty());
        if !self.isolate_overlay {
            return plan;
        }
        push_command(&mut plan, remove_rule(false, self.rule_priority, self.table));
        push_command(&mut plan, add_rule(false, self.rule_priority, self.table));
        push_command(&mut plan, remove_rule(true, self.rule_priority, self.table));
        push_command(&mut plan, add_rule(true, self.rule_priority, self.table));
        let ghost rules = models(plan@);
        assert(rules =~= seq![
            remove_rule_command(false, self.rule_priority, self.table),
            add_rule_command(false, self.rule_priority, self.table),
            remove_rule_command(true, self.rule_priority, self.table),
            add_rule_command(true, self.rule_priority, self.table),
        ]);
        let priority: u32 = self.rule_priority.saturating_sub(1);
        let addresses: &Vec<IpAddr> = &self.underlay_addresses;
        let mut index: usize = 0;
        proof {
            assert(addresses@.take(0).len() == 0);
            assert(rules =~= rules + underlay_rules(addresses@.take(0), priority));
        }
        while index < addresses.len()
            invariant
                index <= addresses@.len(),
                models(plan@) == rules + underlay_rules(addresses@.take(index as int), priority),
            decreases addresses@.len() - index,
        {
            let address: IpAddr = addresses[index];
            push_command(&mut plan, remove_underlay_rule(address, priority));
            push_command(&mut plan, add_underlay_rule(address, priority));
            proof {
                assert(addresses@.take(index + 1).drop_last() =~= addresses@.take(index as int));
                assert(addresses@.take(index + 1).last() == address);
                assert(models(plan@) =~= rules + underlay_rules(
                    addresses@.take(index + 1),
                    priority,
                ));
            }
            index = index + 1;
        }
        assert(addresses@.take(index as int) =~= addresses@);
        plan
    }

    /// The command that routes a prefix into the interface.
    pub fn replace_route(&self, prefix: IpNet) -> (r: CommandV2)
        requires
            prefix.wf(),
        ensures
            r.model() == replace_route_command(*self, prefix),
    {
        let ipv6: bool = prefix.addr.is_ipv6();
        let mut arguments: Vec<String> = Vec::new();
        push_word(&mut arguments, family_option(ipv6));
        push_word(&mut arguments, "route");
        push_word(&mut arguments, "replace");
        push_word(&mut arguments, "table");
        push_word(&mut arguments, decimal(self.table as u64).as_str());
        push_word(&mut arguments, format_prefix(&prefix).as_str());
        push_word(&mut arguments, "dev");
        push_word(&mut arguments, self.tun_name.as_str());
        push_word(&mut arguments, "proto");
        push_word(&mut arguments, "100");
        let source: Option<IpAddr> = if ipv6 {
            self.ipv6_source
        } else {
            self.ipv4_source
        };
        if let Some(address) = source {
            push_word(&mut arguments, "src");
            push_word(&mut arguments, format_address(&address).as_str());
        }
        let r: CommandV2 = CommandV2 {
            program: ProgramV2::Ip,
            arguments,
            mode: RunModeV2::MustSucceed,
        };
        assert(r.model() =~= replace_route_command(*self, prefix));
        r
    }

    /// The command that drops the route of a prefix.
    pub fn delete_route(&self, prefix: IpNet) -> (r: CommandV2)
        requires
            prefix.wf(),
        ensures
            r.model() == delete_route_in_command(prefix, self.table),
    {
        delete_route_in(prefix, self.table)
    }

    /// The commands that remove the policy.
    pub open spec fn cleanup_commands(&self) -> Seq<CommandModel> {
        let flushes = seq![
            flush_routes_command(false, self.table),
            flush_routes_command(true, self.table),
        ];
        if self.isolate_overlay {
            flushes + seq![
                remove_rule_command(false, self.rule_priority, self.table),
                remove_rule_command(true, self.rule_priority, self.table),
            ] + underlay_removals(self.underlay_addresses@, underlay_priority(self.rule_priority))
        } else {
            flushes
        }
    }

    /// The commands that remove the policy: owned routes first, then the rules.
    pub fn cleanup(&self) -> (r: Vec<CommandV2>)
        ensures
            models(r@) == self.cleanup_commands(),
    {
        let mut plan: Vec<CommandV2> = Vec::new();
        push_command(&mut plan, flush_routes(false, self.table));
        push_command(&mut plan, flush_routes(true, self.table));
        if !self.isolate_overlay {
            assert(models(plan@) =~= self.cleanup_commands());
            return plan;
        }
        push_command(&mut plan, remove_rule(false, self.rule_priority, self.table));
        push_command(&mut plan, remove_rule(true, self.rule_priority, self.table));
        let ghost first = models(plan@);
        let priority: u32 = self.rule_priority.saturating_sub(1);
        let addresses: &Vec<IpAddr> = &self.underlay_addresses;
        let mut index: usize = 0;
        assert(first =~= first + underlay_removals(addresses@.take(0), priority));
        while index < addresses.len()
            invariant
                index <= addresses@.len(),
                models(plan@) == first + underlay_removals(
                    addresses@.take(index as int),
                    priority,
                ),
            decreases addresses@.len() - index,
        {
            push_command(&mut plan, remove_underlay_rule(addresses[index], priority));
            assert(models(plan@) =~= first + underlay_removals(
                addresses@.take(index + 1),
                priority,
            ));
            index = index + 1;
        }
        proof {
            assert(addresses@.take(index as int) =~= addresses@);
            assert(models(plan@) =~= self.cleanup_commands());
        }
        plan
    }
}

/// The commands that set up the interface and its routes.
pub open spec fn tunnel_commands(
    policy: KernelRoutePolicyV2,
    local_v4: IpAddr,
    local_v6: IpAddr,
    routes: Seq<IpNet>,
) -> Seq<CommandModel> {
    policy.cleanup_commands() + seq![
        link_up_command(policy.tun_name@),
        egress_aqm_command(policy.tun_name@),
        replace_address_command(policy.tun_name@, local_v4),
        replace_address_command(policy.tun_name@, local_v6),
    ] + policy.install_commands() + replace_routes(policy, routes)
}

/// The commands that set up the interface and its routes. What an earlier run
/// left is removed first, and every route comes after the policy.
pub fn configure_mesh_tunnel(
    policy: &KernelRoutePolicyV2,
    local_v4: IpAddr,
    local_v6: IpAddr,
    routes: &Vec<IpNet>,
) -> (r: Vec<CommandV2>)
    requires
        all_wf(routes@),
    ensures
        models(r@) == tunnel_commands(*policy, local_v4, local_v6, routes@),
{
    let mut plan: Vec<CommandV2> = policy.cleanup();
    push_command(&mut plan, link_up(policy.tun_name.as_str()));
    push_command(&mut plan, egress_aqm(policy.tun_name.as_str()));
    push_command(&mut plan, replace_address(policy.tun_name.as_str(), local_v4));
    push_command(&mut plan, replace_address(policy.tun_name.as_str(), local_v6));
    push_commands(&mut plan, policy.install_policy());
    let ghost first = models(plan@);
    let mut index: usize = 0;
    assert(first =~= first + replace_routes(*policy, routes@.take(0)));
    while index < routes.len()
        invariant
            all_wf(routes@),
            index <= routes@.len(),
            models(plan@) == first + replace_routes(*policy, routes@.take(index as int)),
        decreases routes@.len() - index,
    {
        push_command(&mut plan, policy.replace_route(routes[index]));
        assert(models(plan@) =~= first + replace_routes(*policy, routes@.take(index + 1)));
        index = index + 1;
    }
    proof {
        assert(routes@.take(index as int) =~= routes@);
        assert(models(plan@) =~= tunnel_commands(*policy, local_v4, local_v6, routes@));
    }
    plan
}

/// Cleaning up undoes an installed policy: every rule that is added is removed
/// again.
pub proof fn lemma_cleanup_removes_every_rule(policy: KernelRoutePolicyV2)
    ensures
        policy.isolate_overlay ==> {
            &&& policy.cleanup_commands().contains(
                remove_rule_command(false, policy.rule_priority, policy.table),
            )
            &&& policy.cleanup_commands().contains(
                remove_rule_command(true, policy.rule_priority, policy.table),
            )
            &&& forall|i: int|
                0 <= i < policy.underlay_addresses@.len() ==> policy.cleanup_commands().contains(
                    remove_underlay_rule_command(
                        #[trigger] policy.underlay_addresses@[i],
                        underlay_priority(policy.rule_priority),
                    ),
                )
        },
        !policy.isolate_overlay ==> policy.install_commands().len() == 0,
{
    if policy.isolate_overlay {
        let commands = policy.cleanup_commands();
        assert(commands[2] == remove_rule_command(false, policy.rule_priority, policy.table));
        assert(commands[3] == remove_rule_command(true, policy.rule_priority, policy.table));
        assert forall|i: int| 0 <= i < policy.underlay_addresses@.len() implies commands.contains(
            remove_underlay_rule_command(
                #[trigger] policy.underlay_addresses@[i],
                underlay_priority(policy.rule_priority),
            ),
        ) by {
            assert(commands[4 + i] == remove_underlay_rule_command(
                policy.underlay_addresses@[i],
                underlay_priority(policy.rule_priority),
            ));
        }
    }
}

/// The underlay addresses are those of the peers' sockets, except the
/// unspecified address.
pub proof fn lemma_underlay_is_where_the_peers_are(
    peers: Seq<V2PeerConfig>,
    address: IpAddr,
    peer: int,
    socket: int,
)
    ensures
        0 <= peer < peers.len() && 0 <= socket < peers[peer].addresses@.len()
            && peers[peer].addresses@[socket].ip == address && address != IpAddr::V4(0) && address
            != IpAddr::V6(0) ==> underlay_set(peers).contains(address),
        !underlay_set(peers).contains(IpAddr::V4(0)),
        !underlay_set(peers).contains(IpAddr::V6(0)),
        (forall|i: int, j: int|
            0 <= i < peers.len() && 0 <= j < peers[i].addresses@.len() ==> (
            #[trigger] peers[i].addresses@[j]).ip != address) ==> !underlay_set(peers).contains(
            address,
        ),
{
}

} // verus!
