//! What the host commands say, and how those that install and those that remove
//! belong together.

use vstd::prelude::*;

use super::kernel::{
    add_rule_command, add_underlay_rule_command, delete_route_in_command, egress_aqm_command,
    flush_routes_command, link_up_command, remove_rule_command, remove_underlay_rule_command,
    replace_address_command, replace_route_command, replace_routes, tunnel_commands,
    underlay_priority, underlay_removals, underlay_rules, CommandModel, KernelRoutePolicyV2,
    ProgramV2, RunModeV2,
};
use super::masquerade::{
    family_commands, family_removal, firewall_of, forwarding_commands, generation_commands,
    next_slot_of, of_family, NatObservationV2,
};
use super::{
    first_of_family, overlay_input, overlay_ipv4_domain, overlay_ipv4_input, overlay_ipv4_of,
    overlay_ipv6_of,
};
use crate::connection::big_endian_value;
use crate::net::{IpAddr, IpNet};
use crate::prefix::{address_text, prefix_text};
use crate::text::decimal_text;

verus! {

/// The chain that marks what the tunnel brings in, by slot.
pub open spec fn marking_chain(slot: int) -> Seq<char> {
    if slot == 0 { "IRONET_V2_NAT_IN_A"@ } else { "IRONET_V2_NAT_IN_B"@ }
}

/// The chain that masquerades what was marked, by slot.
pub open spec fn masquerading_chain(slot: int) -> Seq<char> {
    if slot == 0 { "IRONET_V2_NAT_OUT_A"@ } else { "IRONET_V2_NAT_OUT_B"@ }
}

/// A command sets a connection mark.
pub open spec fn sets_mark(command: CommandModel) -> bool {
    command.arguments.len() == 10 && command.arguments[8] == "--set-xmark"@
}

/// A command matches a connection mark.
pub open spec fn matches_mark(command: CommandModel) -> bool {
    command.arguments.len() == 12 && command.arguments[6] == "--mark"@
}

/// In every generation the mark that is set on connections from the interface is
/// the mark that each masquerade rule matches, and both are
/// `0x20000000/0x20000000`.
pub proof fn lemma_masquerade_matches_what_ingress_marks(
    program: ProgramV2,
    tun_name: Seq<char>,
    prefixes: Seq<IpNet>,
    slot: int,
)
    ensures
        ({
            let plan = generation_commands(program, tun_name, prefixes, slot);
            &&& plan.len() > 9 + prefixes.len()
            &&& sets_mark(plan[7])
            &&& forall|k: int|
                0 <= k < prefixes.len() ==> matches_mark(plan[9 + k]) && plan[9 + k].arguments[9]
                    == prefix_text(#[trigger] prefixes[k])
            &&& forall|i: int|
                0 <= i < plan.len() && sets_mark(#[trigger] plan[i]) ==> plan[i].arguments[9]
                    == "0x20000000/0x20000000"@ && plan[i].arguments[5] == tun_name
            &&& forall|j: int|
                0 <= j < plan.len() && matches_mark(#[trigger] plan[j]) ==> plan[j].arguments[7]
                    == "0x20000000/0x20000000"@
            &&& forall|i: int, j: int|
                0 <= i < plan.len() && 0 <= j < plan.len() && sets_mark(#[trigger] plan[i])
                    && matches_mark(#[trigger] plan[j]) ==> plan[i].arguments[9]
                    == plan[j].arguments[7]
        }),
{
    let plan = generation_commands(program, tun_name, prefixes, slot);
    let count = prefixes.len() as int;
    assert(plan[7].arguments.len() == 10);
    assert(sets_mark(plan[7]) && plan[7].arguments[5] == tun_name);
    assert(plan[7].arguments[9] == "0x20000000/0x20000000"@);
    assert forall|i: int| 0 <= i < plan.len() && i != 7 implies !sets_mark(#[trigger] plan[i]) by {
        lemma_plan_command_lengths(program, tun_name, prefixes, slot, i);
    }
    assert forall|i: int|
        0 <= i < plan.len() && sets_mark(#[trigger] plan[i]) implies plan[i].arguments[9]
        == "0x20000000/0x20000000"@ && plan[i].arguments[5] == tun_name by {
        assert(i == 7);
    }
    assert forall|j: int|
        0 <= j < plan.len() && matches_mark(#[trigger] plan[j]) implies plan[j].arguments[7]
        == "0x20000000/0x20000000"@ by {
        lemma_plan_command_lengths(program, tun_name, prefixes, slot, j);
    }
}

/// Of the commands of a generation only the seventh has ten words and only the
/// masquerade rules have twelve.
proof fn lemma_plan_command_lengths(
    program: ProgramV2,
    tun_name: Seq<char>,
    prefixes: Seq<IpNet>,
    slot: int,
    at: int,
)
    requires
        0 <= at < generation_commands(program, tun_name, prefixes, slot).len(),
    ensures
        ({
            let plan = generation_commands(program, tun_name, prefixes, slot);
            let words = plan[at].arguments;
            &&& plan.len() == prefixes.len() + 23
            &&& 9 <= at < 9 + prefixes.len() ==> words.len() == 12 && words[7]
                == "0x20000000/0x20000000"@
            &&& at == 7 ==> words.len() == 10
            &&& at != 7 && !(9 <= at < 9 + prefixes.len()) ==> words.len() <= 7
        }),
{
    let plan = generation_commands(program, tun_name, prefixes, slot);
    let count = prefixes.len() as int;
    if at >= 9 + count {
        let rest = at - 9 - count;
        assert(0 <= rest < 14);
        let switch = super::masquerade::generation_switch(program, slot);
        assert(switch.len() == 14);
        assert(plan[at] == switch[rest]);
        assert(switch[rest].arguments.len() <= 7);
    } else if at < 9 {
        assert(0 <= at < 9);
    }
}

/// A generation marks in the mangle table and masquerades in the nat table, each
/// in the chain of its slot, and hooks them in front of the host's own rules
/// after every rule stands.
pub proof fn lemma_generation_builds_both_chains(
    program: ProgramV2,
    tun_name: Seq<char>,
    prefixes: Seq<IpNet>,
    slot: int,
)
    requires
        slot == 0 || slot == 1,
    ensures
        ({
            let plan = generation_commands(program, tun_name, prefixes, slot);
            let marking = marking_chain(slot);
            let masquerading = masquerading_chain(slot);
            let count = prefixes.len() as int;
            &&& plan.len() == count + 23
            &&& forall|i: int| 0 <= i < plan.len() ==> (#[trigger] plan[i]).program == program
            &&& plan[6] == (CommandModel {
                program,
                arguments: seq!["-t"@, "mangle"@, "-N"@, marking],
                mode: RunModeV2::MustSucceed,
            })
            &&& plan[7] == (CommandModel {
                program,
                arguments: seq![
                    "-t"@,
                    "mangle"@,
                    "-A"@,
                    marking,
                    "-i"@,
                    tun_name,
                    "-j"@,
                    "CONNMARK"@,
                    "--set-xmark"@,
                    "0x20000000/0x20000000"@,
                ],
                mode: RunModeV2::MustSucceed,
            })
            &&& plan[8] == (CommandModel {
                program,
                arguments: seq!["-t"@, "nat"@, "-N"@, masquerading],
                mode: RunModeV2::MustSucceed,
            })
            &&& forall|k: int|
                0 <= k < count ==> #[trigger] plan[9 + k] == (CommandModel {
                    program,
                    arguments: seq![
                        "-t"@,
                        "nat"@,
                        "-A"@,
                        masquerading,
                        "-m"@,
                        "connmark"@,
                        "--mark"@,
                        "0x20000000/0x20000000"@,
                        "-d"@,
                        prefix_text(prefixes[k]),
                        "-j"@,
                        "MASQUERADE"@,
                    ],
                    mode: RunModeV2::MustSucceed,
                })
            &&& plan[9 + count] == (CommandModel {
                program,
                arguments: seq![
                    "-t"@,
                    "nat"@,
                    "-I"@,
                    "POSTROUTING"@,
                    "1"@,
                    "-j"@,
                    masquerading,
                ],
                mode: RunModeV2::MustSucceed,
            })
            &&& plan[10 + count] == (CommandModel {
                program,
                arguments: seq!["-t"@, "mangle"@, "-I"@, "PREROUTING"@, "1"@, "-j"@, marking],
                mode: RunModeV2::MustSucceed,
            })
        }),
{
    let plan = generation_commands(program, tun_name, prefixes, slot);
    let count = prefixes.len() as int;
    assert(plan[6].arguments =~= seq!["-t"@, "mangle"@, "-N"@, marking_chain(slot)]);
    assert(plan[8].arguments =~= seq!["-t"@, "nat"@, "-N"@, masquerading_chain(slot)]);
    assert forall|i: int| 0 <= i < plan.len() implies (#[trigger] plan[i]).program == program by {
        let switch = super::masquerade::generation_switch(program, slot);
        if i >= 9 + count {
            assert(switch.len() == 14);
            assert(plan[i] == switch[i - 9 - count]);
        }
    }
}

/// Three commands take a chain away: its jump as often as there is one, its
/// rules, and the chain itself, none of which has to succeed.
pub open spec fn takes_away(
    plan: Seq<CommandModel>,
    at: int,
    program: ProgramV2,
    table: Seq<char>,
    hook: Seq<char>,
    chain: Seq<char>,
) -> bool {
    &&& 0 <= at
    &&& at + 3 <= plan.len()
    &&& plan[at] == (CommandModel {
        program,
        arguments: seq!["-t"@, table, "-D"@, hook, "-j"@, chain],
        mode: RunModeV2::UntilFailure { limit: None },
    })
    &&& plan[at + 1] == (CommandModel {
        program,
        arguments: seq!["-t"@, table, "-F"@, chain],
        mode: RunModeV2::MayFail,
    })
    &&& plan[at + 2] == (CommandModel {
        program,
        arguments: seq!["-t"@, table, "-X"@, chain],
        mode: RunModeV2::MayFail,
    })
}

/// A generation starts by taking away what is left of its own chains and ends by
/// taking away those of the other slot and of the unnumbered generation.
pub proof fn lemma_generation_takes_the_other_away(
    program: ProgramV2,
    tun_name: Seq<char>,
    prefixes: Seq<IpNet>,
    slot: int,
)
    requires
        slot == 0 || slot == 1,
    ensures
        ({
            let plan = generation_commands(program, tun_name, prefixes, slot);
            let count = prefixes.len() as int;
            let mangle = "mangle"@;
            let before = "PREROUTING"@;
            let nat_table = "nat"@;
            let after = "POSTROUTING"@;
            &&& takes_away(plan, 0, program, mangle, before, marking_chain(slot))
            &&& takes_away(plan, 3, program, nat_table, after, masquerading_chain(slot))
            &&& takes_away(plan, 11 + count, program, mangle, before, marking_chain(1 - slot))
            &&& takes_away(
                plan,
                14 + count,
                program,
                nat_table,
                after,
                masquerading_chain(1 - slot),
            )
            &&& takes_away(plan, 17 + count, program, mangle, before, "IRONET_V2_NAT_IN"@)
            &&& takes_away(plan, 20 + count, program, nat_table, after, "IRONET_V2_NAT_OUT"@)
        }),
{
    let plan = generation_commands(program, tun_name, prefixes, slot);
    let count = prefixes.len() as int;
    let switch = super::masquerade::generation_switch(program, slot);
    assert(switch.len() == 14);
    assert forall|i: int| 0 <= i < 14 implies #[trigger] plan[9 + count + i] == switch[i] by {}
    assert(plan[9 + count + 2] == switch[2]);
    assert(plan[9 + count + 3] == switch[3]);
    assert(plan[9 + count + 4] == switch[4]);
    assert(plan[9 + count + 5] == switch[5]);
    assert(plan[9 + count + 6] == switch[6]);
    assert(plan[9 + count + 7] == switch[7]);
    assert(plan[9 + count + 8] == switch[8]);
    assert(plan[9 + count + 9] == switch[9]);
    assert(plan[9 + count + 10] == switch[10]);
    assert(plan[9 + count + 11] == switch[11]);
    assert(plan[9 + count + 12] == switch[12]);
    assert(plan[9 + count + 13] == switch[13]);
}

/// Cleaning up a family takes away the marking and masquerading chains of both
/// slots and of the unnumbered generation, and nothing else.
pub proof fn lemma_family_cleanup_takes_every_chain(program: ProgramV2)
    ensures
        ({
            let plan = family_removal(program);
            let mangle = "mangle"@;
            let before = "PREROUTING"@;
            let nat_table = "nat"@;
            let after = "POSTROUTING"@;
            &&& plan.len() == 18
            &&& takes_away(plan, 0, program, mangle, before, "IRONET_V2_NAT_IN_A"@)
            &&& takes_away(plan, 3, program, mangle, before, "IRONET_V2_NAT_IN_B"@)
            &&& takes_away(plan, 6, program, mangle, before, "IRONET_V2_NAT_IN"@)
            &&& takes_away(plan, 9, program, nat_table, after, "IRONET_V2_NAT_OUT_A"@)
            &&& takes_away(plan, 12, program, nat_table, after, "IRONET_V2_NAT_OUT_B"@)
            &&& takes_away(plan, 15, program, nat_table, after, "IRONET_V2_NAT_OUT"@)
        }),
{
}

/// The next generation stands in the other slot than the active one, and in the
/// first where none is active.
pub proof fn lemma_generations_alternate(active: Option<usize>)
    ensures
        active == Some(0usize) ==> next_slot_of(active) == 1,
        active == Some(1usize) ==> next_slot_of(active) == 0,
        active is None ==> next_slot_of(active) == 0,
{
}

/// Each family is masqueraded by its own program and only for its own prefixes:
/// a generation in the slot that is not active where there are prefixes and
/// masquerading is on; a cleanup where the family has none of them; and a
/// cleanup of owned chains only where it is off or there are no prefixes at all.
pub proof fn lemma_families_are_masqueraded_apart(
    ipv6: bool,
    tun_name: Seq<char>,
    prefixes: Seq<IpNet>,
    enabled: bool,
    seen: NatObservationV2,
)
    ensures
        ({
            let commands = family_commands(ipv6, tun_name, prefixes, enabled, seen);
            let own = of_family(prefixes, ipv6);
            let program = if ipv6 {
                ProgramV2::Ip6tables
            } else {
                ProgramV2::Iptables
            };
            let slot: int = if seen.active_slot == Some(0usize) {
                1
            } else {
                0
            };
            let active = enabled && prefixes.len() > 0;
            &&& forall|i: int|
                0 <= i < own.len() ==> (#[trigger] own[i]).addr.is_ipv6() == ipv6
                    && prefixes.contains(own[i])
            &&& forall|k: int|
                0 <= k < prefixes.len() && (#[trigger] prefixes[k]).addr.is_ipv6() == ipv6
                    ==> own.contains(prefixes[k])
            &&& active && own.len() > 0 ==> commands == generation_commands(
                program,
                tun_name,
                own,
                slot,
            )
            &&& active && own.len() == 0 && seen.available ==> commands == family_removal(program)
            &&& active && own.len() == 0 && !seen.available ==> commands.len() == 0
            &&& !active && seen.available && seen.owned ==> commands == family_removal(program)
            &&& !active && !(seen.available && seen.owned) ==> commands.len() == 0
        }),
{
    let own = of_family(prefixes, ipv6);
    let keep = |prefix: IpNet| prefix.addr.is_ipv6() == ipv6;
    assert forall|i: int| 0 <= i < own.len() implies (#[trigger] own[i]).addr.is_ipv6() == ipv6
        && prefixes.contains(own[i]) by {
        prefixes.lemma_filter_pred(keep, i);
        assert(keep(own[i]));
        assert(own.contains(own[i]));
        prefixes.lemma_filter_contains_rev(keep, own[i]);
    }
    assert forall|k: int|
        0 <= k < prefixes.len() && (#[trigger] prefixes[k]).addr.is_ipv6() == ipv6 implies
        own.contains(prefixes[k]) by {
        prefixes.lemma_filter_contains(keep, k);
    }
}

/// Forwarding is switched on for exactly the families that have prefixes.
pub proof fn lemma_forwarding_follows_the_families(prefixes: Seq<IpNet>)
    ensures
        ({
            let commands = forwarding_commands(prefixes);
            let four = CommandModel {
                program: ProgramV2::Sysctl,
                arguments: seq!["-q"@, "-w"@, "net.ipv4.ip_forward=1"@],
                mode: RunModeV2::MustSucceed,
            };
            let six = CommandModel {
                program: ProgramV2::Sysctl,
                arguments: seq!["-q"@, "-w"@, "net.ipv6.conf.all.forwarding=1"@],
                mode: RunModeV2::MustSucceed,
            };
            let any_four = of_family(prefixes, false).len() > 0;
            let any_six = of_family(prefixes, true).len() > 0;
            &&& any_four && any_six ==> commands == seq![four, six]
            &&& any_four && !any_six ==> commands == seq![four]
            &&& !any_four && any_six ==> commands == seq![six]
            &&& !any_four && !any_six ==> commands.len() == 0
        }),
{
    let commands = forwarding_commands(prefixes);
}

/// The preferred source of a route has the family of its prefix: with a source
/// of each family in the policy, the command for an IPv6 prefix ends in `src`
/// and the text of the IPv6 source, that for an IPv4 prefix in `src` and the
/// text of the IPv4 source.
pub proof fn lemma_route_source_has_the_prefix_family(
    policy: KernelRoutePolicyV2,
    prefix: IpNet,
    local_v4: IpAddr,
    local_v6: IpAddr,
)
    requires
        policy.ipv4_source == Some(local_v4),
        policy.ipv6_source == Some(local_v6),
    ensures
        ({
            let command = replace_route_command(policy, prefix);
            let words = command.arguments;
            &&& command.program == ProgramV2::Ip
            &&& command.mode == RunModeV2::MustSucceed
            &&& prefix.addr is V6 ==> words == seq![
                "-6"@,
                "route"@,
                "replace"@,
                "table"@,
                decimal_text(policy.table as int),
                prefix_text(prefix),
                "dev"@,
                policy.tun_name@,
                "proto"@,
                "100"@,
                "src"@,
                address_text(local_v6),
            ]
            &&& prefix.addr is V4 ==> words == seq![
                "-4"@,
                "route"@,
                "replace"@,
                "table"@,
                decimal_text(policy.table as int),
                prefix_text(prefix),
                "dev"@,
                policy.tun_name@,
                "proto"@,
                "100"@,
                "src"@,
                address_text(local_v4),
            ]
            &&& words[10] == "src"@
            &&& words.last() == address_text(
                if prefix.addr is V6 {
                    local_v6
                } else {
                    local_v4
                },
            )
        }),
{
}

/// A route without a source of its family names none.
pub proof fn lemma_route_without_source_names_none(policy: KernelRoutePolicyV2, prefix: IpNet)
    requires
        prefix.addr is V6 ==> policy.ipv6_source is None,
        prefix.addr is V4 ==> policy.ipv4_source is None,
    ensures
        replace_route_command(policy, prefix).arguments.len() == 10,
        replace_route_command(policy, prefix).arguments[9] == "100"@,
{
}

/// Deleting a route names the family, table, prefix and protocol under which it
/// was installed, and may fail.
pub proof fn lemma_route_is_deleted_where_it_was_installed(
    policy: KernelRoutePolicyV2,
    prefix: IpNet,
)
    ensures
        ({
            let installed = replace_route_command(policy, prefix).arguments;
            let deleted = delete_route_in_command(prefix, policy.table);
            &&& deleted.program == ProgramV2::Ip
            &&& deleted.mode == RunModeV2::MayFail
            &&& deleted.arguments == seq![
                installed[0],
                "route"@,
                "del"@,
                installed[3],
                installed[4],
                installed[5],
                installed[8],
                installed[9],
            ]
            &&& installed[0] == (if prefix.addr is V6 {
                "-6"@
            } else {
                "-4"@
            })
            &&& installed[4] == decimal_text(policy.table as int)
        }),
{
}

/// A rule is removed under the family, priority and table under which it was
/// added, at most 32 times.
pub proof fn lemma_rules_are_removed_as_they_were_added(ipv6: bool, priority: u32, table: u32)
    requires
        table != 254,
    ensures
        ({
            let added = add_rule_command(ipv6, priority, table);
            let removed = remove_rule_command(ipv6, priority, table);
            let family = if ipv6 {
                "-6"@
            } else {
                "-4"@
            };
            &&& added.program == ProgramV2::Ip
            &&& removed.program == ProgramV2::Ip
            &&& added.mode == RunModeV2::MustSucceed
            &&& removed.mode == (RunModeV2::UntilFailure { limit: Some(32u32) })
            &&& added.arguments == seq![
                family,
                "rule"@,
                "add"@,
                "priority"@,
                decimal_text(priority as int),
                "lookup"@,
                decimal_text(table as int),
                "protocol"@,
                "static"@,
            ]
            &&& removed.arguments == seq![
                family,
                "rule"@,
                "del"@,
                "priority"@,
                decimal_text(priority as int),
                "lookup"@,
                decimal_text(table as int),
            ]
        }),
{
}

/// A rule for an underlay host sends its traffic to the main table, and is
/// removed under the same family, priority and host.
pub proof fn lemma_underlay_rules_bypass_the_overlay(address: IpAddr, priority: u32)
    ensures
        ({
            let added = add_underlay_rule_command(address, priority);
            let removed = remove_underlay_rule_command(address, priority);
            let family = if address is V6 {
                "-6"@
            } else {
                "-4"@
            };
            let bits = if address is V6 {
                128u8
            } else {
                32u8
            };
            let host = prefix_text(IpNet { addr: address, prefix_len: bits });
            &&& added.program == ProgramV2::Ip
            &&& removed.program == ProgramV2::Ip
            &&& added.mode == RunModeV2::MustSucceed
            &&& removed.mode == (RunModeV2::UntilFailure { limit: Some(32u32) })
            &&& added.arguments == seq![
                family,
                "rule"@,
                "add"@,
                "priority"@,
                decimal_text(priority as int),
                "to"@,
                host,
                "lookup"@,
                "main"@,
                "protocol"@,
                "static"@,
            ]
            &&& removed.arguments == seq![
                family,
                "rule"@,
                "del"@,
                "priority"@,
                decimal_text(priority as int),
                "to"@,
                host,
                "lookup"@,
                "main"@,
            ]
        }),
{
}

/// An isolated overlay gets, for either family, its rule in place of what was
/// left of it, and one rule per underlay host at the priority just before; an
/// overlay that is not isolated gets none.
pub proof fn lemma_isolation_installs_its_rules(policy: KernelRoutePolicyV2)
    requires
        policy.rule_priority > 0,
    ensures
        ({
            let plan = policy.install_commands();
            let hosts = policy.underlay_addresses@;
            let before = (policy.rule_priority - 1) as u32;
            &&& !policy.isolate_overlay ==> plan.len() == 0
            &&& policy.isolate_overlay ==> {
                &&& plan.len() == 4 + 2 * hosts.len()
                &&& plan[0] == remove_rule_command(false, policy.rule_priority, policy.table)
                &&& plan[1] == add_rule_command(false, policy.rule_priority, policy.table)
                &&& plan[2] == remove_rule_command(true, policy.rule_priority, policy.table)
                &&& plan[3] == add_rule_command(true, policy.rule_priority, policy.table)
                &&& forall|k: int|
                    0 <= k < hosts.len() ==> plan[4 + 2 * k] == remove_underlay_rule_command(
                        #[trigger] hosts[k],
                        before,
                    ) && plan[5 + 2 * k] == add_underlay_rule_command(hosts[k], before)
            }
        }),
{
    let hosts = policy.underlay_addresses@;
    let before = (policy.rule_priority - 1) as u32;
    lemma_underlay_rules_in_pairs(hosts, before);
    assert(underlay_priority(policy.rule_priority) == before);
}

/// The underlay rules come in pairs, host by host.
proof fn lemma_underlay_rules_in_pairs(hosts: Seq<IpAddr>, priority: u32)
    ensures
        underlay_rules(hosts, priority).len() == 2 * hosts.len(),
        forall|k: int|
            0 <= k < hosts.len() ==> underlay_rules(hosts, priority)[2 * k]
                == remove_underlay_rule_command(#[trigger] hosts[k], priority) && underlay_rules(
                hosts,
                priority,
            )[2 * k + 1] == add_underlay_rule_command(hosts[k], priority),
    decreases hosts.len(),
{
    if hosts.len() > 0 {
        let rest = hosts.drop_last();
        lemma_underlay_rules_in_pairs(rest, priority);
        assert forall|k: int| 0 <= k < hosts.len() implies underlay_rules(hosts, priority)[2 * k]
            == remove_underlay_rule_command(#[trigger] hosts[k], priority) && underlay_rules(
            hosts,
            priority,
        )[2 * k + 1] == add_underlay_rule_command(hosts[k], priority) by {
            if k < rest.len() {
                assert(rest[k] == hosts[k]);
            }
        }
    }
}

/// Cleaning up flushes the overlay's routes of both families from its table, and
/// for an isolated overlay removes exactly the rules that installing adds.
pub proof fn lemma_cleanup_undoes_the_installation(policy: KernelRoutePolicyV2)
    requires
        policy.rule_priority > 0,
    ensures
        ({
            let plan = policy.cleanup_commands();
            let hosts = policy.underlay_addresses@;
            let before = (policy.rule_priority - 1) as u32;
            let table = decimal_text(policy.table as int);
            &&& plan[0] == (CommandModel {
                program: ProgramV2::Ip,
                arguments: seq!["-4"@, "route"@, "flush"@, "table"@, table, "proto"@, "100"@],
                mode: RunModeV2::MayFail,
            })
            &&& plan[1] == (CommandModel {
                program: ProgramV2::Ip,
                arguments: seq!["-6"@, "route"@, "flush"@, "table"@, table, "proto"@, "100"@],
                mode: RunModeV2::MayFail,
            })
            &&& !policy.isolate_overlay ==> plan.len() == 2
            &&& policy.isolate_overlay ==> {
                &&& plan.len() == 4 + hosts.len()
                &&& plan[2] == remove_rule_command(false, policy.rule_priority, policy.table)
                &&& plan[3] == remove_rule_command(true, policy.rule_priority, policy.table)
                &&& forall|k: int|
                    0 <= k < hosts.len() ==> plan[4 + k] == remove_underlay_rule_command(
                        #[trigger] hosts[k],
                        before,
                    )
            }
        }),
{
    let plan = policy.cleanup_commands();
    let table = decimal_text(policy.table as int);
    assert(plan[0] == flush_routes_command(false, policy.table));
    assert(plan[1] == flush_routes_command(true, policy.table));
    assert(plan[0].arguments =~= seq![
        "-4"@,
        "route"@,
        "flush"@,
        "table"@,
        table,
        "proto"@,
        "100"@,
    ]);
    assert(plan[1].arguments =~= seq![
        "-6"@,
        "route"@,
        "flush"@,
        "table"@,
        table,
        "proto"@,
        "100"@,
    ]);
    assert(underlay_removals(policy.underlay_addresses@, underlay_priority(policy.rule_priority))
        .len() == policy.underlay_addresses@.len());
}

/// A tunnel is configured in order: what is left of an earlier one goes, the
/// interface comes up with a bounded queue and one host address per family, the
/// policy is installed, and every route follows.
pub proof fn lemma_tunnel_is_configured_in_order(
    policy: KernelRoutePolicyV2,
    local_v4: IpAddr,
    local_v6: IpAddr,
    routes: Seq<IpNet>,
)
    requires
        local_v4 is V4,
        local_v6 is V6,
    ensures
        ({
            let plan = tunnel_commands(policy, local_v4, local_v6, routes);
            let start = policy.cleanup_commands().len() as int;
            let rules = policy.install_commands().len() as int;
            let tun = policy.tun_name@;
            &&& plan.len() == start + 4 + rules + routes.len()
            &&& plan.take(start) == policy.cleanup_commands()
            &&& plan[start].program == ProgramV2::Ip
            &&& plan[start].arguments == seq!["link"@, "set"@, "dev"@, tun, "up"@]
            &&& plan[start + 1].program == ProgramV2::Tc
            &&& plan[start + 1].arguments == seq![
                "qdisc"@,
                "replace"@,
                "dev"@,
                tun,
                "root"@,
                "fq_codel"@,
                "limit"@,
                decimal_text(1_024),
                "memory_limit"@,
                decimal_text(1_048_576),
                "ecn"@,
            ]
            &&& plan[start + 2].arguments == seq![
                "-4"@,
                "address"@,
                "replace"@,
                prefix_text(IpNet { addr: local_v4, prefix_len: 32 }),
                "dev"@,
                tun,
            ]
            &&& plan[start + 3].arguments == seq![
                "-6"@,
                "address"@,
                "replace"@,
                prefix_text(IpNet { addr: local_v6, prefix_len: 128 }),
                "dev"@,
                tun,
            ]
            &&& plan.subrange(start + 4, start + 4 + rules) == policy.install_commands()
            &&& forall|k: int|
                0 <= k < routes.len() ==> plan[start + 4 + rules + k] == replace_route_command(
                    policy,
                    #[trigger] routes[k],
                )
        }),
{
    let plan = tunnel_commands(policy, local_v4, local_v6, routes);
    let cleanup = policy.cleanup_commands();
    let install = policy.install_commands();
    let start = cleanup.len() as int;
    let rules = install.len() as int;
    let tun = policy.tun_name@;
    assert(plan.take(start) =~= cleanup);
    assert(plan[start] == link_up_command(tun));
    assert(plan[start + 1] == egress_aqm_command(tun));
    assert(plan[start + 2] == replace_address_command(tun, local_v4));
    assert(plan[start + 3] == replace_address_command(tun, local_v6));
    assert(plan.subrange(start + 4, start + 4 + rules) =~= install);
    assert forall|k: int| 0 <= k < routes.len() implies plan[start + 4 + rules + k]
        == replace_route_command(policy, #[trigger] routes[k]) by {
        assert(replace_routes(policy, routes)[k] == replace_route_command(policy, routes[k]));
    }
}

/// The first address of a family is one of that family from the list, and there
/// is none only where the list has none.
pub proof fn lemma_first_address_has_its_family(addresses: Seq<IpNet>, ipv6: bool)
    ensures
        match first_of_family(addresses, ipv6) {
            Some(address) => exists|i: int|
                0 <= i < addresses.len() && (#[trigger] addresses[i]).addr == address && (address
                    is V6) == ipv6 && forall|j: int|
                    0 <= j < i ==> ((#[trigger] addresses[j]).addr is V6) != ipv6,
            None => forall|j: int|
                0 <= j < addresses.len() ==> ((#[trigger] addresses[j]).addr is V6) != ipv6,
        },
    decreases addresses.len(),
{
    if addresses.len() > 0 {
        let rest = addresses.skip(1);
        if (addresses[0].addr is V6) != ipv6 {
            lemma_first_address_has_its_family(rest, ipv6);
            assert forall|j: int| 0 < j < addresses.len() implies (
            #[trigger] addresses[j]) == rest[j - 1] by {}
            if let Some(address) = first_of_family(rest, ipv6) {
                let i = choose|i: int|
                    0 <= i < rest.len() && (#[trigger] rest[i]).addr == address && (address is V6)
                        == ipv6 && forall|j: int|
                        0 <= j < i ==> ((#[trigger] rest[j]).addr is V6) != ipv6;
                assert(addresses[i + 1].addr == address);
                assert forall|j: int| 0 <= j < i + 1 implies ((#[trigger] addresses[j]).addr is V6)
                    != ipv6 by {
                    if j > 0 {
                        assert(addresses[j] == rest[j - 1]);
                    }
                }
            }
        } else {
            assert(addresses[0].addr == first_of_family(addresses, ipv6).unwrap());
        }
    }
}

/// The derived IPv4 address is 100.64.0.0 plus the low 22 bits of the digest's
/// first four bytes.
pub proof fn lemma_derived_ipv4_takes_four_bytes(digest: Seq<u8>)
    requires
        digest.len() == 32,
    ensures
        overlay_ipv4_of(digest) == 0x6440_0000 + (digest[0] * 0x100_0000 + digest[1] * 0x1_0000
            + digest[2] * 0x100 + digest[3]) % 0x40_0000,
{
    let four = digest.take(4);
    reveal_with_fuel(big_endian_value, 5);
    assert(four.drop_last() =~= digest.take(3));
    assert(four.drop_last().drop_last() =~= digest.take(2));
    assert(four.drop_last().drop_last().drop_last() =~= digest.take(1));
    assert(four.drop_last().drop_last().drop_last().drop_last() =~= digest.take(0));
}

/// The derived IPv6 address is fd followed by the digest's second to sixteenth
/// byte.
pub proof fn lemma_derived_ipv6_takes_fifteen_bytes(digest: Seq<u8>, octets: Seq<u8>)
    requires
        digest.len() == 32,
        octets.len() == 16,
        octets[0] == 0xfd,
        forall|i: int| 1 <= i < 16 ==> #[trigger] octets[i] == digest[i],
    ensures
        overlay_ipv6_of(digest) == big_endian_value(octets),
{
    assert(octets =~= seq![0xfdu8] + digest.subrange(1, 16));
}

/// The digest behind an IPv4 address covers the domain `ironet-v2-overlay-ipv4`,
/// the length of the network's name in eight bytes, the name and the endpoint;
/// that behind an IPv6 address covers the name and the endpoint.
pub proof fn lemma_addresses_cover_network_and_endpoint(
    network_id: Seq<char>,
    endpoint: Seq<u8>,
)
    ensures
        ({
            let name = vstd::utf8::encode_utf8(network_id);
            let four = overlay_ipv4_input(network_id, endpoint);
            let six = overlay_input(network_id, endpoint);
            &&& six.len() == name.len() + endpoint.len()
            &&& six.take(name.len() as int) == name
            &&& six.skip(name.len() as int) == endpoint
            &&& four.len() == 30 + name.len() + endpoint.len()
            &&& four.subrange(30, 30 + name.len() as int) == name
            &&& four.skip(30 + name.len() as int) == endpoint
            &&& "ironet-v2-overlay-ipv4"@.len() == 22
            &&& forall|i: int|
                0 <= i < 22 ==> (#[trigger] four[i]) as int
                    == "ironet-v2-overlay-ipv4"@[i] as int
            &&& name.len() < 0x100 ==> four[29] == name.len() && forall|i: int|
                22 <= i < 29 ==> #[trigger] four[i] == 0
        }),
{
    let name = vstd::utf8::encode_utf8(network_id);
    let four = overlay_ipv4_input(network_id, endpoint);
    let six = overlay_input(network_id, endpoint);
    assert(six.take(name.len() as int) =~= name);
    assert(six.skip(name.len() as int) =~= endpoint);
    assert(four.subrange(30, 30 + name.len() as int) =~= name);
    assert(four.skip(30 + name.len() as int) =~= endpoint);
    reveal_strlit("ironet-v2-overlay-ipv4");
    assert forall|i: int| 0 <= i < 22 implies (#[trigger] four[i]) as int
        == "ironet-v2-overlay-ipv4"@[i] as int by {
        assert(four[i] == overlay_ipv4_domain()[i]);
    }
}

} // verus!
