//! The firewall commands that masquerade traffic into advertised prefixes.

use vstd::prelude::*;

use super::kernel::{
    models, push_command, push_commands, CommandModel, CommandV2, ProgramV2, RunModeV2,
};
use crate::config::all_wf;
use crate::net::IpNet;
use crate::prefix::{format_prefix, prefix_text};
use crate::text::push_word;

verus! {

/// The mark of connections that entered through the TUN interface.
pub open spec fn connmark() -> Seq<char> {
    "0x20000000/0x20000000"@
}

/// The firewall program of a family.
pub open spec fn firewall_of(ipv6: bool) -> ProgramV2 {
    if ipv6 {
        ProgramV2::Ip6tables
    } else {
        ProgramV2::Iptables
    }
}

/// The ingress chain of a slot.
pub open spec fn ingress_chain(slot: int) -> Seq<char> {
    if slot == 0 {
        "IRONET_V2_NAT_IN_A"@
    } else {
        "IRONET_V2_NAT_IN_B"@
    }
}

/// The egress chain of a slot.
pub open spec fn egress_chain(slot: int) -> Seq<char> {
    if slot == 0 {
        "IRONET_V2_NAT_OUT_A"@
    } else {
        "IRONET_V2_NAT_OUT_B"@
    }
}

/// The ingress chain without a slot, which a host may still carry.
pub open spec fn legacy_ingress_chain() -> Seq<char> {
    "IRONET_V2_NAT_IN"@
}

/// The egress chain without a slot, which a host may still carry.
pub open spec fn legacy_egress_chain() -> Seq<char> {
    "IRONET_V2_NAT_OUT"@
}

/// The firewall program of a family.
fn firewall(ipv6: bool) -> (r: ProgramV2)
    ensures
        r == firewall_of(ipv6),
{
    if ipv6 {
        ProgramV2::Ip6tables
    } else {
        ProgramV2::Iptables
    }
}

/// The ingress chain of a slot.
pub fn nat_ingress_chain(slot: usize) -> (r: &'static str)
    ensures
        r@ == ingress_chain(slot as int),
{
    if slot == 0 {
        "IRONET_V2_NAT_IN_A"
    } else {
        "IRONET_V2_NAT_IN_B"
    }
}

/// The egress chain of a slot.
pub fn nat_egress_chain(slot: usize) -> (r: &'static str)
    ensures
        r@ == egress_chain(slot as int),
{
    if slot == 0 {
        "IRONET_V2_NAT_OUT_A"
    } else {
        "IRONET_V2_NAT_OUT_B"
    }
}

/// Remove every jump from a hook to a chain.
pub open spec fn delete_jump_command(
    program: ProgramV2,
    table: Seq<char>,
    hook: Seq<char>,
    chain: Seq<char>,
) -> CommandModel {
    CommandModel {
        program: program,
        arguments: seq![
            "-t"@,
            table,
            "-D"@,
            hook,
            "-j"@,
            chain,
        ],
        mode: RunModeV2::UntilFailure { limit: None },
    }
}

/// Remove every jump from a hook to a chain.
fn delete_jump(program: ProgramV2, table: &str, hook: &str, chain: &str) -> (r: CommandV2)
    ensures
        r.model() == delete_jump_command(program, table@, hook@, chain@),
{
    let mut arguments: Vec<String> = Vec::new();
    push_word(&mut arguments, "-t");
    push_word(&mut arguments, table);
    push_word(&mut arguments, "-D");
    push_word(&mut arguments, hook);
    push_word(&mut arguments, "-j");
    push_word(&mut arguments, chain);
    let r: CommandV2 = CommandV2 { program: program, arguments, mode: RunModeV2::UntilFailure { limit: None } };
    assert(r.model() =~= delete_jump_command(program, table@, hook@, chain@));
    r
}

/// Empty a chain.
pub open spec fn flush_chain_command(
    program: ProgramV2,
    table: Seq<char>,
    chain: Seq<char>,
) -> CommandModel {
    CommandModel {
        program: program,
        arguments: seq![
            "-t"@,
            table,
            "-F"@,
            chain,
        ],
        mode: RunModeV2::MayFail,
    }
}

/// Empty a chain.
fn flush_chain(program: ProgramV2, table: &str, chain: &str) -> (r: CommandV2)
    ensures
        r.model() == flush_chain_command(program, table@, chain@),
{
    let mut arguments: Vec<String> = Vec::new();
    push_word(&mut arguments, "-t");
    push_word(&mut arguments, table);
    push_word(&mut arguments, "-F");
    push_word(&mut arguments, chain);
    let r: CommandV2 = CommandV2 { program: program, arguments, mode: RunModeV2::MayFail };
    assert(r.model() =~= flush_chain_command(program, table@, chain@));
    r
}

/// Drop a chain.
pub open spec fn drop_chain_command(
    program: ProgramV2,
    table: Seq<char>,
    chain: Seq<char>,
) -> CommandModel {
    CommandModel {
        program: program,
        arguments: seq![
            "-t"@,
            table,
            "-X"@,
            chain,
        ],
        mode: RunModeV2::MayFail,
    }
}

/// Drop a chain.
fn drop_chain(program: ProgramV2, table: &str, chain: &str) -> (r: CommandV2)
    ensures
        r.model() == drop_chain_command(program, table@, chain@),
{
    let mut arguments: Vec<String> = Vec::new();
    push_word(&mut arguments, "-t");
    push_word(&mut arguments, table);
    push_word(&mut arguments, "-X");
    push_word(&mut arguments, chain);
    let r: CommandV2 = CommandV2 { program: program, arguments, mode: RunModeV2::MayFail };
    assert(r.model() =~= drop_chain_command(program, table@, chain@));
    r
}

/// Create a chain.
pub open spec fn new_chain_command(
    program: ProgramV2,
    table: Seq<char>,
    chain: Seq<char>,
) -> CommandModel {
    CommandModel {
        program: program,
        arguments: seq![
            "-t"@,
            table,
            "-N"@,
            chain,
        ],
        mode: RunModeV2::MustSucceed,
    }
}

/// Create a chain.
fn new_chain(program: ProgramV2, table: &str, chain: &str) -> (r: CommandV2)
    ensures
        r.model() == new_chain_command(program, table@, chain@),
{
    let mut arguments: Vec<String> = Vec::new();
    push_word(&mut arguments, "-t");
    push_word(&mut arguments, table);
    push_word(&mut arguments, "-N");
    push_word(&mut arguments, chain);
    let r: CommandV2 = CommandV2 { program: program, arguments, mode: RunModeV2::MustSucceed };
    assert(r.model() =~= new_chain_command(program, table@, chain@));
    r
}

/// Mark connections that enter through the interface.
pub open spec fn mark_ingress_command(
    program: ProgramV2,
    chain: Seq<char>,
    tun_name: Seq<char>,
) -> CommandModel {
    CommandModel {
        program: program,
        arguments: seq![
            "-t"@,
            "mangle"@,
            "-A"@,
            chain,
            "-i"@,
            tun_name,
            "-j"@,
            "CONNMARK"@,
            "--set-xmark"@,
            connmark(),
        ],
        mode: RunModeV2::MustSucceed,
    }
}

/// Mark connections that enter through the interface.
fn mark_ingress(program: ProgramV2, chain: &str, tun_name: &str) -> (r: CommandV2)
    ensures
        r.model() == mark_ingress_command(program, chain@, tun_name@),
{
    let mut arguments: Vec<String> = Vec::new();
    push_word(&mut arguments, "-t");
    push_word(&mut arguments, "mangle");
    push_word(&mut arguments, "-A");
    push_word(&mut arguments, chain);
    push_word(&mut arguments, "-i");
    push_word(&mut arguments, tun_name);
    push_word(&mut arguments, "-j");
    push_word(&mut arguments, "CONNMARK");
    push_word(&mut arguments, "--set-xmark");
    push_word(&mut arguments, "0x20000000/0x20000000");
    let r: CommandV2 = CommandV2 { program: program, arguments, mode: RunModeV2::MustSucceed };
    assert(r.model() =~= mark_ingress_command(program, chain@, tun_name@));
    r
}

/// Masquerade marked connections into a prefix.
pub open spec fn masquerade_command(
    program: ProgramV2,
    chain: Seq<char>,
    prefix: IpNet,
) -> CommandModel {
    CommandModel {
        program: program,
        arguments: seq![
            "-t"@,
            "nat"@,
            "-A"@,
            chain,
            "-m"@,
            "connmark"@,
            "--mark"@,
            connmark(),
            "-d"@,
            prefix_text(prefix),
            "-j"@,
            "MASQUERADE"@,
        ],
        mode: RunModeV2::MustSucceed,
    }
}

/// Masquerade marked connections into a prefix.
fn masquerade(program: ProgramV2, chain: &str, prefix: IpNet) -> (r: CommandV2)
    requires
        prefix.wf(),
    ensures
        r.model() == masquerade_command(program, chain@, prefix),
{
    let mut arguments: Vec<String> = Vec::new();
    let text: String = format_prefix(&prefix);
    push_word(&mut arguments, "-t");
    push_word(&mut arguments, "nat");
    push_word(&mut arguments, "-A");
    push_word(&mut arguments, chain);
    push_word(&mut arguments, "-m");
    push_word(&mut arguments, "connmark");
    push_word(&mut arguments, "--mark");
    push_word(&mut arguments, "0x20000000/0x20000000");
    push_word(&mut arguments, "-d");
    push_word(&mut arguments, text.as_str());
    push_word(&mut arguments, "-j");
    push_word(&mut arguments, "MASQUERADE");
    let r: CommandV2 = CommandV2 { program: program, arguments, mode: RunModeV2::MustSucceed };
    assert(r.model() =~= masquerade_command(program, chain@, prefix));
    r
}

/// Jump from the head of a hook to a chain.
pub open spec fn insert_jump_command(
    program: ProgramV2,
    table: Seq<char>,
    hook: Seq<char>,
    chain: Seq<char>,
) -> CommandModel {
    CommandModel {
        program: program,
        arguments: seq![
            "-t"@,
            table,
            "-I"@,
            hook,
            "1"@,
            "-j"@,
            chain,
        ],
        mode: RunModeV2::MustSucceed,
    }
}

/// Jump from the head of a hook to a chain.
fn insert_jump(program: ProgramV2, table: &str, hook: &str, chain: &str) -> (r: CommandV2)
    ensures
        r.model() == insert_jump_command(program, table@, hook@, chain@),
{
    let mut arguments: Vec<String> = Vec::new();
    push_word(&mut arguments, "-t");
    push_word(&mut arguments, table);
    push_word(&mut arguments, "-I");
    push_word(&mut arguments, hook);
    push_word(&mut arguments, "1");
    push_word(&mut arguments, "-j");
    push_word(&mut arguments, chain);
    let r: CommandV2 = CommandV2 { program: program, arguments, mode: RunModeV2::MustSucceed };
    assert(r.model() =~= insert_jump_command(program, table@, hook@, chain@));
    r
}

/// Let the kernel forward packets of a family.
pub open spec fn set_forwarding_command(ipv6: bool) -> CommandModel {
    CommandModel {
        program: ProgramV2::Sysctl,
        arguments: seq![
            "-q"@,
            "-w"@,
            forwarding_setting(ipv6),
        ],
        mode: RunModeV2::MustSucceed,
    }
}

/// Let the kernel forward packets of a family.
fn set_forwarding(ipv6: bool) -> (r: CommandV2)
    ensures
        r.model() == set_forwarding_command(ipv6),
{
    let mut arguments: Vec<String> = Vec::new();
    push_word(&mut arguments, "-q");
    push_word(&mut arguments, "-w");
    push_word(&mut arguments, forwarding_text(ipv6));
    let r: CommandV2 = CommandV2 { program: ProgramV2::Sysctl, arguments, mode: RunModeV2::MustSucceed };
    assert(r.model() =~= set_forwarding_command(ipv6));
    r
}

/// The kernel setting that enables forwarding.
pub open spec fn forwarding_setting(ipv6: bool) -> Seq<char> {
    if ipv6 {
        "net.ipv6.conf.all.forwarding=1"@
    } else {
        "net.ipv4.ip_forward=1"@
    }
}

/// The kernel setting that enables forwarding.
fn forwarding_text(ipv6: bool) -> (r: &'static str)
    ensures
        r@ == forwarding_setting(ipv6),
{
    if ipv6 {
        "net.ipv6.conf.all.forwarding=1"
    } else {
        "net.ipv4.ip_forward=1"
    }
}

/// The commands that remove a chain and every jump to it.
pub open spec fn chain_removal(
    program: ProgramV2,
    table: Seq<char>,
    hook: Seq<char>,
    chain: Seq<char>,
) -> Seq<CommandModel> {
    seq![
        delete_jump_command(program, table, hook, chain),
        flush_chain_command(program, table, chain),
        drop_chain_command(program, table, chain),
    ]
}

/// Put the commands that remove a chain behind the others.
fn cleanup_v2_nat_chain(
    plan: &mut Vec<CommandV2>,
    program: ProgramV2,
    table: &str,
    hook: &str,
    chain: &str,
)
    ensures
        models(final(plan)@) == models(old(plan)@) + chain_removal(program, table@, hook@, chain@),
{
    let ghost before = models(plan@);
    push_command(plan, delete_jump(program, table, hook, chain));
    push_command(plan, flush_chain(program, table, chain));
    push_command(plan, drop_chain(program, table, chain));
    assert(models(plan@) =~= before + chain_removal(program, table@, hook@, chain@));
}

/// The commands that remove an ingress chain.
pub open spec fn ingress_removal(program: ProgramV2, chain: Seq<char>) -> Seq<CommandModel> {
    chain_removal(program, "mangle"@, "PREROUTING"@, chain)
}

/// The commands that remove an egress chain.
pub open spec fn egress_removal(program: ProgramV2, chain: Seq<char>) -> Seq<CommandModel> {
    chain_removal(program, "nat"@, "POSTROUTING"@, chain)
}

/// The commands that remove everything that any generation of a family owns.
pub open spec fn family_removal(program: ProgramV2) -> Seq<CommandModel> {
    ingress_removal(program, ingress_chain(0)) + ingress_removal(program, ingress_chain(1))
        + ingress_removal(program, legacy_ingress_chain()) + egress_removal(
        program,
        egress_chain(0),
    ) + egress_removal(program, egress_chain(1)) + egress_removal(program, legacy_egress_chain())
}

/// The commands that remove everything that any generation of a family owns.
fn family_cleanup(program: ProgramV2) -> (r: Vec<CommandV2>)
    ensures
        models(r@) == family_removal(program),
{
    let mut plan: Vec<CommandV2> = Vec::new();
    assert(models(plan@) =~= Seq::empty());
    cleanup_v2_nat_chain(&mut plan, program, "mangle", "PREROUTING", nat_ingress_chain(0));
    cleanup_v2_nat_chain(&mut plan, program, "mangle", "PREROUTING", nat_ingress_chain(1));
    cleanup_v2_nat_chain(&mut plan, program, "mangle", "PREROUTING", "IRONET_V2_NAT_IN");
    cleanup_v2_nat_chain(&mut plan, program, "nat", "POSTROUTING", nat_egress_chain(0));
    cleanup_v2_nat_chain(&mut plan, program, "nat", "POSTROUTING", nat_egress_chain(1));
    cleanup_v2_nat_chain(&mut plan, program, "nat", "POSTROUTING", "IRONET_V2_NAT_OUT");
    assert(models(plan@) =~= family_removal(program));
    plan
}

/// What the firewall of one family shows.
#[derive(Clone, Copy, Debug, PartialEq, Eq, Structural)]
pub struct NatObservationV2 {
    /// Whether the firewall program exists.
    pub available: bool,
    /// Whether some generation left owned chains.
    pub owned: bool,
    /// The slot whose ingress chain is hooked.
    pub active_slot: Option<usize>,
}

/// The slot of the next generation: the one that is not active.
pub open spec fn next_slot_of(active_slot: Option<usize>) -> int {
    match active_slot {
        Some(slot) => if slot == 0 {
            1
        } else {
            0
        },
        None => 0,
    }
}

/// The slot of the next generation: the one that is not active.
pub fn next_nat_slot(active_slot: Option<usize>) -> (r: usize)
    ensures
        r == next_slot_of(active_slot),
{
    match active_slot {
        Some(slot) => if slot == 0 {
            1
        } else {
            0
        },
        None => 0,
    }
}

/// Masquerades into each prefix, in order.
pub open spec fn masquerades(
    program: ProgramV2,
    chain: Seq<char>,
    prefixes: Seq<IpNet>,
) -> Seq<CommandModel> {
    prefixes.map_values(|prefix: IpNet| masquerade_command(program, chain, prefix))
}

/// The commands that build the chains of a generation.
pub open spec fn generation_chains(
    program: ProgramV2,
    tun_name: Seq<char>,
    prefixes: Seq<IpNet>,
    slot: int,
) -> Seq<CommandModel> {
    ingress_removal(program, ingress_chain(slot)) + egress_removal(program, egress_chain(slot))
        + seq![
        new_chain_command(program, "mangle"@, ingress_chain(slot)),
        mark_ingress_command(program, ingress_chain(slot), tun_name),
        new_chain_command(program, "nat"@, egress_chain(slot)),
    ] + masquerades(program, egress_chain(slot), prefixes)
}

/// The commands that hook a generation and drop the others.
pub open spec fn generation_switch(program: ProgramV2, slot: int) -> Seq<CommandModel> {
    seq![
        insert_jump_command(program, "nat"@, "POSTROUTING"@, egress_chain(slot)),
        insert_jump_command(program, "mangle"@, "PREROUTING"@, ingress_chain(slot)),
    ] + ingress_removal(program, ingress_chain(1 - slot)) + egress_removal(
        program,
        egress_chain(1 - slot),
    ) + ingress_removal(program, legacy_ingress_chain()) + egress_removal(
        program,
        legacy_egress_chain(),
    )
}

/// Why a generation is refused.
#[derive(Clone, Copy, Debug, PartialEq, Eq, Structural)]
pub enum NatErrorV2 {
    /// There is nothing to masquerade into.
    NoPrefixes,
}

/// The commands of a generation: its chains, then the switch to them.
pub open spec fn generation_commands(
    program: ProgramV2,
    tun_name: Seq<char>,
    prefixes: Seq<IpNet>,
    slot: int,
) -> Seq<CommandModel> {
    generation_chains(program, tun_name, prefixes, slot) + generation_switch(program, slot)
}

/// The commands that install a generation of a family. The active generation
/// stays untouched until both chains of the next one are complete, and the
/// egress decision is hooked before newly marked connections are admitted, so
/// there is no interval without rules.
pub fn install_v2_nat_family(
    ipv6: bool,
    tun_name: &str,
    prefixes: &Vec<IpNet>,
    active_slot: Option<usize>,
) -> (r: Result<Vec<CommandV2>, NatErrorV2>)
    requires
        all_wf(prefixes@),
    ensures
        prefixes@.len() == 0 ==> (r matches Err(error) && error == NatErrorV2::NoPrefixes),
        prefixes@.len() > 0 ==> (r matches Ok(commands) && models(commands@)
            == generation_commands(
            firewall_of(ipv6),
            tun_name@,
            prefixes@,
            next_slot_of(active_slot),
        )),
{
    if prefixes.len() == 0 {
        return Err(NatErrorV2::NoPrefixes);
    }
    Ok(generation_plan(ipv6, tun_name, prefixes, active_slot))
}

/// The commands of the next generation of a family.
fn generation_plan(
    ipv6: bool,
    tun_name: &str,
    prefixes: &Vec<IpNet>,
    active_slot: Option<usize>,
) -> (r: Vec<CommandV2>)
    requires
        all_wf(prefixes@),
    ensures
        models(r@) == generation_commands(
            firewall_of(ipv6),
            tun_name@,
            prefixes@,
            next_slot_of(active_slot),
        ),
{
    let program: ProgramV2 = firewall(ipv6);
    let slot: usize = next_nat_slot(active_slot);
    let ingress: &str = nat_ingress_chain(slot);
    let egress: &str = nat_egress_chain(slot);
    let mut plan: Vec<CommandV2> = Vec::new();
    assert(models(plan@) =~= Seq::empty());
    cleanup_v2_nat_chain(&mut plan, program, "mangle", "PREROUTING", ingress);
    cleanup_v2_nat_chain(&mut plan, program, "nat", "POSTROUTING", egress);
    push_command(&mut plan, new_chain(program, "mangle", ingress));
    push_command(&mut plan, mark_ingress(program, ingress, tun_name));
    push_command(&mut plan, new_chain(program, "nat", egress));
    let ghost first = models(plan@);
    let mut index: usize = 0;
    assert(first =~= first + masquerades(program, egress@, prefixes@.take(0)));
    while index < prefixes.len()
        invariant
            all_wf(prefixes@),
            index <= prefixes@.len(),
            models(plan@) == first + masquerades(program, egress@, prefixes@.take(index as int)),
        decreases prefixes@.len() - index,
    {
        push_command(&mut plan, masquerade(program, egress, prefixes[index]));
        assert(models(plan@) =~= first + masquerades(program, egress@, prefixes@.take(index + 1)));
        index = index + 1;
    }
    proof {
        assert(prefixes@.take(index as int) =~= prefixes@);
        assert(models(plan@) =~= generation_chains(program, tun_name@, prefixes@, slot as int));
    }
    let ghost built = models(plan@);
    push_command(&mut plan, insert_jump(program, "nat", "POSTROUTING", egress));
    push_command(&mut plan, insert_jump(program, "mangle", "PREROUTING", ingress));
    let other: usize = 1 - slot;
    cleanup_v2_nat_chain(&mut plan, program, "mangle", "PREROUTING", nat_ingress_chain(other));
    cleanup_v2_nat_chain(&mut plan, program, "nat", "POSTROUTING", nat_egress_chain(other));
    cleanup_v2_nat_chain(&mut plan, program, "mangle", "PREROUTING", "IRONET_V2_NAT_IN");
    cleanup_v2_nat_chain(&mut plan, program, "nat", "POSTROUTING", "IRONET_V2_NAT_OUT");
    assert(models(plan@) =~= built + generation_switch(program, slot as int));
    plan
}

/// The prefixes of a family, in order.
pub open spec fn of_family(prefixes: Seq<IpNet>, ipv6: bool) -> Seq<IpNet> {
    prefixes.filter(|prefix: IpNet| prefix.addr.is_ipv6() == ipv6)
}

/// The prefixes of a family, in order.
fn family_prefixes(prefixes: &Vec<IpNet>, ipv6: bool) -> (r: Vec<IpNet>)
    requires
        all_wf(prefixes@),
    ensures
        r@ == of_family(prefixes@, ipv6),
        all_wf(r@),
{
    let mut kept: Vec<IpNet> = Vec::new();
    let mut index: usize = 0;
    let ghost keep = |prefix: IpNet| prefix.addr.is_ipv6() == ipv6;
    proof {
        reveal(Seq::filter);
        assert(kept@ =~= prefixes@.take(0).filter(keep));
    }
    while index < prefixes.len()
        invariant
            all_wf(prefixes@),
            all_wf(kept@),
            index <= prefixes@.len(),
            keep == (|prefix: IpNet| prefix.addr.is_ipv6() == ipv6),
            kept@ == prefixes@.take(index as int).filter(keep),
        decreases prefixes@.len() - index,
    {
        proof {
            reveal(Seq::filter);
            assert(prefixes@.take(index + 1).drop_last() =~= prefixes@.take(index as int));
            assert(prefixes@.take(index + 1).last() == prefixes@[index as int]);
        }
        if prefixes[index].addr.is_ipv6() == ipv6 {
            kept.push(prefixes[index]);
        }
        index = index + 1;
    }
    assert(prefixes@.take(index as int) =~= prefixes@);
    kept
}

/// The forwarding that the prefixes need: one command per family that occurs.
pub open spec fn forwarding_commands(prefixes: Seq<IpNet>) -> Seq<CommandModel> {
    (if of_family(prefixes, false).len() > 0 {
        seq![set_forwarding_command(false)]
    } else {
        Seq::empty()
    }) + (if of_family(prefixes, true).len() > 0 {
        seq![set_forwarding_command(true)]
    } else {
        Seq::empty()
    })
}

/// The firewall commands of one family.
pub open spec fn family_commands(
    ipv6: bool,
    tun_name: Seq<char>,
    prefixes: Seq<IpNet>,
    enabled: bool,
    seen: NatObservationV2,
) -> Seq<CommandModel> {
    let own = of_family(prefixes, ipv6);
    if !enabled || prefixes.len() == 0 {
        if seen.available && seen.owned {
            family_removal(firewall_of(ipv6))
        } else {
            Seq::empty()
        }
    } else if own.len() == 0 {
        if seen.available {
            family_removal(firewall_of(ipv6))
        } else {
            Seq::empty()
        }
    } else {
        generation_commands(firewall_of(ipv6), tun_name, own, next_slot_of(seen.active_slot))
    }
}

/// The firewall commands of one family. A node that only routes touches the
/// firewall only where an earlier generation left owned state, so it does not
/// need the tooling.
fn reconcile_family(
    ipv6: bool,
    tun_name: &str,
    prefixes: &Vec<IpNet>,
    enabled: bool,
    seen: NatObservationV2,
) -> (r: Vec<CommandV2>)
    requires
        all_wf(prefixes@),
    ensures
        models(r@) == family_commands(ipv6, tun_name@, prefixes@, enabled, seen),
{
    let none: Vec<CommandV2> = Vec::new();
    assert(models(none@) =~= Seq::empty());
    if !enabled || prefixes.len() == 0 {
        if seen.available && seen.owned {
            return family_cleanup(firewall(ipv6));
        }
        return none;
    }
    let own: Vec<IpNet> = family_prefixes(prefixes, ipv6);
    if own.len() == 0 {
        if seen.available {
            return family_cleanup(firewall(ipv6));
        }
        return none;
    }
    generation_plan(ipv6, tun_name, &own, seen.active_slot)
}

/// The commands that bring forwarding and masquerading to the advertised
/// prefixes.
pub fn reconcile_v2_nat(
    tun_name: &str,
    prefixes: &Vec<IpNet>,
    enabled: bool,
    ipv4_seen: NatObservationV2,
    ipv6_seen: NatObservationV2,
) -> (r: Vec<CommandV2>)
    requires
        all_wf(prefixes@),
    ensures
        models(r@) == forwarding_commands(prefixes@) + family_commands(
            false,
            tun_name@,
            prefixes@,
            enabled,
            ipv4_seen,
        ) + family_commands(true, tun_name@, prefixes@, enabled, ipv6_seen),
{
    let mut plan: Vec<CommandV2> = Vec::new();
    assert(models(plan@) =~= Seq::empty());
    if family_prefixes(prefixes, false).len() > 0 {
        push_command(&mut plan, set_forwarding(false));
    }
    if family_prefixes(prefixes, true).len() > 0 {
        push_command(&mut plan, set_forwarding(true));
    }
    assert(models(plan@) =~= forwarding_commands(prefixes@));
    push_commands(&mut plan, reconcile_family(false, tun_name, prefixes, enabled, ipv4_seen));
    push_commands(&mut plan, reconcile_family(true, tun_name, prefixes, enabled, ipv6_seen));
    plan
}

/// The commands that remove every owned generation, of the families whose
/// program exists.
pub fn cleanup_v2_nat_all(ipv4_available: bool, ipv6_available: bool) -> (r: Vec<CommandV2>)
    ensures
        models(r@) == (if ipv4_available {
            family_removal(ProgramV2::Iptables)
        } else {
            Seq::empty()
        }) + (if ipv6_available {
            family_removal(ProgramV2::Ip6tables)
        } else {
            Seq::empty()
        }),
{
    let mut plan: Vec<CommandV2> = Vec::new();
    let ghost none: Seq<CommandModel> = Seq::empty();
    assert(models(plan@) =~= none);
    if ipv4_available {
        push_commands(&mut plan, family_cleanup(ProgramV2::Iptables));
        assert(models(plan@) =~= family_removal(ProgramV2::Iptables));
    }
    let ghost first = models(plan@);
    assert(first =~= first + none);
    if ipv6_available {
        push_commands(&mut plan, family_cleanup(ProgramV2::Ip6tables));
    }
    plan
}

/// Whether a word stands somewhere in a text.
pub open spec fn mentions(text: Seq<u8>, word: Seq<u8>) -> bool {
    exists|i: int| 0 <= i && #[trigger] stands_at(text, word, i)
}

/// Whether a word stands at a place of a text.
pub open spec fn stands_at(text: Seq<u8>, word: Seq<u8>, at: int) -> bool {
    at + word.len() <= text.len() && text.subrange(at, at + word.len()) == word
}

/// Whether a word stands somewhere in a text.
fn find_word(text: &[u8], word: &[u8]) -> (r: bool)
    ensures
        r == mentions(text@, word@),
{
    if word.len() > text.len() {
        return false;
    }
    let last: usize = text.len() - word.len();
    let mut at: usize = 0;
    loop
        invariant
            last + word@.len() == text@.len(),
            at <= last,
            forall|i: int| 0 <= i < at ==> !#[trigger] stands_at(text@, word@, i),
        decreases last - at,
    {
        if word_at(text, word, at) {
            assert(stands_at(text@, word@, at as int));
            return true;
        }
        if at == last {
            assert forall|i: int| 0 <= i implies !#[trigger] stands_at(text@, word@, i) by {
                if i > last {
                    assert(i + word@.len() > text@.len());
                }
            }
            return false;
        }
        at = at + 1;
    }
}

/// Whether a word stands at a place of a text.
fn word_at(text: &[u8], word: &[u8], at: usize) -> (r: bool)
    requires
        at + word@.len() <= text@.len(),
    ensures
        r == stands_at(text@, word@, at as int),
{
    let total: usize = text.len();
    let mut index: usize = 0;
    while index < word.len()
        invariant
            total == text@.len(),
            at + word@.len() <= total,
            index <= word@.len(),
            forall|i: int| 0 <= i < index ==> text@[at + i] == word@[i],
        decreases word@.len() - index,
    {
        if text[at + index] != word[index] {
            assert(text@.subrange(at as int, at + word@.len())[index as int] != word@[index as int]);
            return false;
        }
        index = index + 1;
    }
    assert(text@.subrange(at as int, at + word@.len()) =~= word@);
    true
}

/// Whether a rule listing holds a chain that some generation owns.
pub open spec fn owns_chain(rules: Seq<char>) -> bool {
    let text = vstd::utf8::encode_utf8(rules);
    ||| mentions(text, vstd::utf8::encode_utf8(ingress_chain(0)))
    ||| mentions(text, vstd::utf8::encode_utf8(ingress_chain(1)))
    ||| mentions(text, vstd::utf8::encode_utf8(egress_chain(0)))
    ||| mentions(text, vstd::utf8::encode_utf8(egress_chain(1)))
    ||| mentions(text, vstd::utf8::encode_utf8(legacy_ingress_chain()))
    ||| mentions(text, vstd::utf8::encode_utf8(legacy_egress_chain()))
}

/// Whether a rule listing holds a chain that some generation owns.
pub fn holds_owned_chain(rules: &str) -> (r: bool)
    ensures
        r == owns_chain(rules@),
{
    let text: &[u8] = rules.as_bytes();
    find_word(text, nat_ingress_chain(0).as_bytes()) || find_word(
        text,
        nat_ingress_chain(1).as_bytes(),
    ) || find_word(text, nat_egress_chain(0).as_bytes()) || find_word(
        text,
        nat_egress_chain(1).as_bytes(),
    ) || find_word(text, "IRONET_V2_NAT_IN".as_bytes()) || find_word(
        text,
        "IRONET_V2_NAT_OUT".as_bytes(),
    )
}

/// The next generation never uses the chains of the active one.
pub proof fn lemma_next_generation_is_inactive(slot: usize)
    requires
        slot < 2,
    ensures
        next_slot_of(Some(slot)) == 1 - slot,
        ingress_chain(next_slot_of(Some(slot))) != ingress_chain(slot as int),
        egress_chain(next_slot_of(Some(slot))) != egress_chain(slot as int),
{
    reveal_strlit("IRONET_V2_NAT_IN_A");
    reveal_strlit("IRONET_V2_NAT_IN_B");
    reveal_strlit("IRONET_V2_NAT_OUT_A");
    reveal_strlit("IRONET_V2_NAT_OUT_B");
    assert("IRONET_V2_NAT_IN_A"@[17] != "IRONET_V2_NAT_IN_B"@[17]);
    assert("IRONET_V2_NAT_OUT_A"@[18] != "IRONET_V2_NAT_OUT_B"@[18]);
}

/// Whether a command removes a chain of a generation or a jump to it.
pub open spec fn removes_generation(
    program: ProgramV2,
    slot: int,
    command: CommandModel,
) -> bool {
    ingress_removal(program, ingress_chain(slot)).contains(command) || egress_removal(
        program,
        egress_chain(slot),
    ).contains(command)
}

/// What removes a chain may fail and names the chain.
proof fn lemma_removal_names_its_chain(
    program: ProgramV2,
    table: Seq<char>,
    hook: Seq<char>,
    chain: Seq<char>,
    command: CommandModel,
)
    requires
        chain_removal(program, table, hook, chain).contains(command),
    ensures
        command.mode != RunModeV2::MustSucceed,
        command.arguments.len() > 0,
        command.arguments.last() == chain,
        command.arguments[1] == table,
{
    let commands = chain_removal(program, table, hook, chain);
    let i = choose|i: int| 0 <= i < commands.len() && commands[i] == command;
    assert(i == 0 || i == 1 || i == 2);
}

/// While a generation replaces another, nothing of the active one goes before
/// both jumps to the next one are in place: there is no interval without rules.
pub proof fn lemma_no_interval_without_rules(
    program: ProgramV2,
    tun_name: Seq<char>,
    prefixes: Seq<IpNet>,
    active: usize,
    at: int,
)
    requires
        active < 2,
        0 <= at < generation_commands(
            program,
            tun_name,
            prefixes,
            next_slot_of(Some(active)),
        ).len(),
        removes_generation(
            program,
            active as int,
            generation_commands(program, tun_name, prefixes, next_slot_of(Some(active)))[at],
        ),
    ensures
        ({
            let next = next_slot_of(Some(active));
            let earlier = generation_commands(program, tun_name, prefixes, next).take(at);
            &&& earlier.contains(
                insert_jump_command(program, "nat"@, "POSTROUTING"@, egress_chain(next)),
            )
            &&& earlier.contains(
                insert_jump_command(program, "mangle"@, "PREROUTING"@, ingress_chain(next)),
            )
        }),
{
    let next = next_slot_of(Some(active));
    let chains = generation_chains(program, tun_name, prefixes, next);
    let plan = generation_commands(program, tun_name, prefixes, next);
    let command = plan[at];
    let own = ingress_removal(program, ingress_chain(next)) + egress_removal(
        program,
        egress_chain(next),
    );
    lemma_next_generation_is_inactive(active);
    reveal_strlit("mangle");
    reveal_strlit("nat");
    assert("mangle"@.len() != "nat"@.len());
    if ingress_removal(program, ingress_chain(active as int)).contains(command) {
        lemma_removal_names_its_chain(
            program,
            "mangle"@,
            "PREROUTING"@,
            ingress_chain(active as int),
            command,
        );
    } else {
        lemma_removal_names_its_chain(
            program,
            "nat"@,
            "POSTROUTING"@,
            egress_chain(active as int),
            command,
        );
    }
    if at < own.len() {
        assert(command == own[at]);
        if at < 3 {
            assert(ingress_removal(program, ingress_chain(next))[at] == command);
            lemma_removal_names_its_chain(
                program,
                "mangle"@,
                "PREROUTING"@,
                ingress_chain(next),
                command,
            );
        } else {
            assert(egress_removal(program, egress_chain(next))[at - 3] == command);
            lemma_removal_names_its_chain(
                program,
                "nat"@,
                "POSTROUTING"@,
                egress_chain(next),
                command,
            );
        }
        assert(false);
    }
    if at < chains.len() + 2 {
        assert(command.mode == RunModeV2::MustSucceed);
        assert(false);
    }
    let earlier = plan.take(at);
    let length = chains.len() as int;
    assert(earlier[length] == insert_jump_command(
        program,
        "nat"@,
        "POSTROUTING"@,
        egress_chain(next),
    ));
    assert(earlier[length + 1] == insert_jump_command(
        program,
        "mangle"@,
        "PREROUTING"@,
        ingress_chain(next),
    ));
}

/// A rule listing is this program's own once it names one of its chains: those
/// of either generation, or those of the time before there were generations.
pub proof fn lemma_listing_is_owned_by_its_chains(rules: Seq<char>, at: int)
    requires
        0 <= at,
    ensures
        ({
            let text = vstd::utf8::encode_utf8(rules);
            &&& stands_at(text, vstd::utf8::encode_utf8("IRONET_V2_NAT_IN_A"@), at) ==> owns_chain(
                rules,
            )
            &&& stands_at(text, vstd::utf8::encode_utf8("IRONET_V2_NAT_IN_B"@), at) ==> owns_chain(
                rules,
            )
            &&& stands_at(text, vstd::utf8::encode_utf8("IRONET_V2_NAT_OUT_A"@), at) ==> owns_chain(
                rules,
            )
            &&& stands_at(text, vstd::utf8::encode_utf8("IRONET_V2_NAT_OUT_B"@), at) ==> owns_chain(
                rules,
            )
            &&& stands_at(text, vstd::utf8::encode_utf8("IRONET_V2_NAT_IN"@), at) ==> owns_chain(
                rules,
            )
            &&& stands_at(text, vstd::utf8::encode_utf8("IRONET_V2_NAT_OUT"@), at) ==> owns_chain(
                rules,
            )
        }),
{
}

} // verus!
