//! Which kernel routes follow an authenticated route generation.

use vstd::prelude::*;

use crate::config::{all_wf, copy_all, extend_with};
use crate::host_network::kernel::{
    delete_route_in_command, models, push_command, replace_route_command, CommandModel, CommandV2,
    KernelRoutePolicyV2,
};
use crate::net::IpNet;

verus! {

/// The routes that the other nodes claim, under a generation.
#[derive(Debug)]
pub struct RouteAdvertisementV2 {
    pub generation: u64,
    pub prefixes: Vec<IpNet>,
}

/// The routes that were installed from advertisements.
#[derive(Debug)]
pub struct RouteSyncV2 {
    pub generation: u64,
    pub installed: Vec<IpNet>,
    pub static_routes: Vec<IpNet>,
}

/// What an advertisement leads to.
#[derive(Debug)]
pub enum RouteSyncStepV2 {
    /// It is older than what is installed.
    Stale,
    /// It repeats what is installed.
    Replay,
    /// It claims other routes under the installed generation.
    Conflict,
    /// The commands that install it.
    Apply { commands: Vec<CommandV2> },
}

/// The prefixes that are not in a list, in order.
pub open spec fn prefixes_outside(prefixes: Seq<IpNet>, list: Seq<IpNet>) -> Seq<IpNet>
    decreases prefixes.len(),
{
    if prefixes.len() == 0 {
        Seq::empty()
    } else {
        let rest = prefixes_outside(prefixes.drop_last(), list);
        if list.contains(prefixes.last()) {
            rest
        } else {
            rest.push(prefixes.last())
        }
    }
}

/// Whether a prefix is in a list.
fn contains_prefix(list: &Vec<IpNet>, prefix: IpNet) -> (r: bool)
    ensures
        r == list@.contains(prefix),
{
    let mut index: usize = 0;
    while index < list.len()
        invariant
            index <= list@.len(),
            forall|i: int| 0 <= i < index ==> list@[i] != prefix,
        decreases list@.len() - index,
    {
        if list[index] == prefix {
            assert(list@[index as int] == prefix);
            return true;
        }
        index = index + 1;
    }
    false
}

/// The prefixes that are not in a list, in order.
fn keep_outside(prefixes: &Vec<IpNet>, list: &Vec<IpNet>) -> (r: Vec<IpNet>)
    requires
        all_wf(prefixes@),
    ensures
        r@ == prefixes_outside(prefixes@, list@),
        all_wf(r@),
{
    let mut kept: Vec<IpNet> = Vec::new();
    let mut index: usize = 0;
    assert(prefixes@.take(0).len() == 0);
    while index < prefixes.len()
        invariant
            all_wf(prefixes@),
            all_wf(kept@),
            index <= prefixes@.len(),
            kept@ == prefixes_outside(prefixes@.take(index as int), list@),
        decreases prefixes@.len() - index,
    {
        proof {
            assert(prefixes@.take(index + 1).drop_last() =~= prefixes@.take(index as int));
            assert(prefixes@.take(index + 1).last() == prefixes@[index as int]);
        }
        if !contains_prefix(list, prefixes[index]) {
            kept.push(prefixes[index]);
        }
        index = index + 1;
    }
    assert(prefixes@.take(index as int) =~= prefixes@);
    kept
}

/// Whether two runs of prefixes are the same.
fn same_prefixes(a: &Vec<IpNet>, b: &Vec<IpNet>) -> (r: bool)
    ensures
        r == (a@ == b@),
{
    if a.len() != b.len() {
        return false;
    }
    let mut index: usize = 0;
    while index < a.len()
        invariant
            a@.len() == b@.len(),
            index <= a@.len(),
            forall|i: int| 0 <= i < index ==> a@[i] == b@[i],
        decreases a@.len() - index,
    {
        if a[index] != b[index] {
            assert(a@[index as int] != b@[index as int]);
            return false;
        }
        index = index + 1;
    }
    assert(a@ =~= b@);
    true
}

/// Drops each route, in order.
pub open spec fn deletions(prefixes: Seq<IpNet>, table: u32) -> Seq<CommandModel> {
    prefixes.map_values(|prefix: IpNet| delete_route_in_command(prefix, table))
}

/// Replaces each route, in order.
pub open spec fn replacements(policy: KernelRoutePolicyV2, prefixes: Seq<IpNet>) -> Seq<
    CommandModel,
> {
    prefixes.map_values(|prefix: IpNet| replace_route_command(policy, prefix))
}

/// The commands from one set of routes to another: what is no longer wanted is
/// dropped before what is wanted is put in place.
pub open spec fn sync_commands(
    policy: KernelRoutePolicyV2,
    installed: Seq<IpNet>,
    desired: Seq<IpNet>,
) -> Seq<CommandModel> {
    deletions(prefixes_outside(installed, desired), policy.table) + replacements(policy, desired)
}

impl RouteSyncV2 {
    /// Every prefix has a length of its family.
    pub open spec fn wf(&self) -> bool {
        all_wf(self.installed@) && all_wf(self.static_routes@)
    }

    /// Nothing is installed yet.
    pub fn new(static_routes: Vec<IpNet>) -> (r: RouteSyncV2)
        requires
            all_wf(static_routes@),
        ensures
            r.wf(),
            r.generation == 0,
            r.installed@.len() == 0,
            r.static_routes@ == static_routes@,
    {
        RouteSyncV2 { generation: 0, installed: Vec::new(), static_routes }
    }

    /// The routes that are published: static ones first.
    pub fn published(&self) -> (r: Vec<IpNet>)
        ensures
            r@ == self.static_routes@ + self.installed@,
    {
        let mut routes: Vec<IpNet> = copy_all(&self.static_routes);
        extend_with(&mut routes, &self.installed);
        routes
    }

    /// Take an advertisement. An older generation is ignored, and so is a
    /// repetition of the installed one, whatever it claims; static routes are
    /// left alone.
    pub fn advertise(&mut self, policy: &KernelRoutePolicyV2, update: RouteAdvertisementV2) -> (r:
        RouteSyncStepV2)
        requires
            old(self).wf(),
            all_wf(update.prefixes@),
        ensures
            final(self).wf(),
            final(self).static_routes@ == old(self).static_routes@,
            ({
                let desired = prefixes_outside(update.prefixes@, old(self).static_routes@);
                if update.generation < old(self).generation {
                    &&& r is Stale
                    &&& final(self).generation == old(self).generation
                    &&& final(self).installed@ == old(self).installed@
                } else if update.generation == old(self).generation {
                    &&& r is Replay == (desired == old(self).installed@)
                    &&& r is Conflict == (desired != old(self).installed@)
                    &&& final(self).generation == old(self).generation
                    &&& final(self).installed@ == old(self).installed@
                } else {
                    &&& r matches RouteSyncStepV2::Apply { commands }
                    &&& models(commands@) == sync_commands(*policy, old(self).installed@, desired)
                    &&& final(self).generation == update.generation
                    &&& final(self).installed@ == desired
                }
            }),
    {
        if update.generation < self.generation {
            return RouteSyncStepV2::Stale;
        }
        let desired: Vec<IpNet> = keep_outside(&update.prefixes, &self.static_routes);
        if update.generation == self.generation {
            if same_prefixes(&desired, &self.installed) {
                return RouteSyncStepV2::Replay;
            }
            return RouteSyncStepV2::Conflict;
        }
        let dropped: Vec<IpNet> = keep_outside(&self.installed, &desired);
        let mut commands: Vec<CommandV2> = Vec::new();
        let mut index: usize = 0;
        assert(models(commands@) =~= deletions(dropped@.take(0), policy.table));
        while index < dropped.len()
            invariant
                all_wf(dropped@),
                index <= dropped@.len(),
                models(commands@) == deletions(dropped@.take(index as int), policy.table),
            decreases dropped@.len() - index,
        {
            push_command(&mut commands, policy.delete_route(dropped[index]));
            assert(models(commands@) =~= deletions(dropped@.take(index + 1), policy.table));
            index = index + 1;
        }
        let ghost first = models(commands@);
        assert(dropped@.take(index as int) =~= dropped@);
        let mut at: usize = 0;
        assert(first =~= first + replacements(*policy, desired@.take(0)));
        while at < desired.len()
            invariant
                all_wf(desired@),
                at <= desired@.len(),
                models(commands@) == first + replacements(*policy, desired@.take(at as int)),
            decreases desired@.len() - at,
        {
            push_command(&mut commands, policy.replace_route(desired[at]));
            assert(models(commands@) =~= first + replacements(*policy, desired@.take(at + 1)));
            at = at + 1;
        }
        assert(desired@.take(at as int) =~= desired@);
        self.generation = update.generation;
        self.installed = desired;
        RouteSyncStepV2::Apply { commands }
    }
}

/// What is dropped and what is kept or put in place do not overlap, and nothing
/// that was installed and is no longer wanted stays.
pub proof fn lemma_dropped_routes_are_unwanted(
    installed: Seq<IpNet>,
    desired: Seq<IpNet>,
    prefix: IpNet,
)
    ensures
        prefixes_outside(installed, desired).contains(prefix) == (installed.contains(prefix)
            && !desired.contains(prefix)),
    decreases installed.len(),
{
    if installed.len() > 0 {
        let rest = installed.drop_last();
        let last = installed.last();
        lemma_dropped_routes_are_unwanted(rest, desired, prefix);
        assert(installed =~= rest.push(last));
        crate::sort::lemma_contains_push(rest, last, prefix);
        crate::sort::lemma_contains_push(prefixes_outside(rest, desired), last, prefix);
    }
}

} // verus!
