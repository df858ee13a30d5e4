//! Which policy decides, how a changed component takes over from the live one,
//! and when learned state goes to disk.

use vstd::prelude::*;

use crate::config::{same_bytes, AutotuneConfig, AutotuneMode};
use crate::digest::{blake3_digest, blake3_hash};
use crate::num::{sat_usize, usize_from_u64};
use crate::text::{chars_of, same_text};
use crate::time::{Duration, Instant};

verus! {

/// Consecutive fault-free ticks for which a freshly loaded candidate component
/// shadows the live input before it takes over.
pub const WASM_WARMUP_TICKS: u64 = 5;

/// Ticks between two looks for a changed component.
pub const RELOAD_SCAN_TICKS: u8 = 5;

/// Where a path ends without the slashes and the `.` components behind it.
pub open spec fn path_end(path: Seq<char>, end: int) -> int
    decreases end,
{
    if end > 0 && path[end - 1] == '/' {
        path_end(path, end - 1)
    } else if end > 1 && path[end - 1] == '.' && path[end - 2] == '/' {
        path_end(path, end - 1)
    } else {
        end
    }
}

/// Where the last component of a path starts.
pub open spec fn name_start(path: Seq<char>, end: int) -> int
    decreases end,
{
    if end <= 0 || path[end - 1] == '/' {
        end
    } else {
        name_start(path, end - 1)
    }
}

/// Whether a character is a letter in either case.
pub open spec fn is_letter(c: char, lower: char, upper: char) -> bool {
    c == lower || c == upper
}

/// Whether a path is absolute and its last component has the extension
/// `wasm`, in any case and behind at least one other character.
pub open spec fn is_component_path(path: Seq<char>) -> bool {
    let end = path_end(path, path.len() as int);
    &&& path.len() > 0
    &&& path[0] == '/'
    &&& end - name_start(path, end) > 5
    &&& path[end - 5] == '.'
    &&& is_letter(path[end - 4], 'w', 'W')
    &&& is_letter(path[end - 3], 'a', 'A')
    &&& is_letter(path[end - 2], 's', 'S')
    &&& is_letter(path[end - 1], 'm', 'M')
}

/// True only for an external component path. The builtin and the native policy
/// run in-process and are never loaded from a file.
pub fn is_external_wasm_policy_path(path: &str) -> (r: bool)
    ensures
        r == is_component_path(path@),
{
    let chars: Vec<char> = chars_of(path);
    if chars.len() == 0 || chars[0] != '/' {
        return false;
    }
    let mut end: usize = chars.len();
    while end > 0 && (chars[end - 1] == '/' || (end > 1 && chars[end - 1] == '.' && chars[end - 2]
        == '/'))
        invariant
            end <= chars@.len(),
            path_end(chars@, chars@.len() as int) == path_end(chars@, end as int),
        decreases end,
    {
        end = end - 1;
    }
    let mut start: usize = end;
    while start > 0 && chars[start - 1] != '/'
        invariant
            start <= end <= chars@.len(),
            name_start(chars@, end as int) == name_start(chars@, start as int),
        decreases start,
    {
        start = start - 1;
    }
    if end - start <= 5 {
        return false;
    }
    chars[end - 5] == '.' && (chars[end - 4] == 'w' || chars[end - 4] == 'W') && (chars[end - 3]
        == 'a' || chars[end - 3] == 'A') && (chars[end - 2] == 's' || chars[end - 2] == 'S') && (
    chars[end - 1] == 'm' || chars[end - 1] == 'M')
}

/// What the learner does.
#[derive(Clone, Copy, Debug, PartialEq, Eq, Structural)]
pub enum LearnerModeV2 {
    Off,
    Shadow,
    On,
}

/// What the learner does: a forced experiment switches it off.
pub fn learner_mode(mode: AutotuneMode, forced: bool) -> (r: LearnerModeV2)
    ensures
        r == (if forced {
            LearnerModeV2::Off
        } else {
            match mode {
                AutotuneMode::Off => LearnerModeV2::Off,
                AutotuneMode::Shadow => LearnerModeV2::Shadow,
                AutotuneMode::On => LearnerModeV2::On,
            }
        }),
{
    if forced {
        LearnerModeV2::Off
    } else {
        match mode {
            AutotuneMode::Off => LearnerModeV2::Off,
            AutotuneMode::Shadow => LearnerModeV2::Shadow,
            AutotuneMode::On => LearnerModeV2::On,
        }
    }
}

/// The policy that decides.
#[derive(Clone, Copy, Debug, PartialEq, Eq, Structural)]
pub enum LivePolicyV2 {
    /// The external component.
    Component,
    /// The in-process core learner.
    Builtin,
    /// The host's conservative rules.
    Native,
}

/// The name under which the deciding policy is reported.
#[derive(Clone, Copy, Debug, PartialEq, Eq, Structural)]
pub enum PolicySourceV2 {
    /// As configured.
    Configured,
    /// The builtin policy stands in.
    Builtin,
    /// The native rules stand in.
    Native,
}

/// The policy that decides for a selection, and the name it goes by.
pub open spec fn live_policy(selection: Seq<char>, loaded: bool) -> (LivePolicyV2, PolicySourceV2) {
    if is_component_path(selection) {
        if loaded {
            (LivePolicyV2::Component, PolicySourceV2::Configured)
        } else {
            (LivePolicyV2::Builtin, PolicySourceV2::Builtin)
        }
    } else if selection == "builtin"@ {
        (LivePolicyV2::Builtin, PolicySourceV2::Configured)
    } else if selection == "native"@ {
        (LivePolicyV2::Native, PolicySourceV2::Configured)
    } else {
        (LivePolicyV2::Native, PolicySourceV2::Native)
    }
}

/// Select a live policy that needs no component. `builtin` is the in-process
/// core learner; only an explicit `native` asks for the conservative rules,
/// and they also stand in for a name that means nothing.
pub fn non_wasm_live_slot(selection: &str) -> (r: (LivePolicyV2, PolicySourceV2))
    ensures
        !is_component_path(selection@) ==> r == live_policy(selection@, false),
        r == (if selection@ == "builtin"@ {
            (LivePolicyV2::Builtin, PolicySourceV2::Configured)
        } else if selection@ == "native"@ {
            (LivePolicyV2::Native, PolicySourceV2::Configured)
        } else {
            (LivePolicyV2::Native, PolicySourceV2::Native)
        }),
{
    if same_text(selection, "builtin") {
        (LivePolicyV2::Builtin, PolicySourceV2::Configured)
    } else if same_text(selection, "native") {
        (LivePolicyV2::Native, PolicySourceV2::Configured)
    } else {
        (LivePolicyV2::Native, PolicySourceV2::Native)
    }
}

/// Select the policy that decides. A component that was rejected falls back to
/// the builtin policy.
pub fn select_live_policy(selection: &str, loaded: bool) -> (r: (LivePolicyV2, PolicySourceV2))
    ensures
        r == live_policy(selection@, loaded),
{
    if is_external_wasm_policy_path(selection) {
        if loaded {
            (LivePolicyV2::Component, PolicySourceV2::Configured)
        } else {
            (LivePolicyV2::Builtin, PolicySourceV2::Builtin)
        }
    } else {
        non_wasm_live_slot(selection)
    }
}

/// The component that observes without deciding: the configured one, where its
/// path names an external component.
pub fn shadow_selection(config: &AutotuneConfig) -> (r: Option<&str>)
    ensures
        match config.shadow_policy {
            Some(path) => if is_component_path(path@) {
                r matches Some(selected) && selected@ == path@
            } else {
                r is None
            },
            None => r is None,
        },
{
    match &config.shadow_policy {
        Some(path) => if is_external_wasm_policy_path(path.as_str()) {
            Some(path.as_str())
        } else {
            None
        },
        None => None,
    }
}

/// How often learned state goes to disk, and how much of it.
#[derive(Clone, Copy, Debug, PartialEq, Eq, Structural)]
pub struct PolicyStoreV1 {
    pub flush_interval: Duration,
    pub maximum_state_bytes: usize,
}

/// The store of learned state; none where the tuner keeps no memory.
pub fn policy_store(config: &AutotuneConfig) -> (r: Option<PolicyStoreV1>)
    ensures
        match r {
            Some(store) => config.memory && store.flush_interval.nanos
                == config.wasm.state_flush_interval_secs * 1_000_000_000
                && store.maximum_state_bytes == sat_usize(config.wasm.maximum_state_bytes as int),
            None => !config.memory,
        },
{
    if config.memory {
        Some(
            PolicyStoreV1 {
                flush_interval: Duration::from_secs(config.wasm.state_flush_interval_secs),
                maximum_state_bytes: usize_from_u64(config.wasm.maximum_state_bytes),
            },
        )
    } else {
        None
    }
}

/// The bytes of state that a policy may keep, as the policy is told.
pub fn state_cap_bytes(config: &AutotuneConfig) -> (r: u32)
    ensures
        r == if config.wasm.maximum_state_bytes <= u32::MAX {
            config.wasm.maximum_state_bytes as u32
        } else {
            u32::MAX
        },
{
    if config.wasm.maximum_state_bytes <= u32::MAX as u64 {
        config.wasm.maximum_state_bytes as u32
    } else {
        u32::MAX
    }
}

/// The digest of a component file where it is another than the one seen last.
pub open spec fn changed_digest(seen: Option<Seq<u8>>, bytes: Seq<u8>) -> Option<Seq<u8>> {
    if seen == Some(blake3_digest(bytes)) {
        None
    } else {
        Some(blake3_digest(bytes))
    }
}

/// A digest over plain bytes.
pub open spec fn digest_view(digest: Option<[u8; 32]>) -> Option<Seq<u8>> {
    match digest {
        Some(bytes) => Some(bytes@),
        None => None,
    }
}

/// The digest of a component file where it is another than the one seen last.
pub fn changed_component(seen: &Option<[u8; 32]>, bytes: &[u8]) -> (r: Option<[u8; 32]>)
    ensures
        digest_view(r) == changed_digest(digest_view(*seen), bytes@),
{
    let digest: [u8; 32] = blake3_hash(bytes);
    match component_change(seen, &digest) {
        true => Some(digest),
        false => None,
    }
}

/// Whether a file digest differs from the one seen last.
pub fn component_change(seen: &Option<[u8; 32]>, digest: &[u8; 32]) -> (r: bool)
    ensures
        r == (digest_view(*seen) != Some(digest@)),
{
    match seen {
        Some(previous) => !same_bytes(previous, digest),
        None => true,
    }
}

/// How far a changed live component has come.
#[derive(Clone, Copy, Debug, PartialEq, Eq, Structural)]
pub enum LiveReloadPhaseV1 {
    Idle,
    Loading,
    /// The candidate observes the live input without influencing the wire.
    Warming { healthy_ticks: u64 },
}

/// How far a changed shadow component has come. A shadow is already off the
/// wire, so it takes over at once.
#[derive(Clone, Copy, Debug, PartialEq, Eq, Structural)]
pub enum ShadowReloadPhaseV1 {
    Idle,
    Loading,
}

/// The outcome of a load.
#[derive(Debug)]
pub enum ReloadResultV1 {
    /// The file holds another component, which was verified and compiled.
    Changed([u8; 32]),
    /// The file holds the component that was seen last.
    Unchanged,
    /// The file was refused.
    Failed(String),
}

/// What follows from a load.
#[derive(Clone, Copy, Debug, PartialEq, Eq, Structural)]
pub enum ReloadActionV1 {
    /// The candidate is taken up: into warmup, or as the shadow.
    TakeUp,
    /// Nothing changes.
    Nothing,
    /// The last known-good component stays, and the fault is reported.
    ReportFault,
}

/// What follows from one tick of the warmup.
#[derive(Clone, Copy, Debug, PartialEq, Eq, Structural)]
pub enum WarmupActionV1 {
    /// No candidate is warming up.
    Nothing,
    /// The candidate failed; the last known-good component stays live.
    Abort,
    /// The candidate goes on observing.
    Observe,
    /// The candidate goes live.
    Promote,
}

/// Changed components on their way in.
#[derive(Debug)]
pub struct PolicyReloadStateV1 {
    pub tick: u8,
    pub live_seen_hash: Option<[u8; 32]>,
    pub live_phase: LiveReloadPhaseV1,
    pub last_live_error: Option<String>,
    pub shadow_seen_hash: Option<[u8; 32]>,
    pub shadow_phase: ShadowReloadPhaseV1,
    pub last_shadow_error: Option<String>,
}

/// Changed components on their way in, over plain values.
#[verifier::ext_equal]
pub ghost struct ReloadModel {
    pub tick: u8,
    pub live_seen: Option<Seq<u8>>,
    pub live_phase: LiveReloadPhaseV1,
    pub live_error: Option<Seq<char>>,
    pub shadow_seen: Option<Seq<u8>>,
    pub shadow_phase: ShadowReloadPhaseV1,
    pub shadow_error: Option<Seq<char>>,
}

/// A message over plain characters.
pub open spec fn message_view(message: Option<String>) -> Option<Seq<char>> {
    match message {
        Some(text) => Some(text@),
        None => None,
    }
}

/// The outcome of a load over plain values: the digest, nothing, or a message.
pub open spec fn result_view(result: ReloadResultV1) -> Result<Option<Seq<u8>>, Seq<char>> {
    match result {
        ReloadResultV1::Changed(digest) => Ok(Some(digest@)),
        ReloadResultV1::Unchanged => Ok(None),
        ReloadResultV1::Failed(message) => Err(message@),
    }
}

/// What follows from a load: a fault is reported once until it changes.
pub open spec fn load_action(
    result: Result<Option<Seq<u8>>, Seq<char>>,
    last_error: Option<Seq<char>>,
) -> ReloadActionV1 {
    match result {
        Ok(Some(_)) => ReloadActionV1::TakeUp,
        Ok(None) => ReloadActionV1::Nothing,
        Err(message) => if last_error == Some(message) {
            ReloadActionV1::Nothing
        } else {
            ReloadActionV1::ReportFault
        },
    }
}

impl ReloadModel {
    /// The state after a load of the live component.
    pub open spec fn live_finished(self, result: Result<Option<Seq<u8>>, Seq<char>>) -> ReloadModel {
        match result {
            Ok(Some(digest)) => ReloadModel {
                live_seen: Some(digest),
                live_phase: LiveReloadPhaseV1::Warming { healthy_ticks: 0 },
                ..self
            },
            Ok(None) => ReloadModel { live_phase: LiveReloadPhaseV1::Idle, ..self },
            Err(message) => ReloadModel {
                live_phase: LiveReloadPhaseV1::Idle,
                live_error: Some(message),
                ..self
            },
        }
    }

    /// The state after a load of the shadow component.
    pub open spec fn shadow_finished(
        self,
        result: Result<Option<Seq<u8>>, Seq<char>>,
    ) -> ReloadModel {
        match result {
            Ok(Some(digest)) => ReloadModel {
                shadow_seen: Some(digest),
                shadow_phase: ShadowReloadPhaseV1::Idle,
                ..self
            },
            Ok(None) => ReloadModel { shadow_phase: ShadowReloadPhaseV1::Idle, ..self },
            Err(message) => ReloadModel {
                shadow_phase: ShadowReloadPhaseV1::Idle,
                shadow_error: Some(message),
                ..self
            },
        }
    }

    /// Whether this tick looks for changed files.
    pub open spec fn scan_due(self) -> bool {
        self.tick % RELOAD_SCAN_TICKS == 0
    }

    /// The state after a tick of the warmup, and what follows.
    pub open spec fn warmed(self, faulted: bool) -> (ReloadModel, WarmupActionV1) {
        match self.live_phase {
            LiveReloadPhaseV1::Warming { healthy_ticks } => if faulted {
                (
                    ReloadModel { live_phase: LiveReloadPhaseV1::Idle, ..self },
                    WarmupActionV1::Abort,
                )
            } else if healthy_ticks + 1 >= WASM_WARMUP_TICKS {
                (
                    ReloadModel {
                        live_phase: LiveReloadPhaseV1::Idle,
                        live_error: None,
                        ..self
                    },
                    WarmupActionV1::Promote,
                )
            } else {
                (
                    ReloadModel {
                        live_phase: LiveReloadPhaseV1::Warming {
                            healthy_ticks: (healthy_ticks + 1) as u64,
                        },
                        ..self
                    },
                    WarmupActionV1::Observe,
                )
            },
            _ => (self, WarmupActionV1::Nothing),
        }
    }
}

/// Keep the message of a fault that has not been reported, and say whether it
/// has to be.
fn note_fault(last: &mut Option<String>, message: String) -> (r: bool)
    ensures
        r == (message_view(*old(last)) != Some(message@)),
        message_view(*final(last)) == Some(message@),
{
    let known: bool = match last {
        Some(previous) => same_text(previous.as_str(), message.as_str()),
        None => false,
    };
    if known {
        return false;
    }
    *last = Some(message);
    true
}

impl PolicyReloadStateV1 {
    /// The state over plain values.
    pub open spec fn model(&self) -> ReloadModel {
        ReloadModel {
            tick: self.tick,
            live_seen: digest_view(self.live_seen_hash),
            live_phase: self.live_phase,
            live_error: message_view(self.last_live_error),
            shadow_seen: digest_view(self.shadow_seen_hash),
            shadow_phase: self.shadow_phase,
            shadow_error: message_view(self.last_shadow_error),
        }
    }

    /// Start with what was loaded first.
    pub fn new(
        live_seen_hash: Option<[u8; 32]>,
        shadow_seen_hash: Option<[u8; 32]>,
        last_shadow_error: Option<String>,
    ) -> (r: PolicyReloadStateV1)
        ensures
            r.model() == (ReloadModel {
                tick: 0,
                live_seen: digest_view(live_seen_hash),
                live_phase: LiveReloadPhaseV1::Idle,
                live_error: None,
                shadow_seen: digest_view(shadow_seen_hash),
                shadow_phase: ShadowReloadPhaseV1::Idle,
                shadow_error: message_view(last_shadow_error),
            }),
    {
        PolicyReloadStateV1 {
            tick: 0,
            live_seen_hash,
            live_phase: LiveReloadPhaseV1::Idle,
            last_live_error: None,
            shadow_seen_hash,
            shadow_phase: ShadowReloadPhaseV1::Idle,
            last_shadow_error,
        }
    }

    /// Count a policy tick.
    pub fn advance(&mut self)
        ensures
            final(self).model() == (ReloadModel {
                tick: if old(self).tick == u8::MAX { 0 } else { (old(self).tick + 1) as u8 },
                ..old(self).model()
            }),
    {
        self.tick = if self.tick == u8::MAX { 0 } else { self.tick + 1 };
    }

    /// Whether this tick looks for changed files.
    pub fn scan_due(&self) -> (r: bool)
        ensures
            r == self.model().scan_due(),
    {
        self.tick % RELOAD_SCAN_TICKS == 0
    }

    /// Take the outcome of a load of the live component.
    pub fn finish_live(&mut self, result: ReloadResultV1) -> (r: ReloadActionV1)
        requires
            old(self).live_phase is Loading,
        ensures
            final(self).model() == old(self).model().live_finished(result_view(result)),
            r == load_action(result_view(result), old(self).model().live_error),
    {
        self.live_phase = LiveReloadPhaseV1::Idle;
        match result {
            ReloadResultV1::Changed(digest) => {
                self.live_seen_hash = Some(digest);
                self.live_phase = LiveReloadPhaseV1::Warming { healthy_ticks: 0 };
                ReloadActionV1::TakeUp
            },
            ReloadResultV1::Unchanged => ReloadActionV1::Nothing,
            ReloadResultV1::Failed(message) => {
                if note_fault(&mut self.last_live_error, message) {
                    ReloadActionV1::ReportFault
                } else {
                    ReloadActionV1::Nothing
                }
            },
        }
    }

    /// Take the outcome of a load of the shadow component.
    pub fn finish_shadow(&mut self, result: ReloadResultV1) -> (r: ReloadActionV1)
        requires
            old(self).shadow_phase is Loading,
        ensures
            final(self).model() == old(self).model().shadow_finished(result_view(result)),
            r == load_action(result_view(result), old(self).model().shadow_error),
    {
        self.shadow_phase = ShadowReloadPhaseV1::Idle;
        match result {
            ReloadResultV1::Changed(digest) => {
                self.shadow_seen_hash = Some(digest);
                ReloadActionV1::TakeUp
            },
            ReloadResultV1::Unchanged => ReloadActionV1::Nothing,
            ReloadResultV1::Failed(message) => {
                if note_fault(&mut self.last_shadow_error, message) {
                    ReloadActionV1::ReportFault
                } else {
                    ReloadActionV1::Nothing
                }
            },
        }
    }

    /// Start a load of the live component where a look is due and none is on
    /// its way.
    pub fn begin_live_scan(&mut self) -> (r: bool)
        ensures
            r == (old(self).model().scan_due() && old(self).live_phase is Idle),
            final(self).model() == (if r {
                ReloadModel { live_phase: LiveReloadPhaseV1::Loading, ..old(self).model() }
            } else {
                old(self).model()
            }),
    {
        if self.scan_due() && self.live_phase == LiveReloadPhaseV1::Idle {
            self.live_phase = LiveReloadPhaseV1::Loading;
            true
        } else {
            false
        }
    }

    /// Start a load of the shadow component where a look is due and none is on
    /// its way.
    pub fn begin_shadow_scan(&mut self) -> (r: bool)
        ensures
            r == (old(self).model().scan_due() && old(self).shadow_phase is Idle),
            final(self).model() == (if r {
                ReloadModel { shadow_phase: ShadowReloadPhaseV1::Loading, ..old(self).model() }
            } else {
                old(self).model()
            }),
    {
        if self.scan_due() && self.shadow_phase == ShadowReloadPhaseV1::Idle {
            self.shadow_phase = ShadowReloadPhaseV1::Loading;
            true
        } else {
            false
        }
    }

    /// Take one tick of the candidate's observation: a fault aborts it, and
    /// enough fault-free ticks in a row make it live.
    pub fn observe_warmup(&mut self, faulted: bool) -> (r: WarmupActionV1)
        ensures
            (final(self).model(), r) == old(self).model().warmed(faulted),
    {
        match self.live_phase {
            LiveReloadPhaseV1::Warming { healthy_ticks } => {
                if faulted {
                    self.live_phase = LiveReloadPhaseV1::Idle;
                    return WarmupActionV1::Abort;
                }
                let healthy_ticks: u64 = healthy_ticks.saturating_add(1);
                if healthy_ticks >= WASM_WARMUP_TICKS {
                    self.live_phase = LiveReloadPhaseV1::Idle;
                    self.last_live_error = None;
                    WarmupActionV1::Promote
                } else {
                    self.live_phase = LiveReloadPhaseV1::Warming { healthy_ticks };
                    WarmupActionV1::Observe
                }
            },
            _ => WarmupActionV1::Nothing,
        }
    }
}

/// The state after ticks of warmup, and what the last of them led to.
pub open spec fn warmed_through(state: ReloadModel, faults: Seq<bool>) -> (
    ReloadModel,
    WarmupActionV1,
)
    decreases faults.len(),
{
    if faults.len() == 0 {
        (state, WarmupActionV1::Nothing)
    } else {
        warmed_through(state, faults.drop_last()).0.warmed(faults.last())
    }
}

/// Fewer healthy ticks than the warmup asks for leave the candidate observing.
proof fn lemma_healthy_ticks_add_up(state: ReloadModel, faults: Seq<bool>)
    requires
        state.live_phase == (LiveReloadPhaseV1::Warming { healthy_ticks: 0 }),
        faults.len() < WASM_WARMUP_TICKS,
        forall|i: int| 0 <= i < faults.len() ==> !#[trigger] faults[i],
    ensures
        warmed_through(state, faults).0 == (ReloadModel {
            live_phase: LiveReloadPhaseV1::Warming { healthy_ticks: faults.len() as u64 },
            ..state
        }),
    decreases faults.len(),
{
    if faults.len() > 0 {
        let before = faults.drop_last();
        assert forall|i: int| 0 <= i < before.len() implies !#[trigger] before[i] by {
            assert(!faults[i]);
        }
        lemma_healthy_ticks_add_up(state, before);
        assert(!faults[faults.len() - 1]);
    }
}

/// A fresh candidate takes over with its fifth fault-free tick in a row and
/// not before.
pub proof fn lemma_candidate_is_promoted_after_a_healthy_warmup(
    state: ReloadModel,
    faults: Seq<bool>,
)
    requires
        state.live_phase == (LiveReloadPhaseV1::Warming { healthy_ticks: 0 }),
        1 <= faults.len() <= WASM_WARMUP_TICKS,
        forall|i: int| 0 <= i < faults.len() ==> !#[trigger] faults[i],
    ensures
        (warmed_through(state, faults).1 is Promote) == (faults.len() == WASM_WARMUP_TICKS),
        warmed_through(state, faults).1 is Promote || warmed_through(state, faults).1 is Observe,
{
    let before = faults.drop_last();
    assert forall|i: int| 0 <= i < before.len() implies !#[trigger] before[i] by {
        assert(!faults[i]);
    }
    lemma_healthy_ticks_add_up(state, before);
    assert(!faults[faults.len() - 1]);
}

/// Any fault ends the warmup without a promotion, and the candidate does not
/// come back without another load.
pub proof fn lemma_fault_aborts_the_warmup(state: ReloadModel, later: bool)
    requires
        state.live_phase is Warming,
    ensures
        state.warmed(true).1 is Abort,
        state.warmed(true).0.live_phase is Idle,
        state.warmed(true).0.live_seen == state.live_seen,
        state.warmed(true).0.warmed(later).1 is Nothing,
{
}

/// A component that was taken up is not loaded again before its file changes,
/// even where its warmup failed.
pub proof fn lemma_known_component_is_not_loaded_again(
    state: ReloadModel,
    bytes: Seq<u8>,
    faulted: bool,
)
    ensures
        changed_digest(
            state.live_finished(Ok(Some(blake3_digest(bytes)))).warmed(faulted).0.live_seen,
            bytes,
        ) is None,
{
}

/// A fault that stays the same is reported once.
pub proof fn lemma_repeated_fault_is_reported_once(state: ReloadModel, message: Seq<char>)
    ensures
        load_action(Err(message), state.live_finished(Err(message)).live_error) is Nothing,
        load_action(Err(message), state.shadow_finished(Err(message)).shadow_error) is Nothing,
{
}

/// When learned policy state goes to disk.
#[derive(Clone, Copy, Debug, PartialEq, Eq, Structural)]
pub struct PolicyPersistenceV1 {
    /// How often changed state is written; none without a store.
    pub flush_interval: Option<Duration>,
    pub last_flush: Instant,
}

impl PolicyPersistenceV1 {
    /// Start counting now.
    pub fn new(flush_interval: Option<Duration>, now: Instant) -> (r: PolicyPersistenceV1)
        ensures
            r == (PolicyPersistenceV1 { flush_interval, last_flush: now }),
    {
        PolicyPersistenceV1 { flush_interval, last_flush: now }
    }

    /// Whether state is written at once: there is a store and the state
    /// changed.
    pub fn flush(&self, dirty: bool) -> (r: bool)
        ensures
            r == (self.flush_interval is Some && dirty),
    {
        self.flush_interval.is_some() && dirty
    }

    /// Whether state is written at this point: there is a store, the state
    /// changed, and the interval has passed.
    pub fn flush_if_due(&self, dirty: bool, now: Instant) -> (r: bool)
        ensures
            r == (dirty && match self.flush_interval {
                Some(interval) => now.since(self.last_flush) >= interval.nanos,
                None => false,
            }),
    {
        match self.flush_interval {
            Some(interval) => dirty && now.saturating_duration_since(self.last_flush).nanos
                >= interval.nanos,
            None => false,
        }
    }

    /// State was written.
    pub fn mark_flushed(&mut self, now: Instant)
        ensures
            *final(self) == (PolicyPersistenceV1 { last_flush: now, ..*old(self) }),
    {
        self.last_flush = now;
    }
}

/// What is said about the policy's health.
#[derive(Clone, Copy, Debug, PartialEq, Eq, Structural)]
pub enum FaultReportV1 {
    Nothing,
    Fault,
    Recovered,
}

/// Say what changed in the policy's health: a fault is reported when it comes
/// or becomes another one, a recovery when it goes.
pub fn report_fault(last: &mut Option<u32>, current: Option<u32>) -> (r: FaultReportV1)
    ensures
        *final(last) == current,
        r == (if current == *old(last) {
            FaultReportV1::Nothing
        } else if current is Some {
            FaultReportV1::Fault
        } else {
            FaultReportV1::Recovered
        }),
{
    let same: bool = match (*last, current) {
        (Some(before), Some(after)) => before == after,
        (None, None) => true,
        _ => false,
    };
    *last = current;
    if same {
        FaultReportV1::Nothing
    } else if current.is_some() {
        FaultReportV1::Fault
    } else {
        FaultReportV1::Recovered
    }
}

} // verus!
