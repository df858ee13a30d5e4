//! The autotune tap: one record per policy sample, every figure under its
//! place in the record.

use vstd::prelude::*;

use crate::autotune::reload::LearnerModeV2;
use crate::digest::hex_text;
use crate::fec::FecGeometryV2;
use crate::identity::EndpointId;
use crate::time::Duration;
use crate::tuning::{
    micros, micros_of, Bbr3PresetV2, Bbr3ProposalV2, CoverTrafficProfileV2, PathReliability,
    PathTelemetryV2, TuneDecisionV2, TuneReasonV2,
};

verus! {

/// The version of the record's layout.
pub const TAP_SCHEMA_VERSION: u64 = 5;

/// One value of the record. A real number comes as its text.
#[derive(Debug)]
pub enum TapValueV2 {
    Null,
    Flag(bool),
    Unsigned(u64),
    Signed(i64),
    Number(String),
    Text(String),
    Numbers(Vec<String>),
}

/// One value of the record, over character sequences.
#[verifier::ext_equal]
pub ghost enum TapValueModel {
    Null,
    Flag(bool),
    Unsigned(u64),
    Signed(i64),
    Number(Seq<char>),
    Text(Seq<char>),
    Numbers(Seq<Seq<char>>),
}

/// A record over character sequences: each place with its value, in order.
pub type TapModel = Seq<(Seq<char>, TapValueModel)>;

/// A value under its place. The names on the way to a place are separated by
/// points.
#[derive(Debug)]
pub struct TapFieldV2 {
    pub path: String,
    pub value: TapValueV2,
}

impl TapValueV2 {
    /// The value over character sequences.
    pub open spec fn model(&self) -> TapValueModel {
        match self {
            TapValueV2::Null => TapValueModel::Null,
            TapValueV2::Flag(flag) => TapValueModel::Flag(*flag),
            TapValueV2::Unsigned(number) => TapValueModel::Unsigned(*number),
            TapValueV2::Signed(number) => TapValueModel::Signed(*number),
            TapValueV2::Number(text) => TapValueModel::Number(text@),
            TapValueV2::Text(text) => TapValueModel::Text(text@),
            TapValueV2::Numbers(texts) => TapValueModel::Numbers(texts_of(texts@)),
        }
    }
}

/// Texts as character sequences.
pub open spec fn texts_of(texts: Seq<String>) -> Seq<Seq<char>> {
    texts.map_values(|text: String| text@)
}

/// Fields over character sequences.
pub open spec fn tap_model(fields: Seq<TapFieldV2>) -> TapModel {
    fields.map_values(|field: TapFieldV2| (field.path@, field.value.model()))
}

/// How good a sample was. The real numbers come as their texts.
#[derive(Debug)]
pub struct TapUtilityV2 {
    pub total: String,
    pub components: Vec<String>,
    pub goodput_bytes_per_second: u64,
}

/// Bytes on the wire by their purpose.
#[derive(Clone, Copy, Debug, PartialEq, Eq, Structural)]
pub struct WireCostV2 {
    pub payload_bytes: u64,
    pub parity_bytes: u64,
    pub repair_bytes: u64,
    pub cover_bytes: u64,
    pub cell_envelope_bytes: u64,
}

/// The class of paths that a learner put a sample in.
#[derive(Clone, Copy, Debug, PartialEq, Eq, Structural)]
pub struct LearnerContextV2 {
    pub rtt_class: u64,
    pub rate_class: u64,
    pub loss_class: u64,
    pub reliable: bool,
    pub host_rtt: bool,
}

/// What a learner did with a sample. The real number comes as its text.
#[derive(Debug)]
pub struct LearnerTraceV2 {
    pub mode: LearnerModeV2,
    pub context: LearnerContextV2,
    pub baseline_preset: Bbr3PresetV2,
    pub proposed_preset: Bbr3PresetV2,
    pub applied_preset: Bbr3PresetV2,
    pub predicted_advantage: String,
    pub exploring: bool,
    pub rollback: bool,
    pub rollbacks: u64,
    pub fine_up_gain_delta_milli: i64,
    pub fine_headroom_delta_milli: i64,
    pub fine_cwnd_gain_delta_milli: i64,
}

/// What a shadow policy would have done with a sample.
#[derive(Debug)]
pub struct ShadowEvaluationV2 {
    pub utility: TapUtilityV2,
    pub decision: TuneDecisionV2,
    pub trace: LearnerTraceV2,
}

/// One policy sample.
#[derive(Debug)]
pub struct AutotuneTapSampleV2 {
    pub sampled_unix_micros: u64,
    pub sample_elapsed: Duration,
    pub telemetry: PathTelemetryV2,
    pub decision: TuneDecisionV2,
    pub utility: TapUtilityV2,
    pub wire_cost: WireCostV2,
    pub force_applied: bool,
    pub learner: Option<LearnerTraceV2>,
    pub policy_id: String,
    pub policy_source: String,
    pub shadow_policy_id: Option<String>,
    pub shadow: Option<ShadowEvaluationV2>,
    pub path_identity: String,
    pub controller_cwnd_bytes: u64,
    pub adaptive_cwnd_floor_bytes: u64,
}

/// The name of a reliability.
pub open spec fn reliability_text(value: PathReliability) -> Seq<char> {
    match value {
        PathReliability::Datagram => "Datagram"@,
        PathReliability::ReliableRelay => "ReliableRelay"@,
    }
}

/// The name of a reliability.
pub fn reliability_name(value: PathReliability) -> (r: &'static str)
    ensures
        r@ == reliability_text(value),
{
    match value {
        PathReliability::Datagram => "Datagram",
        PathReliability::ReliableRelay => "ReliableRelay",
    }
}

/// The name of a reason.
pub open spec fn reason_text(value: TuneReasonV2) -> Seq<char> {
    match value {
        TuneReasonV2::ColdStart => "ColdStart"@,
        TuneReasonV2::TelemetryUnavailable => "TelemetryUnavailable"@,
        TuneReasonV2::PathChanged => "PathChanged"@,
        TuneReasonV2::HealthyLowLoss => "HealthyLowLoss"@,
        TuneReasonV2::RandomLoss => "RandomLoss"@,
        TuneReasonV2::BurstLoss => "BurstLoss"@,
        TuneReasonV2::Congested => "Congested"@,
        TuneReasonV2::CpuLimited => "CpuLimited"@,
        TuneReasonV2::ReliablePath => "ReliablePath"@,
    }
}

/// The name of a reason.
pub fn reason_name(value: TuneReasonV2) -> (r: &'static str)
    ensures
        r@ == reason_text(value),
{
    match value {
        TuneReasonV2::ColdStart => "ColdStart",
        TuneReasonV2::TelemetryUnavailable => "TelemetryUnavailable",
        TuneReasonV2::PathChanged => "PathChanged",
        TuneReasonV2::HealthyLowLoss => "HealthyLowLoss",
        TuneReasonV2::RandomLoss => "RandomLoss",
        TuneReasonV2::BurstLoss => "BurstLoss",
        TuneReasonV2::Congested => "Congested",
        TuneReasonV2::CpuLimited => "CpuLimited",
        TuneReasonV2::ReliablePath => "ReliablePath",
    }
}

/// The name of a cover profile.
pub open spec fn cover_text(value: CoverTrafficProfileV2) -> Seq<char> {
    match value {
        CoverTrafficProfileV2::Idle => "Idle"@,
        CoverTrafficProfileV2::LiveBroadcast => "LiveBroadcast"@,
        CoverTrafficProfileV2::InteractiveVideo => "InteractiveVideo"@,
        CoverTrafficProfileV2::GenericH3Bulk => "GenericH3Bulk"@,
    }
}

/// The name of a cover profile.
pub fn cover_name(value: CoverTrafficProfileV2) -> (r: &'static str)
    ensures
        r@ == cover_text(value),
{
    match value {
        CoverTrafficProfileV2::Idle => "Idle",
        CoverTrafficProfileV2::LiveBroadcast => "LiveBroadcast",
        CoverTrafficProfileV2::InteractiveVideo => "InteractiveVideo",
        CoverTrafficProfileV2::GenericH3Bulk => "GenericH3Bulk",
    }
}

/// The name of a controller preset.
pub open spec fn preset_text(value: Bbr3PresetV2) -> Seq<char> {
    match value {
        Bbr3PresetV2::SharedConservative => "SharedConservative"@,
        Bbr3PresetV2::PrivateAggressive => "PrivateAggressive"@,
        Bbr3PresetV2::LossyRadio => "LossyRadio"@,
        Bbr3PresetV2::Policer => "Policer"@,
        Bbr3PresetV2::LongFat => "LongFat"@,
        Bbr3PresetV2::RelayReliable => "RelayReliable"@,
        Bbr3PresetV2::LowRttHost => "LowRttHost"@,
    }
}

/// The name of a controller preset.
pub fn preset_name(value: Bbr3PresetV2) -> (r: &'static str)
    ensures
        r@ == preset_text(value),
{
    match value {
        Bbr3PresetV2::SharedConservative => "SharedConservative",
        Bbr3PresetV2::PrivateAggressive => "PrivateAggressive",
        Bbr3PresetV2::LossyRadio => "LossyRadio",
        Bbr3PresetV2::Policer => "Policer",
        Bbr3PresetV2::LongFat => "LongFat",
        Bbr3PresetV2::RelayReliable => "RelayReliable",
        Bbr3PresetV2::LowRttHost => "LowRttHost",
    }
}

/// The name of a learner mode.
pub open spec fn mode_text(value: LearnerModeV2) -> Seq<char> {
    match value {
        LearnerModeV2::Off => "Off"@,
        LearnerModeV2::Shadow => "Shadow"@,
        LearnerModeV2::On => "On"@,
    }
}

/// The name of a learner mode.
pub fn mode_name(value: LearnerModeV2) -> (r: &'static str)
    ensures
        r@ == mode_text(value),
{
    match value {
        LearnerModeV2::Off => "Off",
        LearnerModeV2::Shadow => "Shadow",
        LearnerModeV2::On => "On",
    }
}

/// Put a value at a place behind the others.
fn put(fields: &mut Vec<TapFieldV2>, path: &str, value: TapValueV2)
    ensures
        tap_model(final(fields)@) == tap_model(old(fields)@).push((path@, value.model())),
{
    let ghost before = fields@;
    let ghost model = value.model();
    fields.push(TapFieldV2 { path: path.to_owned(), value });
    assert(tap_model(fields@) =~= tap_model(before).push((path@, model)));
}

/// Copies of some texts.
fn copy_texts(texts: &Vec<String>) -> (r: Vec<String>)
    ensures
        texts_of(r@) == texts_of(texts@),
{
    let mut copies: Vec<String> = Vec::new();
    let mut index: usize = 0;
    while index < texts.len()
        invariant
            index <= texts.len(),
            texts_of(copies@) == texts_of(texts@.take(index as int)),
        decreases texts.len() - index,
    {
        let ghost before = copies@;
        copies.push(texts[index].as_str().to_owned());
        proof {
            assert(texts_of(copies@) =~= texts_of(before).push(texts@[index as int]@));
            assert(texts_of(texts@.take(index + 1)) =~= texts_of(texts@.take(index as int)).push(
                texts@[index as int]@,
            ));
        }
        index = index + 1;
    }
    assert(texts@.take(index as int) =~= texts@);
    copies
}

/// The value of an optional text.
pub open spec fn optional_text(text: Option<String>) -> TapValueModel {
    match text {
        Some(text) => TapValueModel::Text(text@),
        None => TapValueModel::Null,
    }
}

/// The value of an optional text.
fn optional_value(text: &Option<String>) -> (r: TapValueV2)
    ensures
        r.model() == optional_text(*text),
{
    match text {
        Some(text) => TapValueV2::Text(text.as_str().to_owned()),
        None => TapValueV2::Null,
    }
}

/// Where a sample comes from.
pub open spec fn with_origin(
    fields: TapModel,
    peer: EndpointId,
    ticket_partition: Seq<char>,
    sample: AutotuneTapSampleV2,
) -> TapModel {
    fields
        .push(("schema_version"@, TapValueModel::Unsigned(TAP_SCHEMA_VERSION)))
        .push(("peer"@, TapValueModel::Text(hex_text(peer@))))
        .push(("tls_ticket_partition"@, TapValueModel::Text(ticket_partition)))
        .push(("sampled_unix_micros"@, TapValueModel::Unsigned(sample.sampled_unix_micros)))
        .push((
            "sample_interval_micros"@,
            TapValueModel::Unsigned(micros_of(sample.sample_elapsed) as u64),
        ))
        .push(("force_applied"@, TapValueModel::Flag(sample.force_applied)))
        .push(("path_identity"@, TapValueModel::Text(sample.path_identity@)))
        .push((
            "controller.congestion_window_bytes"@,
            TapValueModel::Unsigned(sample.controller_cwnd_bytes),
        ))
        .push((
            "controller.adaptive_cwnd_floor_bytes"@,
            TapValueModel::Unsigned(sample.adaptive_cwnd_floor_bytes),
        ))
        .push(("policy.id"@, TapValueModel::Text(sample.policy_id@)))
        .push(("policy.source"@, TapValueModel::Text(sample.policy_source@)))
        .push(("policy.shadow_id"@, optional_text(sample.shadow_policy_id)))
}

/// Where a sample comes from.
fn put_origin(
    fields: &mut Vec<TapFieldV2>,
    peer: &EndpointId,
    ticket_partition: &str,
    sample: &AutotuneTapSampleV2,
)
    ensures
        tap_model(final(fields)@) == with_origin(
            tap_model(old(fields)@),
            *peer,
            ticket_partition@,
            *sample,
        ),
{
    put(fields, "schema_version", TapValueV2::Unsigned(TAP_SCHEMA_VERSION));
    put(fields, "peer", TapValueV2::Text(peer.to_text()));
    put(fields, "tls_ticket_partition", TapValueV2::Text(ticket_partition.to_owned()));
    put(fields, "sampled_unix_micros", TapValueV2::Unsigned(sample.sampled_unix_micros));
    put(fields, "sample_interval_micros", TapValueV2::Unsigned(micros(sample.sample_elapsed)));
    put(fields, "force_applied", TapValueV2::Flag(sample.force_applied));
    put(fields, "path_identity", TapValueV2::Text(sample.path_identity.as_str().to_owned()));
    put(
        fields,
        "controller.congestion_window_bytes",
        TapValueV2::Unsigned(sample.controller_cwnd_bytes),
    );
    put(
        fields,
        "controller.adaptive_cwnd_floor_bytes",
        TapValueV2::Unsigned(sample.adaptive_cwnd_floor_bytes),
    );
    put(fields, "policy.id", TapValueV2::Text(sample.policy_id.as_str().to_owned()));
    put(fields, "policy.source", TapValueV2::Text(sample.policy_source.as_str().to_owned()));
    put(fields, "policy.shadow_id", optional_value(&sample.shadow_policy_id));
}

/// The telemetry of a sample.
pub open spec fn with_telemetry(fields: TapModel, telemetry: PathTelemetryV2) -> TapModel {
    fields
        .push(("telemetry.path_epoch"@, TapValueModel::Unsigned(telemetry.path_epoch)))
        .push((
            "telemetry.reliability"@,
            TapValueModel::Text(reliability_text(telemetry.reliability)),
        ))
        .push(("telemetry.rtt_micros"@, TapValueModel::Unsigned(micros_of(telemetry.rtt) as u64)))
        .push((
            "telemetry.min_rtt_micros"@,
            TapValueModel::Unsigned(micros_of(telemetry.min_rtt) as u64),
        ))
        .push((
            "telemetry.queue_delay_micros"@,
            TapValueModel::Unsigned(micros_of(telemetry.queue_delay) as u64),
        ))
        .push(("telemetry.loss_ppm"@, TapValueModel::Unsigned(telemetry.loss_ppm as u64)))
        .push((
            "telemetry.burst_loss_cells"@,
            TapValueModel::Unsigned(telemetry.burst_loss_cells as u64),
        ))
        .push(("telemetry.reorder_ppm"@, TapValueModel::Unsigned(telemetry.reorder_ppm as u64)))
        .push((
            "telemetry.receiver_goodput_bytes_per_second"@,
            TapValueModel::Unsigned(telemetry.receiver_goodput_bytes_per_second),
        ))
        .push((
            "telemetry.residual_loss_ppm"@,
            TapValueModel::Unsigned(telemetry.residual_loss_ppm as u64),
        ))
        .push((
            "telemetry.latency_sojourn_p95_micros"@,
            TapValueModel::Unsigned(telemetry.latency_sojourn_p95_micros),
        ))
        .push((
            "telemetry.latency_sojourn_p50_micros"@,
            TapValueModel::Unsigned(telemetry.latency_sojourn_p50_micros),
        ))
        .push((
            "telemetry.latency_sojourn_p99_micros"@,
            TapValueModel::Unsigned(telemetry.latency_sojourn_p99_micros),
        ))
        .push((
            "telemetry.latency_queue_recently_nonempty"@,
            TapValueModel::Flag(telemetry.latency_queue_recently_nonempty),
        ))
        .push((
            "telemetry.delivery_rate_bytes_per_second"@,
            TapValueModel::Unsigned(telemetry.delivery_rate_bytes_per_second),
        ))
        .push((
            "telemetry.controller_pacing_rate_bytes_per_second"@,
            TapValueModel::Unsigned(telemetry.controller_pacing_rate_bytes_per_second),
        ))
        .push((
            "telemetry.controller_send_quantum_bytes"@,
            TapValueModel::Unsigned(telemetry.controller_send_quantum_bytes),
        ))
        .push((
            "telemetry.controller_state"@,
            TapValueModel::Unsigned(telemetry.controller_state as u64),
        ))
        .push((
            "telemetry.controller_bw_bytes_per_second"@,
            TapValueModel::Unsigned(telemetry.controller_bw_bytes_per_second),
        ))
        .push((
            "telemetry.controller_inflight_longterm_bytes"@,
            TapValueModel::Unsigned(telemetry.controller_inflight_longterm_bytes),
        ))
        .push((
            "telemetry.controller_guard_transitions_delta"@,
            TapValueModel::Unsigned(telemetry.controller_guard_transitions_delta),
        ))
        .push((
            "telemetry.controller_app_limited"@,
            TapValueModel::Flag(telemetry.controller_app_limited),
        ))
        .push((
            "telemetry.controller_tunables_generation"@,
            TapValueModel::Unsigned(telemetry.controller_tunables_generation),
        ))
        .push((
            "telemetry.controller_params_generation"@,
            TapValueModel::Unsigned(telemetry.controller_params_generation),
        ))
        .push((
            "telemetry.controller_clamped_writes"@,
            TapValueModel::Unsigned(telemetry.controller_clamped_writes),
        ))
        .push((
            "telemetry.receive_rate_bytes_per_second"@,
            TapValueModel::Unsigned(telemetry.receive_rate_bytes_per_second),
        ))
        .push((
            "telemetry.packets_per_second"@,
            TapValueModel::Unsigned(telemetry.packets_per_second),
        ))
        .push((
            "telemetry.tun_ingress_bytes_per_second"@,
            TapValueModel::Unsigned(telemetry.tun_ingress_bytes_per_second),
        ))
        .push((
            "telemetry.average_record_bytes"@,
            TapValueModel::Unsigned(telemetry.average_record_bytes),
        ))
        .push((
            "telemetry.gso_ingress_ratio_ppm"@,
            TapValueModel::Unsigned(telemetry.gso_ingress_ratio_ppm as u64),
        ))
        .push((
            "telemetry.packet_train_queue_bytes"@,
            TapValueModel::Unsigned(telemetry.packet_train_queue_bytes),
        ))
        .push((
            "telemetry.latency_queue_bytes"@,
            TapValueModel::Unsigned(telemetry.latency_queue_bytes),
        ))
        .push((
            "telemetry.reassembly_pressure_evictions"@,
            TapValueModel::Unsigned(telemetry.reassembly_pressure_evictions),
        ))
        .push((
            "telemetry.remote_expired_stripes_delta"@,
            TapValueModel::Unsigned(telemetry.remote_expired_stripes_delta),
        ))
        .push((
            "telemetry.train_build_bytes_per_second"@,
            TapValueModel::Unsigned(telemetry.train_build_bytes_per_second),
        ))
        .push((
            "telemetry.bulk_preemption_delay_average_micros"@,
            TapValueModel::Unsigned(telemetry.bulk_preemption_delay_average_micros),
        ))
        .push((
            "telemetry.cpu_utilization_per_mille"@,
            TapValueModel::Unsigned(telemetry.cpu_utilization_per_mille as u64),
        ))
        .push((
            "telemetry.wasted_parity_per_mille"@,
            TapValueModel::Unsigned(telemetry.wasted_parity_per_mille as u64),
        ))
        .push((
            "telemetry.fec_recovery_per_mille"@,
            TapValueModel::Unsigned(telemetry.fec_recovery_per_mille as u64),
        ))
        .push((
            "telemetry.repair_hit_per_mille"@,
            TapValueModel::Unsigned(telemetry.repair_hit_per_mille as u64),
        ))
        .push((
            "telemetry.repair_completed_requests"@,
            TapValueModel::Unsigned(telemetry.repair_completed_requests),
        ))
        .push((
            "telemetry.repair_response_latency_micros"@,
            TapValueModel::Unsigned(micros_of(telemetry.repair_response_latency) as u64),
        ))
        .push((
            "telemetry.real_traffic_bytes_per_second"@,
            TapValueModel::Unsigned(telemetry.real_traffic_bytes_per_second),
        ))
}

/// The telemetry of a sample.
fn put_telemetry(fields: &mut Vec<TapFieldV2>, telemetry: PathTelemetryV2)
    ensures
        tap_model(final(fields)@) == with_telemetry(tap_model(old(fields)@), telemetry),
{
    put(fields, "telemetry.path_epoch", TapValueV2::Unsigned(telemetry.path_epoch));
    put(
        fields,
        "telemetry.reliability",
        TapValueV2::Text(reliability_name(telemetry.reliability).to_owned()),
    );
    put(fields, "telemetry.rtt_micros", TapValueV2::Unsigned(micros(telemetry.rtt)));
    put(fields, "telemetry.min_rtt_micros", TapValueV2::Unsigned(micros(telemetry.min_rtt)));
    put(
        fields,
        "telemetry.queue_delay_micros",
        TapValueV2::Unsigned(micros(telemetry.queue_delay)),
    );
    put(fields, "telemetry.loss_ppm", TapValueV2::Unsigned(telemetry.loss_ppm as u64));
    put(
        fields,
        "telemetry.burst_loss_cells",
        TapValueV2::Unsigned(telemetry.burst_loss_cells as u64),
    );
    put(fields, "telemetry.reorder_ppm", TapValueV2::Unsigned(telemetry.reorder_ppm as u64));
    put(
        fields,
        "telemetry.receiver_goodput_bytes_per_second",
        TapValueV2::Unsigned(telemetry.receiver_goodput_bytes_per_second),
    );
    put(
        fields,
        "telemetry.residual_loss_ppm",
        TapValueV2::Unsigned(telemetry.residual_loss_ppm as u64),
    );
    put(
        fields,
        "telemetry.latency_sojourn_p95_micros",
        TapValueV2::Unsigned(telemetry.latency_sojourn_p95_micros),
    );
    put(
        fields,
        "telemetry.latency_sojourn_p50_micros",
        TapValueV2::Unsigned(telemetry.latency_sojourn_p50_micros),
    );
    put(
        fields,
        "telemetry.latency_sojourn_p99_micros",
        TapValueV2::Unsigned(telemetry.latency_sojourn_p99_micros),
    );
    put(
        fields,
        "telemetry.latency_queue_recently_nonempty",
        TapValueV2::Flag(telemetry.latency_queue_recently_nonempty),
    );
    put(
        fields,
        "telemetry.delivery_rate_bytes_per_second",
        TapValueV2::Unsigned(telemetry.delivery_rate_bytes_per_second),
    );
    put(
        fields,
        "telemetry.controller_pacing_rate_bytes_per_second",
        TapValueV2::Unsigned(telemetry.controller_pacing_rate_bytes_per_second),
    );
    put(
        fields,
        "telemetry.controller_send_quantum_bytes",
        TapValueV2::Unsigned(telemetry.controller_send_quantum_bytes),
    );
    put(
        fields,
        "telemetry.controller_state",
        TapValueV2::Unsigned(telemetry.controller_state as u64),
    );
    put(
        fields,
        "telemetry.controller_bw_bytes_per_second",
        TapValueV2::Unsigned(telemetry.controller_bw_bytes_per_second),
    );
    put(
        fields,
        "telemetry.controller_inflight_longterm_bytes",
        TapValueV2::Unsigned(telemetry.controller_inflight_longterm_bytes),
    );
    put(
        fields,
        "telemetry.controller_guard_transitions_delta",
        TapValueV2::Unsigned(telemetry.controller_guard_transitions_delta),
    );
    put(
        fields,
        "telemetry.controller_app_limited",
        TapValueV2::Flag(telemetry.controller_app_limited),
    );
    put(
        fields,
        "telemetry.controller_tunables_generation",
        TapValueV2::Unsigned(telemetry.controller_tunables_generation),
    );
    put(
        fields,
        "telemetry.controller_params_generation",
        TapValueV2::Unsigned(telemetry.controller_params_generation),
    );
    put(
        fields,
        "telemetry.controller_clamped_writes",
        TapValueV2::Unsigned(telemetry.controller_clamped_writes),
    );
    put(
        fields,
        "telemetry.receive_rate_bytes_per_second",
        TapValueV2::Unsigned(telemetry.receive_rate_bytes_per_second),
    );
    put(fields, "telemetry.packets_per_second", TapValueV2::Unsigned(telemetry.packets_per_second));
    put(
        fields,
        "telemetry.tun_ingress_bytes_per_second",
        TapValueV2::Unsigned(telemetry.tun_ingress_bytes_per_second),
    );
    put(
        fields,
        "telemetry.average_record_bytes",
        TapValueV2::Unsigned(telemetry.average_record_bytes),
    );
    put(
        fields,
        "telemetry.gso_ingress_ratio_ppm",
        TapValueV2::Unsigned(telemetry.gso_ingress_ratio_ppm as u64),
    );
    put(
        fields,
        "telemetry.packet_train_queue_bytes",
        TapValueV2::Unsigned(telemetry.packet_train_queue_bytes),
    );
    put(
        fields,
        "telemetry.latency_queue_bytes",
        TapValueV2::Unsigned(telemetry.latency_queue_bytes),
    );
    put(
        fields,
        "telemetry.reassembly_pressure_evictions",
        TapValueV2::Unsigned(telemetry.reassembly_pressure_evictions),
    );
    put(
        fields,
        "telemetry.remote_expired_stripes_delta",
        TapValueV2::Unsigned(telemetry.remote_expired_stripes_delta),
    );
    put(
        fields,
        "telemetry.train_build_bytes_per_second",
        TapValueV2::Unsigned(telemetry.train_build_bytes_per_second),
    );
    put(
        fields,
        "telemetry.bulk_preemption_delay_average_micros",
        TapValueV2::Unsigned(telemetry.bulk_preemption_delay_average_micros),
    );
    put(
        fields,
        "telemetry.cpu_utilization_per_mille",
        TapValueV2::Unsigned(telemetry.cpu_utilization_per_mille as u64),
    );
    put(
        fields,
        "telemetry.wasted_parity_per_mille",
        TapValueV2::Unsigned(telemetry.wasted_parity_per_mille as u64),
    );
    put(
        fields,
        "telemetry.fec_recovery_per_mille",
        TapValueV2::Unsigned(telemetry.fec_recovery_per_mille as u64),
    );
    put(
        fields,
        "telemetry.repair_hit_per_mille",
        TapValueV2::Unsigned(telemetry.repair_hit_per_mille as u64),
    );
    put(
        fields,
        "telemetry.repair_completed_requests",
        TapValueV2::Unsigned(telemetry.repair_completed_requests),
    );
    put(
        fields,
        "telemetry.repair_response_latency_micros",
        TapValueV2::Unsigned(micros(telemetry.repair_response_latency)),
    );
    put(
        fields,
        "telemetry.real_traffic_bytes_per_second",
        TapValueV2::Unsigned(telemetry.real_traffic_bytes_per_second),
    );
}

/// The protection that a decision chose.
pub open spec fn with_protection(fields: TapModel, fec: Option<FecGeometryV2>) -> TapModel {
    match fec {
        Some(geometry) => fields
            .push(("decision.fec.data_cells"@, TapValueModel::Unsigned(geometry.data_cells as u64)))
            .push((
                "decision.fec.parity_cells"@,
                TapValueModel::Unsigned(geometry.parity_cells as u64),
            )),
        None => fields.push(("decision.fec"@, TapValueModel::Null)),
    }
}

/// The protection that a decision chose.
fn put_protection(fields: &mut Vec<TapFieldV2>, fec: Option<FecGeometryV2>)
    ensures
        tap_model(final(fields)@) == with_protection(tap_model(old(fields)@), fec),
{
    match fec {
        Some(geometry) => {
            put(
                fields,
                "decision.fec.data_cells",
                TapValueV2::Unsigned(geometry.data_cells as u64),
            );
            put(
                fields,
                "decision.fec.parity_cells",
                TapValueV2::Unsigned(geometry.parity_cells as u64),
            );
        },
        None => put(fields, "decision.fec", TapValueV2::Null),
    }
}

/// How a decision cuts the traffic.
pub open spec fn with_shape(fields: TapModel, decision: TuneDecisionV2) -> TapModel {
    fields
        .push(("decision.reason"@, TapValueModel::Text(reason_text(decision.reason))))
        .push(("decision.path_epoch"@, TapValueModel::Unsigned(decision.path_epoch)))
        .push(("decision.sample_count"@, TapValueModel::Unsigned(decision.sample_count as u64)))
        .push((
            "decision.train_target_bytes"@,
            TapValueModel::Unsigned(decision.train_target_bytes as u64),
        ))
        .push((
            "decision.bulk_quantum_cells"@,
            TapValueModel::Unsigned(decision.bulk_quantum_cells as u64),
        ))
}

/// How a decision cuts the traffic.
fn put_shape(fields: &mut Vec<TapFieldV2>, decision: TuneDecisionV2)
    ensures
        tap_model(final(fields)@) == with_shape(tap_model(old(fields)@), decision),
{
    put(fields, "decision.reason", TapValueV2::Text(reason_name(decision.reason).to_owned()));
    put(fields, "decision.path_epoch", TapValueV2::Unsigned(decision.path_epoch));
    put(fields, "decision.sample_count", TapValueV2::Unsigned(decision.sample_count as u64));
    put(
        fields,
        "decision.train_target_bytes",
        TapValueV2::Unsigned(decision.train_target_bytes as u64),
    );
    put(
        fields,
        "decision.bulk_quantum_cells",
        TapValueV2::Unsigned(decision.bulk_quantum_cells as u64),
    );
}

/// The memory and the cover traffic of a decision.
pub open spec fn with_memory_and_cover(fields: TapModel, decision: TuneDecisionV2) -> TapModel {
    fields
        .push((
            "decision.repair_cache_bytes"@,
            TapValueModel::Unsigned(decision.repair_cache_bytes as u64),
        ))
        .push((
            "decision.send_buffer_bytes"@,
            TapValueModel::Unsigned(decision.send_buffer_bytes as u64),
        ))
        .push((
            "decision.receive_buffer_bytes"@,
            TapValueModel::Unsigned(decision.receive_buffer_bytes as u64),
        ))
        .push(("decision.receive_batch"@, TapValueModel::Unsigned(decision.receive_batch as u64)))
        .push(("decision.cover_profile"@, TapValueModel::Text(cover_text(decision.cover_profile))))
        .push((
            "decision.cover_overhead_per_mille"@,
            TapValueModel::Unsigned(decision.cover_overhead_per_mille as u64),
        ))
        .push((
            "decision.cover_padding_bytes_per_second"@,
            TapValueModel::Unsigned(decision.cover_padding_bytes_per_second),
        ))
}

/// The memory and the cover traffic of a decision.
fn put_memory_and_cover(fields: &mut Vec<TapFieldV2>, decision: TuneDecisionV2)
    ensures
        tap_model(final(fields)@) == with_memory_and_cover(tap_model(old(fields)@), decision),
{
    put(
        fields,
        "decision.repair_cache_bytes",
        TapValueV2::Unsigned(decision.repair_cache_bytes as u64),
    );
    put(
        fields,
        "decision.send_buffer_bytes",
        TapValueV2::Unsigned(decision.send_buffer_bytes as u64),
    );
    put(
        fields,
        "decision.receive_buffer_bytes",
        TapValueV2::Unsigned(decision.receive_buffer_bytes as u64),
    );
    put(fields, "decision.receive_batch", TapValueV2::Unsigned(decision.receive_batch as u64));
    put(
        fields,
        "decision.cover_profile",
        TapValueV2::Text(cover_name(decision.cover_profile).to_owned()),
    );
    put(
        fields,
        "decision.cover_overhead_per_mille",
        TapValueV2::Unsigned(decision.cover_overhead_per_mille as u64),
    );
    put(
        fields,
        "decision.cover_padding_bytes_per_second",
        TapValueV2::Unsigned(decision.cover_padding_bytes_per_second),
    );
}

/// What a decision asks of the controller.
pub open spec fn with_controller(fields: TapModel, bbr: Bbr3ProposalV2) -> TapModel {
    fields
        .push(("decision.bbr.preset"@, TapValueModel::Text(preset_text(bbr.preset))))
        .push(("decision.bbr.up_gain_milli"@, TapValueModel::Unsigned(bbr.up_gain_milli as u64)))
        .push(("decision.bbr.headroom_milli"@, TapValueModel::Unsigned(bbr.headroom_milli as u64)))
        .push((
            "decision.bbr.cwnd_gain_milli"@,
            TapValueModel::Unsigned(bbr.cwnd_gain_milli as u64),
        ))
        .push((
            "decision.bbr.pacing_cap_bytes_per_second"@,
            TapValueModel::Unsigned(bbr.pacing_cap_bytes_per_second),
        ))
        .push(("decision.bbr.loss_is_congestion"@, TapValueModel::Flag(bbr.loss_is_congestion)))
}

/// What a decision asks of the controller.
fn put_controller(fields: &mut Vec<TapFieldV2>, bbr: Bbr3ProposalV2)
    ensures
        tap_model(final(fields)@) == with_controller(tap_model(old(fields)@), bbr),
{
    put(fields, "decision.bbr.preset", TapValueV2::Text(preset_name(bbr.preset).to_owned()));
    put(fields, "decision.bbr.up_gain_milli", TapValueV2::Unsigned(bbr.up_gain_milli as u64));
    put(fields, "decision.bbr.headroom_milli", TapValueV2::Unsigned(bbr.headroom_milli as u64));
    put(fields, "decision.bbr.cwnd_gain_milli", TapValueV2::Unsigned(bbr.cwnd_gain_milli as u64));
    put(
        fields,
        "decision.bbr.pacing_cap_bytes_per_second",
        TapValueV2::Unsigned(bbr.pacing_cap_bytes_per_second),
    );
    put(fields, "decision.bbr.loss_is_congestion", TapValueV2::Flag(bbr.loss_is_congestion));
}

/// A decision.
pub open spec fn with_decision(fields: TapModel, decision: TuneDecisionV2) -> TapModel {
    with_controller(
        with_memory_and_cover(with_protection(with_shape(fields, decision), decision.fec), decision),
        decision.bbr,
    )
}

/// A decision.
fn put_decision(fields: &mut Vec<TapFieldV2>, decision: TuneDecisionV2)
    ensures
        tap_model(final(fields)@) == with_decision(tap_model(old(fields)@), decision),
{
    put_shape(fields, decision);
    put_protection(fields, decision.fec);
    put_memory_and_cover(fields, decision);
    put_controller(fields, decision.bbr);
}

/// How good a sample was.
pub open spec fn with_utility(fields: TapModel, utility: TapUtilityV2) -> TapModel {
    fields
        .push(("utility.total"@, TapValueModel::Number(utility.total@)))
        .push(("utility.components"@, TapValueModel::Numbers(texts_of(utility.components@))))
        .push((
            "utility.goodput_bytes_per_second"@,
            TapValueModel::Unsigned(utility.goodput_bytes_per_second),
        ))
}

/// How good a sample was.
fn put_utility(fields: &mut Vec<TapFieldV2>, utility: &TapUtilityV2)
    ensures
        tap_model(final(fields)@) == with_utility(tap_model(old(fields)@), *utility),
{
    put(fields, "utility.total", TapValueV2::Number(utility.total.as_str().to_owned()));
    put(fields, "utility.components", TapValueV2::Numbers(copy_texts(&utility.components)));
    put(
        fields,
        "utility.goodput_bytes_per_second",
        TapValueV2::Unsigned(utility.goodput_bytes_per_second),
    );
}

/// What a sample put on the wire.
pub open spec fn with_wire_cost(fields: TapModel, cost: WireCostV2) -> TapModel {
    fields
        .push(("wire_cost.payload_bytes"@, TapValueModel::Unsigned(cost.payload_bytes)))
        .push(("wire_cost.parity_bytes"@, TapValueModel::Unsigned(cost.parity_bytes)))
        .push(("wire_cost.repair_bytes"@, TapValueModel::Unsigned(cost.repair_bytes)))
        .push(("wire_cost.cover_bytes"@, TapValueModel::Unsigned(cost.cover_bytes)))
        .push(("wire_cost.cell_envelope_bytes"@, TapValueModel::Unsigned(cost.cell_envelope_bytes)))
}

/// What a sample put on the wire.
fn put_wire_cost(fields: &mut Vec<TapFieldV2>, cost: WireCostV2)
    ensures
        tap_model(final(fields)@) == with_wire_cost(tap_model(old(fields)@), cost),
{
    put(fields, "wire_cost.payload_bytes", TapValueV2::Unsigned(cost.payload_bytes));
    put(fields, "wire_cost.parity_bytes", TapValueV2::Unsigned(cost.parity_bytes));
    put(fields, "wire_cost.repair_bytes", TapValueV2::Unsigned(cost.repair_bytes));
    put(fields, "wire_cost.cover_bytes", TapValueV2::Unsigned(cost.cover_bytes));
    put(fields, "wire_cost.cell_envelope_bytes", TapValueV2::Unsigned(cost.cell_envelope_bytes));
}

/// What the learner did.
pub open spec fn with_trace(fields: TapModel, trace: LearnerTraceV2) -> TapModel {
    fields
        .push(("learner.mode"@, TapValueModel::Text(mode_text(trace.mode))))
        .push(("learner.context.rtt_class"@, TapValueModel::Unsigned(trace.context.rtt_class)))
        .push(("learner.context.rate_class"@, TapValueModel::Unsigned(trace.context.rate_class)))
        .push(("learner.context.loss_class"@, TapValueModel::Unsigned(trace.context.loss_class)))
        .push(("learner.context.reliable"@, TapValueModel::Flag(trace.context.reliable)))
        .push(("learner.context.host_rtt"@, TapValueModel::Flag(trace.context.host_rtt)))
        .push(("learner.baseline_preset"@, TapValueModel::Text(preset_text(trace.baseline_preset))))
        .push(("learner.proposed_preset"@, TapValueModel::Text(preset_text(trace.proposed_preset))))
        .push(("learner.applied_preset"@, TapValueModel::Text(preset_text(trace.applied_preset))))
        .push(("learner.predicted_advantage"@, TapValueModel::Number(trace.predicted_advantage@)))
        .push(("learner.exploring"@, TapValueModel::Flag(trace.exploring)))
        .push(("learner.rollback"@, TapValueModel::Flag(trace.rollback)))
        .push(("learner.rollbacks"@, TapValueModel::Unsigned(trace.rollbacks)))
        .push((
            "learner.fine_up_gain_delta_milli"@,
            TapValueModel::Signed(trace.fine_up_gain_delta_milli),
        ))
        .push((
            "learner.fine_headroom_delta_milli"@,
            TapValueModel::Signed(trace.fine_headroom_delta_milli),
        ))
        .push((
            "learner.fine_cwnd_gain_delta_milli"@,
            TapValueModel::Signed(trace.fine_cwnd_gain_delta_milli),
        ))
}

/// What the learner did.
fn put_trace(fields: &mut Vec<TapFieldV2>, trace: &LearnerTraceV2)
    ensures
        tap_model(final(fields)@) == with_trace(tap_model(old(fields)@), *trace),
{
    put(fields, "learner.mode", TapValueV2::Text(mode_name(trace.mode).to_owned()));
    put(fields, "learner.context.rtt_class", TapValueV2::Unsigned(trace.context.rtt_class));
    put(fields, "learner.context.rate_class", TapValueV2::Unsigned(trace.context.rate_class));
    put(fields, "learner.context.loss_class", TapValueV2::Unsigned(trace.context.loss_class));
    put(fields, "learner.context.reliable", TapValueV2::Flag(trace.context.reliable));
    put(fields, "learner.context.host_rtt", TapValueV2::Flag(trace.context.host_rtt));
    put(
        fields,
        "learner.baseline_preset",
        TapValueV2::Text(preset_name(trace.baseline_preset).to_owned()),
    );
    put(
        fields,
        "learner.proposed_preset",
        TapValueV2::Text(preset_name(trace.proposed_preset).to_owned()),
    );
    put(
        fields,
        "learner.applied_preset",
        TapValueV2::Text(preset_name(trace.applied_preset).to_owned()),
    );
    put(
        fields,
        "learner.predicted_advantage",
        TapValueV2::Number(trace.predicted_advantage.as_str().to_owned()),
    );
    put(fields, "learner.exploring", TapValueV2::Flag(trace.exploring));
    put(fields, "learner.rollback", TapValueV2::Flag(trace.rollback));
    put(fields, "learner.rollbacks", TapValueV2::Unsigned(trace.rollbacks));
    put(
        fields,
        "learner.fine_up_gain_delta_milli",
        TapValueV2::Signed(trace.fine_up_gain_delta_milli),
    );
    put(
        fields,
        "learner.fine_headroom_delta_milli",
        TapValueV2::Signed(trace.fine_headroom_delta_milli),
    );
    put(
        fields,
        "learner.fine_cwnd_gain_delta_milli",
        TapValueV2::Signed(trace.fine_cwnd_gain_delta_milli),
    );
}

/// What the learner did, where there is one.
pub open spec fn with_learner(fields: TapModel, learner: Option<LearnerTraceV2>) -> TapModel {
    match learner {
        Some(trace) => with_trace(fields, trace),
        None => fields.push(("learner"@, TapValueModel::Null)),
    }
}

/// What the learner did, where there is one.
fn put_learner(fields: &mut Vec<TapFieldV2>, learner: &Option<LearnerTraceV2>)
    ensures
        tap_model(final(fields)@) == with_learner(tap_model(old(fields)@), *learner),
{
    match learner {
        Some(trace) => put_trace(fields, trace),
        None => put(fields, "learner", TapValueV2::Null),
    }
}

/// How good the shadow would have been.
pub open spec fn with_shadow_utility(
    fields: TapModel,
    policy_id: Option<String>,
    utility: TapUtilityV2,
) -> TapModel {
    fields
        .push(("shadow.policy_id"@, optional_text(policy_id)))
        .push(("shadow.utility.total"@, TapValueModel::Number(utility.total@)))
        .push(("shadow.utility.components"@, TapValueModel::Numbers(texts_of(utility.components@))))
        .push((
            "shadow.utility.goodput_bytes_per_second"@,
            TapValueModel::Unsigned(utility.goodput_bytes_per_second),
        ))
}

/// How good the shadow would have been.
fn put_shadow_utility(
    fields: &mut Vec<TapFieldV2>,
    policy_id: &Option<String>,
    utility: &TapUtilityV2,
)
    ensures
        tap_model(final(fields)@) == with_shadow_utility(
            tap_model(old(fields)@),
            *policy_id,
            *utility,
        ),
{
    put(fields, "shadow.policy_id", optional_value(policy_id));
    put(fields, "shadow.utility.total", TapValueV2::Number(utility.total.as_str().to_owned()));
    put(fields, "shadow.utility.components", TapValueV2::Numbers(copy_texts(&utility.components)));
    put(
        fields,
        "shadow.utility.goodput_bytes_per_second",
        TapValueV2::Unsigned(utility.goodput_bytes_per_second),
    );
}

/// The protection that the shadow would have chosen.
pub open spec fn with_shadow_protection(fields: TapModel, fec: Option<FecGeometryV2>) -> TapModel {
    match fec {
        Some(geometry) => fields
            .push((
                "shadow.decision.fec.data_cells"@,
                TapValueModel::Unsigned(geometry.data_cells as u64),
            ))
            .push((
                "shadow.decision.fec.parity_cells"@,
                TapValueModel::Unsigned(geometry.parity_cells as u64),
            )),
        None => fields.push(("shadow.decision.fec"@, TapValueModel::Null)),
    }
}

/// The protection that the shadow would have chosen.
fn put_shadow_protection(fields: &mut Vec<TapFieldV2>, fec: Option<FecGeometryV2>)
    ensures
        tap_model(final(fields)@) == with_shadow_protection(tap_model(old(fields)@), fec),
{
    match fec {
        Some(geometry) => {
            put(
                fields,
                "shadow.decision.fec.data_cells",
                TapValueV2::Unsigned(geometry.data_cells as u64),
            );
            put(
                fields,
                "shadow.decision.fec.parity_cells",
                TapValueV2::Unsigned(geometry.parity_cells as u64),
            );
        },
        None => put(fields, "shadow.decision.fec", TapValueV2::Null),
    }
}

/// How the shadow would have cut the traffic.
pub open spec fn with_shadow_shape(fields: TapModel, decision: TuneDecisionV2) -> TapModel {
    fields
        .push((
            "shadow.decision.train_target_bytes"@,
            TapValueModel::Unsigned(decision.train_target_bytes as u64),
        ))
        .push((
            "shadow.decision.bulk_quantum_cells"@,
            TapValueModel::Unsigned(decision.bulk_quantum_cells as u64),
        ))
}

/// How the shadow would have cut the traffic.
fn put_shadow_shape(fields: &mut Vec<TapFieldV2>, decision: TuneDecisionV2)
    ensures
        tap_model(final(fields)@) == with_shadow_shape(tap_model(old(fields)@), decision),
{
    put(
        fields,
        "shadow.decision.train_target_bytes",
        TapValueV2::Unsigned(decision.train_target_bytes as u64),
    );
    put(
        fields,
        "shadow.decision.bulk_quantum_cells",
        TapValueV2::Unsigned(decision.bulk_quantum_cells as u64),
    );
}

/// The cover traffic that the shadow would have sent.
pub open spec fn with_shadow_cover(fields: TapModel, decision: TuneDecisionV2) -> TapModel {
    fields
        .push((
            "shadow.decision.cover_profile"@,
            TapValueModel::Text(cover_text(decision.cover_profile)),
        ))
        .push((
            "shadow.decision.cover_overhead_per_mille"@,
            TapValueModel::Unsigned(decision.cover_overhead_per_mille as u64),
        ))
}

/// The cover traffic that the shadow would have sent.
fn put_shadow_cover(fields: &mut Vec<TapFieldV2>, decision: TuneDecisionV2)
    ensures
        tap_model(final(fields)@) == with_shadow_cover(tap_model(old(fields)@), decision),
{
    put(
        fields,
        "shadow.decision.cover_profile",
        TapValueV2::Text(cover_name(decision.cover_profile).to_owned()),
    );
    put(
        fields,
        "shadow.decision.cover_overhead_per_mille",
        TapValueV2::Unsigned(decision.cover_overhead_per_mille as u64),
    );
}

/// What the shadow would have asked of the controller.
pub open spec fn with_shadow_controller(fields: TapModel, bbr: Bbr3ProposalV2) -> TapModel {
    fields
        .push(("shadow.decision.bbr.preset"@, TapValueModel::Text(preset_text(bbr.preset))))
        .push((
            "shadow.decision.bbr.up_gain_milli"@,
            TapValueModel::Unsigned(bbr.up_gain_milli as u64),
        ))
        .push((
            "shadow.decision.bbr.headroom_milli"@,
            TapValueModel::Unsigned(bbr.headroom_milli as u64),
        ))
        .push((
            "shadow.decision.bbr.cwnd_gain_milli"@,
            TapValueModel::Unsigned(bbr.cwnd_gain_milli as u64),
        ))
        .push((
            "shadow.decision.bbr.pacing_cap_bytes_per_second"@,
            TapValueModel::Unsigned(bbr.pacing_cap_bytes_per_second),
        ))
}

/// What the shadow would have asked of the controller.
fn put_shadow_controller(fields: &mut Vec<TapFieldV2>, bbr: Bbr3ProposalV2)
    ensures
        tap_model(final(fields)@) == with_shadow_controller(tap_model(old(fields)@), bbr),
{
    put(fields, "shadow.decision.bbr.preset", TapValueV2::Text(preset_name(bbr.preset).to_owned()));
    put(
        fields,
        "shadow.decision.bbr.up_gain_milli",
        TapValueV2::Unsigned(bbr.up_gain_milli as u64),
    );
    put(
        fields,
        "shadow.decision.bbr.headroom_milli",
        TapValueV2::Unsigned(bbr.headroom_milli as u64),
    );
    put(
        fields,
        "shadow.decision.bbr.cwnd_gain_milli",
        TapValueV2::Unsigned(bbr.cwnd_gain_milli as u64),
    );
    put(
        fields,
        "shadow.decision.bbr.pacing_cap_bytes_per_second",
        TapValueV2::Unsigned(bbr.pacing_cap_bytes_per_second),
    );
}

/// What the shadow learner did.
pub open spec fn with_shadow_trace(fields: TapModel, trace: LearnerTraceV2) -> TapModel {
    fields
        .push(("shadow.trace.context.rtt_class"@, TapValueModel::Unsigned(trace.context.rtt_class)))
        .push((
            "shadow.trace.context.rate_class"@,
            TapValueModel::Unsigned(trace.context.rate_class),
        ))
        .push((
            "shadow.trace.context.loss_class"@,
            TapValueModel::Unsigned(trace.context.loss_class),
        ))
        .push(("shadow.trace.context.reliable"@, TapValueModel::Flag(trace.context.reliable)))
        .push(("shadow.trace.context.host_rtt"@, TapValueModel::Flag(trace.context.host_rtt)))
        .push((
            "shadow.trace.baseline_preset"@,
            TapValueModel::Text(preset_text(trace.baseline_preset)),
        ))
        .push((
            "shadow.trace.proposed_preset"@,
            TapValueModel::Text(preset_text(trace.proposed_preset)),
        ))
        .push((
            "shadow.trace.predicted_advantage"@,
            TapValueModel::Number(trace.predicted_advantage@),
        ))
        .push(("shadow.trace.exploring"@, TapValueModel::Flag(trace.exploring)))
}

/// What the shadow learner did.
fn put_shadow_trace(fields: &mut Vec<TapFieldV2>, trace: &LearnerTraceV2)
    ensures
        tap_model(final(fields)@) == with_shadow_trace(tap_model(old(fields)@), *trace),
{
    put(fields, "shadow.trace.context.rtt_class", TapValueV2::Unsigned(trace.context.rtt_class));
    put(fields, "shadow.trace.context.rate_class", TapValueV2::Unsigned(trace.context.rate_class));
    put(fields, "shadow.trace.context.loss_class", TapValueV2::Unsigned(trace.context.loss_class));
    put(fields, "shadow.trace.context.reliable", TapValueV2::Flag(trace.context.reliable));
    put(fields, "shadow.trace.context.host_rtt", TapValueV2::Flag(trace.context.host_rtt));
    put(
        fields,
        "shadow.trace.baseline_preset",
        TapValueV2::Text(preset_name(trace.baseline_preset).to_owned()),
    );
    put(
        fields,
        "shadow.trace.proposed_preset",
        TapValueV2::Text(preset_name(trace.proposed_preset).to_owned()),
    );
    put(
        fields,
        "shadow.trace.predicted_advantage",
        TapValueV2::Number(trace.predicted_advantage.as_str().to_owned()),
    );
    put(fields, "shadow.trace.exploring", TapValueV2::Flag(trace.exploring));
}

/// The shadow's decision.
pub open spec fn with_shadow_decision(fields: TapModel, decision: TuneDecisionV2) -> TapModel {
    with_shadow_controller(
        with_shadow_cover(
            with_shadow_protection(with_shadow_shape(fields, decision), decision.fec),
            decision,
        ),
        decision.bbr,
    )
}

/// What the shadow would have done, where there is one.
pub open spec fn with_shadow(
    fields: TapModel,
    policy_id: Option<String>,
    shadow: Option<ShadowEvaluationV2>,
) -> TapModel {
    match shadow {
        Some(shadow) => with_shadow_trace(
            with_shadow_decision(
                with_shadow_utility(fields, policy_id, shadow.utility),
                shadow.decision,
            ),
            shadow.trace,
        ),
        None => fields.push(("shadow"@, TapValueModel::Null)),
    }
}

/// What the shadow would have done, where there is one.
fn put_shadow(
    fields: &mut Vec<TapFieldV2>,
    policy_id: &Option<String>,
    shadow: &Option<ShadowEvaluationV2>,
)
    ensures
        tap_model(final(fields)@) == with_shadow(tap_model(old(fields)@), *policy_id, *shadow),
{
    match shadow {
        Some(shadow) => {
            put_shadow_utility(fields, policy_id, &shadow.utility);
            put_shadow_shape(fields, shadow.decision);
            put_shadow_protection(fields, shadow.decision.fec);
            put_shadow_cover(fields, shadow.decision);
            put_shadow_controller(fields, shadow.decision.bbr);
            put_shadow_trace(fields, &shadow.trace);
        },
        None => put(fields, "shadow", TapValueV2::Null),
    }
}

/// The record of a sample over character sequences.
pub open spec fn tap_record(
    peer: EndpointId,
    ticket_partition: Seq<char>,
    sample: AutotuneTapSampleV2,
) -> TapModel {
    let origin = with_origin(Seq::empty(), peer, ticket_partition, sample);
    let live = with_decision(with_telemetry(origin, sample.telemetry), sample.decision);
    let cost = with_wire_cost(with_utility(live, sample.utility), sample.wire_cost);
    with_shadow(with_learner(cost, sample.learner), sample.shadow_policy_id, sample.shadow)
}

/// The record of a sample: its origin, telemetry, decision, utility, wire cost,
/// learner and shadow.
pub fn autotune_tap_record(
    peer: &EndpointId,
    ticket_partition: &str,
    sample: &AutotuneTapSampleV2,
) -> (r: Vec<TapFieldV2>)
    ensures
        tap_model(r@) == tap_record(*peer, ticket_partition@, *sample),
{
    let mut fields: Vec<TapFieldV2> = Vec::new();
    assert(tap_model(fields@) =~= Seq::empty());
    put_origin(&mut fields, peer, ticket_partition, sample);
    put_telemetry(&mut fields, sample.telemetry);
    put_decision(&mut fields, sample.decision);
    put_utility(&mut fields, &sample.utility);
    put_wire_cost(&mut fields, sample.wire_cost);
    put_learner(&mut fields, &sample.learner);
    put_shadow(&mut fields, &sample.shadow_policy_id, &sample.shadow);
    fields
}

/// Every record says its layout's version first.
pub proof fn lemma_record_is_versioned(
    peer: EndpointId,
    ticket_partition: Seq<char>,
    sample: AutotuneTapSampleV2,
)
    ensures
        tap_record(peer, ticket_partition, sample).len() > 0,
        tap_record(peer, ticket_partition, sample)[0] == (
            "schema_version"@,
            TapValueModel::Unsigned(TAP_SCHEMA_VERSION),
        ),
{
    let origin = with_origin(Seq::empty(), peer, ticket_partition, sample);
    let telemetry = with_telemetry(origin, sample.telemetry);
    let live = with_decision(telemetry, sample.decision);
    let cost = with_wire_cost(with_utility(live, sample.utility), sample.wire_cost);
    let learner = with_learner(cost, sample.learner);
    assert(origin.len() > 0 && origin[0] == (
        "schema_version"@,
        TapValueModel::Unsigned(TAP_SCHEMA_VERSION),
    ));
    assert(telemetry.len() > 0 && telemetry[0] == origin[0]);
    assert(live.len() > 0 && live[0] == telemetry[0]);
    assert(cost.len() > 0 && cost[0] == live[0]);
    assert(learner.len() > 0 && learner[0] == cost[0]);
}

/// A record begins with where it comes from: the peer, the ticket partition, when
/// and over which time it was sampled, the path, the controller's window and the
/// policies.
pub proof fn lemma_record_says_where_it_comes_from(fields: TapModel, peer: EndpointId, ticket_partition: Seq<char>, sample: AutotuneTapSampleV2)
    ensures
        ({
            let record = with_origin(fields, peer, ticket_partition, sample);
            let n = fields.len() as int;
            &&& record.len() == n + 12
            &&& record.take(n) == fields
            &&& record[n + 0] == ("schema_version"@, TapValueModel::Unsigned(TAP_SCHEMA_VERSION))
            &&& record[n + 1] == ("peer"@, TapValueModel::Text(hex_text(peer@)))
            &&& record[n + 2] == ("tls_ticket_partition"@, TapValueModel::Text(ticket_partition))
            &&& record[n + 3] == ("sampled_unix_micros"@, TapValueModel::Unsigned(sample.sampled_unix_micros))
            &&& record[n + 4] == ("sample_interval_micros"@, TapValueModel::Unsigned(micros_of(sample.sample_elapsed) as u64))
            &&& record[n + 5] == ("force_applied"@, TapValueModel::Flag(sample.force_applied))
            &&& record[n + 6] == ("path_identity"@, TapValueModel::Text(sample.path_identity@))
            &&& record[n + 7] == ("controller.congestion_window_bytes"@, TapValueModel::Unsigned(sample.controller_cwnd_bytes))
            &&& record[n + 8] == ("controller.adaptive_cwnd_floor_bytes"@, TapValueModel::Unsigned(sample.adaptive_cwnd_floor_bytes))
            &&& record[n + 9] == ("policy.id"@, TapValueModel::Text(sample.policy_id@))
            &&& record[n + 10] == ("policy.source"@, TapValueModel::Text(sample.policy_source@))
            &&& record[n + 11] == ("policy.shadow_id"@, optional_text(sample.shadow_policy_id))
        }),
{
    let record = with_origin(fields, peer, ticket_partition, sample);
    assert(record.take(fields.len() as int) =~= fields);
}

/// A record lists every figure of the telemetry under its own name.
pub proof fn lemma_record_lists_the_telemetry(fields: TapModel, telemetry: PathTelemetryV2)
    ensures
        ({
            let record = with_telemetry(fields, telemetry);
            let n = fields.len() as int;
            &&& record.len() == n + 43
            &&& record.take(n) == fields
            &&& record[n + 0] == ("telemetry.path_epoch"@, TapValueModel::Unsigned(telemetry.path_epoch))
            &&& record[n + 1] == ("telemetry.reliability"@, TapValueModel::Text(reliability_text(telemetry.reliability)))
            &&& record[n + 2] == ("telemetry.rtt_micros"@, TapValueModel::Unsigned(micros_of(telemetry.rtt) as u64))
            &&& record[n + 3] == ("telemetry.min_rtt_micros"@, TapValueModel::Unsigned(micros_of(telemetry.min_rtt) as u64))
            &&& record[n + 4] == ("telemetry.queue_delay_micros"@, TapValueModel::Unsigned(micros_of(telemetry.queue_delay) as u64))
            &&& record[n + 5] == ("telemetry.loss_ppm"@, TapValueModel::Unsigned(telemetry.loss_ppm as u64))
            &&& record[n + 6] == ("telemetry.burst_loss_cells"@, TapValueModel::Unsigned(telemetry.burst_loss_cells as u64))
            &&& record[n + 7] == ("telemetry.reorder_ppm"@, TapValueModel::Unsigned(telemetry.reorder_ppm as u64))
            &&& record[n + 8] == ("telemetry.receiver_goodput_bytes_per_second"@, TapValueModel::Unsigned(telemetry.receiver_goodput_bytes_per_second))
            &&& record[n + 9] == ("telemetry.residual_loss_ppm"@, TapValueModel::Unsigned(telemetry.residual_loss_ppm as u64))
            &&& record[n + 10] == ("telemetry.latency_sojourn_p95_micros"@, TapValueModel::Unsigned(telemetry.latency_sojourn_p95_micros))
            &&& record[n + 11] == ("telemetry.latency_sojourn_p50_micros"@, TapValueModel::Unsigned(telemetry.latency_sojourn_p50_micros))
            &&& record[n + 12] == ("telemetry.latency_sojourn_p99_micros"@, TapValueModel::Unsigned(telemetry.latency_sojourn_p99_micros))
            &&& record[n + 13] == ("telemetry.latency_queue_recently_nonempty"@, TapValueModel::Flag(telemetry.latency_queue_recently_nonempty))
            &&& record[n + 14] == ("telemetry.delivery_rate_bytes_per_second"@, TapValueModel::Unsigned(telemetry.delivery_rate_bytes_per_second))
            &&& record[n + 15] == ("telemetry.controller_pacing_rate_bytes_per_second"@, TapValueModel::Unsigned(telemetry.controller_pacing_rate_bytes_per_second))
            &&& record[n + 16] == ("telemetry.controller_send_quantum_bytes"@, TapValueModel::Unsigned(telemetry.controller_send_quantum_bytes))
            &&& record[n + 17] == ("telemetry.controller_state"@, TapValueModel::Unsigned(telemetry.controller_state as u64))
            &&& record[n + 18] == ("telemetry.controller_bw_bytes_per_second"@, TapValueModel::Unsigned(telemetry.controller_bw_bytes_per_second))
            &&& record[n + 19] == ("telemetry.controller_inflight_longterm_bytes"@, TapValueModel::Unsigned(telemetry.controller_inflight_longterm_bytes))
            &&& record[n + 20] == ("telemetry.controller_guard_transitions_delta"@, TapValueModel::Unsigned(telemetry.controller_guard_transitions_delta))
            &&& record[n + 21] == ("telemetry.controller_app_limited"@, TapValueModel::Flag(telemetry.controller_app_limited))
            &&& record[n + 22] == ("telemetry.controller_tunables_generation"@, TapValueModel::Unsigned(telemetry.controller_tunables_generation))
            &&& record[n + 23] == ("telemetry.controller_params_generation"@, TapValueModel::Unsigned(telemetry.controller_params_generation))
            &&& record[n + 24] == ("telemetry.controller_clamped_writes"@, TapValueModel::Unsigned(telemetry.controller_clamped_writes))
            &&& record[n + 25] == ("telemetry.receive_rate_bytes_per_second"@, TapValueModel::Unsigned(telemetry.receive_rate_bytes_per_second))
            &&& record[n + 26] == ("telemetry.packets_per_second"@, TapValueModel::Unsigned(telemetry.packets_per_second))
            &&& record[n + 27] == ("telemetry.tun_ingress_bytes_per_second"@, TapValueModel::Unsigned(telemetry.tun_ingress_bytes_per_second))
            &&& record[n + 28] == ("telemetry.average_record_bytes"@, TapValueModel::Unsigned(telemetry.average_record_bytes))
            &&& record[n + 29] == ("telemetry.gso_ingress_ratio_ppm"@, TapValueModel::Unsigned(telemetry.gso_ingress_ratio_ppm as u64))
            &&& record[n + 30] == ("telemetry.packet_train_queue_bytes"@, TapValueModel::Unsigned(telemetry.packet_train_queue_bytes))
            &&& record[n + 31] == ("telemetry.latency_queue_bytes"@, TapValueModel::Unsigned(telemetry.latency_queue_bytes))
            &&& record[n + 32] == ("telemetry.reassembly_pressure_evictions"@, TapValueModel::Unsigned(telemetry.reassembly_pressure_evictions))
            &&& record[n + 33] == ("telemetry.remote_expired_stripes_delta"@, TapValueModel::Unsigned(telemetry.remote_expired_stripes_delta))
            &&& record[n + 34] == ("telemetry.train_build_bytes_per_second"@, TapValueModel::Unsigned(telemetry.train_build_bytes_per_second))
            &&& record[n + 35] == ("telemetry.bulk_preemption_delay_average_micros"@, TapValueModel::Unsigned(telemetry.bulk_preemption_delay_average_micros))
            &&& record[n + 36] == ("telemetry.cpu_utilization_per_mille"@, TapValueModel::Unsigned(telemetry.cpu_utilization_per_mille as u64))
            &&& record[n + 37] == ("telemetry.wasted_parity_per_mille"@, TapValueModel::Unsigned(telemetry.wasted_parity_per_mille as u64))
            &&& record[n + 38] == ("telemetry.fec_recovery_per_mille"@, TapValueModel::Unsigned(telemetry.fec_recovery_per_mille as u64))
            &&& record[n + 39] == ("telemetry.repair_hit_per_mille"@, TapValueModel::Unsigned(telemetry.repair_hit_per_mille as u64))
            &&& record[n + 40] == ("telemetry.repair_completed_requests"@, TapValueModel::Unsigned(telemetry.repair_completed_requests))
            &&& record[n + 41] == ("telemetry.repair_response_latency_micros"@, TapValueModel::Unsigned(micros_of(telemetry.repair_response_latency) as u64))
            &&& record[n + 42] == ("telemetry.real_traffic_bytes_per_second"@, TapValueModel::Unsigned(telemetry.real_traffic_bytes_per_second))
        }),
{
    let record = with_telemetry(fields, telemetry);
    assert(record.take(fields.len() as int) =~= fields);
}

/// A record lists why a decision was made, and how it shapes trains.
pub proof fn lemma_record_lists_the_shape(fields: TapModel, decision: TuneDecisionV2)
    ensures
        ({
            let record = with_shape(fields, decision);
            let n = fields.len() as int;
            &&& record.len() == n + 5
            &&& record.take(n) == fields
            &&& record[n + 0] == ("decision.reason"@, TapValueModel::Text(reason_text(decision.reason)))
            &&& record[n + 1] == ("decision.path_epoch"@, TapValueModel::Unsigned(decision.path_epoch))
            &&& record[n + 2] == ("decision.sample_count"@, TapValueModel::Unsigned(decision.sample_count as u64))
            &&& record[n + 3] == ("decision.train_target_bytes"@, TapValueModel::Unsigned(decision.train_target_bytes as u64))
            &&& record[n + 4] == ("decision.bulk_quantum_cells"@, TapValueModel::Unsigned(decision.bulk_quantum_cells as u64))
        }),
{
    let record = with_shape(fields, decision);
    assert(record.take(fields.len() as int) =~= fields);
}

/// A record lists the buffers and the cover of a decision.
pub proof fn lemma_record_lists_memory_and_cover(fields: TapModel, decision: TuneDecisionV2)
    ensures
        ({
            let record = with_memory_and_cover(fields, decision);
            let n = fields.len() as int;
            &&& record.len() == n + 7
            &&& record.take(n) == fields
            &&& record[n + 0] == ("decision.repair_cache_bytes"@, TapValueModel::Unsigned(decision.repair_cache_bytes as u64))
            &&& record[n + 1] == ("decision.send_buffer_bytes"@, TapValueModel::Unsigned(decision.send_buffer_bytes as u64))
            &&& record[n + 2] == ("decision.receive_buffer_bytes"@, TapValueModel::Unsigned(decision.receive_buffer_bytes as u64))
            &&& record[n + 3] == ("decision.receive_batch"@, TapValueModel::Unsigned(decision.receive_batch as u64))
            &&& record[n + 4] == ("decision.cover_profile"@, TapValueModel::Text(cover_text(decision.cover_profile)))
            &&& record[n + 5] == ("decision.cover_overhead_per_mille"@, TapValueModel::Unsigned(decision.cover_overhead_per_mille as u64))
            &&& record[n + 6] == ("decision.cover_padding_bytes_per_second"@, TapValueModel::Unsigned(decision.cover_padding_bytes_per_second))
        }),
{
    let record = with_memory_and_cover(fields, decision);
    assert(record.take(fields.len() as int) =~= fields);
}

/// A record lists what a decision proposes to the controller.
pub proof fn lemma_record_lists_the_controller(fields: TapModel, bbr: Bbr3ProposalV2)
    ensures
        ({
            let record = with_controller(fields, bbr);
            let n = fields.len() as int;
            &&& record.len() == n + 6
            &&& record.take(n) == fields
            &&& record[n + 0] == ("decision.bbr.preset"@, TapValueModel::Text(preset_text(bbr.preset)))
            &&& record[n + 1] == ("decision.bbr.up_gain_milli"@, TapValueModel::Unsigned(bbr.up_gain_milli as u64))
            &&& record[n + 2] == ("decision.bbr.headroom_milli"@, TapValueModel::Unsigned(bbr.headroom_milli as u64))
            &&& record[n + 3] == ("decision.bbr.cwnd_gain_milli"@, TapValueModel::Unsigned(bbr.cwnd_gain_milli as u64))
            &&& record[n + 4] == ("decision.bbr.pacing_cap_bytes_per_second"@, TapValueModel::Unsigned(bbr.pacing_cap_bytes_per_second))
            &&& record[n + 5] == ("decision.bbr.loss_is_congestion"@, TapValueModel::Flag(bbr.loss_is_congestion))
        }),
{
    let record = with_controller(fields, bbr);
    assert(record.take(fields.len() as int) =~= fields);
}

/// A record lists the utility.
pub proof fn lemma_record_lists_the_utility(fields: TapModel, utility: TapUtilityV2)
    ensures
        ({
            let record = with_utility(fields, utility);
            let n = fields.len() as int;
            &&& record.len() == n + 3
            &&& record.take(n) == fields
            &&& record[n + 0] == ("utility.total"@, TapValueModel::Number(utility.total@))
            &&& record[n + 1] == ("utility.components"@, TapValueModel::Numbers(texts_of(utility.components@)))
            &&& record[n + 2] == ("utility.goodput_bytes_per_second"@, TapValueModel::Unsigned(utility.goodput_bytes_per_second))
        }),
{
    let record = with_utility(fields, utility);
    assert(record.take(fields.len() as int) =~= fields);
}

/// A record lists the bytes that were sent, kind by kind.
pub proof fn lemma_record_lists_the_wire_cost(fields: TapModel, cost: WireCostV2)
    ensures
        ({
            let record = with_wire_cost(fields, cost);
            let n = fields.len() as int;
            &&& record.len() == n + 5
            &&& record.take(n) == fields
            &&& record[n + 0] == ("wire_cost.payload_bytes"@, TapValueModel::Unsigned(cost.payload_bytes))
            &&& record[n + 1] == ("wire_cost.parity_bytes"@, TapValueModel::Unsigned(cost.parity_bytes))
            &&& record[n + 2] == ("wire_cost.repair_bytes"@, TapValueModel::Unsigned(cost.repair_bytes))
            &&& record[n + 3] == ("wire_cost.cover_bytes"@, TapValueModel::Unsigned(cost.cover_bytes))
            &&& record[n + 4] == ("wire_cost.cell_envelope_bytes"@, TapValueModel::Unsigned(cost.cell_envelope_bytes))
        }),
{
    let record = with_wire_cost(fields, cost);
    assert(record.take(fields.len() as int) =~= fields);
}

/// A record lists what the learner saw, proposed and applied.
pub proof fn lemma_record_lists_the_learner(fields: TapModel, trace: LearnerTraceV2)
    ensures
        ({
            let record = with_trace(fields, trace);
            let n = fields.len() as int;
            &&& record.len() == n + 16
            &&& record.take(n) == fields
            &&& record[n + 0] == ("learner.mode"@, TapValueModel::Text(mode_text(trace.mode)))
            &&& record[n + 1] == ("learner.context.rtt_class"@, TapValueModel::Unsigned(trace.context.rtt_class))
            &&& record[n + 2] == ("learner.context.rate_class"@, TapValueModel::Unsigned(trace.context.rate_class))
            &&& record[n + 3] == ("learner.context.loss_class"@, TapValueModel::Unsigned(trace.context.loss_class))
            &&& record[n + 4] == ("learner.context.reliable"@, TapValueModel::Flag(trace.context.reliable))
            &&& record[n + 5] == ("learner.context.host_rtt"@, TapValueModel::Flag(trace.context.host_rtt))
            &&& record[n + 6] == ("learner.baseline_preset"@, TapValueModel::Text(preset_text(trace.baseline_preset)))
            &&& record[n + 7] == ("learner.proposed_preset"@, TapValueModel::Text(preset_text(trace.proposed_preset)))
            &&& record[n + 8] == ("learner.applied_preset"@, TapValueModel::Text(preset_text(trace.applied_preset)))
            &&& record[n + 9] == ("learner.predicted_advantage"@, TapValueModel::Number(trace.predicted_advantage@))
            &&& record[n + 10] == ("learner.exploring"@, TapValueModel::Flag(trace.exploring))
            &&& record[n + 11] == ("learner.rollback"@, TapValueModel::Flag(trace.rollback))
            &&& record[n + 12] == ("learner.rollbacks"@, TapValueModel::Unsigned(trace.rollbacks))
            &&& record[n + 13] == ("learner.fine_up_gain_delta_milli"@, TapValueModel::Signed(trace.fine_up_gain_delta_milli))
            &&& record[n + 14] == ("learner.fine_headroom_delta_milli"@, TapValueModel::Signed(trace.fine_headroom_delta_milli))
            &&& record[n + 15] == ("learner.fine_cwnd_gain_delta_milli"@, TapValueModel::Signed(trace.fine_cwnd_gain_delta_milli))
        }),
{
    let record = with_trace(fields, trace);
    assert(record.take(fields.len() as int) =~= fields);
}

/// A record lists the utility of the shadow policy.
pub proof fn lemma_record_lists_the_shadow_utility(fields: TapModel, policy_id: Option<String>, utility: TapUtilityV2)
    ensures
        ({
            let record = with_shadow_utility(fields, policy_id, utility);
            let n = fields.len() as int;
            &&& record.len() == n + 4
            &&& record.take(n) == fields
            &&& record[n + 0] == ("shadow.policy_id"@, optional_text(policy_id))
            &&& record[n + 1] == ("shadow.utility.total"@, TapValueModel::Number(utility.total@))
            &&& record[n + 2] == ("shadow.utility.components"@, TapValueModel::Numbers(texts_of(utility.components@)))
            &&& record[n + 3] == ("shadow.utility.goodput_bytes_per_second"@, TapValueModel::Unsigned(utility.goodput_bytes_per_second))
        }),
{
    let record = with_shadow_utility(fields, policy_id, utility);
    assert(record.take(fields.len() as int) =~= fields);
}

/// A record lists how the shadow policy would shape trains.
pub proof fn lemma_record_lists_the_shadow_shape(fields: TapModel, decision: TuneDecisionV2)
    ensures
        ({
            let record = with_shadow_shape(fields, decision);
            let n = fields.len() as int;
            &&& record.len() == n + 2
            &&& record.take(n) == fields
            &&& record[n + 0] == ("shadow.decision.train_target_bytes"@, TapValueModel::Unsigned(decision.train_target_bytes as u64))
            &&& record[n + 1] == ("shadow.decision.bulk_quantum_cells"@, TapValueModel::Unsigned(decision.bulk_quantum_cells as u64))
        }),
{
    let record = with_shadow_shape(fields, decision);
    assert(record.take(fields.len() as int) =~= fields);
}

/// A record lists the cover of the shadow policy.
pub proof fn lemma_record_lists_the_shadow_cover(fields: TapModel, decision: TuneDecisionV2)
    ensures
        ({
            let record = with_shadow_cover(fields, decision);
            let n = fields.len() as int;
            &&& record.len() == n + 2
            &&& record.take(n) == fields
            &&& record[n + 0] == ("shadow.decision.cover_profile"@, TapValueModel::Text(cover_text(decision.cover_profile)))
            &&& record[n + 1] == ("shadow.decision.cover_overhead_per_mille"@, TapValueModel::Unsigned(decision.cover_overhead_per_mille as u64))
        }),
{
    let record = with_shadow_cover(fields, decision);
    assert(record.take(fields.len() as int) =~= fields);
}

/// A record lists what the shadow policy proposes to the controller.
pub proof fn lemma_record_lists_the_shadow_controller(fields: TapModel, bbr: Bbr3ProposalV2)
    ensures
        ({
            let record = with_shadow_controller(fields, bbr);
            let n = fields.len() as int;
            &&& record.len() == n + 5
            &&& record.take(n) == fields
            &&& record[n + 0] == ("shadow.decision.bbr.preset"@, TapValueModel::Text(preset_text(bbr.preset)))
            &&& record[n + 1] == ("shadow.decision.bbr.up_gain_milli"@, TapValueModel::Unsigned(bbr.up_gain_milli as u64))
            &&& record[n + 2] == ("shadow.decision.bbr.headroom_milli"@, TapValueModel::Unsigned(bbr.headroom_milli as u64))
            &&& record[n + 3] == ("shadow.decision.bbr.cwnd_gain_milli"@, TapValueModel::Unsigned(bbr.cwnd_gain_milli as u64))
            &&& record[n + 4] == ("shadow.decision.bbr.pacing_cap_bytes_per_second"@, TapValueModel::Unsigned(bbr.pacing_cap_bytes_per_second))
        }),
{
    let record = with_shadow_controller(fields, bbr);
    assert(record.take(fields.len() as int) =~= fields);
}

/// A record lists what the shadow learner saw and proposed.
pub proof fn lemma_record_lists_the_shadow_learner(fields: TapModel, trace: LearnerTraceV2)
    ensures
        ({
            let record = with_shadow_trace(fields, trace);
            let n = fields.len() as int;
            &&& record.len() == n + 9
            &&& record.take(n) == fields
            &&& record[n + 0] == ("shadow.trace.context.rtt_class"@, TapValueModel::Unsigned(trace.context.rtt_class))
            &&& record[n + 1] == ("shadow.trace.context.rate_class"@, TapValueModel::Unsigned(trace.context.rate_class))
            &&& record[n + 2] == ("shadow.trace.context.loss_class"@, TapValueModel::Unsigned(trace.context.loss_class))
            &&& record[n + 3] == ("shadow.trace.context.reliable"@, TapValueModel::Flag(trace.context.reliable))
            &&& record[n + 4] == ("shadow.trace.context.host_rtt"@, TapValueModel::Flag(trace.context.host_rtt))
            &&& record[n + 5] == ("shadow.trace.baseline_preset"@, TapValueModel::Text(preset_text(trace.baseline_preset)))
            &&& record[n + 6] == ("shadow.trace.proposed_preset"@, TapValueModel::Text(preset_text(trace.proposed_preset)))
            &&& record[n + 7] == ("shadow.trace.predicted_advantage"@, TapValueModel::Number(trace.predicted_advantage@))
            &&& record[n + 8] == ("shadow.trace.exploring"@, TapValueModel::Flag(trace.exploring))
        }),
{
    let record = with_shadow_trace(fields, trace);
    assert(record.take(fields.len() as int) =~= fields);
}

/// A record without a stripe, a learner or a shadow policy says so, and one with
/// a stripe gives its data and its parity Cells.
pub proof fn lemma_record_says_what_is_missing(
    fields: TapModel,
    geometry: FecGeometryV2,
    trace: LearnerTraceV2,
    policy_id: Option<String>,
)
    ensures
        with_protection(fields, None) == fields.push(("decision.fec"@, TapValueModel::Null)),
        with_protection(fields, Some(geometry)) == fields.push(
            ("decision.fec.data_cells"@, TapValueModel::Unsigned(geometry.data_cells as u64)),
        ).push(
            ("decision.fec.parity_cells"@, TapValueModel::Unsigned(geometry.parity_cells as u64)),
        ),
        with_shadow_protection(fields, None) == fields.push(
            ("shadow.decision.fec"@, TapValueModel::Null),
        ),
        with_shadow_protection(fields, Some(geometry)) == fields.push(
            ("shadow.decision.fec.data_cells"@, TapValueModel::Unsigned(geometry.data_cells as u64)),
        ).push(
            (
                "shadow.decision.fec.parity_cells"@,
                TapValueModel::Unsigned(geometry.parity_cells as u64),
            ),
        ),
        with_learner(fields, None) == fields.push(("learner"@, TapValueModel::Null)),
        with_learner(fields, Some(trace)) == with_trace(fields, trace),
        with_shadow(fields, policy_id, None) == fields.push(("shadow"@, TapValueModel::Null)),
{
}

/// Each preset, reason, cover profile, kind of path and learner mode goes by its
/// own name.
pub proof fn lemma_names_in_the_record()
    ensures
        preset_text(Bbr3PresetV2::SharedConservative) == "SharedConservative"@,
        preset_text(Bbr3PresetV2::PrivateAggressive) == "PrivateAggressive"@,
        preset_text(Bbr3PresetV2::LossyRadio) == "LossyRadio"@,
        preset_text(Bbr3PresetV2::Policer) == "Policer"@,
        preset_text(Bbr3PresetV2::LongFat) == "LongFat"@,
        preset_text(Bbr3PresetV2::RelayReliable) == "RelayReliable"@,
        preset_text(Bbr3PresetV2::LowRttHost) == "LowRttHost"@,
        reason_text(TuneReasonV2::ColdStart) == "ColdStart"@,
        reason_text(TuneReasonV2::TelemetryUnavailable) == "TelemetryUnavailable"@,
        reason_text(TuneReasonV2::PathChanged) == "PathChanged"@,
        reason_text(TuneReasonV2::HealthyLowLoss) == "HealthyLowLoss"@,
        reason_text(TuneReasonV2::RandomLoss) == "RandomLoss"@,
        reason_text(TuneReasonV2::BurstLoss) == "BurstLoss"@,
        reason_text(TuneReasonV2::Congested) == "Congested"@,
        reason_text(TuneReasonV2::CpuLimited) == "CpuLimited"@,
        reason_text(TuneReasonV2::ReliablePath) == "ReliablePath"@,
        cover_text(CoverTrafficProfileV2::Idle) == "Idle"@,
        cover_text(CoverTrafficProfileV2::LiveBroadcast) == "LiveBroadcast"@,
        cover_text(CoverTrafficProfileV2::InteractiveVideo) == "InteractiveVideo"@,
        cover_text(CoverTrafficProfileV2::GenericH3Bulk) == "GenericH3Bulk"@,
        reliability_text(PathReliability::Datagram) == "Datagram"@,
        reliability_text(PathReliability::ReliableRelay) == "ReliableRelay"@,
        mode_text(LearnerModeV2::Off) == "Off"@,
        mode_text(LearnerModeV2::Shadow) == "Shadow"@,
        mode_text(LearnerModeV2::On) == "On"@,
{
}

} // verus!
