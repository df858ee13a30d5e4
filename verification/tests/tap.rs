use ironet::autotune::reload::LearnerModeV2;
use ironet::autotune::tap::{
    autotune_tap_record, cover_name, mode_name, preset_name, reason_name, reliability_name,
    AutotuneTapSampleV2, LearnerContextV2, LearnerTraceV2, ShadowEvaluationV2, TapFieldV2,
    TapUtilityV2, TapValueV2, WireCostV2,
};
use ironet::identity::EndpointId;
use ironet::time::Duration;
use ironet::tuning::tuner::AutoTunerV2;
use ironet::tuning::{
    AutoTuneBoundsV2, Bbr3PresetV2, CoverTrafficProfileV2, PathReliability, PathTelemetryV2,
    TuneReasonV2,
};
use serde_json::{Number, Value};

fn peer(byte: u8) -> EndpointId {
    let key = iroh_base::SecretKey::from_bytes(&[byte; 32]).public();
    EndpointId::from_bytes(key.as_bytes()).unwrap()
}

fn number(text: &str) -> Value {
    Value::Number(text.parse::<Number>().unwrap())
}

fn value(field: &TapValueV2) -> Value {
    match field {
        TapValueV2::Null => Value::Null,
        TapValueV2::Flag(flag) => Value::from(*flag),
        TapValueV2::Unsigned(count) => Value::from(*count),
        TapValueV2::Signed(count) => Value::from(*count),
        TapValueV2::Number(text) => number(text),
        TapValueV2::Text(text) => Value::from(text.as_str()),
        TapValueV2::Numbers(texts) => Value::Array(texts.iter().map(|text| number(text)).collect()),
    }
}

fn nest(fields: &[TapFieldV2]) -> Value {
    let mut record = Value::Object(serde_json::Map::new());
    for field in fields {
        let mut place = &mut record;
        for name in field.path.split('.') {
            if place.is_null() {
                *place = Value::Object(serde_json::Map::new());
            }
            place = place.as_object_mut().unwrap().entry(name).or_insert(Value::Null);
        }
        assert!(place.is_null(), "{} occurs twice", field.path);
        *place = value(&field.value);
    }
    record
}

fn telemetry() -> PathTelemetryV2 {
    PathTelemetryV2 {
        path_epoch: 7,
        reliability: PathReliability::Datagram,
        rtt: Duration::from_millis(85),
        min_rtt: Duration::from_millis(80),
        queue_delay: Duration::from_millis(5),
        loss_ppm: 12_000,
        burst_loss_cells: 2,
        reorder_ppm: 300,
        receiver_goodput_bytes_per_second: 4_700_000,
        residual_loss_ppm: 1_200,
        latency_sojourn_p95_micros: 8_000,
        latency_sojourn_p50_micros: 4_000,
        latency_sojourn_p99_micros: 12_000,
        latency_queue_recently_nonempty: true,
        delivery_rate_bytes_per_second: 6_000_000,
        controller_pacing_rate_bytes_per_second: 5_500_000,
        controller_send_quantum_bytes: 64_000,
        controller_state: 5,
        controller_bw_bytes_per_second: 5_000_000,
        controller_inflight_longterm_bytes: 512_000,
        controller_guard_transitions_delta: 1,
        controller_app_limited: false,
        controller_tunables_generation: 9,
        controller_params_generation: 9,
        controller_clamped_writes: 2,
        receive_rate_bytes_per_second: 50_000_000,
        packets_per_second: 4_000,
        tun_ingress_bytes_per_second: 5_000_000,
        average_record_bytes: 1_400,
        gso_ingress_ratio_ppm: 500_000,
        packet_train_queue_bytes: 32_000,
        latency_queue_bytes: 64,
        reassembly_pressure_evictions: 1,
        remote_expired_stripes_delta: 2,
        train_build_bytes_per_second: 4_900_000,
        bulk_preemption_delay_average_micros: 750,
        cpu_utilization_per_mille: 420,
        wasted_parity_per_mille: 900,
        fec_recovery_per_mille: 80,
        repair_hit_per_mille: 950,
        repair_completed_requests: 11,
        repair_response_latency: Duration::from_millis(90),
        real_traffic_bytes_per_second: 4_800_000,
    }
}

fn utility() -> TapUtilityV2 {
    TapUtilityV2 {
        total: "1.25".to_owned(),
        components: ["2.0", "-0.1", "-0.2", "-0.1", "-0.1", "-0.1", "-0.1", "-0.05"]
            .iter()
            .map(|text| (*text).to_owned())
            .collect(),
        goodput_bytes_per_second: 4_700_000,
    }
}

fn sample() -> AutotuneTapSampleV2 {
    let telemetry = telemetry();
    let decision = AutoTunerV2::new(AutoTuneBoundsV2::default(), 7).observe(telemetry);
    AutotuneTapSampleV2 {
        sampled_unix_micros: 1_234_567,
        sample_elapsed: Duration::from_secs(1),
        telemetry,
        decision,
        utility: utility(),
        wire_cost: WireCostV2 {
            payload_bytes: 4_700_000,
            parity_bytes: 120_000,
            repair_bytes: 8_000,
            cover_bytes: 0,
            cell_envelope_bytes: 40_000,
        },
        force_applied: false,
        learner: None,
        policy_id: "bandit-vivace@1".to_owned(),
        policy_source: "builtin".to_owned(),
        shadow_policy_id: None,
        shadow: None,
        path_identity: "ip:2001:db8::1".to_owned(),
        controller_cwnd_bytes: 512_000,
        adaptive_cwnd_floor_bytes: 256_000,
    }
}

fn trace() -> LearnerTraceV2 {
    LearnerTraceV2 {
        mode: LearnerModeV2::On,
        context: LearnerContextV2 {
            rtt_class: 1,
            rate_class: 2,
            loss_class: 3,
            reliable: false,
            host_rtt: true,
        },
        baseline_preset: Bbr3PresetV2::SharedConservative,
        proposed_preset: Bbr3PresetV2::LossyRadio,
        applied_preset: Bbr3PresetV2::LongFat,
        predicted_advantage: "0.1".to_owned(),
        exploring: true,
        rollback: false,
        rollbacks: 4,
        fine_up_gain_delta_milli: -5,
        fine_headroom_delta_milli: 6,
        fine_cwnd_gain_delta_milli: 0,
    }
}

#[test]
fn autotune_tap_is_versioned_complete_and_json_roundtrips() {
    let record = nest(&autotune_tap_record(&peer(63), "partition", &sample()));
    let encoded = serde_json::to_string(&record).unwrap();
    let decoded: Value = serde_json::from_str(&encoded).unwrap();

    assert_eq!(decoded["schema_version"], 5);
    assert_eq!(decoded["force_applied"], false);
    assert_eq!(decoded["path_identity"], "ip:2001:db8::1");
    assert_eq!(decoded["policy"]["id"], "bandit-vivace@1");
    assert_eq!(decoded["sample_interval_micros"], 1_000_000);
    assert_eq!(decoded["telemetry"]["reorder_ppm"], 300);
    assert_eq!(decoded["utility"]["goodput_bytes_per_second"], 4_700_000);
    assert_eq!(decoded["wire_cost"]["parity_bytes"], 120_000);
    assert_eq!(decoded["telemetry"]["real_traffic_bytes_per_second"], 4_800_000);
    assert_eq!(decoded["decision"]["path_epoch"], 7);
    assert!(decoded["decision"].get("fec").is_some());
    assert_eq!(decoded["decision"]["bbr"]["preset"], "LossyRadio");
    assert_eq!(decoded["controller"]["congestion_window_bytes"], 512_000);
    assert_eq!(decoded["controller"]["adaptive_cwnd_floor_bytes"], 256_000);
    assert!(decoded.get("shadow").is_some());
}

#[test]
fn tap_names_its_origin_and_every_section() {
    let peer = peer(63);
    let fields = autotune_tap_record(&peer, "partition", &sample());
    assert_eq!(fields[0].path, "schema_version");
    let record = nest(&fields);
    assert_eq!(record["peer"], peer.to_text());
    assert_eq!(record["tls_ticket_partition"], "partition");
    assert_eq!(record["sampled_unix_micros"], 1_234_567);
    assert_eq!(record["policy"]["source"], "builtin");
    assert_eq!(record["policy"]["shadow_id"], Value::Null);
    assert_eq!(record["learner"], Value::Null);
    assert_eq!(record["shadow"], Value::Null);
    assert_eq!(record["telemetry"].as_object().unwrap().len(), 43);
    assert_eq!(record["telemetry"]["reliability"], "Datagram");
    assert_eq!(record["telemetry"]["rtt_micros"], 85_000);
    assert_eq!(record["telemetry"]["repair_response_latency_micros"], 90_000);
    assert_eq!(record["utility"]["total"], 1.25);
    assert_eq!(record["utility"]["components"][7], -0.05);
    assert_eq!(record["wire_cost"]["cell_envelope_bytes"], 40_000);
}

#[test]
fn tap_shows_the_learner_and_the_shadow() {
    let mut sample = sample();
    sample.learner = Some(trace());
    sample.shadow_policy_id = Some("shadow@2".to_owned());
    let mut decision = sample.decision;
    decision.fec = None;
    sample.shadow = Some(ShadowEvaluationV2 { utility: utility(), decision, trace: trace() });
    let record = nest(&autotune_tap_record(&peer(63), "partition", &sample));
    assert_eq!(record["policy"]["shadow_id"], "shadow@2");
    assert_eq!(record["learner"]["mode"], "On");
    assert_eq!(record["learner"]["context"]["loss_class"], 3);
    assert_eq!(record["learner"]["applied_preset"], "LongFat");
    assert_eq!(record["learner"]["predicted_advantage"], 0.1);
    assert_eq!(record["learner"]["fine_up_gain_delta_milli"], -5);
    assert_eq!(record["shadow"]["policy_id"], "shadow@2");
    assert_eq!(record["shadow"]["decision"]["fec"], Value::Null);
    assert_eq!(record["shadow"]["decision"]["bbr"].as_object().unwrap().len(), 5);
    assert_eq!(record["shadow"]["trace"]["proposed_preset"], "LossyRadio");
    assert!(record["shadow"]["trace"].get("applied_preset").is_none());
    assert_eq!(record["decision"]["fec"]["data_cells"].is_u64(), sample.decision.fec.is_some());
}

#[test]
fn tap_names_are_the_variants() {
    assert_eq!(reliability_name(PathReliability::ReliableRelay), "ReliableRelay");
    assert_eq!(reason_name(TuneReasonV2::HealthyLowLoss), "HealthyLowLoss");
    assert_eq!(cover_name(CoverTrafficProfileV2::GenericH3Bulk), "GenericH3Bulk");
    assert_eq!(preset_name(Bbr3PresetV2::LowRttHost), "LowRttHost");
    assert_eq!(mode_name(LearnerModeV2::Shadow), "Shadow");
}
