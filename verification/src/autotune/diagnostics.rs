//! The bounded operational view that an operator sees of a live path.

use vstd::prelude::*;

use crate::autotune::feedback::{
    average, bounded_ratio, quotient_or_zero, rate_over, rate_per_second, ratio_per_million,
    ratio_per_thousand,
};
use crate::num::sat_u64;
use crate::time::Duration;

verus! {

/// Policy samples between two reports.
pub const STATUS_SAMPLES: u64 = 10;

/// What the counters grew by since the last report.
#[derive(Clone, Copy, Debug, PartialEq, Eq, Structural)]
pub struct StatusDeltaV2 {
    pub repair_request_bytes: u64,
    pub repair_response_bytes: u64,
    pub tun_ingress_bytes: u64,
    pub tun_ingress_records: u64,
    pub cover_bytes: u64,
    pub real_bytes: u64,
    pub fec_bytes: u64,
    pub data_cell_bytes: u64,
    pub bulk_service_bytes: u64,
    pub latency_service_bytes: u64,
}

/// What the telemetry registry says of the interval by itself.
#[derive(Clone, Copy, Debug, PartialEq, Eq, Structural)]
pub struct StatusTelemetryV2 {
    pub latency_queue_sojourn_p95_micros: u64,
    pub bulk_fairness_ppm: u32,
    pub quic_udp_payload_tx_bytes: u64,
    pub real_record_tx_bytes: u64,
    pub quic_transport_residual_tx_bytes: u64,
    pub protocol_datagram_errors: u64,
    pub route_gate_drops: u64,
}

/// The figures of a report.
#[derive(Clone, Copy, Debug, PartialEq, Eq, Structural)]
pub struct PeriodicStatus {
    pub repair_tx_bytes: u64,
    pub tun_ingress_bytes_per_second: u64,
    pub actual_cover_overhead_per_mille: u16,
    pub actual_fec_wire_overhead_per_mille: u16,
    pub bulk_service_share_ppm: u32,
    pub average_record_bytes: u64,
    pub telemetry: StatusTelemetryV2,
}

/// The figures of a report over an interval.
pub open spec fn status_figures(
    delta: StatusDeltaV2,
    telemetry: StatusTelemetryV2,
    nanos: int,
) -> PeriodicStatus {
    PeriodicStatus {
        repair_tx_bytes: sat_u64(delta.repair_request_bytes + delta.repair_response_bytes) as u64,
        tun_ingress_bytes_per_second: rate_over(delta.tun_ingress_bytes as int, nanos) as u64,
        actual_cover_overhead_per_mille: bounded_ratio(
            delta.cover_bytes as int,
            delta.real_bytes as int,
            1_000,
        ) as u16,
        actual_fec_wire_overhead_per_mille: bounded_ratio(
            delta.fec_bytes as int,
            delta.data_cell_bytes as int,
            1_000,
        ) as u16,
        bulk_service_share_ppm: bounded_ratio(
            delta.bulk_service_bytes as int,
            sat_u64(delta.bulk_service_bytes + delta.latency_service_bytes),
            1_000_000,
        ) as u32,
        average_record_bytes: quotient_or_zero(delta.tun_ingress_bytes, delta.tun_ingress_records),
        telemetry,
    }
}

/// The figures of a report, which comes once per ten policy samples.
pub fn emit_periodic_status(
    sample_count: u64,
    delta: StatusDeltaV2,
    telemetry: StatusTelemetryV2,
    elapsed: Duration,
) -> (r: Option<PeriodicStatus>)
    ensures
        r == (if sample_count % STATUS_SAMPLES == 0 {
            Some(status_figures(delta, telemetry, elapsed.nanos as int))
        } else {
            None
        }),
{
    if sample_count % STATUS_SAMPLES != 0 {
        return None;
    }
    Some(
        PeriodicStatus {
            repair_tx_bytes: delta.repair_request_bytes.saturating_add(delta.repair_response_bytes),
            tun_ingress_bytes_per_second: rate_per_second(delta.tun_ingress_bytes, elapsed),
            actual_cover_overhead_per_mille: ratio_per_thousand(delta.cover_bytes, delta.real_bytes),
            actual_fec_wire_overhead_per_mille: ratio_per_thousand(
                delta.fec_bytes,
                delta.data_cell_bytes,
            ),
            bulk_service_share_ppm: ratio_per_million(
                delta.bulk_service_bytes,
                delta.bulk_service_bytes.saturating_add(delta.latency_service_bytes),
            ),
            average_record_bytes: average(delta.tun_ingress_bytes, delta.tun_ingress_records),
            telemetry,
        },
    )
}

} // verus!
