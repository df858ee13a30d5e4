//! Remote feedback window and the counter arithmetic of one telemetry sample.

use vstd::prelude::*;

use crate::num::{min_int, sat_u64, u64_from_u128};
use crate::num::saturating_mul_u64;
use crate::time::{Duration, Instant};

verus! {

/// Milliseconds for which one report of the remote peer describes the path.
pub const REMOTE_FEEDBACK_TTL_MILLIS: u64 = 3_000;

/// The part of `numerator` in `denominator`, in units of `1 / scale` and at
/// most the whole; zero without a denominator.
pub open spec fn bounded_ratio(numerator: int, denominator: int, scale: int) -> int {
    if denominator == 0 {
        0
    } else {
        min_int(sat_u64(numerator * scale) / denominator, scale)
    }
}

/// Parts per million, bounded to the whole.
pub fn ratio_per_million(numerator: u64, denominator: u64) -> (r: u32)
    ensures
        r == bounded_ratio(numerator as int, denominator as int, 1_000_000),
{
    if denominator == 0 {
        return 0;
    }
    (saturating_mul_u64(numerator, 1_000_000) / denominator).min(1_000_000) as u32
}

/// Parts per thousand, bounded to the whole.
pub fn ratio_per_thousand(numerator: u64, denominator: u64) -> (r: u16)
    ensures
        r == bounded_ratio(numerator as int, denominator as int, 1_000),
{
    if denominator == 0 {
        return 0;
    }
    (saturating_mul_u64(numerator, 1_000) / denominator).min(1_000) as u16
}

/// `numerator * scale / denominator`, zero without a denominator.
pub fn ratio_scaled_u64(numerator: u64, denominator: u64, scale: u64) -> (r: u64)
    ensures
        r == if denominator == 0 {
            0
        } else {
            sat_u64((numerator * scale) / (denominator as int))
        },
{
    if denominator == 0 {
        return 0;
    }
    proof {
        lemma_product_fits(numerator as int, scale as int);
    }
    let scaled: u128 = numerator as u128 * scale as u128;
    u64_from_u128(scaled / denominator as u128)
}

/// Two 64-bit factors have a 128-bit product.
proof fn lemma_product_fits(a: int, b: int)
    requires
        0 <= a <= u64::MAX,
        0 <= b <= u64::MAX,
    ensures
        0 <= a * b <= u128::MAX,
{
    assert(0 <= a * b <= 0xffff_ffff_ffff_ffff * 0xffff_ffff_ffff_ffff) by (nonlinear_arith)
        requires
            0 <= a <= 0xffff_ffff_ffff_ffff,
            0 <= b <= 0xffff_ffff_ffff_ffff,
    ;
}

/// The rate of `value` over `nanos`; zero over no time.
pub open spec fn rate_over(value: int, nanos: int) -> int {
    if nanos == 0 {
        0
    } else {
        sat_u64(value * 1_000_000_000 / nanos)
    }
}

/// The rate of `value` over `elapsed`; zero over no time.
pub fn rate_per_second(value: u64, elapsed: Duration) -> (r: u64)
    ensures
        r == rate_over(value as int, elapsed.nanos as int),
{
    if elapsed.is_zero() {
        return 0;
    }
    u64_from_u128(value as u128 * 1_000_000_000 / elapsed.nanos)
}

/// The growth of a monotonic counter. A counter that went backwards was
/// restarted, so its whole value is new.
pub open spec fn counter_growth(current: u64, previous: u64) -> u64 {
    if current >= previous {
        (current - previous) as u64
    } else {
        current
    }
}

/// The growth of a monotonic counter. A counter that went backwards was
/// restarted, so its whole value is new.
pub fn counter_delta(current: u64, previous: u64) -> (r: u64)
    ensures
        r == counter_growth(current, previous),
{
    if current >= previous {
        current - previous
    } else {
        current
    }
}

/// `numerator / denominator`, zero without a denominator.
pub open spec fn quotient_or_zero(numerator: u64, denominator: u64) -> u64 {
    if denominator == 0 {
        0
    } else {
        numerator / denominator
    }
}

/// `numerator / denominator`, zero without a denominator.
pub fn average(numerator: u64, denominator: u64) -> (r: u64)
    ensures
        r == quotient_or_zero(numerator, denominator),
{
    if denominator == 0 {
        0
    } else {
        numerator / denominator
    }
}

/// Cumulative counters that describe what the remote peer has reported.
#[derive(Clone, Copy, Debug, PartialEq, Eq, Structural)]
pub struct RemoteFeedbackCountersV2 {
    pub remote_feedback_sequence: u64,
    pub remote_fec_parity_rx: u64,
    pub remote_fec_wasted_parity: u64,
    pub remote_fec_recovered_cells: u64,
    pub remote_repair_received_cells: u64,
    pub remote_repair_completed_requested_cells: u64,
    pub remote_repair_completed_requests: u64,
    pub remote_repair_latency_micros: u64,
    pub remote_delivered_payload_bytes: u64,
    pub remote_reorder_cells: u64,
    pub remote_missing_cells: u64,
    pub remote_loss_run_1: u64,
    pub remote_loss_run_2: u64,
    pub remote_loss_run_3_4: u64,
    pub remote_loss_run_5_plus: u64,
    pub remote_expired_trains: u64,
    pub data_cell_tx_datagrams: u64,
}

impl RemoteFeedbackCountersV2 {
    /// No report has arrived.
    pub open spec fn silent() -> RemoteFeedbackCountersV2 {
        RemoteFeedbackCountersV2 {
            remote_feedback_sequence: 0,
            remote_fec_parity_rx: 0,
            remote_fec_wasted_parity: 0,
            remote_fec_recovered_cells: 0,
            remote_repair_received_cells: 0,
            remote_repair_completed_requested_cells: 0,
            remote_repair_completed_requests: 0,
            remote_repair_latency_micros: 0,
            remote_delivered_payload_bytes: 0,
            remote_reorder_cells: 0,
            remote_missing_cells: 0,
            remote_loss_run_1: 0,
            remote_loss_run_2: 0,
            remote_loss_run_3_4: 0,
            remote_loss_run_5_plus: 0,
            remote_expired_trains: 0,
            data_cell_tx_datagrams: 0,
        }
    }

    /// The growth of every counter.
    pub open spec fn growth_since(self, previous: Self) -> RemoteFeedbackCountersV2 {
        RemoteFeedbackCountersV2 {
            remote_feedback_sequence: counter_growth(
                self.remote_feedback_sequence,
                previous.remote_feedback_sequence,
            ),
            remote_fec_parity_rx: counter_growth(
                self.remote_fec_parity_rx,
                previous.remote_fec_parity_rx,
            ),
            remote_fec_wasted_parity: counter_growth(
                self.remote_fec_wasted_parity,
                previous.remote_fec_wasted_parity,
            ),
            remote_fec_recovered_cells: counter_growth(
                self.remote_fec_recovered_cells,
                previous.remote_fec_recovered_cells,
            ),
            remote_repair_received_cells: counter_growth(
                self.remote_repair_received_cells,
                previous.remote_repair_received_cells,
            ),
            remote_repair_completed_requested_cells: counter_growth(
                self.remote_repair_completed_requested_cells,
                previous.remote_repair_completed_requested_cells,
            ),
            remote_repair_completed_requests: counter_growth(
                self.remote_repair_completed_requests,
                previous.remote_repair_completed_requests,
            ),
            remote_repair_latency_micros: counter_growth(
                self.remote_repair_latency_micros,
                previous.remote_repair_latency_micros,
            ),
            remote_delivered_payload_bytes: counter_growth(
                self.remote_delivered_payload_bytes,
                previous.remote_delivered_payload_bytes,
            ),
            remote_reorder_cells: counter_growth(
                self.remote_reorder_cells,
                previous.remote_reorder_cells,
            ),
            remote_missing_cells: counter_growth(
                self.remote_missing_cells,
                previous.remote_missing_cells,
            ),
            remote_loss_run_1: counter_growth(self.remote_loss_run_1, previous.remote_loss_run_1),
            remote_loss_run_2: counter_growth(self.remote_loss_run_2, previous.remote_loss_run_2),
            remote_loss_run_3_4: counter_growth(
                self.remote_loss_run_3_4,
                previous.remote_loss_run_3_4,
            ),
            remote_loss_run_5_plus: counter_growth(
                self.remote_loss_run_5_plus,
                previous.remote_loss_run_5_plus,
            ),
            remote_expired_trains: counter_growth(
                self.remote_expired_trains,
                previous.remote_expired_trains,
            ),
            data_cell_tx_datagrams: counter_growth(
                self.data_cell_tx_datagrams,
                previous.data_cell_tx_datagrams,
            ),
        }
    }

    /// The growth of every counter.
    pub fn counter_delta(&self, previous: Self) -> (r: RemoteFeedbackCountersV2)
        ensures
            r == self.growth_since(previous),
    {
        RemoteFeedbackCountersV2 {
            remote_feedback_sequence: counter_delta(
                self.remote_feedback_sequence,
                previous.remote_feedback_sequence,
            ),
            remote_fec_parity_rx: counter_delta(
                self.remote_fec_parity_rx,
                previous.remote_fec_parity_rx,
            ),
            remote_fec_wasted_parity: counter_delta(
                self.remote_fec_wasted_parity,
                previous.remote_fec_wasted_parity,
            ),
            remote_fec_recovered_cells: counter_delta(
                self.remote_fec_recovered_cells,
                previous.remote_fec_recovered_cells,
            ),
            remote_repair_received_cells: counter_delta(
                self.remote_repair_received_cells,
                previous.remote_repair_received_cells,
            ),
            remote_repair_completed_requested_cells: counter_delta(
                self.remote_repair_completed_requested_cells,
                previous.remote_repair_completed_requested_cells,
            ),
            remote_repair_completed_requests: counter_delta(
                self.remote_repair_completed_requests,
                previous.remote_repair_completed_requests,
            ),
            remote_repair_latency_micros: counter_delta(
                self.remote_repair_latency_micros,
                previous.remote_repair_latency_micros,
            ),
            remote_delivered_payload_bytes: counter_delta(
                self.remote_delivered_payload_bytes,
                previous.remote_delivered_payload_bytes,
            ),
            remote_reorder_cells: counter_delta(
                self.remote_reorder_cells,
                previous.remote_reorder_cells,
            ),
            remote_missing_cells: counter_delta(
                self.remote_missing_cells,
                previous.remote_missing_cells,
            ),
            remote_loss_run_1: counter_delta(self.remote_loss_run_1, previous.remote_loss_run_1),
            remote_loss_run_2: counter_delta(self.remote_loss_run_2, previous.remote_loss_run_2),
            remote_loss_run_3_4: counter_delta(
                self.remote_loss_run_3_4,
                previous.remote_loss_run_3_4,
            ),
            remote_loss_run_5_plus: counter_delta(
                self.remote_loss_run_5_plus,
                previous.remote_loss_run_5_plus,
            ),
            remote_expired_trains: counter_delta(
                self.remote_expired_trains,
                previous.remote_expired_trains,
            ),
            data_cell_tx_datagrams: counter_delta(
                self.data_cell_tx_datagrams,
                previous.data_cell_tx_datagrams,
            ),
        }
    }
}

impl Default for RemoteFeedbackCountersV2 {
    fn default() -> (r: RemoteFeedbackCountersV2)
        ensures
            r == RemoteFeedbackCountersV2::silent(),
    {
        RemoteFeedbackCountersV2 {
            remote_feedback_sequence: 0,
            remote_fec_parity_rx: 0,
            remote_fec_wasted_parity: 0,
            remote_fec_recovered_cells: 0,
            remote_repair_received_cells: 0,
            remote_repair_completed_requested_cells: 0,
            remote_repair_completed_requests: 0,
            remote_repair_latency_micros: 0,
            remote_delivered_payload_bytes: 0,
            remote_reorder_cells: 0,
            remote_missing_cells: 0,
            remote_loss_run_1: 0,
            remote_loss_run_2: 0,
            remote_loss_run_3_4: 0,
            remote_loss_run_5_plus: 0,
            remote_expired_trains: 0,
            data_cell_tx_datagrams: 0,
        }
    }
}

/// What one report of the remote peer says of the path.
#[derive(Clone, Copy, Debug, PartialEq, Eq, Structural)]
pub struct RemoteFeedbackRatesV2 {
    pub sequence: u64,
    pub wasted_parity_per_mille: u16,
    pub fec_recovery_per_mille: u16,
    pub repair_hit_per_mille: u16,
    pub repair_response_latency: Duration,
    pub receiver_goodput_bytes_per_second: u64,
    pub reorder_ppm: u32,
    pub residual_loss_ppm: u32,
    pub burst_loss_cells: u16,
    pub expired_stripes_delta: u64,
    pub repair_completed_requests: u64,
}

impl RemoteFeedbackRatesV2 {
    /// Nothing is known but the last sequence and the cumulative repairs.
    pub open spec fn quiet(sequence: u64, repair_completed_requests: u64) -> RemoteFeedbackRatesV2 {
        RemoteFeedbackRatesV2 {
            sequence,
            wasted_parity_per_mille: 0,
            fec_recovery_per_mille: 0,
            repair_hit_per_mille: 0,
            repair_response_latency: Duration { nanos: 0 },
            receiver_goodput_bytes_per_second: 0,
            reorder_ppm: 0,
            residual_loss_ppm: 0,
            burst_loss_cells: 0,
            expired_stripes_delta: 0,
            repair_completed_requests,
        }
    }

    /// Nothing is known but the last sequence and the cumulative repairs.
    fn unknown(sequence: u64, repair_completed_requests: u64) -> (r: RemoteFeedbackRatesV2)
        ensures
            r == Self::quiet(sequence, repair_completed_requests),
    {
        RemoteFeedbackRatesV2 {
            sequence,
            wasted_parity_per_mille: 0,
            fec_recovery_per_mille: 0,
            repair_hit_per_mille: 0,
            repair_response_latency: Duration::zero(),
            receiver_goodput_bytes_per_second: 0,
            reorder_ppm: 0,
            residual_loss_ppm: 0,
            burst_loss_cells: 0,
            expired_stripes_delta: 0,
            repair_completed_requests,
        }
    }
}

/// Loss runs in a report.
pub open spec fn loss_runs(delta: RemoteFeedbackCountersV2) -> u64 {
    sat_u64(
        delta.remote_loss_run_1 + delta.remote_loss_run_2 + delta.remote_loss_run_3_4
            + delta.remote_loss_run_5_plus,
    ) as u64
}

/// Cells that the loss runs of a report stand for.
pub open spec fn weighted_loss_cells(delta: RemoteFeedbackCountersV2) -> u64 {
    sat_u64(
        delta.remote_loss_run_1 + delta.remote_loss_run_2 * 2 + delta.remote_loss_run_3_4 * 4
            + delta.remote_loss_run_5_plus * 5,
    ) as u64
}

/// The rates of one report over the time since the previous one.
pub open spec fn rates_of(
    current: RemoteFeedbackCountersV2,
    delta: RemoteFeedbackCountersV2,
    elapsed_nanos: int,
) -> RemoteFeedbackRatesV2 {
    RemoteFeedbackRatesV2 {
        sequence: current.remote_feedback_sequence,
        wasted_parity_per_mille: bounded_ratio(
            delta.remote_fec_wasted_parity as int,
            delta.remote_fec_parity_rx as int,
            1_000,
        ) as u16,
        fec_recovery_per_mille: bounded_ratio(
            delta.remote_fec_recovered_cells as int,
            delta.remote_fec_parity_rx as int,
            1_000,
        ) as u16,
        repair_hit_per_mille: bounded_ratio(
            delta.remote_repair_received_cells as int,
            delta.remote_repair_completed_requested_cells as int,
            1_000,
        ) as u16,
        repair_response_latency: Duration {
            nanos: (quotient_or_zero(
                delta.remote_repair_latency_micros,
                delta.remote_repair_completed_requests,
            ) * 1_000) as u128,
        },
        receiver_goodput_bytes_per_second: rate_over(
            delta.remote_delivered_payload_bytes as int,
            elapsed_nanos,
        ) as u64,
        reorder_ppm: bounded_ratio(
            delta.remote_reorder_cells as int,
            delta.data_cell_tx_datagrams as int,
            1_000_000,
        ) as u32,
        residual_loss_ppm: bounded_ratio(
            delta.remote_missing_cells as int,
            delta.data_cell_tx_datagrams as int,
            1_000_000,
        ) as u32,
        burst_loss_cells: min_int(
            quotient_or_zero(weighted_loss_cells(delta), loss_runs(delta)) as int,
            u16::MAX as int,
        ) as u16,
        expired_stripes_delta: delta.remote_expired_trains,
        repair_completed_requests: current.remote_repair_completed_requests,
    }
}

/// The latest report of the remote peer and how long it stands for the path.
#[derive(Clone, Copy, Debug, PartialEq, Eq, Structural)]
pub struct RemoteFeedbackWindowV2 {
    pub previous: RemoteFeedbackCountersV2,
    pub previous_at: Instant,
    pub rates: RemoteFeedbackRatesV2,
    pub expires_at: Instant,
}

impl RemoteFeedbackWindowV2 {
    /// The window after a sample taken at `now`.
    pub open spec fn sampled(
        self,
        current: RemoteFeedbackCountersV2,
        now: Instant,
    ) -> RemoteFeedbackWindowV2 {
        if current.remote_feedback_sequence == self.previous.remote_feedback_sequence {
            RemoteFeedbackWindowV2 {
                rates: if now.nanos >= self.expires_at.nanos {
                    RemoteFeedbackRatesV2::quiet(
                        self.rates.sequence,
                        self.rates.repair_completed_requests,
                    )
                } else {
                    RemoteFeedbackRatesV2 { expired_stripes_delta: 0, ..self.rates }
                },
                ..self
            }
        } else {
            RemoteFeedbackWindowV2 {
                previous: current,
                previous_at: now,
                rates: rates_of(
                    current,
                    current.growth_since(self.previous),
                    now.since(self.previous_at),
                ),
                expires_at: if now.nanos + 3_000_000_000 <= u128::MAX {
                    Instant { nanos: (now.nanos + 3_000_000_000) as u128 }
                } else {
                    now
                },
            }
        }
    }

    /// Start from the counters as they stand, with nothing known of the path.
    pub fn capture(counters: RemoteFeedbackCountersV2, now: Instant) -> (r: RemoteFeedbackWindowV2)
        ensures
            r == (RemoteFeedbackWindowV2 {
                previous: counters,
                previous_at: now,
                rates: RemoteFeedbackRatesV2::quiet(counters.remote_feedback_sequence, 0),
                expires_at: now,
            }),
    {
        RemoteFeedbackWindowV2 {
            previous: counters,
            previous_at: now,
            rates: RemoteFeedbackRatesV2::unknown(counters.remote_feedback_sequence, 0),
            expires_at: now,
        }
    }

    /// Fold the counters in and return what the path's last report says at
    /// `now`. A repeated sequence is no new report: its one-shot expiry count
    /// is not replayed, and past its lifetime all of its rates go together.
    pub fn sample(
        &mut self,
        current: RemoteFeedbackCountersV2,
        now: Instant,
    ) -> (r: RemoteFeedbackRatesV2)
        ensures
            *final(self) == old(self).sampled(current, now),
            r == final(self).rates,
    {
        if current.remote_feedback_sequence == self.previous.remote_feedback_sequence {
            self.rates.expired_stripes_delta = 0;
            if now.nanos >= self.expires_at.nanos {
                self.rates = RemoteFeedbackRatesV2::unknown(
                    self.rates.sequence,
                    self.rates.repair_completed_requests,
                );
            }
            return self.rates;
        }
        let delta: RemoteFeedbackCountersV2 = current.counter_delta(self.previous);
        let elapsed: Duration = now.saturating_duration_since(self.previous_at);
        let loss_runs: u64 = delta.remote_loss_run_1.saturating_add(
            delta.remote_loss_run_2,
        ).saturating_add(delta.remote_loss_run_3_4).saturating_add(delta.remote_loss_run_5_plus);
        let weighted_loss_cells: u64 = delta.remote_loss_run_1.saturating_add(
            saturating_mul_u64(delta.remote_loss_run_2, 2),
        ).saturating_add(saturating_mul_u64(delta.remote_loss_run_3_4, 4)).saturating_add(
            saturating_mul_u64(delta.remote_loss_run_5_plus, 5),
        );
        self.rates = RemoteFeedbackRatesV2 {
            sequence: current.remote_feedback_sequence,
            wasted_parity_per_mille: ratio_per_thousand(
                delta.remote_fec_wasted_parity,
                delta.remote_fec_parity_rx,
            ),
            fec_recovery_per_mille: ratio_per_thousand(
                delta.remote_fec_recovered_cells,
                delta.remote_fec_parity_rx,
            ),
            repair_hit_per_mille: ratio_per_thousand(
                delta.remote_repair_received_cells,
                delta.remote_repair_completed_requested_cells,
            ),
            repair_response_latency: Duration::from_micros(
                average(delta.remote_repair_latency_micros, delta.remote_repair_completed_requests),
            ),
            receiver_goodput_bytes_per_second: rate_per_second(
                delta.remote_delivered_payload_bytes,
                elapsed,
            ),
            reorder_ppm: ratio_per_million(
                delta.remote_reorder_cells,
                delta.data_cell_tx_datagrams,
            ),
            residual_loss_ppm: ratio_per_million(
                delta.remote_missing_cells,
                delta.data_cell_tx_datagrams,
            ),
            burst_loss_cells: average(weighted_loss_cells, loss_runs).min(u16::MAX as u64) as u16,
            expired_stripes_delta: delta.remote_expired_trains,
            repair_completed_requests: current.remote_repair_completed_requests,
        };
        self.previous = current;
        self.previous_at = now;
        let lifetime: Duration = Duration::from_millis(REMOTE_FEEDBACK_TTL_MILLIS);
        self.expires_at = match now.nanos.checked_add(lifetime.nanos) {
            Some(nanos) => Instant { nanos },
            None => now,
        };
        self.rates
    }
}

/// Without a new report every rate is gone once the last one's lifetime is
/// over; the sequence and the cumulative repair count remain.
pub proof fn lemma_stale_feedback_expires_as_one_window(
    window: RemoteFeedbackWindowV2,
    fresh: RemoteFeedbackCountersV2,
    at: Instant,
    again: RemoteFeedbackCountersV2,
    later: Instant,
)
    requires
        fresh.remote_feedback_sequence != window.previous.remote_feedback_sequence,
        again.remote_feedback_sequence == fresh.remote_feedback_sequence,
        later.nanos >= at.nanos + 3_000_000_000,
    ensures
        window.sampled(fresh, at).sampled(again, later).rates == RemoteFeedbackRatesV2::quiet(
            fresh.remote_feedback_sequence,
            fresh.remote_repair_completed_requests,
        ),
{
}

/// Within the lifetime of a report a repeated sequence repeats its rates, but
/// never its count of expired trains.
pub proof fn lemma_repeated_feedback_is_held_without_replaying_expiry(
    window: RemoteFeedbackWindowV2,
    again: RemoteFeedbackCountersV2,
    now: Instant,
)
    requires
        again.remote_feedback_sequence == window.previous.remote_feedback_sequence,
        now.nanos < window.expires_at.nanos,
    ensures
        ({
            let next = window.sampled(again, now);
            &&& next.rates == RemoteFeedbackRatesV2 { expired_stripes_delta: 0, ..window.rates }
            &&& next.expires_at == window.expires_at
            &&& next.previous == window.previous
        }),
{
}

/// No ratio exceeds the whole.
pub proof fn lemma_ratio_is_bounded(numerator: int, denominator: int, scale: int)
    requires
        0 <= numerator,
        0 <= denominator,
        0 < scale,
    ensures
        0 <= bounded_ratio(numerator, denominator, scale) <= scale,
{
    if denominator > 0 {
        assert(0 <= numerator * scale) by (nonlinear_arith)
            requires
                0 <= numerator,
                0 < scale,
        ;
        let dividend = sat_u64(numerator * scale);
        assert(0 <= dividend / denominator) by (nonlinear_arith)
            requires
                0 <= dividend,
                0 < denominator,
        ;
    }
}

} // verus!
