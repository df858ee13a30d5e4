//! How busy the process keeps its processor.

use vstd::prelude::*;

use crate::num::min_int;
use crate::text::{
    chars_of, find_space, find_words, next_space, parse_number, parsed_number, places, trim_end_at,
    trimmed_end, word_places,
};
use crate::time::Instant;

verus! {

/// Clock ticks in a second where the system does not say.
pub const DEFAULT_TICKS_PER_SECOND: u64 = 100;

/// Where the line behind the last `") "` of a process line starts.
pub open spec fn stat_fields_at(line: Seq<char>, at: int) -> Option<int>
    decreases at,
{
    if at <= 0 {
        None
    } else if at < line.len() && line[at - 1] == ')' && line[at] == ' ' {
        Some(at + 1)
    } else {
        stat_fields_at(line, at - 1)
    }
}

/// The number in one of the words.
pub open spec fn word_number(line: Seq<char>, words: Seq<(int, int)>, index: int) -> Option<int> {
    if 0 <= index < words.len() {
        parsed_number(line.subrange(words[index].0, words[index].1), u64::MAX as int)
    } else {
        None
    }
}

/// The processor time in the line that the system keeps of a process: the
/// words behind the command name, of which the twelfth and the thirteenth
/// count user and system time.
pub open spec fn ticks_in(line: Seq<char>) -> Option<int> {
    match stat_fields_at(line, line.len() as int) {
        None => None,
        Some(from) => {
            let words = word_places(line, from, line.len() as int, true);
            match (word_number(line, words, 11), word_number(line, words, 12)) {
                (Some(user), Some(system)) => Some(min_int(user + system, u64::MAX as int)),
                _ => None,
            }
        },
    }
}

/// The number in one of the words.
fn number_at(line: &Vec<char>, words: &Vec<(usize, usize)>, index: usize) -> (r: Option<u64>)
    requires
        forall|i: int| 0 <= i < words@.len() ==> (#[trigger] words@[i]).0 < words@[i].1 <= line@.len(),
    ensures
        r is Some == word_number(line@, places(words@), index as int) is Some,
        r matches Some(value) ==> word_number(line@, places(words@), index as int) == Some(
            value as int,
        ),
{
    if index >= words.len() {
        return None;
    }
    assert(places(words@)[index as int] == (words@[index as int].0 as int, words@[index as int].1 as int));
    parse_number(line, words[index].0, words[index].1, u64::MAX)
}

/// Processor time of a process in clock ticks, from the line that the system
/// keeps of it. The command name stands in brackets and may hold anything, so
/// the words count from behind the last closing one.
pub fn process_cpu_ticks(stat: &str) -> (r: Option<u64>)
    ensures
        r is Some == ticks_in(stat@) is Some,
        r matches Some(ticks) ==> ticks_in(stat@) == Some(ticks as int),
{
    let line: Vec<char> = chars_of(stat);
    let mut at: usize = line.len();
    while at > 0 && !(at < line.len() && line[at - 1] == ')' && line[at] == ' ')
        invariant
            at <= line@.len(),
            stat_fields_at(line@, line@.len() as int) == stat_fields_at(line@, at as int),
        decreases at,
    {
        at = at - 1;
    }
    if at == 0 {
        return None;
    }
    let words: Vec<(usize, usize)> = find_words(&line, at + 1, line.len(), true);
    match (number_at(&line, &words, 11), number_at(&line, &words, 12)) {
        (Some(user), Some(system)) => Some(user.saturating_add(system)),
        _ => None,
    }
}

/// The clock rate in the system's answer, without the white space around it.
pub open spec fn ticks_per_second_in(answer: Option<Seq<char>>) -> int {
    match answer {
        None => DEFAULT_TICKS_PER_SECOND as int,
        Some(text) => {
            let to = trimmed_end(text, 0, text.len() as int);
            let from = next_space(text, 0, to, false, false);
            match parsed_number(text.subrange(from, to), u64::MAX as int) {
                Some(ticks) => ticks,
                None => DEFAULT_TICKS_PER_SECOND as int,
            }
        },
    }
}

/// The clock rate in the system's answer: a number with white space around it,
/// or the usual rate where there is no answer or it holds no number.
pub fn ticks_per_second(answer: Option<&str>) -> (r: u64)
    ensures
        r == ticks_per_second_in(
            match answer {
                Some(text) => Some(text@),
                None => None,
            },
        ),
{
    match answer {
        None => DEFAULT_TICKS_PER_SECOND,
        Some(text) => {
            let chars: Vec<char> = chars_of(text);
            let to: usize = trim_end_at(&chars, 0, chars.len());
            let from: usize = find_space(&chars, 0, to, false, false);
            match parse_number(&chars, from, to, u64::MAX) {
                Some(ticks) => ticks,
                None => DEFAULT_TICKS_PER_SECOND,
            }
        },
    }
}

/// The share of one processor that was used between two readings, in parts of
/// a thousand: the whole of it where the clock does not run.
pub open spec fn utilization(
    previous: Option<u64>,
    current: Option<u64>,
    ticks_per_second: u64,
    nanos: int,
) -> int {
    match (previous, current) {
        (Some(before), Some(after)) => {
            let micros = if nanos / 1_000 < 1 { 1 } else { nanos / 1_000 };
            let used = if after >= before { after - before } else { 0 };
            if ticks_per_second == 0 {
                1_000
            } else {
                min_int(used * 1_000_000_000 / (ticks_per_second * micros), 1_000)
            }
        },
        _ => 0,
    }
}

/// Processor time seen last.
#[derive(Clone, Copy, Debug)]
pub struct CpuSampler {
    pub previous_ticks: Option<u64>,
    pub previous_at: Instant,
    pub ticks_per_second: u64,
}

impl CpuSampler {
    /// Start from a first reading and the system's clock rate.
    pub fn new(previous_ticks: Option<u64>, previous_at: Instant, clock_rate: Option<&str>) -> (r: Self)
        ensures
            r.previous_ticks == previous_ticks,
            r.previous_at == previous_at,
            r.ticks_per_second == ticks_per_second_in(
                match clock_rate {
                    Some(text) => Some(text@),
                    None => None,
                },
            ),
    {
        CpuSampler { previous_ticks, previous_at, ticks_per_second: ticks_per_second(clock_rate) }
    }

    /// Take a reading: the share of one processor that was used since the last
    /// one, in parts of a thousand, zero where either reading is missing.
    pub fn sample(&mut self, current: Option<u64>, now: Instant) -> (r: u16)
        ensures
            r == utilization(
                old(self).previous_ticks,
                current,
                old(self).ticks_per_second,
                now.since(old(self).previous_at),
            ),
            *final(self) == (CpuSampler {
                previous_ticks: current,
                previous_at: now,
                ..*old(self)
            }),
    {
        let value: u16 = match (self.previous_ticks, current) {
            (Some(before), Some(after)) => {
                let micros: u128 = now.saturating_duration_since(self.previous_at).as_micros();
                let micros: u128 = if micros < 1 { 1 } else { micros };
                let used: u128 = after.saturating_sub(before) as u128 * 1_000_000_000;
                if self.ticks_per_second == 0 {
                    1_000
                } else {
                    match (self.ticks_per_second as u128).checked_mul(micros) {
                        Some(capacity) => {
                            proof {
                                assert(capacity >= 1) by (nonlinear_arith)
                                    requires
                                        capacity == self.ticks_per_second * micros,
                                        self.ticks_per_second >= 1,
                                        micros >= 1,
                                ;
                            }
                            let share: u128 = used / capacity;
                            if share > 1_000 { 1_000 } else { share as u16 }
                        },
                        None => {
                            proof {
                                let capacity = self.ticks_per_second * micros;
                                vstd::arithmetic::div_mod::lemma_basic_div(used as int, capacity);
                            }
                            0
                        },
                    }
                }
            },
            _ => 0,
        };
        self.previous_ticks = current;
        self.previous_at = now;
        value
    }
}

/// A reading never reports more than the whole processor.
pub proof fn lemma_utilization_is_bounded(
    previous: Option<u64>,
    current: Option<u64>,
    ticks_per_second: u64,
    nanos: int,
)
    requires
        nanos >= 0,
    ensures
        0 <= utilization(previous, current, ticks_per_second, nanos) <= 1_000,
{
    if let (Some(before), Some(after)) = (previous, current) {
        let micros = if nanos / 1_000 < 1 { 1 } else { nanos / 1_000 };
        let used = if after >= before { after - before } else { 0 };
        if ticks_per_second > 0 {
            assert(ticks_per_second * micros >= 1) by (nonlinear_arith)
                requires
                    ticks_per_second >= 1,
                    micros >= 1,
            ;
            vstd::arithmetic::div_mod::lemma_div_pos_is_pos(
                used * 1_000_000_000,
                ticks_per_second * micros,
            );
        }
    }
}

/// The utilization is the share of the elapsed time, in thousandths, that the
/// used ticks make up, rounded down, and at most one full core.
pub proof fn lemma_utilization_is_the_share_of_time(
    before: u64,
    used: u64,
    ticks_per_second: u64,
    micros: int,
)
    requires
        before + used <= u64::MAX,
        ticks_per_second > 0,
        micros >= 1,
    ensures
        ({
            let after = (before + used) as u64;
            let share = utilization(Some(before), Some(after), ticks_per_second, micros * 1_000);
            &&& 0 <= share <= 1_000
            &&& share * (ticks_per_second * micros) <= used * 1_000_000_000
            &&& share < 1_000 ==> used * 1_000_000_000 < (share + 1) * (ticks_per_second * micros)
        }),
{
    let capacity = ticks_per_second * micros;
    let work = used * 1_000_000_000;
    assert(capacity >= 1) by (nonlinear_arith)
        requires
            capacity == ticks_per_second * micros,
            ticks_per_second >= 1,
            micros >= 1,
    ;
    vstd::arithmetic::div_mod::lemma_fundamental_div_mod(work, capacity);
    let whole = work / capacity;
    assert(whole >= 0) by {
        vstd::arithmetic::div_mod::lemma_div_pos_is_pos(work, capacity);
    }
    assert(whole * capacity <= work && work < (whole + 1) * capacity) by (nonlinear_arith)
        requires
            work == capacity * whole + work % capacity,
            0 <= work % capacity < capacity,
    ;
    if whole > 1_000 {
        assert(1_000 * capacity <= whole * capacity) by (nonlinear_arith)
            requires
                whole > 1_000,
                capacity >= 1,
        ;
    }
}

/// Without two readings nothing is claimed, and a counter that ran backwards
/// counts as idle.
pub proof fn lemma_unknown_utilization_is_zero(
    before: u64,
    after: u64,
    ticks_per_second: u64,
    nanos: int,
)
    requires
        nanos >= 0,
    ensures
        utilization(None, Some(after), ticks_per_second, nanos) == 0,
        utilization(Some(before), None, ticks_per_second, nanos) == 0,
        utilization(None, None, ticks_per_second, nanos) == 0,
        after <= before && ticks_per_second > 0 ==> utilization(
            Some(before),
            Some(after),
            ticks_per_second,
            nanos,
        ) == 0,
{
    if after <= before && ticks_per_second > 0 {
        let micros = if nanos / 1_000 < 1 { 1 } else { nanos / 1_000 };
        assert(ticks_per_second * micros >= 1) by (nonlinear_arith)
            requires
                ticks_per_second >= 1,
                micros >= 1,
        ;
        vstd::arithmetic::div_mod::lemma_basic_div(0, ticks_per_second * micros);
    }
}

/// The fields of a process line begin behind the last closing bracket that a
/// space follows, so that a process name cannot pass for a field.
pub proof fn lemma_fields_follow_the_name(line: Seq<char>, at: int)
    requires
        at <= line.len(),
    ensures
        match stat_fields_at(line, at) {
            Some(from) => {
                &&& 2 <= from <= at + 1
                &&& from <= line.len()
                &&& line[from - 2] == ')'
                &&& line[from - 1] == ' '
                &&& forall|i: int|
                    from <= i < line.len() && i <= at ==> !(line[i - 1] == ')' && #[trigger] line[i]
                        == ' ')
            },
            None => forall|i: int|
                1 <= i < line.len() && i <= at ==> !(line[i - 1] == ')' && #[trigger] line[i] == ' '),
        },
    decreases at,
{
    if at > 0 && !(at < line.len() && line[at - 1] == ')' && line[at] == ' ') {
        lemma_fields_follow_the_name(line, at - 1);
    }
}

/// The ticks are the sum of the twelfth and the thirteenth field behind the
/// process name: the user and the system time.
pub proof fn lemma_ticks_add_user_and_system_time(line: Seq<char>, user: int, system: int)
    requires
        stat_fields_at(line, line.len() as int) is Some,
        ({
            let from = stat_fields_at(line, line.len() as int)->0;
            let words = word_places(line, from, line.len() as int, true);
            &&& words.len() >= 13
            &&& parsed_number(line.subrange(words[11].0, words[11].1), u64::MAX as int) == Some(user)
            &&& parsed_number(line.subrange(words[12].0, words[12].1), u64::MAX as int) == Some(
                system,
            )
        }),
        user + system <= u64::MAX,
    ensures
        ticks_in(line) == Some(user + system),
{
}

/// A hundred ticks make a second where the system does not answer, or answers
/// with no number.
pub proof fn lemma_silent_system_counts_hundred_ticks(answer: Option<Seq<char>>)
    requires
        answer matches Some(text) ==> forall|i: int|
            0 <= i < text.len() ==> !(48 <= #[trigger] text[i] as int <= 57),
    ensures
        ticks_per_second_in(answer) == 100,
{
    if let Some(text) = answer {
        let to = trimmed_end(text, 0, text.len() as int);
        let from = next_space(text, 0, to, false, false);
        crate::text::lemma_trimmed_end_in_range(text, 0, text.len() as int);
        crate::text::lemma_next_space(text, 0, to, false, false);
        let word = text.subrange(from, to);
        assert forall|i: int| 0 <= i < word.len() implies word[i] == text[from + i] by {}
        if word.len() > 0 {
            assert(word[0] == text[from]);
            if word[0] == '+' {
                let digits = word.skip(1);
                if digits.len() > 0 {
                    assert(digits[0] == text[from + 1]);
                }
            }
        }
    }
}

} // verus!
