//! The decisions of the safety monitor: overboost detection with a run of
//! consecutive readings to trigger and a hysteresis band to recover, and
//! the counting of successful responses that earns a higher progressive
//! limit.
//!
//! Pressures are real numbers in the monitor; what the decisions read of
//! them is the outcome of each comparison, handed in as a `bool`.

use vstd::prelude::*;

verus! {

/// Bits of `0.3f32`: the default recovery hysteresis (PSI)
pub const DEFAULT_HYSTERESIS_BITS: u32 = 0x3e99_999a;

/// Consecutive readings above the limit needed to trigger by default
pub const DEFAULT_CONSECUTIVE_READINGS: u8 = 2;

/// What one pressure reading means for the overboost state
#[derive(Debug, Clone, Copy, PartialEq, Eq, Structural)]
pub enum OverboostDecision {
    /// No overboost: the other safety checks go on
    Clear,
    /// Overboost detected now: cut the duty cycle to 0 % immediately
    Triggered,
    /// Still in overboost: keep the cut
    Persists,
    /// Pressure fell below the recovery threshold: recovery is allowed,
    /// after `recovery_ms` since the trigger when that time is known
    Recovered { recovery_ms: Option<u64> },
}

/// The detector and the decision after one reading, as `check_reading`
/// computes them.
pub open spec fn detector_step(d: OverboostDetector, above_limit: bool, below_recovery: bool, timestamp_ms: u64) -> (OverboostDetector, OverboostDecision) {
    if !d.is_overboost {
        if above_limit {
            let n = (d.consecutive_readings + 1) as u8;
            if n >= d.consecutive_readings_required {
                (OverboostDetector { is_overboost: true, overboost_start_ms: Some(timestamp_ms), consecutive_readings: n, ..d },
                    OverboostDecision::Triggered)
            } else {
                (OverboostDetector { consecutive_readings: n, ..d }, OverboostDecision::Clear)
            }
        } else {
            (OverboostDetector { consecutive_readings: 0, ..d }, OverboostDecision::Clear)
        }
    } else if below_recovery {
        (OverboostDetector { is_overboost: false, consecutive_readings: 0, ..d },
            OverboostDecision::Recovered {
                recovery_ms: match d.overboost_start_ms {
                    Some(start) => Some(if timestamp_ms >= start { (timestamp_ms - start) as u64 } else { 0u64 }),
                    None => None,
                },
            })
    } else {
        (d, OverboostDecision::Persists)
    }
}

/// The detector after readings `above` (each says whether the reading
/// exceeds the limit), none of them under the recovery threshold.
pub open spec fn detector_run(d: OverboostDetector, above: Seq<bool>, timestamp_ms: u64) -> OverboostDetector
    decreases above.len(),
{
    if above.len() == 0 {
        d
    } else {
        detector_step(detector_run(d, above.drop_last(), timestamp_ms), above.last(), false, timestamp_ms).0
    }
}

/// The number of readings at the end of `above` that exceed the limit.
pub open spec fn trailing_above(above: Seq<bool>) -> nat
    decreases above.len(),
{
    if above.len() == 0 {
        0
    } else if above.last() {
        trailing_above(above.drop_last()) + 1
    } else {
        0
    }
}

/// A detector starting clear enters overboost only after a run of at least
/// the required number of consecutive readings above the limit; until then
/// it counts exactly the current run.
pub proof fn lemma_overboost_needs_consecutive_run(d: OverboostDetector, above: Seq<bool>, timestamp_ms: u64)
    requires
        d.wf(),
        !d.is_overboost,
        d.consecutive_readings == 0,
    ensures
        detector_run(d, above, timestamp_ms).wf(),
        detector_run(d, above, timestamp_ms).consecutive_readings_required == d.consecutive_readings_required,
        !detector_run(d, above, timestamp_ms).is_overboost ==>
            detector_run(d, above, timestamp_ms).consecutive_readings == trailing_above(above),
        detector_run(d, above, timestamp_ms).is_overboost ==> exists|j: int|
            0 < j <= above.len() && #[trigger] trailing_above(above.subrange(0, j)) >= d.consecutive_readings_required,
    decreases above.len(),
{
    if above.len() > 0 {
        let prefix = above.drop_last();
        lemma_overboost_needs_consecutive_run(d, prefix, timestamp_ms);
        let before = detector_run(d, prefix, timestamp_ms);
        if before.is_overboost {
            let j = choose|j: int| 0 < j <= prefix.len() && #[trigger] trailing_above(prefix.subrange(0, j)) >= d.consecutive_readings_required;
            assert(above.subrange(0, j) =~= prefix.subrange(0, j));
        } else {
            assert(above.subrange(0, above.len() as int) =~= above);
            if detector_run(d, above, timestamp_ms).is_overboost {
                assert(above.last());
                assert(trailing_above(above) == trailing_above(prefix) + 1);
                assert(trailing_above(above.subrange(0, above.len() as int)) >= d.consecutive_readings_required);
            }
        }
    }
}

/// Overboost detection and hysteresis management
#[derive(Debug, Clone)]
pub struct OverboostDetector {
    /// Current overboost state
    pub is_overboost: bool,
    /// Timestamp of overboost detection
    pub overboost_start_ms: Option<u64>,
    /// Bit pattern of the recovery hysteresis (PSI below limit to clear)
    pub hysteresis_bits: u32,
    /// Consecutive overboost readings required
    pub consecutive_readings_required: u8,
    /// Current consecutive reading count
    pub consecutive_readings: u8,
}

impl OverboostDetector {
    /// Outside overboost, the run of readings above the limit has not yet
    /// reached the number required (or has just started).
    pub open spec fn wf(&self) -> bool {
        !self.is_overboost ==> (self.consecutive_readings < self.consecutive_readings_required
            || self.consecutive_readings == 0)
    }

    /// A detector outside overboost with no readings counted, needing two
    /// consecutive readings above the limit, with 0.3 PSI hysteresis.
    pub fn new() -> (d: Self)
        ensures
            d.wf(),
            !d.is_overboost,
            d.overboost_start_ms is None,
            d.hysteresis_bits == 0x3e99_999a,
            d.consecutive_readings_required == 2,
            d.consecutive_readings == 0,
    {
        OverboostDetector {
            is_overboost: false,
            overboost_start_ms: None,
            hysteresis_bits: DEFAULT_HYSTERESIS_BITS,
            consecutive_readings_required: DEFAULT_CONSECUTIVE_READINGS,
            consecutive_readings: 0,
        }
    }

    /// Take one manifold reading at `timestamp_ms`. `above_limit` says the
    /// pressure exceeds the overboost limit; `below_recovery` says it is
    /// under the limit less the hysteresis.
    ///
    /// Outside overboost, a reading above the limit extends the run of such
    /// readings and triggers once the run is as long as required; any other
    /// reading ends the run. In overboost, the cut persists until a reading
    /// falls below the recovery threshold, which clears the state and
    /// reports the time since the trigger.
    pub fn check_reading(&mut self, above_limit: bool, below_recovery: bool, timestamp_ms: u64) -> (r: OverboostDecision)
        requires
            old(self).wf(),
        ensures
            final(self).wf(),
            final(self).hysteresis_bits == old(self).hysteresis_bits,
            final(self).consecutive_readings_required == old(self).consecutive_readings_required,
            (*final(self), r) == detector_step(*old(self), above_limit, below_recovery, timestamp_ms),
            !old(self).is_overboost && above_limit ==> {
                let n = old(self).consecutive_readings + 1;
                &&& final(self).consecutive_readings == n
                &&& if n >= old(self).consecutive_readings_required {
                    &&& r == OverboostDecision::Triggered
                    &&& final(self).is_overboost
                    &&& final(self).overboost_start_ms == Some(timestamp_ms)
                } else {
                    &&& r == OverboostDecision::Clear
                    &&& !final(self).is_overboost
                    &&& final(self).overboost_start_ms == old(self).overboost_start_ms
                }
            },
            !old(self).is_overboost && !above_limit ==> {
                &&& r == OverboostDecision::Clear
                &&& !final(self).is_overboost
                &&& final(self).consecutive_readings == 0
                &&& final(self).overboost_start_ms == old(self).overboost_start_ms
            },
            old(self).is_overboost && below_recovery ==> {
                &&& r == OverboostDecision::Recovered {
                    recovery_ms: match old(self).overboost_start_ms {
                        Some(start) => Some(if timestamp_ms >= start { (timestamp_ms - start) as u64 } else { 0u64 }),
                        None => None,
                    },
                }
                &&& !final(self).is_overboost
                &&& final(self).consecutive_readings == 0
                &&& final(self).overboost_start_ms == old(self).overboost_start_ms
            },
            old(self).is_overboost && !below_recovery ==> {
                &&& r == OverboostDecision::Persists
                &&& *final(self) == *old(self)
            },
    {
        if !self.is_overboost {
            if above_limit {
                self.consecutive_readings = self.consecutive_readings + 1;
                if self.consecutive_readings >= self.consecutive_readings_required {
                    self.is_overboost = true;
                    self.overboost_start_ms = Some(timestamp_ms);
                    return OverboostDecision::Triggered;
                }
            } else {
                self.consecutive_readings = 0;
            }
            OverboostDecision::Clear
        } else if below_recovery {
            self.is_overboost = false;
            self.consecutive_readings = 0;
            let recovery_ms = match self.overboost_start_ms {
                Some(start) => Some(timestamp_ms.saturating_sub(start)),
                None => None,
            };
            OverboostDecision::Recovered { recovery_ms }
        } else {
            OverboostDecision::Persists
        }
    }
}

/// The successful-response count of the progressive limits after one
/// response, and whether the limit is raised. A failed response restarts
/// the count. With enough confidence and enough successes the limit goes
/// up by a step when there is room below the maximum, and the count
/// restarts; without room the count stays.
pub fn progressive_response_step(
    successful_responses: u32,
    response_success: bool,
    confident: bool,
    successful_responses_required: u32,
    room_to_raise: bool,
) -> (r: (u32, bool))
    requires
        response_success ==> successful_responses < u32::MAX,
    ensures
        ({
            let count = if response_success { successful_responses + 1 } else { 0 };
            let raise = confident && count >= successful_responses_required && room_to_raise;
            &&& r.1 == raise
            &&& r.0 == if raise { 0 } else { count }
        }),
{
    let count: u32 = if response_success { successful_responses + 1 } else { 0 };
    if confident && count >= successful_responses_required && room_to_raise {
        (0, true)
    } else {
        (count, false)
    }
}

} // verus!
