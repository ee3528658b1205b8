//! The decisions of auto-calibration at the end of a run: whether to retry,
//! abort, continue, raise the progressive limit, move to the next phase or
//! finish; which way the test duty cycle moves; and how the run and
//! success counters advance.
//!
//! The boost averages and tolerances are real numbers in the calibration
//! system; what these decisions read of them is the outcome of each
//! comparison, handed in as a `bool`.

use vstd::prelude::*;
use vstd::string::*;
use crate::state::CalibrationAction;

verus! {

/// Failed runs (without one valid sample) tolerated before aborting
pub const MAX_FAILED_RUNS: u8 = 3;

/// Runs in the conservative phase before moving on
pub const CONSERVATIVE_RUNS: u8 = 3;

/// Calibration phase progression
#[derive(Debug, Clone, Copy, PartialEq, Eq, Structural)]
pub enum CalibrationPhase {
    /// Initial conservative testing
    Conservative,
    /// Progressive limit expansion
    Progressive,
    /// Fine-tuning duty cycle
    FineTuning,
    /// Validation runs
    Validation,
}

/// How the test duty cycle changes for the next run
#[derive(Debug, Clone, Copy, PartialEq, Eq, Structural)]
pub enum DutyStep {
    /// Keep the duty cycle
    Hold,
    /// One step up: the boost was short of the target band
    Increase,
    /// One step down: the boost was above the target band
    Decrease,
}

/// The end of a calibration run
#[derive(Debug, Clone)]
pub struct RunOutcome {
    /// Recommended next action
    pub action: CalibrationAction,
    /// How the test duty cycle moves
    pub duty_step: DutyStep,
    /// Number of the next run
    pub run_number: u8,
    /// Successful runs at the current progressive limit
    pub successful_runs_at_limit: u8,
}

/// The action recommended after a run with valid samples.
pub open spec fn spec_run_action(phase: CalibrationPhase, run_number: u8, success: bool, successes: int, runs_before_progression: u8) -> CalibrationAction {
    if !success {
        CalibrationAction::ContinueRun
    } else {
        match phase {
            CalibrationPhase::Conservative => if run_number >= CONSERVATIVE_RUNS {
                CalibrationAction::AdvancePhase
            } else {
                CalibrationAction::ContinueRun
            },
            CalibrationPhase::Progressive => if successes >= runs_before_progression {
                CalibrationAction::IncreaseLimit
            } else {
                CalibrationAction::ContinueRun
            },
            CalibrationPhase::FineTuning => CalibrationAction::AdvancePhase,
            CalibrationPhase::Validation => CalibrationAction::Complete,
        }
    }
}

/// Decide the end of calibration run `run_number` in `phase`.
///
/// - `any_valid`: the run collected at least one valid sample. Without one
///   the run is retried while fewer than three runs were made, and the
///   calibration aborts after that; nothing else changes.
/// - `success`: the average boost was within tolerance of the target. A
///   success counts at the current limit and, by phase, advances the phase
///   (conservative, after the third run; fine tuning), raises the limit
///   (progressive, once enough successes), completes (validation) or
///   continues.
/// - `below_band` / `above_band`: after a miss, the average boost was short
///   of / over the target band, and the duty cycle moves up / down.
///
/// Every run with valid samples moves on to the next run number.
pub fn calibration_run_outcome(
    phase: CalibrationPhase,
    run_number: u8,
    any_valid: bool,
    success: bool,
    below_band: bool,
    above_band: bool,
    successful_runs_at_limit: u8,
    runs_before_progression: u8,
) -> (r: RunOutcome)
    requires
        any_valid ==> run_number < u8::MAX,
        any_valid && success ==> successful_runs_at_limit < u8::MAX,
    ensures
        !any_valid ==> {
            &&& run_number < 3 ==> r.action == CalibrationAction::RetryRun
            &&& run_number >= 3 ==> (r.action matches CalibrationAction::Abort { reason }
                && reason@ == "Multiple failed runs"@)
            &&& r.duty_step == DutyStep::Hold
            &&& r.run_number == run_number
            &&& r.successful_runs_at_limit == successful_runs_at_limit
        },
        any_valid ==> {
            let successes = if success { successful_runs_at_limit + 1 } else { successful_runs_at_limit as int };
            &&& r.action == spec_run_action(phase, run_number, success, successes, runs_before_progression)
            &&& r.duty_step == (if success { DutyStep::Hold } else if below_band { DutyStep::Increase }
                else if above_band { DutyStep::Decrease } else { DutyStep::Hold })
            &&& r.run_number == run_number + 1
            &&& r.successful_runs_at_limit == successes
        },
{
    if !any_valid {
        let action = if run_number < MAX_FAILED_RUNS {
            CalibrationAction::RetryRun
        } else {
            CalibrationAction::Abort { reason: String::from_str("Multiple failed runs") }
        };
        return RunOutcome { action, duty_step: DutyStep::Hold, run_number, successful_runs_at_limit };
    }
    let mut successes = successful_runs_at_limit;
    let mut action = CalibrationAction::ContinueRun;
    let mut duty_step = DutyStep::Hold;
    if success {
        successes = successes + 1;
        match phase {
            CalibrationPhase::Conservative => {
                if run_number >= CONSERVATIVE_RUNS {
                    action = CalibrationAction::AdvancePhase;
                }
            },
            CalibrationPhase::Progressive => {
                if successes >= runs_before_progression {
                    action = CalibrationAction::IncreaseLimit;
                }
            },
            CalibrationPhase::FineTuning => {
                action = CalibrationAction::AdvancePhase;
            },
            CalibrationPhase::Validation => {
                action = CalibrationAction::Complete;
            },
        }
    } else if below_band {
        duty_step = DutyStep::Increase;
    } else if above_band {
        duty_step = DutyStep::Decrease;
    }
    RunOutcome { action, duty_step, run_number: run_number + 1, successful_runs_at_limit: successes }
}

/// A run with valid samples that missed its target always continues with
/// the next run, in every phase: only a successful run can advance the
/// phase, raise the limit or complete. A successful run completes in
/// validation, advances from fine tuning, advances from the conservative
/// phase from its third run on, and raises the limit in the progressive
/// phase once the successes at the limit reach the number required.
pub proof fn lemma_run_actions(phase: CalibrationPhase, run_number: u8, successes: int, runs_before_progression: u8)
    ensures
        spec_run_action(phase, run_number, false, successes, runs_before_progression) == CalibrationAction::ContinueRun,
        phase == CalibrationPhase::Validation ==>
            spec_run_action(phase, run_number, true, successes, runs_before_progression) == CalibrationAction::Complete,
        phase == CalibrationPhase::FineTuning ==>
            spec_run_action(phase, run_number, true, successes, runs_before_progression) == CalibrationAction::AdvancePhase,
        phase == CalibrationPhase::Conservative ==>
            spec_run_action(phase, run_number, true, successes, runs_before_progression)
                == (if run_number >= 3 { CalibrationAction::AdvancePhase } else { CalibrationAction::ContinueRun }),
        phase == CalibrationPhase::Progressive ==>
            spec_run_action(phase, run_number, true, successes, runs_before_progression)
                == (if successes >= runs_before_progression { CalibrationAction::IncreaseLimit } else { CalibrationAction::ContinueRun }),
{
}

} // verus!
