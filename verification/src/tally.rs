//! The two counters of a run.

use crate::invoke::{second_step, FollowupView, Outcome, OutcomeView, ProcessResult};
use crate::text::{converted_line, errors_line, render_converted_line, render_errors_line, texts};
use crate::walk::WalkState;
use vstd::prelude::*;

verus! {

/// How many files were converted and how many errors occurred. A counter
/// that has reached the largest value it can hold stays there.
#[derive(Debug, Clone, Copy, PartialEq, Eq)]
pub struct Tally {
    pub converted: u64,
    pub errors: u64,
}

/// `count` and one more, as far as the counter can hold it.
pub open spec fn one_more(count: u64) -> u64 {
    if count < u64::MAX {
        (count + 1) as u64
    } else {
        count
    }
}

/// How many of the outcomes are conversions.
pub open spec fn conversions(outcomes: Seq<OutcomeView>) -> nat
    decreases outcomes.len(),
{
    if outcomes.len() == 0 {
        0
    } else {
        conversions(outcomes.drop_last()) + if outcomes.last() is Converted {
            1nat
        } else {
            0nat
        }
    }
}

/// How many of the outcomes are failures.
pub open spec fn failures(outcomes: Seq<OutcomeView>) -> nat
    decreases outcomes.len(),
{
    if outcomes.len() == 0 {
        0
    } else {
        failures(outcomes.drop_last()) + if outcomes.last() is Failed {
            1nat
        } else {
            0nat
        }
    }
}

impl Tally {
    /// The counters at the start of a run.
    pub open spec fn zero() -> Tally {
        Tally { converted: 0, errors: 0 }
    }

    /// The counters after one more outcome.
    pub open spec fn recorded(self, outcome: OutcomeView) -> Tally {
        match outcome {
            OutcomeView::Converted(_) => Tally {
                converted: one_more(self.converted),
                errors: self.errors,
            },
            OutcomeView::Failed(_) => self.failed(),
        }
    }

    /// The counters after one more error.
    pub open spec fn failed(self) -> Tally {
        Tally { converted: self.converted, errors: one_more(self.errors) }
    }

    /// The counters after the outcomes were recorded in order.
    pub open spec fn after(self, outcomes: Seq<OutcomeView>) -> Tally
        decreases outcomes.len(),
    {
        if outcomes.len() == 0 {
            self
        } else {
            self.after(outcomes.drop_last()).recorded(outcomes.last())
        }
    }

    /// The two lines of the final summary.
    pub open spec fn summary(self) -> Seq<Seq<char>> {
        seq![converted_line(self.converted as nat), errors_line(self.errors as nat)]
    }

    /// Starts a run: nothing converted, no error.
    pub fn new() -> (tally: Tally)
        ensures
            tally == Tally::zero(),
    {
        Tally { converted: 0, errors: 0 }
    }

    /// Counts the outcome of one conversion: a conversion adds to the
    /// converted counter, a failure to the error counter. The walk goes on
    /// either way.
    pub fn record(&mut self, outcome: &Outcome) -> (next: WalkState)
        ensures
            *final(self) == old(self).recorded(outcome@),
            next == WalkState::Continue,
    {
        match outcome {
            Outcome::Converted(_) => {
                self.converted = self.converted.saturating_add(1);
            },
            Outcome::Failed(_) => {
                self.errors = self.errors.saturating_add(1);
            },
        }
        WalkState::Continue
    }

    /// Counts an error of the walk itself, which ends the walk.
    pub fn handle_error(&mut self) -> (next: WalkState)
        ensures
            *final(self) == old(self).failed(),
            next == WalkState::Quit,
    {
        self.errors = self.errors.saturating_add(1);
        WalkState::Quit
    }

    /// Renders the final summary.
    pub fn summary_lines(&self) -> (lines: Vec<String>)
        ensures
            texts(lines@) == self.summary(),
    {
        let mut lines: Vec<String> = Vec::new();
        lines.push(render_converted_line(self.converted));
        lines.push(render_errors_line(self.errors));
        assert(texts(lines@) =~= self.summary());
        lines
    }
}

/// Every outcome is counted once: as long as the counters can hold them,
/// the converted counter is the number of conversions among the outcomes
/// recorded since the start, the error counter the number of failures, and
/// their sum the number of outcomes.
pub proof fn law_every_outcome_counted_once(outcomes: Seq<OutcomeView>)
    requires
        outcomes.len() <= u64::MAX,
    ensures
        Tally::zero().after(outcomes).converted == conversions(outcomes),
        Tally::zero().after(outcomes).errors == failures(outcomes),
        Tally::zero().after(outcomes).converted + Tally::zero().after(outcomes).errors
            == outcomes.len(),
    decreases outcomes.len(),
{
    if outcomes.len() > 0 {
        law_every_outcome_counted_once(outcomes.drop_last());
    }
}

/// No counter ever decreases, whatever is recorded.
pub proof fn law_counters_never_decrease(tally: Tally, outcomes: Seq<OutcomeView>)
    ensures
        tally.after(outcomes).converted >= tally.converted,
        tally.after(outcomes).errors >= tally.errors,
        tally.failed().converted == tally.converted,
        tally.failed().errors >= tally.errors,
    decreases outcomes.len(),
{
    if outcomes.len() > 0 {
        law_counters_never_decrease(tally, outcomes.drop_last());
    }
}

/// An error of the walk is counted once as well: after the outcomes of the
/// files dispatched so far and one error of the walk, the counters add up
/// to one more than the number of those files.
pub proof fn law_walk_error_counted_once(outcomes: Seq<OutcomeView>)
    requires
        outcomes.len() < u64::MAX,
    ensures
        Tally::zero().after(outcomes).failed().converted + Tally::zero().after(
            outcomes,
        ).failed().errors == outcomes.len() + 1,
{
    law_every_outcome_counted_once(outcomes);
}

/// A conversion whose process failed or could not be started ends as a
/// failure without any removal, and recording it adds exactly one to the
/// error counter and nothing to the converted counter.
pub proof fn law_failed_process_keeps_source(
    preserve: bool,
    source: Seq<char>,
    output: Seq<char>,
    result: ProcessResult,
    tally: Tally,
)
    requires
        !(result matches ProcessResult::Exited { success, .. } && success),
        tally.errors < u64::MAX,
    ensures
        second_step(preserve, source, output, result) matches FollowupView::Finish(outcome) && {
            &&& outcome is Failed
            &&& tally.recorded(outcome).errors == tally.errors + 1
            &&& tally.recorded(outcome).converted == tally.converted
        },
{
}

} // verus!
