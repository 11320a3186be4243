//! What the controller loop reports after each tick of the state machine: a
//! bobber streak that lapsed without a reel (a missed bite, worth a warning so the
//! stability gate can be tuned), and a fresh cast (which asks the capture side to
//! re-read the lure buff for the next cycle's cast decision).
use crate::state::{Action, FishingState};
use vstd::prelude::*;

verus! {

/// The shell's bookkeeping for one controller tick.
#[derive(Debug, Clone, Copy, PartialEq, Eq, Structural)]
pub struct TickReport {
    /// A streak being confirmed lapsed without a reel.
    pub missed_bite: bool,
    /// The tick just cast (it entered Settling from another state).
    pub cast: bool,
}

/// A bobber sighting is being confirmed.
pub open spec fn spec_confirming(s: FishingState) -> bool {
    s is Searching && s->candidate is Some
}

/// The report for a tick from `prev` to `next` that performed `actions`.
pub open spec fn spec_tick_report(prev: FishingState, next: FishingState, actions: Seq<Action>) -> TickReport {
    TickReport {
        missed_bite: spec_confirming(prev) && !spec_confirming(next) && !actions.contains(
            Action::RightClick,
        ),
        cast: next is Settling && !(prev is Settling),
    }
}

/// Whether a bobber sighting is being confirmed.
pub fn is_confirming(s: &FishingState) -> (r: bool)
    ensures
        r == spec_confirming(*s),
{
    match s {
        FishingState::Searching { candidate: Some(_), .. } => true,
        _ => false,
    }
}

/// Whether the actions reel in (contain a right-click).
pub fn reels(actions: &Vec<Action>) -> (r: bool)
    ensures
        r == actions@.contains(Action::RightClick),
{
    let mut i: usize = 0;
    while i < actions.len()
        invariant
            i <= actions.len(),
            forall|j: int| 0 <= j < i ==> actions@[j] != Action::RightClick,
        decreases actions.len() - i,
    {
        if let Action::RightClick = actions[i] {
            return true;
        }
        i += 1;
    }
    false
}

/// Summarize one controller tick from `prev` to `next` with the step's `actions`.
pub fn observe_tick(prev: &FishingState, next: &FishingState, actions: &Vec<Action>) -> (r:
    TickReport)
    ensures
        r == spec_tick_report(*prev, *next, actions@),
{
    let was_confirming = is_confirming(prev);
    let still_confirming = is_confirming(next);
    let reeled = reels(actions);
    let entered_settling = match next {
        FishingState::Settling { .. } => match prev {
            FishingState::Settling { .. } => false,
            _ => true,
        },
        _ => false,
    };
    TickReport { missed_bite: was_confirming && !still_confirming && !reeled, cast: entered_settling }
}

} // verus!
