//! Putting a supervisor's next check-in off.
use crate::ids::ThreadId;
use crate::tools::refusal::FunctionCallError;
use crate::tools::refusal::Refusal;
use vstd::prelude::*;

verus! {

/// What follows from a snooze.
#[derive(Clone, Copy, Debug, PartialEq, Eq, Structural)]
pub struct Snooze {
    /// How long the check-in is put off, which is the answer of the tool.
    pub delay_seconds: u64,
    /// The agent that is told, whether or not that works.
    pub notify: Option<ThreadId>,
}

/// Puts the next check-in off. `delay_seconds` is how long that was granted for; nothing is
/// granted outside of a check-in.
pub fn handle_snooze(parent: Option<ThreadId>, delay_seconds: Option<u64>) -> (res: Result<
    Snooze,
    FunctionCallError,
>)
    ensures
        res == match delay_seconds {
            Some(delay_seconds) => Ok::<Snooze, FunctionCallError>(
                Snooze { delay_seconds, notify: parent },
            ),
            None => Err(FunctionCallError::RespondToModel(Refusal::SnoozeOutsideCheckIn)),
        },
{
    match delay_seconds {
        Some(delay_seconds) => Ok(Snooze { delay_seconds, notify: parent }),
        None => Err(FunctionCallError::RespondToModel(Refusal::SnoozeOutsideCheckIn)),
    }
}

/// A check-in is put off for as long as was granted, and the agent that is supervised is told;
/// outside of a check-in nothing is put off.
pub proof fn law_snooze_lasts_as_long_as_granted(
    parent: Option<ThreadId>,
    granted: Option<u64>,
    res: Result<Snooze, FunctionCallError>,
)
    requires
        call_ensures(handle_snooze, (parent, granted), res),
    ensures
        granted matches Some(seconds) ==> res == Ok::<Snooze, FunctionCallError>(
            Snooze { delay_seconds: seconds, notify: parent },
        ),
        granted is None ==> res == Err::<Snooze, FunctionCallError>(
            FunctionCallError::RespondToModel(Refusal::SnoozeOutsideCheckIn),
        ),
{
}

} // verus!
