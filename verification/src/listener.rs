//! The event listener's decisions: what each answer of the input event
//! source does to the activity clock, and when listening must stop.

use vstd::prelude::*;
use crate::clock::{ActivityClock, Timestamp};

verus! {

/// What the input event source handed back from one blocking wait.
#[derive(Clone, Copy, Debug, PartialEq, Eq)]
pub enum Notification {
    /// Some input arrived. Its kind and payload are not looked at.
    Activity,
    /// The wait itself failed: the event channel is gone.
    SourceFailed,
}

/// Why the listener cannot go on.
#[derive(Clone, Copy, Debug, PartialEq, Eq)]
pub enum SourceError {
    /// The display server lacks the input extension.
    MissingExtension,
    /// Waiting for the next event failed.
    EventChannel,
}

/// The answer with which the display server confirms an extension.
pub const EXTENSION_PRESENT: i32 = 1;

/// Judges the display server's answer to the query for the input extension:
/// only the confirming answer lets the listener start.
pub fn check_extension(answer: i32) -> (out: Result<(), SourceError>)
    ensures
        answer == EXTENSION_PRESENT ==> out == Ok::<(), SourceError>(()),
        answer != EXTENSION_PRESENT ==> out == Err::<(), SourceError>(
            SourceError::MissingExtension,
        ),
{
    if answer == EXTENSION_PRESENT {
        Ok(())
    } else {
        Err(SourceError::MissingExtension)
    }
}

/// Handles one answer of the event source. Activity of any kind sets the
/// clock to `now` and listening goes on; a failed wait leaves the clock as
/// it was and ends listening with an error.
pub fn on_notification(clock: &mut ActivityClock, note: Notification, now: Timestamp) -> (out:
    Result<(), SourceError>)
    ensures
        note == Notification::Activity ==> final(clock)@ == now && out == Ok::<(), SourceError>(
            (),
        ),
        note == Notification::SourceFailed ==> final(clock)@ == old(clock)@ && out == Err::<
            (),
            SourceError,
        >(SourceError::EventChannel),
{
    match note {
        Notification::Activity => {
            clock.update(now);
            Ok(())
        },
        Notification::SourceFailed => Err(SourceError::EventChannel),
    }
}

} // verus!
