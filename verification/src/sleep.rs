//! The sleep future's decisions: when its timer is armed and when it is ready.
use vstd::prelude::*;

verus! {

/// What the host does for one poll of a [`Sleep`].
#[derive(Debug, Clone, Copy, PartialEq, Eq, Structural)]
pub enum SleepAction {
    /// Arm the timer for the sleep's duration, keep the waker for it, and
    /// answer pending.
    ArmTimer,
    /// The timer has fired: answer ready.
    Ready,
    /// The timer is armed and has not fired: replace the kept waker with the
    /// current one and answer pending.
    Wait,
}

/// A future that completes after a duration.
///
/// Created by the [`sleep`] function. The timer is armed on the first poll,
/// not at creation, and cannot be cancelled.
pub struct Sleep {
    duration: std::time::Duration,
    armed: bool,
}

impl Sleep {
    /// The duration the sleep was made with.
    pub closed spec fn spec_duration(&self) -> std::time::Duration {
        self.duration
    }

    /// Whether a poll has armed the timer.
    pub closed spec fn is_armed(&self) -> bool {
        self.armed
    }

    /// The duration the sleep was made with.
    pub fn duration(&self) -> (d: std::time::Duration)
        ensures
            d == self.spec_duration(),
    {
        self.duration
    }

    /// Whether a poll has armed the timer.
    pub fn armed(&self) -> (b: bool)
        ensures
            b == self.is_armed(),
    {
        self.armed
    }

    /// Decides one poll. `fired` says whether the armed timer has fired; it
    /// is not read before the timer is armed.
    ///
    /// The first poll arms the timer and is pending, whatever the duration;
    /// every later poll is ready exactly when the timer has fired.
    pub fn poll(&mut self, fired: bool) -> (a: SleepAction)
        ensures
            a == sleep_action(old(self).is_armed(), fired),
            final(self).is_armed(),
            final(self).spec_duration() == old(self).spec_duration(),
    {
        if !self.armed {
            self.armed = true;
            SleepAction::ArmTimer
        } else if fired {
            SleepAction::Ready
        } else {
            SleepAction::Wait
        }
    }
}

/// The action for a poll of a sleep that is `armed` or not, with the timer
/// `fired` or not.
pub open spec fn sleep_action(armed: bool, fired: bool) -> SleepAction {
    if !armed {
        SleepAction::ArmTimer
    } else if fired {
        SleepAction::Ready
    } else {
        SleepAction::Wait
    }
}

/// Returns a future that completes after the specified duration.
///
/// The timer is managed by the host's queues and does not block any thread
/// while waiting.
pub fn sleep(duration: std::time::Duration) -> (s: Sleep)
    ensures
        s.spec_duration() == duration,
        !s.is_armed(),
{
    Sleep { duration, armed: false }
}

} // verus!
