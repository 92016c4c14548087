use vstd::prelude::*;

verus! {

/// Where a timeout stands.
#[derive(Debug, Clone, Copy, PartialEq, Eq, Structural)]
pub enum TimeoutState {
    Active,
    Inactive,
    Expired,
}

/// A liveness timer. Times are milliseconds on a clock that the caller reads
/// and hands in; the timer itself never reads a clock.
#[derive(Debug, Clone, Copy, PartialEq, Eq, Structural)]
pub struct Timeout {
    pub state: TimeoutState,
    /// How long the timer runs before it expires.
    pub duration: u64,
    /// When the timer was last started or stopped.
    pub start: u64,
}

impl Timeout {
    /// True when, at time `now`, more than `duration` has passed since `start`.
    pub open spec fn elapsed_at(self, now: u64) -> bool {
        now >= self.start && now - self.start > self.duration
    }

    pub open spec fn new_spec(duration: u64) -> Timeout {
        Timeout { state: TimeoutState::Inactive, duration, start: 0 }
    }

    /// An inactive timer of the given duration.
    pub fn new(duration: u64) -> (r: Timeout)
        ensures
            r == Timeout::new_spec(duration),
    {
        Timeout { state: TimeoutState::Inactive, duration, start: 0 }
    }

    /// Starts (or restarts) the timer at time `now`.
    pub fn start(&mut self, now: u64)
        ensures
            *final(self) == (Timeout { state: TimeoutState::Active, start: now, ..*old(self) }),
    {
        self.state = TimeoutState::Active;
        self.start = now;
    }

    /// Stops the timer at time `now`.
    pub fn stop(&mut self, now: u64)
        ensures
            *final(self) == (Timeout { state: TimeoutState::Inactive, start: now, ..*old(self) }),
    {
        self.state = TimeoutState::Inactive;
        self.start = now;
    }

    /// An active timer whose duration has passed at time `now` becomes
    /// expired; the result tells whether the timer is expired afterwards.
    pub fn is_expired(&mut self, now: u64) -> (r: bool)
        ensures
            final(self).duration == old(self).duration,
            final(self).start == old(self).start,
            final(self).state == (if old(self).state is Active && old(self).elapsed_at(now) {
                TimeoutState::Expired
            } else {
                old(self).state
            }),
            r == (final(self).state is Expired),
    {
        if self.state == TimeoutState::Active && now >= self.start && now - self.start
            > self.duration {
            self.state = TimeoutState::Expired;
        }
        self.state == TimeoutState::Expired
    }
}

} // verus!
