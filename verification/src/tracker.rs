//! The activity tracker: when were players last seen, and for how long has the
//! server been idle since.

use vstd::prelude::*;

verus! {

/// The time between the reading `since` and the reading `now`. A reading taken
/// before `since` counts as no time at all, so the result is never negative.
pub open spec fn elapsed(since: nat, now: nat) -> nat {
    if now >= since {
        (now - since) as nat
    } else {
        0
    }
}

/// Whether more than `timeout` has passed between `since` and `now`. A span
/// that equals `timeout` is not yet idle.
pub open spec fn idle_between(since: nat, now: nat, timeout: nat) -> bool {
    elapsed(since, now) > timeout
}

/// Where idleness begins: the server is idle at exactly those readings that
/// lie more than `timeout` after `since`. At the reading that lies `timeout`
/// after `since` it is not idle yet; one instant later it is.
pub proof fn idle_begins_past_timeout(since: nat, timeout: nat)
    ensures
        !idle_between(since, since + timeout, timeout),
        idle_between(since, since + timeout + 1, timeout),
        forall|now: nat| idle_between(since, now, timeout) <==> now > since + timeout,
{
}

/// The moment at which activity was last known.
#[derive(Clone, Copy, Debug, PartialEq, Eq)]
pub struct ActivityState {
    last_active_at: u128,
}

impl View for ActivityState {
    type V = nat;

    /// The clock reading of the last known activity.
    closed spec fn view(&self) -> nat {
        self.last_active_at as nat
    }
}

impl ActivityState {
    /// A tracker that counts the moment `now` as the last activity, which
    /// grants a full timeout before the server can be found idle.
    pub fn new(now: u128) -> (state: Self)
        ensures
            state@ == now,
    {
        ActivityState { last_active_at: now }
    }

    /// The clock reading of the last known activity.
    pub fn last_active_at(&self) -> (at: u128)
        ensures
            at == self@,
    {
        self.last_active_at
    }

    /// Notes that players were seen at `now`.
    pub fn record_activity(&mut self, now: u128)
        ensures
            final(self)@ == now,
    {
        self.last_active_at = now;
    }

    /// How long the server has been without known activity at `now`.
    pub fn idle_duration(&self, now: u128) -> (idle_for: u128)
        ensures
            idle_for == elapsed(self@, now as nat),
    {
        if now >= self.last_active_at {
            now - self.last_active_at
        } else {
            0
        }
    }

    /// Whether the server has been without known activity for longer than
    /// `timeout` at `now`.
    pub fn is_idle(&self, now: u128, timeout: u128) -> (idle: bool)
        ensures
            idle == idle_between(self@, now as nat, timeout as nat),
    {
        self.idle_duration(now) > timeout
    }
}

} // verus!
