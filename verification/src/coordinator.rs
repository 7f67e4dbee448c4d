//! The idle/stats coordinator.
//!
//! Both transfer directions of a connection report their byte counts
//! here as they move data.  The coordinator aggregates them and watches
//! a single shared idle window: if no report arrives for longer than the
//! configured timeout, one cancellation broadcast is fired, which both
//! directions observe and answer by shutting down.  The timer is reset
//! by traffic in either direction — it is one watchdog for the whole
//! connection, not one per direction.
//!
//! Time is an abstract nondecreasing counter (seconds); the surrounding
//! program supplies the current value at each call.

use vstd::prelude::*;

verus! {

/// Aggregated traffic and idle-watchdog state of one connection.
#[derive(Clone, Copy, PartialEq, Eq, Structural, Debug)]
pub struct IdleCoordinator {
    /// The idle window: silence longer than this fires the cancellation.
    pub timeout: u64,
    /// Total bytes reported so far, both directions together.
    pub total: u64,
    /// When traffic was last reported (creation time before any report).
    pub last_activity: u64,
    /// Whether the cancellation broadcast has been fired.
    pub cancelled: bool,
}

/// What can happen to the coordinator: a byte-count report from either
/// direction, or a timed check of the idle window.
#[derive(Clone, Copy, PartialEq, Eq, Structural, Debug)]
pub enum CoordEvent {
    Report { n: u64, at: u64 },
    Poll { at: u64 },
}

/// How one event changes the coordinator.  A report adds to the total
/// and resets the idle window; a poll fires the cancellation exactly
/// when the window has been silent for longer than the timeout.
pub open spec fn spec_coord_step(c: IdleCoordinator, ev: CoordEvent) -> IdleCoordinator {
    match ev {
        CoordEvent::Report { n, at } => IdleCoordinator {
            total: (c.total + n) as u64,
            last_activity: at,
            ..c
        },
        CoordEvent::Poll { at } => IdleCoordinator {
            cancelled: c.cancelled || at - c.last_activity > c.timeout,
            ..c
        },
    }
}

/// The coordinator after a whole sequence of events.
pub open spec fn spec_coord_run(c: IdleCoordinator, evs: Seq<CoordEvent>) -> IdleCoordinator
    decreases evs.len(),
{
    if evs.len() == 0 {
        c
    } else {
        spec_coord_run(spec_coord_step(c, evs[0]), evs.drop_first())
    }
}

/// The sum of the byte counts carried by the reports of a sequence.
pub open spec fn sum_of_reports(evs: Seq<CoordEvent>) -> int
    decreases evs.len(),
{
    if evs.len() == 0 {
        0
    } else {
        (match evs[0] {
            CoordEvent::Report { n, .. } => n as int,
            CoordEvent::Poll { .. } => 0,
        }) + sum_of_reports(evs.drop_first())
    }
}

/// No poll in the sequence comes more than `timeout` after the activity
/// that precedes it, and time never runs backwards: the connection is
/// never idle for longer than the window.
pub open spec fn spec_no_idle_gap(last: u64, timeout: u64, evs: Seq<CoordEvent>) -> bool
    decreases evs.len(),
{
    if evs.len() == 0 {
        true
    } else {
        match evs[0] {
            CoordEvent::Report { at, .. } => at >= last && spec_no_idle_gap(
                at,
                timeout,
                evs.drop_first(),
            ),
            CoordEvent::Poll { at } => at >= last && at - last <= timeout && spec_no_idle_gap(
                last,
                timeout,
                evs.drop_first(),
            ),
        }
    }
}

impl IdleCoordinator {
    /// A fresh coordinator: nothing reported, watchdog armed from `now`.
    pub fn new(timeout: u64, now: u64) -> (c: IdleCoordinator)
        ensures
            c.timeout == timeout,
            c.total == 0,
            c.last_activity == now,
            !c.cancelled,
    {
        IdleCoordinator { timeout, total: 0, last_activity: now, cancelled: false }
    }

    /// Takes one byte-count report from either direction: adds it to the
    /// aggregate and resets the idle window to `now`.
    pub fn report(&mut self, n: u64, now: u64)
        requires
            old(self).total + n <= u64::MAX,
            now >= old(self).last_activity,
        ensures
            *final(self) == spec_coord_step(*old(self), CoordEvent::Report { n, at: now }),
            final(self).total == old(self).total + n,
            final(self).last_activity == now,
            final(self).cancelled == old(self).cancelled,
            final(self).timeout == old(self).timeout,
    {
        self.total = self.total + n;
        self.last_activity = now;
    }

    /// Checks the idle window at time `now`.  Returns true exactly when
    /// the cancellation must be broadcast now: the window has been
    /// silent for longer than the timeout and the broadcast has not
    /// already been fired — so the broadcast fires at most once.
    pub fn poll(&mut self, now: u64) -> (fire: bool)
        requires
            now >= old(self).last_activity,
        ensures
            *final(self) == spec_coord_step(*old(self), CoordEvent::Poll { at: now }),
            final(self).cancelled == (old(self).cancelled || now - old(self).last_activity
                > old(self).timeout),
            fire == (!old(self).cancelled && now - old(self).last_activity > old(self).timeout),
            final(self).total == old(self).total,
            final(self).last_activity == old(self).last_activity,
            final(self).timeout == old(self).timeout,
    {
        let idle = now - self.last_activity > self.timeout;
        let fire = !self.cancelled && idle;
        if idle {
            self.cancelled = true;
        }
        fire
    }
}

/// The sum of reported counts is never negative.
pub proof fn lemma_sum_of_reports_nonneg(evs: Seq<CoordEvent>)
    ensures
        sum_of_reports(evs) >= 0,
    decreases evs.len(),
{
    if evs.len() > 0 {
        lemma_sum_of_reports_nonneg(evs.drop_first());
    }
}

/// Law: as long as the aggregate fits the counter, the coordinator's
/// total after any sequence of reports and polls is its starting total
/// plus the sum of every reported count — the coordinator loses no
/// bytes and invents none.
pub proof fn lemma_total_is_sum_of_reports(c: IdleCoordinator, evs: Seq<CoordEvent>)
    requires
        c.total + sum_of_reports(evs) <= u64::MAX,
    ensures
        spec_coord_run(c, evs).total == c.total + sum_of_reports(evs),
    decreases evs.len(),
{
    if evs.len() > 0 {
        let stepped = spec_coord_step(c, evs[0]);
        lemma_sum_of_reports_nonneg(evs.drop_first());
        match evs[0] {
            CoordEvent::Report { n, .. } => {
                lemma_total_is_sum_of_reports(stepped, evs.drop_first());
            }
            CoordEvent::Poll { .. } => {
                lemma_total_is_sum_of_reports(stepped, evs.drop_first());
            }
        }
    }
}

/// Law: a poll that finds the connection silent for longer than the
/// timeout leaves the coordinator cancelled — a quiet connection is
/// closed once the idle window elapses.
pub proof fn lemma_silence_times_out(c: IdleCoordinator, at: u64)
    requires
        at >= c.last_activity,
        at - c.last_activity > c.timeout,
    ensures
        spec_coord_step(c, CoordEvent::Poll { at }).cancelled,
{
}

/// Law: a connection with traffic at intervals within the idle window
/// never times out, however long it runs — no poll of such a sequence
/// ever fires the cancellation.
pub proof fn lemma_active_never_times_out(c: IdleCoordinator, evs: Seq<CoordEvent>)
    requires
        !c.cancelled,
        spec_no_idle_gap(c.last_activity, c.timeout, evs),
    ensures
        !spec_coord_run(c, evs).cancelled,
    decreases evs.len(),
{
    if evs.len() > 0 {
        let stepped = spec_coord_step(c, evs[0]);
        lemma_active_never_times_out(stepped, evs.drop_first());
    }
}

} // verus!
