//! The pacing of transport open attempts: a new attempt comes no sooner
//! than the retry interval after the previous attempt, after a transport
//! failure, or after start-up.
use crate::app::{transport_retry_due, TRANSPORT_RETRY_INTERVAL_MS};
use vstd::prelude::*;

verus! {

/// What happens to the transport clock, at a time in milliseconds of a
/// monotonic clock.
#[derive(Clone, Copy, Debug, PartialEq, Eq, Structural)]
pub enum ClockEvent {
    /// A runtime tick; `wanted` says a transport is wanted (a shared path
    /// was given), `connected` that one is open.
    Tick { now_ms: u64, wanted: bool, connected: bool },
    /// The runtime reported that the transport failed; it is dropped.
    TransportFailed { now_ms: u64 },
}

/// The time of an event.
pub open spec fn event_time(event: ClockEvent) -> u64 {
    match event {
        ClockEvent::Tick { now_ms, .. } => now_ms,
        ClockEvent::TransportFailed { now_ms } => now_ms,
    }
}

/// Whether a tick at `now_ms` opens the transport when the last attempt
/// (or failure, or start) was at `last_ms`.
pub open spec fn attempt_due(last_ms: u64, now_ms: u64, wanted: bool, connected: bool) -> bool {
    wanted && !connected && last_ms <= now_ms && now_ms - last_ms >= TRANSPORT_RETRY_INTERVAL_MS
}

/// One step of the clock: the new time of the last attempt, and whether
/// the event is an open attempt.
pub open spec fn clock_step(last_ms: u64, event: ClockEvent) -> (u64, bool) {
    match event {
        ClockEvent::Tick { now_ms, wanted, connected } => if attempt_due(
            last_ms,
            now_ms,
            wanted,
            connected,
        ) {
            (now_ms, true)
        } else {
            (last_ms, false)
        },
        ClockEvent::TransportFailed { now_ms } => (now_ms, false),
    }
}

/// The time of the last attempt after the first `i` events, starting from
/// `start_ms`.
pub open spec fn clock_after(start_ms: u64, events: Seq<ClockEvent>, i: nat) -> u64
    decreases i,
{
    if i == 0 {
        start_ms
    } else {
        clock_step(clock_after(start_ms, events, (i - 1) as nat), events[i - 1]).0
    }
}

/// Whether event `i` is an open attempt.
pub open spec fn is_attempt(start_ms: u64, events: Seq<ClockEvent>, i: nat) -> bool {
    clock_step(clock_after(start_ms, events, i), events[i as int]).1
}

/// Whether event `i` restarts the retry interval: an attempt or a failure.
pub open spec fn restarts_interval(start_ms: u64, events: Seq<ClockEvent>, i: nat) -> bool {
    is_attempt(start_ms, events, i) || events[i as int] is TransportFailed
}

/// Times that start at or after `start_ms` and never go back.
pub open spec fn monotone_times(start_ms: u64, events: Seq<ClockEvent>) -> bool {
    &&& forall|i: int| 0 <= i < events.len() ==> start_ms <= event_time(#[trigger] events[i])
    &&& forall|i: int, j: int|
        0 <= i <= j < events.len() ==> event_time(#[trigger] events[i]) <= event_time(
            #[trigger] events[j],
        )
}

/// The retry clock of the transport.
pub struct TransportClock {
    last_attempt_ms: u64,
}

impl View for TransportClock {
    type V = u64;

    closed spec fn view(&self) -> u64 {
        self.last_attempt_ms
    }
}

impl TransportClock {
    /// A clock started at `now_ms`: the first attempt waits a full interval.
    pub fn new(now_ms: u64) -> (clock: Self)
        ensures
            clock@ == now_ms,
    {
        TransportClock { last_attempt_ms: now_ms }
    }

    /// On a tick at `now_ms`: whether to try opening the transport now. A
    /// try restarts the interval.
    pub fn tick(&mut self, now_ms: u64, shared_path: &str, has_transport: bool) -> (attempt: bool)
        ensures
            (final(self)@, attempt) == clock_step(
                old(self)@,
                ClockEvent::Tick {
                    now_ms,
                    wanted: shared_path@.len() > 0,
                    connected: has_transport,
                },
            ),
    {
        if now_ms >= self.last_attempt_ms && transport_retry_due(
            shared_path,
            has_transport,
            now_ms - self.last_attempt_ms,
        ) {
            self.last_attempt_ms = now_ms;
            true
        } else {
            false
        }
    }

    /// On a transport failure at `now_ms`: the interval restarts.
    pub fn transport_failed(&mut self, now_ms: u64)
        ensures
            final(self)@ == clock_step(old(self)@, ClockEvent::TransportFailed { now_ms }).0,
    {
        self.last_attempt_ms = now_ms;
    }
}

/// The clock always holds the start time or the time of an earlier event.
proof fn lemma_clock_is_past_time(start_ms: u64, events: Seq<ClockEvent>, i: nat)
    requires
        i <= events.len(),
    ensures
        clock_after(start_ms, events, i) == start_ms || exists|k: int|
            0 <= k < i && clock_after(start_ms, events, i) == event_time(#[trigger] events[k]),
    decreases i,
{
    if i > 0 {
        lemma_clock_is_past_time(start_ms, events, (i - 1) as nat);
        let prev = clock_after(start_ms, events, (i - 1) as nat);
        if clock_after(start_ms, events, i) != prev {
            assert(clock_after(start_ms, events, i) == event_time(events[i - 1]));
        } else if prev != start_ms {
            let k = choose|k: int| 0 <= k < i - 1 && prev == event_time(#[trigger] events[k]);
            assert(clock_after(start_ms, events, i) == event_time(events[k]));
        }
    }
}

/// Under monotone times the clock is never later than the next event.
proof fn lemma_clock_before_event(start_ms: u64, events: Seq<ClockEvent>, i: nat, m: int)
    requires
        monotone_times(start_ms, events),
        i <= m < events.len(),
    ensures
        clock_after(start_ms, events, i) <= event_time(events[m]),
{
    lemma_clock_is_past_time(start_ms, events, i);
    if clock_after(start_ms, events, i) != start_ms {
        let k = choose|k: int|
            0 <= k < i && clock_after(start_ms, events, i) == event_time(#[trigger] events[k]);
        assert(event_time(events[k]) <= event_time(events[m]));
    } else {
        assert(start_ms <= event_time(events[m]));
    }
}

/// Under monotone times the clock never goes back.
proof fn lemma_clock_monotone(start_ms: u64, events: Seq<ClockEvent>, j: nat, i: nat)
    requires
        monotone_times(start_ms, events),
        j <= i <= events.len(),
    ensures
        clock_after(start_ms, events, j) <= clock_after(start_ms, events, i),
    decreases i - j,
{
    if j < i {
        lemma_clock_monotone(start_ms, events, j, (i - 1) as nat);
        lemma_clock_before_event(start_ms, events, (i - 1) as nat, i - 1);
    }
}

/// Open attempts are spaced by the retry interval: over any run of ticks
/// and failures at times that never go back, an attempt comes at least
/// `TRANSPORT_RETRY_INTERVAL_MS` after the start and after every earlier
/// attempt or transport failure.
pub proof fn law_attempts_spaced(start_ms: u64, events: Seq<ClockEvent>, i: nat, j: nat)
    requires
        monotone_times(start_ms, events),
        i < events.len(),
        is_attempt(start_ms, events, i),
    ensures
        event_time(events[i as int]) >= start_ms + TRANSPORT_RETRY_INTERVAL_MS,
        j < i && restarts_interval(start_ms, events, j) ==> event_time(events[i as int]) >= event_time(
            events[j as int],
        ) + TRANSPORT_RETRY_INTERVAL_MS,
{
    lemma_clock_monotone(start_ms, events, 0, i);
    if j < i && restarts_interval(start_ms, events, j) {
        lemma_clock_monotone(start_ms, events, j + 1, i);
        assert(clock_after(start_ms, events, j + 1) == event_time(events[j as int]));
    }
}


/// A tick opens the transport exactly when one is wanted, none is open, and
/// a full interval has passed since the last attempt; a failure restarts
/// the interval at its own time; a tick that makes no attempt leaves the
/// clock alone.
pub proof fn law_attempt_exactly_when_due(
    last_ms: u64,
    now_ms: u64,
    wanted: bool,
    connected: bool,
)
    ensures
        clock_step(last_ms, ClockEvent::Tick { now_ms, wanted, connected }).1 <==> (wanted
            && !connected && now_ms >= last_ms + TRANSPORT_RETRY_INTERVAL_MS),
        clock_step(last_ms, ClockEvent::Tick { now_ms, wanted, connected }).1 ==> clock_step(
            last_ms,
            ClockEvent::Tick { now_ms, wanted, connected },
        ).0 == now_ms,
        !clock_step(last_ms, ClockEvent::Tick { now_ms, wanted, connected }).1 ==> clock_step(
            last_ms,
            ClockEvent::Tick { now_ms, wanted, connected },
        ).0 == last_ms,
        clock_step(last_ms, ClockEvent::TransportFailed { now_ms }) == (now_ms, false),
{
}

} // verus!
