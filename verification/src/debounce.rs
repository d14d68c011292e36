//! The rate limiter between raw candidate events and change signals.
//!
//! A candidate is forwarded only when at least one full window has elapsed
//! since the last *forwarded* candidate. Suppressed candidates leave the
//! limiter untouched, so a burst collapses into the signal that opened it.

use vstd::prelude::*;
use crate::event::{is_qualifying, qualifies, RawEventKind};

verus! {

/// The debounce window in nanoseconds: 100 ms.
pub const DEBOUNCE_WINDOW_NANOS: u128 = 100_000_000;

/// The limiter as a mathematical value. Times are nanoseconds on any
/// monotonic clock.
pub struct DebounceState {
    /// When a candidate was last forwarded, if one ever was.
    pub last: Option<nat>,
    /// The length of the window.
    pub window: nat,
}

/// One raw event together with the time at which it was delivered.
pub struct Arrival {
    pub kind: RawEventKind,
    pub at: nat,
}

/// Time elapsed from `earlier` to `now`; zero when `earlier` is not in the
/// past.
pub open spec fn elapsed_between(now: nat, earlier: nat) -> nat {
    if now >= earlier {
        (now - earlier) as nat
    } else {
        0
    }
}

impl DebounceState {
    /// A limiter that has not forwarded anything yet.
    pub open spec fn fresh(window: nat) -> Self {
        DebounceState { last: None, window }
    }

    /// Whether a candidate delivered at `now` is forwarded.
    pub open spec fn admits(self, now: nat) -> bool {
        match self.last {
            None => true,
            Some(t) => elapsed_between(now, t) >= self.window,
        }
    }

    /// The limiter after forwarding a candidate at `now`.
    pub open spec fn forwarded_at(self, now: nat) -> Self {
        DebounceState { last: Some(now), window: self.window }
    }

    /// The limiter after a candidate was offered at `now`.
    pub open spec fn offer(self, now: nat) -> Self {
        if self.admits(now) {
            self.forwarded_at(now)
        } else {
            self
        }
    }

    /// Whether this arrival produces a signal.
    pub open spec fn emits(self, arrival: Arrival) -> bool {
        qualifies(arrival.kind) && self.admits(arrival.at)
    }

    /// The limiter after this arrival was handled.
    pub open spec fn step(self, arrival: Arrival) -> Self {
        if qualifies(arrival.kind) {
            self.offer(arrival.at)
        } else {
            self
        }
    }

    /// The limiter after a whole sequence of arrivals, handled in order.
    pub open spec fn run(self, arrivals: Seq<Arrival>) -> Self
        decreases arrivals.len(),
    {
        if arrivals.len() == 0 {
            self
        } else {
            self.step(arrivals[0]).run(arrivals.drop_first())
        }
    }

    /// How many signals a sequence of arrivals produces.
    pub open spec fn signals(self, arrivals: Seq<Arrival>) -> nat
        decreases arrivals.len(),
    {
        if arrivals.len() == 0 {
            0
        } else {
            let first: nat = if self.emits(arrivals[0]) {
                1
            } else {
                0
            };
            first + self.step(arrivals[0]).signals(arrivals.drop_first())
        }
    }
}

/// Arrivals that produce no signal leave no trace: if none of them is
/// forwarded by the limiter as it stands, the whole sequence sends nothing and
/// the limiter ends as it began.
pub proof fn lemma_suppressed_arrivals_leave_no_trace(state: DebounceState, arrivals: Seq<Arrival>)
    requires
        forall|i: int| 0 <= i < arrivals.len() ==> !state.emits(#[trigger] arrivals[i]),
    ensures
        state.signals(arrivals) == 0,
        state.run(arrivals) == state,
    decreases arrivals.len(),
{
    if arrivals.len() > 0 {
        let rest = arrivals.drop_first();
        assert(!state.emits(arrivals[0]));
        assert(state.step(arrivals[0]) == state);
        assert forall|i: int| 0 <= i < rest.len() implies !state.emits(#[trigger] rest[i]) by {
            assert(rest[i] == arrivals[i + 1]);
        }
        lemma_suppressed_arrivals_leave_no_trace(state, rest);
    }
}

/// Filter correctness: events of kinds that do not qualify never produce a
/// signal and never move the window, however many there are and whenever
/// they arrive.
pub proof fn lemma_unqualified_events_are_ignored(state: DebounceState, arrivals: Seq<Arrival>)
    requires
        forall|i: int| 0 <= i < arrivals.len() ==> !qualifies(#[trigger] arrivals[i].kind),
    ensures
        state.signals(arrivals) == 0,
        state.run(arrivals) == state,
{
    assert forall|i: int| 0 <= i < arrivals.len() implies !state.emits(#[trigger] arrivals[i]) by {
        assert(!qualifies(arrivals[i].kind));
    }
    lemma_suppressed_arrivals_leave_no_trace(state, arrivals);
}

/// Whether every two arrivals lie strictly less than `window` apart.
pub open spec fn within_one_window(arrivals: Seq<Arrival>, window: nat) -> bool {
    forall|i: int, j: int|
        0 <= i < arrivals.len() && 0 <= j < arrivals.len() ==> elapsed_between(
            #[trigger] arrivals[i].at,
            #[trigger] arrivals[j].at,
        ) < window
}

/// Whether every arrival is a content change.
pub open spec fn all_qualify(arrivals: Seq<Arrival>) -> bool {
    forall|i: int| 0 <= i < arrivals.len() ==> qualifies(#[trigger] arrivals[i].kind)
}

/// Debounce collapsing: a burst of qualifying events that all lie strictly
/// within one window of each other, and whose first event is forwarded,
/// produces exactly one signal: the one that opens the burst.
pub proof fn lemma_burst_collapses_to_one_signal(state: DebounceState, arrivals: Seq<Arrival>)
    requires
        arrivals.len() >= 2,
        all_qualify(arrivals),
        within_one_window(arrivals, state.window),
        state.admits(arrivals[0].at),
    ensures
        state.signals(arrivals) == 1,
        state.run(arrivals) == state.forwarded_at(arrivals[0].at),
{
    let opened = state.step(arrivals[0]);
    let rest = arrivals.drop_first();
    assert(qualifies(arrivals[0].kind));
    assert(opened == state.forwarded_at(arrivals[0].at));
    assert forall|i: int| 0 <= i < rest.len() implies !opened.emits(#[trigger] rest[i]) by {
        assert(rest[i] == arrivals[i + 1]);
        assert(elapsed_between(arrivals[i + 1].at, arrivals[0].at) < state.window);
    }
    lemma_suppressed_arrivals_leave_no_trace(opened, rest);
}

/// A burst of events that all lie strictly within one window of each other
/// never produces more than one signal, whatever the limiter forwarded
/// before.
pub proof fn lemma_burst_sends_at_most_one_signal(state: DebounceState, arrivals: Seq<Arrival>)
    requires
        within_one_window(arrivals, state.window),
    ensures
        state.signals(arrivals) <= 1,
    decreases arrivals.len(),
{
    if arrivals.len() > 0 {
        let rest = arrivals.drop_first();
        assert forall|i: int, j: int| 0 <= i < rest.len() && 0 <= j < rest.len() implies elapsed_between(
            #[trigger] rest[i].at,
            #[trigger] rest[j].at,
        ) < state.window by {
            assert(rest[i] == arrivals[i + 1]);
            assert(rest[j] == arrivals[j + 1]);
        }
        if state.emits(arrivals[0]) {
            let opened = state.step(arrivals[0]);
            assert forall|i: int| 0 <= i < rest.len() implies !opened.emits(#[trigger] rest[i]) by {
                assert(rest[i] == arrivals[i + 1]);
                assert(elapsed_between(arrivals[i + 1].at, arrivals[0].at) < state.window);
            }
            lemma_suppressed_arrivals_leave_no_trace(opened, rest);
        } else {
            assert(state.step(arrivals[0]) == state);
            lemma_burst_sends_at_most_one_signal(state, rest);
        }
    }
}

/// Whether the arrivals come in order of time, each at least `window` after
/// every earlier one.
pub open spec fn spaced_by(arrivals: Seq<Arrival>, window: nat) -> bool {
    forall|i: int, j: int|
        0 <= i < j < arrivals.len() ==> (#[trigger] arrivals[i]).at + window <= (
        #[trigger] arrivals[j]).at
}

/// Qualifying events that come at least one window apart are each forwarded:
/// the limiter paces signals, it does not wait for silence.
pub proof fn lemma_spaced_events_are_all_forwarded(state: DebounceState, arrivals: Seq<Arrival>)
    requires
        all_qualify(arrivals),
        spaced_by(arrivals, state.window),
        arrivals.len() > 0 ==> state.admits(arrivals[0].at),
    ensures
        state.signals(arrivals) == arrivals.len(),
    decreases arrivals.len(),
{
    if arrivals.len() > 0 {
        let opened = state.step(arrivals[0]);
        let rest = arrivals.drop_first();
        assert(qualifies(arrivals[0].kind));
        assert(opened == state.forwarded_at(arrivals[0].at));
        assert forall|i: int| 0 <= i < rest.len() implies qualifies(#[trigger] rest[i].kind) by {
            assert(rest[i] == arrivals[i + 1]);
        }
        assert forall|i: int, j: int| 0 <= i < j < rest.len() implies (#[trigger] rest[i]).at
            + opened.window <= (#[trigger] rest[j]).at by {
            assert(rest[i] == arrivals[i + 1]);
            assert(rest[j] == arrivals[j + 1]);
        }
        if rest.len() > 0 {
            assert(rest[0] == arrivals[1]);
            assert(arrivals[0].at + state.window <= arrivals[1].at);
        }
        lemma_spaced_events_are_all_forwarded(opened, rest);
    }
}

/// Whether the limiter has forwarded nothing at a time later than `now`: the
/// clock has not run backwards since.
pub open spec fn not_before_last(state: DebounceState, now: nat) -> bool {
    state.last matches Some(t) ==> t <= now
}

/// Qualifying events that come at least one window apart, on a clock that
/// does not run backwards, are all forwarded but perhaps the first, which is
/// held back where it comes too soon after an earlier signal. Two or more
/// such events therefore always raise a signal.
pub proof fn lemma_spaced_events_miss_at_most_the_first(
    state: DebounceState,
    arrivals: Seq<Arrival>,
)
    requires
        all_qualify(arrivals),
        spaced_by(arrivals, state.window),
        arrivals.len() > 0 ==> not_before_last(state, arrivals[0].at),
    ensures
        state.signals(arrivals) + 1 >= arrivals.len(),
        arrivals.len() > 0 ==> state.signals(arrivals) == if state.admits(arrivals[0].at) {
            arrivals.len()
        } else {
            (arrivals.len() - 1) as nat
        },
        arrivals.len() >= 2 ==> state.signals(arrivals) >= 1,
{
    if arrivals.len() > 0 {
        if state.admits(arrivals[0].at) {
            lemma_spaced_events_are_all_forwarded(state, arrivals);
        } else {
            let rest = arrivals.drop_first();
            assert(qualifies(arrivals[0].kind));
            assert(state.step(arrivals[0]) == state);
            assert forall|i: int| 0 <= i < rest.len() implies qualifies(#[trigger] rest[i].kind) by {
                assert(rest[i] == arrivals[i + 1]);
            }
            assert forall|i: int, j: int| 0 <= i < j < rest.len() implies (#[trigger] rest[i]).at
                + state.window <= (#[trigger] rest[j]).at by {
                assert(rest[i] == arrivals[i + 1]);
                assert(rest[j] == arrivals[j + 1]);
            }
            if rest.len() > 0 {
                assert(rest[0] == arrivals[1]);
                assert(arrivals[0].at + state.window <= arrivals[1].at);
                assert(state.admits(rest[0].at));
            }
            lemma_spaced_events_are_all_forwarded(state, rest);
        }
    }
}

/// The window is fixed for the life of the limiter: no arrival changes it.
pub proof fn lemma_window_is_fixed(state: DebounceState, arrivals: Seq<Arrival>)
    ensures
        state.run(arrivals).window == state.window,
    decreases arrivals.len(),
{
    if arrivals.len() > 0 {
        lemma_window_is_fixed(state.step(arrivals[0]), arrivals.drop_first());
    }
}

/// The executable limiter.
pub struct Debouncer {
    last_forwarded: Option<u128>,
    window: u128,
}

impl View for Debouncer {
    type V = DebounceState;

    closed spec fn view(&self) -> DebounceState {
        DebounceState {
            last: match self.last_forwarded {
                None => None,
                Some(t) => Some(t as nat),
            },
            window: self.window as nat,
        }
    }
}

impl Debouncer {
    /// A limiter with the given window that has not forwarded anything yet,
    /// so that the first candidate always passes.
    pub fn new(window: u128) -> (limiter: Self)
        ensures
            limiter@ == DebounceState::fresh(window as nat),
    {
        Debouncer { last_forwarded: None, window }
    }

    /// Offers a candidate delivered at `now`. Returns whether it is forwarded;
    /// only a forwarded candidate moves the window.
    pub fn offer(&mut self, now: u128) -> (forward: bool)
        ensures
            forward == old(self)@.admits(now as nat),
            final(self)@ == old(self)@.offer(now as nat),
    {
        let forward = match self.last_forwarded {
            None => true,
            Some(t) => if now >= t {
                now - t >= self.window
            } else {
                self.window == 0
            },
        };
        if forward {
            self.last_forwarded = Some(now);
        }
        forward
    }

    /// Handles one raw event of the given kind, delivered at `now`: the event
    /// filter first, then the debounce filter. Returns whether a signal is to
    /// be sent.
    pub fn on_event(&mut self, kind: RawEventKind, now: u128) -> (forward: bool)
        ensures
            forward == old(self)@.emits(Arrival { kind, at: now as nat }),
            final(self)@ == old(self)@.step(Arrival { kind, at: now as nat }),
    {
        if is_qualifying(kind) {
            self.offer(now)
        } else {
            false
        }
    }
}

} // verus!
