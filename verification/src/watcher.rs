//! The watch session and the polling facade over it.

use vstd::prelude::*;
use std::path::Path;
use std::time::Instant;
use message_channel::{Channel, ChannelError, Receiver, Sender};
use notify::{RecommendedWatcher, RecursiveMode, Watcher};
use crate::debounce::{
    all_qualify,
    lemma_spaced_events_are_all_forwarded,
    lemma_spaced_events_miss_at_most_the_first,
    not_before_last,
    spaced_by,
    Arrival,
    DebounceState,
    Debouncer,
    DEBOUNCE_WINDOW_NANOS,
};
use crate::error::{
    map_notify_error_to_file_watcher_error,
    refusal_for,
    reported_failure,
    reports,
    FileWatcherError,
};
use crate::event::{event_kind, kind_of};
use crate::signal::ChangeMessage;

verus! {

/// `notify::RecommendedWatcher`, opaque: it is only held and handed on.
#[verifier::external_type_specification]
#[verifier::external_body]
pub struct ExRecommendedWatcher(RecommendedWatcher);

/// Everything the watch callback owns: the sending end of the queue, the
/// clock it reads and the rate limiter.
pub struct EventSink {
    sender: Sender<ChangeMessage>,
    epoch: Instant,
    limiter: Debouncer,
}

impl EventSink {
    /// The rate limiter as a mathematical value.
    pub closed spec fn limiter(&self) -> DebounceState {
        self.limiter@
    }

    /// The end of the queue into which signals are sent.
    pub closed spec fn sender(&self) -> Sender<ChangeMessage> {
        self.sender
    }

    /// The instant from which the sink counts time.
    pub closed spec fn epoch(&self) -> Instant {
        self.epoch
    }

    /// A sink that sends into `sender`, with the standard window and nothing
    /// forwarded yet. Its time starts now.
    pub fn new(sender: Sender<ChangeMessage>) -> (sink: Self)
        ensures
            sink.limiter() == DebounceState::fresh(DEBOUNCE_WINDOW_NANOS as nat),
            sink.sender() == sender,
    {
        EventSink { sender, epoch: Instant::now(), limiter: Debouncer::new(DEBOUNCE_WINDOW_NANOS) }
    }
}

/// The watch callback: runs once per delivery of the notification source.
///
/// A delivered event is classified, stamped with the clock and put to the
/// limiter; if the limiter forwards it, exactly one signal is sent. A failed
/// send is swallowed, and so is a failed delivery: neither reaches the
/// consumer nor stops the watch.
pub fn handle_raw_event(sink: &mut EventSink, delivery: Result<notify::Event, notify::Error>)
    ensures
        final(sink).sender() == old(sink).sender(),
        final(sink).epoch() == old(sink).epoch(),
        delivery is Err ==> final(sink).limiter() == old(sink).limiter(),
        delivery matches Ok(event) ==> exists|at: nat|
            final(sink).limiter() == old(sink).limiter().step(
                Arrival { kind: event_kind(&event), at },
            ),
{
    match delivery {
        Ok(event) => {
            let kind = kind_of(&event);
            let now = sink.epoch.elapsed().as_nanos();
            let forward = sink.limiter.on_event(kind, now);
            if forward {
                let _ = sink.sender.send(ChangeMessage::SomeKindOfChange);
            }
            assert(sink.limiter() == old(sink).limiter().step(
                Arrival { kind: event_kind(&event), at: now as nat },
            ));
        },
        Err(_) => {},
    }
}

/// Calls `notify::recommended_watcher` with a callback that hands every
/// delivery to `handle_raw_event`. Whether the platform's watcher starts is up
/// to the operating system. Claimed is only that a refusal is never about an
/// unknown watch: the source reports that kind where a watch is removed, and
/// nowhere else.
#[verifier::external_body]
fn spawn_watcher(sink: EventSink) -> (spawned: Result<RecommendedWatcher, notify::Error>)
    ensures
        spawned matches Err(refusal) ==> !(reported_failure(refusal) is WatchNotFound),
{
    let mut sink = sink;
    notify::recommended_watcher(
        move |delivery: notify::Result<notify::Event>| handle_raw_event(&mut sink, delivery),
    )
}

/// Calls `notify::Watcher::watch` with `RecursiveMode::Recursive`. Whether
/// the path can be watched is up to the file system. Claimed is only that a
/// refusal is never about an unknown watch: the source reports that kind
/// where a watch is removed, and nowhere else.
#[verifier::external_body]
fn watch_recursively(watcher: &mut RecommendedWatcher, path: &Path) -> (watched: Result<
    (),
    notify::Error,
>)
    ensures
        watched matches Err(refusal) ==> !(reported_failure(refusal) is WatchNotFound),
{
    watcher.watch(path, RecursiveMode::Recursive)
}

/// The step of setting up a watch at which the notification source refused.
#[derive(Clone, Copy, Debug, PartialEq, Eq, Structural)]
pub enum SetupStep {
    /// Starting the platform's watcher.
    Initialize,
    /// Registering the path with the watcher.
    Register,
}

/// What the first step of a setup comes to, given the source's answer to
/// starting the platform's watcher: the watcher itself, or the refusal,
/// mapped for `watch_path` and marked with the step.
pub fn conclude_start(spawned: Result<RecommendedWatcher, notify::Error>, watch_path: &Path) -> (started:
    Result<RecommendedWatcher, (SetupStep, FileWatcherError)>)
    ensures
        spawned matches Ok(watcher) ==> (started matches Ok(w) && w == watcher),
        spawned matches Err(refusal) ==> (started matches Err(refused) && refused.0
            == SetupStep::Initialize && reports(
            refused.1,
            reported_failure(refusal),
            watch_path,
        )),
{
    match spawned {
        Ok(watcher) => Ok(watcher),
        Err(refusal) => Err(
            (SetupStep::Initialize, map_notify_error_to_file_watcher_error(refusal, watch_path)),
        ),
    }
}

/// What a setup comes to, given the source's answer to registering
/// `watch_path`: the watcher with the receiving end of the queue, or the
/// refusal, mapped for `watch_path` and marked with the step.
pub fn conclude_setup(
    registered: Result<(), notify::Error>,
    watcher: RecommendedWatcher,
    receiver: Receiver<ChangeMessage>,
    watch_path: &Path,
) -> (started: Result<
    (RecommendedWatcher, Receiver<ChangeMessage>),
    (SetupStep, FileWatcherError),
>)
    ensures
        registered is Ok ==> (started matches Ok(parts) && parts.0 == watcher && parts.1
            == receiver),
        registered matches Err(refusal) ==> (started matches Err(refused) && refused.0
            == SetupStep::Register && reports(refused.1, reported_failure(refusal), watch_path)),
{
    match registered {
        Ok(()) => Ok((watcher, receiver)),
        Err(refusal) => Err(
            (SetupStep::Register, map_notify_error_to_file_watcher_error(refusal, watch_path)),
        ),
    }
}

/// Sets up a recursive watch on `watch_path` in two steps: it starts the
/// platform's watcher with a fresh sink behind its callback, then registers
/// the path. The first refusal ends the setup; `conclude_start` and
/// `conclude_setup` say what becomes of each answer of the source.
pub fn set_up_watch(watch_path: &Path) -> (started: Result<
    (RecommendedWatcher, Receiver<ChangeMessage>),
    (SetupStep, FileWatcherError),
>)
    ensures
        started matches Err(refused) ==> refusal_for(refused.1, watch_path),
{
    let (sender, receiver) = Channel::create();
    let sink = EventSink::new(sender);
    match conclude_start(spawn_watcher(sink), watch_path) {
        Err(refused) => Err(refused),
        Ok(watcher) => {
            let mut watcher = watcher;
            let registered = watch_recursively(&mut watcher, watch_path);
            conclude_setup(registered, watcher, receiver, watch_path)
        },
    }
}

/// The outcome of a setup as `start_watch` hands it back: the same, without
/// the step at which the source refused.
pub fn without_step(outcome: Result<
    (RecommendedWatcher, Receiver<ChangeMessage>),
    (SetupStep, FileWatcherError),
>) -> (started: Result<(RecommendedWatcher, Receiver<ChangeMessage>), FileWatcherError>)
    ensures
        outcome matches Ok(parts) ==> (started matches Ok(p) && p == parts),
        outcome matches Err(refused) ==> (started matches Err(error) && error == refused.1),
{
    match outcome {
        Ok(parts) => Ok(parts),
        Err(refused) => Err(refused.1),
    }
}

/// Starts a recursive watch on `watch_path`.
///
/// On success the caller holds the watcher, which must be kept alive for as
/// long as signals are wanted, and the receiving end of the queue into which
/// the callback sends one signal per forwarded event. On failure the error
/// reports what the notification source refused, for this very path; it is
/// never of a reserved kind.
pub fn start_watch(watch_path: &Path) -> (started: Result<
    (RecommendedWatcher, Receiver<ChangeMessage>),
    FileWatcherError,
>)
    ensures
        started matches Err(error) ==> refusal_for(error, watch_path),
{
    without_step(set_up_watch(watch_path))
}

/// Whether a poll that took `taken` signals from the queue reports a change.
pub open spec fn poll_answer(taken: nat) -> bool {
    taken > 0
}

/// Events that come at least one window apart are each signalled. A poll that
/// takes all of these signals therefore reports a change exactly when there
/// was at least one event, and a poll that finds the queue empty reports
/// none.
pub proof fn lemma_poll_after_spaced_events(state: DebounceState, arrivals: Seq<Arrival>)
    requires
        all_qualify(arrivals),
        spaced_by(arrivals, state.window),
        arrivals.len() > 0 ==> state.admits(arrivals[0].at),
    ensures
        state.signals(arrivals) == arrivals.len(),
        poll_answer(state.signals(arrivals)) == (arrivals.len() > 0),
        !poll_answer(0),
{
    lemma_spaced_events_are_all_forwarded(state, arrivals);
}

/// Activity is never lost on the way to a poll. Where one or more events
/// have come at least one window apart, on a clock that does not run
/// backwards, a poll that takes all of their signals reports a change. Only
/// a lone event must itself be forwarded for that; of two or more, the
/// second always is.
pub proof fn lemma_poll_after_activity_reports_a_change(
    state: DebounceState,
    arrivals: Seq<Arrival>,
)
    requires
        arrivals.len() >= 1,
        all_qualify(arrivals),
        spaced_by(arrivals, state.window),
        not_before_last(state, arrivals[0].at),
        arrivals.len() == 1 ==> state.admits(arrivals[0].at),
    ensures
        state.signals(arrivals) >= 1,
        poll_answer(state.signals(arrivals)),
{
    lemma_spaced_events_miss_at_most_the_first(state, arrivals);
}

/// The answer of a poll that took `taken` signals from the queue.
pub fn changed_after(taken: u64) -> (changed: bool)
    ensures
        changed == poll_answer(taken as nat),
{
    taken > 0
}

/// Takes signals from the queue, without waiting, until it reports empty, and
/// returns how many were taken. A failed receive, whatever its cause, counts
/// as an empty queue. The count stops at `u64::MAX`.
///
/// The callback's thread fills the queue while this runs, so the count
/// cannot be told from anything the caller holds.
pub fn drain(receiver: &Receiver<ChangeMessage>) -> (taken: u64) {
    let mut taken: u64 = 0;
    while taken < u64::MAX
        decreases u64::MAX - taken,
    {
        match count_answer(taken, receiver.recv()) {
            Some(next) => {
                taken = next;
            },
            None => {
                break ;
            },
        }
    }
    taken
}

/// A live watch on one root path, polled for changes.
#[derive(Debug)]
pub struct FileWatcher {
    /// The receiving end of the queue that the watch callback fills.
    pub receiver: Receiver<ChangeMessage>,
    /// Held only to keep the watch alive.
    pub watcher: RecommendedWatcher,
}

impl FileWatcher {
    /// Starts watching `watch_path` recursively.
    ///
    /// Signals that are already queued when the watch stands are discarded
    /// before this returns, so that the first poll reports only what changed
    /// after construction.
    pub fn new(watch_path: &Path) -> (created: Result<Self, FileWatcherError>)
        ensures
            created matches Err(error) ==> refusal_for(error, watch_path),
    {
        Self::over_started(start_watch(watch_path))
    }

    /// The detector over what `start_watch` handed back: over the watch where
    /// it stands, and the same error where it does not.
    pub fn over_started(started: Result<
        (RecommendedWatcher, Receiver<ChangeMessage>),
        FileWatcherError,
    >) -> (created: Result<Self, FileWatcherError>)
        ensures
            started matches Ok(parts) ==> (created matches Ok(detector) && detector.watcher
                == parts.0 && detector.receiver == parts.1),
            started matches Err(error) ==> (created matches Err(e) && e == error),
    {
        match started {
            Err(error) => Err(error),
            Ok((watcher, receiver)) => Ok(Self::over(watcher, receiver)),
        }
    }

    /// Reports whether any signal has been queued since the last poll, and
    /// consumes every queued signal, so that a second poll right after the
    /// first reports nothing. Never waits for a signal to arrive.
    #[must_use]
    pub fn has_changed(&self) -> (changed: bool) {
        changed_after(drain(&self.receiver))
    }

    /// The detector over a watch that stands: it keeps `watcher`, and with it
    /// the watch, alive, and polls `receiver`. Signals that are queued
    /// already are discarded.
    pub fn over(watcher: RecommendedWatcher, receiver: Receiver<ChangeMessage>) -> (detector: Self)
        ensures
            detector.watcher == watcher,
            detector.receiver == receiver,
    {
        let _ = drain(&receiver);
        FileWatcher { receiver, watcher }
    }
}

/// What a drain that has taken `taken` signals makes of the queue's next
/// answer: with a signal the count goes up by one; with no signal the drain
/// ends, which `None` says.
pub open spec fn counted(taken: nat, signal: bool) -> Option<nat> {
    if signal {
        Some(taken + 1)
    } else {
        None
    }
}

/// Judges one answer of the queue during a drain. Any failure to receive,
/// an empty queue as much as a poisoned lock, ends the drain.
pub fn count_answer(taken: u64, answer: Result<ChangeMessage, ChannelError>) -> (next: Option<u64>)
    requires
        taken < u64::MAX,
    ensures
        match counted(taken as nat, answer is Ok) {
            Some(n) => next == Some(n as u64),
            None => next is None,
        },
{
    match answer {
        Ok(_) => Some(taken + 1),
        Err(_) => None,
    }
}

} // verus!
