//! Watching the clipboard for changes: handlers, the watcher's lifecycle,
//! and the token that stops it.

use vstd::prelude::*;
use std::sync::mpsc::Sender;

verus! {

/// `std::sync::mpsc::Sender`, the sending end of a channel: opaque.
#[verifier::external_type_specification]
#[verifier::external_body]
#[verifier::reject_recursive_types(T)]
pub struct ExSender<T>(std::sync::mpsc::Sender<T>);

/// Code that wants to hear of clipboard changes.
pub trait ClipboardHandler {
    /// What hearing of one change makes of a handler: whether a handler
    /// that was in state `self` may be in state `after` once
    /// `on_clipboard_change` has returned. Each handler says this of
    /// itself; one that says nothing allows every state.
    open spec fn heard_change(&self, after: &Self) -> bool {
        true
    }

    /// Called once for each change of the clipboard's content.
    fn on_clipboard_change(&mut self)
        ensures
            old(self).heard_change(final(self)),
    ;
}

/// Whether `after` is what one change makes of the handlers `before`:
/// the same handlers at the same places, each having heard of the change
/// once.
pub open spec fn all_heard<T: ClipboardHandler>(before: Seq<T>, after: Seq<T>) -> bool {
    &&& after.len() == before.len()
    &&& forall|i: int|
        #![trigger before[i]]
        #![trigger after[i]]
        0 <= i < before.len() ==> before[i].heard_change(&after[i])
}

/// The one-shot capability to stop a watcher. Using it consumes it;
/// dropping it unused stops nothing.
pub struct WatcherShutdown {
    signal: Sender<()>,
}

/// A watcher of clipboard changes.
pub trait ClipboardWatcher<T: ClipboardHandler>: Send {
    /// Registers one more handler. Handlers hear of each change in the
    /// order in which they were registered.
    fn add_handler(&mut self, handler: T) -> &mut Self;

    /// Watches the clipboard and blocks until the watcher is stopped.
    fn start_watch(&mut self);

    /// The token that stops this watcher.
    fn get_shutdown_channel(&self) -> WatcherShutdown;
}

impl WatcherShutdown {
    /// The sending end of the stop channel that the token holds.
    pub closed spec fn spec_signal(&self) -> Sender<()> {
        self.signal
    }

    /// Makes the token from the sending end of the watcher's stop channel.
    pub fn new(signal: Sender<()>) -> (token: WatcherShutdown)
        ensures
            token.spec_signal() == signal,
    {
        WatcherShutdown { signal }
    }

    /// Stops the watcher: puts the stop signal on the channel, where the
    /// watch loop finds it at its next check. A watcher that has already
    /// stopped is left alone.
    pub fn stop(self) {
        send_stop(&self.signal);
    }
}

/// Puts the stop signal on the channel with `Sender::send`. Sending fails
/// only where the receiving watcher is gone, in which case nothing is left
/// to stop and the failure is dropped.
#[verifier::external_body]
fn send_stop(signal: &Sender<()>) {
    let _ = signal.send(());
}

/// Where a watcher is in its life.
#[derive(Clone, Copy, PartialEq, Eq, Structural, Debug)]
pub enum WatcherState {
    /// Constructed; `start_watch` has not been called.
    Idle,
    /// Inside `start_watch`, waiting for changes.
    Watching,
    /// `start_watch` has returned. Nothing leads out of this state.
    Stopped,
}

/// What the watch loop learns from the platform at one check.
#[derive(Clone, Copy, PartialEq, Eq, Structural, Debug)]
pub enum WatchEvent {
    /// `start_watch` was called.
    Started,
    /// The clipboard's content changed since the last check.
    Changed,
    /// The wait ended without a change.
    Unchanged,
    /// The shutdown token was used.
    StopRequested,
    /// The platform reported an error that cannot be recovered from.
    BindingFailed,
}

/// What the watch loop does next.
#[derive(Clone, Copy, PartialEq, Eq, Structural, Debug)]
pub enum WatchAction {
    /// Call every handler, in registration order, then wait again.
    Notify,
    /// Wait for the next change or the next check.
    Wait,
    /// Leave `start_watch`.
    Return,
    /// The event does not concern the watcher in this state.
    Ignore,
}

/// The watcher's lifecycle as a function: the state after an event, and
/// what the loop does on it.
pub open spec fn spec_step(state: WatcherState, event: WatchEvent) -> (WatcherState, WatchAction) {
    match (state, event) {
        (WatcherState::Idle, WatchEvent::Started) => (WatcherState::Watching, WatchAction::Wait),
        (WatcherState::Idle, _) => (WatcherState::Idle, WatchAction::Ignore),
        (WatcherState::Watching, WatchEvent::Changed) => (
            WatcherState::Watching,
            WatchAction::Notify,
        ),
        (WatcherState::Watching, WatchEvent::Unchanged) => (
            WatcherState::Watching,
            WatchAction::Wait,
        ),
        (WatcherState::Watching, WatchEvent::Started) => (
            WatcherState::Watching,
            WatchAction::Ignore,
        ),
        (WatcherState::Watching, WatchEvent::StopRequested) => (
            WatcherState::Stopped,
            WatchAction::Return,
        ),
        (WatcherState::Watching, WatchEvent::BindingFailed) => (
            WatcherState::Stopped,
            WatchAction::Return,
        ),
        (WatcherState::Stopped, _) => (WatcherState::Stopped, WatchAction::Ignore),
    }
}

/// The state that a run of events leads to, one step after another.
pub open spec fn spec_run(state: WatcherState, events: Seq<WatchEvent>) -> WatcherState
    decreases events.len(),
{
    if events.len() == 0 {
        state
    } else {
        spec_step(spec_run(state, events.drop_last()), events.last()).0
    }
}

impl WatcherState {
    /// The state of a watcher that was just made.
    pub fn new() -> (state: WatcherState)
        ensures
            state == WatcherState::Idle,
    {
        WatcherState::Idle
    }

    /// Takes one event: returns the next state and what the watch loop
    /// does now.
    pub fn step(self, event: WatchEvent) -> (next: (WatcherState, WatchAction))
        ensures
            next == spec_step(self, event),
    {
        match self {
            WatcherState::Idle => match event {
                WatchEvent::Started => (WatcherState::Watching, WatchAction::Wait),
                _ => (WatcherState::Idle, WatchAction::Ignore),
            },
            WatcherState::Watching => match event {
                WatchEvent::Changed => (WatcherState::Watching, WatchAction::Notify),
                WatchEvent::Unchanged => (WatcherState::Watching, WatchAction::Wait),
                WatchEvent::Started => (WatcherState::Watching, WatchAction::Ignore),
                WatchEvent::StopRequested => (WatcherState::Stopped, WatchAction::Return),
                WatchEvent::BindingFailed => (WatcherState::Stopped, WatchAction::Return),
            },
            WatcherState::Stopped => (WatcherState::Stopped, WatchAction::Ignore),
        }
    }
}

/// A second stop changes nothing: once a watcher has stopped, every event
/// leaves it stopped and is ignored.
pub proof fn lemma_stopped_is_final(event: WatchEvent)
    ensures
        spec_step(WatcherState::Stopped, event) == (WatcherState::Stopped, WatchAction::Ignore),
{
}

/// Handlers are called for a change of the clipboard while watching, and
/// for nothing else.
pub proof fn lemma_notify_only_on_change(state: WatcherState, event: WatchEvent)
    ensures
        spec_step(state, event).1 == WatchAction::Notify <==> (state == WatcherState::Watching
            && event == WatchEvent::Changed),
{
}

/// The loop is left exactly when a watching watcher stops, and a watcher
/// stops only through the shutdown token or a failure of the platform.
pub proof fn lemma_return_only_on_stop(state: WatcherState, event: WatchEvent)
    ensures
        spec_step(state, event).1 == WatchAction::Return <==> (state == WatcherState::Watching && (
        event == WatchEvent::StopRequested || event == WatchEvent::BindingFailed)),
        spec_step(state, event).0 == WatcherState::Stopped && state != WatcherState::Stopped
            ==> spec_step(state, event).1 == WatchAction::Return,
{
}

/// No run of events brings a stopped watcher back.
pub proof fn lemma_run_stays_stopped(events: Seq<WatchEvent>)
    ensures
        spec_run(WatcherState::Stopped, events) == WatcherState::Stopped,
    decreases events.len(),
{
    if events.len() > 0 {
        lemma_run_stays_stopped(events.drop_last());
    }
}

/// While nothing stops it, a watching watcher keeps watching: no run of
/// changes and quiet waits leads out of the watching state.
pub proof fn lemma_run_keeps_watching(events: Seq<WatchEvent>)
    requires
        forall|i: int|
            0 <= i < events.len() ==> (#[trigger] events[i]) != WatchEvent::StopRequested
                && events[i] != WatchEvent::BindingFailed,
    ensures
        spec_run(WatcherState::Watching, events) == WatcherState::Watching,
    decreases events.len(),
{
    if events.len() > 0 {
        let rest = events.drop_last();
        assert forall|i: int| 0 <= i < rest.len() implies (#[trigger] rest[i])
            != WatchEvent::StopRequested && rest[i] != WatchEvent::BindingFailed by {
            assert(rest[i] == events[i]);
        }
        lemma_run_keeps_watching(rest);
        assert(events.last() == events[events.len() - 1]);
    }
}

/// A stop request ends any watch: whatever came before, a watcher that
/// is watching when the request arrives is stopped after it.
pub proof fn lemma_stop_ends_the_watch(events: Seq<WatchEvent>)
    requires
        spec_run(WatcherState::Idle, events) == WatcherState::Watching,
    ensures
        spec_run(WatcherState::Idle, events.push(WatchEvent::StopRequested))
            == WatcherState::Stopped,
{
    let all = events.push(WatchEvent::StopRequested);
    assert(all.drop_last() =~= events);
    assert(all.last() == WatchEvent::StopRequested);
}

/// The handlers of a watcher, in the order in which they were registered.
pub struct HandlerList<T: ClipboardHandler> {
    handlers: Vec<T>,
}

impl<T: ClipboardHandler> View for HandlerList<T> {
    type V = Seq<T>;

    closed spec fn view(&self) -> Seq<T> {
        self.handlers@
    }
}

impl<T: ClipboardHandler> HandlerList<T> {
    /// A list with no handler in it.
    pub fn new() -> (list: HandlerList<T>)
        ensures
            list@ == Seq::<T>::empty(),
    {
        HandlerList { handlers: Vec::new() }
    }

    /// Registers one more handler, behind those already registered.
    pub fn add(&mut self, handler: T)
        ensures
            final(self)@ == old(self)@.push(handler),
    {
        self.handlers.push(handler);
    }

    /// How many handlers are registered.
    pub fn len(&self) -> (n: usize)
        ensures
            n == self@.len(),
    {
        self.handlers.len()
    }

    /// Tells every registered handler of a change, once each, first
    /// registered first. No handler is added or removed.
    pub fn notify(&mut self)
        ensures
            all_heard(old(self)@, final(self)@),
    {
        notify_all(&mut self.handlers);
    }
}

/// Calls every handler once, in the order of the list: afterwards each
/// handler has heard of one change, and none was added, removed or moved.
pub fn notify_all<T: ClipboardHandler>(handlers: &mut Vec<T>)
    ensures
        all_heard(old(handlers)@, final(handlers)@),
{
    let mut i: usize = 0;
    while i < handlers.len()
        invariant
            i <= handlers@.len(),
            handlers@.len() == old(handlers)@.len(),
            forall|k: int| 0 <= k < i ==> (#[trigger] old(handlers)@[k]).heard_change(&handlers@[k]),
            forall|k: int| i <= k < handlers@.len() ==> handlers@[k] == old(handlers)@[k],
        decreases handlers.len() - i,
    {
        handlers[i].on_clipboard_change();
        i = i + 1;
    }
}

} // verus!
