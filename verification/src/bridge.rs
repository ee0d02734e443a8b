//! The decisions of the thread that owns the event loop.
//!
//! That thread connects, asks once for the default device and once for the
//! device list, and from then on asks for both again whenever the server
//! reports a change. Everything it does follows from what the loop and the
//! callbacks report. [`Bridge::step`] is that rule: from the state and one
//! event to the next state and what to do. The caller runs the loop,
//! performs each [`Action`] and feeds back each [`Event`].
use vstd::prelude::*;
use tokio::sync::mpsc::UnboundedSender;
use crate::accumulator::{accumulate, acceptable, buffer_after, set_default_sink};
use crate::channel::send_message;
use crate::device::{AudioMessage, AudioMessageView, Sink, SinkView};
use crate::native::{
    ContextState, IterateResult, ListResult, OperationState, RawSink, RawSinkView, ServerInfo,
};

verus! {

/// Where a wait stands after one iteration of the loop.
#[derive(Debug, Clone, Copy, PartialEq, Eq, Structural)]
pub enum Progress {
    /// What is waited for has not happened yet: iterate again.
    Pending,
    /// What is waited for has happened.
    Complete,
    /// The loop quit or failed; while waiting that is final.
    Fatal,
}

/// What the bridge thread is waiting for.
#[derive(Debug, Clone, Copy, PartialEq, Eq, Structural)]
pub enum Phase {
    /// The connection to become ready.
    Connecting,
    /// The first report of the default device.
    AwaitingDefault,
    /// The end of the first device list.
    AwaitingSinks,
    /// Nothing: changes are answered as they come.
    Listening,
    /// The loop quit or failed before the bridge was listening.
    Aborted,
}

/// What went wrong where the bridge carries on regardless.
#[derive(Debug, Clone, Copy, PartialEq, Eq, Structural)]
pub enum Failure {
    /// The server refused the subscription to sink events.
    Subscription,
    /// An enumeration ended in an error instead of its end marker.
    Enumeration,
    /// An iteration of the loop quit or failed while listening.
    Iteration,
}

/// Something that the loop or one of the callbacks reports.
#[derive(Debug, Clone, PartialEq, Eq)]
pub enum Event {
    /// One blocking iteration returned. `context` is the state of the
    /// connection after it, `operation` that of the request that the
    /// bridge waits for, if one is pending.
    Iterated { result: IterateResult, context: ContextState, operation: Option<OperationState> },
    /// The server answered the subscription to sink events.
    Subscribed { success: bool },
    /// The server reported on itself.
    Server(ServerInfo),
    /// One callback of a device enumeration.
    Sinks(ListResult<RawSink>),
    /// The server reported that something about the sinks changed.
    Changed,
}

/// What the owner of the loop is to do after an event, besides iterating on.
#[derive(Debug, Clone, PartialEq, Eq)]
pub enum Action {
    /// Nothing.
    Proceed,
    /// Subscribe to sink events and request the default device.
    Start,
    /// Request the device list.
    RequestSinks,
    /// Have the server's change reports delivered from now on.
    Watch,
    /// Request the default device, then the device list.
    Refetch,
    /// Send this message to the user interface.
    Publish(AudioMessage),
    /// Log the failure and carry on.
    Report(Failure),
    /// Give up: the thread ends abnormally.
    Abort,
}

/// The state that the bridge thread owns.
#[derive(Debug, Clone, PartialEq, Eq)]
pub struct Bridge {
    pub phase: Phase,
    /// Name of the default device as last reported.
    pub default_sink: Option<String>,
    /// The sinks of the enumeration under way.
    pub sinks: Vec<Sink>,
}

/// Mathematical model of an [`Event`].
pub enum EventView {
    Iterated { result: IterateResult, context: ContextState, operation: Option<OperationState> },
    Subscribed { success: bool },
    Server(Option<Seq<char>>),
    Sinks(ListResult<RawSinkView>),
    Changed,
}

/// Mathematical model of an [`Action`].
pub enum ActionView {
    Proceed,
    Start,
    RequestSinks,
    Watch,
    Refetch,
    Publish(AudioMessageView),
    Report(Failure),
    Abort,
}

/// Mathematical model of a [`Bridge`].
pub struct BridgeView {
    pub phase: Phase,
    pub default_sink: Option<Seq<char>>,
    pub sinks: Seq<SinkView>,
}

impl View for Event {
    type V = EventView;

    open spec fn view(&self) -> EventView {
        match self {
            Event::Iterated { result, context, operation } => EventView::Iterated {
                result: *result,
                context: *context,
                operation: *operation,
            },
            Event::Subscribed { success } => EventView::Subscribed { success: *success },
            Event::Server(info) => EventView::Server(info@),
            Event::Sinks(info) => EventView::Sinks(info.deep_view()),
            Event::Changed => EventView::Changed,
        }
    }
}

impl View for Action {
    type V = ActionView;

    open spec fn view(&self) -> ActionView {
        match self {
            Action::Proceed => ActionView::Proceed,
            Action::Start => ActionView::Start,
            Action::RequestSinks => ActionView::RequestSinks,
            Action::Watch => ActionView::Watch,
            Action::Refetch => ActionView::Refetch,
            Action::Publish(message) => ActionView::Publish(message@),
            Action::Report(failure) => ActionView::Report(*failure),
            Action::Abort => ActionView::Abort,
        }
    }
}

impl View for Bridge {
    type V = BridgeView;

    open spec fn view(&self) -> BridgeView {
        BridgeView {
            phase: self.phase,
            default_sink: self.default_sink.deep_view(),
            sinks: self.sinks.deep_view(),
        }
    }
}

impl Phase {
    /// What the phase waits for has happened: while connecting, the
    /// connection is ready; while awaiting an answer, the pending request
    /// is done. A request that was cancelled is waited for on and on.
    pub open spec fn settled_by(
        self,
        context: ContextState,
        operation: Option<OperationState>,
    ) -> bool {
        match self {
            Phase::Connecting => context == ContextState::Ready,
            Phase::AwaitingDefault => operation == Some(OperationState::Done),
            Phase::AwaitingSinks => operation == Some(OperationState::Done),
            Phase::Listening => false,
            Phase::Aborted => false,
        }
    }

    /// Tells whether what the phase waits for has happened.
    pub fn is_settled_by(
        self,
        context: ContextState,
        operation: Option<OperationState>,
    ) -> (settled: bool)
        ensures
            settled == self.settled_by(context, operation),
    {
        match self {
            Phase::Connecting => context == ContextState::Ready,
            Phase::AwaitingDefault | Phase::AwaitingSinks => match operation {
                Some(state) => state == OperationState::Done,
                None => false,
            },
            Phase::Listening | Phase::Aborted => false,
        }
    }
}

impl Progress {
    /// Progress after an iteration that ended with `result`, `settled`
    /// telling whether what is waited for has happened. Only a successful
    /// iteration is asked whether it settled anything.
    pub open spec fn after(result: IterateResult, settled: bool) -> Progress {
        match result {
            IterateResult::Success => if settled {
                Progress::Complete
            } else {
                Progress::Pending
            },
            IterateResult::Quit => Progress::Fatal,
            IterateResult::Failed => Progress::Fatal,
        }
    }
}

/// Judges one iteration of a wait for the connection or for a response.
pub fn wait_for_response(result: IterateResult, settled: bool) -> (progress: Progress)
    ensures
        progress == Progress::after(result, settled),
{
    match result {
        IterateResult::Success => if settled {
            Progress::Complete
        } else {
            Progress::Pending
        },
        IterateResult::Quit => Progress::Fatal,
        IterateResult::Failed => Progress::Fatal,
    }
}

impl EventView {
    /// The event can be handled: see [`acceptable`].
    pub open spec fn acceptable(self) -> bool {
        self matches EventView::Sinks(info) ==> acceptable(info)
    }
}

impl Event {
    /// Tells whether the event can be handled: an item of an enumeration
    /// must describe each of its ports.
    pub fn acceptable(&self) -> (accepted: bool)
        ensures
            accepted == self@.acceptable(),
    {
        match self {
            Event::Sinks(ListResult::Item(data)) => data.ports_described(),
            _ => true,
        }
    }
}

impl BridgeView {
    /// The state of a bridge that has not begun to connect.
    pub open spec fn initial() -> BridgeView {
        BridgeView { phase: Phase::Connecting, default_sink: None, sinks: Seq::empty() }
    }

    /// The phase and the action after an iteration of the loop. While the
    /// bridge waits, a settled wait moves it on and a quit or failed
    /// iteration ends it; while it listens, such an iteration is reported
    /// and nothing else changes.
    pub open spec fn after_iteration(
        phase: Phase,
        result: IterateResult,
        context: ContextState,
        operation: Option<OperationState>,
    ) -> (Phase, ActionView) {
        match phase {
            Phase::Listening => (
                Phase::Listening,
                if result == IterateResult::Success {
                    ActionView::Proceed
                } else {
                    ActionView::Report(Failure::Iteration)
                },
            ),
            Phase::Aborted => (Phase::Aborted, ActionView::Abort),
            _ => match Progress::after(result, phase.settled_by(context, operation)) {
                Progress::Pending => (phase, ActionView::Proceed),
                Progress::Fatal => (Phase::Aborted, ActionView::Abort),
                Progress::Complete => match phase {
                    Phase::Connecting => (Phase::AwaitingDefault, ActionView::Start),
                    Phase::AwaitingDefault => (Phase::AwaitingSinks, ActionView::RequestSinks),
                    _ => (Phase::Listening, ActionView::Watch),
                },
            },
        }
    }

    /// The state and the action after one event.
    ///
    /// An aborted bridge stays as it is. Otherwise a server report sets the
    /// default device; a callback of an enumeration changes the buffer as
    /// [`buffer_after`] says, its end marker publishing what the buffer
    /// held; a change report makes a listening bridge fetch both anew.
    pub open spec fn next(self, event: EventView) -> (BridgeView, ActionView) {
        if self.phase == Phase::Aborted {
            (self, ActionView::Abort)
        } else {
            match event {
                EventView::Iterated { result, context, operation } => {
                    let (phase, action) = Self::after_iteration(
                        self.phase,
                        result,
                        context,
                        operation,
                    );
                    (BridgeView { phase, ..self }, action)
                },
                EventView::Subscribed { success } => (
                    self,
                    if success {
                        ActionView::Proceed
                    } else {
                        ActionView::Report(Failure::Subscription)
                    },
                ),
                EventView::Server(default_sink) => (
                    BridgeView { default_sink, ..self },
                    ActionView::Proceed,
                ),
                EventView::Sinks(info) => (
                    BridgeView { sinks: buffer_after(self.sinks, info, self.default_sink), ..self },
                    match info {
                        ListResult::Item(_) => ActionView::Proceed,
                        ListResult::End => ActionView::Publish(
                            AudioMessageView::SinkChanges(self.sinks),
                        ),
                        ListResult::Error => ActionView::Report(Failure::Enumeration),
                    },
                ),
                EventView::Changed => (
                    self,
                    if self.phase == Phase::Listening {
                        ActionView::Refetch
                    } else {
                        ActionView::Proceed
                    },
                ),
            }
        }
    }
}

/// A message is published on the end marker of an enumeration and on no
/// other event, so no listing goes out before it is complete.
pub proof fn lemma_publish_only_on_end_marker(state: BridgeView, event: EventView)
    ensures
        state.next(event).1 is Publish <==> state.phase != Phase::Aborted && event
            == EventView::Sinks(ListResult::End),
        state.next(event).1 is Publish ==> state.next(event).1 == ActionView::Publish(
            AudioMessageView::SinkChanges(state.sinks),
        ) && state.next(event).0.sinks == Seq::<SinkView>::empty(),
{
}

/// An iteration that succeeds without settling what the bridge waits for
/// changes nothing and asks for nothing.
pub proof fn lemma_unsettled_iteration_changes_nothing(
    state: BridgeView,
    context: ContextState,
    operation: Option<OperationState>,
)
    requires
        state.phase != Phase::Aborted,
        !state.phase.settled_by(context, operation),
    ensures
        state.next(EventView::Iterated { result: IterateResult::Success, context, operation }) == (
            state,
            ActionView::Proceed,
        ),
{
}

impl Bridge {
    /// A bridge that has not begun to connect: no default device known, no
    /// sink buffered.
    pub fn new() -> (bridge: Bridge)
        ensures
            bridge@ == BridgeView::initial(),
    {
        let bridge = Bridge { phase: Phase::Connecting, default_sink: None, sinks: Vec::new() };
        assert(bridge.sinks.deep_view() =~= Seq::<SinkView>::empty());
        bridge
    }

    /// Takes one event and returns what to do about it.
    pub fn step(&mut self, event: Event) -> (action: Action)
        requires
            event@.acceptable(),
        ensures
            (final(self)@, action@) == old(self)@.next(event@),
    {
        if self.phase == Phase::Aborted {
            return Action::Abort;
        }
        match event {
            Event::Iterated { result, context, operation } => self.iterated(
                result,
                context,
                operation,
            ),
            Event::Subscribed { success } => if success {
                Action::Proceed
            } else {
                Action::Report(Failure::Subscription)
            },
            Event::Server(info) => {
                set_default_sink(&info, &mut self.default_sink);
                Action::Proceed
            },
            Event::Sinks(info) => {
                match accumulate(info.as_ref(), &mut self.sinks, &self.default_sink) {
                    Some(message) => Action::Publish(message),
                    None => match info {
                        ListResult::Error => Action::Report(Failure::Enumeration),
                        _ => Action::Proceed,
                    },
                }
            },
            Event::Changed => if self.phase == Phase::Listening {
                Action::Refetch
            } else {
                Action::Proceed
            },
        }
    }

    /// Takes the report of one iteration of the loop.
    fn iterated(
        &mut self,
        result: IterateResult,
        context: ContextState,
        operation: Option<OperationState>,
    ) -> (action: Action)
        requires
            old(self).phase != Phase::Aborted,
        ensures
            final(self).default_sink == old(self).default_sink,
            final(self).sinks == old(self).sinks,
            (final(self).phase, action@) == BridgeView::after_iteration(
                old(self).phase,
                result,
                context,
                operation,
            ),
    {
        if self.phase == Phase::Listening {
            return if result == IterateResult::Success {
                Action::Proceed
            } else {
                Action::Report(Failure::Iteration)
            };
        }
        match wait_for_response(result, self.phase.is_settled_by(context, operation)) {
            Progress::Pending => Action::Proceed,
            Progress::Fatal => {
                self.phase = Phase::Aborted;
                Action::Abort
            },
            Progress::Complete => match self.phase {
                Phase::Connecting => {
                    self.phase = Phase::AwaitingDefault;
                    Action::Start
                },
                Phase::AwaitingDefault => {
                    self.phase = Phase::AwaitingSinks;
                    Action::RequestSinks
                },
                _ => {
                    self.phase = Phase::Listening;
                    Action::Watch
                },
            },
        }
    }

    /// Takes one event as [`Bridge::step`] does and sends on `tx` the message
    /// that the event publishes, if it publishes one. What is left for the
    /// caller to do is returned: the action of the step, or
    /// [`Action::Proceed`] where that was to publish.
    pub fn handle(&mut self, event: Event, tx: &UnboundedSender<AudioMessage>) -> (rest: Action)
        requires
            event@.acceptable(),
        ensures
            final(self)@ == old(self)@.next(event@).0,
            rest@ == (match old(self)@.next(event@).1 {
                ActionView::Publish(_) => ActionView::Proceed,
                action => action,
            }),
    {
        match self.step(event) {
            Action::Publish(message) => {
                let _ = send_message(tx, message);
                Action::Proceed
            },
            action => action,
        }
    }
}

} // verus!
