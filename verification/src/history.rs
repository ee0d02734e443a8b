//! What a bridge does over a run of events.
//!
//! The rule of [`BridgeView::next`] speaks of one event. Here it is carried
//! over whole runs: what the start publishes, what one change report leads
//! to, and in which order the answers to several are published.
use vstd::prelude::*;
use crate::accumulator::{gather, sinks_of};
use crate::bridge::{ActionView, BridgeView, EventView, Phase};
use crate::device::{AudioMessageView, SinkView};
use crate::native::{ContextState, IterateResult, ListResult, OperationState, RawSinkView};
use crate::snapshot::sink_of;

verus! {

/// What the server answers to one request for the default device followed
/// by one request for the device list, when neither goes wrong.
pub struct Reply {
    pub default_sink: Option<Seq<char>>,
    pub records: Seq<RawSinkView>,
}

impl Reply {
    /// The events in which the answer arrives: the server report, one item
    /// for each record, then the end marker.
    pub open spec fn events(self) -> Seq<EventView> {
        seq![EventView::Server(self.default_sink)] + self.records.map_values(
            |data: RawSinkView| EventView::Sinks(ListResult::Item(data)),
        ) + seq![EventView::Sinks(ListResult::End)]
    }

    /// The message that holds the answer: every record built under the
    /// reported default device, in the order of arrival.
    pub open spec fn snapshot(self) -> AudioMessageView {
        AudioMessageView::SinkChanges(sinks_of(self.records, self.default_sink))
    }
}

/// The events of several answers, one answer after the other.
pub open spec fn events_of(replies: Seq<Reply>) -> Seq<EventView>
    decreases replies.len(),
{
    if replies.len() == 0 {
        Seq::empty()
    } else {
        events_of(replies.drop_last()) + replies.last().events()
    }
}

/// The messages that a run of actions publishes, oldest first.
pub open spec fn published(actions: Seq<ActionView>) -> Seq<AudioMessageView>
    decreases actions.len(),
{
    if actions.len() == 0 {
        Seq::empty()
    } else {
        match actions.last() {
            ActionView::Publish(message) => published(actions.drop_last()).push(message),
            _ => published(actions.drop_last()),
        }
    }
}

/// How often a run of actions asks to fetch the default device and the
/// device list anew.
pub open spec fn refetches(actions: Seq<ActionView>) -> nat
    decreases actions.len(),
{
    if actions.len() == 0 {
        0
    } else if actions.last() is Refetch {
        refetches(actions.drop_last()) + 1
    } else {
        refetches(actions.drop_last())
    }
}

impl BridgeView {
    /// The state after a run of events, and the actions that the events
    /// called for, oldest first.
    pub open spec fn run(self, events: Seq<EventView>) -> (BridgeView, Seq<ActionView>)
        decreases events.len(),
    {
        if events.len() == 0 {
            (self, Seq::empty())
        } else {
            let (state, actions) = self.run(events.drop_last());
            let (next, action) = state.next(events.last());
            (next, actions.push(action))
        }
    }
}

/// A run of one event is one step.
proof fn lemma_run_of_one(state: BridgeView, event: EventView)
    ensures
        state.run(seq![event]) == (state.next(event).0, seq![state.next(event).1]),
{
    let single = seq![event];
    assert(state.run(single.drop_last()) == (state, Seq::<ActionView>::empty()));
}

/// A run can be cut anywhere: the second part starts from the state that
/// the first part left, and the actions of the first part stand whatever
/// comes after them.
pub proof fn lemma_run_in_two_parts(
    state: BridgeView,
    first: Seq<EventView>,
    second: Seq<EventView>,
)
    ensures
        state.run(first + second).0 == state.run(first).0.run(second).0,
        state.run(first + second).1 == state.run(first).1 + state.run(first).0.run(second).1,
    decreases second.len(),
{
    if second.len() > 0 {
        lemma_run_in_two_parts(state, first, second.drop_last());
        assert((first + second).drop_last() =~= first + second.drop_last());
    }
}

/// What two runs of actions publish, and how often they fetch anew, adds up.
pub proof fn lemma_actions_in_two_parts(first: Seq<ActionView>, second: Seq<ActionView>)
    ensures
        published(first + second) == published(first) + published(second),
        refetches(first + second) == refetches(first) + refetches(second),
    decreases second.len(),
{
    if second.len() > 0 {
        lemma_actions_in_two_parts(first, second.drop_last());
        assert((first + second).drop_last() =~= first + second.drop_last());
    }
}

/// What a single action publishes and asks for.
proof fn lemma_single_action(action: ActionView)
    ensures
        published(seq![action]) == (match action {
            ActionView::Publish(message) => seq![message],
            _ => Seq::empty(),
        }),
        refetches(seq![action]) == (if action is Refetch {
            1nat
        } else {
            0nat
        }),
{
    let single = seq![action];
    assert(published(single.drop_last()) == Seq::<AudioMessageView>::empty());
    assert(refetches(single.drop_last()) == 0);
}

/// Change reports that reach a listening bridge change nothing in its
/// state; each of them asks once to fetch anew, and none publishes.
pub proof fn lemma_changes_ask_to_refetch(state: BridgeView, changes: nat)
    requires
        state.phase == Phase::Listening,
    ensures
        state.run(Seq::new(changes, |i: int| EventView::Changed)).0 == state,
        refetches(state.run(Seq::new(changes, |i: int| EventView::Changed)).1) == changes,
        published(state.run(Seq::new(changes, |i: int| EventView::Changed)).1) == Seq::<
            AudioMessageView,
        >::empty(),
    decreases changes,
{
    let events = Seq::new(changes, |i: int| EventView::Changed);
    if changes > 0 {
        lemma_changes_ask_to_refetch(state, (changes - 1) as nat);
        assert(events.drop_last() =~= Seq::new((changes - 1) as nat, |i: int| EventView::Changed));
        let actions = state.run(events).1;
        assert(actions.drop_last() =~= state.run(events.drop_last()).1);
    }
}

/// Items that reach a bridge join its buffer, built under the default
/// device that it tracks, in the order of arrival; they publish nothing and
/// ask for nothing.
pub proof fn lemma_items_join_the_buffer(state: BridgeView, records: Seq<RawSinkView>)
    requires
        state.phase != Phase::Aborted,
    ensures
        ({
            let events = records.map_values(
                |data: RawSinkView| EventView::Sinks(ListResult::Item(data)),
            );
            &&& state.run(events).0 == BridgeView {
                sinks: state.sinks + sinks_of(records, state.default_sink),
                ..state
            }
            &&& published(state.run(events).1) == Seq::<AudioMessageView>::empty()
            &&& refetches(state.run(events).1) == 0
        }),
    decreases records.len(),
{
    let events = records.map_values(|data: RawSinkView| EventView::Sinks(ListResult::Item(data)));
    if records.len() > 0 {
        let earlier = records.drop_last();
        lemma_items_join_the_buffer(state, earlier);
        assert(events.drop_last() =~= earlier.map_values(
            |data: RawSinkView| EventView::Sinks(ListResult::Item(data)),
        ));
        assert((state.sinks + sinks_of(earlier, state.default_sink)).push(
            sink_of(records.last(), state.default_sink),
        ) =~= state.sinks + sinks_of(records, state.default_sink));
        let actions = state.run(events).1;
        assert(actions.drop_last() =~= state.run(events.drop_last()).1);
    }
}

/// A bridge handles the callbacks of enumerations as [`gather`] does: its
/// buffer after a run of them and the messages it publishes are the buffer
/// and the messages of that run gathered under the default device that
/// the bridge tracks.
pub proof fn lemma_callbacks_are_gathered(state: BridgeView, infos: Seq<ListResult<RawSinkView>>)
    requires
        state.phase != Phase::Aborted,
    ensures
        ({
            let events = infos.map_values(|info: ListResult<RawSinkView>| EventView::Sinks(info));
            let gathered = gather(state.sinks, infos, state.default_sink);
            &&& state.run(events).0 == BridgeView { sinks: gathered.buffer, ..state }
            &&& published(state.run(events).1) == gathered.released
        }),
    decreases infos.len(),
{
    let events = infos.map_values(|info: ListResult<RawSinkView>| EventView::Sinks(info));
    if infos.len() > 0 {
        lemma_callbacks_are_gathered(state, infos.drop_last());
        assert(events.drop_last() =~= infos.drop_last().map_values(
            |info: ListResult<RawSinkView>| EventView::Sinks(info),
        ));
        let actions = state.run(events).1;
        assert(actions.drop_last() =~= state.run(events.drop_last()).1);
    }
}

/// One answer that reaches a bridge with an empty buffer publishes exactly
/// one message, the snapshot of that answer, and asks for nothing. The
/// bridge then tracks the reported default device, and its buffer is empty
/// again.
pub proof fn lemma_reply_publishes_its_snapshot(state: BridgeView, reply: Reply)
    requires
        state.phase != Phase::Aborted,
        state.sinks == Seq::<SinkView>::empty(),
    ensures
        state.run(reply.events()).0 == (BridgeView { default_sink: reply.default_sink, ..state }),
        published(state.run(reply.events()).1) == seq![reply.snapshot()],
        refetches(state.run(reply.events()).1) == 0,
{
    let report = EventView::Server(reply.default_sink);
    let end = EventView::Sinks(ListResult::End);
    let items = reply.records.map_values(
        |data: RawSinkView| EventView::Sinks(ListResult::Item(data)),
    );
    let informed = BridgeView { default_sink: reply.default_sink, ..state };
    let filled = BridgeView { sinks: sinks_of(reply.records, reply.default_sink), ..informed };

    lemma_run_of_one(state, report);
    lemma_items_join_the_buffer(informed, reply.records);
    lemma_run_of_one(filled, end);

    lemma_run_in_two_parts(state, seq![report], items);
    lemma_run_in_two_parts(state, seq![report] + items, seq![end]);

    lemma_single_action(ActionView::Proceed);
    lemma_single_action(ActionView::Publish(reply.snapshot()));
    lemma_actions_in_two_parts(seq![ActionView::Proceed], informed.run(items).1);
    lemma_actions_in_two_parts(
        seq![ActionView::Proceed] + informed.run(items).1,
        seq![ActionView::Publish(reply.snapshot())],
    );
}

/// Answers that reach a bridge with an empty buffer one after the other are
/// published one snapshot each, in the order in which their end markers
/// arrive. The bridge then tracks the default device of the last answer.
pub proof fn lemma_replies_publish_in_order(state: BridgeView, replies: Seq<Reply>)
    requires
        state.phase != Phase::Aborted,
        state.sinks == Seq::<SinkView>::empty(),
    ensures
        published(state.run(events_of(replies)).1) == replies.map_values(
            |reply: Reply| reply.snapshot(),
        ),
        refetches(state.run(events_of(replies)).1) == 0,
        state.run(events_of(replies)).0 == (BridgeView {
            default_sink: if replies.len() == 0 {
                state.default_sink
            } else {
                replies.last().default_sink
            },
            ..state
        }),
    decreases replies.len(),
{
    if replies.len() > 0 {
        let earlier = replies.drop_last();
        lemma_replies_publish_in_order(state, earlier);
        let middle = state.run(events_of(earlier)).0;
        lemma_reply_publishes_its_snapshot(middle, replies.last());
        lemma_run_in_two_parts(state, events_of(earlier), replies.last().events());
        lemma_actions_in_two_parts(
            state.run(events_of(earlier)).1,
            middle.run(replies.last().events()).1,
        );
    }
}

/// A listening bridge goes on listening whatever reaches it.
pub proof fn lemma_listening_is_kept(state: BridgeView, events: Seq<EventView>)
    requires
        state.phase == Phase::Listening,
    ensures
        state.run(events).0.phase == Phase::Listening,
    decreases events.len(),
{
    if events.len() > 0 {
        lemma_listening_is_kept(state, events.drop_last());
    }
}

/// A change report alters no snapshot. Wherever it reaches a listening
/// bridge, between answers or in the middle of one, the state afterwards
/// and the messages published are those of the run without it; the one
/// thing it adds is one request to fetch anew.
pub proof fn lemma_change_alters_no_snapshot(
    state: BridgeView,
    before: Seq<EventView>,
    after: Seq<EventView>,
)
    requires
        state.phase == Phase::Listening,
    ensures
        state.run(before + seq![EventView::Changed] + after).0 == state.run(before + after).0,
        published(state.run(before + seq![EventView::Changed] + after).1) == published(
            state.run(before + after).1,
        ),
        refetches(state.run(before + seq![EventView::Changed] + after).1) == refetches(
            state.run(before + after).1,
        ) + 1,
{
    let (middle, earlier) = state.run(before);
    let later = middle.run(after).1;
    lemma_listening_is_kept(state, before);
    lemma_run_of_one(middle, EventView::Changed);
    lemma_run_in_two_parts(state, before, seq![EventView::Changed]);
    lemma_run_in_two_parts(state, before + seq![EventView::Changed], after);
    lemma_run_in_two_parts(state, before, after);
    lemma_single_action(ActionView::Refetch);
    lemma_actions_in_two_parts(earlier, seq![ActionView::Refetch]);
    lemma_actions_in_two_parts(earlier + seq![ActionView::Refetch], later);
    lemma_actions_in_two_parts(earlier, later);
}

/// The events of a start without failures: the connection becomes ready,
/// the server reports the default device, the request for it is done, the
/// device list arrives and ends, and the request for it is done.
pub open spec fn startup_events(reply: Reply) -> Seq<EventView> {
    seq![connected(), EventView::Server(reply.default_sink), answered()]
        + reply.records.map_values(|data: RawSinkView| EventView::Sinks(ListResult::Item(data)))
        + seq![EventView::Sinks(ListResult::End), answered()]
}

/// A successful iteration after which the connection is ready and no
/// request is pending.
pub open spec fn connected() -> EventView {
    EventView::Iterated {
        result: IterateResult::Success,
        context: ContextState::Ready,
        operation: None,
    }
}

/// A successful iteration after which the pending request is done.
pub open spec fn answered() -> EventView {
    EventView::Iterated {
        result: IterateResult::Success,
        context: ContextState::Ready,
        operation: Some(OperationState::Done),
    }
}

/// A start without failures takes a new bridge to listening and publishes
/// exactly one message, the snapshot of the first answer; nothing is
/// fetched anew. The bridge then tracks the reported default device, and
/// its buffer is empty.
pub proof fn lemma_startup_publishes_one_snapshot(reply: Reply)
    ensures
        BridgeView::initial().run(startup_events(reply)).0 == (BridgeView {
            phase: Phase::Listening,
            default_sink: reply.default_sink,
            sinks: Seq::empty(),
        }),
        published(BridgeView::initial().run(startup_events(reply)).1) == seq![reply.snapshot()],
        refetches(BridgeView::initial().run(startup_events(reply)).1) == 0,
{
    let report = EventView::Server(reply.default_sink);
    let end = EventView::Sinks(ListResult::End);
    let items = reply.records.map_values(
        |data: RawSinkView| EventView::Sinks(ListResult::Item(data)),
    );
    let start = BridgeView::initial();
    let ready = BridgeView { phase: Phase::AwaitingDefault, ..start };
    let informed = BridgeView { default_sink: reply.default_sink, ..ready };
    let asked = BridgeView { phase: Phase::AwaitingSinks, ..informed };
    let filled = BridgeView { sinks: sinks_of(reply.records, reply.default_sink), ..asked };

    lemma_run_of_one(start, connected());
    lemma_run_of_one(ready, report);
    lemma_run_of_one(informed, answered());
    lemma_items_join_the_buffer(asked, reply.records);
    lemma_run_of_one(filled, end);
    lemma_run_of_one(asked, answered());

    let first = seq![connected()];
    let second = first + seq![report];
    let third = second + seq![answered()];
    let fourth = third + items;
    let fifth = fourth + seq![end];
    let sixth = fifth + seq![answered()];
    assert(sixth =~= startup_events(reply));

    lemma_run_in_two_parts(start, first, seq![report]);
    lemma_run_in_two_parts(start, second, seq![answered()]);
    lemma_run_in_two_parts(start, third, items);
    lemma_run_in_two_parts(start, fourth, seq![end]);
    lemma_run_in_two_parts(start, fifth, seq![answered()]);

    lemma_single_action(ActionView::Start);
    lemma_single_action(ActionView::Proceed);
    lemma_single_action(ActionView::RequestSinks);
    lemma_single_action(ActionView::Publish(reply.snapshot()));
    lemma_single_action(ActionView::Watch);

    lemma_actions_in_two_parts(start.run(first).1, seq![ActionView::Proceed]);
    lemma_actions_in_two_parts(start.run(second).1, seq![ActionView::RequestSinks]);
    lemma_actions_in_two_parts(start.run(third).1, asked.run(items).1);
    lemma_actions_in_two_parts(start.run(fourth).1, seq![ActionView::Publish(reply.snapshot())]);
    lemma_actions_in_two_parts(start.run(fifth).1, seq![ActionView::Watch]);
}

/// Change reports that reach a listening bridge back to back, before any
/// of the answers, each ask once to fetch anew. The answers, arriving one
/// after the other, are then published one snapshot each and in their own
/// order, each snapshot holding the records of its answer and no others.
pub proof fn lemma_changes_then_replies(state: BridgeView, changes: nat, replies: Seq<Reply>)
    requires
        state.phase == Phase::Listening,
        state.sinks == Seq::<SinkView>::empty(),
    ensures
        refetches(
            state.run(Seq::new(changes, |i: int| EventView::Changed) + events_of(replies)).1,
        ) == changes,
        published(
            state.run(Seq::new(changes, |i: int| EventView::Changed) + events_of(replies)).1,
        ) == replies.map_values(|reply: Reply| reply.snapshot()),
        state.run(Seq::new(changes, |i: int| EventView::Changed) + events_of(replies)).0 == (
        BridgeView {
            default_sink: if replies.len() == 0 {
                state.default_sink
            } else {
                replies.last().default_sink
            },
            ..state
        }),
{
    let reports = Seq::new(changes, |i: int| EventView::Changed);
    lemma_changes_ask_to_refetch(state, changes);
    lemma_replies_publish_in_order(state, replies);
    lemma_run_in_two_parts(state, reports, events_of(replies));
    lemma_actions_in_two_parts(state.run(reports).1, state.run(events_of(replies)).1);
}

/// One change report that reaches a listening bridge with an empty buffer,
/// followed by the answer to what it asks for, makes the bridge ask exactly
/// once to fetch anew and publish exactly one message: the snapshot of
/// that answer.
pub proof fn lemma_change_yields_one_snapshot(state: BridgeView, reply: Reply)
    requires
        state.phase == Phase::Listening,
        state.sinks == Seq::<SinkView>::empty(),
    ensures
        refetches(state.run(seq![EventView::Changed] + reply.events()).1) == 1,
        published(state.run(seq![EventView::Changed] + reply.events()).1) == seq![
            reply.snapshot(),
        ],
        state.run(seq![EventView::Changed] + reply.events()).0 == (BridgeView {
            default_sink: reply.default_sink,
            ..state
        }),
{
    lemma_changes_then_replies(state, 1, seq![reply]);
    assert(Seq::new(1, |i: int| EventView::Changed) =~= seq![EventView::Changed]);
    let one = seq![reply];
    assert(events_of(one.drop_last()) == Seq::<EventView>::empty());
}

} // verus!
