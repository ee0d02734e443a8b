use ashell::bridge::{wait_for_response, Action, Bridge, Event, Failure, Phase, Progress};
use ashell::device::{AudioMessage, DeviceType, Port, Sink};
use ashell::native::{
    ContextState, IterateResult, ListResult, OperationState, RawPort, RawPortType, RawSink,
    ServerInfo,
};
use tokio::sync::mpsc::error::TryRecvError;
use tokio::sync::mpsc::unbounded_channel;

fn name(s: &str) -> Option<String> {
    Some(s.to_string())
}

fn iterated(result: IterateResult, settled: bool) -> Event {
    if settled {
        Event::Iterated {
            result,
            context: ContextState::Ready,
            operation: Some(OperationState::Done),
        }
    } else {
        Event::Iterated {
            result,
            context: ContextState::Connecting,
            operation: Some(OperationState::Running),
        }
    }
}

fn all_context_states() -> Vec<ContextState> {
    vec![
        ContextState::Unconnected,
        ContextState::Connecting,
        ContextState::Authorizing,
        ContextState::SettingName,
        ContextState::Ready,
        ContextState::Failed,
        ContextState::Terminated,
    ]
}

fn all_operation_states() -> Vec<Option<OperationState>> {
    vec![
        None,
        Some(OperationState::Running),
        Some(OperationState::Done),
        Some(OperationState::Cancelled),
    ]
}

fn server(default_sink: Option<&str>) -> Event {
    Event::Server(ServerInfo { default_sink_name: default_sink.map(|n| n.to_string()) })
}

fn device(sink_name: &str, volume_avg: u32) -> RawSink {
    let port = RawPort {
        name: name("speaker"),
        description: name("Speaker"),
        port_type: RawPortType::Speaker,
    };
    RawSink {
        name: name(sink_name),
        description: name("a device"),
        volume_avg,
        mute: false,
        ports: vec![port.clone()],
        active_port: Some(port),
    }
}

fn shown(sink_name: &str, volume: u32, active: bool) -> Sink {
    Sink {
        name: sink_name.to_string(),
        description: "a device".to_string(),
        volume,
        is_mute: false,
        ports: vec![Port {
            name: "speaker".to_string(),
            description: "Speaker".to_string(),
            device_type: DeviceType::Speakers,
            active,
        }],
    }
}

fn item(sink_name: &str, volume_avg: u32) -> Event {
    Event::Sinks(ListResult::Item(device(sink_name, volume_avg)))
}

fn end() -> Event {
    Event::Sinks(ListResult::End)
}

fn listening() -> Bridge {
    Bridge { phase: Phase::Listening, default_sink: None, sinks: vec![] }
}

fn run(bridge: &mut Bridge, events: Vec<Event>) -> Vec<Action> {
    events.into_iter().map(|event| bridge.step(event)).collect()
}

fn published(actions: &[Action]) -> Vec<AudioMessage> {
    let mut messages = Vec::new();
    for action in actions {
        if let Action::Publish(message) = action {
            messages.push(message.clone());
        }
    }
    messages
}

fn refetches(actions: &[Action]) -> usize {
    actions.iter().filter(|action| **action == Action::Refetch).count()
}

#[test]
fn a_wait_goes_on_until_it_is_settled() {
    assert_eq!(wait_for_response(IterateResult::Success, false), Progress::Pending);
    assert_eq!(wait_for_response(IterateResult::Success, true), Progress::Complete);
}

#[test]
fn a_wait_ends_when_the_loop_quits_or_fails() {
    assert_eq!(wait_for_response(IterateResult::Quit, false), Progress::Fatal);
    assert_eq!(wait_for_response(IterateResult::Quit, true), Progress::Fatal);
    assert_eq!(wait_for_response(IterateResult::Failed, false), Progress::Fatal);
    assert_eq!(wait_for_response(IterateResult::Failed, true), Progress::Fatal);
}

#[test]
fn a_new_bridge_is_connecting_and_knows_nothing() {
    assert_eq!(
        Bridge::new(),
        Bridge { phase: Phase::Connecting, default_sink: None, sinks: vec![] }
    );
}

#[test]
fn the_bridge_starts_up_step_by_step() {
    let mut bridge = Bridge::new();
    assert_eq!(bridge.step(iterated(IterateResult::Success, false)), Action::Proceed);
    assert_eq!(bridge.phase, Phase::Connecting);
    assert_eq!(bridge.step(iterated(IterateResult::Success, true)), Action::Start);
    assert_eq!(bridge.phase, Phase::AwaitingDefault);

    assert_eq!(bridge.step(Event::Subscribed { success: true }), Action::Proceed);
    assert_eq!(bridge.step(iterated(IterateResult::Success, false)), Action::Proceed);
    assert_eq!(bridge.step(server(Some("out0"))), Action::Proceed);
    assert_eq!(bridge.default_sink, name("out0"));
    assert_eq!(bridge.phase, Phase::AwaitingDefault);
    assert_eq!(bridge.step(iterated(IterateResult::Success, true)), Action::RequestSinks);
    assert_eq!(bridge.phase, Phase::AwaitingSinks);

    assert_eq!(bridge.step(item("out0", 100)), Action::Proceed);
    assert_eq!(bridge.step(item("out1", 200)), Action::Proceed);
    assert_eq!(
        bridge.step(end()),
        Action::Publish(AudioMessage::SinkChanges(vec![
            shown("out0", 100, true),
            shown("out1", 200, false),
        ]))
    );
    assert!(bridge.sinks.is_empty());
    assert_eq!(bridge.phase, Phase::AwaitingSinks);
    assert_eq!(bridge.step(iterated(IterateResult::Success, true)), Action::Watch);
    assert_eq!(bridge.phase, Phase::Listening);

    assert_eq!(bridge.step(iterated(IterateResult::Success, true)), Action::Proceed);
    assert_eq!(bridge.step(iterated(IterateResult::Success, false)), Action::Proceed);
    assert_eq!(bridge.phase, Phase::Listening);
}

#[test]
fn a_failed_iteration_is_fatal_while_waiting() {
    for phase in [Phase::Connecting, Phase::AwaitingDefault, Phase::AwaitingSinks] {
        for result in [IterateResult::Quit, IterateResult::Failed] {
            for settled in [false, true] {
                let mut bridge = Bridge { phase, default_sink: name("out0"), sinks: vec![] };
                assert_eq!(bridge.step(iterated(result, settled)), Action::Abort);
                assert_eq!(bridge.phase, Phase::Aborted);
                assert_eq!(bridge.default_sink, name("out0"));
            }
        }
    }
}

#[test]
fn a_failed_iteration_is_reported_while_listening() {
    let mut bridge = listening();
    assert_eq!(
        bridge.step(iterated(IterateResult::Failed, false)),
        Action::Report(Failure::Iteration)
    );
    assert_eq!(bridge.phase, Phase::Listening);
    assert_eq!(
        bridge.step(iterated(IterateResult::Quit, true)),
        Action::Report(Failure::Iteration)
    );
    assert_eq!(bridge.phase, Phase::Listening);
    assert_eq!(bridge.step(iterated(IterateResult::Success, false)), Action::Proceed);
}

#[test]
fn an_aborted_bridge_stays_aborted() {
    let mut bridge = Bridge {
        phase: Phase::Aborted,
        default_sink: name("out0"),
        sinks: vec![shown("out0", 1, true)],
    };
    let before = bridge.clone();
    let events = vec![
        iterated(IterateResult::Success, true),
        Event::Subscribed { success: false },
        server(Some("out1")),
        item("out1", 5),
        end(),
        Event::Sinks(ListResult::Error),
        Event::Changed,
    ];
    for event in events {
        assert_eq!(bridge.step(event), Action::Abort);
        assert_eq!(bridge, before);
    }
}

#[test]
fn a_refused_subscription_is_reported() {
    let mut bridge = Bridge::new();
    assert_eq!(
        bridge.step(Event::Subscribed { success: false }),
        Action::Report(Failure::Subscription)
    );
    assert_eq!(bridge, Bridge::new());
    assert_eq!(bridge.step(Event::Subscribed { success: true }), Action::Proceed);
    assert_eq!(bridge, Bridge::new());
}

#[test]
fn a_failed_enumeration_is_reported_and_keeps_the_buffer() {
    let mut bridge = listening();
    assert_eq!(bridge.step(Event::Sinks(ListResult::Error)), Action::Report(Failure::Enumeration));
    assert!(bridge.sinks.is_empty());

    assert_eq!(bridge.step(item("out0", 1)), Action::Proceed);
    assert_eq!(bridge.step(Event::Sinks(ListResult::Error)), Action::Report(Failure::Enumeration));
    assert_eq!(bridge.sinks, vec![shown("out0", 1, false)]);
}

#[test]
fn a_change_is_heeded_only_while_listening() {
    for phase in [Phase::Connecting, Phase::AwaitingDefault, Phase::AwaitingSinks] {
        let mut bridge = Bridge { phase, default_sink: None, sinks: vec![] };
        assert_eq!(bridge.step(Event::Changed), Action::Proceed);
        assert_eq!(bridge.phase, phase);
    }
    let mut bridge = listening();
    assert_eq!(bridge.step(Event::Changed), Action::Refetch);
    assert_eq!(bridge, listening());
}

#[test]
fn one_change_yields_one_refetch_and_one_snapshot() {
    let mut bridge = Bridge::new();
    let startup = run(
        &mut bridge,
        vec![
            iterated(IterateResult::Success, true),
            server(Some("out0")),
            iterated(IterateResult::Success, true),
            item("out0", 100),
            end(),
            iterated(IterateResult::Success, true),
        ],
    );
    assert_eq!(refetches(&startup), 0);
    assert_eq!(
        published(&startup),
        vec![AudioMessage::SinkChanges(vec![shown("out0", 100, true)])]
    );
    assert_eq!(bridge.phase, Phase::Listening);

    let actions = run(
        &mut bridge,
        vec![
            iterated(IterateResult::Success, false),
            Event::Changed,
            server(Some("out1")),
            iterated(IterateResult::Success, false),
            item("out0", 100),
            item("out1", 300),
            end(),
            iterated(IterateResult::Success, false),
        ],
    );
    assert_eq!(refetches(&actions), 1);
    assert_eq!(
        published(&actions),
        vec![AudioMessage::SinkChanges(vec![
            shown("out0", 100, false),
            shown("out1", 300, true),
        ])]
    );
    assert_eq!(
        actions,
        vec![
            Action::Proceed,
            Action::Refetch,
            Action::Proceed,
            Action::Proceed,
            Action::Proceed,
            Action::Proceed,
            Action::Publish(AudioMessage::SinkChanges(vec![
                shown("out0", 100, false),
                shown("out1", 300, true),
            ])),
            Action::Proceed,
        ]
    );
    assert!(bridge.sinks.is_empty());
    assert_eq!(bridge.default_sink, name("out1"));
}

#[test]
fn changes_back_to_back_are_answered_in_order() {
    let mut bridge = listening();
    let actions = run(
        &mut bridge,
        vec![
            Event::Changed,
            Event::Changed,
            Event::Changed,
            server(Some("out0")),
            item("out0", 1),
            item("out1", 2),
            end(),
            server(Some("out1")),
            item("out0", 3),
            end(),
            server(None),
            end(),
        ],
    );
    assert_eq!(refetches(&actions), 3);
    assert_eq!(
        published(&actions),
        vec![
            AudioMessage::SinkChanges(vec![shown("out0", 1, true), shown("out1", 2, false)]),
            AudioMessage::SinkChanges(vec![shown("out0", 3, false)]),
            AudioMessage::SinkChanges(vec![]),
        ]
    );
    assert_eq!(bridge, listening());
}

#[test]
fn a_handled_snapshot_is_on_the_channel() {
    let (tx, mut rx) = unbounded_channel();
    let mut bridge = listening();
    assert_eq!(bridge.handle(Event::Changed, &tx), Action::Refetch);
    assert_eq!(bridge.handle(server(Some("out0")), &tx), Action::Proceed);
    assert_eq!(bridge.handle(item("out0", 9), &tx), Action::Proceed);
    assert_eq!(rx.try_recv(), Err(TryRecvError::Empty));
    assert_eq!(bridge.handle(end(), &tx), Action::Proceed);
    assert_eq!(rx.try_recv(), Ok(AudioMessage::SinkChanges(vec![shown("out0", 9, true)])));
    assert_eq!(rx.try_recv(), Err(TryRecvError::Empty));
    assert!(bridge.sinks.is_empty());
    assert_eq!(bridge.default_sink, name("out0"));
}

#[test]
fn handling_leaves_the_other_actions_to_the_caller() {
    let (tx, mut rx) = unbounded_channel();
    let mut bridge = Bridge::new();
    assert_eq!(bridge.handle(iterated(IterateResult::Success, true), &tx), Action::Start);
    assert_eq!(
        bridge.handle(Event::Subscribed { success: false }, &tx),
        Action::Report(Failure::Subscription)
    );
    assert_eq!(bridge.handle(iterated(IterateResult::Success, true), &tx), Action::RequestSinks);
    assert_eq!(
        bridge.handle(Event::Sinks(ListResult::Error), &tx),
        Action::Report(Failure::Enumeration)
    );
    assert_eq!(bridge.handle(iterated(IterateResult::Success, true), &tx), Action::Watch);
    assert_eq!(
        bridge.handle(iterated(IterateResult::Quit, false), &tx),
        Action::Report(Failure::Iteration)
    );
    assert_eq!(bridge.phase, Phase::Listening);
    assert_eq!(rx.try_recv(), Err(TryRecvError::Empty));

    let mut waiting = Bridge::new();
    assert_eq!(waiting.handle(iterated(IterateResult::Failed, false), &tx), Action::Abort);
    assert_eq!(waiting.phase, Phase::Aborted);
}

#[test]
fn handled_snapshots_arrive_in_the_order_of_their_end_markers() {
    let (tx, mut rx) = unbounded_channel();
    let mut bridge = listening();
    bridge.handle(Event::Changed, &tx);
    bridge.handle(Event::Changed, &tx);
    bridge.handle(server(Some("out0")), &tx);
    bridge.handle(item("out0", 1), &tx);
    bridge.handle(end(), &tx);
    bridge.handle(server(Some("out1")), &tx);
    bridge.handle(item("out0", 2), &tx);
    bridge.handle(end(), &tx);
    assert_eq!(rx.try_recv(), Ok(AudioMessage::SinkChanges(vec![shown("out0", 1, true)])));
    assert_eq!(rx.try_recv(), Ok(AudioMessage::SinkChanges(vec![shown("out0", 2, false)])));
    assert_eq!(rx.try_recv(), Err(TryRecvError::Empty));
}

#[test]
fn a_change_in_the_middle_of_an_answer_alters_no_snapshot() {
    let without = {
        let mut bridge = listening();
        let actions = run(
            &mut bridge,
            vec![server(Some("out0")), item("out0", 1), item("out1", 2), end()],
        );
        (bridge, published(&actions), refetches(&actions))
    };
    let with = {
        let mut bridge = listening();
        let actions = run(
            &mut bridge,
            vec![server(Some("out0")), item("out0", 1), Event::Changed, item("out1", 2), end()],
        );
        (bridge, published(&actions), refetches(&actions))
    };
    assert_eq!(with.0, without.0);
    assert_eq!(with.1, without.1);
    assert_eq!(
        with.1,
        vec![AudioMessage::SinkChanges(vec![shown("out0", 1, true), shown("out1", 2, false)])]
    );
    assert_eq!(without.2, 0);
    assert_eq!(with.2, 1);
}

#[test]
fn nothing_is_published_before_the_end_marker() {
    let mut bridge = listening();
    let actions = run(
        &mut bridge,
        vec![
            Event::Changed,
            server(Some("out0")),
            iterated(IterateResult::Success, false),
            item("out0", 1),
            iterated(IterateResult::Failed, false),
            item("out1", 2),
            Event::Subscribed { success: true },
            Event::Sinks(ListResult::Error),
        ],
    );
    assert!(published(&actions).is_empty());
    assert_eq!(bridge.sinks.len(), 2);
}

#[test]
fn an_item_with_an_undescribed_port_is_not_acceptable() {
    let mut undescribed = device("out0", 1);
    undescribed.ports[0].description = None;
    assert!(!Event::Sinks(ListResult::Item(undescribed)).acceptable());
    assert!(item("out0", 1).acceptable());
    assert!(end().acceptable());
    assert!(Event::Sinks(ListResult::Error).acceptable());
    assert!(Event::Changed.acceptable());
    assert!(server(None).acceptable());
    assert!(iterated(IterateResult::Failed, false).acceptable());
    assert!(Event::Subscribed { success: false }.acceptable());
}

#[test]
fn only_a_ready_connection_ends_the_connecting() {
    for context in all_context_states() {
        for operation in all_operation_states() {
            let mut bridge = Bridge::new();
            let action =
                bridge.step(Event::Iterated { result: IterateResult::Success, context, operation });
            if context == ContextState::Ready {
                assert_eq!(action, Action::Start);
                assert_eq!(bridge.phase, Phase::AwaitingDefault);
            } else {
                assert_eq!(action, Action::Proceed);
                assert_eq!(bridge.phase, Phase::Connecting);
            }
        }
    }
}

#[test]
fn only_a_done_request_ends_the_wait_for_an_answer() {
    let waits = [
        (Phase::AwaitingDefault, Phase::AwaitingSinks, Action::RequestSinks),
        (Phase::AwaitingSinks, Phase::Listening, Action::Watch),
    ];
    for (phase, next, asked) in waits {
        for context in all_context_states() {
            for operation in all_operation_states() {
                let mut bridge = Bridge { phase, default_sink: None, sinks: vec![] };
                let action = bridge.step(Event::Iterated {
                    result: IterateResult::Success,
                    context,
                    operation,
                });
                if operation == Some(OperationState::Done) {
                    assert_eq!(action, asked);
                    assert_eq!(bridge.phase, next);
                } else {
                    assert_eq!(action, Action::Proceed);
                    assert_eq!(bridge.phase, phase);
                }
            }
        }
    }
}

#[test]
fn a_listening_bridge_waits_for_nothing() {
    for context in all_context_states() {
        for operation in all_operation_states() {
            assert!(!Phase::Listening.is_settled_by(context, operation));
            assert!(!Phase::Aborted.is_settled_by(context, operation));
            let mut bridge = listening();
            let action =
                bridge.step(Event::Iterated { result: IterateResult::Success, context, operation });
            assert_eq!(action, Action::Proceed);
            assert_eq!(bridge, listening());
        }
    }
}

#[test]
fn a_phase_tells_what_settles_it() {
    let done = Some(OperationState::Done);
    let running = Some(OperationState::Running);
    let cancelled = Some(OperationState::Cancelled);
    assert!(Phase::Connecting.is_settled_by(ContextState::Ready, None));
    assert!(!Phase::Connecting.is_settled_by(ContextState::SettingName, done));
    assert!(!Phase::Connecting.is_settled_by(ContextState::Failed, None));
    assert!(Phase::AwaitingDefault.is_settled_by(ContextState::Ready, done));
    assert!(!Phase::AwaitingDefault.is_settled_by(ContextState::Ready, running));
    assert!(!Phase::AwaitingDefault.is_settled_by(ContextState::Ready, cancelled));
    assert!(!Phase::AwaitingDefault.is_settled_by(ContextState::Ready, None));
    assert!(Phase::AwaitingSinks.is_settled_by(ContextState::Failed, done));
    assert!(!Phase::AwaitingSinks.is_settled_by(ContextState::Ready, None));
}
