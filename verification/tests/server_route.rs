use over_there::server::action::route::{
    batch_reply, capabilities, keep_receiving, route, RecvOutcome, Request, Route, SequenceRun,
    DEFAULT_MAX_DEPTH,
};
use over_there::server::action::{Capability, Content};

#[test]
fn route_should_refuse_requests_nested_too_deep() {
    match route(Request::Heartbeat, 0) {
        Route::Reply(Content::Error(m)) => assert_eq!(m, "Reached maximum nested depth"),
        x => panic!("Unexpected route: {:?}", x),
    }
}

#[test]
fn route_should_answer_heartbeats_and_capabilities_at_once() {
    assert!(matches!(route(Request::Heartbeat, DEFAULT_MAX_DEPTH), Route::Reply(Content::Heartbeat)));
    match route(Request::Capabilities, 1) {
        Route::Reply(Content::Capabilities { capabilities }) => assert_eq!(
            capabilities,
            vec![Capability::Exec, Capability::File, Capability::Forward]
        ),
        x => panic!("Unexpected route: {:?}", x),
    }
    assert_eq!(capabilities().len(), 3);
    assert!(matches!(route(Request::Forward, 1), Route::Reply(Content::Ignore)));
}

#[test]
fn route_should_send_sequences_one_level_down() {
    let seq = Request::Sequence { operations: vec![Request::Heartbeat, Request::Version] };
    match route(seq, 5) {
        Route::Sequence { operations, depth } => {
            assert_eq!(depth, 4);
            assert_eq!(operations.len(), 2);
        }
        x => panic!("Unexpected route: {:?}", x),
    }
    let batch = Request::Batch { operations: vec![Request::Heartbeat] };
    assert!(matches!(route(batch, 1), Route::Batch { depth: 0, .. }));
    assert!(matches!(route(Request::ReadProcStatus { id: 3 }, 1), Route::Handle(Request::ReadProcStatus { id: 3 })));
}

#[test]
fn sequence_should_stop_at_first_failure() {
    let mut run = SequenceRun::new(3);
    assert!(run.next_runs());
    assert!(!run.is_done());
    run.record(Content::Heartbeat);
    assert!(run.next_runs());
    run.record(Content::Error(String::from("failed")));
    assert!(!run.next_runs());
    run.abort();
    assert!(!run.next_runs());
    assert!(run.is_done());
    match run.finish() {
        Content::Sequence { results } => {
            assert_eq!(results.len(), 3);
            assert!(matches!(results[0], Content::Heartbeat));
            assert!(matches!(&results[2], Content::Error(m) if m == "Abort"));
        }
        x => panic!("Unexpected reply: {:?}", x),
    }
}

#[test]
fn batch_reply_should_keep_the_order() {
    match batch_reply(vec![Content::Heartbeat, Content::Ignore]) {
        Content::Batch { results } => {
            assert!(matches!(results[0], Content::Heartbeat));
            assert!(matches!(results[1], Content::Ignore));
        }
        x => panic!("Unexpected reply: {:?}", x),
    }
}

#[test]
fn receiving_should_stop_only_when_the_connection_fails() {
    assert!(keep_receiving(RecvOutcome::Nothing));
    assert!(keep_receiving(RecvOutcome::Data));
    assert!(keep_receiving(RecvOutcome::ProcessingFailed));
    assert!(!keep_receiving(RecvOutcome::IoFailed));
}
