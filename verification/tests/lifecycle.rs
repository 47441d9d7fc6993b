use query_execute_state::channel::DeliveryChannel;
use query_execute_state::data::DataBlock;
use query_execute_state::data::DataSchema;
use query_execute_state::error::ErrorCode;
use query_execute_state::producer::run_producer;
use query_execute_state::producer::producer_step;
use query_execute_state::producer::ProducerEvent;
use query_execute_state::producer::StreamItem;
use query_execute_state::progress::ProgressValues;
use query_execute_state::state::ExecuteState;
use query_execute_state::state::ExecuteStateName;
use query_execute_state::state::HttpQueryRequest;
use query_execute_state::state::Session;

fn start(sql: &str) -> (
    query_execute_state::state::ExecuteStateWrapper,
    query_execute_state::channel::HttpQueryHandle,
    DataSchema,
) {
    let request = HttpQueryRequest { sql: sql.to_string() };
    let schema = DataSchema { fields: vec!["value".to_string()] };
    ExecuteState::try_create(&request, Session { id: 7 }, Ok(schema)).unwrap()
}

fn block(rows: u64, bytes: u64) -> DataBlock {
    DataBlock { num_rows: rows, num_bytes: bytes }
}

#[test]
fn select_one_batch_succeeds() {
    let (mut state, _handle, schema) = start("SELECT 1");
    assert_eq!(schema.fields, vec!["value".to_string()]);
    assert_eq!(state.extract(), (ExecuteStateName::Running, None));

    let items = vec![StreamItem::Block(block(1, 8))];
    let mut tx = DeliveryChannel::new();
    let killed = run_producer(&mut state, &items, None, &mut tx);

    assert!(!killed);
    assert_eq!(state.extract(), (ExecuteStateName::Succeeded, None));
    assert_eq!(state.get_progress(), Some(ProgressValues { read_rows: 1, read_bytes: 8 }));
    assert_eq!(tx.recv(), Some(block(1, 8)));
    assert_eq!(tx.recv(), None);
}

#[test]
fn abort_while_running_fails_aborted() {
    let (mut state, mut handle, _schema) = start("SELECT * FROM big_table");
    handle.abort();

    let items = vec![
        StreamItem::Block(block(10, 100)),
        StreamItem::Block(block(10, 100)),
        StreamItem::Block(block(10, 100)),
    ];
    let mut tx = DeliveryChannel::new();
    let killed = run_producer(&mut state, &items, Some(1), &mut tx);

    assert!(killed);
    let (name, err) = state.extract();
    assert_eq!(name, ExecuteStateName::Failed);
    assert!(err.unwrap().is_aborted());
    // a strict prefix was delivered; the batch in hand was dropped
    assert_eq!(tx.recv(), Some(block(10, 100)));
    assert_eq!(tx.recv(), None);
    // the dropped batch still counts as work completed
    assert_eq!(state.get_progress(), Some(ProgressValues { read_rows: 20, read_bytes: 200 }));
}

#[test]
fn error_on_third_batch() {
    let (mut state, _handle, _schema) = start("SELECT broken");
    let items = vec![
        StreamItem::Block(block(1, 4)),
        StreamItem::Block(block(2, 5)),
        StreamItem::Error(ErrorCode::UnknownException("bad page".to_string())),
        StreamItem::Block(block(9, 9)),
    ];
    let mut tx = DeliveryChannel::new();
    let killed = run_producer(&mut state, &items, None, &mut tx);

    assert!(!killed);
    let (name, err) = state.extract();
    assert_eq!(name, ExecuteStateName::Failed);
    assert_eq!(err, Some(ErrorCode::UnknownException("bad page".to_string())));
    // exactly two batches were delivered before the error
    assert_eq!(tx.recv(), Some(block(1, 4)));
    assert_eq!(tx.recv(), Some(block(2, 5)));
    assert_eq!(tx.recv(), None);
    assert_eq!(state.get_progress(), Some(ProgressValues { read_rows: 3, read_bytes: 9 }));
}

#[test]
fn abort_after_exhaustion_keeps_success() {
    let (mut state, mut handle, _schema) = start("SELECT 1");
    let items = vec![StreamItem::Block(block(1, 1))];
    let mut tx = DeliveryChannel::new();
    run_producer(&mut state, &items, Some(5), &mut tx);
    assert_eq!(state.extract(), (ExecuteStateName::Succeeded, None));

    // the late abort is a silent no-op: no kill, no state change
    handle.abort();
    let killed = state.stop(Err(ErrorCode::AbortedQuery), true);
    assert!(!killed);
    assert_eq!(state.extract(), (ExecuteStateName::Succeeded, None));
    assert_eq!(state.get_progress(), Some(ProgressValues { read_rows: 1, read_bytes: 1 }));
}

#[test]
fn stop_is_one_shot() {
    let (mut state, _handle, _schema) = start("SELECT 1");
    let killed = state.stop(Err(ErrorCode::UnknownException("first".to_string())), false);
    assert!(!killed);
    let first = state.extract();
    assert_eq!(first.0, ExecuteStateName::Failed);

    // a second stop with a different reason and force-kill changes nothing
    let killed_again = state.stop(Ok(()), true);
    assert!(!killed_again);
    assert_eq!(state.extract(), first);
    assert_eq!(state.extract(), first);
}

#[test]
fn progress_is_monotone_and_freezes() {
    let (mut state, _handle, _schema) = start("SELECT 1");
    assert_eq!(state.get_progress(), Some(ProgressValues { read_rows: 0, read_bytes: 0 }));
    state.record_progress(3, 30);
    assert_eq!(state.get_progress(), Some(ProgressValues { read_rows: 3, read_bytes: 30 }));
    state.record_progress(2, 5);
    assert_eq!(state.get_progress(), Some(ProgressValues { read_rows: 5, read_bytes: 35 }));

    state.stop(Ok(()), false);
    assert_eq!(state.get_progress(), Some(ProgressValues { read_rows: 5, read_bytes: 35 }));
    state.stop(Err(ErrorCode::AbortedQuery), true);
    assert_eq!(state.get_progress(), Some(ProgressValues { read_rows: 5, read_bytes: 35 }));
}

#[test]
fn delivery_preserves_order() {
    let (mut state, _handle, _schema) = start("SELECT * FROM t");
    let items = vec![
        StreamItem::Block(block(1, 1)),
        StreamItem::Block(block(2, 2)),
        StreamItem::Block(block(3, 3)),
        StreamItem::Block(block(4, 4)),
        StreamItem::Block(block(5, 5)),
    ];
    let mut tx = DeliveryChannel::new();
    run_producer(&mut state, &items, None, &mut tx);
    for k in 1..=5u64 {
        assert_eq!(tx.recv(), Some(block(k, k)));
    }
    assert_eq!(tx.recv(), None);
}

#[test]
fn abort_handle_is_safe_to_repeat() {
    let (_state, mut handle, _schema) = start("SELECT 1");
    handle.abort();
    handle.abort();
    handle.abort();
    handle.abort();
    // the bounded signal channel drops duplicates past its capacity
    assert_eq!(handle.abort_sender.queued, 2);
}

#[test]
fn planning_error_stops_creation() {
    let request = HttpQueryRequest { sql: "SELEC 1".to_string() };
    let r = ExecuteState::try_create(
        &request,
        Session { id: 1 },
        Err(ErrorCode::SyntaxException("expected SELECT".to_string())),
    );
    match r {
        Err(ErrorCode::SyntaxException(m)) => assert_eq!(m, "expected SELECT"),
        _ => panic!("planning failure must be surfaced synchronously"),
    }
}

#[test]
fn producer_step_events() {
    let (mut state, _handle, _schema) = start("SELECT 1");
    let (done, killed) = producer_step(&mut state, ProducerEvent::BlockDelivered);
    assert!(!done);
    assert!(!killed);
    assert_eq!(state.extract(), (ExecuteStateName::Running, None));

    let (done, killed) = producer_step(&mut state, ProducerEvent::AbortReceived);
    assert!(done);
    assert!(killed);
    let (name, err) = state.extract();
    assert_eq!(name, ExecuteStateName::Failed);
    assert_eq!(err, Some(ErrorCode::AbortedQuery));

    // terminal events against a stopped state are silent no-ops
    let (done, killed) = producer_step(&mut state, ProducerEvent::StreamFinished);
    assert!(done);
    assert!(!killed);
    assert_eq!(state.extract().0, ExecuteStateName::Failed);
}

#[test]
fn empty_stream_succeeds() {
    let (mut state, _handle, _schema) = start("SELECT 1 WHERE 1 = 0");
    let items: Vec<StreamItem> = vec![];
    let mut tx = DeliveryChannel::new();
    let killed = run_producer(&mut state, &items, None, &mut tx);
    assert!(!killed);
    assert_eq!(state.extract(), (ExecuteStateName::Succeeded, None));
    assert_eq!(state.get_progress(), Some(ProgressValues { read_rows: 0, read_bytes: 0 }));
    assert_eq!(tx.recv(), None);
}
