use async_std::channel::bounded;
use async_std::task;
use nu_plugin_mssql::cell::{Cell, WireTime};
use nu_plugin_mssql::marshal::MarshalError;
use nu_plugin_mssql::stream::{marshal_row, Producer, ProducerEvent, Row, StreamItem};
use nu_plugin_mssql::value::{Record, Value};

fn count_row(n: i32) -> Row {
    vec![("Count".to_string(), Cell::I32(Some(n)))]
}

/// Drives the producer over `events` into a channel of capacity `buffer`,
/// the way the plugin's background task does; returns the producer's end
/// state and the receiving end.
fn spawn_producer(
    events: Vec<ProducerEvent>,
    buffer: usize,
) -> (task::JoinHandle<Producer>, async_std::channel::Receiver<StreamItem>) {
    let (sender, receiver) = bounded(buffer);
    let handle = task::spawn(async move {
        let mut state = Producer::Streaming;
        for ev in events {
            let (next, item) = state.step(ev);
            state = next;
            if let Some(item) = item {
                if sender.send(item).await.is_err() {
                    state = state.step(ProducerEvent::SinkClosed).0;
                }
            }
            if state == Producer::Done {
                break;
            }
        }
        state
    });
    (handle, receiver)
}

#[test]
fn marshal_row_keeps_column_order_and_overwrites_duplicates() {
    let row: Row = vec![
        ("b".to_string(), Cell::I32(Some(1))),
        ("a".to_string(), Cell::Bit(Some(false))),
        ("b".to_string(), Cell::String(Some("x".to_string()))),
    ];
    let rec = marshal_row(&row).unwrap();
    assert_eq!(rec.columns(), vec!["b".to_string(), "a".to_string()]);
    assert_eq!(rec.get(&"b".to_string()), Some(&Value::String("x".to_string())));
    assert_eq!(rec.get(&"a".to_string()), Some(&Value::Bool(false)));
    assert_eq!(rec.get(&"c".to_string()), None);
}

#[test]
fn one_bad_cell_fails_the_row() {
    let row: Row = vec![
        ("ok".to_string(), Cell::I32(Some(1))),
        ("bad".to_string(), Cell::Time(Some(WireTime { increments: 1, scale: 10 }))),
    ];
    assert_eq!(marshal_row(&row), Err(MarshalError::InvalidScale));
    let (state, item) = Producer::Streaming.step(ProducerEvent::Row(row));
    assert_eq!(state, Producer::Done);
    assert_eq!(
        item,
        Some(StreamItem::Failed("Failed to parse time: precision above nanoseconds".to_string()))
    );
}

#[test]
fn producer_steps() {
    let (s, item) = Producer::Streaming.step(ProducerEvent::Finished);
    assert_eq!((s, item), (Producer::Done, None));
    let (s, item) = Producer::Streaming.step(ProducerEvent::SinkClosed);
    assert_eq!((s, item), (Producer::Done, None));
    let (s, item) = Producer::Streaming.step(ProducerEvent::Failed("reset".to_string()));
    assert_eq!((s, item), (Producer::Done, Some(StreamItem::Failed("reset".to_string()))));
    let (s, item) = Producer::Done.step(ProducerEvent::Row(count_row(1)));
    assert_eq!((s, item), (Producer::Done, None));
}

#[test]
fn two_rows_through_a_buffer_of_one() {
    let events = vec![
        ProducerEvent::Row(count_row(1)),
        ProducerEvent::Row(count_row(2)),
        ProducerEvent::Finished,
    ];
    let (handle, receiver) = spawn_producer(events, 1);
    let mut got: Vec<StreamItem> = Vec::new();
    while let Ok(item) = receiver.recv_blocking() {
        got.push(item);
    }
    assert_eq!(task::block_on(handle), Producer::Done);
    assert_eq!(got.len(), 2);
    for (item, n) in got.iter().zip([1i64, 2]) {
        match item {
            StreamItem::Row(rec) => {
                assert_eq!(rec.columns(), vec!["Count".to_string()]);
                assert_eq!(rec.get(&"Count".to_string()), Some(&Value::Int(n)));
            }
            other => panic!("unexpected item {:?}", other),
        }
    }
}

#[test]
fn rows_arrive_in_order_for_any_buffer() {
    for buffer in [1usize, 2, 5, 64] {
        let events: Vec<ProducerEvent> = (0..20)
            .map(|n| ProducerEvent::Row(count_row(n)))
            .chain([ProducerEvent::Finished])
            .collect();
        let (handle, receiver) = spawn_producer(events, buffer);
        let mut got: Vec<i64> = Vec::new();
        while let Ok(StreamItem::Row(rec)) = receiver.recv_blocking() {
            match rec.get(&"Count".to_string()) {
                Some(Value::Int(n)) => got.push(*n),
                other => panic!("unexpected value {:?}", other),
            }
        }
        assert_eq!(task::block_on(handle), Producer::Done);
        assert_eq!(got, (0..20).collect::<Vec<i64>>());
    }
}

#[test]
fn abandoned_consumer_stops_the_producer() {
    let events = vec![
        ProducerEvent::Row(count_row(1)),
        ProducerEvent::Row(count_row(2)),
        ProducerEvent::Row(count_row(3)),
        ProducerEvent::Finished,
    ];
    let (handle, receiver) = spawn_producer(events, 1);
    let first = receiver.recv_blocking().unwrap();
    assert!(matches!(first, StreamItem::Row(_)));
    drop(receiver);
    assert_eq!(task::block_on(handle), Producer::Done);
}

#[test]
fn failure_is_the_last_item() {
    let events = vec![
        ProducerEvent::Row(count_row(1)),
        ProducerEvent::Failed("connection reset".to_string()),
        ProducerEvent::Row(count_row(2)),
    ];
    let (handle, receiver) = spawn_producer(events, 4);
    let mut got: Vec<StreamItem> = Vec::new();
    while let Ok(item) = receiver.recv_blocking() {
        got.push(item);
    }
    assert_eq!(task::block_on(handle), Producer::Done);
    assert_eq!(got.len(), 2);
    assert_eq!(got[1], StreamItem::Failed("connection reset".to_string()));
    let mut expected = Record::new();
    expected.insert("Count".to_string(), Value::Int(1));
    assert_eq!(got[0], StreamItem::Row(expected));
}
