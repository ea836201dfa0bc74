use std::collections::VecDeque;

use message_relay::consumer::{pop_event, Consumer, ConsumerAction, ConsumerEvent, ConsumerPhase};
use message_relay::coordinator::{join_tasks, Ending};
use message_relay::failure::Failure;
use message_relay::producer::{Producer, ProducerAction, ProducerPhase};
use message_relay::request::{counter_batch, flush_command, pop_command, push_command};
use redis::{RedisResult, Value};

/// A stand-in for the store, behind the connection trait of `redis`: one
/// list and one counter in the selected database, and a count of the keys
/// in the other databases. It answers the packed commands that `query`
/// sends, so that every request goes through `redis` as in a real run.
struct StandIn {
    list: VecDeque<String>,
    counter: Option<i64>,
    keys_elsewhere: usize,
}

fn fresh() -> StandIn {
    StandIn { list: VecDeque::new(), counter: None, keys_elsewhere: 0 }
}

/// Reads the commands out of what `redis` packed: each an array of bulk
/// strings.
fn unpack(mut bytes: &[u8]) -> Vec<Vec<String>> {
    fn line(bytes: &mut &[u8]) -> String {
        let end = bytes.windows(2).position(|pair| pair == b"\r\n").unwrap();
        let text = String::from_utf8(bytes[..end].to_vec()).unwrap();
        *bytes = &bytes[end + 2..];
        text
    }
    let mut commands = Vec::new();
    while !bytes.is_empty() {
        let head = line(&mut bytes);
        assert!(head.starts_with('*'));
        let count: usize = head[1..].parse().unwrap();
        let mut arguments = Vec::new();
        for _ in 0..count {
            let size = line(&mut bytes);
            assert!(size.starts_with('$'));
            let length: usize = size[1..].parse().unwrap();
            arguments.push(String::from_utf8(bytes[..length].to_vec()).unwrap());
            assert_eq!(&bytes[length..length + 2], b"\r\n");
            bytes = &bytes[length + 2..];
        }
        commands.push(arguments);
    }
    commands
}

fn serve(store: &mut StandIn, arguments: &[String]) -> Value {
    match arguments[0].as_str() {
        "FLUSHALL" => {
            store.list.clear();
            store.counter = None;
            store.keys_elsewhere = 0;
            Value::Okay
        }
        "FLUSHDB" => {
            store.list.clear();
            store.counter = None;
            Value::Okay
        }
        "RPUSH" => {
            assert_eq!(arguments[1], "queue");
            store.list.push_back(arguments[2].clone());
            Value::Int(store.list.len() as i64)
        }
        "BLPOP" => {
            assert_eq!(arguments[1], "queue");
            assert_eq!(arguments[2], "60");
            match store.list.pop_front() {
                Some(payload) => Value::Array(vec![
                    Value::BulkString(b"queue".to_vec()),
                    Value::BulkString(payload.into_bytes()),
                ]),
                None => Value::Nil,
            }
        }
        "SET" => {
            store.counter = Some(arguments[2].parse().unwrap());
            Value::Okay
        }
        "GET" => match store.counter {
            Some(value) => Value::BulkString(value.to_string().into_bytes()),
            None => Value::Nil,
        },
        "INCR" => {
            let raised = store.counter.unwrap_or(0) + 1;
            store.counter = Some(raised);
            Value::Int(raised)
        }
        other => panic!("a command that the relay never sends: {}", other),
    }
}

impl redis::ConnectionLike for StandIn {
    fn req_packed_command(&mut self, cmd: &[u8]) -> RedisResult<Value> {
        let commands = unpack(cmd);
        assert_eq!(commands.len(), 1);
        Ok(serve(self, &commands[0]))
    }

    fn req_packed_commands(
        &mut self,
        cmd: &[u8],
        offset: usize,
        count: usize,
    ) -> RedisResult<Vec<Value>> {
        let mut replies = Vec::new();
        let mut queued: Option<Vec<Vec<String>>> = None;
        for command in unpack(cmd) {
            match (command[0].as_str(), queued.as_mut()) {
                ("MULTI", None) => {
                    queued = Some(Vec::new());
                    replies.push(Value::Okay);
                }
                ("EXEC", Some(waiting)) => {
                    let results = waiting.iter().map(|step| serve(self, step)).collect();
                    replies.push(Value::Array(results));
                    queued = None;
                }
                (_, Some(waiting)) => {
                    waiting.push(command);
                    replies.push(Value::SimpleString(String::from("QUEUED")));
                }
                (_, None) => replies.push(serve(self, &command)),
            }
        }
        Ok(replies.into_iter().skip(offset).take(count).collect())
    }

    fn get_db(&self) -> i64 {
        0
    }

    fn check_connection(&mut self) -> bool {
        true
    }

    fn is_open(&self) -> bool {
        true
    }
}

fn producer_turn(producer: &mut Producer, store: &mut StandIn) {
    match producer.action() {
        ProducerAction::Stop => {}
        ProducerAction::Abort(_) => {}
        ProducerAction::Send { list, payload } => {
            let sent: RedisResult<()> = push_command(&list, &payload).query(store);
            producer.advance(sent.map_err(|_| Failure::Store));
        }
        _ => producer.advance(Ok(())),
    }
}

fn consumer_turn(consumer: &mut Consumer, store: &mut StandIn, sink: &mut String) {
    match consumer.action() {
        ConsumerAction::Stop => {}
        ConsumerAction::Abort(_) => {}
        ConsumerAction::Open { .. } => {
            sink.clear();
            consumer.advance(ConsumerEvent::Done);
        }
        ConsumerAction::Pop { list, timeout_secs } => {
            let taken: RedisResult<Option<(String, String)>> =
                pop_command(&list, timeout_secs).query(store);
            match taken {
                Ok(reply) => consumer.advance(pop_event(reply)),
                Err(_) => consumer.advance(ConsumerEvent::Failed(Failure::Store)),
            }
        }
        ConsumerAction::Write { line } => {
            sink.push_str(&line);
            consumer.advance(ConsumerEvent::Done);
        }
        _ => consumer.advance(ConsumerEvent::Done),
    }
}

fn expected_sink(count: u32) -> String {
    let mut text = String::new();
    for i in 0..count {
        text.push_str(&format!("message_{}\n", i));
    }
    text
}

#[test]
fn fifty_messages_arrive_in_order_when_the_tasks_alternate() {
    let mut store = fresh();
    let mut sink = String::from("left over from an earlier run\n");
    let mut producer = Producer::new(50);
    let mut consumer = Consumer::new(50);
    consumer_turn(&mut consumer, &mut store, &mut sink);
    for _ in 0..50 {
        for _ in 0..3 {
            producer_turn(&mut producer, &mut store);
        }
        for _ in 0..4 {
            consumer_turn(&mut consumer, &mut store, &mut sink);
        }
    }
    assert_eq!(producer.phase(), ProducerPhase::Finished);
    assert_eq!(consumer.phase(), ConsumerPhase::Finished);
    assert!(store.list.is_empty());
    assert_eq!(sink, expected_sink(50));
    assert_eq!(sink.lines().count(), 50);
    for (k, line) in sink.lines().enumerate() {
        assert_eq!(line, format!("message_{}", k));
    }
}

#[test]
fn fifty_messages_arrive_in_order_when_the_producer_runs_ahead() {
    let mut store = fresh();
    let mut sink = String::new();
    let mut producer = Producer::new(50);
    let mut consumer = Consumer::new(50);
    while producer.phase() != ProducerPhase::Finished {
        producer_turn(&mut producer, &mut store);
    }
    assert_eq!(store.list.len(), 50);
    while consumer.phase() != ConsumerPhase::Finished {
        consumer_turn(&mut consumer, &mut store, &mut sink);
    }
    assert!(store.list.is_empty());
    assert_eq!(sink, expected_sink(50));
}

#[test]
fn messages_arrive_in_order_at_the_paces_of_the_two_tasks() {
    let mut store = fresh();
    let mut sink = String::new();
    let mut producer = Producer::new(50);
    let mut consumer = Consumer::new(50);
    let mut producer_free_at: u64 = 0;
    let mut consumer_free_at: u64 = 0;
    let mut now: u64 = 0;
    while consumer.phase() != ConsumerPhase::Finished {
        if now >= producer_free_at {
            if let ProducerAction::Rest { millis, .. } = producer.action() {
                producer_free_at = now + millis;
            }
            producer_turn(&mut producer, &mut store);
        }
        if now >= consumer_free_at {
            let waiting = matches!(consumer.action(), ConsumerAction::Pop { .. });
            if !(waiting && store.list.is_empty()) {
                if let ConsumerAction::Rest { millis, .. } = consumer.action() {
                    consumer_free_at = now + millis;
                }
                consumer_turn(&mut consumer, &mut store, &mut sink);
            }
        }
        now += 1;
        assert!(now < 60_000);
    }
    assert_eq!(producer.phase(), ProducerPhase::Finished);
    assert_eq!(sink, expected_sink(50));
}

#[test]
fn payloads_left_in_the_list_come_before_the_messages() {
    let mut store = fresh();
    store.list.push_back(String::from("left behind"));
    store.list.push_back(String::from("left behind too"));
    let mut sink = String::new();
    let mut producer = Producer::new(3);
    let mut consumer = Consumer::new(4);
    while producer.phase() != ProducerPhase::Finished {
        producer_turn(&mut producer, &mut store);
    }
    while consumer.phase() != ConsumerPhase::Finished {
        consumer_turn(&mut consumer, &mut store, &mut sink);
    }
    assert_eq!(sink, "left behind\nleft behind too\nmessage_0\nmessage_1\n");
    assert_eq!(store.list, VecDeque::from(vec![String::from("message_2")]));
}

#[test]
fn a_producer_that_sends_too_few_leaves_the_consumer_to_time_out() {
    let mut store = fresh();
    let mut sink = String::new();
    let mut producer = Producer::new(49);
    let mut consumer = Consumer::new(50);
    while producer.phase() != ProducerPhase::Finished {
        producer_turn(&mut producer, &mut store);
    }
    let mut turns = 0;
    while !matches!(consumer.phase(), ConsumerPhase::Finished | ConsumerPhase::Aborted(_)) {
        consumer_turn(&mut consumer, &mut store, &mut sink);
        turns += 1;
        assert!(turns < 1000);
    }
    assert_eq!(consumer.phase(), ConsumerPhase::Aborted(Failure::Timeout));
    assert_eq!(consumer.received(), 49);
    assert_eq!(sink, expected_sink(49));
    let ending = join_tasks(Ok(()), Err(Failure::Timeout));
    assert!(!ending.is_success());
    assert!(matches!(
        ending,
        Ending::TaskFailed { producer: None, consumer: Some(Failure::Timeout) }
    ));
}

#[test]
fn a_failed_send_leaves_the_list_as_it_was() {
    let mut store = fresh();
    let mut producer = Producer::new(50);
    for _ in 0..3 {
        producer_turn(&mut producer, &mut store);
    }
    producer.advance(Ok(()));
    producer.advance(Err(Failure::Store));
    assert_eq!(producer.phase(), ProducerPhase::Aborted(Failure::Store));
    assert_eq!(producer.sent(), 1);
    assert_eq!(store.list.len(), 1);
    producer_turn(&mut producer, &mut store);
    assert_eq!(store.list.len(), 1);
}

#[test]
fn the_counter_batch_from_sixty_one_reads_sixty_one_and_sixty_two() {
    let mut store = fresh();
    store.counter = Some(5);
    let read: RedisResult<(i32, i32)> = counter_batch("counter", 61).query(&mut store);
    assert_eq!(read, Ok((61, 62)));
    assert_eq!(store.counter, Some(62));
}

#[test]
fn the_counter_batch_reads_a_value_and_its_successor_for_other_starts() {
    for initial in [0, 1, -1, -100, 2147483646, i32::MIN] {
        let mut store = fresh();
        let read: RedisResult<(i32, i32)> = counter_batch("counter", initial).query(&mut store);
        assert_eq!(read, Ok((initial, initial + 1)));
    }
}

#[test]
fn the_counter_batch_from_the_largest_start_cannot_be_read_back() {
    let mut store = fresh();
    let read: RedisResult<(i32, i32)> = counter_batch("counter", i32::MAX).query(&mut store);
    assert!(read.is_err());
    assert_eq!(store.counter, Some(2147483648));
}

#[test]
fn the_result_of_the_counter_batch_leaves_out_the_first_and_third_reply() {
    let mut store = fresh();
    let all: RedisResult<Vec<Value>> = counter_batch("counter", 61).query(&mut store);
    assert_eq!(
        all,
        Ok(vec![Value::BulkString(b"61".to_vec()), Value::BulkString(b"62".to_vec())])
    );
}

#[test]
fn the_flush_command_leaves_nothing_in_any_database() {
    let mut store = fresh();
    store.counter = Some(62);
    store.keys_elsewhere = 3;
    store.list.push_back(String::from("message_0"));
    let wiped: RedisResult<()> = flush_command().query(&mut store);
    assert_eq!(wiped, Ok(()));
    assert!(store.list.is_empty());
    assert_eq!(store.counter, None);
    assert_eq!(store.keys_elsewhere, 0);
}

#[test]
fn a_reader_beside_the_counter_batch_sees_the_old_value_or_the_new() {
    let mut store = fresh();
    store.counter = Some(5);
    let before: RedisResult<Option<i32>> = redis::cmd("GET").arg("counter").query(&mut store);
    assert_eq!(before, Ok(Some(5)));
    let read: RedisResult<(i32, i32)> = counter_batch("counter", 61).query(&mut store);
    assert_eq!(read, Ok((61, 62)));
    let after: RedisResult<Option<i32>> = redis::cmd("GET").arg("counter").query(&mut store);
    assert_eq!(after, Ok(Some(62)));
}

#[test]
fn steps_sent_one_by_one_would_show_the_value_between() {
    let mut store = fresh();
    store.counter = Some(5);
    let batch = counter_batch("counter", 61);
    let first = batch.cmd_iter().next().unwrap();
    let set: RedisResult<()> = first.query(&mut store);
    assert_eq!(set, Ok(()));
    let between: RedisResult<Option<i32>> = redis::cmd("GET").arg("counter").query(&mut store);
    assert_eq!(between, Ok(Some(61)));
}
