use message_relay::request::{counter_batch, flush_command, pop_command, push_command};

fn arguments(command: &redis::Cmd) -> Vec<Vec<u8>> {
    let mut all = Vec::new();
    for argument in command.args_iter() {
        match argument {
            redis::Arg::Simple(bytes) => all.push(bytes.to_vec()),
            _ => panic!("a cursor argument"),
        }
    }
    all
}

#[test]
fn flush_command_wipes_every_database() {
    let command = flush_command();
    assert_eq!(arguments(&command), vec![b"FLUSHALL".to_vec()]);
    assert_eq!(command.get_packed_command(), b"*1\r\n$8\r\nFLUSHALL\r\n".to_vec());
}

#[test]
fn push_command_appends_to_the_named_list() {
    let command = push_command("queue", "message_0");
    assert_eq!(
        arguments(&command),
        vec![b"RPUSH".to_vec(), b"queue".to_vec(), b"message_0".to_vec()]
    );
    assert_eq!(
        command.get_packed_command(),
        b"*3\r\n$5\r\nRPUSH\r\n$5\r\nqueue\r\n$9\r\nmessage_0\r\n".to_vec()
    );
}

#[test]
fn push_command_sends_text_as_utf8() {
    let command = push_command("liste", "grüße");
    assert_eq!(arguments(&command)[2], "grüße".as_bytes().to_vec());
    assert_eq!(arguments(&command)[2].len(), 7);
}

#[test]
fn push_command_is_what_redis_builds_by_hand() {
    let by_hand = redis::cmd("RPUSH").arg("queue").arg("message_12").get_packed_command();
    assert_eq!(push_command("queue", "message_12").get_packed_command(), by_hand);
}

#[test]
fn pop_command_carries_the_timeout_in_decimal() {
    let command = pop_command("queue", 60);
    assert_eq!(
        arguments(&command),
        vec![b"BLPOP".to_vec(), b"queue".to_vec(), b"60".to_vec()]
    );
    assert_eq!(
        command.get_packed_command(),
        b"*3\r\n$5\r\nBLPOP\r\n$5\r\nqueue\r\n$2\r\n60\r\n".to_vec()
    );
}

#[test]
fn pop_command_with_the_extreme_timeouts() {
    assert_eq!(arguments(&pop_command("queue", 0))[2], b"0".to_vec());
    assert_eq!(arguments(&pop_command("queue", u32::MAX))[2], b"4294967295".to_vec());
}

#[test]
fn counter_batch_is_atomic_and_has_four_steps() {
    let batch = counter_batch("counter", 61);
    assert!(batch.is_transaction());
    assert_eq!(batch.len(), 4);
    let steps: Vec<Vec<Vec<u8>>> = batch.cmd_iter().map(arguments).collect();
    assert_eq!(
        steps,
        vec![
            vec![b"SET".to_vec(), b"counter".to_vec(), b"61".to_vec()],
            vec![b"GET".to_vec(), b"counter".to_vec()],
            vec![b"INCR".to_vec(), b"counter".to_vec()],
            vec![b"GET".to_vec(), b"counter".to_vec()],
        ]
    );
}

#[test]
fn counter_batch_is_what_redis_builds_by_hand() {
    let by_hand = redis::pipe()
        .atomic()
        .cmd("SET").arg("counter").arg(61).ignore()
        .cmd("GET").arg("counter")
        .cmd("INCR").arg("counter").ignore()
        .cmd("GET").arg("counter")
        .get_packed_pipeline();
    assert_eq!(counter_batch("counter", 61).get_packed_pipeline(), by_hand);
}

#[test]
fn counter_batch_is_sent_between_multi_and_exec() {
    let packed = counter_batch("k", 1).get_packed_pipeline();
    assert!(packed.starts_with(b"*1\r\n$5\r\nMULTI\r\n"));
    assert!(packed.ends_with(b"*1\r\n$4\r\nEXEC\r\n"));
}

#[test]
fn counter_batch_writes_a_negative_start_with_its_sign() {
    let batch = counter_batch("counter", -7);
    let first: Vec<Vec<Vec<u8>>> = batch.cmd_iter().take(1).map(arguments).collect();
    assert_eq!(first[0][2], b"-7".to_vec());
    let least = counter_batch("counter", i32::MIN);
    let first: Vec<Vec<Vec<u8>>> = least.cmd_iter().take(1).map(arguments).collect();
    assert_eq!(first[0][2], b"-2147483648".to_vec());
}
