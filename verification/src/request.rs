//! The requests that the relay makes of the store, and the `redis` commands
//! that carry them.

use vstd::prelude::*;
use vstd::utf8::encode_utf8;
use crate::decimal::signed_decimal;
use crate::redis_api::{
    command_args, ignore_last, new_command, new_pipeline, pipeline_atomic, pipeline_steps,
    push_integer, push_text, queue_command, set_atomic,
};

verus! {

/// A request to the store, as a mathematical value.
pub enum Request {
    /// Wipe the store: every key of every database.
    Flush,
    /// Set `key` to `value`.
    Assign { key: Seq<char>, value: int },
    /// Read `key`.
    Read { key: Seq<char> },
    /// Add one to `key`.
    Increment { key: Seq<char> },
    /// Append `payload` at the tail of the list `list`.
    Append { list: Seq<char>, payload: Seq<char> },
    /// Remove the head of the list `list`, waiting up to `timeout_secs`
    /// seconds for one to be there.
    TakeHead { list: Seq<char>, timeout_secs: nat },
}

impl Request {
    /// The arguments of the command that carries the request: the command's
    /// name, then what it works on, each as the bytes of its text.
    pub open spec fn args(self) -> Seq<Seq<u8>> {
        match self {
            Request::Flush => seq![encode_utf8("FLUSHALL"@)],
            Request::Assign { key, value } => seq![
                encode_utf8("SET"@),
                encode_utf8(key),
                encode_utf8(signed_decimal(value)),
            ],
            Request::Read { key } => seq![encode_utf8("GET"@), encode_utf8(key)],
            Request::Increment { key } => seq![encode_utf8("INCR"@), encode_utf8(key)],
            Request::Append { list, payload } => seq![
                encode_utf8("RPUSH"@),
                encode_utf8(list),
                encode_utf8(payload),
            ],
            Request::TakeHead { list, timeout_secs } => seq![
                encode_utf8("BLPOP"@),
                encode_utf8(list),
                encode_utf8(signed_decimal(timeout_secs as int)),
            ],
        }
    }
}

/// The four steps of the counter batch: set, read, add one, read again. A
/// step paired with `true` has its reply left out of the batch's result:
/// the result holds the two values read.
pub open spec fn counter_requests(key: Seq<char>, initial: int) -> Seq<(Request, bool)> {
    seq![
        (Request::Assign { key, value: initial }, true),
        (Request::Read { key }, false),
        (Request::Increment { key }, true),
        (Request::Read { key }, false),
    ]
}

/// The steps of a batch as a pipeline holds them: each request as the
/// arguments of its command.
pub open spec fn batch_steps(steps: Seq<(Request, bool)>) -> Seq<(Seq<Seq<u8>>, bool)> {
    steps.map_values(|step: (Request, bool)| (step.0.args(), step.1))
}

/// The command that wipes the store: every key of every database.
pub fn flush_command() -> (command: redis::Cmd)
    ensures
        command_args(command) == Request::Flush.args(),
{
    new_command("FLUSHALL")
}

/// The command that appends `payload` at the tail of the list `list`.
pub fn push_command(list: &str, payload: &str) -> (command: redis::Cmd)
    ensures
        command_args(command) == (Request::Append { list: list@, payload: payload@ }).args(),
{
    let mut command = new_command("RPUSH");
    push_text(&mut command, list);
    push_text(&mut command, payload);
    assert(command_args(command) =~= (Request::Append { list: list@, payload: payload@ }).args());
    command
}

/// The command that removes the head of the list `list` and waits up to
/// `timeout_secs` seconds for one to be there.
pub fn pop_command(list: &str, timeout_secs: u32) -> (command: redis::Cmd)
    ensures
        command_args(command) == (Request::TakeHead {
            list: list@,
            timeout_secs: timeout_secs as nat,
        }).args(),
{
    let mut command = new_command("BLPOP");
    push_text(&mut command, list);
    push_integer(&mut command, timeout_secs as i64);
    assert(command_args(command) =~= (Request::TakeHead {
        list: list@,
        timeout_secs: timeout_secs as nat,
    }).args());
    command
}

/// The command that sets `key` to `value`.
fn set_command(key: &str, value: i32) -> (command: redis::Cmd)
    ensures
        command_args(command) == (Request::Assign { key: key@, value: value as int }).args(),
{
    let mut command = new_command("SET");
    push_text(&mut command, key);
    push_integer(&mut command, value as i64);
    assert(command_args(command) =~= (Request::Assign { key: key@, value: value as int }).args());
    command
}

/// The command that reads `key`.
fn get_command(key: &str) -> (command: redis::Cmd)
    ensures
        command_args(command) == (Request::Read { key: key@ }).args(),
{
    let mut command = new_command("GET");
    push_text(&mut command, key);
    assert(command_args(command) =~= (Request::Read { key: key@ }).args());
    command
}

/// The command that adds one to `key`.
fn increment_command(key: &str) -> (command: redis::Cmd)
    ensures
        command_args(command) == (Request::Increment { key: key@ }).args(),
{
    let mut command = new_command("INCR");
    push_text(&mut command, key);
    assert(command_args(command) =~= (Request::Increment { key: key@ }).args());
    command
}

/// The counter batch for `key`: an atomic pipeline that sets the key to
/// `initial`, reads it, adds one and reads it again, and whose result holds
/// the two values read.
pub fn counter_batch(key: &str, initial: i32) -> (batch: redis::Pipeline)
    ensures
        pipeline_atomic(batch),
        pipeline_steps(batch) == batch_steps(counter_requests(key@, initial as int)),
{
    let mut batch = new_pipeline();
    set_atomic(&mut batch);
    queue_command(&mut batch, set_command(key, initial));
    ignore_last(&mut batch);
    queue_command(&mut batch, get_command(key));
    queue_command(&mut batch, increment_command(key));
    ignore_last(&mut batch);
    queue_command(&mut batch, get_command(key));
    assert(pipeline_steps(batch) =~= batch_steps(counter_requests(key@, initial as int)));
    batch
}

} // verus!
