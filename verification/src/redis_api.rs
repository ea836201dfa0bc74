//! The calls that this library makes into the `redis` crate.
//!
//! Nothing in this file is proved. Each item states what the rest of the
//! library takes for granted about one function of `redis`, and the doc
//! comment above it says which function that is.

use vstd::prelude::*;
use vstd::utf8::encode_utf8;
use crate::settings::STORE_ADDRESS;

verus! {

/// `redis::Cmd`: one command for the store, under construction or complete.
#[verifier::external_type_specification]
#[verifier::external_body]
pub struct ExCmd(redis::Cmd);

/// `redis::Pipeline`: commands queued to be sent in one go.
#[verifier::external_type_specification]
#[verifier::external_body]
pub struct ExPipeline(redis::Pipeline);

/// `redis::Client`: a checked address from which connections are opened.
#[verifier::external_type_specification]
#[verifier::external_body]
pub struct ExClient(redis::Client);

/// `redis::RedisError`: the error of every fallible `redis` call.
#[verifier::external_type_specification]
#[verifier::external_body]
pub struct ExRedisError(redis::RedisError);

/// What a `redis::Cmd` holds: its arguments as `Cmd::args_iter` yields them,
/// the command's name first, each argument as its bytes. The commands of
/// this library hold such arguments only, never a cursor.
pub uninterp spec fn command_args(command: redis::Cmd) -> Seq<Seq<u8>>;

/// What a `redis::Pipeline` holds: its commands as `Pipeline::cmd_iter`
/// yields them, oldest first, each as its arguments (see `command_args`)
/// paired with whether `Pipeline::ignore` has marked it. The reply to a
/// marked command is left out of the result of a query.
pub uninterp spec fn pipeline_steps(pipeline: redis::Pipeline) -> Seq<(Seq<Seq<u8>>, bool)>;

/// What `Pipeline::is_transaction` returns: whether the pipeline is sent
/// enclosed in `MULTI` and `EXEC`.
pub uninterp spec fn pipeline_atomic(pipeline: redis::Pipeline) -> bool;

/// `redis::cmd`: a new command whose only argument is `name`, as the bytes
/// of the string.
#[verifier::external_body]
pub(crate) fn new_command(name: &str) -> (command: redis::Cmd)
    ensures
        command_args(command) == seq![encode_utf8(name@)],
{
    redis::cmd(name)
}

/// `Cmd::arg` with a `&str`: appends the bytes of the string as one more
/// argument.
#[verifier::external_body]
pub(crate) fn push_text(command: &mut redis::Cmd, text: &str)
    ensures
        command_args(*final(command)) == command_args(*old(command)).push(encode_utf8(text@)),
{
    command.arg(text);
}

/// `Cmd::arg` with an `i64`: appends one more argument, the integer as
/// `itoa` prints it: in decimal notation, with a minus sign before a
/// negative one.
#[verifier::external_body]
pub(crate) fn push_integer(command: &mut redis::Cmd, value: i64)
    ensures
        command_args(*final(command)) == command_args(*old(command)).push(
            encode_utf8(crate::decimal::signed_decimal(value as int)),
        ),
{
    command.arg(value);
}

/// `redis::pipe`: an empty pipeline, not atomic.
#[verifier::external_body]
pub(crate) fn new_pipeline() -> (pipeline: redis::Pipeline)
    ensures
        pipeline_steps(pipeline) == Seq::<(Seq<Seq<u8>>, bool)>::empty(),
        !pipeline_atomic(pipeline),
{
    redis::pipe()
}

/// `Pipeline::atomic`: switches atomic mode on and leaves the queued
/// commands as they are.
#[verifier::external_body]
pub(crate) fn set_atomic(pipeline: &mut redis::Pipeline)
    ensures
        pipeline_atomic(*final(pipeline)),
        pipeline_steps(*final(pipeline)) == pipeline_steps(*old(pipeline)),
{
    pipeline.atomic();
}

/// `Pipeline::add_command`: queues `command` behind the others, not marked,
/// and leaves the mode as it is.
#[verifier::external_body]
pub(crate) fn queue_command(pipeline: &mut redis::Pipeline, command: redis::Cmd)
    ensures
        pipeline_steps(*final(pipeline)) == pipeline_steps(*old(pipeline)).push(
            (command_args(command), false),
        ),
        pipeline_atomic(*final(pipeline)) == pipeline_atomic(*old(pipeline)),
{
    pipeline.add_command(command);
}

/// `Pipeline::ignore`: marks the command queued last, if there is one, and
/// changes nothing else.
#[verifier::external_body]
pub(crate) fn ignore_last(pipeline: &mut redis::Pipeline)
    ensures
        pipeline_steps(*final(pipeline)) == (if pipeline_steps(*old(pipeline)).len() == 0 {
            pipeline_steps(*old(pipeline))
        } else {
            pipeline_steps(*old(pipeline)).update(
                pipeline_steps(*old(pipeline)).len() - 1,
                (pipeline_steps(*old(pipeline)).last().0, true),
            )
        }),
        pipeline_atomic(*final(pipeline)) == pipeline_atomic(*old(pipeline)),
{
    pipeline.ignore();
}

/// `Client::open` with a `&str`: checks the address without reaching for
/// the store. The fixed address of this library passes: its scheme is
/// `redis`, its host a plain IPv4 address that is no wildcard, and it has a
/// port and neither path, user nor query. Of other addresses nothing is
/// stated, and the answer has no name: it is not a matter of the address
/// alone, since an address of a Unix socket passes on Unix only and an
/// address that asks for TLS only where `redis` was built with it.
#[verifier::external_body]
pub(crate) fn open_client(address: &str) -> (opened: Result<redis::Client, redis::RedisError>)
    ensures
        address@ == STORE_ADDRESS@ ==> opened is Ok,
{
    redis::Client::open(address)
}

} // verus!
