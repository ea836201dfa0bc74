//! The texts of the relay: payloads, lines of the output sink, notices.

use vstd::prelude::*;
use crate::failure::Failure;
use crate::decimal::{
    append_decimal, append_signed_decimal, decimal, lemma_decimal_digits,
    lemma_decimal_injective, signed_decimal,
};

verus! {

/// The payload of the message with sequence index `index`.
pub open spec fn message_text(index: nat) -> Seq<char> {
    "message_"@ + decimal(index)
}

/// The line that the output sink gets for `payload`.
pub open spec fn line_text(payload: Seq<char>) -> Seq<char> {
    payload + "\n"@
}

/// The notice that the producer gives once `payload` is sent.
pub open spec fn sent_notice_text(payload: Seq<char>) -> Seq<char> {
    "PRODUCER:: sent '"@ + payload + "'"@
}

/// The notice that the consumer gives once `payload` is received.
pub open spec fn received_notice_text(payload: Seq<char>) -> Seq<char> {
    "CONSUMER:: received '"@ + payload + "'"@
}

/// The notice on the two values that the counter batch read.
pub open spec fn counter_notice_text(before: int, after: int) -> Seq<char> {
    "Created variable with value = "@ + signed_decimal(before) + ". After incrementing = "@
        + signed_decimal(after)
}

/// The diagnostic for a store that could not be reached, `detail` being the
/// error's own text.
pub open spec fn connect_failure_text(detail: Seq<char>) -> Seq<char> {
    "Could not connect to database: "@ + detail
}

/// The diagnostic for a request of the set-up that the store answered with
/// an error, `detail` being the error's own text.
pub open spec fn store_failure_text(detail: Seq<char>) -> Seq<char> {
    "The database refused a request: "@ + detail
}

/// The diagnostic for a step of the producer that failed.
pub open spec fn producer_failure_text(detail: Seq<char>) -> Seq<char> {
    "PRODUCER:: failed: "@ + detail
}

/// The diagnostic for a step of the consumer that failed.
pub open spec fn consumer_failure_text(detail: Seq<char>) -> Seq<char> {
    "CONSUMER:: failed: "@ + detail
}

/// What a failure is called in a diagnostic.
pub open spec fn failure_text(failure: Failure) -> Seq<char> {
    match failure {
        Failure::Connection => "no connection"@,
        Failure::Store => "store error"@,
        Failure::Timeout => "timeout"@,
        Failure::LocalIo => "output error"@,
    }
}

/// How a task ended, in a diagnostic: the name of its failure, or that it
/// finished.
pub open spec fn task_end_text(end: Option<Failure>) -> Seq<char> {
    match end {
        Some(failure) => failure_text(failure),
        None => "finished"@,
    }
}

/// The diagnostic for a run in which a task aborted.
pub open spec fn run_failure_text(producer: Option<Failure>, consumer: Option<Failure>) -> Seq<
    char,
> {
    "The run failed: producer "@ + task_end_text(producer) + ", consumer "@ + task_end_text(
        consumer,
    )
}

/// The payload of the message with sequence index `index`.
pub fn message(index: u32) -> (payload: String)
    ensures
        payload@ == message_text(index as nat),
{
    let mut payload = String::from_str("message_");
    append_decimal(&mut payload, index as u64);
    payload
}

/// The line that the output sink gets for `payload`: the payload and a
/// newline.
pub fn output_line(payload: &str) -> (line: String)
    ensures
        line@ == line_text(payload@),
{
    let mut line = String::from_str(payload);
    line.append("\n");
    line
}

/// The notice that the producer gives once `payload` is sent.
pub fn sent_notice(payload: &str) -> (notice: String)
    ensures
        notice@ == sent_notice_text(payload@),
{
    let mut notice = String::from_str("PRODUCER:: sent '");
    notice.append(payload);
    notice.append("'");
    notice
}

/// The notice that the consumer gives once `payload` is received.
pub fn received_notice(payload: &str) -> (notice: String)
    ensures
        notice@ == received_notice_text(payload@),
{
    let mut notice = String::from_str("CONSUMER:: received '");
    notice.append(payload);
    notice.append("'");
    notice
}

/// The notice on the two values that the counter batch read.
pub fn counter_notice(before: i32, after: i32) -> (notice: String)
    ensures
        notice@ == counter_notice_text(before as int, after as int),
{
    let mut notice = String::from_str("Created variable with value = ");
    append_signed_decimal(&mut notice, before as i64);
    notice.append(". After incrementing = ");
    append_signed_decimal(&mut notice, after as i64);
    notice
}

/// The diagnostic for a store that could not be reached.
pub fn connect_failure_notice(detail: &str) -> (notice: String)
    ensures
        notice@ == connect_failure_text(detail@),
{
    let mut notice = String::from_str("Could not connect to database: ");
    notice.append(detail);
    notice
}

/// The diagnostic for a request of the set-up that the store answered with
/// an error.
pub fn store_failure_notice(detail: &str) -> (notice: String)
    ensures
        notice@ == store_failure_text(detail@),
{
    let mut notice = String::from_str("The database refused a request: ");
    notice.append(detail);
    notice
}

/// The diagnostic for a step of the producer that failed.
pub fn producer_failure_notice(detail: &str) -> (notice: String)
    ensures
        notice@ == producer_failure_text(detail@),
{
    let mut notice = String::from_str("PRODUCER:: failed: ");
    notice.append(detail);
    notice
}

/// The diagnostic for a step of the consumer that failed.
pub fn consumer_failure_notice(detail: &str) -> (notice: String)
    ensures
        notice@ == consumer_failure_text(detail@),
{
    let mut notice = String::from_str("CONSUMER:: failed: ");
    notice.append(detail);
    notice
}

/// What a failure is called in a diagnostic.
pub fn failure_name(failure: Failure) -> (name: &'static str)
    ensures
        name@ == failure_text(failure),
{
    match failure {
        Failure::Connection => "no connection",
        Failure::Store => "store error",
        Failure::Timeout => "timeout",
        Failure::LocalIo => "output error",
    }
}

/// How a task ended, in a diagnostic.
fn task_end_name(end: Option<Failure>) -> (name: &'static str)
    ensures
        name@ == task_end_text(end),
{
    match end {
        Some(failure) => failure_name(failure),
        None => "finished",
    }
}

/// The diagnostic for a run in which a task aborted.
pub fn run_failure_notice(producer: Option<Failure>, consumer: Option<Failure>) -> (notice: String)
    ensures
        notice@ == run_failure_text(producer, consumer),
{
    let mut notice = String::from_str("The run failed: producer ");
    notice.append(task_end_name(producer));
    notice.append(", consumer ");
    notice.append(task_end_name(consumer));
    notice
}

/// Messages with different sequence indices have different payloads.
pub proof fn lemma_message_text_injective(i: nat, j: nat)
    requires
        message_text(i) == message_text(j),
    ensures
        i == j,
{
    let prefix = "message_"@;
    assert(decimal(i) =~= message_text(i).subrange(prefix.len() as int, message_text(i).len() as int));
    assert(decimal(j) =~= message_text(j).subrange(prefix.len() as int, message_text(j).len() as int));
    lemma_decimal_injective(i, j);
}

/// A message's payload holds no newline, so the line written for it is one
/// line of the sink and no more.
pub proof fn lemma_message_text_has_no_newline(index: nat)
    ensures
        forall|k: int|
            0 <= k < message_text(index).len() ==> #[trigger] message_text(index)[k] != '\n',
{
    reveal_strlit("message_");
    lemma_decimal_digits(index);
    let prefix = "message_"@;
    let text = message_text(index);
    assert forall|k: int| 0 <= k < text.len() implies #[trigger] text[k] != '\n' by {
        if k >= prefix.len() {
            assert(text[k] == decimal(index)[k - prefix.len()]);
        }
    }
}

/// Different payloads give different lines.
pub proof fn lemma_line_text_injective(a: Seq<char>, b: Seq<char>)
    requires
        line_text(a) == line_text(b),
    ensures
        a == b,
{
    let newline = "\n"@;
    assert(a =~= line_text(a).subrange(0, line_text(a).len() - newline.len()));
    assert(b =~= line_text(b).subrange(0, line_text(b).len() - newline.len()));
}

} // verus!
