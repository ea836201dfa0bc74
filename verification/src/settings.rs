//! The fixed settings of the relay.

use vstd::prelude::*;

verus! {

/// The address of the store.
pub const STORE_ADDRESS: &'static str = "redis://127.0.0.1:6379";

/// The key of the list through which the messages pass.
pub const LIST_KEY: &'static str = "queue";

/// The key of the counter that the counter batch works on.
pub const COUNTER_KEY: &'static str = "counter";

/// The value that the counter batch sets the counter to.
pub const COUNTER_INITIAL: i32 = 61;

/// The path of the output sink.
pub const SINK_PATH: &'static str = "test/output.txt";

/// How many messages the producer sends, and how many the consumer waits
/// for.
pub const MESSAGE_COUNT: u32 = 50;

/// How long the producer rests after each message, in milliseconds.
pub const PRODUCER_PAUSE_MILLIS: u64 = 150;

/// How long the consumer rests after each message, in milliseconds.
pub const CONSUMER_PAUSE_MILLIS: u64 = 200;

/// How long the consumer waits for a message before it gives up, in
/// seconds.
pub const POP_TIMEOUT_SECS: u32 = 60;

} // verus!
