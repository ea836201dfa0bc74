//! The consumer: what it does next, and what becomes of it once that is
//! done.
//!
//! The consumer itself performs nothing. Whoever runs it asks for the
//! pending action, carries it out, and reports what came of it.

use vstd::prelude::*;
use crate::failure::Failure;
use crate::message::{line_text, output_line, received_notice, received_notice_text};
use crate::settings::{CONSUMER_PAUSE_MILLIS, LIST_KEY, POP_TIMEOUT_SECS, SINK_PATH};

verus! {

/// Where the consumer stands within its run.
#[derive(Clone, Copy, PartialEq, Eq, Debug, Structural)]
pub enum ConsumerPhase {
    /// About to create the output sink.
    Open,
    /// About to get a connection for the next message.
    Acquire,
    /// About to take the next message from the list.
    Pop,
    /// About to write the message just taken to the sink.
    Write,
    /// About to announce the message just written and rest.
    Rest,
    /// Every message is received and written.
    Finished,
    /// A step failed.
    Aborted(Failure),
}

/// The consumer as a mathematical value.
pub struct ConsumerState {
    /// How many messages are to be received.
    pub count: nat,
    /// How many messages were taken from the list so far.
    pub received: nat,
    /// The current phase.
    pub phase: ConsumerPhase,
    /// The payload taken last; empty before the first.
    pub held: Seq<char>,
}

/// What is reported to the consumer, as a mathematical value.
pub enum ConsumerInput {
    /// The pending action is done, and it was not the taking of a message.
    Done,
    /// The list gave this payload.
    Popped(Seq<char>),
    /// The pending action failed.
    Failed(Failure),
}

/// An action of the consumer as a mathematical value.
pub enum ConsumerStep {
    /// Create the output sink at `path`, empty.
    Open { path: Seq<char> },
    /// Get a connection from the shared handle.
    Acquire,
    /// Take the head of the list `list`, waiting up to `timeout_secs`
    /// seconds for one to be there.
    Pop { list: Seq<char>, timeout_secs: nat },
    /// Append `line` to the output sink.
    Write { line: Seq<char> },
    /// Give `notice`, then rest for `millis` milliseconds.
    Rest { notice: Seq<char>, millis: nat },
    /// Stop: the run is complete.
    Stop,
    /// Stop: the run has failed.
    Abort(Failure),
}

impl ConsumerState {
    /// The consumer before its first action.
    pub open spec fn initial(count: nat) -> ConsumerState {
        ConsumerState { count, received: 0, phase: ConsumerPhase::Open, held: Seq::empty() }
    }

    /// What holds of every consumer: it never takes more than it was asked
    /// to, has taken nothing before the sink is there, waits for a message
    /// only while one is owed, and is finished only when none is.
    pub open spec fn wf(self) -> bool {
        &&& self.received <= self.count
        &&& self.phase is Open ==> self.received == 0
        &&& (self.phase is Acquire || self.phase is Pop) ==> self.received < self.count
        &&& (self.phase is Write || self.phase is Rest) ==> self.received >= 1
        &&& self.phase is Finished ==> self.received == self.count
    }

    /// Whether the run is over, one way or the other.
    pub open spec fn ended(self) -> bool {
        self.phase is Finished || self.phase is Aborted
    }

    /// The phase in which a round begins: the wait for the next message, or
    /// the end if none is owed.
    pub open spec fn round_start(self) -> ConsumerPhase {
        if self.received == self.count {
            ConsumerPhase::Finished
        } else {
            ConsumerPhase::Acquire
        }
    }

    /// The pending action.
    pub open spec fn step(self) -> ConsumerStep {
        match self.phase {
            ConsumerPhase::Open => ConsumerStep::Open { path: SINK_PATH@ },
            ConsumerPhase::Acquire => ConsumerStep::Acquire,
            ConsumerPhase::Pop => ConsumerStep::Pop {
                list: LIST_KEY@,
                timeout_secs: POP_TIMEOUT_SECS as nat,
            },
            ConsumerPhase::Write => ConsumerStep::Write { line: line_text(self.held) },
            ConsumerPhase::Rest => ConsumerStep::Rest {
                notice: received_notice_text(self.held),
                millis: CONSUMER_PAUSE_MILLIS as nat,
            },
            ConsumerPhase::Finished => ConsumerStep::Stop,
            ConsumerPhase::Aborted(failure) => ConsumerStep::Abort(failure),
        }
    }

    /// The consumer after the reports of `inputs`, taken in order.
    pub open spec fn after_inputs(self, inputs: Seq<ConsumerInput>) -> ConsumerState
        decreases inputs.len(),
    {
        if inputs.len() == 0 {
            self
        } else {
            self.after_inputs(inputs.drop_last()).advance(inputs.last())
        }
    }

    /// The consumer after `input` was reported to it. A failure aborts the
    /// run. A payload counts only while a message is waited for, and then
    /// nothing else does: a report that does not answer the pending action
    /// changes nothing. Once the run is over nothing changes any more.
    pub open spec fn advance(self, input: ConsumerInput) -> ConsumerState {
        if self.ended() {
            self
        } else {
            match input {
                ConsumerInput::Failed(failure) => ConsumerState {
                    phase: ConsumerPhase::Aborted(failure),
                    ..self
                },
                ConsumerInput::Popped(payload) => if self.phase is Pop {
                    ConsumerState {
                        received: self.received + 1,
                        phase: ConsumerPhase::Write,
                        held: payload,
                        ..self
                    }
                } else {
                    self
                },
                ConsumerInput::Done => match self.phase {
                    ConsumerPhase::Open => ConsumerState { phase: self.round_start(), ..self },
                    ConsumerPhase::Acquire => ConsumerState { phase: ConsumerPhase::Pop, ..self },
                    ConsumerPhase::Write => ConsumerState { phase: ConsumerPhase::Rest, ..self },
                    ConsumerPhase::Rest => ConsumerState { phase: self.round_start(), ..self },
                    _ => self,
                },
            }
        }
    }
}

/// A consumer that is well formed stays so, keeps its count, and its number
/// of messages taken never falls and rises by one at most: by one exactly
/// when a payload came while it waited for one.
pub proof fn law_consumer_progress(state: ConsumerState, input: ConsumerInput)
    requires
        state.wf(),
    ensures
        ConsumerState::initial(state.count).wf(),
        state.advance(input).wf(),
        state.advance(input).count == state.count,
        state.advance(input).received == state.received + (if state.phase is Pop
            && input is Popped {
            1nat
        } else {
            0nat
        }),
{
}

/// The reports of a run in which nothing fails and the list gives the
/// payloads of `taken`, in order: the sink is opened, and then each round
/// reports a connection, a payload, a line written and a rest.
pub open spec fn unfailing_inputs(taken: Seq<Seq<char>>) -> Seq<ConsumerInput>
    decreases taken.len(),
{
    if taken.len() == 0 {
        seq![ConsumerInput::Done]
    } else {
        unfailing_inputs(taken.drop_last()).push(ConsumerInput::Done).push(
            ConsumerInput::Popped(taken.last()),
        ).push(ConsumerInput::Done).push(ConsumerInput::Done)
    }
}

/// A consumer that meets no failure opens the sink and then works in rounds
/// of four actions: it gets a connection, takes a payload, writes the
/// payload's line, and rests. After as many rounds as it was to take
/// messages, and not before, it is finished.
pub proof fn law_consumer_rounds(count: nat, taken: Seq<Seq<char>>)
    requires
        taken.len() <= count,
    ensures
        ConsumerState::initial(count).after_inputs(unfailing_inputs(taken)) == (ConsumerState {
            count,
            received: taken.len(),
            phase: if taken.len() == count {
                ConsumerPhase::Finished
            } else {
                ConsumerPhase::Acquire
            },
            held: if taken.len() == 0 {
                Seq::empty()
            } else {
                taken.last()
            },
        }),
        taken.len() > 0 ==> ConsumerState::initial(count).after_inputs(
            unfailing_inputs(taken).drop_last().drop_last(),
        ).step() == (ConsumerStep::Write { line: line_text(taken.last()) }),
    decreases taken.len(),
{
    let start = ConsumerState::initial(count);
    if taken.len() == 0 {
        let inputs = seq![ConsumerInput::Done];
        assert(inputs.drop_last() =~= Seq::<ConsumerInput>::empty());
        assert(start.after_inputs(inputs.drop_last()) == start);
    } else {
        law_consumer_rounds(count, taken.drop_last());
        let i0 = unfailing_inputs(taken.drop_last());
        let i1 = i0.push(ConsumerInput::Done);
        let i2 = i1.push(ConsumerInput::Popped(taken.last()));
        let i3 = i2.push(ConsumerInput::Done);
        let i4 = i3.push(ConsumerInput::Done);
        assert(i1.drop_last() =~= i0);
        assert(i2.drop_last() =~= i1);
        assert(i3.drop_last() =~= i2);
        assert(i4.drop_last() =~= i3);
        assert(start.after_inputs(i1).phase is Pop);
        assert(start.after_inputs(i2).phase is Write);
        assert(start.after_inputs(i3).phase is Rest);
        assert(unfailing_inputs(taken).drop_last().drop_last() =~= i2);
    }
}

/// Every message is waited for on a connection got just before: the
/// consumer comes to take a message from getting a connection and from
/// nowhere else.
pub proof fn law_consumer_takes_on_fresh_connection(state: ConsumerState, input: ConsumerInput)
    requires
        state.advance(input).phase is Pop,
        !(state.phase is Pop),
    ensures
        state.phase is Acquire,
        input is Done,
{
}

/// Any failure is fatal, a wait that ran out like any other: a consumer
/// still at work that is told of a failure aborts with it, and a consumer
/// whose run is over stays as it is.
pub proof fn law_consumer_failure_is_fatal(
    state: ConsumerState,
    failure: Failure,
    input: ConsumerInput,
)
    ensures
        !state.ended() ==> state.advance(ConsumerInput::Failed(failure)).phase
            == ConsumerPhase::Aborted(failure),
        !state.ended() ==> state.advance(pop_input(None)).phase == ConsumerPhase::Aborted(
            Failure::Timeout,
        ),
        state.ended() ==> state.advance(input) == state,
{
}

/// What is reported to the consumer.
#[derive(Clone, PartialEq, Eq, Debug)]
pub enum ConsumerEvent {
    /// The pending action is done, and it was not the taking of a message.
    Done,
    /// The list gave this payload.
    Popped(String),
    /// The pending action failed.
    Failed(Failure),
}

impl View for ConsumerEvent {
    type V = ConsumerInput;

    open spec fn view(&self) -> ConsumerInput {
        match self {
            ConsumerEvent::Done => ConsumerInput::Done,
            ConsumerEvent::Popped(payload) => ConsumerInput::Popped(payload@),
            ConsumerEvent::Failed(failure) => ConsumerInput::Failed(*failure),
        }
    }
}

/// An action that whoever runs the consumer carries out.
#[derive(Clone, PartialEq, Eq, Debug)]
pub enum ConsumerAction {
    /// Create the output sink at `path`, empty.
    Open { path: String },
    /// Get a connection from the shared handle.
    Acquire,
    /// Take the head of the list `list`, waiting up to `timeout_secs`
    /// seconds for one to be there.
    Pop { list: String, timeout_secs: u32 },
    /// Append `line` to the output sink.
    Write { line: String },
    /// Give `notice`, then rest for `millis` milliseconds.
    Rest { notice: String, millis: u64 },
    /// Stop: the run is complete.
    Stop,
    /// Stop: the run has failed.
    Abort(Failure),
}

impl View for ConsumerAction {
    type V = ConsumerStep;

    open spec fn view(&self) -> ConsumerStep {
        match self {
            ConsumerAction::Open { path } => ConsumerStep::Open { path: path@ },
            ConsumerAction::Acquire => ConsumerStep::Acquire,
            ConsumerAction::Pop { list, timeout_secs } => ConsumerStep::Pop {
                list: list@,
                timeout_secs: *timeout_secs as nat,
            },
            ConsumerAction::Write { line } => ConsumerStep::Write { line: line@ },
            ConsumerAction::Rest { notice, millis } => ConsumerStep::Rest {
                notice: notice@,
                millis: *millis as nat,
            },
            ConsumerAction::Stop => ConsumerStep::Stop,
            ConsumerAction::Abort(failure) => ConsumerStep::Abort(*failure),
        }
    }
}

/// What the store's answer to the taking of a message means to the
/// consumer. The store answers with the list's key and the payload, or with
/// nothing when the wait ran out.
pub open spec fn pop_input(reply: Option<(Seq<char>, Seq<char>)>) -> ConsumerInput {
    match reply {
        Some(pair) => ConsumerInput::Popped(pair.1),
        None => ConsumerInput::Failed(Failure::Timeout),
    }
}

/// Turns the store's answer to the taking of a message into the report for
/// the consumer: the payload, or a timeout when the answer is empty.
pub fn pop_event(reply: Option<(String, String)>) -> (event: ConsumerEvent)
    ensures
        event@ == pop_input(
            match reply {
                Some(pair) => Some((pair.0@, pair.1@)),
                None => None,
            },
        ),
{
    match reply {
        Some(pair) => ConsumerEvent::Popped(pair.1),
        None => ConsumerEvent::Failed(Failure::Timeout),
    }
}

/// The consumer: takes a fixed number of messages from the list, one at a
/// time, and writes each to the output sink.
#[derive(Debug)]
pub struct Consumer {
    count: u32,
    received: u32,
    phase: ConsumerPhase,
    held: String,
}

impl View for Consumer {
    type V = ConsumerState;

    closed spec fn view(&self) -> ConsumerState {
        ConsumerState {
            count: self.count as nat,
            received: self.received as nat,
            phase: self.phase,
            held: self.held@,
        }
    }
}

impl Consumer {
    #[verifier::type_invariant]
    spec fn inv(self) -> bool {
        self@.wf()
    }

    /// A consumer that will take `count` messages.
    pub fn new(count: u32) -> (consumer: Consumer)
        ensures
            consumer@ == ConsumerState::initial(count as nat),
    {
        Consumer { count, received: 0, phase: ConsumerPhase::Open, held: String::new() }
    }

    /// How many messages are to be received.
    pub fn count(&self) -> (count: u32)
        ensures
            count == self@.count,
    {
        self.count
    }

    /// How many messages were taken from the list so far.
    pub fn received(&self) -> (received: u32)
        ensures
            received == self@.received,
            self@.wf(),
    {
        proof {
            use_type_invariant(self);
        }
        self.received
    }

    /// The current phase.
    pub fn phase(&self) -> (phase: ConsumerPhase)
        ensures
            phase == self@.phase,
    {
        self.phase
    }

    /// The pending action.
    pub fn action(&self) -> (action: ConsumerAction)
        ensures
            action@ == self@.step(),
    {
        match self.phase {
            ConsumerPhase::Open => ConsumerAction::Open { path: String::from_str(SINK_PATH) },
            ConsumerPhase::Acquire => ConsumerAction::Acquire,
            ConsumerPhase::Pop => ConsumerAction::Pop {
                list: String::from_str(LIST_KEY),
                timeout_secs: POP_TIMEOUT_SECS,
            },
            ConsumerPhase::Write => ConsumerAction::Write { line: output_line(self.held.as_str()) },
            ConsumerPhase::Rest => ConsumerAction::Rest {
                notice: received_notice(self.held.as_str()),
                millis: CONSUMER_PAUSE_MILLIS,
            },
            ConsumerPhase::Finished => ConsumerAction::Stop,
            ConsumerPhase::Aborted(failure) => ConsumerAction::Abort(failure),
        }
    }

    /// The phase in which a round begins.
    fn round_start(&self) -> (phase: ConsumerPhase)
        ensures
            phase == self@.round_start(),
    {
        if self.received == self.count {
            ConsumerPhase::Finished
        } else {
            ConsumerPhase::Acquire
        }
    }

    /// Records what came of the pending action.
    pub fn advance(&mut self, event: ConsumerEvent)
        ensures
            final(self)@ == old(self)@.advance(event@),
    {
        proof {
            use_type_invariant(&*self);
        }
        match self.phase {
            ConsumerPhase::Finished => {},
            ConsumerPhase::Aborted(_) => {},
            phase => match event {
                ConsumerEvent::Failed(failure) => {
                    self.phase = ConsumerPhase::Aborted(failure);
                },
                ConsumerEvent::Popped(payload) => match phase {
                    ConsumerPhase::Pop => {
                        *self = Consumer {
                            count: self.count,
                            received: self.received + 1,
                            phase: ConsumerPhase::Write,
                            held: payload,
                        };
                    },
                    _ => {},
                },
                ConsumerEvent::Done => match phase {
                    ConsumerPhase::Open => {
                        self.phase = self.round_start();
                    },
                    ConsumerPhase::Acquire => {
                        self.phase = ConsumerPhase::Pop;
                    },
                    ConsumerPhase::Write => {
                        self.phase = ConsumerPhase::Rest;
                    },
                    ConsumerPhase::Rest => {
                        self.phase = self.round_start();
                    },
                    _ => {},
                },
            },
        }
    }
}

} // verus!
