//! The producer: what it does next, and what becomes of it once that is
//! done.
//!
//! The producer itself performs nothing. Whoever runs it asks for the
//! pending action, carries it out, and reports how it went.

use vstd::prelude::*;
use crate::failure::Failure;
use crate::message::{message, message_text, sent_notice, sent_notice_text};
use crate::settings::{LIST_KEY, PRODUCER_PAUSE_MILLIS};

verus! {

/// Where the producer stands within its run.
#[derive(Clone, Copy, PartialEq, Eq, Debug, Structural)]
pub enum ProducerPhase {
    /// About to get a connection for the next message.
    Acquire,
    /// About to append the next message to the list.
    Send,
    /// About to announce the message just sent and rest.
    Rest,
    /// Every message is sent.
    Finished,
    /// A step failed.
    Aborted(Failure),
}

/// The producer as a mathematical value.
pub struct ProducerState {
    /// How many messages are to be sent.
    pub count: nat,
    /// How many messages the list has received so far.
    pub sent: nat,
    /// The current phase.
    pub phase: ProducerPhase,
}

/// An action of the producer as a mathematical value.
pub enum ProducerStep {
    /// Get a connection from the shared handle.
    Acquire,
    /// Append `payload` at the tail of the list `list`.
    Send { list: Seq<char>, payload: Seq<char> },
    /// Give `notice`, then rest for `millis` milliseconds.
    Rest { notice: Seq<char>, millis: nat },
    /// Stop: the run is complete.
    Stop,
    /// Stop: the run has failed.
    Abort(Failure),
}

impl ProducerState {
    /// The producer before its first action.
    pub open spec fn initial(count: nat) -> ProducerState {
        ProducerState {
            count,
            sent: 0,
            phase: if count == 0 {
                ProducerPhase::Finished
            } else {
                ProducerPhase::Acquire
            },
        }
    }

    /// What holds of every producer: it never sends more than it was asked
    /// to, works on a message only while one is left, and is finished only
    /// when none is.
    pub open spec fn wf(self) -> bool {
        &&& self.sent <= self.count
        &&& (self.phase is Acquire || self.phase is Send) ==> self.sent < self.count
        &&& self.phase is Rest ==> self.sent >= 1
        &&& self.phase is Finished ==> self.sent == self.count
    }

    /// Whether the run is over, one way or the other.
    pub open spec fn ended(self) -> bool {
        self.phase is Finished || self.phase is Aborted
    }

    /// The pending action.
    pub open spec fn step(self) -> ProducerStep {
        match self.phase {
            ProducerPhase::Acquire => ProducerStep::Acquire,
            ProducerPhase::Send => ProducerStep::Send {
                list: LIST_KEY@,
                payload: message_text(self.sent),
            },
            ProducerPhase::Rest => ProducerStep::Rest {
                notice: sent_notice_text(message_text((self.sent - 1) as nat)),
                millis: PRODUCER_PAUSE_MILLIS as nat,
            },
            ProducerPhase::Finished => ProducerStep::Stop,
            ProducerPhase::Aborted(failure) => ProducerStep::Abort(failure),
        }
    }

    /// The producer after `successes` actions in a row that all went well.
    pub open spec fn after_successes(self, successes: nat) -> ProducerState
        decreases successes,
    {
        if successes == 0 {
            self
        } else {
            self.after_successes((successes - 1) as nat).advance(Ok(()))
        }
    }

    /// The producer after its pending action went as `outcome` says. A
    /// failure aborts the run; once the run is over nothing changes any
    /// more.
    pub open spec fn advance(self, outcome: Result<(), Failure>) -> ProducerState {
        if self.ended() {
            self
        } else {
            match outcome {
                Err(failure) => ProducerState { phase: ProducerPhase::Aborted(failure), ..self },
                Ok(_) => match self.phase {
                    ProducerPhase::Acquire => ProducerState { phase: ProducerPhase::Send, ..self },
                    ProducerPhase::Send => ProducerState {
                        sent: self.sent + 1,
                        phase: ProducerPhase::Rest,
                        ..self
                    },
                    _ => ProducerState {
                        phase: if self.sent == self.count {
                            ProducerPhase::Finished
                        } else {
                            ProducerPhase::Acquire
                        },
                        ..self
                    },
                },
            }
        }
    }
}

/// A producer that is well formed stays so, keeps its count, and its number
/// of messages sent never falls and rises by one at most: by one exactly
/// when a send succeeded.
pub proof fn law_producer_progress(state: ProducerState, outcome: Result<(), Failure>)
    requires
        state.wf(),
    ensures
        ProducerState::initial(state.count).wf(),
        state.advance(outcome).wf(),
        state.advance(outcome).count == state.count,
        state.advance(outcome).sent == state.sent + (if state.phase is Send && outcome is Ok {
            1nat
        } else {
            0nat
        }),
{
}

/// A producer that meets no failure works in rounds of three actions: it
/// gets a connection, sends, and rests. In round `round`, counted from
/// zero, it sends the message of that index to the list; after `count`
/// rounds, and not before, it is finished.
pub proof fn law_producer_rounds(count: nat, round: nat)
    requires
        round <= count,
    ensures
        ProducerState::initial(count).after_successes(3 * round) == (ProducerState {
            count,
            sent: round,
            phase: if round == count {
                ProducerPhase::Finished
            } else {
                ProducerPhase::Acquire
            },
        }),
        round < count ==> {
            &&& ProducerState::initial(count).after_successes(3 * round).step()
                == ProducerStep::Acquire
            &&& ProducerState::initial(count).after_successes(3 * round + 1).step()
                == (ProducerStep::Send { list: LIST_KEY@, payload: message_text(round) })
            &&& ProducerState::initial(count).after_successes(3 * round + 2).step()
                == (ProducerStep::Rest {
                notice: sent_notice_text(message_text(round)),
                millis: PRODUCER_PAUSE_MILLIS as nat,
            })
        },
    decreases round,
{
    let start = ProducerState::initial(count);
    if round > 0 {
        let before = (round - 1) as nat;
        law_producer_rounds(count, before);
        assert(start.after_successes(3 * before + 1) == start.after_successes(3 * before).advance(
            Ok(()),
        ));
        assert(start.after_successes(3 * before + 2) == start.after_successes(
            3 * before + 1,
        ).advance(Ok(())));
        assert(start.after_successes(3 * round) == start.after_successes(3 * before + 2).advance(
            Ok(()),
        ));
    }
    if round < count {
        assert(start.after_successes(3 * round + 1) == start.after_successes(3 * round).advance(
            Ok(()),
        ));
        assert(start.after_successes(3 * round + 2) == start.after_successes(
            3 * round + 1,
        ).advance(Ok(())));
    }
}

/// Every message goes out on a connection got just before it: the producer
/// comes to send from getting a connection and from nowhere else.
pub proof fn law_producer_sends_on_fresh_connection(
    state: ProducerState,
    outcome: Result<(), Failure>,
)
    requires
        state.advance(outcome).phase is Send,
        !(state.phase is Send),
    ensures
        state.phase is Acquire,
        outcome is Ok,
{
}

/// Any failure is fatal: a producer still at work that is told of a failure
/// aborts with it, and a producer whose run is over stays as it is.
pub proof fn law_producer_failure_is_fatal(state: ProducerState, failure: Failure)
    ensures
        !state.ended() ==> state.advance(Err(failure)).phase == ProducerPhase::Aborted(failure),
        state.ended() ==> state.advance(Err(failure)) == state && state.advance(Ok(())) == state,
{
}

/// An action that whoever runs the producer carries out.
#[derive(Clone, PartialEq, Eq, Debug)]
pub enum ProducerAction {
    /// Get a connection from the shared handle.
    Acquire,
    /// Append `payload` at the tail of the list `list`.
    Send { list: String, payload: String },
    /// Give `notice`, then rest for `millis` milliseconds.
    Rest { notice: String, millis: u64 },
    /// Stop: the run is complete.
    Stop,
    /// Stop: the run has failed.
    Abort(Failure),
}

impl View for ProducerAction {
    type V = ProducerStep;

    open spec fn view(&self) -> ProducerStep {
        match self {
            ProducerAction::Acquire => ProducerStep::Acquire,
            ProducerAction::Send { list, payload } => ProducerStep::Send {
                list: list@,
                payload: payload@,
            },
            ProducerAction::Rest { notice, millis } => ProducerStep::Rest {
                notice: notice@,
                millis: *millis as nat,
            },
            ProducerAction::Stop => ProducerStep::Stop,
            ProducerAction::Abort(failure) => ProducerStep::Abort(*failure),
        }
    }
}

/// The producer: sends a fixed number of numbered messages, one at a time.
#[derive(Clone, Copy, Debug)]
pub struct Producer {
    count: u32,
    sent: u32,
    phase: ProducerPhase,
}

impl View for Producer {
    type V = ProducerState;

    closed spec fn view(&self) -> ProducerState {
        ProducerState { count: self.count as nat, sent: self.sent as nat, phase: self.phase }
    }
}

impl Producer {
    #[verifier::type_invariant]
    spec fn inv(self) -> bool {
        self@.wf()
    }

    /// A producer that will send `count` messages.
    pub fn new(count: u32) -> (producer: Producer)
        ensures
            producer@ == ProducerState::initial(count as nat),
    {
        Producer {
            count,
            sent: 0,
            phase: if count == 0 {
                ProducerPhase::Finished
            } else {
                ProducerPhase::Acquire
            },
        }
    }

    /// How many messages are to be sent.
    pub fn count(&self) -> (count: u32)
        ensures
            count == self@.count,
    {
        self.count
    }

    /// How many messages the list has received so far.
    pub fn sent(&self) -> (sent: u32)
        ensures
            sent == self@.sent,
            self@.wf(),
    {
        proof {
            use_type_invariant(self);
        }
        self.sent
    }

    /// The current phase.
    pub fn phase(&self) -> (phase: ProducerPhase)
        ensures
            phase == self@.phase,
    {
        self.phase
    }

    /// The pending action.
    pub fn action(&self) -> (action: ProducerAction)
        ensures
            action@ == self@.step(),
    {
        proof {
            use_type_invariant(self);
        }
        match self.phase {
            ProducerPhase::Acquire => ProducerAction::Acquire,
            ProducerPhase::Send => ProducerAction::Send {
                list: String::from_str(LIST_KEY),
                payload: message(self.sent),
            },
            ProducerPhase::Rest => {
                let payload = message(self.sent - 1);
                ProducerAction::Rest {
                    notice: sent_notice(payload.as_str()),
                    millis: PRODUCER_PAUSE_MILLIS,
                }
            },
            ProducerPhase::Finished => ProducerAction::Stop,
            ProducerPhase::Aborted(failure) => ProducerAction::Abort(failure),
        }
    }

    /// Records how the pending action went.
    pub fn advance(&mut self, outcome: Result<(), Failure>)
        ensures
            final(self)@ == old(self)@.advance(outcome),
    {
        proof {
            use_type_invariant(&*self);
        }
        match self.phase {
            ProducerPhase::Finished => {},
            ProducerPhase::Aborted(_) => {},
            phase => match outcome {
                Err(failure) => {
                    self.phase = ProducerPhase::Aborted(failure);
                },
                Ok(_) => match phase {
                    ProducerPhase::Acquire => {
                        self.phase = ProducerPhase::Send;
                    },
                    ProducerPhase::Send => {
                        *self = Producer {
                            count: self.count,
                            sent: self.sent + 1,
                            phase: ProducerPhase::Rest,
                        };
                    },
                    _ => {
                        self.phase = if self.sent == self.count {
                            ProducerPhase::Finished
                        } else {
                            ProducerPhase::Acquire
                        };
                    },
                },
            },
        }
    }
}

} // verus!
