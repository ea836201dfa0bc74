//! The coordinator: the order in which a run is set up, started and ended.
//!
//! The coordinator itself performs nothing. Whoever runs it asks for the
//! pending action, carries it out, and reports what came of it.

use vstd::prelude::*;
use crate::failure::Failure;
use crate::message::{counter_notice, counter_notice_text};
use crate::settings::{COUNTER_INITIAL, COUNTER_KEY, MESSAGE_COUNT, STORE_ADDRESS};

verus! {

/// How a run ended.
#[derive(Clone, Copy, PartialEq, Eq, Debug)]
pub enum Ending {
    /// Both tasks ran to completion.
    Completed,
    /// A step of the set-up failed: the program gives a diagnostic and
    /// returns before any message is sent.
    SetupFailed(Failure),
    /// At least one task aborted, for the reason given beside it. Nothing
    /// is done about the other task or about what is left in the list.
    TaskFailed { producer: Option<Failure>, consumer: Option<Failure> },
}

impl Ending {
    /// Whether the run did all its work.
    pub open spec fn succeeded(self) -> bool {
        self is Completed
    }

    /// Whether the run did all its work.
    pub fn is_success(&self) -> (success: bool)
        ensures
            success == self.succeeded(),
    {
        match self {
            Ending::Completed => true,
            _ => false,
        }
    }
}

/// How a run ends when its two tasks end as given: well if both did, and
/// otherwise with the failure of each task that aborted.
pub open spec fn ending_of(
    producer: Result<(), Failure>,
    consumer: Result<(), Failure>,
) -> Ending {
    if producer is Ok && consumer is Ok {
        Ending::Completed
    } else {
        Ending::TaskFailed {
            producer: match producer {
                Ok(_) => None,
                Err(failure) => Some(failure),
            },
            consumer: match consumer {
                Ok(_) => None,
                Err(failure) => Some(failure),
            },
        }
    }
}

/// How a run ends when its two tasks end as given.
pub fn join_tasks(producer: Result<(), Failure>, consumer: Result<(), Failure>) -> (ending: Ending)
    ensures
        ending == ending_of(producer, consumer),
{
    let producer_failure = match producer {
        Ok(_) => None,
        Err(failure) => Some(failure),
    };
    let consumer_failure = match consumer {
        Ok(_) => None,
        Err(failure) => Some(failure),
    };
    match (producer_failure, consumer_failure) {
        (None, None) => Ending::Completed,
        _ => Ending::TaskFailed { producer: producer_failure, consumer: consumer_failure },
    }
}

/// Where the coordinator stands within a run.
#[derive(Clone, Copy, PartialEq, Eq, Debug)]
pub enum CoordinatorPhase {
    /// About to make the handle to the store.
    Connect,
    /// About to wipe the store.
    Clear,
    /// About to run the counter batch.
    Prime,
    /// About to start both tasks and wait for both.
    Run,
    /// The run is over.
    Ended(Ending),
}

/// The four stages that a run passes through, in this order.
#[derive(Clone, Copy, PartialEq, Eq, Debug, Structural)]
pub enum Stage {
    /// Nothing is done yet.
    NotStarted,
    /// The store is being wiped and the counter batch run.
    Initializing,
    /// Producer and consumer are at work side by side.
    Running,
    /// Both tasks were waited for, or the set-up failed.
    Terminated,
}

impl Stage {
    /// The place of a stage in the order of stages.
    pub open spec fn rank(self) -> nat {
        match self {
            Stage::NotStarted => 0,
            Stage::Initializing => 1,
            Stage::Running => 2,
            Stage::Terminated => 3,
        }
    }
}

/// The coordinator as a mathematical value.
pub struct CoordinatorState {
    /// The current phase.
    pub phase: CoordinatorPhase,
    /// The value that the counter batch read before adding one; zero until
    /// the batch has run.
    pub before: int,
    /// The value that the counter batch read after adding one; zero until
    /// the batch has run.
    pub after: int,
}

/// What is reported to the coordinator.
#[derive(Clone, Copy, PartialEq, Eq, Debug)]
pub enum CoordinatorEvent {
    /// The pending action is done and has nothing to hand back.
    Done,
    /// The counter batch read these two values.
    Primed { before: i32, after: i32 },
    /// Both tasks have ended, each as given.
    Joined { producer: Result<(), Failure>, consumer: Result<(), Failure> },
    /// The pending action failed.
    Failed(Failure),
}

/// An action of the coordinator as a mathematical value.
pub enum CoordinatorStep {
    /// Make the handle to the store at `address`.
    Connect { address: Seq<char> },
    /// Wipe the store.
    Clear,
    /// Run the counter batch on `key`, starting from `initial`.
    Prime { key: Seq<char>, initial: int },
    /// Give `notice`, start a producer and a consumer of `count` messages
    /// each, and wait for both to end.
    Run { notice: Seq<char>, count: nat },
    /// End the program.
    Exit(Ending),
}

impl CoordinatorState {
    /// The coordinator before its first action.
    pub open spec fn initial() -> CoordinatorState {
        CoordinatorState { phase: CoordinatorPhase::Connect, before: 0, after: 0 }
    }

    /// The stage that the run is in.
    pub open spec fn stage(self) -> Stage {
        match self.phase {
            CoordinatorPhase::Connect => Stage::NotStarted,
            CoordinatorPhase::Clear => Stage::Initializing,
            CoordinatorPhase::Prime => Stage::Initializing,
            CoordinatorPhase::Run => Stage::Running,
            CoordinatorPhase::Ended(_) => Stage::Terminated,
        }
    }

    /// The pending action.
    pub open spec fn step(self) -> CoordinatorStep {
        match self.phase {
            CoordinatorPhase::Connect => CoordinatorStep::Connect { address: STORE_ADDRESS@ },
            CoordinatorPhase::Clear => CoordinatorStep::Clear,
            CoordinatorPhase::Prime => CoordinatorStep::Prime {
                key: COUNTER_KEY@,
                initial: COUNTER_INITIAL as int,
            },
            CoordinatorPhase::Run => CoordinatorStep::Run {
                notice: counter_notice_text(self.before, self.after),
                count: MESSAGE_COUNT as nat,
            },
            CoordinatorPhase::Ended(ending) => CoordinatorStep::Exit(ending),
        }
    }

    /// The coordinator after `event` was reported to it. Each phase moves
    /// on only upon the report that answers its action; a failure of the
    /// set-up ends the run; the end of both tasks ends it as `ending_of`
    /// says. Any other report changes nothing.
    pub open spec fn advance(self, event: CoordinatorEvent) -> CoordinatorState {
        match (self.phase, event) {
            (CoordinatorPhase::Connect, CoordinatorEvent::Done) => CoordinatorState {
                phase: CoordinatorPhase::Clear,
                ..self
            },
            (CoordinatorPhase::Clear, CoordinatorEvent::Done) => CoordinatorState {
                phase: CoordinatorPhase::Prime,
                ..self
            },
            (CoordinatorPhase::Prime, CoordinatorEvent::Primed { before, after }) => {
                CoordinatorState {
                    phase: CoordinatorPhase::Run,
                    before: before as int,
                    after: after as int,
                }
            },
            (CoordinatorPhase::Run, CoordinatorEvent::Joined { producer, consumer }) => {
                CoordinatorState {
                    phase: CoordinatorPhase::Ended(ending_of(producer, consumer)),
                    ..self
                }
            },
            (CoordinatorPhase::Connect, CoordinatorEvent::Failed(failure)) => CoordinatorState {
                phase: CoordinatorPhase::Ended(Ending::SetupFailed(failure)),
                ..self
            },
            (CoordinatorPhase::Clear, CoordinatorEvent::Failed(failure)) => CoordinatorState {
                phase: CoordinatorPhase::Ended(Ending::SetupFailed(failure)),
                ..self
            },
            (CoordinatorPhase::Prime, CoordinatorEvent::Failed(failure)) => CoordinatorState {
                phase: CoordinatorPhase::Ended(Ending::SetupFailed(failure)),
                ..self
            },
            _ => self,
        }
    }
}

/// A run never goes back to an earlier stage, and once terminated it stays
/// as it is.
pub proof fn law_stages_in_order(state: CoordinatorState, event: CoordinatorEvent)
    ensures
        state.advance(event).stage().rank() >= state.stage().rank(),
        state.stage() == Stage::Terminated ==> state.advance(event) == state,
{
}

/// The tasks are started only after the store was wiped and the counter
/// batch has run: the running stage is entered from the counter batch and
/// from nowhere else, and the counter batch from the wiping.
pub proof fn law_setup_precedes_tasks(state: CoordinatorState, event: CoordinatorEvent)
    ensures
        state.advance(event).phase is Run ==> state.phase is Prime || state.phase is Run,
        state.advance(event).phase is Prime ==> state.phase is Clear || state.phase is Prime,
        state.advance(event).phase is Clear ==> state.phase is Connect || state.phase is Clear,
{
}

/// A run whose consumer aborted does not succeed, whatever became of the
/// producer; nor does one whose producer aborted. A run succeeds only when
/// both tasks ended well.
pub proof fn law_task_failure_fails_run(
    producer: Result<(), Failure>,
    consumer: Result<(), Failure>,
)
    ensures
        ending_of(producer, consumer).succeeded() <==> producer is Ok && consumer is Ok,
        consumer matches Err(failure) ==> ending_of(producer, consumer) matches Ending::TaskFailed {
            consumer: reason,
            ..
        } && reason == Some(failure),
        producer matches Err(failure) ==> ending_of(producer, consumer) matches Ending::TaskFailed {
            producer: reason,
            ..
        } && reason == Some(failure),
{
}

/// Once both tasks were waited for, the run is over, and it has succeeded
/// only if neither task aborted: a consumer whose wait ran out fails the
/// run like any other failure of a task.
pub proof fn law_joined_run_ends(
    state: CoordinatorState,
    producer: Result<(), Failure>,
    consumer: Result<(), Failure>,
)
    requires
        state.phase is Run,
    ensures
        state.advance(CoordinatorEvent::Joined { producer, consumer }).step()
            == CoordinatorStep::Exit(ending_of(producer, consumer)),
        consumer == Err::<(), Failure>(Failure::Timeout) ==> !ending_of(
            producer,
            consumer,
        ).succeeded(),
{
}

/// An action that whoever runs the coordinator carries out.
#[derive(Clone, PartialEq, Eq, Debug)]
pub enum CoordinatorAction {
    /// Make the handle to the store at `address`.
    Connect { address: String },
    /// Wipe the store.
    Clear,
    /// Run the counter batch on `key`, starting from `initial`.
    Prime { key: String, initial: i32 },
    /// Give `notice`, start a producer and a consumer of `count` messages
    /// each, and wait for both to end.
    Run { notice: String, count: u32 },
    /// End the program.
    Exit(Ending),
}

impl View for CoordinatorAction {
    type V = CoordinatorStep;

    open spec fn view(&self) -> CoordinatorStep {
        match self {
            CoordinatorAction::Connect { address } => CoordinatorStep::Connect {
                address: address@,
            },
            CoordinatorAction::Clear => CoordinatorStep::Clear,
            CoordinatorAction::Prime { key, initial } => CoordinatorStep::Prime {
                key: key@,
                initial: *initial as int,
            },
            CoordinatorAction::Run { notice, count } => CoordinatorStep::Run {
                notice: notice@,
                count: *count as nat,
            },
            CoordinatorAction::Exit(ending) => CoordinatorStep::Exit(*ending),
        }
    }
}

/// The coordinator of one run.
#[derive(Clone, Copy, Debug)]
pub struct Coordinator {
    phase: CoordinatorPhase,
    before: i32,
    after: i32,
}

impl View for Coordinator {
    type V = CoordinatorState;

    closed spec fn view(&self) -> CoordinatorState {
        CoordinatorState {
            phase: self.phase,
            before: self.before as int,
            after: self.after as int,
        }
    }
}

impl Coordinator {
    /// A coordinator that has done nothing yet.
    pub fn new() -> (coordinator: Coordinator)
        ensures
            coordinator@ == CoordinatorState::initial(),
    {
        Coordinator { phase: CoordinatorPhase::Connect, before: 0, after: 0 }
    }

    /// The current phase.
    pub fn phase(&self) -> (phase: CoordinatorPhase)
        ensures
            phase == self@.phase,
    {
        self.phase
    }

    /// The stage that the run is in.
    pub fn stage(&self) -> (stage: Stage)
        ensures
            stage == self@.stage(),
    {
        match self.phase {
            CoordinatorPhase::Connect => Stage::NotStarted,
            CoordinatorPhase::Clear => Stage::Initializing,
            CoordinatorPhase::Prime => Stage::Initializing,
            CoordinatorPhase::Run => Stage::Running,
            CoordinatorPhase::Ended(_) => Stage::Terminated,
        }
    }

    /// The pending action.
    pub fn action(&self) -> (action: CoordinatorAction)
        ensures
            action@ == self@.step(),
    {
        match self.phase {
            CoordinatorPhase::Connect => CoordinatorAction::Connect {
                address: String::from_str(STORE_ADDRESS),
            },
            CoordinatorPhase::Clear => CoordinatorAction::Clear,
            CoordinatorPhase::Prime => CoordinatorAction::Prime {
                key: String::from_str(COUNTER_KEY),
                initial: COUNTER_INITIAL,
            },
            CoordinatorPhase::Run => CoordinatorAction::Run {
                notice: counter_notice(self.before, self.after),
                count: MESSAGE_COUNT,
            },
            CoordinatorPhase::Ended(ending) => CoordinatorAction::Exit(ending),
        }
    }

    /// Records what came of the pending action.
    pub fn advance(&mut self, event: CoordinatorEvent)
        ensures
            final(self)@ == old(self)@.advance(event),
    {
        match (self.phase, event) {
            (CoordinatorPhase::Connect, CoordinatorEvent::Done) => {
                self.phase = CoordinatorPhase::Clear;
            },
            (CoordinatorPhase::Clear, CoordinatorEvent::Done) => {
                self.phase = CoordinatorPhase::Prime;
            },
            (CoordinatorPhase::Prime, CoordinatorEvent::Primed { before, after }) => {
                self.phase = CoordinatorPhase::Run;
                self.before = before;
                self.after = after;
            },
            (CoordinatorPhase::Run, CoordinatorEvent::Joined { producer, consumer }) => {
                self.phase = CoordinatorPhase::Ended(join_tasks(producer, consumer));
            },
            (CoordinatorPhase::Connect, CoordinatorEvent::Failed(failure)) => {
                self.phase = CoordinatorPhase::Ended(Ending::SetupFailed(failure));
            },
            (CoordinatorPhase::Clear, CoordinatorEvent::Failed(failure)) => {
                self.phase = CoordinatorPhase::Ended(Ending::SetupFailed(failure));
            },
            (CoordinatorPhase::Prime, CoordinatorEvent::Failed(failure)) => {
                self.phase = CoordinatorPhase::Ended(Ending::SetupFailed(failure));
            },
            _ => {},
        }
    }
}

} // verus!
