//! The relay as a whole: a producer and a consumer that take turns at one
//! store, and the laws on what reaches the output sink.
//!
//! The two tasks never speak to each other. All that passes between them
//! passes through the list in the store, so the laws below are proved of the
//! tasks of this library together with the model of the store.

use vstd::prelude::*;
use crate::consumer::{pop_input, ConsumerInput, ConsumerPhase, ConsumerState, ConsumerStep};
use crate::failure::Failure;
use crate::message::{
    lemma_line_text_injective, lemma_message_text_has_no_newline, lemma_message_text_injective,
    line_text, message_text,
};
use crate::producer::{ProducerPhase, ProducerState, ProducerStep};
use crate::request::{counter_requests, Request};
use crate::settings::{COUNTER_KEY, LIST_KEY};
use crate::store::{lemma_counter_batch, Reply, Store};

verus! {

/// One turn of the relay: one task deals with its pending action. An
/// action takes effect wholly or not at all: a request reaches the store or
/// does not, a line is written whole or not written.
pub enum Turn {
    /// The producer carries out its pending action and learns how it went.
    ProducerActs,
    /// The producer's pending action fails and has no effect.
    ProducerFails(Failure),
    /// The producer's pending action takes effect, but the producer is told
    /// that it failed, as when the store's answer is lost on the way.
    ProducerMisses(Failure),
    /// The consumer carries out its pending action and learns what came of
    /// it.
    ConsumerActs,
    /// The consumer's pending action fails and has no effect.
    ConsumerFails(Failure),
    /// The consumer's pending action takes effect, but the consumer is told
    /// that it failed.
    ConsumerMisses(Failure),
}

/// The relay: both tasks, the store between them, and the lines that the
/// output sink holds.
pub struct Relay {
    pub producer: ProducerState,
    pub consumer: ConsumerState,
    pub store: Store,
    pub sink: Seq<Seq<char>>,
    /// How many payloads the tasks have appended to the list.
    pub appended: nat,
    /// How many payloads the tasks have taken from the list.
    pub taken: nat,
}

/// The payloads of the messages from index `from` up to, not including,
/// index `to`.
pub open spec fn payloads(from: nat, to: nat) -> Seq<Seq<char>> {
    Seq::new((to - from) as nat, |k: int| message_text((from + k) as nat))
}

/// The lines of the first `count` messages, in the order of their indices.
pub open spec fn transcript(count: nat) -> Seq<Seq<char>> {
    Seq::new(count, |k: int| line_text(message_text(k as nat)))
}

/// The payload at place `place`, counted from zero, among all that pass
/// through a list that held `old` when the tasks started: the old payloads
/// first, in their order, then the messages in the order of their indices.
pub open spec fn passing(old: Seq<Seq<char>>, place: nat) -> Seq<char> {
    if place < old.len() {
        old[place as int]
    } else {
        message_text((place - old.len()) as nat)
    }
}

/// The payloads that pass from place `from` up to, not including, place
/// `to`.
pub open spec fn passing_between(old: Seq<Seq<char>>, from: nat, to: nat) -> Seq<Seq<char>> {
    Seq::new((to - from) as nat, |k: int| passing(old, (from + k) as nat))
}

/// The lines of the first `count` payloads that pass.
pub open spec fn record(old: Seq<Seq<char>>, count: nat) -> Seq<Seq<char>> {
    Seq::new(count, |k: int| line_text(passing(old, k as nat)))
}

impl Relay {
    /// The relay before the first turn: the store as the set-up left it,
    /// the sink empty, a producer of `produce` messages and a consumer of
    /// `consume`.
    pub open spec fn initial(store: Store, produce: nat, consume: nat) -> Relay {
        Relay {
            producer: ProducerState::initial(produce),
            consumer: ConsumerState::initial(consume),
            store,
            sink: Seq::empty(),
            appended: 0,
            taken: 0,
        }
    }

    /// What the producer's pending action does, and how it went. To send is
    /// to make the request of the store, which fails only where the store
    /// refuses it; the other actions touch nothing that the tasks share.
    pub open spec fn producer_effect(self) -> (Relay, Result<(), Failure>) {
        match self.producer.step() {
            ProducerStep::Send { list, payload } => {
                let (store, reply) = self.store.answer(Request::Append { list, payload });
                if reply is Refused {
                    (Relay { store, ..self }, Err(Failure::Store))
                } else {
                    (Relay { store, appended: self.appended + 1, ..self }, Ok(()))
                }
            },
            _ => (self, Ok(())),
        }
    }

    /// What the consumer's pending action does, and what comes of it. To
    /// take a message is to make the request of the store, whose answer
    /// counts as `pop_input` says; to open the sink empties it; to write
    /// appends the line.
    pub open spec fn consumer_effect(self) -> (Relay, ConsumerInput) {
        match self.consumer.step() {
            ConsumerStep::Open { path } => (
                Relay { sink: Seq::empty(), ..self },
                ConsumerInput::Done,
            ),
            ConsumerStep::Pop { list, timeout_secs } => {
                let (store, reply) = self.store.answer(Request::TakeHead { list, timeout_secs });
                match reply {
                    Reply::Taken(Some(pair)) => (
                        Relay { store, taken: self.taken + 1, ..self },
                        pop_input(Some(pair)),
                    ),
                    Reply::Taken(None) => (Relay { store, ..self }, pop_input(None)),
                    _ => (Relay { store, ..self }, ConsumerInput::Failed(Failure::Store)),
                }
            },
            ConsumerStep::Write { line } => (
                Relay { sink: self.sink.push(line), ..self },
                ConsumerInput::Done,
            ),
            _ => (self, ConsumerInput::Done),
        }
    }

    /// The relay after one turn.
    pub open spec fn after(self, turn: Turn) -> Relay {
        match turn {
            Turn::ProducerActs => Relay {
                producer: self.producer.advance(self.producer_effect().1),
                ..self.producer_effect().0
            },
            Turn::ProducerFails(failure) => Relay {
                producer: self.producer.advance(Err(failure)),
                ..self
            },
            Turn::ProducerMisses(failure) => Relay {
                producer: self.producer.advance(Err(failure)),
                ..self.producer_effect().0
            },
            Turn::ConsumerActs => Relay {
                consumer: self.consumer.advance(self.consumer_effect().1),
                ..self.consumer_effect().0
            },
            Turn::ConsumerFails(failure) => Relay {
                consumer: self.consumer.advance(ConsumerInput::Failed(failure)),
                ..self
            },
            Turn::ConsumerMisses(failure) => Relay {
                consumer: self.consumer.advance(ConsumerInput::Failed(failure)),
                ..self.consumer_effect().0
            },
        }
    }

    /// The relay after the turns of `turns`, taken in order.
    pub open spec fn after_all(self, turns: Seq<Turn>) -> Relay
        decreases turns.len(),
    {
        if turns.len() == 0 {
            self
        } else {
            self.after_all(turns.drop_last()).after(turns.last())
        }
    }

    /// What holds of the relay after any turns, when it started from the
    /// store `start`. The list holds exactly the payloads that were there
    /// or were appended and are not yet taken, the old ones first and all
    /// in order. Each task knows of every message that it appended or took,
    /// but for one at most, and then it has aborted. The sink holds the
    /// lines of the first payloads, all that were taken but for one at
    /// most. Nothing but the list has changed in the store.
    pub open spec fn in_order(self, start: Store, produce: nat, consume: nat) -> bool {
        let old = start.list(LIST_KEY@);
        &&& self.producer.count == produce
        &&& self.consumer.count == consume
        &&& self.producer.wf()
        &&& self.consumer.wf()
        &&& self.taken <= old.len() + self.appended
        &&& self.appended <= produce
        &&& self.producer.sent <= self.appended <= self.producer.sent + 1
        &&& !(self.producer.phase is Aborted) ==> self.appended == self.producer.sent
        &&& self.consumer.received <= self.taken <= self.consumer.received + 1
        &&& !(self.consumer.phase is Aborted) ==> self.taken == self.consumer.received
        &&& self.store.has(LIST_KEY@) ==> self.store.entries[LIST_KEY@] is List
        &&& self.store.list(LIST_KEY@) == passing_between(
            old,
            self.taken,
            old.len() + self.appended,
        )
        &&& self.store.entries.remove(LIST_KEY@) == start.entries.remove(LIST_KEY@)
        &&& self.store.elsewhere == start.elsewhere
        &&& self.sink == record(old, self.sink.len())
        &&& self.sink.len() <= self.consumer.received <= self.sink.len() + 1
        &&& self.consumer.phase is Write ==> {
            &&& self.sink.len() + 1 == self.consumer.received
            &&& self.consumer.held == passing(old, (self.consumer.received - 1) as nat)
        }
        &&& !(self.consumer.phase is Write || self.consumer.phase is Aborted) ==> self.sink.len()
            == self.consumer.received
    }
}

/// The producer's pending action, whether the producer learns the truth of
/// it or is told that it failed, keeps the relay in order.
proof fn lemma_producer_keeps_order(
    relay: Relay,
    turn: Turn,
    start: Store,
    produce: nat,
    consume: nat,
)
    requires
        relay.in_order(start, produce, consume),
        turn is ProducerActs || turn is ProducerFails || turn is ProducerMisses,
    ensures
        relay.after(turn).in_order(start, produce, consume),
{
    let next = relay.after(turn);
    let old = start.list(LIST_KEY@);
    let list = relay.store.list(LIST_KEY@);
    if relay.producer.step() is Send && !(turn is ProducerFails) {
        assert(next.store.list(LIST_KEY@) =~= list.push(message_text(relay.appended)));
        assert(list.push(message_text(relay.appended)) =~= passing_between(
            old,
            relay.taken,
            old.len() + relay.appended + 1,
        ));
        assert(next.store.entries.remove(LIST_KEY@) =~= relay.store.entries.remove(LIST_KEY@));
    }
}

/// The consumer's pending action, whether the consumer learns the truth of
/// it or is told that it failed, keeps the relay in order.
proof fn lemma_consumer_keeps_order(
    relay: Relay,
    turn: Turn,
    start: Store,
    produce: nat,
    consume: nat,
)
    requires
        relay.in_order(start, produce, consume),
        turn is ConsumerActs || turn is ConsumerFails || turn is ConsumerMisses,
    ensures
        relay.after(turn).in_order(start, produce, consume),
{
    let next = relay.after(turn);
    let old = start.list(LIST_KEY@);
    let list = relay.store.list(LIST_KEY@);
    if !(turn is ConsumerFails) {
        match relay.consumer.step() {
            ConsumerStep::Open { path } => {
                assert(next.sink =~= record(old, 0));
            },
            ConsumerStep::Pop { list: key, timeout_secs } => {
                if list.len() > 0 {
                    assert(list[0] == passing(old, relay.taken));
                    assert(next.store.list(LIST_KEY@) =~= list.drop_first());
                    assert(list.drop_first() =~= passing_between(
                        old,
                        relay.taken + 1,
                        old.len() + relay.appended,
                    ));
                    assert(next.store.entries.remove(LIST_KEY@) =~= relay.store.entries.remove(
                        LIST_KEY@,
                    ));
                }
            },
            ConsumerStep::Write { line } => {
                assert(next.sink =~= record(old, next.sink.len()));
            },
            _ => {},
        }
    }
}

/// One turn keeps the relay in order.
proof fn lemma_turn_keeps_order(relay: Relay, turn: Turn, start: Store, produce: nat, consume: nat)
    requires
        relay.in_order(start, produce, consume),
    ensures
        relay.after(turn).in_order(start, produce, consume),
{
    if turn is ProducerActs || turn is ProducerFails || turn is ProducerMisses {
        lemma_producer_keeps_order(relay, turn, start, produce, consume);
    } else {
        lemma_consumer_keeps_order(relay, turn, start, produce, consume);
    }
}

/// Whatever the turns, a relay that starts with a list under the list's
/// key, or with nothing there, stays in order.
pub proof fn lemma_always_in_order(store: Store, produce: nat, consume: nat, turns: Seq<Turn>)
    requires
        store.has(LIST_KEY@) ==> store.entries[LIST_KEY@] is List,
    ensures
        Relay::initial(store, produce, consume).after_all(turns).in_order(store, produce, consume),
    decreases turns.len(),
{
    let start = Relay::initial(store, produce, consume);
    let old = store.list(LIST_KEY@);
    if turns.len() == 0 {
        assert(old =~= passing_between(old, 0, old.len()));
        assert(start.sink =~= record(old, 0));
    } else {
        lemma_always_in_order(store, produce, consume, turns.drop_last());
        lemma_turn_keeps_order(
            start.after_all(turns.drop_last()),
            turns.last(),
            store,
            produce,
            consume,
        );
    }
}

/// Where the list is absent at the start, what passes through it are the
/// messages, and the record is the transcript.
proof fn lemma_nothing_old(from: nat, to: nat)
    ensures
        passing_between(Seq::empty(), from, to) == payloads(from, to),
        record(Seq::empty(), to) == transcript(to),
{
    assert(passing_between(Seq::empty(), from, to) =~= payloads(from, to));
    assert(record(Seq::empty(), to) =~= transcript(to));
}

/// Let the list be absent when the tasks start. Then, in whatever order the
/// two tasks take their turns and whichever of their steps fail: once the
/// consumer has finished, the sink holds the lines of the messages it was
/// to receive, one line each, in the order of their indices, and nothing
/// else.
pub proof fn law_delivery_in_order(store: Store, produce: nat, consume: nat, turns: Seq<Turn>)
    requires
        !store.has(LIST_KEY@),
        Relay::initial(store, produce, consume).after_all(turns).consumer.phase is Finished,
    ensures
        Relay::initial(store, produce, consume).after_all(turns).sink == transcript(consume),
        consume <= produce,
{
    lemma_always_in_order(store, produce, consume, turns);
    lemma_nothing_old(0, consume);
}

/// Let the list hold any payloads when the tasks start. Then what was there
/// comes first: once the consumer has finished, the sink holds the lines of
/// the first payloads that passed through the list, as many as the consumer
/// was to receive, the old payloads in their order and then the messages in
/// the order of their indices.
pub proof fn law_old_payloads_come_first(
    store: Store,
    produce: nat,
    consume: nat,
    turns: Seq<Turn>,
)
    requires
        store.has(LIST_KEY@) ==> store.entries[LIST_KEY@] is List,
        Relay::initial(store, produce, consume).after_all(turns).consumer.phase is Finished,
    ensures
        Relay::initial(store, produce, consume).after_all(turns).sink == record(
            store.list(LIST_KEY@),
            consume,
        ),
        consume <= store.list(LIST_KEY@).len() + produce,
{
    lemma_always_in_order(store, produce, consume, turns);
}

/// The tasks touch nothing in the store but the list: every other key of
/// the selected database, and every other database, is at every moment of
/// a run as it was at the start.
pub proof fn law_other_keys_left_alone(
    store: Store,
    produce: nat,
    consume: nat,
    turns: Seq<Turn>,
    key: Seq<char>,
)
    requires
        store.has(LIST_KEY@) ==> store.entries[LIST_KEY@] is List,
        key != LIST_KEY@,
    ensures
        ({
            let relay = Relay::initial(store, produce, consume).after_all(turns);
            &&& relay.store.has(key) == store.has(key)
            &&& relay.store.has(key) ==> relay.store.entries[key] == store.entries[key]
            &&& relay.store.elsewhere == store.elsewhere
        }),
{
    lemma_always_in_order(store, produce, consume, turns);
    let relay = Relay::initial(store, produce, consume).after_all(turns);
    assert(relay.store.entries.remove(LIST_KEY@).dom().contains(key) == store.entries.remove(
        LIST_KEY@,
    ).dom().contains(key));
    if relay.store.has(key) {
        assert(relay.store.entries.remove(LIST_KEY@)[key] == store.entries.remove(
            LIST_KEY@,
        )[key]);
    }
}

/// Let the list be absent when the tasks start. Then at every moment of the
/// run the sink holds the lines of the first messages, as many as were
/// written, and the list holds the messages appended and not yet taken, in
/// the order of their indices: no message comes twice, and none overtakes
/// another.
pub proof fn law_nothing_repeated_or_out_of_order(
    store: Store,
    produce: nat,
    consume: nat,
    turns: Seq<Turn>,
)
    requires
        !store.has(LIST_KEY@),
    ensures
        ({
            let relay = Relay::initial(store, produce, consume).after_all(turns);
            &&& relay.sink == transcript(relay.sink.len())
            &&& relay.sink.len() <= relay.consumer.received <= relay.taken
            &&& relay.taken <= relay.appended <= produce
            &&& relay.consumer.received <= consume
            &&& relay.store.list(LIST_KEY@) == payloads(relay.taken, relay.appended)
        }),
{
    lemma_always_in_order(store, produce, consume, turns);
    let relay = Relay::initial(store, produce, consume).after_all(turns);
    lemma_nothing_old(relay.taken, relay.appended);
    lemma_nothing_old(0, relay.sink.len());
}

/// The lines of a transcript differ from one another: a message's line
/// stands in it once.
pub proof fn law_transcript_lines_differ(count: nat, i: int, j: int)
    requires
        0 <= i < count,
        0 <= j < count,
        transcript(count)[i] == transcript(count)[j],
    ensures
        i == j,
{
    lemma_line_text_injective(message_text(i as nat), message_text(j as nat));
    lemma_message_text_injective(i as nat, j as nat);
}

/// The text of a sink to which the lines of `lines` were appended in order.
pub open spec fn content(lines: Seq<Seq<char>>) -> Seq<char>
    decreases lines.len(),
{
    if lines.len() == 0 {
        Seq::empty()
    } else {
        content(lines.drop_last()) + lines.last()
    }
}

/// How many newlines `text` holds: how many lines, where each ends in one.
pub open spec fn newlines(text: Seq<char>) -> nat
    decreases text.len(),
{
    if text.len() == 0 {
        0
    } else {
        newlines(text.drop_last()) + (if text.last() == '\n' {
            1nat
        } else {
            0nat
        })
    }
}

/// The newlines of a text in two parts are those of the parts.
proof fn lemma_newlines_of_parts(first: Seq<char>, second: Seq<char>)
    ensures
        newlines(first + second) == newlines(first) + newlines(second),
    decreases second.len(),
{
    if second.len() == 0 {
        assert(first + second =~= first);
    } else {
        lemma_newlines_of_parts(first, second.drop_last());
        assert((first + second).drop_last() =~= first + second.drop_last());
    }
}

/// A text none of whose characters is a newline holds no newline.
proof fn lemma_newlines_none(text: Seq<char>)
    requires
        forall|k: int| 0 <= k < text.len() ==> #[trigger] text[k] != '\n',
    ensures
        newlines(text) == 0,
    decreases text.len(),
{
    if text.len() > 0 {
        lemma_newlines_none(text.drop_last());
    }
}

/// The sink of a completed run has as many lines as there were messages:
/// the text of a transcript holds one newline for each message, the one
/// that ends the message's line.
pub proof fn law_transcript_has_a_line_per_message(count: nat)
    ensures
        newlines(content(transcript(count))) == count,
    decreases count,
{
    if count > 0 {
        let before = (count - 1) as nat;
        law_transcript_has_a_line_per_message(before);
        assert(transcript(count).drop_last() =~= transcript(before));
        let payload = message_text(before);
        let line = line_text(payload);
        assert(transcript(count).last() == line);
        reveal_strlit("\n");
        assert(line.drop_last() =~= payload);
        assert(line.last() == '\n');
        lemma_message_text_has_no_newline(before);
        lemma_newlines_none(payload);
        lemma_newlines_of_parts(content(transcript(before)), line);
    }
}

/// A consumer that waits for more messages than the producer sends never
/// finishes, whatever the turns.
pub proof fn law_short_supply_never_finishes(
    store: Store,
    produce: nat,
    consume: nat,
    turns: Seq<Turn>,
)
    requires
        !store.has(LIST_KEY@),
        produce < consume,
    ensures
        !(Relay::initial(store, produce, consume).after_all(turns).consumer.phase is Finished),
{
    lemma_always_in_order(store, produce, consume, turns);
}

/// The producer never waits for the consumer: its turn moves it on as if
/// every action had gone well, however many messages lie in the list, and
/// leaves the consumer and the sink as they were.
pub proof fn law_producer_never_waits(relay: Relay, start: Store, produce: nat, consume: nat)
    requires
        relay.in_order(start, produce, consume),
    ensures
        relay.after(Turn::ProducerActs).producer == relay.producer.advance(Ok(())),
        relay.after(Turn::ProducerActs).consumer == relay.consumer,
        relay.after(Turn::ProducerActs).sink == relay.sink,
{
}

/// When the consumer's turn to take a message comes and the list is empty,
/// the wait runs out: the consumer aborts with a timeout, and the sink
/// stays as it is.
pub proof fn law_empty_list_times_out(relay: Relay)
    requires
        relay.consumer.phase is Pop,
        relay.store.list(LIST_KEY@).len() == 0,
        relay.store.has(LIST_KEY@) ==> relay.store.entries[LIST_KEY@] is List,
    ensures
        relay.after(Turn::ConsumerActs).consumer.phase == ConsumerPhase::Aborted(Failure::Timeout),
        relay.after(Turn::ConsumerActs).sink == relay.sink,
{
}

/// The set-up leaves the store as the tasks need it: after the store is
/// wiped and the counter batch has run on the counter's key, the list is
/// absent, whatever the store held before.
pub proof fn law_setup_leaves_list_absent(store: Store, initial: int)
    ensures
        !store.answer(Request::Flush).0.answer_batch(
            counter_requests(COUNTER_KEY@, initial),
        ).0.has(LIST_KEY@),
{
    reveal_strlit("counter");
    reveal_strlit("queue");
    assert(COUNTER_KEY@.len() != LIST_KEY@.len());
    lemma_counter_batch(store.answer(Request::Flush).0, COUNTER_KEY@, initial);
}

/// The turns of one round: the producer gets a connection, sends and
/// rests, then the consumer gets a connection, takes, writes and rests.
pub open spec fn round_turns() -> Seq<Turn> {
    Seq::<Turn>::empty().push(Turn::ProducerActs).push(Turn::ProducerActs).push(
        Turn::ProducerActs,
    ).push(Turn::ConsumerActs).push(Turn::ConsumerActs).push(Turn::ConsumerActs).push(
        Turn::ConsumerActs,
    )
}

/// The turns of the run in which the consumer opens the sink and the two
/// tasks then alternate, round by round, for `rounds` rounds.
pub open spec fn alternating_turns(rounds: nat) -> Seq<Turn>
    decreases rounds,
{
    if rounds == 0 {
        Seq::<Turn>::empty().push(Turn::ConsumerActs)
    } else {
        alternating_turns((rounds - 1) as nat) + round_turns()
    }
}

/// The relay between two rounds, `done` of `count` rounds behind it.
pub open spec fn between_rounds(store: Store, count: nat, done: nat) -> Relay {
    Relay {
        producer: ProducerState {
            count,
            sent: done,
            phase: if done == count {
                ProducerPhase::Finished
            } else {
                ProducerPhase::Acquire
            },
        },
        consumer: ConsumerState {
            count,
            received: done,
            phase: if done == count {
                ConsumerPhase::Finished
            } else {
                ConsumerPhase::Acquire
            },
            held: if done == 0 {
                Seq::empty()
            } else {
                message_text((done - 1) as nat)
            },
        },
        store,
        sink: transcript(done),
        appended: done,
        taken: done,
    }
}

/// Taking one more turn after some turns is taking them all in order.
proof fn lemma_after_push(relay: Relay, turns: Seq<Turn>, turn: Turn)
    ensures
        relay.after_all(turns.push(turn)) == relay.after_all(turns).after(turn),
{
    assert(turns.push(turn).drop_last() =~= turns);
}

/// Taking the turns of two sequences one after the other is taking the
/// turns of their concatenation.
proof fn lemma_after_concat(relay: Relay, first: Seq<Turn>, second: Seq<Turn>)
    ensures
        relay.after_all(first + second) == relay.after_all(first).after_all(second),
    decreases second.len(),
{
    if second.len() == 0 {
        assert(first + second =~= first);
    } else {
        lemma_after_concat(relay, first, second.drop_last());
        assert((first + second).drop_last() =~= first + second.drop_last());
    }
}

/// One round in which no step fails takes the relay from between two
/// rounds to between the next two.
proof fn lemma_round(store: Store, count: nat, done: nat)
    requires
        !store.has(LIST_KEY@),
        done < count,
    ensures
        between_rounds(store, count, done).after_all(round_turns()) == between_rounds(
            store,
            count,
            done + 1,
        ),
{
    let start = between_rounds(store, count, done);
    let t0 = Seq::<Turn>::empty();
    let t1 = t0.push(Turn::ProducerActs);
    let t2 = t1.push(Turn::ProducerActs);
    let t3 = t2.push(Turn::ProducerActs);
    let t4 = t3.push(Turn::ConsumerActs);
    let t5 = t4.push(Turn::ConsumerActs);
    let t6 = t5.push(Turn::ConsumerActs);
    lemma_after_push(start, t0, Turn::ProducerActs);
    lemma_after_push(start, t1, Turn::ProducerActs);
    lemma_after_push(start, t2, Turn::ProducerActs);
    lemma_after_push(start, t3, Turn::ConsumerActs);
    lemma_after_push(start, t4, Turn::ConsumerActs);
    lemma_after_push(start, t5, Turn::ConsumerActs);
    lemma_after_push(start, t6, Turn::ConsumerActs);
    let r1 = start.after_all(t1);
    let r2 = start.after_all(t2);
    let r3 = start.after_all(t3);
    let r4 = start.after_all(t4);
    let r5 = start.after_all(t5);
    let r6 = start.after_all(t6);
    let end = start.after_all(round_turns());
    assert(r1.producer.phase is Send);
    assert(r2.producer.phase is Rest && r2.store.list(LIST_KEY@) =~= seq![message_text(done)]);
    assert(r3.producer == between_rounds(store, count, done + 1).producer);
    assert(r4.consumer.phase is Pop);
    assert(r5.consumer.phase is Write && r5.consumer.held == message_text(done));
    assert(r5.store.entries =~= store.entries);
    assert(r6.sink =~= transcript(done + 1));
    assert(end.consumer == between_rounds(store, count, done + 1).consumer);
}

/// The alternating run of `done` rounds, none of whose steps fails, leaves
/// the relay between rounds.
proof fn lemma_alternating_run(store: Store, count: nat, done: nat)
    requires
        !store.has(LIST_KEY@),
        done <= count,
    ensures
        Relay::initial(store, count, count).after_all(alternating_turns(done)) == between_rounds(
            store,
            count,
            done,
        ),
    decreases done,
{
    let start = Relay::initial(store, count, count);
    if done == 0 {
        lemma_after_push(start, Seq::<Turn>::empty(), Turn::ConsumerActs);
        assert(start.after(Turn::ConsumerActs).sink =~= transcript(0));
    } else {
        lemma_alternating_run(store, count, (done - 1) as nat);
        lemma_after_concat(start, alternating_turns((done - 1) as nat), round_turns());
        lemma_round(store, count, (done - 1) as nat);
    }
}

/// There is a run that completes. Let the list be absent when the tasks
/// start, let each task deal with as many messages as the other, and let no
/// step fail: then the run in which the tasks alternate round by round ends
/// with both finished, every line in the sink, and the store as it was.
pub proof fn law_unfailing_run_completes(store: Store, count: nat)
    requires
        !store.has(LIST_KEY@),
    ensures
        ({
            let end = Relay::initial(store, count, count).after_all(alternating_turns(count));
            &&& end.producer.phase is Finished
            &&& end.consumer.phase is Finished
            &&& end.store == store
            &&& end.sink == transcript(count)
        }),
{
    lemma_alternating_run(store, count, count);
}

} // verus!
