//! A model of the store: what it keeps, and how it answers the requests of
//! the relay.
//!
//! The store itself is not part of this library. What follows is the
//! behaviour that the library expects of it, written down so that the laws
//! on the relay can be proved of it. The laws hold of a store that answers
//! as this model does; that a given store does so is not proved here.

use vstd::prelude::*;
use crate::request::{counter_requests, Request};

verus! {

/// What the store keeps under one key.
pub enum Entry {
    /// A number.
    Number(int),
    /// A list of payloads, head first.
    List(Seq<Seq<char>>),
}

/// An answer of the store.
pub enum Reply {
    /// The request is carried out and has nothing to hand back.
    Done,
    /// The number that the request left behind: the new value of a key, or
    /// the new length of a list.
    Count(int),
    /// The number under the key that was read, if there is one.
    Value(Option<int>),
    /// The key of the list and the payload taken from it, or nothing when
    /// the wait ran out with the list empty.
    Taken(Option<(Seq<char>, Seq<char>)>),
    /// The key holds something that the request cannot work on.
    Refused,
}

/// The store: its databases, each with its keys and what it keeps under
/// each. Every request of the relay but the wipe works on the database that
/// its connection has selected, and leaves the others alone. Numbers have
/// no bound here, and a list that loses its last payload loses its key.
pub struct Store {
    /// The keys of the selected database.
    pub entries: Map<Seq<char>, Entry>,
    /// The keys of the other databases, by the number of the database.
    pub elsewhere: Map<nat, Map<Seq<char>, Entry>>,
}

impl Store {
    /// The store with no key in any database.
    pub open spec fn empty() -> Store {
        Store { entries: Map::empty(), elsewhere: Map::empty() }
    }

    /// Whether no database of the store has any key.
    pub open spec fn is_empty(self) -> bool {
        &&& forall|key: Seq<char>| !self.entries.dom().contains(key)
        &&& forall|database: nat, key: Seq<char>|
            self.elsewhere.dom().contains(database) ==> !(#[trigger] self.elsewhere[database].dom().contains(
                key,
            ))
    }

    /// Whether the store has `key`.
    pub open spec fn has(self, key: Seq<char>) -> bool {
        self.entries.dom().contains(key)
    }

    /// The list under `key`, head first; empty where there is none.
    pub open spec fn list(self, key: Seq<char>) -> Seq<Seq<char>> {
        if self.has(key) {
            match self.entries[key] {
                Entry::List(payloads) => payloads,
                Entry::Number(_) => Seq::empty(),
            }
        } else {
            Seq::empty()
        }
    }

    /// The number under `key`, if there is one.
    pub open spec fn number(self, key: Seq<char>) -> Option<int> {
        if self.has(key) {
            match self.entries[key] {
                Entry::Number(value) => Some(value),
                Entry::List(_) => None,
            }
        } else {
            None
        }
    }

    /// The store with `entry` under `key`.
    pub open spec fn with(self, key: Seq<char>, entry: Entry) -> Store {
        Store { entries: self.entries.insert(key, entry), ..self }
    }

    /// The store without `key`.
    pub open spec fn without(self, key: Seq<char>) -> Store {
        Store { entries: self.entries.remove(key), ..self }
    }

    /// The store after `request`, and its answer.
    pub open spec fn answer(self, request: Request) -> (Store, Reply) {
        match request {
            Request::Flush => (Store::empty(), Reply::Done),
            Request::Assign { key, value } => (self.with(key, Entry::Number(value)), Reply::Done),
            Request::Read { key } => if !self.has(key) {
                (self, Reply::Value(None))
            } else {
                match self.entries[key] {
                    Entry::Number(value) => (self, Reply::Value(Some(value))),
                    Entry::List(_) => (self, Reply::Refused),
                }
            },
            Request::Increment { key } => if !self.has(key) {
                (self.with(key, Entry::Number(1)), Reply::Count(1))
            } else {
                match self.entries[key] {
                    Entry::Number(value) => (
                        self.with(key, Entry::Number(value + 1)),
                        Reply::Count(value + 1),
                    ),
                    Entry::List(_) => (self, Reply::Refused),
                }
            },
            Request::Append { list, payload } => if !self.has(list) {
                (self.with(list, Entry::List(seq![payload])), Reply::Count(1))
            } else {
                match self.entries[list] {
                    Entry::List(payloads) => (
                        self.with(list, Entry::List(payloads.push(payload))),
                        Reply::Count(payloads.len() as int + 1),
                    ),
                    Entry::Number(_) => (self, Reply::Refused),
                }
            },
            Request::TakeHead { list, timeout_secs } => if !self.has(list) {
                (self, Reply::Taken(None))
            } else {
                match self.entries[list] {
                    Entry::List(payloads) => if payloads.len() == 0 {
                        (self, Reply::Taken(None))
                    } else if payloads.len() == 1 {
                        (self.without(list), Reply::Taken(Some((list, payloads[0]))))
                    } else {
                        (
                            self.with(list, Entry::List(payloads.drop_first())),
                            Reply::Taken(Some((list, payloads[0]))),
                        )
                    },
                    Entry::Number(_) => (self, Reply::Refused),
                }
            },
        }
    }

    /// The store after a batch that is carried out as one, with no other
    /// request between its steps, and the batch's result: the answers to
    /// the steps that are not paired with `true`, in the order of the steps.
    pub open spec fn answer_batch(self, steps: Seq<(Request, bool)>) -> (Store, Seq<Reply>)
        decreases steps.len(),
    {
        if steps.len() == 0 {
            (self, Seq::empty())
        } else {
            let (before, kept) = self.answer_batch(steps.drop_last());
            let (after, reply) = before.answer(steps.last().0);
            (
                after,
                if steps.last().1 {
                    kept
                } else {
                    kept.push(reply)
                },
            )
        }
    }
}

/// What reaches the store from its clients, one arrival after the other.
/// The store deals with an arrival as a whole before it turns to the next.
pub enum Arrival {
    /// A request on its own. Requests of other clients may have arrived
    /// just before it and may arrive just after it.
    Single(Request),
    /// A batch sent as atomic. It is carried out as one: no request of
    /// another client takes effect between two of its steps.
    Batch(Seq<(Request, bool)>),
}

impl Store {
    /// The store after one arrival, and the answer that goes back for it: the
    /// one reply to a single request, the result of a batch.
    pub open spec fn answer_arrival(self, arrival: Arrival) -> (Store, Seq<Reply>) {
        match arrival {
            Arrival::Single(request) => (self.answer(request).0, seq![self.answer(request).1]),
            Arrival::Batch(steps) => self.answer_batch(steps),
        }
    }

    /// The store after the arrivals of `arrivals`, in order, and the answer
    /// to each.
    pub open spec fn answer_arrivals(self, arrivals: Seq<Arrival>) -> (Store, Seq<Seq<Reply>>)
        decreases arrivals.len(),
    {
        if arrivals.len() == 0 {
            (self, Seq::empty())
        } else {
            let (before, answers) = self.answer_arrivals(arrivals.drop_last());
            let (after, answer) = before.answer_arrival(arrivals.last());
            (after, answers.push(answer))
        }
    }
}

/// After the wipe the store holds nothing, whatever it held before and in
/// whichever of its databases: no key, so no list and no number.
pub proof fn law_flush_leaves_nothing(store: Store, key: Seq<char>)
    ensures
        store.answer(Request::Flush).0 == Store::empty(),
        store.answer(Request::Flush).0.is_empty(),
        !store.answer(Request::Flush).0.has(key),
        store.answer(Request::Flush).0.list(key) == Seq::<Seq<char>>::empty(),
        store.answer(Request::Flush).0.number(key) is None,
{
}

/// Every request but the wipe leaves the databases other than the selected
/// one as they were.
pub proof fn law_other_databases_left_alone(store: Store, request: Request)
    requires
        !(request is Flush),
    ensures
        store.answer(request).0.elsewhere == store.elsewhere,
{
}

/// The list is first in, first out, whatever it holds: a payload appended
/// goes behind all that are there, and the payload taken is the one at the
/// head. An empty list gives nothing, and nothing changes.
pub proof fn law_list_first_in_first_out(
    store: Store,
    list: Seq<char>,
    payload: Seq<char>,
    timeout_secs: nat,
)
    requires
        store.has(list) ==> store.entries[list] is List,
    ensures
        store.answer(Request::Append { list, payload }).0.list(list) == store.list(list).push(
            payload,
        ),
        store.list(list).len() > 0 ==> {
            &&& store.answer(Request::TakeHead { list, timeout_secs }).1 == Reply::Taken(
                Some((list, store.list(list)[0])),
            )
            &&& store.answer(Request::TakeHead { list, timeout_secs }).0.list(list)
                == store.list(list).drop_first()
        },
        store.list(list).len() == 0 ==> {
            &&& store.answer(Request::TakeHead { list, timeout_secs }).1 == Reply::Taken(None)
            &&& store.answer(Request::TakeHead { list, timeout_secs }).0 == store
        },
{
    let held = store.list(list);
    assert(store.answer(Request::Append { list, payload }).0.list(list) =~= held.push(payload));
    if held.len() > 0 {
        assert(store.answer(Request::TakeHead { list, timeout_secs }).0.list(list)
            =~= held.drop_first());
    }
}

/// What the counter batch comes to: its result is the value it set and that
/// value plus one, and it leaves the store as it was but for the key, under
/// which the latter stands.
pub proof fn lemma_counter_batch(store: Store, key: Seq<char>, initial: int)
    ensures
        store.answer_batch(counter_requests(key, initial)) == (
            store.with(key, Entry::Number(initial + 1)),
            seq![Reply::Value(Some(initial)), Reply::Value(Some(initial + 1))],
        ),
{
    let steps = counter_requests(key, initial);
    let three = steps.drop_last();
    let two = three.drop_last();
    let one = two.drop_last();
    assert(one.drop_last() =~= Seq::<(Request, bool)>::empty());
    assert(one.last() == steps[0]);
    assert(two.last() == steps[1]);
    assert(three.last() == steps[2]);
    assert(steps.last() == steps[3]);
    let set = store.with(key, Entry::Number(initial));
    let s0 = store.answer_batch(one.drop_last());
    assert(s0.0 == store && s0.1 =~= Seq::<Reply>::empty());
    let s1 = store.answer_batch(one);
    assert(s1.0 == set && s1.1 =~= Seq::<Reply>::empty());
    let s2 = store.answer_batch(two);
    assert(s2.0 == set && s2.1 =~= seq![Reply::Value(Some(initial))]);
    let s3 = store.answer_batch(three);
    assert(s3.0.entries =~= store.entries.insert(key, Entry::Number(initial + 1)));
    assert(s3.1 =~= seq![Reply::Value(Some(initial))]);
    let s4 = store.answer_batch(steps);
    assert(s4.0 == s3.0);
    assert(s4.1 =~= seq![Reply::Value(Some(initial)), Reply::Value(Some(initial + 1))]);
}

/// Whatever the store held before, the counter batch that starts from
/// `initial` reads `initial` and then `initial + 1`, leaves the latter
/// under the key, and leaves every other key as it was.
pub proof fn law_counter_batch_reads(store: Store, key: Seq<char>, initial: int)
    ensures
        store.answer_batch(counter_requests(key, initial)).1 == seq![
            Reply::Value(Some(initial)),
            Reply::Value(Some(initial + 1)),
        ],
        store.answer_batch(counter_requests(key, initial)).0.number(key) == Some(initial + 1),
        forall|other: Seq<char>|
            #![trigger store.has(other)]
            other != key ==> {
                &&& store.answer_batch(counter_requests(key, initial)).0.has(other) == store.has(
                    other,
                )
                &&& store.answer_batch(counter_requests(key, initial)).0.list(other) == store.list(
                    other,
                )
                &&& store.answer_batch(counter_requests(key, initial)).0.number(other)
                    == store.number(other)
            },
{
    lemma_counter_batch(store, key, initial);
}

/// The first `upto` arrivals of a run in which the counter batch arrives at
/// place `at` and every other arrival is a read of the key: the reads before
/// the batch are answered from the store as it was, the reads after it from
/// the store that the batch left.
proof fn lemma_reads_around_batch(
    store: Store,
    key: Seq<char>,
    initial: int,
    arrivals: Seq<Arrival>,
    at: int,
    upto: int,
)
    requires
        0 <= at < arrivals.len(),
        0 <= upto <= arrivals.len(),
        arrivals[at] == Arrival::Batch(counter_requests(key, initial)),
        forall|k: int|
            0 <= k < arrivals.len() && k != at ==> #[trigger] arrivals[k] == Arrival::Single(
                Request::Read { key },
            ),
    ensures
        store.answer_arrivals(arrivals.take(upto)).0 == (if upto <= at {
            store
        } else {
            store.with(key, Entry::Number(initial + 1))
        }),
        store.answer_arrivals(arrivals.take(upto)).1.len() == upto,
        forall|k: int|
            0 <= k < upto ==> #[trigger] store.answer_arrivals(arrivals.take(upto)).1[k] == (if k
                < at {
                seq![store.answer(Request::Read { key }).1]
            } else if k == at {
                seq![Reply::Value(Some(initial)), Reply::Value(Some(initial + 1))]
            } else {
                seq![Reply::Value(Some(initial + 1))]
            }),
    decreases upto,
{
    if upto > 0 {
        let shorter = arrivals.take(upto - 1);
        lemma_reads_around_batch(store, key, initial, arrivals, at, upto - 1);
        assert(arrivals.take(upto).drop_last() =~= shorter);
        assert(arrivals.take(upto).last() == arrivals[upto - 1]);
        if upto - 1 == at {
            lemma_counter_batch(store, key, initial);
        }
    }
}

/// What another client reads while the counter batch is at work. Let the
/// batch arrive at the store at any place among reads of the key by other
/// clients. Then every read that arrives before the batch is answered as if
/// the batch were not there, and every read that arrives after it finds
/// `initial + 1`. No read finds the value between, `initial`, unless the key
/// held it before.
pub proof fn law_reader_sees_before_or_after(
    store: Store,
    key: Seq<char>,
    initial: int,
    arrivals: Seq<Arrival>,
    at: int,
)
    requires
        0 <= at < arrivals.len(),
        arrivals[at] == Arrival::Batch(counter_requests(key, initial)),
        forall|k: int|
            0 <= k < arrivals.len() && k != at ==> #[trigger] arrivals[k] == Arrival::Single(
                Request::Read { key },
            ),
    ensures
        store.answer_arrivals(arrivals).1.len() == arrivals.len(),
        store.answer_arrivals(arrivals).1[at] == seq![
            Reply::Value(Some(initial)),
            Reply::Value(Some(initial + 1)),
        ],
        forall|k: int|
            0 <= k < at ==> #[trigger] store.answer_arrivals(arrivals).1[k] == seq![
                store.answer(Request::Read { key }).1,
            ],
        forall|k: int|
            at < k < arrivals.len() ==> #[trigger] store.answer_arrivals(arrivals).1[k] == seq![
                Reply::Value(Some(initial + 1)),
            ],
        store.number(key) != Some(initial) ==> forall|k: int|
            0 <= k < arrivals.len() && k != at ==> #[trigger] store.answer_arrivals(arrivals).1[k]
                != seq![Reply::Value(Some(initial))],
{
    lemma_reads_around_batch(store, key, initial, arrivals, at, arrivals.len() as int);
    assert(arrivals.take(arrivals.len() as int) =~= arrivals);
    let answers = store.answer_arrivals(arrivals).1;
    if store.number(key) != Some(initial) {
        assert forall|k: int| 0 <= k < arrivals.len() && k != at implies #[trigger] answers[k]
            != seq![Reply::Value(Some(initial))] by {
            let seen = answers[k];
            let between = seq![Reply::Value(Some(initial))];
            if seen == between {
                assert(seen[0] == between[0]);
            }
        }
    }
}

/// Why the batch is sent as atomic. Were its steps to arrive one by one, a
/// read by another client could arrive after the first step and before the
/// third, and would find the value between, `initial`.
pub proof fn law_single_steps_show_the_value_between(store: Store, key: Seq<char>, initial: int)
    ensures
        store.answer_arrivals(
            seq![
                Arrival::Single(counter_requests(key, initial)[0].0),
                Arrival::Single(Request::Read { key }),
            ],
        ).1[1] == seq![Reply::Value(Some(initial))],
{
    let first = Arrival::Single(counter_requests(key, initial)[0].0);
    let read = Arrival::Single(Request::Read { key });
    let both = seq![first, read];
    let one = both.drop_last();
    assert(one =~= seq![first]);
    assert(one.drop_last() =~= Seq::<Arrival>::empty());
    assert(store.answer_arrivals(one.drop_last()).0 == store);
    assert(store.answer_arrivals(one).0 == store.with(key, Entry::Number(initial)));
}

} // verus!
