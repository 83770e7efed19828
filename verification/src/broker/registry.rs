//! Subscriber registries.
//!
//! A registry is the ordered list of the subscribers of one kind (native or
//! serialized) of one topic. Each entry pairs the token that names the
//! subscription with the sending end of the subscriber's queue.
//!
//! Two pieces of ghost state make the effects on the queues visible to
//! contracts: every entry records the messages its queue has accepted from
//! this registry, oldest first, and the registry records the queues it has
//! closed.

use vstd::prelude::*;

use crate::broker::queue::{
    backpressure, close_queue, try_deliver, verdict_of, Delivery, Verdict,
};

verus! {

/// One registered subscriber.
#[verifier::reject_recursive_types(T)]
pub struct Subscriber<T> {
    /// Names the subscription; used only to find the entry again.
    pub token: u64,
    /// The sending end of the subscriber's queue.
    pub sender: async_std::channel::Sender<T>,
    /// How many values the topic had published when the subscriber joined.
    pub since: Ghost<nat>,
    /// The messages the queue has accepted from the registry, oldest first.
    pub accepted: Ghost<Seq<T>>,
}

impl<T> Subscriber<T> {
    /// The subscriber once its queue has accepted `msg`.
    pub open spec fn after(self, msg: T) -> Self {
        Subscriber {
            token: self.token,
            sender: self.sender,
            since: self.since,
            accepted: Ghost(self.accepted@.push(msg)),
        }
    }

    /// A subscriber that has received nothing yet and joins a topic that has
    /// published nothing yet.
    pub fn new(token: u64, sender: async_std::channel::Sender<T>) -> (fresh: Self)
        ensures
            fresh.token == token,
            fresh.sender == sender,
            fresh.since@ == 0,
            fresh.accepted@ == Seq::<T>::empty(),
    {
        Subscriber { token, sender, since: Ghost(0), accepted: Ghost(Seq::empty()) }
    }

    /// A subscriber that has received nothing yet and joins after `since`
    /// publications.
    pub fn joining(
        token: u64,
        sender: async_std::channel::Sender<T>,
        Ghost(since): Ghost<nat>,
    ) -> (fresh: Self)
        ensures
            fresh.token == token,
            fresh.sender == sender,
            fresh.since@ == since,
            fresh.accepted@ == Seq::<T>::empty(),
    {
        Subscriber { token, sender, since: Ghost(since), accepted: Ghost(Seq::empty()) }
    }

    /// Offers `msg` to the subscriber's queue without blocking and records it
    /// as accepted if the queue took it.
    pub fn offer(&mut self, msg: T) -> (outcome: Delivery)
        ensures
            *final(self) == (if outcome is Accepted {
                old(self).after(msg)
            } else {
                *old(self)
            }),
    {
        let ghost sent = msg;
        let outcome = try_deliver(&self.sender, msg);
        if let Delivery::Accepted = outcome {
            self.accepted = Ghost(self.accepted@.push(sent));
        }
        outcome
    }
}

/// What a registry holds, as seen by contracts.
#[verifier::reject_recursive_types(T)]
pub struct RegistryView<T> {
    /// The registered subscribers, in registry order.
    pub entries: Seq<Subscriber<T>>,
    /// The queues the registry has closed, in the order it closed them.
    pub closed: Seq<async_std::channel::Sender<T>>,
}

/// The entries that stay after `msg` was offered to each of `entries` and the
/// attempts ended as `outcomes` say: those whose queue accepted the message,
/// in their old order, each with the message added to what it has received.
pub open spec fn survivors<T>(entries: Seq<Subscriber<T>>, outcomes: Seq<Delivery>, msg: T) -> Seq<
    Subscriber<T>,
>
    decreases entries.len(),
{
    if entries.len() == 0 || outcomes.len() == 0 {
        Seq::empty()
    } else {
        let earlier = survivors(entries.drop_last(), outcomes.drop_last(), msg);
        if verdict_of(outcomes.last()) is Keep {
            earlier.push(entries.last().after(msg))
        } else {
            earlier
        }
    }
}

/// The queues that are closed after a round of attempts that ended as
/// `outcomes` say: those that were found full, in registry order.
pub open spec fn shut<T>(entries: Seq<Subscriber<T>>, outcomes: Seq<Delivery>) -> Seq<
    async_std::channel::Sender<T>,
>
    decreases entries.len(),
{
    if entries.len() == 0 || outcomes.len() == 0 {
        Seq::empty()
    } else {
        let earlier = shut(entries.drop_last(), outcomes.drop_last());
        if verdict_of(outcomes.last()) is Evict {
            earlier.push(entries.last().sender)
        } else {
            earlier
        }
    }
}

/// Whether some entry carries `token`.
pub open spec fn holds<T>(entries: Seq<Subscriber<T>>, token: u64) -> bool {
    exists|i: int| 0 <= i < entries.len() && (#[trigger] entries[i]).token == token
}

/// Whether `i` is the position of the first entry that carries `token`.
pub open spec fn is_first<T>(entries: Seq<Subscriber<T>>, token: u64, i: int) -> bool {
    &&& 0 <= i < entries.len()
    &&& entries[i].token == token
    &&& forall|j: int| 0 <= j < i ==> (#[trigger] entries[j]).token != token
}

/// The position of the first entry that carries `token`.
pub open spec fn first_of<T>(entries: Seq<Subscriber<T>>, token: u64) -> int {
    choose|i: int| is_first(entries, token, i)
}

/// The entries without the first one that carries `token`: the last entry
/// takes the place of the one that leaves. Without such an entry, nothing
/// changes.
pub open spec fn without<T>(entries: Seq<Subscriber<T>>, token: u64) -> Seq<Subscriber<T>> {
    if holds(entries, token) {
        entries.update(first_of(entries, token), entries.last()).drop_last()
    } else {
        entries
    }
}

/// Among the entries that carry a token, one comes first.
pub proof fn lemma_holds_has_first<T>(entries: Seq<Subscriber<T>>, token: u64)
    requires
        holds(entries, token),
    ensures
        is_first(entries, token, first_of(entries, token)),
{
    let some = choose|i: int| 0 <= i < entries.len() && (#[trigger] entries[i]).token == token;
    lemma_first_up_to(entries, token, some);
}

/// The first entry that carries `token`, given the position of one that does.
proof fn lemma_first_up_to<T>(entries: Seq<Subscriber<T>>, token: u64, i: int) -> (first: int)
    requires
        0 <= i < entries.len(),
        entries[i].token == token,
    ensures
        is_first(entries, token, first),
    decreases i,
{
    if exists|j: int| 0 <= j < i && (#[trigger] entries[j]).token == token {
        let j = choose|j: int| 0 <= j < i && (#[trigger] entries[j]).token == token;
        lemma_first_up_to(entries, token, j)
    } else {
        i
    }
}

/// The first entry that carries a token is the only position that
/// `is_first` accepts.
pub proof fn lemma_first_is_unique<T>(entries: Seq<Subscriber<T>>, token: u64, i: int)
    requires
        is_first(entries, token, i),
    ensures
        holds(entries, token),
        first_of(entries, token) == i,
{
}

/// Where an entry that is left after a removal stood before: the last entry
/// has taken the place of the removed one, every other entry has kept its
/// place.
pub proof fn lemma_without_origin<T>(entries: Seq<Subscriber<T>>, token: u64, j: int) -> (i: int)
    requires
        0 <= j < without(entries, token).len(),
    ensures
        0 <= i < entries.len(),
        without(entries, token)[j] == entries[i],
        i == (if holds(entries, token) && j == first_of(entries, token) {
            entries.len() - 1
        } else {
            j
        }),
{
    if holds(entries, token) {
        lemma_holds_has_first(entries, token);
        if j == first_of(entries, token) {
            entries.len() - 1
        } else {
            j
        }
    } else {
        j
    }
}

/// Every survivor of a round is one of the earlier entries, its queue having
/// accepted the message.
pub proof fn lemma_survivor_origin<T>(
    entries: Seq<Subscriber<T>>,
    outcomes: Seq<Delivery>,
    msg: T,
    j: int,
) -> (i: int)
    requires
        outcomes.len() == entries.len(),
        0 <= j < survivors(entries, outcomes, msg).len(),
    ensures
        0 <= i < entries.len(),
        outcomes[i] is Accepted,
        survivors(entries, outcomes, msg)[j] == entries[i].after(msg),
    decreases entries.len(),
{
    let earlier = survivors(entries.drop_last(), outcomes.drop_last(), msg);
    if verdict_of(outcomes.last()) is Keep && j == earlier.len() {
        entries.len() - 1
    } else {
        lemma_survivor_origin(entries.drop_last(), outcomes.drop_last(), msg, j)
    }
}

/// An entry whose queue accepted the message is among the survivors.
pub proof fn lemma_accepted_survives<T>(
    entries: Seq<Subscriber<T>>,
    outcomes: Seq<Delivery>,
    msg: T,
    i: int,
) -> (j: int)
    requires
        outcomes.len() == entries.len(),
        0 <= i < entries.len(),
        outcomes[i] is Accepted,
    ensures
        0 <= j < survivors(entries, outcomes, msg).len(),
        survivors(entries, outcomes, msg)[j] == entries[i].after(msg),
    decreases entries.len(),
{
    let earlier = survivors(entries.drop_last(), outcomes.drop_last(), msg);
    if i == entries.len() - 1 {
        earlier.len() as int
    } else {
        lemma_accepted_survives(entries.drop_last(), outcomes.drop_last(), msg, i)
    }
}

/// A queue that was found full is among the queues closed in that round.
pub proof fn lemma_full_is_shut<T>(
    entries: Seq<Subscriber<T>>,
    outcomes: Seq<Delivery>,
    i: int,
) -> (k: int)
    requires
        outcomes.len() == entries.len(),
        0 <= i < entries.len(),
        outcomes[i] is Full,
    ensures
        0 <= k < shut(entries, outcomes).len(),
        shut(entries, outcomes)[k] == entries[i].sender,
    decreases entries.len(),
{
    let earlier = shut(entries.drop_last(), outcomes.drop_last());
    if i == entries.len() - 1 {
        earlier.len() as int
    } else {
        lemma_full_is_shut(entries.drop_last(), outcomes.drop_last(), i)
    }
}

/// Every queue closed in a round belongs to an entry whose queue was found
/// full.
pub proof fn lemma_shut_origin<T>(
    entries: Seq<Subscriber<T>>,
    outcomes: Seq<Delivery>,
    k: int,
) -> (i: int)
    requires
        outcomes.len() == entries.len(),
        0 <= k < shut(entries, outcomes).len(),
    ensures
        0 <= i < entries.len(),
        outcomes[i] is Full,
        shut(entries, outcomes)[k] == entries[i].sender,
    decreases entries.len(),
{
    let earlier = shut(entries.drop_last(), outcomes.drop_last());
    if verdict_of(outcomes.last()) is Evict && k == earlier.len() {
        entries.len() - 1
    } else {
        lemma_shut_origin(entries.drop_last(), outcomes.drop_last(), k)
    }
}

/// The subscribers of one kind of one topic, in registration order.
#[verifier::reject_recursive_types(T)]
pub struct Registry<T> {
    entries: Vec<Subscriber<T>>,
    closed: Ghost<Seq<async_std::channel::Sender<T>>>,
}

impl<T> View for Registry<T> {
    type V = RegistryView<T>;

    closed spec fn view(&self) -> RegistryView<T> {
        RegistryView { entries: self.entries@, closed: self.closed@ }
    }
}

impl<T> Registry<T> {
    /// A registry without subscribers that has closed no queue.
    pub fn new() -> (empty: Self)
        ensures
            empty@.entries == Seq::<Subscriber<T>>::empty(),
            empty@.closed == Seq::<async_std::channel::Sender<T>>::empty(),
    {
        Registry { entries: Vec::new(), closed: Ghost(Seq::empty()) }
    }

    /// The number of registered subscribers.
    pub fn len(&self) -> (n: usize)
        ensures
            n == self@.entries.len(),
    {
        self.entries.len()
    }

    /// Whether no subscriber is registered.
    pub fn is_empty(&self) -> (none: bool)
        ensures
            none == (self@.entries.len() == 0),
    {
        self.entries.len() == 0
    }

    /// Registers a subscriber behind all others.
    pub fn add(&mut self, subscriber: Subscriber<T>)
        ensures
            final(self)@.entries == old(self)@.entries.push(subscriber),
            final(self)@.closed == old(self)@.closed,
    {
        self.entries.push(subscriber);
    }

    /// The position of the first subscriber that carries `token`.
    pub fn position(&self, token: u64) -> (found: Option<usize>)
        ensures
            match found {
                Some(i) => is_first(self@.entries, token, i as int),
                None => !holds(self@.entries, token),
            },
    {
        let mut i: usize = 0;
        while i < self.entries.len()
            invariant
                i <= self.entries.len(),
                forall|j: int| 0 <= j < i ==> (#[trigger] self.entries@[j]).token != token,
            decreases self.entries.len() - i,
        {
            if self.entries[i].token == token {
                return Some(i);
            }
            i += 1;
        }
        None
    }

    /// Removes the first subscriber that carries `token` and says whether
    /// there was one. The last subscriber takes the freed place. A token that
    /// no subscriber carries leaves the registry as it is.
    pub fn remove(&mut self, token: u64) -> (found: bool)
        ensures
            found == holds(old(self)@.entries, token),
            final(self)@.entries == without(old(self)@.entries, token),
            final(self)@.closed == old(self)@.closed,
    {
        match self.position(token) {
            Some(i) => {
                proof {
                    lemma_first_is_unique(self.entries@, token, i as int);
                }
                let _ = self.entries.swap_remove(i);
                true
            },
            None => false,
        }
    }

    /// Offers `msg` to every subscriber in registry order, without blocking,
    /// and applies the backpressure policy to each: a subscriber whose queue
    /// accepted the message stays, one whose queue was full has its queue
    /// closed and is dropped, one whose queue was closed is dropped. `copy`
    /// makes the message that is handed to each queue. Returns what each
    /// attempt found, in registry order.
    pub fn fan_out<F: Fn(&T) -> T>(&mut self, msg: &T, copy: &F) -> (outcomes: Vec<Delivery>)
        requires
            call_requires(copy, (msg,)),
            forall|made: T| call_ensures(copy, (msg,), made) ==> made == *msg,
        ensures
            outcomes@.len() == old(self)@.entries.len(),
            final(self)@.entries == survivors(old(self)@.entries, outcomes@, *msg),
            final(self)@.closed == old(self)@.closed + shut(old(self)@.entries, outcomes@),
    {
        let mut before: Vec<Subscriber<T>> = Vec::new();
        std::mem::swap(&mut before, &mut self.entries);
        let mut outcomes: Vec<Delivery> = Vec::new();
        let ghost all = before@;
        let ghost closed_before = self.closed@;
        for entry in round: before.into_iter()
            invariant
                round.seq() == all,
                outcomes@.len() == round.index(),
                self.entries@ == survivors(all.take(round.index() as int), outcomes@, *msg),
                self.closed@ == closed_before + shut(all.take(round.index() as int), outcomes@),
                call_requires(copy, (msg,)),
                forall|made: T| call_ensures(copy, (msg,), made) ==> made == *msg,
        {
            let mut entry = entry;
            let outcome = entry.offer(copy(msg));
            proof {
                let k = round.index() as int;
                assert(all.take(k + 1).drop_last() == all.take(k));
                assert(outcomes@.push(outcome).drop_last() == outcomes@);
            }
            match backpressure(outcome) {
                Verdict::Keep => {
                    self.entries.push(entry);
                },
                Verdict::Evict => {
                    close_queue(&entry.sender);
                    self.closed = Ghost(self.closed@.push(entry.sender));
                },
                Verdict::Forget => {},
            }
            outcomes.push(outcome);
        }
        proof {
            assert(all.take(all.len() as int) == all);
        }
        outcomes
    }
}

} // verus!
