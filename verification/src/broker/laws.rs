//! What holds of every topic, stated over the model.
//!
//! Each law takes the views between which operations ran, as the contracts
//! of the operations relate them, and states what follows.

use std::sync::Arc;
use vstd::prelude::*;

use crate::broker::codec::{decodes, encodes, DecodeError};
use crate::broker::model::{
    coherent, joined, joined_as_bytes, left, left_as_bytes, lemma_joined_as_bytes_coherent,
    lemma_joined_coherent, lemma_left_as_bytes_coherent, lemma_left_coherent,
    lemma_published_coherent, lemma_read_as_bytes_coherent, modified, newcomer, published,
    read_as_bytes, Frame, TopicView,
};
use crate::broker::queue::Delivery;
use crate::broker::registry::{
    holds, lemma_accepted_survives, lemma_full_is_shut, lemma_holds_has_first,
    lemma_shut_origin, lemma_survivor_origin, lemma_without_origin, shut, survivors, without,
    Subscriber,
};
use crate::broker::topic::decoded_set;

verus! {

/// The values `msgs` were published one after the other, oldest first:
/// `states` holds the view of the topic before the first publication and
/// after each one.
pub open spec fn published_in_turn<E, Enc: Fn(&E) -> Vec<u8>>(
    states: Seq<TopicView<E>>,
    msgs: Seq<Arc<E>>,
    encode: Enc,
) -> bool {
    &&& states.len() == msgs.len() + 1
    &&& forall|k: int|
        0 <= k < msgs.len() ==> published(#[trigger] states[k], msgs[k], states[k + 1], encode)
}

/// One operation took the topic from `before` to `after`: a publication, a
/// new subscriber of either kind, the end of a subscription of either kind, a
/// read as bytes, or an operation that changes nothing.
pub open spec fn stepped<E, Enc: Fn(&E) -> Vec<u8>>(
    before: TopicView<E>,
    after: TopicView<E>,
    encode: Enc,
) -> bool {
    ||| after == before
    ||| exists|msg: Arc<E>| #[trigger] published(before, msg, after, encode)
    ||| exists|token: u64, sender: async_std::channel::Sender<Arc<E>>|
        after == #[trigger] joined(before, token, sender)
    ||| exists|token: u64, sender: async_std::channel::Sender<Frame>|
        after == #[trigger] joined_as_bytes(before, token, sender)
    ||| exists|token: u64| after == #[trigger] left(before, token)
    ||| exists|token: u64| after == #[trigger] left_as_bytes(before, token)
    ||| exists|bytes: Option<Arc<[u8]>>| #[trigger] read_as_bytes(before, bytes, after, encode)
}

/// Whatever operations run on a topic and in whatever order, the invariant
/// holds after each of them: the retained value is the value published last,
/// and every subscriber that is registered has received exactly the values
/// published since it joined, in publication order.
pub proof fn law_invariant_holds_in_every_state<E, Enc: Fn(&E) -> Vec<u8>>(
    states: Seq<TopicView<E>>,
    encode: Enc,
    n: int,
)
    requires
        0 <= n < states.len(),
        coherent(states[0], encode),
        forall|k: int|
            0 <= k < states.len() - 1 ==> stepped(#[trigger] states[k], states[k + 1], encode),
    ensures
        coherent(states[n], encode),
        states[n].retained == (if states[n].history.len() > 0 {
            Some(states[n].history.last())
        } else {
            None
        }),
        forall|i: int|
            0 <= i < states[n].native.entries.len() ==> (
            #[trigger] states[n].native.entries[i]).accepted@ == states[n].history.subrange(
                states[n].native.entries[i].since@ as int,
                states[n].history.len() as int,
            ),
    decreases n,
{
    if n > 0 {
        law_invariant_holds_in_every_state(states, encode, n - 1);
        let before = states[n - 1];
        let after = states[n];
        if after == before {
            // Nothing changed.
        } else if exists|msg: Arc<E>| #[trigger] published(before, msg, after, encode) {
            let msg = choose|msg: Arc<E>| #[trigger] published(before, msg, after, encode);
            lemma_published_coherent(before, msg, after, encode);
        } else if exists|token: u64, sender: async_std::channel::Sender<Arc<E>>|
            after == #[trigger] joined(before, token, sender) {
            let (token, sender) = choose|token: u64, sender: async_std::channel::Sender<Arc<E>>|
                after == #[trigger] joined(before, token, sender);
            lemma_joined_coherent(before, token, sender, encode);
        } else if exists|token: u64, sender: async_std::channel::Sender<Frame>|
            after == #[trigger] joined_as_bytes(before, token, sender) {
            let (token, sender) = choose|token: u64, sender: async_std::channel::Sender<Frame>|
                after == #[trigger] joined_as_bytes(before, token, sender);
            lemma_joined_as_bytes_coherent(before, token, sender, encode);
        } else if exists|token: u64| after == #[trigger] left(before, token) {
            let token = choose|token: u64| after == #[trigger] left(before, token);
            lemma_left_coherent(before, token, encode);
        } else if exists|token: u64| after == #[trigger] left_as_bytes(before, token) {
            let token = choose|token: u64| after == #[trigger] left_as_bytes(before, token);
            lemma_left_as_bytes_coherent(before, token, encode);
        } else {
            let bytes = choose|bytes: Option<Arc<[u8]>>| #[trigger]
                read_as_bytes(before, bytes, after, encode);
            lemma_read_as_bytes_coherent(before, bytes, after, encode);
        }
    }
}

/// No two entries carry the same token.
pub open spec fn distinct_tokens<T>(entries: Seq<Subscriber<T>>) -> bool {
    forall|i: int, j: int|
        0 <= i < j < entries.len() ==> (#[trigger] entries[i]).token != (
        #[trigger] entries[j]).token
}

/// A run of publications keeps the invariant and adds exactly the published
/// values to the history, in order.
pub proof fn lemma_published_in_turn<E, Enc: Fn(&E) -> Vec<u8>>(
    states: Seq<TopicView<E>>,
    msgs: Seq<Arc<E>>,
    encode: Enc,
    n: int,
)
    requires
        coherent(states[0], encode),
        published_in_turn(states, msgs, encode),
        0 <= n <= msgs.len(),
    ensures
        coherent(states[n], encode),
        states[n].history == states[0].history + msgs.take(n),
        states[n].path == states[0].path,
        states[n].web_readable == states[0].web_readable,
        states[n].web_writable == states[0].web_writable,
    decreases n,
{
    if n > 0 {
        lemma_published_in_turn(states, msgs, encode, n - 1);
        lemma_published_coherent(states[n - 1], msgs[n - 1], states[n], encode);
    }
}

/// After any run of publications, the retained value is the value published
/// last, never an older one: that is what a read returns.
pub proof fn law_latest_value_is_retained<E, Enc: Fn(&E) -> Vec<u8>>(
    states: Seq<TopicView<E>>,
    msgs: Seq<Arc<E>>,
    encode: Enc,
)
    requires
        published_in_turn(states, msgs, encode),
        msgs.len() > 0,
    ensures
        states.last().retained == Some(msgs.last()),
{
    let n = msgs.len() as int;
    assert(published(states[n - 1], msgs[n - 1], states[n - 1 + 1], encode));
}

/// A native subscriber that was registered before a run of publications and
/// is still registered after it has received exactly the published values, in
/// publication order, after whatever it had received before.
pub proof fn law_subscriber_hears_every_publication<E, Enc: Fn(&E) -> Vec<u8>>(
    states: Seq<TopicView<E>>,
    msgs: Seq<Arc<E>>,
    encode: Enc,
    i: int,
)
    requires
        coherent(states[0], encode),
        published_in_turn(states, msgs, encode),
        0 <= i < states.last().native.entries.len(),
        states.last().native.entries[i].since@ <= states[0].history.len(),
    ensures
        states.last().native.entries[i].accepted@ == states[0].history.subrange(
            states.last().native.entries[i].since@ as int,
            states[0].history.len() as int,
        ) + msgs,
{
    lemma_published_in_turn(states, msgs, encode, msgs.len() as int);
    let subscriber = states.last().native.entries[i];
    assert(subscriber.accepted@ =~= states[0].history.subrange(
        subscriber.since@ as int,
        states[0].history.len() as int,
    ) + msgs);
}

/// A serialized subscriber that was registered before a run of publications
/// and is still registered after it has received exactly one frame for each
/// published value, in publication order, after whatever it had received
/// before. Each frame names the topic and carries an encoding of its value.
pub proof fn law_byte_subscriber_hears_every_publication<E, Enc: Fn(&E) -> Vec<u8>>(
    states: Seq<TopicView<E>>,
    msgs: Seq<Arc<E>>,
    encode: Enc,
    i: int,
)
    requires
        coherent(states[0], encode),
        published_in_turn(states, msgs, encode),
        0 <= i < states.last().serialized.entries.len(),
        states.last().serialized.entries[i].since@ <= states[0].history.len(),
    ensures
        ({
            let subscriber = states.last().serialized.entries[i];
            let earlier = states[0].history.len() - subscriber.since@;
            &&& subscriber.accepted@.len() == earlier + msgs.len()
            &&& forall|k: int|
                0 <= k < msgs.len() ==> (#[trigger] subscriber.accepted@[earlier + k]).0
                    == states[0].path && encodes(
                    encode,
                    *msgs[k],
                    subscriber.accepted@[earlier + k].1@,
                )
        }),
{
    lemma_published_in_turn(states, msgs, encode, msgs.len() as int);
}

/// A subscriber whose queue was found full in a round of delivery is dropped
/// and its queue is closed in that round. If no other subscriber carries its
/// token, no subscriber carries it afterwards.
pub proof fn law_full_queue_is_closed_and_dropped<T>(
    entries: Seq<Subscriber<T>>,
    outcomes: Seq<Delivery>,
    msg: T,
    i: int,
)
    requires
        outcomes.len() == entries.len(),
        0 <= i < entries.len(),
        outcomes[i] is Full,
        distinct_tokens(entries),
    ensures
        shut(entries, outcomes).contains(entries[i].sender),
        !holds(survivors(entries, outcomes, msg), entries[i].token),
{
    lemma_full_is_shut(entries, outcomes, i);
    let after = survivors(entries, outcomes, msg);
    assert forall|j: int| 0 <= j < after.len() implies (#[trigger] after[j]).token
        != entries[i].token by {
        lemma_survivor_origin(entries, outcomes, msg, j);
    }
}

/// In a round of delivery the fate of a subscriber depends on what its own
/// queue answered and on nothing else: a subscriber whose queue accepted the
/// message stays, with the message added to what it has received, whatever
/// the other queues answered.
pub proof fn law_accepting_subscriber_stays<T>(
    entries: Seq<Subscriber<T>>,
    outcomes: Seq<Delivery>,
    msg: T,
    i: int,
)
    requires
        outcomes.len() == entries.len(),
        0 <= i < entries.len(),
        outcomes[i] is Accepted,
    ensures
        survivors(entries, outcomes, msg).contains(entries[i].after(msg)),
{
    lemma_accepted_survives(entries, outcomes, msg, i);
}

/// The only queues a round of delivery closes are queues that were found
/// full. A queue that was closed already is left alone.
pub proof fn law_only_full_queues_are_closed<T>(
    entries: Seq<Subscriber<T>>,
    outcomes: Seq<Delivery>,
    k: int,
)
    requires
        outcomes.len() == entries.len(),
        0 <= k < shut(entries, outcomes).len(),
    ensures
        exists|i: int|
            0 <= i < entries.len() && #[trigger] outcomes[i] is Full && entries[i].sender == shut(
                entries,
                outcomes,
            )[k],
{
    lemma_shut_origin(entries, outcomes, k);
}

/// Tokens that are distinct stay distinct: through a round of delivery,
/// through the removal of a subscriber, and when a subscriber joins whose
/// token no subscriber carries yet.
pub proof fn law_tokens_stay_distinct<T>(
    entries: Seq<Subscriber<T>>,
    outcomes: Seq<Delivery>,
    msg: T,
    token: u64,
    sender: async_std::channel::Sender<T>,
    since: nat,
)
    requires
        distinct_tokens(entries),
        outcomes.len() == entries.len(),
    ensures
        distinct_tokens(survivors(entries, outcomes, msg)),
        distinct_tokens(without(entries, token)),
        !holds(entries, token) ==> distinct_tokens(entries.push(newcomer(token, sender, since))),
{
    lemma_survivors_distinct(entries, outcomes, msg);
    let rest = without(entries, token);
    assert forall|a: int, b: int| 0 <= a < b < rest.len() implies (#[trigger] rest[a]).token != (
    #[trigger] rest[b]).token by {
        lemma_without_origin(entries, token, a);
        lemma_without_origin(entries, token, b);
        if holds(entries, token) {
            lemma_holds_has_first(entries, token);
        }
    }
    if !holds(entries, token) {
        let more = entries.push(newcomer(token, sender, since));
        assert forall|a: int, b: int| 0 <= a < b < more.len() implies (#[trigger] more[a]).token
            != (#[trigger] more[b]).token by {
        }
    }
}

/// A round of delivery keeps tokens distinct.
proof fn lemma_survivors_distinct<T>(entries: Seq<Subscriber<T>>, outcomes: Seq<Delivery>, msg: T)
    requires
        distinct_tokens(entries),
        outcomes.len() == entries.len(),
    ensures
        distinct_tokens(survivors(entries, outcomes, msg)),
    decreases entries.len(),
{
    let after = survivors(entries, outcomes, msg);
    if entries.len() > 0 {
        let head = entries.drop_last();
        let head_outcomes = outcomes.drop_last();
        let earlier = survivors(head, head_outcomes, msg);
        assert forall|i: int, j: int| 0 <= i < j < head.len() implies (#[trigger] head[i]).token
            != (#[trigger] head[j]).token by {
        }
        lemma_survivors_distinct(head, head_outcomes, msg);
        assert forall|a: int, b: int| 0 <= a < b < after.len() implies (#[trigger] after[a]).token
            != (#[trigger] after[b]).token by {
            if b >= earlier.len() {
                lemma_survivor_origin(head, head_outcomes, msg, a);
            }
        }
    }
}

/// Ending a subscription whose token no subscriber carries, because the
/// subscriber was evicted or has unsubscribed before, changes nothing.
pub proof fn law_stale_unsubscribe_changes_nothing<E>(view: TopicView<E>, token: u64)
    ensures
        !holds(view.native.entries, token) ==> left(view, token) == view,
        !holds(view.serialized.entries, token) ==> left_as_bytes(view, token) == view,
{
}

/// Ending a subscription is idempotent: where tokens are distinct, ending it
/// a second time changes nothing.
pub proof fn law_unsubscribe_is_idempotent<E>(view: TopicView<E>, token: u64)
    ensures
        distinct_tokens(view.native.entries) ==> left(left(view, token), token) == left(
            view,
            token,
        ),
        distinct_tokens(view.serialized.entries) ==> left_as_bytes(
            left_as_bytes(view, token),
            token,
        ) == left_as_bytes(view, token),
{
    if distinct_tokens(view.native.entries) {
        lemma_removed_token_is_gone(view.native.entries, token);
    }
    if distinct_tokens(view.serialized.entries) {
        lemma_removed_token_is_gone(view.serialized.entries, token);
    }
}

/// Where tokens are distinct, no entry carries a token after its removal.
proof fn lemma_removed_token_is_gone<T>(entries: Seq<Subscriber<T>>, token: u64)
    requires
        distinct_tokens(entries),
    ensures
        !holds(without(entries, token), token),
{
    let rest = without(entries, token);
    if holds(entries, token) {
        lemma_holds_has_first(entries, token);
        assert forall|j: int| 0 <= j < rest.len() implies (#[trigger] rest[j]).token != token by {
            lemma_without_origin(entries, token, j);
        }
    }
}

/// A reader that found no retained value and was subscribed in the same step
/// receives the very next published value first, and that value is retained
/// from then on.
pub proof fn law_waiting_reader_gets_next_value<E, Enc: Fn(&E) -> Vec<u8>>(
    before: TopicView<E>,
    token: u64,
    sender: async_std::channel::Sender<Arc<E>>,
    msg: Arc<E>,
    after: TopicView<E>,
    encode: Enc,
    i: int,
)
    requires
        coherent(before, encode),
        before.retained is None,
        published(joined(before, token, sender), msg, after, encode),
        0 <= i < after.native.entries.len(),
        after.native.entries[i].since@ == before.history.len(),
    ensures
        after.native.entries[i].accepted@ == seq![msg],
        after.retained == Some(msg),
{
    let waiting = joined(before, token, sender);
    lemma_joined_coherent(before, token, sender, encode);
    lemma_published_coherent(waiting, msg, after, encode);
    assert(after.native.entries[i].accepted@ =~= seq![msg]);
}

/// A read-modify-write cycle that answers a new value is exactly one
/// publication of that value: it is retained, the history grows by it alone,
/// and every native subscriber that stays has received it once more than
/// before. A cycle that answers nothing leaves the topic as it was.
pub proof fn law_modify_publishes_once_or_not_at_all<E, Enc: Fn(&E) -> Vec<u8>>(
    before: TopicView<E>,
    outcome: Option<Arc<E>>,
    after: TopicView<E>,
    encode: Enc,
)
    requires
        coherent(before, encode),
        modified(before, outcome, after, encode),
    ensures
        coherent(after, encode),
        match outcome {
            Some(msg) => {
                &&& after.retained == Some(msg)
                &&& after.history == before.history.push(msg)
                &&& forall|j: int|
                    0 <= j < after.native.entries.len() ==> exists|i: int|
                        0 <= i < before.native.entries.len() && (
                        #[trigger] after.native.entries[j]) == (
                        #[trigger] before.native.entries[i]).after(msg)
            },
            None => after == before,
        },
{
    if let Some(msg) = outcome {
        lemma_published_coherent(before, msg, after, encode);
        let outcomes = choose|outcomes: Seq<Delivery>|
            outcomes.len() == before.native.entries.len() && after.native.entries
                == #[trigger] survivors(before.native.entries, outcomes, msg) && after.native.closed
                == before.native.closed + shut(before.native.entries, outcomes);
        assert forall|j: int| 0 <= j < after.native.entries.len() implies exists|i: int|
            0 <= i < before.native.entries.len() && (#[trigger] after.native.entries[j]) == (
            #[trigger] before.native.entries[i]).after(msg) by {
            lemma_survivor_origin(before.native.entries, outcomes, msg, j);
        }
    }
}

/// Round trip through the byte interface. Let `bytes` be the encoding of
/// `value`, for a codec that encodes `value` in one way only and decodes that
/// encoding to `value` again. Then writing `bytes` succeeds, and a read as
/// bytes after it answers exactly `bytes`.
pub proof fn law_bytes_round_trip<
    E,
    Enc: Fn(&E) -> Vec<u8>,
    Dec: Fn(&[u8]) -> Result<E, serde_json::Error>,
>(
    before: TopicView<E>,
    value: E,
    bytes: Seq<u8>,
    decoded: Result<E, serde_json::Error>,
    written: TopicView<E>,
    result: Result<(), DecodeError>,
    read: Option<Arc<[u8]>>,
    after: TopicView<E>,
    encode: Enc,
    decode: Dec,
)
    requires
        encodes(encode, value, bytes),
        forall|other: Seq<u8>| encodes(encode, value, other) ==> other == bytes,
        forall|outcome: Result<E, serde_json::Error>| #[trigger]
            decodes(decode, bytes, outcome) ==> outcome == Ok::<E, serde_json::Error>(value),
        decodes(decode, bytes, decoded),
        decoded_set(before, decoded, written, result, encode),
        read_as_bytes(written, read, after, encode),
    ensures
        result is Ok,
        written.retained matches Some(held) && *held == value,
        read matches Some(answer) && answer@ == bytes,
{
}

} // verus!
