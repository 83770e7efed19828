//! The mathematical model of a topic.
//!
//! Contracts speak of a topic through its view, a [`TopicView`], and of what
//! an operation does through a relation between the view before and the view
//! after. The relations are exact in everything the library decides. What a
//! queue answers to a delivery attempt is decided elsewhere, so a publication
//! is described for whatever the queues answered.

use std::sync::Arc;
use vstd::prelude::*;

use crate::broker::codec::encodes;
use crate::broker::queue::Delivery;
use crate::broker::registry::{
    lemma_survivor_origin, lemma_without_origin, shut, survivors, without, RegistryView,
    Subscriber,
};

verus! {

/// The stable name of a topic.
pub type TopicName = Arc<String>;

/// What a serialized subscriber receives for one publication: the name of the
/// topic and the encoded value.
pub type Frame = (TopicName, Arc<[u8]>);

/// What a topic holds, as seen by contracts.
#[verifier::reject_recursive_types(E)]
pub struct TopicView<E> {
    /// The name given at construction.
    pub path: TopicName,
    /// Whether outside actors may read the topic.
    pub web_readable: bool,
    /// Whether outside actors may write the topic.
    pub web_writable: bool,
    /// The most recently published value, if there is one.
    pub retained: Option<Arc<E>>,
    /// The cached encoding of the retained value, if it has been computed.
    pub cached: Option<Arc<[u8]>>,
    /// Every value the topic has retained, oldest first.
    pub history: Seq<Arc<E>>,
    /// The native subscribers.
    pub native: RegistryView<Arc<E>>,
    /// The serialized subscribers.
    pub serialized: RegistryView<Frame>,
}

/// A subscriber that has just joined a topic that has published `since`
/// values: it has received nothing yet.
pub open spec fn newcomer<T>(
    token: u64,
    sender: async_std::channel::Sender<T>,
    since: nat,
) -> Subscriber<T> {
    Subscriber { token, sender, since: Ghost(since), accepted: Ghost(Seq::empty()) }
}

/// A native subscriber has received exactly the values published since it
/// joined, in publication order.
pub open spec fn heard_all<E>(subscriber: Subscriber<Arc<E>>, history: Seq<Arc<E>>) -> bool {
    &&& subscriber.since@ <= history.len()
    &&& subscriber.accepted@ == history.subrange(subscriber.since@ as int, history.len() as int)
}

/// A serialized subscriber has received exactly one frame for each value
/// published since it joined, in publication order; each frame names the
/// topic and carries an encoding of that value.
pub open spec fn heard_all_as_bytes<E, Enc: Fn(&E) -> Vec<u8>>(
    subscriber: Subscriber<Frame>,
    path: TopicName,
    history: Seq<Arc<E>>,
    encode: Enc,
) -> bool {
    &&& subscriber.since@ <= history.len()
    &&& subscriber.accepted@.len() == history.len() - subscriber.since@
    &&& forall|k: int|
        0 <= k < subscriber.accepted@.len() ==> (#[trigger] subscriber.accepted@[k]).0 == path
            && encodes(encode, *history[subscriber.since@ + k], subscriber.accepted@[k].1@)
}

/// The invariant of a topic.
///
/// The retained value is the last value of the history. A cached encoding
/// encodes the retained value. Every subscriber that is still registered has
/// received exactly the values published since it joined.
pub open spec fn coherent<E, Enc: Fn(&E) -> Vec<u8>>(view: TopicView<E>, encode: Enc) -> bool {
    &&& view.retained == (if view.history.len() > 0 {
        Some(view.history.last())
    } else {
        None
    })
    &&& view.cached matches Some(bytes) ==> view.retained matches Some(value) && encodes(
        encode,
        *value,
        bytes@,
    )
    &&& forall|i: int|
        0 <= i < view.native.entries.len() ==> heard_all(
            #[trigger] view.native.entries[i],
            view.history,
        )
    &&& forall|i: int|
        0 <= i < view.serialized.entries.len() ==> heard_all_as_bytes(
            #[trigger] view.serialized.entries[i],
            view.path,
            view.history,
            encode,
        )
}

/// One round of delivery: `msg` was offered once to every subscriber of
/// `before`, and `after` is what the backpressure policy leaves, whatever the
/// queues answered.
pub open spec fn fanned<T>(before: RegistryView<T>, msg: T, after: RegistryView<T>) -> bool {
    exists|outcomes: Seq<Delivery>|
        outcomes.len() == before.entries.len() && after.entries == #[trigger] survivors(
            before.entries,
            outcomes,
            msg,
        ) && after.closed == before.closed + shut(before.entries, outcomes)
}

/// One publication of `msg`.
///
/// The value is offered once to every native subscriber. If there is a
/// serialized subscriber, the value is encoded once, the encoding is cached
/// and one frame with it is offered to every serialized subscriber; if there
/// is none, nothing is encoded. Then `msg` is the retained value.
pub open spec fn published<E, Enc: Fn(&E) -> Vec<u8>>(
    before: TopicView<E>,
    msg: Arc<E>,
    after: TopicView<E>,
    encode: Enc,
) -> bool {
    &&& after.path == before.path
    &&& after.web_readable == before.web_readable
    &&& after.web_writable == before.web_writable
    &&& after.retained == Some(msg)
    &&& after.history == before.history.push(msg)
    &&& fanned(before.native, msg, after.native)
    &&& if before.serialized.entries.len() == 0 {
        after.cached is None && after.serialized == before.serialized
    } else {
        after.cached matches Some(bytes) && encodes(encode, *msg, bytes@) && fanned(
            before.serialized,
            (before.path, bytes),
            after.serialized,
        )
    }
}

/// A read-modify-write cycle whose transformation answered `outcome`: a new
/// value is published, no new value leaves everything as it was.
pub open spec fn modified<E, Enc: Fn(&E) -> Vec<u8>>(
    before: TopicView<E>,
    outcome: Option<Arc<E>>,
    after: TopicView<E>,
    encode: Enc,
) -> bool {
    match outcome {
        Some(msg) => published(before, msg, after, encode),
        None => after == before,
    }
}

/// The topic with one more native subscriber, which joins behind the others.
pub open spec fn joined<E>(
    before: TopicView<E>,
    token: u64,
    sender: async_std::channel::Sender<Arc<E>>,
) -> TopicView<E> {
    TopicView {
        native: RegistryView {
            entries: before.native.entries.push(
                newcomer(token, sender, before.history.len()),
            ),
            closed: before.native.closed,
        },
        ..before
    }
}

/// The topic with one more serialized subscriber, which joins behind the
/// others.
pub open spec fn joined_as_bytes<E>(
    before: TopicView<E>,
    token: u64,
    sender: async_std::channel::Sender<Frame>,
) -> TopicView<E> {
    TopicView {
        serialized: RegistryView {
            entries: before.serialized.entries.push(
                newcomer(token, sender, before.history.len()),
            ),
            closed: before.serialized.closed,
        },
        ..before
    }
}

/// The topic without the first native subscriber that carries `token`.
pub open spec fn left<E>(before: TopicView<E>, token: u64) -> TopicView<E> {
    TopicView {
        native: RegistryView {
            entries: without(before.native.entries, token),
            closed: before.native.closed,
        },
        ..before
    }
}

/// The topic without the first serialized subscriber that carries `token`.
pub open spec fn left_as_bytes<E>(before: TopicView<E>, token: u64) -> TopicView<E> {
    TopicView {
        serialized: RegistryView {
            entries: without(before.serialized.entries, token),
            closed: before.serialized.closed,
        },
        ..before
    }
}

/// A read of the current value as bytes that answered `bytes`.
///
/// Without a retained value the answer is nothing. With a cached encoding the
/// answer is the cache. Otherwise the retained value is encoded, and the
/// answer is cached. The read changes nothing else.
pub open spec fn read_as_bytes<E, Enc: Fn(&E) -> Vec<u8>>(
    before: TopicView<E>,
    bytes: Option<Arc<[u8]>>,
    after: TopicView<E>,
    encode: Enc,
) -> bool {
    match before.retained {
        None => bytes is None && after == before,
        Some(value) => match before.cached {
            Some(kept) => bytes == Some(kept) && after == before,
            None => bytes matches Some(made) && encodes(encode, *value, made@) && after == (
            TopicView { cached: Some(made), ..before }),
        },
    }
}

/// A publication keeps the invariant.
pub proof fn lemma_published_coherent<E, Enc: Fn(&E) -> Vec<u8>>(
    before: TopicView<E>,
    msg: Arc<E>,
    after: TopicView<E>,
    encode: Enc,
)
    requires
        coherent(before, encode),
        published(before, msg, after, encode),
    ensures
        coherent(after, encode),
{
    assert forall|j: int| 0 <= j < after.native.entries.len() implies heard_all(
        #[trigger] after.native.entries[j],
        after.history,
    ) by {
        let outcomes = choose|outcomes: Seq<Delivery>|
            outcomes.len() == before.native.entries.len() && after.native.entries
                == #[trigger] survivors(before.native.entries, outcomes, msg) && after.native.closed
                == before.native.closed + shut(before.native.entries, outcomes);
        let i = lemma_survivor_origin(before.native.entries, outcomes, msg, j);
        let earlier = before.native.entries[i];
        assert(after.native.entries[j].accepted@ =~= after.history.subrange(
            earlier.since@ as int,
            after.history.len() as int,
        ));
    }
    assert forall|j: int| 0 <= j < after.serialized.entries.len() implies heard_all_as_bytes(
        #[trigger] after.serialized.entries[j],
        after.path,
        after.history,
        encode,
    ) by {
        if before.serialized.entries.len() > 0 {
            let bytes = after.cached.unwrap();
            let frame = (before.path, bytes);
            let outcomes = choose|outcomes: Seq<Delivery>|
                outcomes.len() == before.serialized.entries.len() && after.serialized.entries
                    == #[trigger] survivors(before.serialized.entries, outcomes, frame)
                    && after.serialized.closed == before.serialized.closed + shut(
                    before.serialized.entries,
                    outcomes,
                );
            lemma_survivor_origin(before.serialized.entries, outcomes, frame, j);
        }
    }
}

/// A new native subscriber keeps the invariant.
pub proof fn lemma_joined_coherent<E, Enc: Fn(&E) -> Vec<u8>>(
    before: TopicView<E>,
    token: u64,
    sender: async_std::channel::Sender<Arc<E>>,
    encode: Enc,
)
    requires
        coherent(before, encode),
    ensures
        coherent(joined(before, token, sender), encode),
{
    let after = joined(before, token, sender);
    assert forall|j: int| 0 <= j < after.native.entries.len() implies heard_all(
        #[trigger] after.native.entries[j],
        after.history,
    ) by {
        if j >= before.native.entries.len() {
            assert(after.native.entries[j].accepted@ =~= after.history.subrange(
                after.history.len() as int,
                after.history.len() as int,
            ));
        }
    }
}

/// A new serialized subscriber keeps the invariant.
pub proof fn lemma_joined_as_bytes_coherent<E, Enc: Fn(&E) -> Vec<u8>>(
    before: TopicView<E>,
    token: u64,
    sender: async_std::channel::Sender<Frame>,
    encode: Enc,
)
    requires
        coherent(before, encode),
    ensures
        coherent(joined_as_bytes(before, token, sender), encode),
{
    let after = joined_as_bytes(before, token, sender);
    assert forall|j: int| 0 <= j < after.serialized.entries.len() implies heard_all_as_bytes(
        #[trigger] after.serialized.entries[j],
        after.path,
        after.history,
        encode,
    ) by {
    }
}

/// The removal of a native subscriber keeps the invariant.
pub proof fn lemma_left_coherent<E, Enc: Fn(&E) -> Vec<u8>>(
    before: TopicView<E>,
    token: u64,
    encode: Enc,
)
    requires
        coherent(before, encode),
    ensures
        coherent(left(before, token), encode),
{
    let after = left(before, token);
    assert forall|j: int| 0 <= j < after.native.entries.len() implies heard_all(
        #[trigger] after.native.entries[j],
        after.history,
    ) by {
        lemma_without_origin(before.native.entries, token, j);
    }
}

/// The removal of a serialized subscriber keeps the invariant.
pub proof fn lemma_left_as_bytes_coherent<E, Enc: Fn(&E) -> Vec<u8>>(
    before: TopicView<E>,
    token: u64,
    encode: Enc,
)
    requires
        coherent(before, encode),
    ensures
        coherent(left_as_bytes(before, token), encode),
{
    let after = left_as_bytes(before, token);
    assert forall|j: int| 0 <= j < after.serialized.entries.len() implies heard_all_as_bytes(
        #[trigger] after.serialized.entries[j],
        after.path,
        after.history,
        encode,
    ) by {
        lemma_without_origin(before.serialized.entries, token, j);
    }
}

/// A read as bytes keeps the invariant.
pub proof fn lemma_read_as_bytes_coherent<E, Enc: Fn(&E) -> Vec<u8>>(
    before: TopicView<E>,
    bytes: Option<Arc<[u8]>>,
    after: TopicView<E>,
    encode: Enc,
)
    requires
        coherent(before, encode),
        read_as_bytes(before, bytes, after, encode),
    ensures
        coherent(after, encode),
{
    assert forall|j: int| 0 <= j < after.native.entries.len() implies heard_all(
        #[trigger] after.native.entries[j],
        after.history,
    ) by {
    }
    assert forall|j: int| 0 <= j < after.serialized.entries.len() implies heard_all_as_bytes(
        #[trigger] after.serialized.entries[j],
        after.path,
        after.history,
        encode,
    ) by {
    }
}

} // verus!
