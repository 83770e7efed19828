//! Topics: named, typed publish/subscribe units with one retained value.
//!
//! A topic is a sequential object. Its operations take `&mut self`, so a
//! caller that shares a topic between tasks guards it with a lock; holding
//! that lock for the length of one operation is what makes a publication
//! atomic with respect to the retained value and to new subscriptions.

use std::marker::PhantomData;
use std::sync::Arc;
use vstd::prelude::*;

use crate::broker::codec::{decodes, DecodeError};
use crate::broker::model::{
    coherent, joined, joined_as_bytes, left, left_as_bytes, lemma_joined_as_bytes_coherent,
    lemma_joined_coherent, lemma_left_as_bytes_coherent, lemma_left_coherent,
    lemma_published_coherent, lemma_read_as_bytes_coherent, modified, newcomer, published,
    read_as_bytes, Frame, TopicName, TopicView,
};
use crate::broker::queue::unbounded_queue;
use crate::broker::registry::{without, Registry, RegistryView, Subscriber};
use crate::broker::retained::RetainedValue;
use crate::broker::sharing::share;
use crate::broker::token::mint_token;

verus! {

/// Marks the handle of a native subscription.
pub struct Native;

/// Marks the handle of a serialized subscription.
pub struct Serialized;

/// The capability to end one subscription.
///
/// `M` is what the subscriber receives: the payload type of the topic for a
/// native subscription, `[u8]` for a serialized one. `K` is [`Native`] or
/// [`Serialized`]. The handle holds the token of the subscription and nothing
/// of the topic, so it can neither keep a topic alive nor outlive it.
pub struct SubscriptionHandle<M: ?Sized, K> {
    token: u64,
    phantom: PhantomData<(K, M)>,
}

impl<M: ?Sized, K> SubscriptionHandle<M, K> {
    /// The token of the subscription that the handle ends.
    pub closed spec fn token(&self) -> u64 {
        self.token
    }
}

/// What a blocking read finds.
#[verifier::reject_recursive_types(E)]
pub enum Fetch<E> {
    /// A value is retained: this is it.
    Ready(Arc<E>),
    /// No value has been published yet. The topic has registered a new
    /// unbounded subscription; the next published value arrives on the queue.
    /// The reader waits for it and then ends the subscription with the
    /// handle.
    Wait(async_std::channel::Receiver<Arc<E>>, SubscriptionHandle<E, Native>),
}

/// A named publish/subscribe unit for payloads of type `E`, with the
/// functions that encode a payload to bytes and decode bytes to a payload.
#[verifier::reject_recursive_types(E)]
pub struct Topic<E, Enc, Dec> {
    path: TopicName,
    web_readable: bool,
    web_writable: bool,
    retained: Option<RetainedValue<E>>,
    senders: Registry<Arc<E>>,
    senders_serialized: Registry<Frame>,
    encode: Enc,
    decode: Dec,
    history: Ghost<Seq<Arc<E>>>,
}

impl<E, Enc, Dec> View for Topic<E, Enc, Dec> {
    type V = TopicView<E>;

    closed spec fn view(&self) -> TopicView<E> {
        TopicView {
            path: self.path,
            web_readable: self.web_readable,
            web_writable: self.web_writable,
            retained: match self.retained {
                Some(held) => Some(held.value()),
                None => None,
            },
            cached: match self.retained {
                Some(held) => held.cached(),
                None => None,
            },
            history: self.history@,
            native: self.senders@,
            serialized: self.senders_serialized@,
        }
    }
}

/// What a topic shows through its byte interface, where the payload type is
/// not known.
pub struct ErasedView {
    /// The name given at construction.
    pub path: TopicName,
    /// Whether outside actors may read the topic.
    pub web_readable: bool,
    /// Whether outside actors may write the topic.
    pub web_writable: bool,
    /// How many values the topic has retained so far.
    pub published: nat,
    /// The cached encoding of the retained value, if it has been computed.
    pub cached: Option<Arc<[u8]>>,
    /// The serialized subscribers.
    pub serialized: RegistryView<Frame>,
}

/// The part of a topic's view that its byte interface shows.
pub open spec fn erased<E>(view: TopicView<E>) -> ErasedView {
    ErasedView {
        path: view.path,
        web_readable: view.web_readable,
        web_writable: view.web_writable,
        published: view.history.len(),
        cached: view.cached,
        serialized: view.serialized,
    }
}

/// What `set_decoded` does with the outcome of decoding: a decoded value is
/// published, a decode error is reported and changes nothing.
pub open spec fn decoded_set<E, Enc: Fn(&E) -> Vec<u8>>(
    before: TopicView<E>,
    decoded: Result<E, serde_json::Error>,
    after: TopicView<E>,
    result: Result<(), DecodeError>,
    encode: Enc,
) -> bool {
    match decoded {
        Ok(value) => {
            &&& result is Ok
            &&& after.retained matches Some(held)
            &&& *held == value
            &&& published(before, held, after, encode)
        },
        Err(cause) => result == Err::<(), DecodeError>(DecodeError { cause }) && after == before,
    }
}

impl<E, Enc: Fn(&E) -> Vec<u8>, Dec: Fn(&[u8]) -> Result<E, serde_json::Error>> Topic<E, Enc, Dec> {
    /// The function that encodes payloads.
    pub closed spec fn encoder(&self) -> Enc {
        self.encode
    }

    /// The function that decodes payloads.
    pub closed spec fn decoder(&self) -> Dec {
        self.decode
    }

    /// Well-formedness: the encoder and the decoder accept every input, and
    /// the invariant of the model holds.
    pub closed spec fn wf(&self) -> bool {
        &&& forall|value: &E| #[trigger] call_requires(self.encode, (value,))
        &&& forall|bytes: &[u8]| #[trigger] call_requires(self.decode, (bytes,))
        &&& coherent(self@, self.encode)
    }

    /// A well-formed topic satisfies the invariant of the model, and its
    /// encoder and decoder accept every input.
    pub proof fn lemma_wf(&self)
        requires
            self.wf(),
        ensures
            coherent(self@, self.encoder()),
            forall|value: &E| #[trigger] call_requires(self.encoder(), (value,)),
            forall|bytes: &[u8]| #[trigger] call_requires(self.decoder(), (bytes,)),
    {
    }

    /// A topic named `path` with the given visibility flags and no
    /// subscribers. With an initial value, that value is retained.
    pub fn new(
        path: TopicName,
        web_readable: bool,
        web_writable: bool,
        initial: Option<E>,
        encode: Enc,
        decode: Dec,
    ) -> (topic: Self)
        requires
            forall|value: &E| #[trigger] call_requires(encode, (value,)),
            forall|bytes: &[u8]| #[trigger] call_requires(decode, (bytes,)),
        ensures
            topic.wf(),
            topic.encoder() == encode,
            topic.decoder() == decode,
            topic@.path == path,
            topic@.web_readable == web_readable,
            topic@.web_writable == web_writable,
            topic@.cached is None,
            topic@.native.entries.len() == 0,
            topic@.native.closed.len() == 0,
            topic@.serialized.entries.len() == 0,
            topic@.serialized.closed.len() == 0,
            match initial {
                Some(value) => topic@.retained matches Some(held) && *held == value
                    && topic@.history == seq![held],
                None => topic@.retained is None && topic@.history.len() == 0,
            },
    {
        let retained = match initial {
            Some(value) => Some(RetainedValue::new(Arc::new(value))),
            None => None,
        };
        let ghost history = match &retained {
            Some(held) => seq![held.value()],
            None => Seq::empty(),
        };
        Topic {
            path,
            web_readable,
            web_writable,
            retained,
            senders: Registry::new(),
            senders_serialized: Registry::new(),
            encode,
            decode,
            history: Ghost(history),
        }
    }

    /// Publishes `msg`: offers it to every subscriber, drops the subscribers
    /// whose queue did not accept it, and retains it.
    pub fn set_arc(&mut self, msg: Arc<E>)
        requires
            old(self).wf(),
        ensures
            final(self).wf(),
            final(self).encoder() == old(self).encoder(),
            final(self).decoder() == old(self).decoder(),
            published(old(self)@, msg, final(self)@, old(self).encoder()),
    {
        let mut val = RetainedValue::new(share(&msg));
        let copy = |value: &Arc<E>| -> (made: Arc<E>)
            ensures
                made == *value,
            { share(value) };
        let _ = self.senders.fan_out(&msg, &copy);
        if !self.senders_serialized.is_empty() {
            let frame = (share(&self.path), val.serialized(&self.encode));
            let copy_frame = |frame: &Frame| -> (made: Frame)
                ensures
                    made == *frame,
                { (share(&frame.0), share(&frame.1)) };
            let _ = self.senders_serialized.fan_out(&frame, &copy_frame);
        }
        self.retained = Some(val);
        proof {
            self.history@ = self.history@.push(msg);
            lemma_published_coherent(old(self)@, msg, self@, self.encode);
        }
    }

    /// Publishes `msg`. The value moves into shared ownership first.
    pub fn set(&mut self, msg: E)
        requires
            old(self).wf(),
        ensures
            final(self).wf(),
            final(self).encoder() == old(self).encoder(),
            final(self).decoder() == old(self).decoder(),
            final(self)@.retained matches Some(held) && *held == msg && published(
                old(self)@,
                held,
                final(self)@,
                old(self).encoder(),
            ),
    {
        self.set_arc(Arc::new(msg))
    }

    /// The retained value, or nothing if no value has been published yet.
    /// Never waits.
    pub fn try_get(&self) -> (value: Option<Arc<E>>)
        ensures
            value == self@.retained,
    {
        match &self.retained {
            Some(held) => Some(held.native()),
            None => None,
        }
    }

    /// The number of native subscribers.
    pub fn native_subscribers(&self) -> (n: usize)
        ensures
            n == self@.native.entries.len(),
    {
        self.senders.len()
    }

    /// The number of serialized subscribers.
    pub fn serialized_subscribers(&self) -> (n: usize)
        ensures
            n == self@.serialized.entries.len(),
    {
        self.senders_serialized.len()
    }

    /// The first step of a blocking read. With a retained value the read is
    /// done and nothing changes. Without one the topic registers a new
    /// unbounded subscription in the same step, so that no publication can
    /// slip in between the look at the retained value and the subscription.
    pub fn get(&mut self) -> (fetch: Fetch<E>)
        requires
            old(self).wf(),
        ensures
            final(self).wf(),
            final(self).encoder() == old(self).encoder(),
            final(self).decoder() == old(self).decoder(),
            match fetch {
                Fetch::Ready(value) => old(self)@.retained == Some(value) && final(self)@ == old(
                    self,
                )@,
                Fetch::Wait(_, handle) => old(self)@.retained is None && exists|
                    sender: async_std::channel::Sender<Arc<E>>,
                | final(self)@ == #[trigger] joined(old(self)@, handle.token(), sender),
            },
    {
        match self.try_get() {
            Some(value) => Fetch::Ready(value),
            None => {
                let (queue, handle) = self.subscribe_unbounded();
                Fetch::Wait(queue, handle)
            },
        }
    }

    /// An atomic read-modify-write cycle. `cb` sees the retained value. If it
    /// answers a new value, that value is published; if it answers nothing,
    /// the topic stays as it is.
    pub fn modify<F: FnOnce(Option<Arc<E>>) -> Option<Arc<E>>>(&mut self, cb: F)
        requires
            old(self).wf(),
            call_requires(cb, (old(self)@.retained,)),
        ensures
            final(self).wf(),
            final(self).encoder() == old(self).encoder(),
            final(self).decoder() == old(self).decoder(),
            exists|outcome: Option<Arc<E>>| #[trigger]
                call_ensures(cb, (old(self)@.retained,), outcome) && modified(
                    old(self)@,
                    outcome,
                    final(self)@,
                    old(self).encoder(),
                ),
    {
        let outcome = cb(self.try_get());
        if let Some(new) = outcome {
            self.set_arc(new);
        }
    }

    /// Registers `sender` as a native subscriber. It receives every value
    /// published from now on, and not the value that is retained now.
    pub fn subscribe(&mut self, sender: async_std::channel::Sender<Arc<E>>) -> (handle:
        SubscriptionHandle<E, Native>)
        requires
            old(self).wf(),
        ensures
            final(self).wf(),
            final(self).encoder() == old(self).encoder(),
            final(self).decoder() == old(self).decoder(),
            final(self)@ == joined(old(self)@, handle.token(), sender),
    {
        let token = mint_token();
        self.senders.add(Subscriber::joining(token, sender, Ghost(self.history@.len())));
        proof {
            lemma_joined_coherent(old(self)@, token, sender, self.encode);
        }
        SubscriptionHandle { token, phantom: PhantomData }
    }

    /// Makes an unbounded queue and registers its sending end as a native
    /// subscriber. Returns the receiving end and the handle.
    pub fn subscribe_unbounded(&mut self) -> (subscription: (
        async_std::channel::Receiver<Arc<E>>,
        SubscriptionHandle<E, Native>,
    ))
        requires
            old(self).wf(),
        ensures
            final(self).wf(),
            final(self).encoder() == old(self).encoder(),
            final(self).decoder() == old(self).decoder(),
            exists|sender: async_std::channel::Sender<Arc<E>>|
                final(self)@ == #[trigger] joined(old(self)@, subscription.1.token(), sender),
    {
        let (tx, rx) = unbounded_queue();
        let ghost sender = tx;
        let subscription = (rx, self.subscribe(tx));
        assert(self@ == joined(old(self)@, subscription.1.token(), sender));
        subscription
    }

    /// Ends the native subscription of `handle`: removes the first native
    /// subscriber that carries its token. If there is none, because the
    /// subscriber was evicted or has unsubscribed before, nothing changes.
    pub fn unsubscribe(&mut self, handle: SubscriptionHandle<E, Native>)
        requires
            old(self).wf(),
        ensures
            final(self).wf(),
            final(self).encoder() == old(self).encoder(),
            final(self).decoder() == old(self).decoder(),
            final(self)@ == left(old(self)@, handle.token()),
    {
        let _ = self.senders.remove(handle.token);
        proof {
            lemma_left_coherent(old(self)@, handle.token, self.encode);
        }
    }

    /// Publishes a decoded value, or reports the decode error and changes
    /// nothing.
    pub fn set_decoded(&mut self, decoded: Result<E, serde_json::Error>) -> (result: Result<
        (),
        DecodeError,
    >)
        requires
            old(self).wf(),
        ensures
            final(self).wf(),
            final(self).encoder() == old(self).encoder(),
            final(self).decoder() == old(self).decoder(),
            decoded_set(old(self)@, decoded, final(self)@, result, old(self).encoder()),
    {
        match decoded {
            Ok(value) => {
                self.set(value);
                Ok(())
            },
            Err(cause) => Err(DecodeError::from(cause)),
        }
    }
}

impl<E> SubscriptionHandle<E, Native> {
    /// Ends the subscription on `topic`. Doing so a second time, or after
    /// the subscriber was evicted, changes nothing.
    pub fn unsubscribe<Enc: Fn(&E) -> Vec<u8>, Dec: Fn(&[u8]) -> Result<E, serde_json::Error>>(
        self,
        topic: &mut Topic<E, Enc, Dec>,
    )
        requires
            old(topic).wf(),
        ensures
            final(topic).wf(),
            final(topic).encoder() == old(topic).encoder(),
            final(topic).decoder() == old(topic).decoder(),
            final(topic)@ == left(old(topic)@, self.token()),
    {
        topic.unsubscribe(self)
    }
}

/// The handle of a serialized subscription, as the byte interface hands it
/// out.
pub trait AnySubscriptionHandle {
    /// The token of the subscription that the handle ends.
    spec fn erased_token(&self) -> u64;

    /// Ends the subscription on `topic`. Doing so a second time, or after
    /// the subscriber was evicted, changes nothing.
    fn unsubscribe<A: AnyTopic + ?Sized>(&self, topic: &mut A)
        requires
            old(topic).ready(),
        ensures
            final(topic).ready(),
            final(topic).erased_view() == (ErasedView {
                serialized: RegistryView {
                    entries: without(
                        old(topic).erased_view().serialized.entries,
                        self.erased_token(),
                    ),
                    closed: old(topic).erased_view().serialized.closed,
                },
                ..old(topic).erased_view()
            }),
    ;
}

impl AnySubscriptionHandle for SubscriptionHandle<[u8], Serialized> {
    open spec fn erased_token(&self) -> u64 {
        self.token()
    }

    fn unsubscribe<A: AnyTopic + ?Sized>(&self, topic: &mut A) {
        topic.unsubscribe_as_bytes(self)
    }
}

/// The byte interface of a topic: what every topic offers whatever its
/// payload type is. Values cross this interface as bytes only.
pub trait AnyTopic {
    /// Whether the topic is well-formed.
    spec fn ready(&self) -> bool;

    /// What the topic shows through this interface.
    spec fn erased_view(&self) -> ErasedView;

    /// The name of the topic.
    fn path(&self) -> (path: &TopicName)
        ensures
            *path == self.erased_view().path,
    ;

    /// Whether outside actors may read the topic.
    fn web_readable(&self) -> (readable: bool)
        ensures
            readable == self.erased_view().web_readable,
    ;

    /// Whether outside actors may write the topic.
    fn web_writable(&self) -> (writable: bool)
        ensures
            writable == self.erased_view().web_writable,
    ;

    /// Decodes `msg` and publishes the value. Bytes that do not decode are
    /// reported as an error and change nothing.
    fn set_from_bytes(&mut self, msg: &[u8]) -> (result: Result<(), DecodeError>)
        requires
            old(self).ready(),
        ensures
            final(self).ready(),
            final(self).erased_view().path == old(self).erased_view().path,
            final(self).erased_view().web_readable == old(self).erased_view().web_readable,
            final(self).erased_view().web_writable == old(self).erased_view().web_writable,
            match result {
                Ok(_) => final(self).erased_view().published == old(self).erased_view().published
                    + 1,
                Err(_) => final(self).erased_view() == old(self).erased_view(),
            },
    ;

    /// Registers `sender` as a serialized subscriber. It receives one frame
    /// for every value published from now on.
    fn subscribe_as_bytes(&mut self, sender: async_std::channel::Sender<Frame>) -> (handle:
        SubscriptionHandle<[u8], Serialized>)
        requires
            old(self).ready(),
        ensures
            final(self).ready(),
            final(self).erased_view() == (ErasedView {
                serialized: RegistryView {
                    entries: old(self).erased_view().serialized.entries.push(
                        newcomer(handle.token(), sender, old(self).erased_view().published),
                    ),
                    closed: old(self).erased_view().serialized.closed,
                },
                ..old(self).erased_view()
            }),
    ;

    /// Ends the serialized subscription of `handle`: removes the first
    /// serialized subscriber that carries its token. If there is none,
    /// nothing changes.
    fn unsubscribe_as_bytes(&mut self, handle: &SubscriptionHandle<[u8], Serialized>)
        requires
            old(self).ready(),
        ensures
            final(self).ready(),
            final(self).erased_view() == (ErasedView {
                serialized: RegistryView {
                    entries: without(old(self).erased_view().serialized.entries, handle.token()),
                    closed: old(self).erased_view().serialized.closed,
                },
                ..old(self).erased_view()
            }),
    ;

    /// The encoding of the retained value, or nothing if no value has been
    /// published yet. Never waits. The encoding is computed at the first
    /// request after a publication and kept for the later ones.
    fn try_get_as_bytes(&mut self) -> (bytes: Option<Arc<[u8]>>)
        requires
            old(self).ready(),
        ensures
            final(self).ready(),
            bytes is Some <==> old(self).erased_view().published > 0,
            old(self).erased_view().cached is Some ==> bytes == old(self).erased_view().cached,
            final(self).erased_view() == (ErasedView {
                cached: bytes,
                ..old(self).erased_view()
            }),
    ;
}

impl<E, Enc: Fn(&E) -> Vec<u8>, Dec: Fn(&[u8]) -> Result<E, serde_json::Error>> AnyTopic for Topic<
    E,
    Enc,
    Dec,
> {
    open spec fn ready(&self) -> bool {
        self.wf()
    }

    open spec fn erased_view(&self) -> ErasedView {
        erased(self@)
    }

    fn path(&self) -> (path: &TopicName) {
        &self.path
    }

    fn web_readable(&self) -> (readable: bool) {
        self.web_readable
    }

    fn web_writable(&self) -> (writable: bool) {
        self.web_writable
    }

    fn set_from_bytes(&mut self, msg: &[u8]) -> (result: Result<(), DecodeError>)
        ensures
            final(self).encoder() == old(self).encoder(),
            final(self).decoder() == old(self).decoder(),
            exists|decoded: Result<E, serde_json::Error>| #[trigger]
                decodes(old(self).decoder(), msg@, decoded) && decoded_set(
                    old(self)@,
                    decoded,
                    final(self)@,
                    result,
                    old(self).encoder(),
                ),
    {
        let decoded = (self.decode)(msg);
        let ghost outcome = decoded;
        assert(decodes(self.decode, msg@, outcome));
        self.set_decoded(decoded)
    }

    fn subscribe_as_bytes(&mut self, sender: async_std::channel::Sender<Frame>) -> (handle:
        SubscriptionHandle<[u8], Serialized>)
        ensures
            final(self).encoder() == old(self).encoder(),
            final(self).decoder() == old(self).decoder(),
            final(self)@ == joined_as_bytes(old(self)@, handle.token(), sender),
    {
        let token = mint_token();
        self.senders_serialized.add(Subscriber::joining(token, sender, Ghost(self.history@.len())));
        proof {
            lemma_joined_as_bytes_coherent(old(self)@, token, sender, self.encode);
        }
        SubscriptionHandle { token, phantom: PhantomData }
    }

    fn unsubscribe_as_bytes(&mut self, handle: &SubscriptionHandle<[u8], Serialized>)
        ensures
            final(self).encoder() == old(self).encoder(),
            final(self).decoder() == old(self).decoder(),
            final(self)@ == left_as_bytes(old(self)@, handle.token()),
    {
        let _ = self.senders_serialized.remove(handle.token);
        proof {
            lemma_left_as_bytes_coherent(old(self)@, handle.token, self.encode);
        }
    }

    fn try_get_as_bytes(&mut self) -> (bytes: Option<Arc<[u8]>>)
        ensures
            final(self).encoder() == old(self).encoder(),
            final(self).decoder() == old(self).decoder(),
            read_as_bytes(old(self)@, bytes, final(self)@, old(self).encoder()),
    {
        let bytes = match &mut self.retained {
            Some(held) => Some(held.serialized(&self.encode)),
            None => None,
        };
        proof {
            lemma_read_as_bytes_coherent(old(self)@, bytes, self@, self.encode);
        }
        bytes
    }
}

} // verus!
