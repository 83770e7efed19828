//! The retained value of a topic.

use std::sync::Arc;
use vstd::prelude::*;

use crate::broker::codec::encodes;
use crate::broker::sharing::{share, share_bytes};

verus! {

/// The most recently published value of a topic, together with its byte
/// encoding once somebody has asked for it.
///
/// The value of a `RetainedValue` never changes: a new publication makes a
/// new `RetainedValue`, whose encoding is not computed yet. So the cached
/// encoding can never describe an older value.
pub struct RetainedValue<E> {
    native: Arc<E>,
    serialized: Option<Arc<[u8]>>,
}

impl<E> RetainedValue<E> {
    /// The value that is held.
    pub closed spec fn value(&self) -> Arc<E> {
        self.native
    }

    /// The cached encoding of the value, if it has been computed.
    pub closed spec fn cached(&self) -> Option<Arc<[u8]>> {
        self.serialized
    }

    /// Holds `val`, with no encoding computed yet.
    pub fn new(val: Arc<E>) -> (held: Self)
        ensures
            held.value() == val,
            held.cached() is None,
    {
        RetainedValue { native: val, serialized: None }
    }

    /// Another handle on the value. The payload is not copied.
    pub fn native(&self) -> (val: Arc<E>)
        ensures
            val == self.value(),
    {
        share(&self.native)
    }

    /// The byte encoding of the value. The first call computes it with
    /// `encode` and keeps it; later calls return what was kept and do not
    /// call `encode`.
    pub fn serialized<Enc: Fn(&E) -> Vec<u8>>(&mut self, encode: &Enc) -> (bytes: Arc<[u8]>)
        requires
            call_requires(*encode, (&*old(self).value(),)),
        ensures
            final(self).value() == old(self).value(),
            final(self).cached() == Some(bytes),
            match old(self).cached() {
                Some(kept) => bytes == kept,
                None => encodes(*encode, *old(self).value(), bytes@),
            },
    {
        match &self.serialized {
            Some(kept) => share(kept),
            None => {
                let made = encode(&*self.native);
                let bytes = share_bytes(made);
                let handle = share(&bytes);
                self.serialized = Some(bytes);
                handle
            },
        }
    }
}

} // verus!
