//! The correlation store: pending completion handles keyed by correlation
//! id.
//!
//! A handle enters the store when its request is published and leaves it
//! exactly once: through [`InFlightRequests::finish_request`] when the
//! matching response arrives, or through
//! [`InFlightRequests::abandon_request`] when the waiting caller times out
//! or is cancelled. A response whose id has no entry is a no-op, never an
//! error, so duplicate and late responses cannot reach a caller or disturb
//! other entries.

use vstd::prelude::*;

use crate::errors::CorrelationError;
use crate::strmap::StrMap;

verus! {

/// Pending completion handles, keyed by correlation id.
#[derive(Debug)]
pub struct InFlightRequests<T> {
    store: StrMap<T>,
}

impl<T> View for InFlightRequests<T> {
    type V = Map<Seq<char>, T>;

    closed spec fn view(&self) -> Map<Seq<char>, T> {
        self.store@
    }
}

impl<T> InFlightRequests<T> {
    /// Well-formed: the underlying map holds each id at most once.
    pub closed spec fn wf(&self) -> bool {
        self.store.wf()
    }

    /// An empty store.
    pub fn new() -> (r: InFlightRequests<T>)
        ensures
            r.wf(),
            r@ == Map::<Seq<char>, T>::empty(),
    {
        InFlightRequests { store: StrMap::new() }
    }

    /// Register a pending request under its correlation id. Fails exactly
    /// when the id is already registered, leaving the store unchanged; a
    /// duplicate of a live id is an internal invariant violation, not a
    /// caller-facing error.
    pub fn save_request(&mut self, correlation_data: &str, handle: T) -> (r: Result<
        (),
        CorrelationError,
    >)
        requires
            old(self).wf(),
        ensures
            final(self).wf(),
            match r {
                Ok(()) => !old(self)@.contains_key(correlation_data@) && final(self)@ == old(
                    self,
                )@.insert(correlation_data@, handle),
                Err(e) => e == CorrelationError::DuplicateId && old(self)@.contains_key(
                    correlation_data@,
                ) && final(self)@ == old(self)@,
            },
    {
        if self.store.try_insert(correlation_data, handle) {
            Ok(())
        } else {
            Err(CorrelationError::DuplicateId)
        }
    }

    /// Claim the entry of a completed request: remove it and hand its
    /// completion handle back. Returns `None` exactly when the id has no
    /// entry (already completed, already abandoned, or unknown); the store
    /// and every other entry are then untouched.
    pub fn finish_request(&mut self, correlation_data: &str) -> (r: Option<T>)
        requires
            old(self).wf(),
        ensures
            final(self).wf(),
            match r {
                Some(handle) => old(self)@.contains_key(correlation_data@) && handle == old(
                    self,
                )@[correlation_data@] && final(self)@ == old(self)@.remove(correlation_data@),
                None => !old(self)@.contains_key(correlation_data@) && final(self)@ == old(self)@,
            },
    {
        self.store.remove(correlation_data)
    }

    /// Abandon the entry of a request whose caller gave up: remove it
    /// without resolving it, so a late response cannot leak into an
    /// unrelated caller. Reports whether an entry was actually removed.
    pub fn abandon_request(&mut self, correlation_data: &str) -> (r: bool)
        requires
            old(self).wf(),
        ensures
            final(self).wf(),
            r == old(self)@.contains_key(correlation_data@),
            r ==> final(self)@ == old(self)@.remove(correlation_data@),
            !r ==> final(self)@ == old(self)@,
    {
        match self.store.remove(correlation_data) {
            Some(_) => true,
            None => false,
        }
    }

    /// The number of outstanding entries.
    pub fn len(&self) -> (r: usize)
        requires
            self.wf(),
        ensures
            self@.dom().finite(),
            r == self@.dom().len(),
    {
        self.store.len()
    }

    /// Whether no request is outstanding.
    pub fn is_empty(&self) -> (r: bool)
        requires
            self.wf(),
        ensures
            self@.dom().finite(),
            r == (self@.dom().len() == 0),
    {
        self.store.is_empty()
    }
}

/// Law: each entry is claimed at most once. Once a completion or an
/// abandonment removes a correlation id, the id is gone from the store, so
/// by the contracts of `finish_request` and `abandon_request` any later
/// claim of the same id is a no-op: the original caller observes exactly
/// one of {response, abandonment}, never both.
pub proof fn lemma_claim_exclusive<T>(store: Map<Seq<char>, T>, correlation_data: Seq<char>)
    ensures
        !store.remove(correlation_data).contains_key(correlation_data),
{
}

/// Law: claims do not cross correlation ids. Removing one id leaves the
/// entry of every other id in place with its value unchanged, so
/// concurrently outstanding requests are each resolved by exactly their
/// own matching response, in any completion order.
pub proof fn lemma_claim_independent<T>(
    store: Map<Seq<char>, T>,
    correlation_data: Seq<char>,
    other: Seq<char>,
)
    requires
        other != correlation_data,
    ensures
        store.remove(correlation_data).contains_key(other) == store.contains_key(other),
        store.contains_key(other) ==> store.remove(correlation_data)[other] == store[other],
{
}

} // verus!
