//! The per-request context store: a single-owner slot holding at most one
//! identifier for the lifetime of one request.

use vstd::prelude::*;

verus! {

use crate::id::RequestID;
use crate::id::uuid_canonical_chars;
use crate::id::valid_id_chars;

/// Per-request storage holding zero or one identifier. Owned by exactly one
/// in-flight request; never shared across requests.
pub struct RequestContext {
    id: Option<RequestID>,
}

impl RequestContext {
    /// The stored identifier, if any, as a character sequence.
    pub closed spec fn id_view(self) -> Option<Seq<char>> {
        match self.id {
            Some(id) => Some(id@),
            None => None,
        }
    }

    /// Context invariant: whatever is stored is a well-formed identifier.
    pub open spec fn wf(self) -> bool {
        self.id_view() matches Some(s) ==> valid_id_chars(s)
    }

    /// An empty context, created at request ingress.
    pub fn new() -> (r: Self)
        ensures
            r.id_view() is None,
            r.wf(),
    {
        RequestContext { id: None }
    }

    /// Read without creating.
    pub fn peek(&self) -> (r: Option<&RequestID>)
        ensures
            r is Some <==> self.id_view() is Some,
            r matches Some(id) ==> Some(id@) == self.id_view(),
    {
        match &self.id {
            Some(id) => Some(id),
            None => None,
        }
    }

    /// Install a trusted identifier, overwriting any earlier one.
    pub fn set(&mut self, id: RequestID)
        requires
            id.wf(),
        ensures
            final(self).id_view() == Some(id@),
            final(self).wf(),
    {
        self.id = Some(id);
    }

    /// Return the cached identifier, or generate, store and return a fresh
    /// one. The only generation path: at most one generation per request.
    pub fn get_or_create(&mut self) -> (r: RequestID)
        requires
            old(self).wf(),
        ensures
            get_or_create_post(*old(self), *final(self), r),
    {
        match &self.id {
            Some(id) => id.clone(),
            None => {
                let id = RequestID::new();
                self.id = Some(id.clone());
                id
            },
        }
    }
}

/// What one `get_or_create` call establishes, relating the context before
/// (`pre`) and after (`post`) to the returned identifier: a hit returns the
/// cached value unchanged, a miss installs and returns a freshly generated
/// canonical UUID rendering.
pub open spec fn get_or_create_post(pre: RequestContext, post: RequestContext, r: RequestID) -> bool {
    &&& r.wf()
    &&& post.wf()
    &&& post.id_view() == Some(r@)
    &&& (pre.id_view() matches Some(s) ==> r@ == s && post.id_view() == pre.id_view())
    &&& (pre.id_view() is None ==> uuid_canonical_chars(r@))
}

/// The accessor returns the identifier the interceptor resolved: once an
/// identifier is installed in the context, a read returns an equal one and
/// leaves the context unchanged.
pub proof fn lemma_accessor_sees_resolved(
    c1: RequestContext,
    c2: RequestContext,
    resolved: Seq<char>,
    r: RequestID,
)
    requires
        c1.id_view() == Some(resolved),
        get_or_create_post(c1, c2, r),
    ensures
        r@ == resolved,
        c2.id_view() == c1.id_view(),
{
}

/// Idempotent caching: within one request, a second accessor read returns an
/// identifier equal to the first, and leaves the context unchanged.
pub proof fn lemma_accessor_idempotent(
    c0: RequestContext,
    c1: RequestContext,
    r1: RequestID,
    c2: RequestContext,
    r2: RequestID,
)
    requires
        get_or_create_post(c0, c1, r1),
        get_or_create_post(c1, c2, r2),
    ensures
        r2@ == r1@,
        c2.id_view() == c1.id_view(),
{
}

} // verus!
