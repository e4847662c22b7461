//! The interceptor: resolves the identifier on request entry and guarantees
//! its presence on the response header on exit.
//!
//! The host handler chain drives it in two halves. On entry, `on_request`
//! resolves the identifier (trusting a valid inbound header value, generating
//! a fresh one otherwise), installs it into the request context, and tells
//! the host whether a diagnostic is owed for an invalid inbound value; the
//! host then mirrors the identifier onto the inbound header set
//! unconditionally. After the handler has produced its response,
//! `response_header_update` says what, if anything, to insert under the
//! configured header: a handler-set value is never overwritten.

use vstd::prelude::*;

verus! {

use vstd::string::StringExecFns;

use crate::context::RequestContext;
use crate::id::RequestID;
use crate::id::bytes_of_chars;
use crate::id::chars_of_bytes;
use crate::id::id_byte_ok;
use crate::id::id_char_ok;
use crate::id::uuid_canonical_chars;
use crate::id::valid_header_bytes;
use crate::id::valid_id_chars;

/// The header name used when none is configured.
pub const DEFAULT_ID_HEAD_NAME: &'static str = "request_id";

/// Configuration of the interceptor: the header name under which the
/// identifier travels.
#[derive(Debug, Clone)]
pub struct RequestIdMiddleware {
    pub head_name: &'static str,
}

impl RequestIdMiddleware {
    /// A middleware configured with the given header name.
    pub fn new(head_name: &'static str) -> (r: Self)
        ensures
            r.head_name@ == head_name@,
    {
        RequestIdMiddleware { head_name }
    }

    /// An access-log format string that records the configured header.
    pub fn log_format(&self) -> (r: String)
        ensures
            r@ == "[%{"@ + self.head_name@ + "}i] %a %r %s %b %{Referer}i %{User-Agent}i %T"@,
    {
        let mut s = String::from_str("[%{");
        s.append(self.head_name);
        s.append("}i] %a %r %s %b %{Referer}i %{User-Agent}i %T");
        s
    }

    /// The per-request service this middleware installs around a handler.
    pub fn service(&self) -> (r: RequestIdService)
        ensures
            r.head_name@ == self.head_name@,
    {
        RequestIdService { head_name: self.head_name }
    }
}

impl Default for RequestIdMiddleware {
    /// The default configuration uses the default header name.
    fn default() -> (r: Self)
        ensures
            r.head_name@ == DEFAULT_ID_HEAD_NAME@,
    {
        RequestIdMiddleware { head_name: DEFAULT_ID_HEAD_NAME }
    }
}

/// The inbound or response header slot as the model sees it: the raw bytes
/// under the configured name, if the header is present.
pub open spec fn header_view(o: Option<Vec<u8>>) -> Option<Seq<u8>> {
    match o {
        Some(v) => Some(v@),
        None => None,
    }
}

/// The identifier the interceptor resolves, given the inbound header value
/// and the freshly generated fallback.
pub open spec fn resolved_id_chars(inbound: Option<Seq<u8>>, fresh: Seq<char>) -> Seq<char> {
    match inbound {
        Some(v) => if valid_header_bytes(v) {
            chars_of_bytes(v)
        } else {
            fresh
        },
        None => fresh,
    }
}

/// Whether the inbound header carried a value that had to be discarded, so
/// that a diagnostic is owed.
pub open spec fn inbound_invalid(inbound: Option<Seq<u8>>) -> bool {
    match inbound {
        Some(v) => !valid_header_bytes(v),
        None => false,
    }
}

/// The value the response header carries after finalization: the handler's
/// own value where it set one, the resolved identifier otherwise.
pub open spec fn response_header_after(existing: Option<Seq<u8>>, resolved: Seq<char>) -> Seq<u8> {
    match existing {
        Some(v) => v,
        None => bytes_of_chars(resolved),
    }
}

/// The per-request interceptor service, carrying the configured header name.
pub struct RequestIdService {
    pub head_name: &'static str,
}

impl RequestIdService {
    /// A service for the given header name.
    pub fn new(head_name: &'static str) -> (r: Self)
        ensures
            r.head_name@ == head_name@,
    {
        RequestIdService { head_name }
    }

    /// Deterministic core of identifier resolution: given the inbound header
    /// value and a freshly generated fallback, pick the identifier and say
    /// whether a diagnostic is owed for an invalid inbound value.
    pub fn resolve_with(inbound: &Option<Vec<u8>>, fresh: RequestID) -> (r: (RequestID, bool))
        requires
            fresh.wf(),
        ensures
            r.0@ == resolved_id_chars(header_view(*inbound), fresh@),
            r.0.wf(),
            r.1 == inbound_invalid(header_view(*inbound)),
    {
        match inbound {
            Some(v) => match RequestID::from_header_bytes(v) {
                Some(id) => (id, false),
                None => (fresh, true),
            },
            None => (fresh, false),
        }
    }

    /// Entry half of the interceptor: resolve the identifier, install it
    /// into the request context, and report whether a diagnostic is owed.
    /// The caller mirrors the returned identifier onto the inbound header
    /// set unconditionally, so handlers that inspect raw headers observe the
    /// same value the accessor returns.
    pub fn on_request(&self, inbound: &Option<Vec<u8>>, ctx: &mut RequestContext) -> (r: (
        RequestID,
        bool,
    ))
        ensures
            r.0.wf(),
            final(ctx).id_view() == Some(r.0@),
            final(ctx).wf(),
            header_view(*inbound) matches Some(v) ==> (valid_header_bytes(v) ==> r.0@
                == chars_of_bytes(v)),
            (header_view(*inbound) is None || inbound_invalid(header_view(*inbound)))
                ==> uuid_canonical_chars(r.0@),
            r.1 == inbound_invalid(header_view(*inbound)),
    {
        let fresh = RequestID::new();
        let (id, diag) = Self::resolve_with(inbound, fresh);
        ctx.set(id.clone());
        (id, diag)
    }

    /// The diagnostic line owed when an inbound header value had to be
    /// discarded, naming the offending header and the replacement
    /// identifier.
    pub fn diagnostic_message(&self, replacement: &RequestID) -> (r: String)
        ensures
            r@ == "This request header allows only visible ASCII characters, which will be overwritten. id:"@
                + replacement@ + ", head:"@ + self.head_name@,
    {
        let mut s = String::from_str(
            "This request header allows only visible ASCII characters, which will be overwritten. id:",
        );
        s.append(replacement.value().as_str());
        s.append(", head:");
        s.append(self.head_name);
        s
    }

    /// Exit half of the interceptor: the value to insert under the
    /// configured response header, or nothing where the handler already set
    /// one. Runs against whatever response the handler chain produced,
    /// error responses included.
    pub fn response_header_update(&self, existing: &Option<Vec<u8>>, resolved: &RequestID) -> (r:
        Option<RequestID>)
        ensures
            r is Some <==> existing is None,
            r matches Some(id) ==> id@ == resolved@ && bytes_of_chars(id@)
                == response_header_after(header_view(*existing), resolved@),
            r is None ==> (header_view(*existing) matches Some(v) && v == response_header_after(
                header_view(*existing),
                resolved@,
            )),
    {
        match existing {
            Some(_) => None,
            None => Some(resolved.clone()),
        }
    }
}

/// A handler-set response header value is never overwritten: finalization
/// leaves it unchanged, whatever identifier was resolved.
pub proof fn lemma_handler_value_respected(existing: Option<Seq<u8>>, resolved: Seq<char>)
    requires
        existing is Some,
    ensures
        response_header_after(existing, resolved) == existing.unwrap(),
{
}

/// Where the handler left the configured header alone, the finalized
/// response carries the resolved identifier: a non-empty, header-safe value.
pub proof fn lemma_absent_header_filled(resolved: Seq<char>)
    requires
        valid_id_chars(resolved),
    ensures
        response_header_after(None, resolved) == bytes_of_chars(resolved),
        valid_header_bytes(response_header_after(None, resolved)),
{
    assert forall|i: int| 0 <= i < bytes_of_chars(resolved).len() implies id_byte_ok(
        bytes_of_chars(resolved)[i],
    ) by {
        assert(id_char_ok(resolved[i]));
        assert(bytes_of_chars(resolved)[i] == resolved[i] as u8);
    }
}

} // verus!
