//! The identifier value object: a non-empty, header-safe string naming one
//! request, either trusted from an inbound header or freshly generated.

use vstd::prelude::*;

verus! {

/// A character that may appear in a request identifier: visible ASCII.
pub open spec fn id_char_ok(c: char) -> bool {
    0x21 <= c as int && c as int <= 0x7e
}

/// A header byte that may appear in a trusted identifier value.
pub open spec fn id_byte_ok(b: u8) -> bool {
    0x21 <= b && b <= 0x7e
}

/// A well-formed identifier: non-empty, visible ASCII throughout.
pub open spec fn valid_id_chars(s: Seq<char>) -> bool {
    s.len() > 0 && forall|i: int| 0 <= i < s.len() ==> id_char_ok(s[i])
}

/// An inbound header value that can be trusted as an identifier.
pub open spec fn valid_header_bytes(s: Seq<u8>) -> bool {
    s.len() > 0 && forall|i: int| 0 <= i < s.len() ==> id_byte_ok(s[i])
}

/// ASCII bytes read as characters, one per byte.
pub open spec fn chars_of_bytes(s: Seq<u8>) -> Seq<char> {
    s.map_values(|b: u8| b as char)
}

/// Identifier characters written back as header bytes, one per character.
pub open spec fn bytes_of_chars(s: Seq<char>) -> Seq<u8> {
    s.map_values(|c: char| c as u8)
}

/// A lowercase hex digit of a canonical UUID rendering.
pub open spec fn uuid_hex_char_ok(c: char) -> bool {
    (0x30 <= c as int && c as int <= 0x39) || (0x61 <= c as int && c as int <= 0x66)
}

/// A hyphen position of the canonical hyphenated UUID rendering, which lays
/// its 32 hex digits out in 8-4-4-4-12 groups.
pub open spec fn uuid_hyphen_pos(i: int) -> bool {
    i == 8 || i == 13 || i == 18 || i == 23
}

/// The canonical hyphenated UUID rendering: exactly 36 characters, hyphens
/// at positions 8, 13, 18 and 23, lowercase hex everywhere else.
pub open spec fn uuid_canonical_chars(s: Seq<char>) -> bool {
    &&& s.len() == 36
    &&& forall|i: int|
        0 <= i < 36 ==> (if uuid_hyphen_pos(i) {
            s[i] as int == 0x2d
        } else {
            uuid_hex_char_ok(s[i])
        })
}

/// The identifier of one request. Immutable once created; equality is value
/// equality of the underlying string.
#[derive(Debug)]
pub struct RequestID {
    inner: String,
}

impl View for RequestID {
    type V = Seq<char>;

    closed spec fn view(&self) -> Seq<char> {
        self.inner@
    }
}

/// Relies on uuid::Uuid::new_v4 and its Display impl: a freshly drawn random
/// UUID rendered in canonical hyphenated form, 32 lowercase hex digits in
/// 8-4-4-4-12 groups.
#[verifier::external_body]
fn fresh_uuid_string() -> (r: String)
    ensures
        uuid_canonical_chars(r@),
{
    uuid::Uuid::new_v4().to_string()
}

impl RequestID {
    /// The identifier invariant: non-empty and header-safe.
    pub open spec fn wf(self) -> bool {
        valid_id_chars(self@)
    }

    /// Generate a fresh identifier from the process-wide random source: a
    /// canonically rendered hyphenated UUID.
    pub fn new() -> (r: Self)
        ensures
            r.wf(),
            uuid_canonical_chars(r@),
    {
        let s = fresh_uuid_string();
        proof {
            assert forall|i: int| 0 <= i < s@.len() implies id_char_ok(s@[i]) by {
                if uuid_hyphen_pos(i) {
                    assert(s@[i] as int == 0x2d);
                } else {
                    assert(uuid_hex_char_ok(s@[i]));
                }
            }
        }
        RequestID { inner: s }
    }

    /// The identifier as a string, usable directly in formatted log output.
    pub fn value(&self) -> (r: &String)
        ensures
            r@ == self@,
    {
        &self.inner
    }

    /// Parse a trusted identifier from an inbound header value. Returns the
    /// identifier exactly when the value is non-empty visible ASCII; any
    /// other value must be discarded by the caller.
    pub fn from_header_bytes(v: &Vec<u8>) -> (r: Option<Self>)
        ensures
            r is Some <==> valid_header_bytes(v@),
            r matches Some(id) ==> id@ == chars_of_bytes(v@) && id.wf(),
    {
        if v.len() == 0 {
            return None;
        }
        let n = v.len();
        let mut i: usize = 0;
        while i < n
            invariant
                n == v@.len(),
                0 <= i <= n,
                forall|j: int| 0 <= j < i ==> id_byte_ok(v@[j]),
            decreases n - i,
        {
            let b = v[i];
            if b < 0x21 || b > 0x7e {
                return None;
            }
            i += 1;
        }
        let s = string_from_ascii_bytes(v);
        proof {
            assert forall|k: int| 0 <= k < s@.len() implies id_char_ok(s@[k]) by {
                assert(id_byte_ok(v@[k]));
            }
        }
        Some(RequestID { inner: s })
    }
}

impl PartialEq for RequestID {
    /// Identifier equality is value equality of the underlying strings.
    fn eq(&self, other: &Self) -> (r: bool) {
        self.inner == other.inner
    }
}

impl Eq for RequestID {

}

impl vstd::std_specs::cmp::PartialEqSpecImpl for RequestID {
    open spec fn obeys_eq_spec() -> bool {
        true
    }

    open spec fn eq_spec(&self, other: &Self) -> bool {
        self@ == other@
    }
}

impl Clone for RequestID {
    /// The clone denotes the same identifier value.
    fn clone(&self) -> (r: Self)
        ensures
            r@ == self@,
    {
        RequestID { inner: self.inner.clone() }
    }
}

/// Relies on String::from_utf8: bytes below 0x80 are valid UTF-8 and decode
/// to one character per byte.
#[verifier::external_body]
fn string_from_ascii_bytes(v: &Vec<u8>) -> (r: String)
    requires
        forall|i: int| 0 <= i < v@.len() ==> v@[i] < 0x80,
    ensures
        r@ == chars_of_bytes(v@),
{
    String::from_utf8(v.clone()).unwrap()
}

} // verus!
