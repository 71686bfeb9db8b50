//! The request and response model shared by both branch services.
//!
//! A request carries a header map — a list of name/value byte strings whose
//! names are kept in canonical lower-case form, so that lookup behaves
//! case-insensitively — and an opaque body. A response carries a status
//! code, a header map, and a body.

use vstd::prelude::*;

verus! {

/// One header: a name and a value, both byte strings.
pub struct Header {
    pub name: Vec<u8>,
    pub value: Vec<u8>,
}

/// ASCII case folding of one byte: upper-case letters become lower-case,
/// every other byte is unchanged.
pub open spec fn lower_byte(b: u8) -> u8 {
    if 65 <= b <= 90 {
        (b + 32) as u8
    } else {
        b
    }
}

/// ASCII case folding of a byte string.
pub open spec fn lower_bytes(s: Seq<u8>) -> Seq<u8> {
    s.map_values(|b: u8| lower_byte(b))
}

/// True when the byte string contains no upper-case ASCII letter.
pub open spec fn is_lower_bytes(s: Seq<u8>) -> bool {
    forall|i: int| 0 <= i < s.len() ==> !(65 <= #[trigger] s[i] <= 90)
}

/// The value associated with the first header of the given name, if any.
pub open spec fn spec_lookup(headers: Seq<Header>, name: Seq<u8>) -> Option<Seq<u8>>
    decreases headers.len(),
{
    if headers.len() == 0 {
        None
    } else if headers[0].name@ == name {
        Some(headers[0].value@)
    } else {
        spec_lookup(headers.subrange(1, headers.len() as int), name)
    }
}

/// Byte-for-byte equality of two byte strings.
pub fn bytes_eq(a: &[u8], b: &[u8]) -> (r: bool)
    ensures
        r == (a@ == b@),
{
    if a.len() != b.len() {
        return false;
    }
    let mut i: usize = 0;
    while i < a.len()
        invariant
            i <= a@.len(),
            a@.len() == b@.len(),
            forall|j: int| 0 <= j < i ==> a@[j] == b@[j],
        decreases a@.len() - i,
    {
        if a[i] != b[i] {
            return false;
        }
        i += 1;
    }
    proof {
        assert(a@ =~= b@);
    }
    true
}

/// ASCII case folding of a byte string.
pub fn to_lower_bytes(s: &[u8]) -> (r: Vec<u8>)
    ensures
        r@ == lower_bytes(s@),
{
    let mut r: Vec<u8> = Vec::new();
    let mut i: usize = 0;
    while i < s.len()
        invariant
            i <= s@.len(),
            r@.len() == i,
            forall|j: int| 0 <= j < i ==> r@[j] == lower_byte(s@[j]),
        decreases s@.len() - i,
    {
        let b = s[i];
        if 65 <= b && b <= 90 {
            r.push(b + 32);
        } else {
            r.push(b);
        }
        i += 1;
    }
    proof {
        assert(r@ =~= lower_bytes(s@));
    }
    r
}

/// An inbound message: a header map and a body. Immutable once dispatched;
/// it is handed to exactly one branch service.
pub struct Request {
    pub headers: Vec<Header>,
    pub body: Vec<u8>,
}

/// An outbound message: a status code, a header map, and a body, produced
/// exclusively by the branch service that handled the request.
pub struct Response {
    pub status: u16,
    pub headers: Vec<Header>,
    pub body: Vec<u8>,
}

impl Request {
    /// Well-formed: every header name is stored in lower-case form, which is
    /// what makes exact-match lookup case-insensitive.
    pub open spec fn wf(&self) -> bool {
        forall|i: int| 0 <= i < self.headers@.len() ==> is_lower_bytes(#[trigger] self.headers@[i].name@)
    }

    /// A request with the given body and no headers.
    pub fn new(body: Vec<u8>) -> (r: Request)
        ensures
            r.wf(),
            r.headers@.len() == 0,
            r.body@ == body@,
    {
        Request { headers: Vec::new(), body }
    }

    /// Appends a header, folding its name to the canonical lower-case form.
    pub fn add_header(&mut self, name: &[u8], value: Vec<u8>)
        ensures
            final(self).headers@.len() == old(self).headers@.len() + 1,
            final(self).headers@[old(self).headers@.len() as int].name@ == lower_bytes(name@),
            final(self).headers@[old(self).headers@.len() as int].value@ == value@,
            forall|i: int| 0 <= i < old(self).headers@.len()
                ==> final(self).headers@[i] == old(self).headers@[i],
            final(self).body@ == old(self).body@,
            old(self).wf() ==> final(self).wf(),
    {
        let folded = to_lower_bytes(name);
        self.headers.push(Header { name: folded, value });
    }

    /// The value of the first header with the given name, if any. Lookup is
    /// by exact match; names are stored lower-case, so a caller queries with
    /// the lower-case form of the name.
    pub fn header_value<'a>(&'a self, name: &[u8]) -> (r: Option<&'a Vec<u8>>)
        ensures
            match r {
                Some(v) => spec_lookup(self.headers@, name@) == Some(v@),
                None => spec_lookup(self.headers@, name@) is None,
            },
    {
        let mut i: usize = 0;
        proof {
            assert(self.headers@.subrange(0, self.headers@.len() as int) =~= self.headers@);
        }
        while i < self.headers.len()
            invariant
                i <= self.headers@.len(),
                spec_lookup(self.headers@, name@)
                    == spec_lookup(self.headers@.subrange(i as int, self.headers@.len() as int), name@),
            decreases self.headers@.len() - i,
        {
            let ghost rest = self.headers@.subrange(i as int, self.headers@.len() as int);
            proof {
                assert(rest[0] == self.headers@[i as int]);
            }
            if bytes_eq(self.headers[i].name.as_slice(), name) {
                return Some(&self.headers[i].value);
            }
            proof {
                assert(rest.subrange(1, rest.len() as int)
                    =~= self.headers@.subrange(i as int + 1, self.headers@.len() as int));
            }
            i += 1;
        }
        proof {
            assert(self.headers@.subrange(self.headers@.len() as int, self.headers@.len() as int).len() == 0);
        }
        None
    }
}

} // verus!
