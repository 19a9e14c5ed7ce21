use vstd::prelude::*;

use vstd::string::StringSliceAdditionalSpecFns;

use crate::error::{BoundaryField, ErrorKind, TemplateError};

verus! {

/// `b` holds a null byte somewhere.
pub open spec fn holds_nul(b: Seq<u8>) -> bool {
    exists|i: int| 0 <= i < b.len() && b[i] == 0
}

/// `p` is the position of the first null byte of `b`.
pub open spec fn first_nul_at(b: Seq<u8>, p: int) -> bool {
    &&& 0 <= p < b.len()
    &&& b[p] == 0
    &&& forall|j: int| 0 <= j < p ==> b[j] != 0
}

/// `e` refuses input `field`, whose bytes are `b`, at its first null byte.
pub open spec fn refused_at(e: TemplateError, field: BoundaryField, b: Seq<u8>) -> bool {
    &&& e.kind matches ErrorKind::InvalidInput { field: f, position: p }
    &&& f == field
    &&& first_nul_at(b, p as int)
    &&& e.message@.len() == 0
}

/// The six bytes at `i` of `b` are the JSON escape `\u0000`, a null character.
pub open spec fn nul_escape_at(b: Seq<u8>, i: int) -> bool {
    &&& 0 <= i && i + 6 <= b.len()
    &&& b[i] == 0x5c
    &&& b[i + 1] == 0x75
    &&& b[i + 2] == 0x30
    &&& b[i + 3] == 0x30
    &&& b[i + 4] == 0x30
    &&& b[i + 5] == 0x30
}

/// The position of the first `\u0000` escape in JSON text `b`, read from
/// position `i` on: a backslash starts an escape whose next byte is taken with
/// it, so the `u0000` after an escaped backslash (`\\u0000`) is no escape.
pub open spec fn nul_escape_from(b: Seq<u8>, i: int) -> Option<int>
    decreases b.len() + 1 - i,
{
    if i < 0 || i >= b.len() {
        None
    } else if b[i] == 0x5c {
        if nul_escape_at(b, i) {
            Some(i)
        } else {
            nul_escape_from(b, i + 2)
        }
    } else {
        nul_escape_from(b, i + 1)
    }
}

/// JSON text `b` writes a null character as an escape somewhere.
pub open spec fn holds_nul_escape(b: Seq<u8>) -> bool {
    nul_escape_from(b, 0) is Some
}

/// `e` refuses the JSON text `b` of the data at its first `\u0000` escape.
pub open spec fn refused_escape_at(e: TemplateError, b: Seq<u8>) -> bool {
    &&& e.kind matches ErrorKind::InvalidInput { field: f, position: p }
    &&& f == BoundaryField::Data
    &&& nul_escape_from(b, 0) == Some(p as int)
    &&& e.message@.len() == 0
}

/// Finds the first `\u0000` escape of JSON text `json`. The engine decodes
/// such an escape into a null character, which would cut its text short as a
/// raw null byte does, so the data is refused there.
pub fn check_nul_escape(json: &str) -> (r: Result<(), TemplateError>)
    ensures
        match r {
            Ok(()) => !holds_nul_escape(json.spec_bytes()),
            Err(e) => holds_nul_escape(json.spec_bytes()) && refused_escape_at(e, json.spec_bytes()),
        },
{
    let b = json.as_bytes();
    let n = b.len();
    let mut i: usize = 0;
    while i < n
        invariant
            b@ == json.spec_bytes(),
            n == b@.len(),
            i <= n + 1,
            nul_escape_from(b@, 0) == nul_escape_from(b@, i as int),
        decreases n + 1 - i,
    {
        let ghost at = i as int;
        if b[i] == 0x5c {
            if n - i >= 6 && b[i + 1] == 0x75 && b[i + 2] == 0x30 && b[i + 3] == 0x30 && b[i + 4]
                == 0x30 && b[i + 5] == 0x30 {
                return Err(
                    TemplateError {
                        kind: ErrorKind::InvalidInput { field: BoundaryField::Data, position: i },
                        message: String::new(),
                    },
                );
            }
            assert(!nul_escape_at(b@, at));
            assert(nul_escape_from(b@, at) == nul_escape_from(b@, at + 2));
            if i + 1 < n {
                i = i + 2;
            } else {
                assert(nul_escape_from(b@, at + 2) is None);
                assert(nul_escape_from(b@, n as int) is None);
                i = n;
            }
        } else {
            assert(nul_escape_from(b@, at) == nul_escape_from(b@, at + 1));
            i = i + 1;
        }
    }
    Ok(())
}

/// Lays out `s` as a null-terminated buffer: its UTF-8 bytes followed by one
/// null byte. A string that itself holds a null byte would be cut short by the
/// terminator, so it is refused, with the position of its first null byte.
pub fn marshal(s: &str, field: BoundaryField) -> (r: Result<Vec<u8>, TemplateError>)
    ensures
        match r {
            Ok(buf) => !holds_nul(s.spec_bytes()) && buf@ == s.spec_bytes().push(0),
            Err(e) => holds_nul(s.spec_bytes()) && refused_at(e, field, s.spec_bytes()),
        },
{
    let bytes = s.as_bytes();
    let mut buf: Vec<u8> = Vec::new();
    let mut i: usize = 0;
    while i < bytes.len()
        invariant
            bytes@ == s.spec_bytes(),
            i <= bytes@.len(),
            buf@ == bytes@.subrange(0, i as int),
            forall|j: int| 0 <= j < i ==> bytes@[j] != 0,
        decreases bytes@.len() - i,
    {
        if bytes[i] == 0 {
            return Err(
                TemplateError {
                    kind: ErrorKind::InvalidInput { field, position: i },
                    message: String::new(),
                },
            );
        }
        buf.push(bytes[i]);
        i = i + 1;
    }
    assert(buf@ == bytes@);
    buf.push(0);
    Ok(buf)
}

} // verus!
