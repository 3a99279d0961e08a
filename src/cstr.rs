use crate::error::{Error, NulError, Utf8Error};
use vstd::prelude::*;
use vstd::utf8::{decode_utf8, encode_utf8, encode_utf8_decode_utf8, encode_utf8_valid_utf8, valid_utf8};

verus! {

/// `k` is the offset of the first NUL byte of `b`.
pub open spec fn is_first_nul(b: Seq<u8>, k: int) -> bool {
    0 <= k < b.len() && b[k] == 0 && forall|j: int| 0 <= j < k ==> b[j] != 0
}

/// The NUL-terminated C string holding the UTF-8 encoding of `s`, or `None` when
/// that encoding holds a NUL byte.
pub open spec fn c_string_of(s: Seq<char>) -> Option<Seq<u8>> {
    if encode_utf8(s).contains(0u8) {
        None
    } else {
        Some(encode_utf8(s).push(0u8))
    }
}

/// The bytes of a C string before its terminator.
pub open spec fn c_string_body(b: Seq<u8>) -> Seq<u8> {
    b.subrange(0, choose|k: int| is_first_nul(b, k))
}

/// The text of a NUL-terminated C string, or `None` when it is not UTF-8.
pub open spec fn text_of_c_string(b: Seq<u8>) -> Option<Seq<char>> {
    if valid_utf8(c_string_body(b)) {
        Some(decode_utf8(c_string_body(b)))
    } else {
        None
    }
}

/// Relies on `std::str::from_utf8`: `Ok` exactly for valid UTF-8, holding the
/// decoded text; otherwise the error's `valid_up_to` is the length of a valid prefix.
#[verifier::external_body]
fn utf8_decode(b: &[u8]) -> (r: Result<String, Utf8Error>)
    ensures
        r is Ok <==> valid_utf8(b@),
        r is Ok ==> r.unwrap()@ == decode_utf8(b@),
        r is Err ==> r.unwrap_err().valid_up_to <= b@.len() && valid_utf8(
            b@.subrange(0, r.unwrap_err().valid_up_to as int),
        ),
{
    match std::str::from_utf8(b) {
        Ok(s) => Ok(s.to_string()),
        Err(e) => Err(Utf8Error { valid_up_to: e.valid_up_to(), error_len: e.error_len().map(|n| n as u8) }),
    }
}

proof fn lemma_first_nul_unique(b: Seq<u8>, k: int)
    requires
        is_first_nul(b, k),
    ensures
        c_string_body(b) == b.subrange(0, k),
{
    let c = choose|k: int| is_first_nul(b, k);
    assert(is_first_nul(b, c));
    if c < k {
        assert(b[c] != 0);
    } else if k < c {
        assert(b[k] != 0);
    }
}

/// Converts text into a NUL-terminated C string. Fails with `Error::NulError` at the
/// first NUL byte rather than truncating the text there.
pub fn str_to_sqlite3(s: &str) -> (r: Result<Vec<u8>, Error>)
    ensures
        match c_string_of(s@) {
            Some(c) => r is Ok && r.unwrap()@ == c,
            None => r is Err,
        },
        r is Err ==> r.unwrap_err() is NulError && is_first_nul(
            encode_utf8(s@),
            r.unwrap_err()->NulError_0.nul_position as int,
        ),
{
    let bytes = s.as_bytes();
    let mut out: Vec<u8> = Vec::new();
    let mut i: usize = 0;
    while i < bytes.len()
        invariant
            bytes@ == encode_utf8(s@),
            0 <= i <= bytes@.len(),
            out@ == bytes@.subrange(0, i as int),
            forall|j: int| 0 <= j < i ==> bytes@[j] != 0,
        decreases bytes@.len() - i,
    {
        if bytes[i] == 0 {
            assert(encode_utf8(s@)[i as int] == 0u8);
            return Err(Error::NulError(NulError { nul_position: i }));
        }
        out.push(bytes[i]);
        i = i + 1;
    }
    assert(out@ == encode_utf8(s@));
    assert(!encode_utf8(s@).contains(0u8));
    out.push(0u8);
    Ok(out)
}

/// Reads the text of a NUL-terminated C string: the bytes before the first NUL,
/// which must be UTF-8.
pub fn str_from_sqlite3(b: &[u8]) -> (r: Result<String, Error>)
    requires
        b@.contains(0u8),
    ensures
        match text_of_c_string(b@) {
            Some(t) => r is Ok && r.unwrap()@ == t,
            None => r matches Err(Error::Utf8Error(_)),
        },
{
    let mut body: Vec<u8> = Vec::new();
    let mut i: usize = 0;
    while b[i] != 0
        invariant
            0 <= i < b@.len(),
            b@.contains(0u8),
            body@ == b@.subrange(0, i as int),
            forall|j: int| 0 <= j < i ==> b@[j] != 0,
        decreases b@.len() - i,
    {
        body.push(b[i]);
        i = i + 1;
        proof {
            if i == b@.len() {
                let k = choose|k: int| 0 <= k < b@.len() && b@[k] == 0u8;
                assert(b@[k] != 0);
            }
        }
    }
    proof {
        lemma_first_nul_unique(b@, i as int);
    }
    match utf8_decode(body.as_slice()) {
        Ok(s) => Ok(s),
        Err(e) => Err(Error::Utf8Error(e)),
    }
}

/// Text with no NUL byte in its encoding comes back unchanged from a round trip
/// through a C string.
pub proof fn lemma_c_string_round_trip(s: Seq<char>)
    requires
        !encode_utf8(s).contains(0u8),
    ensures
        c_string_of(s) == Some(encode_utf8(s).push(0u8)),
        text_of_c_string(encode_utf8(s).push(0u8)) == Some(s),
{
    let e = encode_utf8(s);
    let c = e.push(0u8);
    assert forall|j: int| 0 <= j < e.len() implies c[j] != 0 by {
        if c[j] == 0 {
            assert(e[j] == 0u8);
            assert(e.contains(0u8));
        }
    }
    assert(is_first_nul(c, e.len() as int));
    lemma_first_nul_unique(c, e.len() as int);
    assert(c.subrange(0, e.len() as int) =~= e);
    encode_utf8_valid_utf8(s);
    encode_utf8_decode_utf8(s);
}

/// Text whose encoding holds a NUL byte has no C string form.
pub proof fn lemma_interior_nul_rejected(s: Seq<char>)
    requires
        encode_utf8(s).contains(0u8),
    ensures
        c_string_of(s) is None,
{
}

} // verus!
