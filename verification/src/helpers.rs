//! Checked extraction of text from host string accessors.
//!
//! A host string accessor yields a raw (pointer, length) pair. Extraction
//! classifies it: a null pointer, a length that the size type cannot
//! represent, or bytes that are not valid UTF-8 each yield a typed failure;
//! otherwise the exact byte range is surfaced as text, unchanged.

use crate::host::HostStr;
use vstd::prelude::*;
use vstd::string::StringSliceAdditionalSpecFns;
use vstd::utf8::*;

verus! {

/// Failure kinds of checked string extraction.
#[derive(Clone, Copy, Debug, PartialEq, Eq, Structural)]
pub enum RawStrError {
    /// The host returned a null pointer.
    InvalidStringPointer,
    /// The length the host wrote is not representable as a size; carries that
    /// length.
    InvalidStringLength(i32),
    /// The bytes are not valid UTF-8; carries the byte offset at which
    /// decoding fails (the length of the longest decodable prefix).
    InvalidString(usize),
}

/// The number of bytes that a UTF-8 scalar encoding occupies at the start of
/// `s`, or `None` when `s` does not begin with a valid scalar encoding.
pub open spec fn utf8_scalar_width(s: Seq<u8>) -> Option<int> {
    if s.len() >= 1 && is_leading_byte_width_1(s[0]) {
        Some(1)
    } else if s.len() >= 2 && 0xc2 <= s[0] && s[0] <= 0xdf && is_continuation_byte(s[1]) {
        Some(2)
    } else if s.len() >= 3 && s[0] == 0xe0 && 0xa0 <= s[1] && s[1] <= 0xbf
        && is_continuation_byte(s[2]) {
        Some(3)
    } else if s.len() >= 3 && 0xe1 <= s[0] && s[0] <= 0xec && is_continuation_byte(s[1])
        && is_continuation_byte(s[2]) {
        Some(3)
    } else if s.len() >= 3 && s[0] == 0xed && 0x80 <= s[1] && s[1] <= 0x9f
        && is_continuation_byte(s[2]) {
        Some(3)
    } else if s.len() >= 3 && 0xee <= s[0] && s[0] <= 0xef && is_continuation_byte(s[1])
        && is_continuation_byte(s[2]) {
        Some(3)
    } else if s.len() >= 4 && s[0] == 0xf0 && 0x90 <= s[1] && s[1] <= 0xbf
        && is_continuation_byte(s[2]) && is_continuation_byte(s[3]) {
        Some(4)
    } else if s.len() >= 4 && 0xf1 <= s[0] && s[0] <= 0xf3 && is_continuation_byte(s[1])
        && is_continuation_byte(s[2]) && is_continuation_byte(s[3]) {
        Some(4)
    } else if s.len() >= 4 && s[0] == 0xf4 && 0x80 <= s[1] && s[1] <= 0x8f
        && is_continuation_byte(s[2]) && is_continuation_byte(s[3]) {
        Some(4)
    } else {
        None
    }
}

/// The byte-range table of `utf8_scalar_width` agrees with the UTF-8
/// definition: a sequence starts with a valid scalar encoding exactly when
/// the table accepts it, and the table's width is the encoding's length.
pub proof fn lemma_utf8_scalar_width(s: Seq<u8>)
    requires
        s.len() > 0,
    ensures
        utf8_scalar_width(s) is Some <==> valid_first_scalar(s),
        utf8_scalar_width(s) matches Some(w) ==> length_of_first_scalar(s) == w && w <= s.len(),
{
    let b0 = s[0];
    if is_leading_byte_width_1(b0) {
        assert(valid_first_scalar(s));
    } else if 0xc0 <= b0 && b0 <= 0xdf {
        if s.len() >= 2 && is_continuation_byte(s[1]) {
            let b1 = s[1];
            assert((((((b0 & 0x1f) as u32) << 6) | ((b1 & 0x3f) as u32)) >= 0x80 <==> b0 >= 0xc2)
                && ((((b0 & 0x1f) as u32) << 6) | ((b1 & 0x3f) as u32)) <= 0x7ff) by (bit_vector)
                requires
                    0xc0 <= b0 && b0 <= 0xdf && 0x80 <= b1 && b1 <= 0xbf,
            ;
            assert(length_of_first_codepoint(s) == 2);
            assert(decode_first_codepoint(s) == codepoint_width_2(b0, b1));
        } else {
            assert(!valid_leading_and_continuation_bytes_first_codepoint(s));
        }
    } else if 0xe0 <= b0 && b0 <= 0xef {
        if s.len() >= 3 && is_continuation_byte(s[1]) && is_continuation_byte(s[2]) {
            let b1 = s[1];
            let b2 = s[2];
            assert({
                let cp = (((b0 & 0x0f) as u32) << 12) | (((b1 & 0x3f) as u32) << 6) | ((b2
                    & 0x3f) as u32);
                &&& (cp >= 0x800 <==> (b0 != 0xe0 || b1 >= 0xa0))
                &&& ((0xd800 <= cp && cp <= 0xdfff) <==> (b0 == 0xed && b1 >= 0xa0))
                &&& cp <= 0xffff
            }) by (bit_vector)
                requires
                    0xe0 <= b0 && b0 <= 0xef && 0x80 <= b1 && b1 <= 0xbf && 0x80 <= b2 && b2
                        <= 0xbf,
            ;
            assert(length_of_first_codepoint(s) == 3);
            assert(decode_first_codepoint(s) == codepoint_width_3(b0, b1, b2));
        } else {
            assert(!valid_leading_and_continuation_bytes_first_codepoint(s));
        }
    } else if 0xf0 <= b0 && b0 <= 0xf7 {
        if s.len() >= 4 && is_continuation_byte(s[1]) && is_continuation_byte(s[2])
            && is_continuation_byte(s[3]) {
            let b1 = s[1];
            let b2 = s[2];
            let b3 = s[3];
            assert({
                let cp = (((b0 & 0x07) as u32) << 18) | (((b1 & 0x3f) as u32) << 12) | (((b2
                    & 0x3f) as u32) << 6) | ((b3 & 0x3f) as u32);
                &&& (cp >= 0x10000 <==> (b0 != 0xf0 || b1 >= 0x90))
                &&& (cp <= 0x10ffff <==> (b0 <= 0xf3 || (b0 == 0xf4 && b1 <= 0x8f)))
                &&& !(0xd800 <= cp && cp <= 0xdfff) || cp < 0x10000
            }) by (bit_vector)
                requires
                    0xf0 <= b0 && b0 <= 0xf7 && 0x80 <= b1 && b1 <= 0xbf && 0x80 <= b2 && b2
                        <= 0xbf && 0x80 <= b3 && b3 <= 0xbf,
            ;
            assert(length_of_first_codepoint(s) == 4);
            assert(decode_first_codepoint(s) == codepoint_width_4(b0, b1, b2, b3));
        } else {
            assert(!valid_leading_and_continuation_bytes_first_codepoint(s));
        }
    } else {
        assert(!valid_leading_and_continuation_bytes_first_codepoint(s));
    }
}

/// The byte offset at which greedy UTF-8 decoding of `s`, started at `i`,
/// first finds no valid scalar encoding (the sequence end when none exists).
pub open spec fn utf8_failure_offset(s: Seq<u8>, i: int) -> int
    recommends
        0 <= i <= s.len(),
    decreases s.len() - i
        when 0 <= i <= s.len()
{
    if i >= s.len() {
        i
    } else {
        match utf8_scalar_width(s.subrange(i, s.len() as int)) {
            Some(w) => utf8_failure_offset(s, i + w),
            None => i,
        }
    }
}

/// What checked string extraction yields for a host string accessor result:
/// each failure kind on exactly its inputs, otherwise the bytes as text.
pub open spec fn spec_checked_str(h: HostStr) -> Result<Seq<char>, RawStrError> {
    if h.is_null {
        Err(RawStrError::InvalidStringPointer)
    } else if h.len < 0 {
        Err(RawStrError::InvalidStringLength(h.len))
    } else if valid_utf8(h.bytes@) {
        Ok(decode_utf8(h.bytes@))
    } else {
        Err(RawStrError::InvalidString(utf8_failure_offset(h.bytes@, 0) as usize))
    }
}

/// The text a borrowed extraction result carries, at the spec level.
pub open spec fn spec_str_result(r: Result<&str, RawStrError>) -> Result<Seq<char>, RawStrError> {
    match r {
        Ok(s) => Ok(s@),
        Err(e) => Err(e),
    }
}

/// Extraction round-trip: a non-null, valid-UTF-8 host string is surfaced as
/// text whose encoding is the exact original byte range.
pub proof fn lemma_checked_str_round_trip(h: HostStr)
    requires
        !h.is_null,
        h.len >= 0,
        valid_utf8(h.bytes@),
    ensures
        spec_checked_str(h) matches Ok(t) && encode_utf8(t) == h.bytes@,
{
    decode_utf8_encode_utf8(h.bytes@);
}

/// Reads the table of `utf8_scalar_width` at position `i` of `bytes`.
fn utf8_step(bytes: &[u8], i: usize) -> (r: Option<usize>)
    requires
        i < bytes@.len(),
    ensures
        ({
            let s = bytes@.subrange(i as int, bytes@.len() as int);
            match r {
                Some(w) => utf8_scalar_width(s) == Some(w as int) && i + w <= bytes@.len(),
                None => utf8_scalar_width(s) is None,
            }
        }),
{
    let n = bytes.len();
    let rem = n - i;
    let b0 = bytes[i];
    let ghost s = bytes@.subrange(i as int, n as int);
    proof {
        assert(s.len() == rem);
        assert(s[0] == bytes@[i as int]);
    }
    if b0 < 0x80 {
        Some(1)
    } else if b0 < 0xc2 {
        None
    } else if b0 <= 0xdf {
        if rem >= 2 {
            let b1 = bytes[i + 1];
            proof {
                assert(s[1] == bytes@[i + 1]);
            }
            if 0x80 <= b1 && b1 <= 0xbf {
                Some(2)
            } else {
                None
            }
        } else {
            None
        }
    } else if b0 <= 0xef {
        if rem >= 3 {
            let b1 = bytes[i + 1];
            let b2 = bytes[i + 2];
            proof {
                assert(s[1] == bytes@[i + 1]);
                assert(s[2] == bytes@[i + 2]);
            }
            let b1_ok = if b0 == 0xe0 {
                0xa0 <= b1 && b1 <= 0xbf
            } else if b0 == 0xed {
                0x80 <= b1 && b1 <= 0x9f
            } else {
                0x80 <= b1 && b1 <= 0xbf
            };
            if b1_ok && 0x80 <= b2 && b2 <= 0xbf {
                Some(3)
            } else {
                None
            }
        } else {
            None
        }
    } else if b0 <= 0xf4 {
        if rem >= 4 {
            let b1 = bytes[i + 1];
            let b2 = bytes[i + 2];
            let b3 = bytes[i + 3];
            proof {
                assert(s[1] == bytes@[i + 1]);
                assert(s[2] == bytes@[i + 2]);
                assert(s[3] == bytes@[i + 3]);
            }
            let b1_ok = if b0 == 0xf0 {
                0x90 <= b1 && b1 <= 0xbf
            } else if b0 == 0xf4 {
                0x80 <= b1 && b1 <= 0x8f
            } else {
                0x80 <= b1 && b1 <= 0xbf
            };
            if b1_ok && 0x80 <= b2 && b2 <= 0xbf && 0x80 <= b3 && b3 <= 0xbf {
                Some(4)
            } else {
                None
            }
        } else {
            None
        }
    } else {
        None
    }
}

/// Checks whether `bytes` is valid UTF-8. On failure, reports the byte offset
/// at which decoding fails: the prefix before it is valid UTF-8 and no valid
/// scalar encoding starts there.
pub fn validate_utf8(bytes: &[u8]) -> (r: Result<(), usize>)
    ensures
        r is Ok <==> valid_utf8(bytes@),
        r matches Err(e) ==> {
            &&& e < bytes@.len()
            &&& e as int == utf8_failure_offset(bytes@, 0)
            &&& partial_valid_utf8(bytes@, e as int)
            &&& !valid_first_scalar(bytes@.subrange(e as int, bytes@.len() as int))
        },
{
    let n = bytes.len();
    let mut i: usize = 0;
    proof {
        assert(bytes@.subrange(0, 0) =~= Seq::<u8>::empty());
    }
    while i < n
        invariant
            i <= n,
            n == bytes@.len(),
            partial_valid_utf8(bytes@, i as int),
            utf8_failure_offset(bytes@, 0) == utf8_failure_offset(bytes@, i as int),
        decreases n - i,
    {
        let ghost s = bytes@.subrange(i as int, n as int);
        match utf8_step(bytes, i) {
            Some(w) => {
                proof {
                    lemma_utf8_scalar_width(s);
                    partial_valid_utf8_extend(bytes@, i as int);
                    assert(utf8_failure_offset(bytes@, i as int) == utf8_failure_offset(
                        bytes@,
                        i + w,
                    ));
                }
                i += w;
            },
            None => {
                proof {
                    lemma_utf8_scalar_width(s);
                    assert(!valid_utf8(s));
                    partial_valid_partial_invalid_utf8(bytes@, i as int);
                    assert(utf8_failure_offset(bytes@, i as int) == i);
                }
                return Err(i);
            },
        }
    }
    proof {
        assert(bytes@.subrange(0, n as int) =~= bytes@);
    }
    Ok(())
}

/// Relies on std's `str::from_utf8`: on bytes that form valid UTF-8 it
/// returns the borrowed text over exactly those bytes.
#[verifier::external_body]
pub(crate) fn bytes_as_str(v: &[u8]) -> (r: &str)
    requires
        valid_utf8(v@),
    ensures
        r@ == decode_utf8(v@),
        r.spec_bytes() == v@,
{
    core::str::from_utf8(v).unwrap_or("")
}

/// Extracts a borrowed text view from a host string accessor's result.
///
/// A null pointer, a negative length, and bytes that are not valid UTF-8 each
/// yield the matching `RawStrError`; otherwise the exact byte range,
/// reinterpreted as text, is returned unchanged.
pub fn checked_raw_str<'a>(raw: &'a HostStr) -> (r: Result<&'a str, RawStrError>)
    requires
        raw.wf(),
    ensures
        spec_str_result(r) == spec_checked_str(*raw),
        r matches Ok(s) ==> s.spec_bytes() == raw.bytes@,
{
    if raw.is_null {
        return Err(RawStrError::InvalidStringPointer);
    }
    if raw.len < 0 {
        return Err(RawStrError::InvalidStringLength(raw.len));
    }
    match validate_utf8(raw.bytes.as_slice()) {
        Ok(()) => Ok(bytes_as_str(raw.bytes.as_slice())),
        Err(off) => Err(RawStrError::InvalidString(off)),
    }
}

/// An owned, validated text value extracted from a host-allocated buffer.
///
/// Construction validates the bytes eagerly, so using the value afterwards
/// cannot fail. The host buffer itself stays at the boundary, where its
/// allocator-release call is made exactly once.
#[derive(Clone, Debug)]
pub struct RawString {
    text: String,
}

impl View for RawString {
    type V = Seq<char>;

    closed spec fn view(&self) -> Seq<char> {
        self.text@
    }
}

impl RawString {
    /// Borrows the validated text.
    pub fn as_str(&self) -> (r: &str)
        ensures
            r@ == self@,
    {
        self.text.as_str()
    }

    /// Surrenders the validated text.
    pub fn into_string(self) -> (r: String)
        ensures
            r@ == self@,
    {
        self.text
    }
}

/// Extracts an owned text value from a host string accessor's result,
/// consuming the image of the host-allocated buffer.
///
/// Classifies its input exactly as `checked_raw_str` does.
pub fn checked_raw_string(raw: HostStr) -> (r: Result<RawString, RawStrError>)
    requires
        raw.wf(),
    ensures
        r matches Ok(s) ==> spec_checked_str(raw) == Ok::<Seq<char>, RawStrError>(s@),
        r matches Err(e) ==> spec_checked_str(raw) == Err::<Seq<char>, RawStrError>(e),
{
    match checked_raw_str(&raw) {
        Ok(s) => Ok(RawString { text: s.to_owned() }),
        Err(e) => Err(e),
    }
}

} // verus!
