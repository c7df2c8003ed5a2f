//! Status codes: folding plain system error numbers into the
//! severity-tagged result-code space, and turning the bytes of a system
//! diagnostic message into text.
use vstd::prelude::*;

verus! {

/// Facility number that marks a result code as a wrapped system error.
pub const FACILITY_WIN32: u32 = 7;

/// The severity bit: set on every failure result code.
pub const SEVERITY_ERROR: u32 = 0x8000_0000;

/// A system error number, read as a signed result code, is already in
/// result-code form when it is zero (success) or negative (a failure code).
pub open spec fn is_result_shaped(win32: u32) -> bool {
    (win32 as i32) <= 0
}

/// The result code that stands for a system error number: codes already in
/// result-code form pass through unchanged; any other has its low 16 bits
/// kept, the system facility put into bits 16..28 and the severity bit set.
pub open spec fn hresult_of(win32: u32) -> i32 {
    if is_result_shaped(win32) {
        win32 as i32
    } else {
        ((win32 & 0xFFFF) | (FACILITY_WIN32 << 16u32) | SEVERITY_ERROR) as i32
    }
}

/// Normalises a system error number into a result code.
pub fn hresult_from_win32(win32: u32) -> (hr: i32)
    ensures
        hr == hresult_of(win32),
{
    if (win32 as i32) <= 0 {
        win32 as i32
    } else {
        ((win32 & 0x0000_FFFF) | (FACILITY_WIN32 << 16u32) | SEVERITY_ERROR) as i32
    }
}

/// A code already in result-code form is left as it is.
pub proof fn lemma_result_shaped_unchanged(win32: u32)
    requires
        is_result_shaped(win32),
    ensures
        hresult_of(win32) == win32 as i32,
{
}

/// A positive system error number becomes a failure code of the system
/// facility that keeps the number's low 16 bits.
pub proof fn lemma_positive_becomes_failure(win32: u32)
    requires
        !is_result_shaped(win32),
    ensures
        hresult_of(win32) < 0,
        (hresult_of(win32) as u32) & SEVERITY_ERROR == SEVERITY_ERROR,
        (hresult_of(win32) as u32) & 0xFFFF == win32 & 0xFFFF,
        ((hresult_of(win32) as u32) >> 16u32) & 0x1FFF == FACILITY_WIN32,
{
    let hr = hresult_of(win32);
    assert(hr == ((win32 & 0xFFFF) | (7u32 << 16u32) | 0x8000_0000u32) as i32);
    assert(((((win32 & 0xFFFF) | (7u32 << 16u32) | 0x8000_0000u32) as i32) as u32) & 0x8000_0000u32 == 0x8000_0000u32) by (bit_vector);
    assert(((((win32 & 0xFFFF) | (7u32 << 16u32) | 0x8000_0000u32) as i32) as u32) & 0xFFFF == win32 & 0xFFFF) by (bit_vector);
    assert((((((win32 & 0xFFFF) | (7u32 << 16u32) | 0x8000_0000u32) as i32) as u32) >> 16u32) & 0x1FFF == 7u32) by (bit_vector);
    assert((((win32 & 0xFFFF) | (7u32 << 16u32) | 0x8000_0000u32) as i32) < 0) by (bit_vector);
}

/// Normalising twice gives what normalising once gives: the code that comes
/// out, read back as a system error number, is already in result-code form.
pub proof fn lemma_normalise_idempotent(win32: u32)
    ensures
        hresult_of(hresult_of(win32) as u32) == hresult_of(win32),
{
    let hr = hresult_of(win32);
    assert((hr as u32) as i32 == hr) by (bit_vector);
    if !is_result_shaped(win32) {
        lemma_positive_becomes_failure(win32);
    }
}

/// What a lossy UTF-8 decoding makes of a byte sequence: each invalid
/// sequence becomes U+FFFD.
pub uninterp spec fn utf8_lossy_of(bytes: Seq<u8>) -> Seq<char>;

/// Every byte is an ASCII byte.
pub open spec fn all_ascii(bytes: Seq<u8>) -> bool {
    forall|i: int| 0 <= i < bytes.len() ==> #[trigger] bytes[i] < 0x80u8
}

/// Relies on `String::from_utf8_lossy`: valid UTF-8 (ASCII in particular)
/// decodes to the same characters, and nothing decodes to nothing.
#[verifier::external_body]
fn decode_lossy(bytes: &[u8]) -> (text: String)
    ensures
        text@ == utf8_lossy_of(bytes@),
        bytes@.len() == 0 ==> text@.len() == 0,
        all_ascii(bytes@) ==> text@ == bytes@.map_values(|b: u8| b as char),
{
    String::from_utf8_lossy(bytes).into_owned()
}

/// The diagnostic text for the characters that the system message formatter
/// wrote: none when it wrote nothing (no message is known for the code),
/// else those bytes decoded as UTF-8, invalid sequences replaced.
pub fn message_from_buffer(written: &[u8]) -> (text: Option<String>)
    ensures
        written@.len() == 0 <==> text is None,
        text matches Some(t) ==> t@ == utf8_lossy_of(written@),
        text matches Some(t) ==> (all_ascii(written@) ==> t@ == written@.map_values(|b: u8| b as char)),
{
    if written.len() == 0 {
        None
    } else {
        Some(decode_lossy(written))
    }
}

} // verus!
