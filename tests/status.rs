use dwrote_core::status::{FACILITY_WIN32, SEVERITY_ERROR};
use dwrote_core::{hresult_from_win32, message_from_buffer};

#[test]
fn access_denied_becomes_win32_failure() {
    let expected = (0x8000_0000u32 | (FACILITY_WIN32 << 16) | 0x0005) as i32;
    assert_eq!(hresult_from_win32(5), expected);
    assert_eq!(hresult_from_win32(5), 0x8007_0005u32 as i32);
}

#[test]
fn zero_passes_through() {
    assert_eq!(hresult_from_win32(0), 0);
}

#[test]
fn failure_codes_pass_through() {
    for code in [0x8000_4005u32, 0x8007_0005, 0xFFFF_FFFF, 0x8000_0000] {
        assert_eq!(hresult_from_win32(code), code as i32);
    }
}

#[test]
fn positive_codes_get_severity_and_keep_low_bits() {
    for code in [1u32, 2, 0xFFFF, 0x1_2345, 0x7FFF_FFFF] {
        let hr = hresult_from_win32(code) as u32;
        assert_eq!(hr & SEVERITY_ERROR, SEVERITY_ERROR);
        assert_eq!(hr & 0xFFFF, code & 0xFFFF);
        assert_eq!((hr >> 16) & 0x1FFF, FACILITY_WIN32);
    }
    assert_eq!(hresult_from_win32(0x1_2345), 0x8007_2345u32 as i32);
}

#[test]
fn normalising_twice_is_normalising_once() {
    for code in [0u32, 1, 5, 0xFFFF, 0x1_0000, 0x7FFF_FFFF, 0x8000_0000, 0x8007_0005, 0xFFFF_FFFF] {
        let once = hresult_from_win32(code);
        assert_eq!(hresult_from_win32(once as u32), once);
    }
}

#[test]
fn empty_buffer_has_no_message() {
    assert_eq!(message_from_buffer(&[]), None);
}

#[test]
fn ascii_buffer_is_the_message() {
    let bytes = b"Access is denied.\r\n";
    assert_eq!(message_from_buffer(bytes), Some("Access is denied.\r\n".to_string()));
}

#[test]
fn invalid_bytes_are_replaced() {
    let bytes = [0x66u8, 0xFF, 0x67];
    assert_eq!(message_from_buffer(&bytes), Some("f\u{FFFD}g".to_string()));
}

#[test]
fn valid_utf8_buffer_decodes() {
    let bytes = "Zugriff verweigert: é".as_bytes();
    assert_eq!(message_from_buffer(bytes), Some("Zugriff verweigert: é".to_string()));
}
