use egui_overlay::{parse_handle, parse_handle_bytes, NativeWindowHandle, OverlayError};

fn handle(value: isize) -> Result<NativeWindowHandle, OverlayError> {
    Ok(NativeWindowHandle { value })
}

fn refused() -> Result<NativeWindowHandle, OverlayError> {
    Err(OverlayError::InvalidHandleFormat)
}

#[test]
fn prefixed_literal_is_read() {
    assert_eq!(parse_handle("0x1A2B"), handle(0x1A2B));
    assert_eq!(parse_handle("0x000A0B1C"), handle(0x000A_0B1C));
}

#[test]
fn prefix_is_optional() {
    for digits in ["1A2B", "0", "7", "deadBEEF", "00ff", "123456", "abcdef", "ABCDEF"] {
        let plain = parse_handle(digits);
        assert!(plain.is_ok(), "{digits}");
        assert_eq!(parse_handle(&format!("0x{digits}")), plain, "{digits}");
        assert_eq!(parse_handle(&format!("0X{digits}")), plain, "{digits}");
    }
}

#[test]
fn digits_of_either_case_are_read() {
    assert_eq!(parse_handle("0xabcdef"), handle(0xABCDEF));
    assert_eq!(parse_handle("0XABCDEF"), handle(0xABCDEF));
    assert_eq!(parse_handle("aBcDeF"), handle(0xABCDEF));
    assert_eq!(parse_handle("0123456789"), handle(0x0123456789));
}

#[test]
fn value_is_base_sixteen() {
    assert_eq!(parse_handle("10"), handle(16));
    assert_eq!(parse_handle("0x10"), handle(16));
    assert_eq!(parse_handle("ff"), handle(255));
    assert_eq!(parse_handle("0"), handle(0));
    assert_eq!(parse_handle("0x0"), handle(0));
}

#[test]
fn leading_zeros_do_not_overflow() {
    assert_eq!(parse_handle("0x00000000000000000000000000000000001F"), handle(31));
}

#[test]
fn empty_text_is_refused() {
    assert_eq!(parse_handle(""), refused());
}

#[test]
fn bare_prefix_is_refused() {
    assert_eq!(parse_handle("0x"), refused());
    assert_eq!(parse_handle("0X"), refused());
}

#[test]
fn non_hex_text_is_refused() {
    assert_eq!(parse_handle("zzz"), refused());
    assert_eq!(parse_handle("0xzzz"), refused());
    assert_eq!(parse_handle("0x12G4"), refused());
    assert_eq!(parse_handle("x12"), refused());
    assert_eq!(parse_handle("12 "), refused());
    assert_eq!(parse_handle(" 12"), refused());
    assert_eq!(parse_handle("0x 12"), refused());
    assert_eq!(parse_handle("12h"), refused());
    assert_eq!(parse_handle("/"), refused());
    assert_eq!(parse_handle(":"), refused());
    assert_eq!(parse_handle("@"), refused());
    assert_eq!(parse_handle("G"), refused());
    assert_eq!(parse_handle("`"), refused());
    assert_eq!(parse_handle("g"), refused());
}

#[test]
fn signs_are_refused() {
    assert_eq!(parse_handle("-1A"), refused());
    assert_eq!(parse_handle("+1A"), refused());
    assert_eq!(parse_handle("0x-1A"), refused());
    assert_eq!(parse_handle("0x+1A"), refused());
}

#[test]
fn only_one_prefix_is_stripped() {
    assert_eq!(parse_handle("0x0x12"), refused());
    assert_eq!(parse_handle("0X0x12"), refused());
}

#[test]
fn text_outside_ascii_is_refused() {
    assert_eq!(parse_handle("0x\u{ff11}\u{ff12}"), refused());
    assert_eq!(parse_handle("\u{e9}"), refused());
}

#[test]
fn largest_handle_is_read() {
    let text = format!("{:X}", isize::MAX);
    assert_eq!(parse_handle(&text), handle(isize::MAX));
    assert_eq!(parse_handle(&format!("0x{text}")), handle(isize::MAX));
}

#[test]
fn value_beyond_a_handle_is_refused() {
    let one_more = format!("{:X}", isize::MAX as usize + 1);
    assert_eq!(parse_handle(&one_more), refused());
    assert_eq!(parse_handle(&format!("{:X}", usize::MAX)), refused());
    assert_eq!(parse_handle("0x1FFFFFFFFFFFFFFFFFFFFFFFF"), refused());
}

#[test]
fn bytes_read_as_text_does() {
    assert_eq!(parse_handle_bytes(b"0x1A2B"), handle(0x1A2B));
    assert_eq!(parse_handle_bytes(b"1a2b"), handle(0x1A2B));
    assert_eq!(parse_handle_bytes(b""), refused());
    assert_eq!(parse_handle_bytes(b"zzz"), refused());
    assert_eq!(parse_handle_bytes(&[0x30, 0x78, 0xff]), refused());
    assert_eq!(parse_handle_bytes(&[0x30]), handle(0));
}
