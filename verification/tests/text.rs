use coretoolbox::error::ToolboxError;
use coretoolbox::text::{
    chars_of, decimal_string, digit_char, matches_at, push_decimal, push_lower_hex,
    push_signed_decimal, string_of,
};

#[test]
fn decimal_numerals() {
    assert_eq!(decimal_string(0), "0");
    assert_eq!(decimal_string(7), "7");
    assert_eq!(decimal_string(10), "10");
    assert_eq!(decimal_string(1000), "1000");
    assert_eq!(decimal_string(4294967295), "4294967295");
}

#[test]
fn numerals_are_appended() {
    let mut s = String::from("x=");
    push_decimal(&mut s, 42);
    s.push(',');
    push_lower_hex(&mut s, 0xdeadbeef);
    s.push(',');
    push_signed_decimal(&mut s, -17);
    assert_eq!(s, "x=42,deadbeef,-17");
}

#[test]
fn hexadecimal_numerals() {
    for n in [0u32, 9, 10, 15, 16, 255, 4096, 0xabcdef, u32::MAX] {
        let mut s = String::new();
        push_lower_hex(&mut s, n);
        assert_eq!(s, format!("{:x}", n));
    }
}

#[test]
fn signed_numerals() {
    for i in [0i32, 1, -1, 123, -123, i32::MAX, i32::MIN] {
        let mut s = String::new();
        push_signed_decimal(&mut s, i);
        assert_eq!(s, format!("{}", i));
    }
}

#[test]
fn digit_characters() {
    let all: String = (0u8..16).map(digit_char).collect();
    assert_eq!(all, "0123456789abcdef");
}

#[test]
fn characters_and_back() {
    let text = "a\u{e9}\u{1f600}z";
    let chars = chars_of(text);
    assert_eq!(chars, vec!['a', '\u{e9}', '\u{1f600}', 'z']);
    assert_eq!(string_of(&chars), text);
    assert_eq!(chars_of(""), Vec::<char>::new());
}

#[test]
fn matching_at_a_position() {
    let text = chars_of("hello world");
    assert!(matches_at(&text, 6, &chars_of("world")));
    assert!(matches_at(&text, 0, &chars_of("hello")));
    assert!(matches_at(&text, 11, &chars_of("")));
    assert!(!matches_at(&text, 7, &chars_of("world")));
    assert!(!matches_at(&text, 5, &chars_of("world")));
    assert!(!matches_at(&text, 12, &chars_of("")));
}

#[test]
fn diagnostics() {
    assert_eq!(ToolboxError::ImagePullError.message(), "Failed to pull image");
    assert_eq!(ToolboxError::MissingEnvVar("USER".to_string()).message(), "USER is unset");
    assert_eq!(
        ToolboxError::InvalidEncoding("LANG".to_string()).message(),
        "LANG is invalid UTF-8"
    );
    assert_eq!(ToolboxError::HandshakeReadError.message(), "Failed to read handshake file");
    assert_eq!(ToolboxError::HandshakeParseError.message(), "Failed to parse handshake file");
    assert_eq!(ToolboxError::HandshakeWriteError.message(), "Failed to write handshake file");
    assert_eq!(ToolboxError::UserCreationError.message(), "Failed to useradd");
    assert_eq!(ToolboxError::LaunchFailed.message(), "Failed to start container runtime");
    assert_eq!(ToolboxError::ShellExecFailed.message(), "Failed to exec shell");
    assert_eq!(ToolboxError::UidOutOfRange(70000).message(), "UID 70000 is out of range");
    for e in [
        ToolboxError::ImagePullError,
        ToolboxError::MissingEnvVar("XDG_RUNTIME_DIR".to_string()),
        ToolboxError::UidOutOfRange(0),
    ] {
        assert!(!e.message().contains('\n'));
    }
}
