use burgundy::text::{decimal_text, signed_decimal_text};
use burgundy::{Method, UrlText};

#[test]
fn decimal_of_numbers() {
    assert_eq!(decimal_text(0), "0");
    assert_eq!(decimal_text(7), "7");
    assert_eq!(decimal_text(10), "10");
    assert_eq!(decimal_text(123), "123");
    assert_eq!(decimal_text(u64::MAX), "18446744073709551615");
}

#[test]
fn signed_decimal_of_numbers() {
    assert_eq!(signed_decimal_text(0), "0");
    assert_eq!(signed_decimal_text(-45), "-45");
    assert_eq!(signed_decimal_text(i64::MAX), "9223372036854775807");
    assert_eq!(signed_decimal_text(i64::MIN), "-9223372036854775808");
}

#[test]
fn text_of_values() {
    assert_eq!(true.to_text(), "true");
    assert_eq!(false.to_text(), "false");
    assert_eq!(50i32.to_text(), "50");
    assert_eq!((-2i32).to_text(), "-2");
    assert_eq!(9usize.to_text(), "9");
    assert_eq!(4000000000u32.to_text(), "4000000000");
    assert_eq!("abc".to_text(), "abc");
    assert_eq!(String::from("déjà").to_text(), "déjà");
}

#[test]
fn method_tokens() {
    assert_eq!(Method::Get.token(), "GET");
    assert_eq!(Method::Post.token(), "POST");
    assert_eq!(Method::Put.token(), "PUT");
    assert_eq!(Method::Delete.token(), "DELETE");
    assert_eq!(Method::Head.token(), "HEAD");
    assert_eq!(Method::Options.token(), "OPTIONS");
    assert_eq!(Method::Connect.token(), "CONNECT");
    assert_eq!(Method::Patch.token(), "PATCH");
    assert_eq!(Method::Trace.token(), "TRACE");
    assert!(Method::Get.sends_body_in_query());
    assert!(!Method::Post.sends_body_in_query());
}

#[test]
fn text_of_small_integers() {
    assert_eq!(255u8.to_text(), "255");
    assert_eq!(65535u16.to_text(), "65535");
    assert_eq!((-128i8).to_text(), "-128");
    assert_eq!((-32768i16).to_text(), "-32768");
}
