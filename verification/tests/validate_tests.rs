use aisland::numbers::vecu8_to_u128;
use aisland::numbers::vecu8_to_u32;
use aisland::validate::validate_email;
use aisland::validate::validate_languagecode;
use aisland::validate::validate_phonenumber;
use aisland::validate::validate_unitmeasurement;
use aisland::validate::validate_weburl;

#[test]
fn email_accepts_plain_addresses() {
    assert!(validate_email(&b"info@mail.com".to_vec()));
    assert!(validate_email(&b"first.last@sub.domain.org".to_vec()));
    assert!(validate_email(&b"user_name@mail.net".to_vec()));
}

#[test]
fn email_rejects_bad_local_part() {
    assert!(!validate_email(&b"in fo@mail.com".to_vec()));
    assert!(!validate_email(&b"info!@mail.com".to_vec()));
    assert!(!validate_email(&b"".to_vec()));
    assert!(!validate_email(&b"nodomain".to_vec()));
}

#[test]
fn email_rejects_bad_domain_with_dot() {
    // a bad byte after the @ counts once a dot was seen in the domain
    assert!(!validate_email(&b"a@b.c!".to_vec()));
}

#[test]
fn email_without_domain_dot_needs_only_the_at_sign() {
    // without a dot after the @ the verdict is the presence of the @ alone
    assert!(validate_email(&b"a@b".to_vec()));
}

#[test]
fn weburl_accepts_http_and_https() {
    assert!(validate_weburl(&b"https://example.com".to_vec()));
    assert!(validate_weburl(&b"http://example.com/a_b?q=1".to_vec()));
}

#[test]
fn weburl_rejects_bad_scheme_or_empty_tail() {
    assert!(!validate_weburl(&b"ftp://example.com".to_vec()));
    assert!(!validate_weburl(&b"https://".to_vec()));
    assert!(!validate_weburl(&b"http://".to_vec()));
    assert!(!validate_weburl(&b"".to_vec()));
    assert!(!validate_weburl(&b"http:/".to_vec()));
}

#[test]
fn weburl_rejects_byte_outside_printable_ranges() {
    // the backtick (0x60) sits between the two allowed ranges
    assert!(!validate_weburl(&b"https://a`b".to_vec()));
}

#[test]
fn phonenumber_accepts_known_prefixes() {
    assert!(validate_phonenumber(&b"+61412345678".to_vec()));
    assert!(validate_phonenumber(&b"0061412345678".to_vec()));
    assert!(validate_phonenumber(&b"14155550100".to_vec()));
    assert!(validate_phonenumber(&b"+35312345678".to_vec()));
}

#[test]
fn phonenumber_rejects_bad_shapes() {
    // longer than 23 bytes
    assert!(!validate_phonenumber(&b"123456789012345678901234".to_vec()));
    // a letter
    assert!(!validate_phonenumber(&b"+61a12345678".to_vec()));
    // a plus not in first position
    assert!(!validate_phonenumber(&b"61+12345678".to_vec()));
    // too short to carry a prefix
    assert!(!validate_phonenumber(&b"+1".to_vec()));
    assert!(!validate_phonenumber(&b"".to_vec()));
    // no known international prefix
    assert!(!validate_phonenumber(&b"+999999999".to_vec()));
}

#[test]
fn languagecode_checks_the_table() {
    assert!(validate_languagecode(&b"en".to_vec()));
    assert!(validate_languagecode(&b"zu".to_vec()));
    assert!(!validate_languagecode(&b"zz".to_vec()));
    assert!(!validate_languagecode(&b"e".to_vec()));
    assert!(!validate_languagecode(&b"eng".to_vec()));
}

#[test]
fn unitmeasurement_checks_the_three_codes() {
    assert!(validate_unitmeasurement(&b"ms".to_vec()));
    assert!(validate_unitmeasurement(&b"iu".to_vec()));
    assert!(validate_unitmeasurement(&b"us".to_vec()));
    assert!(!validate_unitmeasurement(&b"xx".to_vec()));
    assert!(!validate_unitmeasurement(&b"m".to_vec()));
}

#[test]
fn decimal_conversion_exact_values() {
    assert_eq!(vecu8_to_u32(&b"123".to_vec()), 123);
    assert_eq!(vecu8_to_u32(&b"+123".to_vec()), 123);
    assert_eq!(vecu8_to_u32(&b"0".to_vec()), 0);
    assert_eq!(vecu8_to_u32(&b"4294967295".to_vec()), u32::MAX);
    assert_eq!(vecu8_to_u128(&b"340282366920938463463374607431768211455".to_vec()), u128::MAX);
}

#[test]
fn decimal_conversion_defaults_to_zero() {
    assert_eq!(vecu8_to_u32(&b"".to_vec()), 0);
    assert_eq!(vecu8_to_u32(&b"+".to_vec()), 0);
    assert_eq!(vecu8_to_u32(&b"12a".to_vec()), 0);
    assert_eq!(vecu8_to_u32(&b"-1".to_vec()), 0);
    assert_eq!(vecu8_to_u32(&b"4294967296".to_vec()), 0);
    assert_eq!(vecu8_to_u128(&b"340282366920938463463374607431768211456".to_vec()), 0);
    assert_eq!(vecu8_to_u128(&b"not a number".to_vec()), 0);
}
