//! The token renderer, the generator, and case normalization.

use wlsd::text::lower_string;
use wlsd::token::{format_token, generate};

#[test]
fn format_token_renders_fixed_width_hex() {
    assert_eq!(format_token(0), "0000000000000000");
    assert_eq!(format_token(1), "0000000000000001");
    assert_eq!(format_token(0xdead_beef), "00000000deadbeef");
    assert_eq!(format_token(u64::MAX), "ffffffffffffffff");
    assert_eq!(format_token(0x0123_4567_89ab_cdef), "0123456789abcdef");
}

#[test]
fn generated_tokens_are_well_shaped() {
    let t = generate().expect("the system randomness source works");
    assert_eq!(t.len(), 16);
    assert!(t.chars().all(|c| c.is_ascii_hexdigit() && !c.is_ascii_uppercase()));
}

#[test]
fn generated_tokens_differ_in_practice() {
    let a = generate().unwrap();
    let b = generate().unwrap();
    assert_ne!(a, b);
}

#[test]
fn lower_string_folds_ascii_only() {
    assert_eq!(lower_string("User@Example.COM"), "user@example.com");
    assert_eq!(lower_string("already lower 123"), "already lower 123");
    assert_eq!(lower_string(""), "");
    // Non-ASCII characters pass through unchanged.
    assert_eq!(lower_string("Ünïcode"), "Ünïcode");
}
