//! Opaque bearer tokens: 64 bits drawn from the operating system's secure
//! randomness source, rendered as a fixed-width lowercase hexadecimal string.
//!
//! The generator only promises unguessability and shape; uniqueness among the
//! stored tokens is enforced by the credential store on insertion, where a
//! collision surfaces as a retryable error.

use vstd::prelude::*;
use rand::RngCore;

verus! {

/// The hexadecimal digit character for a value below 16.
pub open spec fn hex_char(d: int) -> char {
    if d == 0 {
        '0'
    } else if d == 1 {
        '1'
    } else if d == 2 {
        '2'
    } else if d == 3 {
        '3'
    } else if d == 4 {
        '4'
    } else if d == 5 {
        '5'
    } else if d == 6 {
        '6'
    } else if d == 7 {
        '7'
    } else if d == 8 {
        '8'
    } else if d == 9 {
        '9'
    } else if d == 10 {
        'a'
    } else if d == 11 {
        'b'
    } else if d == 12 {
        'c'
    } else if d == 13 {
        'd'
    } else if d == 14 {
        'e'
    } else {
        'f'
    }
}

/// The `i`-th hexadecimal digit of `v`, counted from the most significant.
pub open spec fn nibble(v: u64, i: int) -> int {
    ((v >> ((4 * (15 - i)) as u64)) & 0xf) as int
}

/// The 16-character lowercase hexadecimal rendering of `v`.
pub open spec fn hex_of(v: u64) -> Seq<char> {
    Seq::new(16, |i: int| hex_char(nibble(v, i)))
}

/// A lowercase hexadecimal digit character.
pub open spec fn is_hex_char(c: char) -> bool {
    ('0' <= c && c <= '9') || ('a' <= c && c <= 'f')
}

/// A well-shaped token: exactly 16 lowercase hexadecimal digits.
pub open spec fn is_token(s: Seq<char>) -> bool {
    s.len() == 16 && (forall|i: int| 0 <= i < 16 ==> is_hex_char(#[trigger] s[i]))
}

proof fn lemma_masked_nibble_bound(v: u64, sh: u64)
    ensures
        ((v >> sh) & 0xf) < 16,
{
    assert(((v >> sh) & 0xf) < 16) by (bit_vector);
}

/// Render one hexadecimal digit.
fn hex_digit(d: u64) -> (c: char)
    requires
        d < 16,
    ensures
        c == hex_char(d as int),
        is_hex_char(c),
{
    match d {
        0 => '0',
        1 => '1',
        2 => '2',
        3 => '3',
        4 => '4',
        5 => '5',
        6 => '6',
        7 => '7',
        8 => '8',
        9 => '9',
        10 => 'a',
        11 => 'b',
        12 => 'c',
        13 => 'd',
        14 => 'e',
        _ => 'f',
    }
}

/// Render `v` as its 16-character lowercase hexadecimal string.
pub fn format_token(v: u64) -> (s: String)
    ensures
        s@ == hex_of(v),
        is_token(s@),
{
    let mut s = String::new();
    let mut i: usize = 0;
    while i < 16
        invariant
            i <= 16,
            s@ == hex_of(v).take(i as int),
        decreases 16 - i,
    {
        let sh: u64 = (4 * (15 - i)) as u64;
        let d: u64 = (v >> sh) & 0xf;
        proof {
            lemma_masked_nibble_bound(v, sh);
            assert(d as int == nibble(v, i as int));
        }
        let c = hex_digit(d);
        s.push(c);
        assert(s@ =~= hex_of(v).take(i as int + 1));
        i += 1;
    }
    assert(s@ =~= hex_of(v));
    assert forall|i: int| 0 <= i < 16 implies is_hex_char(#[trigger] s@[i]) by {
        lemma_masked_nibble_bound(v, (4 * (15 - i)) as u64);
    }
    s
}

/// Relies on rand's `OsRng`: `RngCore::try_fill_bytes` fills the buffer from
/// the operating system's cryptographically secure randomness source, or
/// reports the failure instead of panicking.  Nothing can be promised of a
/// random value, so this has no contract.
#[verifier::external_body]
fn os_random_u64() -> (r: Option<u64>)
{
    let mut buf = [0u8; 8];
    match rand::rngs::OsRng.try_fill_bytes(&mut buf) {
        Ok(()) => Some(u64::from_le_bytes(buf)),
        Err(_) => None,
    }
}

/// Draw a fresh opaque token: 64 random bits as lowercase hexadecimal.
///
/// Returns `None` only when the operating system's randomness source fails;
/// every returned token is well-shaped.  Two calls are practically guaranteed
/// to be distinct, but nothing here enforces that: the credential store
/// checks for collisions on insertion.
pub fn generate() -> (r: Option<String>)
    ensures
        r matches Some(t) ==> is_token(t@),
{
    match os_random_u64() {
        Some(v) => Some(format_token(v)),
        None => None,
    }
}

} // verus!
