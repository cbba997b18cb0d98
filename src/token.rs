//! The synthetic-unique strategy: 128 random bits, stamped as a version-4
//! token and written in the canonical hyphenated form
//! `xxxxxxxx-xxxx-4xxx-Yxxx-xxxxxxxxxxxx`.
use vstd::prelude::*;

verus! {

/// Bits of a drawn value that are kept: all but the version nibble and the
/// two top bits of the variant nibble.
pub const STAMP_KEEP: u128 = 0xffff_ffff_ffff_0fff_3fff_ffff_ffff_ffff;

/// Bits that are set: version 4 and the variant `10`.
pub const STAMP_SET: u128 = 0x0000_0000_0000_4000_8000_0000_0000_0000;

/// A drawn value with the version and variant fields written in.
pub open spec fn stamp(bits: u128) -> u128 {
    (bits & STAMP_KEEP) | STAMP_SET
}

/// The lower-case hexadecimal digit of `d` (taken below 16).
pub open spec fn hex_char(d: nat) -> char {
    if d == 0 {
        '0'
    } else if d == 1 {
        '1'
    } else if d == 2 {
        '2'
    } else if d == 3 {
        '3'
    } else if d == 4 {
        '4'
    } else if d == 5 {
        '5'
    } else if d == 6 {
        '6'
    } else if d == 7 {
        '7'
    } else if d == 8 {
        '8'
    } else if d == 9 {
        '9'
    } else if d == 10 {
        'a'
    } else if d == 11 {
        'b'
    } else if d == 12 {
        'c'
    } else if d == 13 {
        'd'
    } else if d == 14 {
        'e'
    } else {
        'f'
    }
}

pub open spec fn is_hex_char(c: char) -> bool {
    ('0' <= c && c <= '9') || ('a' <= c && c <= 'f')
}

/// The last `n` hexadecimal digits of `v`, most significant first.
pub open spec fn hex_digits(v: nat, n: nat) -> Seq<char>
    decreases n,
{
    if n == 0 {
        seq![]
    } else {
        hex_digits(v / 16, (n - 1) as nat).push(hex_char(v % 16))
    }
}

/// The hyphenated text of a 128-bit value: groups of 8, 4, 4, 4 and 12
/// hexadecimal digits.
pub open spec fn token_text(v: u128) -> Seq<char> {
    hex_digits((v >> 96u128) as nat, 8) + seq!['-'] + hex_digits(((v >> 80u128) & 0xffff) as nat, 4)
        + seq!['-'] + hex_digits(((v >> 64u128) & 0xffff) as nat, 4) + seq!['-'] + hex_digits(
        ((v >> 48u128) & 0xffff) as nat,
        4,
    ) + seq!['-'] + hex_digits((v & 0xffff_ffff_ffff) as nat, 12)
}

pub open spec fn is_hyphen_position(i: int) -> bool {
    i == 8 || i == 13 || i == 18 || i == 23
}

/// A well-formed token: 36 characters, hyphens at 8, 13, 18 and 23,
/// lower-case hexadecimal digits elsewhere, version digit `4` and a variant
/// digit among `8`, `9`, `a`, `b`.
pub open spec fn is_token(s: Seq<char>) -> bool {
    &&& s.len() == 36
    &&& forall|i: int|
        0 <= i < 36 ==> if is_hyphen_position(i) {
            #[trigger] s[i] == '-'
        } else {
            is_hex_char(s[i])
        }
    &&& s[14] == '4'
    &&& (s[19] == '8' || s[19] == '9' || s[19] == 'a' || s[19] == 'b')
}

/// Every character of `hex_digits(v, n)` is a hexadecimal digit, and there
/// are `n` of them.
pub proof fn lemma_hex_digits_shape(v: nat, n: nat)
    ensures
        hex_digits(v, n).len() == n,
        forall|k: int| 0 <= k < n ==> is_hex_char(#[trigger] hex_digits(v, n)[k]),
    decreases n,
{
    if n > 0 {
        lemma_hex_digits_shape(v / 16, (n - 1) as nat);
        assert(is_hex_char(hex_char(v % 16)));
    }
}

/// The leading digit of a four-digit group.
proof fn lemma_leading_digit(x: u128)
    requires
        x <= 0xffff,
    ensures
        hex_digits(x as nat, 4)[0] == hex_char((x / 4096) as nat),
{
    assert(x / 16 / 16 / 16 == x / 4096) by (bit_vector);
    assert(x / 4096 < 16) by (bit_vector)
        requires
            x <= 0xffff,
    ;
    reveal_with_fuel(hex_digits, 5);
}

/// Every stamped value is written as a well-formed token.
pub proof fn lemma_token_well_formed(bits: u128)
    ensures
        is_token(token_text(stamp(bits))),
{
    let v = stamp(bits);
    let g0 = (v >> 96u128) as nat;
    let g1 = ((v >> 80u128) & 0xffff) as nat;
    let g2 = (v >> 64u128) & 0xffff;
    let g3 = (v >> 48u128) & 0xffff;
    let g4 = (v & 0xffff_ffff_ffff) as nat;
    lemma_hex_digits_shape(g0, 8);
    lemma_hex_digits_shape(g1, 4);
    lemma_hex_digits_shape(g2 as nat, 4);
    lemma_hex_digits_shape(g3 as nat, 4);
    lemma_hex_digits_shape(g4, 12);
    assert(g2 <= 0xffff && g3 <= 0xffff) by (bit_vector)
        requires
            g2 == (v >> 64u128) & 0xffff,
            g3 == (v >> 48u128) & 0xffff,
    ;
    assert(g2 / 4096 == 4 && 8 <= g3 / 4096 < 12) by (bit_vector)
        requires
            v == (bits & 0xffff_ffff_ffff_0fff_3fff_ffff_ffff_ffffu128)
                | 0x0000_0000_0000_4000_8000_0000_0000_0000u128,
            g2 == (v >> 64u128) & 0xffff,
            g3 == (v >> 48u128) & 0xffff,
    ;
    lemma_leading_digit(g2);
    lemma_leading_digit(g3);
    let s = token_text(v);
    assert(s.len() == 36);
    assert forall|i: int| 0 <= i < 36 implies if is_hyphen_position(i) {
        #[trigger] s[i] == '-'
    } else {
        is_hex_char(s[i])
    } by {
        if i < 8 {
            assert(s[i] == hex_digits(g0, 8)[i]);
        } else if i == 8 {
        } else if i < 13 {
            assert(s[i] == hex_digits(g1, 4)[i - 9]);
        } else if i == 13 {
        } else if i < 18 {
            assert(s[i] == hex_digits(g2 as nat, 4)[i - 14]);
        } else if i == 18 {
        } else if i < 23 {
            assert(s[i] == hex_digits(g3 as nat, 4)[i - 19]);
        } else if i == 23 {
        } else {
            assert(s[i] == hex_digits(g4, 12)[i - 24]);
        }
    }
    assert(s[14] == hex_digits(g2 as nat, 4)[0]);
    assert(s[19] == hex_digits(g3 as nat, 4)[0]);
}

/// Issues tokens from 128 random bits; needs no shared state.
pub struct TokenGenerator {}

impl TokenGenerator {
    pub fn new() -> (r: TokenGenerator) {
        TokenGenerator {  }
    }

    /// A fresh token: the hyphenated text of freshly drawn bits.
    pub fn generate(&self) -> (r: String)
        ensures
            is_token(r@),
            exists|bits: u128| r@ == token_text(stamp(bits)),
    {
        let bits: u128 = rand::random::<u128>();
        proof {
            lemma_token_well_formed(bits);
        }
        format_token(bits)
    }
}

/// The digit of `d`.
fn hex_char_of(d: u128) -> (c: char)
    requires
        d < 16,
    ensures
        c == hex_char(d as nat),
{
    match d {
        0 => '0',
        1 => '1',
        2 => '2',
        3 => '3',
        4 => '4',
        5 => '5',
        6 => '6',
        7 => '7',
        8 => '8',
        9 => '9',
        10 => 'a',
        11 => 'b',
        12 => 'c',
        13 => 'd',
        14 => 'e',
        _ => 'f',
    }
}

/// Appends the last `n` hexadecimal digits of `v` to `out`.
fn push_hex(out: &mut String, v: u128, n: usize)
    ensures
        final(out)@ == old(out)@ + hex_digits(v as nat, n as nat),
    decreases n,
{
    if n > 0 {
        push_hex(out, v / 16, n - 1);
        let c = hex_char_of(v % 16);
        out.push(c);
        assert(out@ =~= old(out)@ + hex_digits(v as nat, n as nat));
    } else {
        assert(out@ =~= old(out)@ + hex_digits(v as nat, n as nat));
    }
}

/// Writes `v` in the hyphenated form, after stamping version and variant.
pub fn format_token(bits: u128) -> (r: String)
    ensures
        r@ == token_text(stamp(bits)),
{
    let v: u128 = (bits & STAMP_KEEP) | STAMP_SET;
    let mut out = String::new();
    push_hex(&mut out, v >> 96u128, 8);
    out.push('-');
    push_hex(&mut out, (v >> 80u128) & 0xffff, 4);
    out.push('-');
    push_hex(&mut out, (v >> 64u128) & 0xffff, 4);
    out.push('-');
    push_hex(&mut out, (v >> 48u128) & 0xffff, 4);
    out.push('-');
    push_hex(&mut out, v & 0xffff_ffff_ffff, 12);
    assert(out@ =~= token_text(stamp(bits)));
    out
}

} // verus!
