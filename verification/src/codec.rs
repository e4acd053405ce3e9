//! Binary value codec: hex strings holding little-endian signed integers,
//! step bytes holding a decimal scaling coefficient, and exact decimal
//! values combining the two.

use vstd::prelude::*;

verus! {

/// Errors of the value codec.
#[derive(Clone, Copy, Debug, PartialEq, Eq, Structural)]
pub enum ValueError {
    /// A hex string whose length is not 2, 4, 6 or 8 characters, or which
    /// holds a character that is no hex digit.
    MalformedHex,
    /// A write to a leaf whose metadata does not support the written value.
    UnsupportedWrite,
}

/// 10^e.
pub open spec fn pow10(e: nat) -> nat
    decreases e,
{
    if e == 0 {
        1
    } else {
        10 * pow10((e - 1) as nat)
    }
}

/// 256^w, the number of values a `w`-byte integer can take.
pub open spec fn pow256(w: nat) -> nat
    decreases w,
{
    if w == 0 {
        1
    } else {
        256 * pow256((w - 1) as nat)
    }
}

pub open spec fn is_hex_digit(c: char) -> bool {
    ('0' <= c && c <= '9') || ('a' <= c && c <= 'f') || ('A' <= c && c <= 'F')
}

pub open spec fn hex_digit_value(c: char) -> nat {
    if '0' <= c && c <= '9' {
        (c as int - '0' as int) as nat
    } else if 'a' <= c && c <= 'f' {
        (c as int - 'a' as int + 10) as nat
    } else if 'A' <= c && c <= 'F' {
        (c as int - 'A' as int + 10) as nat
    } else {
        0
    }
}

/// The lowercase hex digit for a value below 16.
pub open spec fn hex_char_of(n: nat) -> char {
    if n == 0 { '0' }
    else if n == 1 { '1' }
    else if n == 2 { '2' }
    else if n == 3 { '3' }
    else if n == 4 { '4' }
    else if n == 5 { '5' }
    else if n == 6 { '6' }
    else if n == 7 { '7' }
    else if n == 8 { '8' }
    else if n == 9 { '9' }
    else if n == 10 { 'a' }
    else if n == 11 { 'b' }
    else if n == 12 { 'c' }
    else if n == 13 { 'd' }
    else if n == 14 { 'e' }
    else { 'f' }
}

/// Parse one hex digit.
pub fn hex_digit(c: char) -> (r: Option<u8>)
    ensures
        r is Some <==> is_hex_digit(c),
        r is Some ==> r->0 == hex_digit_value(c) && r->0 < 16,
{
    if '0' <= c && c <= '9' {
        Some((c as u8) - ('0' as u8))
    } else if 'a' <= c && c <= 'f' {
        Some((c as u8) - ('a' as u8) + 10)
    } else if 'A' <= c && c <= 'F' {
        Some((c as u8) - ('A' as u8) + 10)
    } else {
        None
    }
}

/// Every character of `s` is a hex digit.
pub open spec fn is_hex_seq(s: Seq<char>) -> bool {
    forall|i: int| 0 <= i < s.len() ==> is_hex_digit(#[trigger] s[i])
}

/// The accepted hex lengths: one to four bytes, two digits each.
pub open spec fn valid_hex_len(n: nat) -> bool {
    n == 2 || n == 4 || n == 6 || n == 8
}

pub open spec fn valid_hex_int(s: Seq<char>) -> bool {
    valid_hex_len(s.len()) && is_hex_seq(s)
}

/// The byte written at digit positions `2i` and `2i+1`.
pub open spec fn hex_byte_at(s: Seq<char>, i: int) -> nat {
    hex_digit_value(s[2 * i]) * 16 + hex_digit_value(s[2 * i + 1])
}

/// The unsigned integer held by a hex string read as little-endian bytes:
/// the first byte is the least significant.
pub open spec fn hex_le_unsigned(s: Seq<char>) -> nat
    decreases s.len(),
{
    if s.len() < 2 {
        0
    } else {
        hex_byte_at(s, 0) + 256 * hex_le_unsigned(s.skip(2))
    }
}

/// Two's-complement reading of a `w`-byte unsigned value: one and two byte
/// values are sign-extended from their own width, three and four byte values
/// are read as 32-bit words (so a three-byte value is never negative).
pub open spec fn signed_of_width(u: nat, w: nat) -> int {
    if w <= 2 {
        if 2 * u < pow256(w) {
            u as int
        } else {
            u - pow256(w)
        }
    } else {
        if u < 0x8000_0000 {
            u as int
        } else {
            u - 0x1_0000_0000
        }
    }
}

/// The signed integer a valid hex string decodes to.
pub open spec fn spec_decode_int(s: Seq<char>) -> int {
    signed_of_width(hex_le_unsigned(s), s.len() / 2)
}

pub proof fn lemma_hex_le_unsigned_bound(s: Seq<char>)
    requires
        s.len() % 2 == 0,
    ensures
        hex_le_unsigned(s) < pow256(s.len() / 2),
    decreases s.len(),
{
    if s.len() < 2 {
    } else {
        lemma_hex_le_unsigned_bound(s.skip(2));
        assert(hex_digit_value(s[0]) < 16);
        assert(hex_digit_value(s[1]) < 16);
        assert(hex_byte_at(s, 0) < 256);
        assert(pow256(s.len() / 2) == 256 * pow256(s.skip(2).len() / 2));
    }
}

/// Decode a hex string as a little-endian signed integer of one to four
/// bytes. A string of any other length, or holding a character that is no
/// hex digit, is rejected.
#[verifier::rlimit(30)]
pub fn decode_int(hex: &str) -> (r: Result<i32, ValueError>)
    ensures
        r is Ok <==> valid_hex_int(hex@),
        r matches Ok(v) ==> v == spec_decode_int(hex@),
        r matches Err(e) ==> e == ValueError::MalformedHex,
{
    let n = hex.unicode_len();
    if !(n == 2 || n == 4 || n == 6 || n == 8) {
        return Err(ValueError::MalformedHex);
    }
    let w = n / 2;
    let mut u: u64 = 0;
    let mut i: usize = w;
    proof {
        assert(hex@.skip(2 * w) =~= Seq::<char>::empty());
        reveal_with_fuel(pow256, 5);
    }
    while i > 0
        invariant
            i <= w,
            2 * w == n,
            n == hex@.len(),
            n == 2 || n == 4 || n == 6 || n == 8,
            u == hex_le_unsigned(hex@.skip(2 * i as int)),
            u < pow256((w - i) as nat),
            pow256(4) == 0x1_0000_0000,
            forall|j: int| 2 * i <= j < n ==> is_hex_digit(#[trigger] hex@[j]),
        decreases i,
    {
        let c1 = hex.get_char(2 * i - 2);
        let c2 = hex.get_char(2 * i - 1);
        let d1 = match hex_digit(c1) {
            Some(d) => d,
            None => {
                return Err(ValueError::MalformedHex);
            },
        };
        let d2 = match hex_digit(c2) {
            Some(d) => d,
            None => {
                return Err(ValueError::MalformedHex);
            },
        };
        let b: u16 = (d1 as u16) * 16 + (d2 as u16);
        proof {
            let wi = (w - i) as nat;
            reveal_with_fuel(pow256, 5);
            assert(pow256(wi) <= 0x100_0000) by {
                if wi == 0 {
                } else if wi == 1 {
                } else if wi == 2 {
                } else {
                    assert(wi == 3);
                }
            };
            assert(u <= 0xFF_FFFF);
            assert(pow256(wi + 1) == 256 * pow256(wi));
            assert(u * 256 + b < pow256(wi + 1));
            let s = hex@;
            let t = s.skip(2 * i as int - 2);
            assert(t.skip(2) =~= s.skip(2 * i as int));
            assert(t[0] == s[2 * i as int - 2]);
            assert(t[1] == s[2 * i as int - 1]);
            assert(hex_byte_at(t, 0) == b);
            assert(hex_le_unsigned(t) == b + 256 * u);
        }
        u = u * 256 + b as u64;
        i = i - 1;
    }
    proof {
        assert(hex@.skip(0) =~= hex@);
        assert(u < pow256(w as nat));
    }
    let k: i64 = if w <= 2 {
        let half: u64 = if w == 1 { 128 } else { 32768 };
        if u < half {
            u as i64
        } else {
            u as i64 - if w == 1 { 256 } else { 65536 }
        }
    } else {
        if u < 0x8000_0000 {
            u as i64
        } else {
            u as i64 - 0x1_0000_0000
        }
    };
    Ok(k as i32)
}

/// An exact decimal number `mant * 10^exp`, with `exp` between -8 and 7:
/// the range a step byte's signed exponent nibble can hold.
///
/// Physical values (temperatures, percentages) decoded from the wire are
/// exact multiples of a decimal step, so this representation loses nothing.
#[derive(Clone, Copy, Debug, PartialEq, Eq, Structural)]
pub struct Decimal {
    pub mant: i64,
    pub exp: i8,
}

impl Decimal {
    pub open spec fn wf(self) -> bool {
        -8 <= self.exp <= 7
    }

    /// The number itself, scaled by 10^8 so that it is an integer.
    pub open spec fn value_e8(self) -> int {
        self.mant * pow10((self.exp + 8) as nat)
    }

    pub fn new(mant: i64, exp: i8) -> (r: Decimal)
        requires
            -8 <= exp <= 7,
        ensures
            r == (Decimal { mant, exp }),
            r.wf(),
    {
        Decimal { mant, exp }
    }

    pub fn from_int(v: i32) -> (r: Decimal)
        ensures
            r.wf(),
            r.value_e8() == v * pow10(8),
    {
        Decimal { mant: v as i64, exp: 0 }
    }

    /// The value as an `i128` in units of 10^-8.
    pub fn to_e8(self) -> (r: i128)
        requires
            self.wf(),
        ensures
            r == self.value_e8(),
            -10_000_000_000_000_000_000_000_000_000_000_000 <= r
                <= 10_000_000_000_000_000_000_000_000_000_000_000,
    {
        let p = pow10_u64((self.exp + 8) as u32);
        proof {
            lemma_pow10_le_15(((self.exp + 8)) as nat);
            assert((self.mant as i128) * (p as i128) == self.value_e8()) by (nonlinear_arith)
                requires
                    p == pow10((self.exp + 8) as nat),
                    self.value_e8() == self.mant * pow10((self.exp + 8) as nat),
            ;
            assert(-10_000_000_000_000_000_000_000_000_000_000_000 <= (self.mant as i128) * (
            p as i128) <= 10_000_000_000_000_000_000_000_000_000_000_000) by (nonlinear_arith)
                requires
                    -0x8000_0000_0000_0000 <= self.mant <= 0x7FFF_FFFF_FFFF_FFFF,
                    0 < p <= 1_000_000_000_000_000,
            ;
        }
        (self.mant as i128) * (p as i128)
    }

    /// Numeric equality: two representations of one number are equal even
    /// when mantissa and exponent differ.
    pub fn value_eq(self, other: Decimal) -> (r: bool)
        requires
            self.wf(),
            other.wf(),
        ensures
            r == (self.value_e8() == other.value_e8()),
    {
        self.to_e8() == other.to_e8()
    }

    pub fn value_le(self, other: Decimal) -> (r: bool)
        requires
            self.wf(),
            other.wf(),
        ensures
            r == (self.value_e8() <= other.value_e8()),
    {
        self.to_e8() <= other.to_e8()
    }
}

/// pow10(e) for e up to 15 never exceeds 10^15.
pub proof fn lemma_pow10_le_15(e: nat)
    requires
        e <= 15,
    ensures
        0 < pow10(e) <= 1_000_000_000_000_000,
{
    reveal_with_fuel(pow10, 17);
    if e == 0 {
    } else if e == 1 {
    } else if e == 2 {
    } else if e == 3 {
    } else if e == 4 {
    } else if e == 5 {
    } else if e == 6 {
    } else if e == 7 {
    } else if e == 8 {
    } else if e == 9 {
    } else if e == 10 {
    } else if e == 11 {
    } else if e == 12 {
    } else if e == 13 {
    } else if e == 14 {
    } else {
        assert(e == 15);
    }
}

/// 10^e as a `u64`, for exponents up to 15.
pub fn pow10_u64(e: u32) -> (r: u64)
    requires
        e <= 15,
    ensures
        r == pow10(e as nat),
{
    proof {
        reveal_with_fuel(pow10, 17);
    }
    if e == 0 { 1 }
    else if e == 1 { 10 }
    else if e == 2 { 100 }
    else if e == 3 { 1_000 }
    else if e == 4 { 10_000 }
    else if e == 5 { 100_000 }
    else if e == 6 { 1_000_000 }
    else if e == 7 { 10_000_000 }
    else if e == 8 { 100_000_000 }
    else if e == 9 { 1_000_000_000 }
    else if e == 10 { 10_000_000_000 }
    else if e == 11 { 100_000_000_000 }
    else if e == 12 { 1_000_000_000_000 }
    else if e == 13 { 10_000_000_000_000 }
    else if e == 14 { 100_000_000_000_000 }
    else { 1_000_000_000_000_000 }
}

/// The base digit of a step byte: its low nibble.
pub open spec fn spec_step_base(st: u8) -> nat {
    (st % 16) as nat
}

/// The exponent of a step byte: its high nibble, read as a signed four-bit
/// two's-complement value, so nibbles 8 to 15 mean -8 to -1.
pub open spec fn spec_step_exp(st: u8) -> int {
    if st / 16 < 8 {
        (st / 16) as int
    } else {
        st / 16 - 16
    }
}

/// The scaling coefficient of a step byte: `base * 10^exp`. It is zero
/// exactly when the base digit is zero.
pub fn decode_step(st: u8) -> (r: Decimal)
    ensures
        r.wf(),
        r.mant == spec_step_base(st),
        r.exp == spec_step_exp(st),
{
    let base = st % 16;
    let nib = st / 16;
    let exp: i8 = if nib < 8 {
        nib as i8
    } else {
        (nib as i8) - 16
    };
    Decimal { mant: base as i64, exp }
}

/// The coefficient in units of 10^-8 that value scaling actually uses: a
/// zero base digit means the leaf is unscaled, so the effective coefficient
/// is one.
pub open spec fn spec_effective_coeff_e8(st: u8) -> int {
    if spec_step_base(st) == 0 {
        pow10(8) as int
    } else {
        spec_step_base(st) * pow10((spec_step_exp(st) + 8) as nat) as int
    }
}

/// The effective scaling coefficient of a step byte: the decoded
/// coefficient, or one when the base digit is zero.
pub fn effective_step(st: u8) -> (r: Decimal)
    ensures
        r.wf(),
        r.value_e8() == spec_effective_coeff_e8(st),
        r.value_e8() > 0,
        0 < r.mant <= 15,
{
    let d = decode_step(st);
    if st % 16 == 0 {
        proof {
            lemma_pow10_le_15(8);
        }
        Decimal { mant: 1, exp: 0 }
    } else {
        proof {
            lemma_pow10_le_15((d.exp + 8) as nat);
            assert(d.value_e8() > 0) by (nonlinear_arith)
                requires
                    d.value_e8() == d.mant * pow10((d.exp + 8) as nat),
                    d.mant > 0,
                    pow10((d.exp + 8) as nat) > 0,
            ;
        }
        d
    }
}

/// Relies on `String::push`: appends exactly the given character.
#[verifier::external_body]
pub(crate) fn push_char(s: &mut String, c: char)
    ensures
        final(s)@ == old(s)@.push(c),
{
    s.push(c);
}

/// The lowercase hex digit character for a value below 16.
pub fn hex_char(n: u8) -> (c: char)
    requires
        n < 16,
    ensures
        c == hex_char_of(n as nat),
        is_hex_digit(c),
        hex_digit_value(c) == n,
{
    if n == 0 { '0' }
    else if n == 1 { '1' }
    else if n == 2 { '2' }
    else if n == 3 { '3' }
    else if n == 4 { '4' }
    else if n == 5 { '5' }
    else if n == 6 { '6' }
    else if n == 7 { '7' }
    else if n == 8 { '8' }
    else if n == 9 { '9' }
    else if n == 10 { 'a' }
    else if n == 11 { 'b' }
    else if n == 12 { 'c' }
    else if n == 13 { 'd' }
    else if n == 14 { 'e' }
    else { 'f' }
}

/// The hex rendering of the `w` low bytes of `u`, least significant byte
/// first, two lowercase digits per byte.
pub open spec fn encode_unsigned(u: nat, w: nat) -> Seq<char>
    decreases w,
{
    if w == 0 {
        Seq::empty()
    } else {
        seq![
            hex_char_of((u % 256) / 16),
            hex_char_of((u % 256) % 16),
        ] + encode_unsigned(u / 256, (w - 1) as nat)
    }
}

/// The hex rendering of a signed integer `k` into exactly `w` bytes: its
/// value modulo 256^w, little-endian, lowercase.
pub open spec fn spec_encode_hex(k: int, w: nat) -> Seq<char> {
    encode_unsigned((k % (pow256(w) as int)) as nat, w)
}

pub proof fn lemma_encode_unsigned_len(u: nat, w: nat)
    ensures
        encode_unsigned(u, w).len() == 2 * w,
        is_hex_seq(encode_unsigned(u, w)),
    decreases w,
{
    if w > 0 {
        lemma_encode_unsigned_len(u / 256, (w - 1) as nat)
    }
}

/// Decoding inverts encoding on the unsigned level.
pub proof fn lemma_hle_encode_unsigned(u: nat, w: nat)
    requires
        u < pow256(w),
    ensures
        hex_le_unsigned(encode_unsigned(u, w)) == u,
    decreases w,
{
    if w == 0 {
    } else {
        let s = encode_unsigned(u, w);
        let b = u % 256;
        vstd::arithmetic::div_mod::lemma_fundamental_div_mod(u as int, 256);
        assert(u / 256 < pow256((w - 1) as nat)) by (nonlinear_arith)
            requires
                u < pow256(w),
                pow256(w) == 256 * pow256((w - 1) as nat),
                u / 256 == (u - u % 256) / 256,
                0 <= u % 256 < 256,
                u == 256 * (u as int / 256) + u % 256,
        ;
        lemma_hle_encode_unsigned(u / 256, (w - 1) as nat);
        assert(s.skip(2) =~= encode_unsigned(u / 256, (w - 1) as nat));
        assert(hex_digit_value(s[0]) == b / 16);
        assert(hex_digit_value(s[1]) == b % 16);
        assert(hex_byte_at(s, 0) == (b / 16) * 16 + b % 16);
        vstd::arithmetic::div_mod::lemma_fundamental_div_mod(b as int, 16);
        assert(hex_byte_at(s, 0) == b);
    }
}

/// `k` reduced modulo 256^w, as Euclidean remainder.
pub fn euclid_mod_pow256(k: i64, w: usize) -> (u: u64)
    requires
        1 <= w <= 4,
    ensures
        u == (k as int) % (pow256(w as nat) as int),
        u < pow256(w as nat),
{
    proof {
        reveal_with_fuel(pow256, 5);
    }
    let tw: u64 = if w == 1 { 256 } else if w == 2 { 65536 } else if w == 3 { 16777216 } else { 0x1_0000_0000 };
    if k >= 0 {
        let u = (k as u64) % tw;
        u
    } else {
        let a: u128 = (-(k as i128)) as u128;
        let r = (a % (tw as u128)) as u64;
        proof {
            let ai = a as int;
            let twi = tw as int;
            vstd::arithmetic::div_mod::lemma_fundamental_div_mod(ai, twi);
            if r == 0 {
                vstd::arithmetic::div_mod::lemma_fundamental_div_mod_converse(
                    k as int, twi, -(ai / twi), 0);
            } else {
                vstd::arithmetic::div_mod::lemma_fundamental_div_mod_converse(
                    k as int, twi, -(ai / twi) - 1, twi - r);
            }
        }
        if r == 0 {
            0
        } else {
            tw - r
        }
    }
}

/// Render the `w` low bytes of `k` as little-endian lowercase hex: the wire
/// form of a scaled integer.
pub fn encode_hex(k: i64, w: usize) -> (s: String)
    requires
        1 <= w <= 4,
    ensures
        s@ == spec_encode_hex(k as int, w as nat),
        s@.len() == 2 * w,
        is_hex_seq(s@),
        valid_hex_int(s@),
{
    let u0 = euclid_mod_pow256(k, w);
    let mut s = String::new();
    let mut u = u0;
    let mut i: usize = 0;
    while i < w
        invariant
            i <= w,
            1 <= w <= 4,
            u0 < pow256(w as nat),
            s@ + encode_unsigned(u as nat, (w - i) as nat) == encode_unsigned(
                u0 as nat, w as nat),
            s@.len() == 2 * i,
            u < pow256((w - i) as nat),
        decreases w - i,
    {
        let b = (u % 256) as u8;
        let c1 = hex_char(b / 16);
        let c2 = hex_char(b % 16);
        proof {
            let rest = encode_unsigned(u as nat, (w - i) as nat);
            assert(rest == seq![c1, c2] + encode_unsigned(u as nat / 256, (w - i - 1) as nat));
            assert(s@.push(c1).push(c2) + encode_unsigned(u as nat / 256, (w - i - 1) as nat)
                =~= s@ + rest);
            vstd::arithmetic::div_mod::lemma_fundamental_div_mod(u as int, 256);
            assert(pow256((w - i) as nat) == 256 * pow256((w - i - 1) as nat));
            assert(u / 256 < pow256((w - i - 1) as nat)) by (nonlinear_arith)
                requires
                    u < pow256((w - i) as nat),
                    pow256((w - i) as nat) == 256 * pow256((w - i - 1) as nat),
                    0 <= u % 256 < 256,
                    u == 256 * (u as int / 256) + u % 256,
            ;
        }
        push_char(&mut s, c1);
        push_char(&mut s, c2);
        u = u / 256;
        i = i + 1;
    }
    proof {
        assert(encode_unsigned(u as nat, 0) =~= Seq::<char>::empty());
        assert(s@ =~= s@ + encode_unsigned(u as nat, 0));
        lemma_encode_unsigned_len((k as int % (pow256(w as nat) as int)) as nat, w as nat);
    }
    s
}

/// The values that survive a round trip through a `w`-byte wire field:
/// one- and two-byte fields hold their own signed range, three-byte fields
/// are read back unsigned, four-byte fields hold the 32-bit signed range.
pub open spec fn fits_width(k: int, w: nat) -> bool {
    if w <= 2 {
        -(pow256(w) as int) <= 2 * k < pow256(w)
    } else if w == 3 {
        0 <= k < pow256(3)
    } else {
        -0x8000_0000 <= k < 0x8000_0000
    }
}

/// Law: decoding inverts encoding. A signed integer that fits a `w`-byte
/// field is returned unchanged by `decode` after `encode`.
pub proof fn lemma_encode_decode(k: int, w: nat)
    requires
        1 <= w <= 4,
        fits_width(k, w),
    ensures
        valid_hex_int(spec_encode_hex(k, w)),
        spec_encode_hex(k, w).len() == 2 * w,
        spec_decode_int(spec_encode_hex(k, w)) == k,
{
    reveal_with_fuel(pow256, 5);
    let tw = pow256(w) as int;
    let u = k % tw;
    lemma_encode_unsigned_len(u as nat, w);
    if k >= 0 {
        vstd::arithmetic::div_mod::lemma_small_mod(k as nat, tw as nat);
        assert(u == k);
    } else {
        vstd::arithmetic::div_mod::lemma_fundamental_div_mod_converse(k, tw, -1, k + tw);
        assert(u == k + tw);
    }
    lemma_hle_encode_unsigned(u as nat, w);
    assert(spec_encode_hex(k, w).len() / 2 == w);
}

/// A hex string of whole bytes: even length, hex digits throughout. Unlike
/// an integer field, such a string may have any number of bytes.
pub open spec fn is_hex_pairs(s: Seq<char>) -> bool {
    s.len() % 2 == 0 && is_hex_seq(s)
}

/// The bytes a hex string of whole bytes holds, in order.
pub open spec fn hex_bytes(s: Seq<char>) -> Seq<u8> {
    Seq::new(s.len() / 2, |i: int| hex_byte_at(s, i) as u8)
}

/// Decode a hex string into its bytes. A string of odd length, or holding
/// a character that is no hex digit, is rejected.
pub fn hex_to_bytes(s: &str) -> (r: Option<Vec<u8>>)
    ensures
        r is Some <==> is_hex_pairs(s@),
        r matches Some(v) ==> v@ == hex_bytes(s@),
{
    let n = s.unicode_len();
    if n % 2 != 0 {
        return None;
    }
    let mut out: Vec<u8> = Vec::new();
    let mut i: usize = 0;
    while i < n / 2
        invariant
            i <= n / 2,
            n % 2 == 0,
            n == s@.len(),
            out@.len() == i,
            forall|j: int| 0 <= j < i ==> #[trigger] out@[j] == hex_byte_at(s@, j) as u8,
            forall|j: int| 0 <= j < 2 * i ==> is_hex_digit(#[trigger] s@[j]),
        decreases n / 2 - i,
    {
        let c1 = s.get_char(2 * i);
        let c2 = s.get_char(2 * i + 1);
        let d1 = match hex_digit(c1) {
            Some(d) => d,
            None => {
                return None;
            },
        };
        let d2 = match hex_digit(c2) {
            Some(d) => d,
            None => {
                return None;
            },
        };
        out.push(d1 * 16 + d2);
        i = i + 1;
    }
    proof {
        assert(out@ =~= hex_bytes(s@));
    }
    Some(out)
}

/// Clamp to the `i64` range, as a saturating cast does.
pub open spec fn sat_i64(x: int) -> int {
    if x > 0x7FFF_FFFF_FFFF_FFFF {
        0x7FFF_FFFF_FFFF_FFFF
    } else if x < -0x8000_0000_0000_0000 {
        -0x8000_0000_0000_0000
    } else {
        x
    }
}

/// Clamp to the `i32` range, as a saturating cast does.
pub open spec fn sat_i32(x: int) -> int {
    if x > 0x7FFF_FFFF {
        0x7FFF_FFFF
    } else if x < -0x8000_0000 {
        -0x8000_0000
    } else {
        x
    }
}

/// Truncating division: the quotient rounded toward zero, as a float cast
/// or hardware division would produce it.
pub open spec fn div_toward_zero(a: int, b: int) -> int {
    if a >= 0 {
        a / b
    } else {
        -((-a) / b)
    }
}

/// Divide, rounding toward zero.
pub fn div_tz_i128(a: i128, b: i128) -> (r: i128)
    requires
        b > 0,
        -10_000_000_000_000_000_000_000_000_000_000_000 <= a
            <= 10_000_000_000_000_000_000_000_000_000_000_000,
    ensures
        r == div_toward_zero(a as int, b as int),
        -10_000_000_000_000_000_000_000_000_000_000_000 <= r
            <= 10_000_000_000_000_000_000_000_000_000_000_000,
    {
    if a >= 0 {
        let q = (a as u128) / (b as u128);
        proof {
            vstd::arithmetic::div_mod::lemma_div_pos_is_pos(a as int, b as int);
            vstd::arithmetic::div_mod::lemma_div_nonincreasing(a as int, b as int);
        }
        q as i128
    } else {
        let n = (-a) as u128;
        let q = n / (b as u128);
        proof {
            vstd::arithmetic::div_mod::lemma_div_pos_is_pos(n as int, b as int);
            vstd::arithmetic::div_mod::lemma_div_nonincreasing(n as int, b as int);
        }
        -(q as i128)
    }
}

/// Law: truncating division is exact on exact multiples.
pub proof fn lemma_div_toward_zero_exact(k: int, b: int)
    requires
        b > 0,
    ensures
        div_toward_zero(k * b, b) == k,
{
    if k >= 0 {
        vstd::arithmetic::div_mod::lemma_fundamental_div_mod_converse(k * b, b, k, 0);
    } else {
        assert(-(k * b) == (-k) * b) by (nonlinear_arith);
        vstd::arithmetic::div_mod::lemma_fundamental_div_mod_converse((-k) * b, b, -k, 0);
    }
}

} // verus!
