//! Low-level textual encodings of the file format: decimal numerals,
//! zero-padded numerals, fixed-precision reals, and the two string-escaping
//! variants.

use vstd::prelude::*;

verus! {

/// ASCII `0`.
pub const D0: u8 = 48;

/// ASCII `-`.
pub const MINUS: u8 = 45;

/// ASCII `.`.
pub const DOT: u8 = 46;

/// The decimal numeral of a non-negative integer, most significant digit first.
pub open spec fn dec_digits(n: int) -> Seq<u8>
    recommends
        n >= 0,
    decreases n,
{
    if n < 10 {
        seq![(48 + n) as u8]
    } else {
        dec_digits(n / 10).push((48 + n % 10) as u8)
    }
}

/// The decimal numeral of a signed integer: a minus sign for negative values,
/// then the numeral of the magnitude.
pub open spec fn dec_signed(n: int) -> Seq<u8> {
    if n < 0 {
        seq![MINUS] + dec_digits(-n)
    } else {
        dec_digits(n)
    }
}

/// A run of ASCII zero digits.
pub open spec fn zero_digits(k: int) -> Seq<u8> {
    Seq::new(if k < 0 { 0 } else { k as nat }, |i: int| D0)
}

/// The decimal numeral of `n`, left-padded with zeros to at least `w` digits.
pub open spec fn dec_padded(n: int, w: int) -> Seq<u8> {
    zero_digits(w - dec_digits(n).len()) + dec_digits(n)
}

/// Appends the decimal numeral of `n` to `out`.
pub fn push_dec_u64(out: &mut Vec<u8>, n: u64)
    ensures
        final(out)@ == old(out)@ + dec_digits(n as int),
    decreases n,
{
    if n < 10 {
        out.push(48 + n as u8);
        assert(out@ =~= old(out)@ + dec_digits(n as int));
    } else {
        push_dec_u64(out, n / 10);
        out.push(48 + (n % 10) as u8);
        assert(out@ =~= old(out)@ + dec_digits(n as int));
    }
}

/// Appends the decimal numeral of a signed integer to `out`.
pub fn push_dec_i64(out: &mut Vec<u8>, n: i64)
    ensures
        final(out)@ == old(out)@ + dec_signed(n as int),
{
    if n < 0 {
        out.push(MINUS);
        let m: u64 = if n == i64::MIN {
            9223372036854775808u64
        } else {
            (-n) as u64
        };
        assert(m as int == -(n as int));
        push_dec_u64(out, m);
        assert(out@ =~= old(out)@ + dec_signed(n as int));
    } else {
        push_dec_u64(out, n as u64);
    }
}

/// Appends the decimal numeral of `n`, zero-padded to at least `w` digits.
pub fn push_dec_padded(out: &mut Vec<u8>, n: u64, w: usize)
    ensures
        final(out)@ == old(out)@ + dec_padded(n as int, w as int),
{
    let mut digits: Vec<u8> = Vec::new();
    push_dec_u64(&mut digits, n);
    let mut k: usize = digits.len();
    assert(out@ =~= old(out)@ + zero_digits(k - digits@.len()));
    while k < w
        invariant
            out@ == old(out)@ + zero_digits(k - digits@.len()),
            digits@ == dec_digits(n as int),
            digits@.len() <= k,
            k <= w || k == digits@.len(),
        decreases w - k,
    {
        out.push(D0);
        k = k + 1;
        assert(out@ =~= old(out)@ + zero_digits(k - digits@.len()));
    }
    out.append(&mut digits);
    assert(out@ =~= old(out)@ + dec_padded(n as int, w as int));
}

/// The textual form of a fixed-precision real held as a count of hundredths:
/// an optional minus sign, the integer part, a dot, and exactly two decimal
/// digits.
pub open spec fn real_digits(h: int) -> Seq<u8> {
    let a = if h < 0 { -h } else { h };
    (if h < 0 {
        seq![MINUS]
    } else {
        Seq::<u8>::empty()
    }) + dec_digits(a / 100) + seq![DOT] + dec_padded(a % 100, 2)
}

/// Appends the two-decimal-place textual form of `h` hundredths to `out`.
pub fn push_real(out: &mut Vec<u8>, h: i64)
    ensures
        final(out)@ == old(out)@ + real_digits(h as int),
{
    let m: u64 = if h < 0 {
        out.push(MINUS);
        if h == i64::MIN {
            9223372036854775808u64
        } else {
            (-h) as u64
        }
    } else {
        h as u64
    };
    assert(m as int == if h < 0 { -(h as int) } else { h as int });
    push_dec_u64(out, m / 100);
    out.push(DOT);
    push_dec_padded(out, m % 100, 2);
    assert(out@ =~= old(out)@ + real_digits(h as int));
}

/// Every byte of a decimal numeral is an ASCII digit.
pub proof fn lemma_dec_digits_ascii(n: int)
    requires
        n >= 0,
    ensures
        forall|i: int|
            0 <= i < dec_digits(n).len() ==> 48 <= #[trigger] dec_digits(n)[i] <= 57,
    decreases n,
{
    if n >= 10 {
        lemma_dec_digits_ascii(n / 10);
        assert(forall|i: int|
            0 <= i < dec_digits(n).len() ==> 48 <= #[trigger] dec_digits(n)[i] <= 57) by {
            assert(dec_digits(n) == dec_digits(n / 10).push((48 + n % 10) as u8));
        }
    }
}

/// The characters corresponding to a run of ASCII bytes.
pub open spec fn ascii_chars(bs: Seq<u8>) -> Seq<char> {
    Seq::new(bs.len(), |i: int| bs[i] as char)
}

/// Relies on `String::from_utf8`: bytes below 128 are valid UTF-8, and the
/// resulting string holds exactly those bytes as characters.
#[verifier::external_body]
pub fn ascii_string(bytes: Vec<u8>) -> (r: String)
    requires
        forall|i: int| 0 <= i < bytes@.len() ==> #[trigger] bytes@[i] < 128,
    ensures
        r@.len() == bytes@.len(),
        forall|i: int| 0 <= i < r@.len() ==> #[trigger] r@[i] == bytes@[i] as char,
{
    String::from_utf8(bytes).unwrap()
}

/// ASCII `\`.
pub const BACKSLASH: u8 = 92;

/// ASCII `(`.
pub const LPAREN: u8 = 40;

/// ASCII `)`.
pub const RPAREN: u8 = 41;

/// A byte in the graphic ASCII range (`!` through `~`).
pub open spec fn is_graphic(b: u8) -> bool {
    33 <= b <= 126
}

/// The three-digit octal numeral of a byte.
pub open spec fn oct3(b: int) -> Seq<u8> {
    seq![(48 + b / 64) as u8, (48 + (b / 8) % 8) as u8, (48 + b % 8) as u8]
}

/// The basic escaping of one string-literal byte: backslash and the two
/// parentheses gain a backslash; everything else passes through.
pub open spec fn esc_simple_byte(b: u8) -> Seq<u8> {
    if b == BACKSLASH || b == LPAREN || b == RPAREN {
        seq![BACKSLASH, b]
    } else {
        seq![b]
    }
}

/// The fuller escaping of one string-literal byte: the short escapes for
/// form feed, backspace, tab, carriage return and line feed; backslash and
/// the parentheses gain a backslash; any other non-graphic byte becomes a
/// three-digit octal escape introduced by `\d`; all else passes through.
pub open spec fn esc_full_byte(b: u8) -> Seq<u8> {
    if b == 12 {
        seq![BACKSLASH, 102]
    } else if b == 8 {
        seq![BACKSLASH, 98]
    } else if b == 9 {
        seq![BACKSLASH, 116]
    } else if b == 13 {
        seq![BACKSLASH, 114]
    } else if b == 10 {
        seq![BACKSLASH, 110]
    } else if b == BACKSLASH || b == LPAREN || b == RPAREN {
        seq![BACKSLASH, b]
    } else if !is_graphic(b) {
        seq![BACKSLASH, 100] + oct3(b as int)
    } else {
        seq![b]
    }
}

/// The basic escaping applied to a whole byte string.
pub open spec fn esc_simple(s: Seq<u8>) -> Seq<u8>
    decreases s.len(),
{
    if s.len() == 0 {
        Seq::empty()
    } else {
        esc_simple_byte(s[0]) + esc_simple(s.drop_first())
    }
}

/// The fuller escaping applied to a whole byte string.
pub open spec fn esc_full(s: Seq<u8>) -> Seq<u8>
    decreases s.len(),
{
    if s.len() == 0 {
        Seq::empty()
    } else {
        esc_full_byte(s[0]) + esc_full(s.drop_first())
    }
}

/// Escaping a string extended by one byte appends that byte's escape.
pub proof fn lemma_esc_simple_snoc(s: Seq<u8>, b: u8)
    ensures
        esc_simple(s.push(b)) == esc_simple(s) + esc_simple_byte(b),
    decreases s.len(),
{
    if s.len() == 0 {
        assert(s.push(b).drop_first() =~= s);
        assert(esc_simple(s.push(b)) =~= esc_simple(s) + esc_simple_byte(b));
    } else {
        assert(s.push(b).drop_first() =~= s.drop_first().push(b));
        lemma_esc_simple_snoc(s.drop_first(), b);
        assert(esc_simple(s.push(b)) =~= esc_simple(s) + esc_simple_byte(b));
    }
}

/// Escaping a string extended by one byte appends that byte's escape.
pub proof fn lemma_esc_full_snoc(s: Seq<u8>, b: u8)
    ensures
        esc_full(s.push(b)) == esc_full(s) + esc_full_byte(b),
    decreases s.len(),
{
    if s.len() == 0 {
        assert(s.push(b).drop_first() =~= s);
        assert(esc_full(s.push(b)) =~= esc_full(s) + esc_full_byte(b));
    } else {
        assert(s.push(b).drop_first() =~= s.drop_first().push(b));
        lemma_esc_full_snoc(s.drop_first(), b);
        assert(esc_full(s.push(b)) =~= esc_full(s) + esc_full_byte(b));
    }
}

/// A graphic ASCII byte other than a backslash or a parenthesis passes
/// through both escaping variants untouched.
pub proof fn lemma_graphic_bytes_unescaped(b: u8)
    requires
        is_graphic(b),
        b != LPAREN,
        b != RPAREN,
        b != BACKSLASH,
    ensures
        esc_simple_byte(b) == seq![b],
        esc_full_byte(b) == seq![b],
{
}

/// The two parentheses always escape, under both variants.
pub proof fn lemma_parens_always_escaped(b: u8)
    requires
        b == LPAREN || b == RPAREN,
    ensures
        esc_simple_byte(b) == seq![BACKSLASH, b],
        esc_full_byte(b) == seq![BACKSLASH, b],
{
}

/// Appends one byte escaped by the basic variant.
fn push_esc_simple_byte(out: &mut Vec<u8>, b: u8)
    ensures
        final(out)@ == old(out)@ + esc_simple_byte(b),
{
    if b == BACKSLASH || b == LPAREN || b == RPAREN {
        out.push(BACKSLASH);
    }
    out.push(b);
    assert(out@ =~= old(out)@ + esc_simple_byte(b));
}

/// Appends one byte escaped by the fuller variant.
pub fn push_esc_full_byte(out: &mut Vec<u8>, b: u8)
    ensures
        final(out)@ == old(out)@ + esc_full_byte(b),
{
    if b == 12 {
        out.push(BACKSLASH);
        out.push(102);
    } else if b == 8 {
        out.push(BACKSLASH);
        out.push(98);
    } else if b == 9 {
        out.push(BACKSLASH);
        out.push(116);
    } else if b == 13 {
        out.push(BACKSLASH);
        out.push(114);
    } else if b == 10 {
        out.push(BACKSLASH);
        out.push(110);
    } else if b == BACKSLASH || b == LPAREN || b == RPAREN {
        out.push(BACKSLASH);
        out.push(b);
    } else if !(33 <= b && b <= 126) {
        out.push(BACKSLASH);
        out.push(100);
        out.push(48 + b / 64);
        out.push(48 + (b / 8) % 8);
        out.push(48 + b % 8);
    } else {
        out.push(b);
    }
    assert(out@ =~= old(out)@ + esc_full_byte(b));
}

/// Appends `s` escaped by the basic variant.
pub fn push_esc_simple(out: &mut Vec<u8>, s: &[u8])
    ensures
        final(out)@ == old(out)@ + esc_simple(s@),
{
    let mut i: usize = 0;
    assert(out@ =~= old(out)@ + esc_simple(s@.take(0)));
    while i < s.len()
        invariant
            out@ == old(out)@ + esc_simple(s@.take(i as int)),
            i <= s@.len(),
        decreases s@.len() - i,
    {
        push_esc_simple_byte(out, s[i]);
        proof {
            lemma_esc_simple_snoc(s@.take(i as int), s@[i as int]);
            assert(s@.take(i + 1) =~= s@.take(i as int).push(s@[i as int]));
        }
        i = i + 1;
    }
    assert(s@.take(s@.len() as int) =~= s@);
}

/// Appends `s` escaped by the fuller variant.
pub fn push_esc_full(out: &mut Vec<u8>, s: &[u8])
    ensures
        final(out)@ == old(out)@ + esc_full(s@),
{
    let mut i: usize = 0;
    assert(out@ =~= old(out)@ + esc_full(s@.take(0)));
    while i < s.len()
        invariant
            out@ == old(out)@ + esc_full(s@.take(i as int)),
            i <= s@.len(),
        decreases s@.len() - i,
    {
        push_esc_full_byte(out, s[i]);
        proof {
            lemma_esc_full_snoc(s@.take(i as int), s@[i as int]);
            assert(s@.take(i + 1) =~= s@.take(i as int).push(s@[i as int]));
        }
        i = i + 1;
    }
    assert(s@.take(s@.len() as int) =~= s@);
}

} // verus!
