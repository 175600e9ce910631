//! The parsing companion: a tokenizer over the format's byte syntax. It
//! recognizes names, the dictionary and array delimiters, and indirect
//! reference triples; malformed input surfaces as an error.

use vstd::prelude::*;

verus! {

/// The parsing failure classes.
#[derive(Debug, Copy, Clone, PartialEq, Eq, Structural)]
pub enum Error {
    /// Bytes that are not valid text where text was needed.
    Utf8,
    /// A whole byte buffer that is not valid text.
    FromUtf8,
    /// Input that no token rule matches, or a numeral out of range.
    Malformed,
    /// The closing delimiter of a mapping found in place of a key; used as
    /// a sentinel to detect the end of a mapping.
    SpuriousDictEnd,
}

/// One token of the byte syntax.
#[derive(Debug, Clone, PartialEq)]
pub enum Token {
    /// A name, without its leading slash.
    Name(Vec<u8>),
    /// The `<<` delimiter.
    StartDict,
    /// The `>>` delimiter.
    EndDict,
    /// The `[` delimiter.
    StartArray,
    /// The `]` delimiter.
    EndArray,
    /// A `<number> <generation> R` triple.
    IndirectReference(i64, i64),
    /// A number that may begin a reference, before its generation is seen.
    PartialIndirectReference(i64),
}

/// The whitespace class that separates tokens.
pub open spec fn is_token_ws(b: u8) -> bool {
    b == 9 || b == 10 || b == 12 || b == 13 || b == 32
}

/// The wider whitespace class inside reference triples, which also accepts
/// the NUL byte.
pub open spec fn is_space_byte(b: u8) -> bool {
    b == 0 || b == 9 || b == 10 || b == 12 || b == 13 || b == 32
}

/// An ASCII decimal digit.
pub open spec fn is_digit_byte(b: u8) -> bool {
    48 <= b <= 57
}

/// The length of the longest prefix whose bytes all satisfy `p`.
pub open spec fn byte_run(p: spec_fn(u8) -> bool, s: Seq<u8>) -> nat
    decreases s.len(),
{
    if s.len() > 0 && p(s[0]) {
        (1 + byte_run(p, s.drop_first())) as nat
    } else {
        0
    }
}

/// A run is exactly the first position that leaves the class.
pub proof fn lemma_byte_run(p: spec_fn(u8) -> bool, s: Seq<u8>, k: int)
    requires
        0 <= k <= s.len(),
        forall|i: int| 0 <= i < k ==> p(#[trigger] s[i]),
        k == s.len() || !p(s[k]),
    ensures
        byte_run(p, s) == k,
    decreases s.len(),
{
    if s.len() > 0 && p(s[0]) {
        lemma_byte_run(p, s.drop_first(), k - 1);
    }
}

/// The value of a decimal digit string.
pub open spec fn digits_value(ds: Seq<u8>) -> int
    decreases ds.len(),
{
    if ds.len() == 0 {
        0
    } else {
        digits_value(ds.drop_last()) * 10 + (ds.last() - 48)
    }
}

/// Powers of ten.
pub open spec fn pow10(k: nat) -> int
    decreases k,
{
    if k == 0 {
        1
    } else {
        10 * pow10((k - 1) as nat)
    }
}

/// A digit string's value is non-negative and below ten to its length.
pub proof fn lemma_digits_value_bound(ds: Seq<u8>)
    requires
        forall|i: int| 0 <= i < ds.len() ==> is_digit_byte(#[trigger] ds[i]),
    ensures
        0 <= digits_value(ds) < pow10(ds.len()),
    decreases ds.len(),
{
    if ds.len() > 0 {
        lemma_digits_value_bound(ds.drop_last());
    }
}

/// The signed numeral at the head of `s`: its value and length, or nothing
/// when no numeral of at most nineteen digits with a value in the signed
/// 64-bit range stands there.
pub open spec fn int_token(s: Seq<u8>) -> Option<(int, int)> {
    let neg = s.len() > 0 && s[0] == 45;
    let body = if neg {
        s.drop_first()
    } else {
        s
    };
    let dl = byte_run(|b: u8| is_digit_byte(b), body) as int;
    if dl == 0 || dl > 19 {
        None
    } else {
        let v0 = digits_value(body.take(dl));
        let v = if neg {
            -v0
        } else {
            v0
        };
        if v < -9223372036854775808 || v > 9223372036854775807 {
            None
        } else {
            Some((v, dl + if neg { 1int } else { 0int }))
        }
    }
}

/// The reference triple at the head of `s`: `<number> <generation> R`, each
/// part separated by at least one space-class byte and the `R` followed by
/// one too. The result holds the two values and the consumed length.
pub open spec fn iref_parse(s: Seq<u8>) -> Option<(int, int, int)> {
    match int_token(s) {
        None => None,
        Some((v1, l1)) => {
            let r1 = s.skip(l1);
            let w1 = byte_run(|b: u8| is_space_byte(b), r1) as int;
            if w1 == 0 {
                None
            } else {
                match int_token(r1.skip(w1)) {
                    None => None,
                    Some((v2, l2)) => {
                        let r3 = r1.skip(w1).skip(l2);
                        let w2 = byte_run(|b: u8| is_space_byte(b), r3) as int;
                        if w2 == 0 || r3.skip(w2).len() == 0 || r3.skip(w2)[0] != 82 {
                            None
                        } else {
                            let r5 = r3.skip(w2).drop_first();
                            let w3 = byte_run(|b: u8| is_space_byte(b), r5) as int;
                            if w3 == 0 {
                                None
                            } else {
                                Some((v1, v2, l1 + w1 + l2 + w2 + 1 + w3))
                            }
                        }
                    },
                }
            }
        },
    }
}

/// Whether a token-whitespace byte stands at index `i` of `input`.
fn ws_at(input: &Vec<u8>, i: usize) -> (r: bool)
    ensures
        r == (i < input@.len() && is_token_ws(input@[i as int])),
{
    if i < input.len() {
        let b = input[i];
        b == 9 || b == 10 || b == 12 || b == 13 || b == 32
    } else {
        false
    }
}

/// Whether a byte other than token whitespace stands at index `i`.
fn non_ws_at(input: &Vec<u8>, i: usize) -> (r: bool)
    ensures
        r == (i < input@.len() && !is_token_ws(input@[i as int])),
{
    if i < input.len() {
        let b = input[i];
        !(b == 9 || b == 10 || b == 12 || b == 13 || b == 32)
    } else {
        false
    }
}

/// Whether a space-class byte is at hand.
pub fn is_space(chr: u8) -> (r: bool)
    ensures
        r == is_space_byte(chr),
{
    chr == 0 || chr == 9 || chr == 10 || chr == 12 || chr == 13 || chr == 32
}

/// Reads tokens off a byte buffer, front to back.
#[derive(Debug)]
pub struct PdfDeserializer {
    /// The whole input.
    pub input: Vec<u8>,
    /// How many bytes have been consumed.
    pub pos: usize,
}

impl PdfDeserializer {
    /// The position lies within the input.
    pub open spec fn wf(&self) -> bool {
        self.pos <= self.input@.len()
    }

    /// The input not yet consumed.
    pub open spec fn remaining(&self) -> Seq<u8> {
        self.input@.skip(self.pos as int)
    }

    /// A tokenizer at the start of the given input.
    pub fn new(input: Vec<u8>) -> (r: Self)
        ensures
            r.wf(),
            r.input == input,
            r.remaining() == input@,
    {
        let r = PdfDeserializer { input, pos: 0 };
        assert(r.remaining() =~= r.input@);
        r
    }

    /// Consumes and copies the next `n` bytes.
    pub fn take(&mut self, n: usize) -> (r: Vec<u8>)
        requires
            old(self).wf(),
            n <= old(self).remaining().len(),
        ensures
            final(self).wf(),
            final(self).input == old(self).input,
            r@ == old(self).remaining().take(n as int),
            final(self).remaining() == old(self).remaining().skip(n as int),
    {
        let total = self.input.len();
        let mut r: Vec<u8> = Vec::new();
        let mut i: usize = 0;
        assert(r@ =~= old(self).remaining().take(0));
        while i < n
            invariant
                self == old(self),
                i <= n,
                n <= old(self).remaining().len(),
                old(self).wf(),
                self.input@.len() <= usize::MAX,
                r@ == old(self).remaining().take(i as int),
            decreases n - i,
        {
            r.push(self.input[self.pos + i]);
            assert(r@ =~= old(self).remaining().take(i + 1));
            i = i + 1;
        }
        self.pos = self.pos + n;
        assert(final(self).remaining() =~= old(self).remaining().skip(n as int));
        r
    }

    /// Consumes the leading run of token whitespace.
    pub fn take_ws(&mut self) -> (r: Vec<u8>)
        requires
            old(self).wf(),
        ensures
            final(self).wf(),
            final(self).input == old(self).input,
            r@ == old(self).remaining().take(
                byte_run(|b: u8| is_token_ws(b), old(self).remaining()) as int,
            ),
            final(self).remaining() == old(self).remaining().skip(
                byte_run(|b: u8| is_token_ws(b), old(self).remaining()) as int,
            ),
    {
        let total = self.input.len();
        let mut k: usize = 0;
        while ws_at(&self.input, self.pos + k)
            invariant
                self == old(self),
                old(self).wf(),
                self.input@.len() <= usize::MAX,
                self.pos + k <= self.input@.len(),
                forall|i: int|
                    0 <= i < k ==> is_token_ws(#[trigger] old(self).remaining()[i]),
            decreases self.input@.len() - self.pos - k,
        {
            k = k + 1;
        }
        proof {
            lemma_byte_run(|b: u8| is_token_ws(b), old(self).remaining(), k as int);
        }
        self.take(k)
    }

    /// Consumes the leading run of bytes up to the next token whitespace.
    pub fn take_until_ws(&mut self) -> (r: Vec<u8>)
        requires
            old(self).wf(),
        ensures
            final(self).wf(),
            final(self).input == old(self).input,
            r@ == old(self).remaining().take(
                byte_run(|b: u8| !is_token_ws(b), old(self).remaining()) as int,
            ),
            final(self).remaining() == old(self).remaining().skip(
                byte_run(|b: u8| !is_token_ws(b), old(self).remaining()) as int,
            ),
    {
        let total = self.input.len();
        let mut k: usize = 0;
        while non_ws_at(&self.input, self.pos + k)
            invariant
                self == old(self),
                old(self).wf(),
                self.input@.len() <= usize::MAX,
                self.pos + k <= self.input@.len(),
                forall|i: int|
                    0 <= i < k ==> !is_token_ws(#[trigger] old(self).remaining()[i]),
            decreases self.input@.len() - self.pos - k,
        {
            k = k + 1;
        }
        proof {
            lemma_byte_run(|b: u8| !is_token_ws(b), old(self).remaining(), k as int);
        }
        self.take(k)
    }
}

/// Every byte inside a run satisfies the class.
pub proof fn lemma_byte_run_members(p: spec_fn(u8) -> bool, s: Seq<u8>)
    ensures
        byte_run(p, s) <= s.len(),
        forall|i: int| 0 <= i < byte_run(p, s) ==> p(#[trigger] s[i]),
    decreases s.len(),
{
    if s.len() > 0 && p(s[0]) {
        lemma_byte_run_members(p, s.drop_first());
        assert forall|i: int| 0 <= i < byte_run(p, s) implies p(#[trigger] s[i]) by {
            if i >= 1 {
                assert(s.drop_first()[i - 1] == s[i]);
                assert(p(s.drop_first()[i - 1]));
            }
        }
    }
}

/// Powers of ten are positive.
pub proof fn lemma_pow10_pos(k: nat)
    ensures
        pow10(k) >= 1,
    decreases k,
{
    if k > 0 {
        lemma_pow10_pos((k - 1) as nat);
    }
}

/// Powers of ten grow with the exponent.
pub proof fn lemma_pow10_mono(a: nat, b: nat)
    requires
        a <= b,
    ensures
        pow10(a) <= pow10(b),
    decreases b,
{
    if a < b {
        lemma_pow10_mono(a, (b - 1) as nat);
        lemma_pow10_pos((b - 1) as nat);
    }
}

/// Whether a space-class byte stands at index `i` of `input`.
fn space_at(input: &Vec<u8>, i: usize) -> (r: bool)
    ensures
        r == (i < input@.len() && is_space_byte(input@[i as int])),
{
    if i < input.len() {
        let b = input[i];
        b == 0 || b == 9 || b == 10 || b == 12 || b == 13 || b == 32
    } else {
        false
    }
}

/// Whether a digit stands at index `i` of `input`.
fn digit_at(input: &Vec<u8>, i: usize) -> (r: bool)
    ensures
        r == (i < input@.len() && is_digit_byte(input@[i as int])),
{
    if i < input.len() {
        let b = input[i];
        48 <= b && b <= 57
    } else {
        false
    }
}

/// Measures the space-class run beginning at `from`.
fn scan_space_run(input: &Vec<u8>, from: usize) -> (r: usize)
    requires
        from <= input@.len(),
    ensures
        r == byte_run(|b: u8| is_space_byte(b), input@.skip(from as int)),
        from + r <= input@.len(),
{
    let total = input.len();
    let mut k: usize = 0;
    while space_at(input, from + k)
        invariant
            from + k <= input@.len(),
            input@.len() <= usize::MAX,
            forall|i: int|
                0 <= i < k ==> is_space_byte(#[trigger] input@.skip(from as int)[i]),
        decreases input@.len() - from - k,
    {
        k = k + 1;
    }
    proof {
        lemma_byte_run(|b: u8| is_space_byte(b), input@.skip(from as int), k as int);
    }
    k
}

/// Measures the digit run beginning at `from`.
fn scan_digit_run(input: &Vec<u8>, from: usize) -> (r: usize)
    requires
        from <= input@.len(),
    ensures
        r == byte_run(|b: u8| is_digit_byte(b), input@.skip(from as int)),
        from + r <= input@.len(),
{
    let total = input.len();
    let mut k: usize = 0;
    while digit_at(input, from + k)
        invariant
            from + k <= input@.len(),
            input@.len() <= usize::MAX,
            forall|i: int|
                0 <= i < k ==> is_digit_byte(#[trigger] input@.skip(from as int)[i]),
        decreases input@.len() - from - k,
    {
        k = k + 1;
    }
    proof {
        lemma_byte_run(|b: u8| is_digit_byte(b), input@.skip(from as int), k as int);
    }
    k
}

/// Reads the signed numeral beginning at `from`, exactly as `int_token`
/// describes it.
#[verifier::rlimit(100)]
#[verifier::spinoff_prover]
fn scan_int(input: &Vec<u8>, from: usize) -> (r: Option<(i64, usize)>)
    requires
        from <= input@.len(),
    ensures
        (match r {
            Some((v, l)) => int_token(input@.skip(from as int)) == Some((v as int, l as int))
                && from + l <= input@.len(),
            None => int_token(input@.skip(from as int)) is None,
        }),
{
    let ghost s = input@.skip(from as int);
    let len = input.len();
    let neg = from < len && input[from] == 45;
    let body_from = if neg {
        from + 1
    } else {
        from
    };
    let ghost body = input@.skip(body_from as int);
    proof {
        if neg {
            assert(body =~= s.drop_first());
        }
    }
    let dl = scan_digit_run(input, body_from);
    if dl == 0 || dl > 19 {
        return None;
    }
    proof {
        lemma_byte_run_members(|b: u8| is_digit_byte(b), body);
        reveal_with_fuel(pow10, 21);
    }
    let mut mag: u64 = 0;
    let mut i: usize = 0;
    assert(body.take(0) =~= Seq::<u8>::empty());
    while i < dl
        invariant
            i <= dl,
            dl <= 19,
            dl == byte_run(|b: u8| is_digit_byte(b), body),
            body == input@.skip(body_from as int),
            body_from + dl <= input@.len(),
            forall|j: int| 0 <= j < dl ==> is_digit_byte(#[trigger] body[j]),
            mag == digits_value(body.take(i as int)),
            mag < pow10(i as nat),
            pow10(19) == 10000000000000000000,
            input@.len() <= usize::MAX,
        decreases dl - i,
    {
        proof {
            lemma_pow10_mono((i + 1) as nat, 19);
            assert(body[i as int] == input@[(body_from + i) as int]);
            assert(is_digit_byte(body[i as int]));
        }
        let d = input[body_from + i] - 48;
        assert(body.take(i + 1).drop_last() =~= body.take(i as int));
        assert(body.take(i + 1).last() == body[i as int]);
        mag = mag * 10 + (d as u64);
        i = i + 1;
    }
    if neg {
        if mag > 9223372036854775808u64 {
            return None;
        }
        let v: i64 = if mag == 9223372036854775808u64 {
            i64::MIN
        } else {
            -(mag as i64)
        };
        Some((v, dl + 1))
    } else {
        if mag > 9223372036854775807u64 {
            return None;
        }
        Some((mag as i64, dl))
    }
}

/// Reads the reference triple beginning at `from`, exactly as `iref_parse`
/// describes it.
#[verifier::rlimit(100)]
#[verifier::spinoff_prover]
fn scan_iref(input: &Vec<u8>, from: usize) -> (r: Option<(i64, i64, usize)>)
    requires
        from <= input@.len(),
    ensures
        (match r {
            Some((a, b, l)) => iref_parse(input@.skip(from as int)) == Some(
                (a as int, b as int, l as int),
            ) && from + l <= input@.len(),
            None => iref_parse(input@.skip(from as int)) is None,
        }),
{
    let total = input.len();
    let ghost s = input@.skip(from as int);
    match scan_int(input, from) {
        None => None,
        Some((v1, l1)) => {
            let w1 = scan_space_run(input, from + l1);
            proof {
                assert(input@.skip((from + l1) as int) =~= s.skip(l1 as int));
            }
            if w1 == 0 {
                return None;
            }
            let p1 = from + l1 + w1;
            proof {
                assert(input@.skip(p1 as int) =~= s.skip(l1 as int).skip(w1 as int));
            }
            match scan_int(input, p1) {
                None => None,
                Some((v2, l2)) => {
                    let p2 = p1 + l2;
                    proof {
                        assert(input@.skip(p2 as int) =~= s.skip(l1 as int).skip(w1 as int).skip(
                            l2 as int,
                        ));
                    }
                    let w2 = scan_space_run(input, p2);
                    if w2 == 0 {
                        return None;
                    }
                    let p3 = p2 + w2;
                    proof {
                        assert(input@.skip(p3 as int) =~= s.skip(l1 as int).skip(w1 as int).skip(
                            l2 as int,
                        ).skip(w2 as int));
                    }
                    if p3 >= input.len() || input[p3] != 82 {
                        return None;
                    }
                    let w3 = scan_space_run(input, p3 + 1);
                    proof {
                        assert(input@.skip((p3 + 1) as int) =~= s.skip(l1 as int).skip(
                            w1 as int,
                        ).skip(l2 as int).skip(w2 as int).drop_first());
                    }
                    if w3 == 0 {
                        return None;
                    }
                    Some((v1, v2, l1 + w1 + l2 + w2 + 1 + w3))
                },
            }
        },
    }
}

impl PdfDeserializer {
    /// Reads the next token: a name after a slash, one of the four
    /// delimiters, or a reference triple. Anything else is malformed; the
    /// leading whitespace is consumed either way.
    #[verifier::rlimit(100)]
    #[verifier::spinoff_prover]
    pub fn next_token(&mut self) -> (r: Result<Token, Error>)
        requires
            old(self).wf(),
        ensures
            final(self).wf(),
            final(self).input == old(self).input,
            ({
                let s = old(self).remaining().skip(
                    byte_run(|b: u8| is_token_ws(b), old(self).remaining()) as int,
                );
                match r {
                    Ok(Token::Name(n)) => {
                        &&& s.len() > 0 && s[0] == 47
                        &&& n@ == s.drop_first().take(
                            byte_run(|b: u8| !is_token_ws(b), s.drop_first()) as int,
                        )
                        &&& final(self).remaining() == s.drop_first().skip(
                            byte_run(|b: u8| !is_token_ws(b), s.drop_first()) as int,
                        )
                    },
                    Ok(Token::StartDict) => {
                        &&& s.len() >= 2 && s[0] == 60 && s[1] == 60
                        &&& final(self).remaining() == s.skip(2)
                    },
                    Ok(Token::EndDict) => {
                        &&& s.len() >= 2 && s[0] == 62 && s[1] == 62
                        &&& final(self).remaining() == s.skip(2)
                    },
                    Ok(Token::StartArray) => s.len() > 0 && s[0] == 91 && final(self).remaining()
                        == s.skip(1),
                    Ok(Token::EndArray) => s.len() > 0 && s[0] == 93 && final(self).remaining()
                        == s.skip(1),
                    Ok(Token::IndirectReference(a, b)) => (match iref_parse(s) {
                        Some((v1, v2, l)) => a == v1 && b == v2 && final(self).remaining()
                            == s.skip(l),
                        None => false,
                    }),
                    Ok(Token::PartialIndirectReference(v)) => false,
                    Err(e) => {
                        &&& e == Error::Malformed
                        &&& !(s.len() > 0 && s[0] == 47)
                        &&& !(s.len() >= 2 && s[0] == 60 && s[1] == 60)
                        &&& !(s.len() >= 2 && s[0] == 62 && s[1] == 62)
                        &&& !(s.len() > 0 && s[0] == 91)
                        &&& !(s.len() > 0 && s[0] == 93)
                        &&& iref_parse(s) is None
                        &&& final(self).remaining() == s
                    },
                }
            }),
    {
        let _ws = self.take_ws();
        let ghost s = self.remaining();
        let len = self.input.len();
        if self.pos < len && self.input[self.pos] == 47 {
            let _slash = self.take(1);
            assert(self.remaining() =~= s.drop_first());
            let name = self.take_until_ws();
            Ok(Token::Name(name))
        } else if self.pos < len && self.pos + 1 < len && self.input[self.pos] == 60
            && self.input[self.pos + 1] == 60 {
            let _open = self.take(2);
            Ok(Token::StartDict)
        } else if self.pos < len && self.pos + 1 < len && self.input[self.pos] == 62
            && self.input[self.pos + 1] == 62 {
            let _close = self.take(2);
            Ok(Token::EndDict)
        } else if self.pos < len && self.input[self.pos] == 91 {
            let _open = self.take(1);
            Ok(Token::StartArray)
        } else if self.pos < len && self.input[self.pos] == 93 {
            let _close = self.take(1);
            Ok(Token::EndArray)
        } else {
            match scan_iref(&self.input, self.pos) {
                Some((a, b, l)) => {
                    self.pos = self.pos + l;
                    assert(self.remaining() =~= s.skip(l as int));
                    Ok(Token::IndirectReference(a, b))
                },
                None => Err(Error::Malformed),
            }
        }
    }
}

} // verus!
