//! Parsing of the public-input list.
//!
//! The public input is a comma-separated list of signed decimal integers.
//! Each piece is trimmed of surrounding ASCII whitespace, parsed as a
//! signed 64-bit integer, and mapped into the field's canonical domain
//! with wraparound at the field order. A piece that is not a well-formed
//! integer is a parse error; a well-formed integer beyond the signed
//! 64-bit domain is a range error. Either is terminal for the whole
//! command.
//!
//! Whitespace is deliberately the six ASCII whitespace bytes and nothing
//! more: a piece padded with any other character — a non-ASCII space
//! included — is rejected as not being a well-formed integer.

use vstd::prelude::*;
use vstd::string::StringSliceAdditionalSpecFns;

use crate::error::CliError;
use crate::field::{field_of_i64, FIELD_ORDER};

verus! {

/// ASCII whitespace, as trimmed from the ends of each piece.
pub open spec fn is_ascii_ws(b: u8) -> bool {
    b == 9 || b == 10 || b == 11 || b == 12 || b == 13 || b == 32
}

/// An ASCII decimal digit.
pub open spec fn is_ascii_digit(b: u8) -> bool {
    48 <= b <= 57
}

/// The sequence with leading ASCII whitespace removed.
pub open spec fn ltrim(s: Seq<u8>) -> Seq<u8>
    decreases s.len(),
{
    if s.len() > 0 && is_ascii_ws(s[0]) {
        ltrim(s.drop_first())
    } else {
        s
    }
}

/// The sequence with trailing ASCII whitespace removed.
pub open spec fn rtrim(s: Seq<u8>) -> Seq<u8>
    decreases s.len(),
{
    if s.len() > 0 && is_ascii_ws(s.last()) {
        rtrim(s.drop_last())
    } else {
        s
    }
}

/// The sequence with surrounding ASCII whitespace removed.
pub open spec fn trim(s: Seq<u8>) -> Seq<u8> {
    rtrim(ltrim(s))
}

/// All bytes are decimal digits.
pub open spec fn all_digits(s: Seq<u8>) -> bool {
    forall|i: int| 0 <= i < s.len() ==> is_ascii_digit(#[trigger] s[i])
}

/// The value of a sequence of decimal digits, most significant first.
pub open spec fn digits_value(s: Seq<u8>) -> int
    decreases s.len(),
{
    if s.len() == 0 {
        0
    } else {
        digits_value(s.drop_last()) * 10 + (s.last() - 48)
    }
}

/// The digit part of a trimmed piece: everything after an optional
/// leading sign.
pub open spec fn piece_digits(t: Seq<u8>) -> Seq<u8> {
    if t.len() > 0 && (t[0] == 43 || t[0] == 45) {
        t.drop_first()
    } else {
        t
    }
}

/// Whether a trimmed piece carries a minus sign.
pub open spec fn piece_negative(t: Seq<u8>) -> bool {
    t.len() > 0 && t[0] == 45
}

/// A trimmed piece is a well-formed signed decimal integer: an optional
/// sign followed by at least one digit, and nothing else.
pub open spec fn piece_numeric(t: Seq<u8>) -> bool {
    piece_digits(t).len() > 0 && all_digits(piece_digits(t))
}

/// The signed integer a well-formed trimmed piece denotes.
pub open spec fn piece_int(t: Seq<u8>) -> int {
    if piece_negative(t) {
        -digits_value(piece_digits(t))
    } else {
        digits_value(piece_digits(t))
    }
}

/// Whether a value lies in the signed 64-bit domain.
pub open spec fn in_i64(v: int) -> bool {
    -0x8000_0000_0000_0000 <= v <= 0x7fff_ffff_ffff_ffff
}

/// A raw piece is accepted when, after trimming, it is a well-formed
/// signed decimal integer in the signed 64-bit domain.
pub open spec fn token_ok(raw: Seq<u8>) -> bool {
    piece_numeric(trim(raw)) && in_i64(piece_int(trim(raw)))
}

/// The canonical field element an accepted raw piece denotes.
pub open spec fn token_value(raw: Seq<u8>) -> u64 {
    field_of_i64(piece_int(trim(raw))) as u64
}

/// The index of the first comma, or the length when there is none.
pub open spec fn first_comma(s: Seq<u8>) -> int
    decreases s.len(),
{
    if s.len() == 0 {
        0
    } else if s[0] == 44 {
        0
    } else {
        1 + first_comma(s.drop_first())
    }
}

/// The pieces of a byte sequence, split at every comma. The empty
/// sequence yields one empty piece, which is then rejected as not being
/// a well-formed integer.
pub open spec fn split_commas(s: Seq<u8>) -> Seq<Seq<u8>>
    decreases s.len(),
{
    let fc = first_comma(s);
    if 0 <= fc < s.len() {
        seq![s.take(fc)] + split_commas(s.skip(fc + 1))
    } else {
        seq![s]
    }
}

/// Every piece of the list is an accepted token.
pub open spec fn tokens_ok(s: Seq<u8>) -> bool {
    forall|i: int|
        0 <= i < split_commas(s).len() ==> token_ok(#[trigger] split_commas(s)[i])
}

/// The canonical field elements denoted by the list, in order.
pub open spec fn input_values(s: Seq<u8>) -> Seq<u64> {
    split_commas(s).map(|i: int, t: Seq<u8>| token_value(t))
}

/// A scan that saw no comma before `k`, and a comma or the end at `k`,
/// has found the first comma.
proof fn lemma_first_comma_at(s: Seq<u8>, k: int)
    requires
        0 <= k <= s.len(),
        forall|i: int| 0 <= i < k ==> #[trigger] s[i] != 44,
        k == s.len() || s[k] == 44,
    ensures
        first_comma(s) == k,
    decreases k,
{
    if k > 0 {
        assert(s[0] != 44);
        let t = s.drop_first();
        assert(forall|i: int| 0 <= i < k - 1 ==> #[trigger] t[i] == s[i + 1] && t[i] != 44);
        if k - 1 < t.len() {
            assert(t[k - 1] == s[k]);
        }
        lemma_first_comma_at(t, k - 1);
    } else {
        if s.len() > 0 {
            assert(s[0] == 44);
        }
    }
}

/// A scan that skipped exactly the leading whitespace has found `ltrim`.
proof fn lemma_ltrim_at(s: Seq<u8>, k: int)
    requires
        0 <= k <= s.len(),
        forall|i: int| 0 <= i < k ==> is_ascii_ws(#[trigger] s[i]),
        k == s.len() || !is_ascii_ws(s[k]),
    ensures
        ltrim(s) == s.subrange(k, s.len() as int),
    decreases k,
{
    if k > 0 {
        assert(is_ascii_ws(s[0]));
        let t = s.drop_first();
        assert(forall|i: int| 0 <= i < k - 1 ==> #[trigger] t[i] == s[i + 1]);
        if k - 1 < t.len() {
            assert(t[k - 1] == s[k]);
        }
        lemma_ltrim_at(t, k - 1);
        assert(t.subrange(k - 1, t.len() as int) =~= s.subrange(k, s.len() as int));
    } else {
        assert(s.subrange(0, s.len() as int) =~= s);
    }
}

/// A scan that dropped exactly the trailing whitespace has found `rtrim`.
proof fn lemma_rtrim_at(s: Seq<u8>, k: int)
    requires
        0 <= k <= s.len(),
        forall|i: int| k <= i < s.len() ==> is_ascii_ws(#[trigger] s[i]),
        k == 0 || !is_ascii_ws(s[k - 1]),
    ensures
        rtrim(s) == s.subrange(0, k),
    decreases s.len() - k,
{
    if k < s.len() {
        assert(is_ascii_ws(s.last()));
        let t = s.drop_last();
        assert(forall|i: int| 0 <= i < t.len() ==> #[trigger] t[i] == s[i]);
        lemma_rtrim_at(t, k);
        assert(t.subrange(0, k) =~= s.subrange(0, k));
    } else {
        assert(s.subrange(0, s.len() as int) =~= s);
    }
}

proof fn lemma_digits_value_nonneg(s: Seq<u8>)
    requires
        all_digits(s),
    ensures
        digits_value(s) >= 0,
    decreases s.len(),
{
    if s.len() > 0 {
        assert(all_digits(s.drop_last())) by {
            assert(forall|i: int|
                0 <= i < s.len() - 1 ==> #[trigger] s.drop_last()[i] == s[i]);
        }
        lemma_digits_value_nonneg(s.drop_last());
        assert(digits_value(s.drop_last()) * 10 >= 0) by (nonlinear_arith)
            requires digits_value(s.drop_last()) >= 0;
    }
}

/// The value of a digit string is at least the value of any of its
/// prefixes: appending digits never shrinks the denoted value.
proof fn lemma_digits_value_prefix(s: Seq<u8>, k: int)
    requires
        all_digits(s),
        0 <= k <= s.len(),
    ensures
        digits_value(s.take(k)) <= digits_value(s),
    decreases s.len() - k,
{
    if k == s.len() {
        assert(s.take(k) =~= s);
    } else {
        let t = s.drop_last();
        assert(all_digits(t)) by {
            assert(forall|i: int| 0 <= i < t.len() ==> #[trigger] t[i] == s[i]);
        }
        assert(s.take(k) =~= t.take(k));
        lemma_digits_value_prefix(t, k);
        lemma_digits_value_nonneg(t);
        assert(digits_value(t) <= digits_value(t) * 10) by (nonlinear_arith)
            requires digits_value(t) >= 0;
        assert(is_ascii_digit(s.last()));
    }
}

/// Parse one raw piece of the comma list, spanning `bytes[lo..hi]`.
///
/// Accepts exactly the trimmed, well-formed signed decimals of the signed
/// 64-bit domain and maps them into the field. A malformed piece is a
/// parse error; a well-formed one beyond the domain is a range error.
pub fn parse_token(bytes: &[u8], lo: usize, hi: usize) -> (r: Result<u64, CliError>)
    requires
        lo <= hi <= bytes@.len(),
    ensures
        ({
            let raw = bytes@.subrange(lo as int, hi as int);
            &&& r is Ok <==> token_ok(raw)
            &&& r is Ok ==> r->Ok_0 == token_value(raw)
            &&& r is Err ==> (r->Err_0 is Parse <==> !piece_numeric(trim(raw)))
            &&& r is Err ==> (r->Err_0 is Range <==> piece_numeric(trim(raw)))
        }),
{
    let ghost raw = bytes@.subrange(lo as int, hi as int);
    let mut a: usize = lo;
    while a < hi && (bytes[a] == 9 || bytes[a] == 10 || bytes[a] == 11 || bytes[a] == 12
        || bytes[a] == 13 || bytes[a] == 32)
        invariant
            lo <= a <= hi <= bytes@.len(),
            forall|i: int| lo <= i < a ==> is_ascii_ws(#[trigger] bytes@[i]),
        decreases hi - a,
    {
        a = a + 1;
    }
    let mut b: usize = hi;
    while b > a && (bytes[b - 1] == 9 || bytes[b - 1] == 10 || bytes[b - 1] == 11
        || bytes[b - 1] == 12 || bytes[b - 1] == 13 || bytes[b - 1] == 32)
        invariant
            lo <= a <= b <= hi <= bytes@.len(),
            forall|i: int| lo <= i < a ==> is_ascii_ws(#[trigger] bytes@[i]),
            forall|i: int| b <= i < hi ==> is_ascii_ws(#[trigger] bytes@[i]),
        decreases b,
    {
        b = b - 1;
    }
    proof {
        assert(forall|i: int| 0 <= i < raw.len() ==> raw[i] == bytes@[lo + i]);
        lemma_ltrim_at(raw, a - lo);
        let lt = raw.subrange(a as int - lo, raw.len() as int);
        assert(forall|i: int| 0 <= i < lt.len() ==> lt[i] == bytes@[a + i]);
        lemma_rtrim_at(lt, b - a);
        assert(trim(raw) =~= bytes@.subrange(a as int, b as int));
    }
    let ghost t = trim(raw);
    let mut neg = false;
    let mut c: usize = a;
    if a < b && (bytes[a] == 43 || bytes[a] == 45) {
        neg = bytes[a] == 45;
        c = a + 1;
    }
    proof {
        assert(piece_digits(t) =~= bytes@.subrange(c as int, b as int));
        assert(neg == piece_negative(t));
    }
    let ghost digits = piece_digits(t);
    if c == b {
        // no digits at all: not a well-formed integer
        return Err(CliError::Parse { message: piece_message(bytes, lo, hi) });
    }
    let mut i: usize = c;
    while i < b
        invariant
            lo <= c <= i <= b <= hi <= bytes@.len(),
            t == trim(bytes@.subrange(lo as int, hi as int)),
            digits == piece_digits(t),
            digits == bytes@.subrange(c as int, b as int),
            forall|j: int| c <= j < i ==> is_ascii_digit(#[trigger] bytes@[j]),
        decreases b - i,
    {
        let d = bytes[i];
        if d < 48 || d > 57 {
            proof {
                assert(digits[i - c] == bytes@[i as int]);
                assert(!is_ascii_digit(digits[i - c]));
                assert(!all_digits(digits));
            }
            return Err(CliError::Parse { message: piece_message(bytes, lo, hi) });
        }
        i = i + 1;
    }
    proof {
        assert(forall|j: int| 0 <= j < digits.len() ==> digits[j] == bytes@[c + j]);
        assert(all_digits(digits));
        assert(piece_numeric(t));
    }
    let mut mag: u128 = 0;
    let mut i: usize = c;
    while i < b
        invariant
            lo <= c <= i <= b <= hi <= bytes@.len(),
            t == trim(bytes@.subrange(lo as int, hi as int)),
            digits == piece_digits(t),
            neg == piece_negative(t),
            digits == bytes@.subrange(c as int, b as int),
            all_digits(digits),
            digits.len() > 0,
            mag == digits_value(digits.take(i - c)),
            mag <= 0x8000_0000_0000_0000u128,
        decreases b - i,
    {
        let d = bytes[i];
        proof {
            assert(digits[i - c] == bytes@[i as int]);
            assert(is_ascii_digit(digits[i - c]));
            assert(digits.take(i - c + 1).drop_last() =~= digits.take(i - c));
            assert(digits.take(i - c + 1).last() == bytes@[i as int]);
        }
        mag = mag * 10 + ((d - 48) as u128);
        i = i + 1;
        if mag > 0x8000_0000_0000_0000u128 {
            proof {
                lemma_digits_value_prefix(digits, i - c);
                assert(digits.take(digits.len() as int) =~= digits);
                lemma_digits_value_nonneg(digits);
            }
            return Err(CliError::Range { message: piece_message(bytes, lo, hi) });
        }
    }
    proof {
        assert(digits.take(digits.len() as int) =~= digits);
    }
    if !neg && mag == 0x8000_0000_0000_0000u128 {
        return Err(CliError::Range { message: piece_message(bytes, lo, hi) });
    }
    let r: u64 = if !neg {
        mag as u64
    } else if mag == 0 {
        0
    } else {
        FIELD_ORDER - (mag as u64)
    };
    Ok(r)
}

/// The offending piece itself, quoted for a diagnostic.
fn piece_message(bytes: &[u8], lo: usize, hi: usize) -> (r: String)
    requires
        lo <= hi <= bytes@.len(),
{
    let mut s = String::new();
    let mut i: usize = lo;
    while i < hi
        invariant
            lo <= i <= hi <= bytes@.len(),
        decreases hi - i,
    {
        let b = bytes[i];
        if 32 <= b && b < 127 {
            byte_push(&mut s, b);
        }
        i = i + 1;
    }
    s
}

/// Relies on `String::push`: appends one character. Used only to quote
/// the offending piece in a diagnostic; nothing is claimed of the text.
#[verifier::external_body]
fn byte_push(s: &mut String, b: u8) {
    s.push(b as char);
}

/// Parse the suffix `bytes[from..]` as a comma-separated list of signed
/// decimals, yielding the canonical field elements in order.
fn parse_suffix(bytes: &[u8], from: usize) -> (r: Result<Vec<u64>, CliError>)
    requires
        from <= bytes@.len(),
    ensures
        ({
            let s = bytes@.subrange(from as int, bytes@.len() as int);
            &&& r is Ok <==> tokens_ok(s)
            &&& r is Ok ==> r->Ok_0@ == input_values(s)
            &&& r is Err ==> (r->Err_0 is Parse || r->Err_0 is Range)
        }),
    decreases bytes@.len() - from,
{
    let ghost s = bytes@.subrange(from as int, bytes@.len() as int);
    let len = bytes.len();
    let mut j: usize = from;
    while j < len && bytes[j] != 44
        invariant
            from <= j <= len == bytes@.len(),
            forall|i: int| from <= i < j ==> #[trigger] bytes@[i] != 44,
        decreases len - j,
    {
        j = j + 1;
    }
    proof {
        assert(forall|i: int| 0 <= i < s.len() ==> s[i] == bytes@[from + i]);
        lemma_first_comma_at(s, j - from);
    }
    let v = match parse_token(bytes, from, j) {
        Ok(v) => v,
        Err(e) => {
            proof {
                assert(split_commas(s)[0] =~= bytes@.subrange(from as int, j as int));
            }
            return Err(e);
        },
    };
    proof {
        assert(bytes@.subrange(from as int, j as int) =~= s.take(j - from));
    }
    if j == len {
        let mut out: Vec<u64> = Vec::new();
        out.push(v);
        proof {
            assert(s.take(j - from) =~= s);
            assert(split_commas(s) =~= seq![s]);
            assert(out@ =~= input_values(s));
        }
        Ok(out)
    } else {
        let ghost rest_s = bytes@.subrange(j as int + 1, bytes@.len() as int);
        proof {
            assert(rest_s =~= s.skip(j - from + 1));
        }
        match parse_suffix(bytes, j + 1) {
            Ok(mut rest) => {
                rest.insert(0, v);
                proof {
                    assert(split_commas(s) == seq![s.take(j - from)] + split_commas(
                        s.skip(j - from + 1),
                    ));
                    assert(tokens_ok(s)) by {
                        assert(forall|i: int|
                            1 <= i < split_commas(s).len() ==> #[trigger] split_commas(s)[i]
                                == split_commas(rest_s)[i - 1]);
                    }
                    assert(rest@ =~= input_values(s));
                }
                Ok(rest)
            },
            Err(e) => {
                proof {
                    assert(split_commas(s) == seq![s.take(j - from)] + split_commas(
                        s.skip(j - from + 1),
                    ));
                    let k = choose|k: int|
                        0 <= k < split_commas(rest_s).len() && !token_ok(
                            #[trigger] split_commas(rest_s)[k],
                        );
                    assert(split_commas(s)[k + 1] == split_commas(rest_s)[k]);
                    assert(!tokens_ok(s));
                }
                Err(e)
            },
        }
    }
}

/// Parse a comma-separated list of signed decimal integers into canonical
/// field elements.
///
/// Accepts the text exactly when every comma-separated piece, after
/// trimming surrounding ASCII whitespace (and only ASCII whitespace), is
/// a signed decimal integer of the signed 64-bit domain; negative values
/// wrap around at the field order. The first offending piece decides
/// between a parse error and a range error.
pub fn parse_public_input(text: &str) -> (r: Result<Vec<u64>, CliError>)
    ensures
        r is Ok <==> tokens_ok(text.spec_bytes()),
        r is Ok ==> r->Ok_0@ == input_values(text.spec_bytes()),
        r is Ok ==> crate::field::all_canonical(r->Ok_0@),
        r is Err ==> (r->Err_0 is Parse || r->Err_0 is Range),
{
    let bytes = text.as_bytes();
    proof {
        assert(bytes@.subrange(0, bytes@.len() as int) =~= bytes@);
    }
    let r = parse_suffix(bytes, 0);
    proof {
        if r is Ok {
            lemma_input_values_canonical(text.spec_bytes());
        }
    }
    r
}

/// Every accepted token denotes a canonical field element.
pub proof fn lemma_input_values_canonical(s: Seq<u8>)
    requires
        tokens_ok(s),
    ensures
        crate::field::all_canonical(input_values(s)),
{
    assert forall|i: int| 0 <= i < input_values(s).len() implies crate::field::canonical(
        #[trigger] input_values(s)[i],
    ) by {
        assert(token_ok(split_commas(s)[i]));
    }
}

} // verus!
