//! Rendering of values for standard output.
//!
//! The public output of a run is printed as one comma-and-space-joined
//! line of decimal values; nothing is printed when the output is empty.

use vstd::prelude::*;
use vstd::string::StringExecFns;

verus! {

/// The character of one decimal digit.
pub open spec fn digit_char(d: int) -> char {
    if d == 0 {
        '0'
    } else if d == 1 {
        '1'
    } else if d == 2 {
        '2'
    } else if d == 3 {
        '3'
    } else if d == 4 {
        '4'
    } else if d == 5 {
        '5'
    } else if d == 6 {
        '6'
    } else if d == 7 {
        '7'
    } else if d == 8 {
        '8'
    } else {
        '9'
    }
}

/// The decimal rendering of a non-negative value, most significant digit
/// first, without leading zeroes (a lone zero for zero).
pub open spec fn dec_chars(n: int) -> Seq<char>
    decreases n,
{
    if n < 10 {
        seq![digit_char(n)]
    } else {
        dec_chars(n / 10) + seq![digit_char(n % 10)]
    }
}

/// The comma-and-space-joined line of decimal values; empty for no
/// values.
pub open spec fn joined_line(vals: Seq<u64>) -> Seq<char>
    decreases vals.len(),
{
    if vals.len() == 0 {
        Seq::empty()
    } else if vals.len() == 1 {
        dec_chars(vals[0] as int)
    } else {
        joined_line(vals.drop_last()) + seq![',', ' '] + dec_chars(vals.last() as int)
    }
}

/// Append the character of one decimal digit.
fn push_digit(s: &mut String, d: u64)
    requires
        d < 10,
    ensures
        final(s)@ == old(s)@ + seq![digit_char(d as int)],
{
    let piece: &str = if d == 0 {
        "0"
    } else if d == 1 {
        "1"
    } else if d == 2 {
        "2"
    } else if d == 3 {
        "3"
    } else if d == 4 {
        "4"
    } else if d == 5 {
        "5"
    } else if d == 6 {
        "6"
    } else if d == 7 {
        "7"
    } else if d == 8 {
        "8"
    } else {
        "9"
    };
    proof {
        reveal_strlit("0");
        reveal_strlit("1");
        reveal_strlit("2");
        reveal_strlit("3");
        reveal_strlit("4");
        reveal_strlit("5");
        reveal_strlit("6");
        reveal_strlit("7");
        reveal_strlit("8");
        reveal_strlit("9");
        assert(piece@ =~= seq![digit_char(d as int)]);
    }
    s.append(piece);
}

/// Append the decimal rendering of a value.
pub fn push_decimal(s: &mut String, n: u64)
    ensures
        final(s)@ == old(s)@ + dec_chars(n as int),
    decreases n,
{
    if n >= 10 {
        push_decimal(s, n / 10);
        push_digit(s, n % 10);
        proof {
            assert(s@ =~= old(s)@ + dec_chars(n as int));
        }
    } else {
        push_digit(s, n);
    }
}

/// The decimal rendering of a value as a fresh string.
pub fn decimal_string(n: u64) -> (r: String)
    ensures
        r@ == dec_chars(n as int),
{
    let mut s = String::new();
    push_decimal(&mut s, n);
    proof {
        assert(s@ =~= dec_chars(n as int));
    }
    s
}

/// A power of two: nonzero, and no bit shared with its predecessor.
pub open spec fn is_pow2(n: u64) -> bool {
    n != 0 && n & ((n - 1) as u64) == 0
}

/// The greatest height among the labelled table rows; zero for none.
pub open spec fn spec_max_height(rows: Seq<(String, u64)>) -> u64
    decreases rows.len(),
{
    if rows.len() == 0 {
        0u64
    } else {
        let m = spec_max_height(rows.drop_last());
        if rows.last().1 > m {
            rows.last().1
        } else {
            m
        }
    }
}

/// The greatest height among the labelled table rows.
pub fn max_height(rows: &Vec<(String, u64)>) -> (r: u64)
    ensures
        r == spec_max_height(rows@),
{
    let mut m: u64 = 0;
    let mut i: usize = 0;
    while i < rows.len()
        invariant
            i <= rows@.len(),
            m == spec_max_height(rows@.take(i as int)),
        decreases rows@.len() - i,
    {
        if rows[i].1 > m {
            m = rows[i].1;
        }
        proof {
            assert(rows@.take(i + 1).drop_last() =~= rows@.take(i as int));
        }
        i = i + 1;
    }
    proof {
        assert(rows@.take(rows@.len() as int) =~= rows@);
    }
    m
}

/// The least power of two that is at least the given value (and at least
/// one), whenever that power is representable.
pub fn next_power_of_two(n: u64) -> (r: u64)
    ensures
        n <= 0x8000_0000_0000_0000 ==> {
            &&& is_pow2(r)
            &&& r >= n
            &&& (r == 1 || r / 2 < n)
        },
{
    let mut p: u64 = 1;
    proof {
        assert(1u64 & ((1u64 - 1) as u64) == 0) by (bit_vector);
    }
    while p < n && p <= 0x4000_0000_0000_0000
        invariant
            1 <= p <= 0x8000_0000_0000_0000,
            is_pow2(p),
            p == 1 || p / 2 < n,
        decreases 0x8000_0000_0000_0000 - p,
    {
        proof {
            assert((p * 2) as u64 != 0 && ((p * 2) as u64) & ((p * 2 - 1) as u64) == 0)
                by (bit_vector)
                requires
                    p != 0,
                    p & ((p - 1) as u64) == 0,
                    p <= 0x4000_0000_0000_0000,
            ;
        }
        p = p * 2;
    }
    proof {
        if p < n {
            assert(p == 0x8000_0000_0000_0000) by (bit_vector)
                requires
                    p != 0,
                    p & ((p - 1) as u64) == 0,
                    0x4000_0000_0000_0000 < p <= 0x8000_0000_0000_0000,
            ;
        }
    }
    p
}

/// A run of spaces.
pub open spec fn spaces(n: int) -> Seq<char>
    decreases n,
{
    if n <= 0 {
        Seq::empty()
    } else {
        spaces(n - 1) + seq![' ']
    }
}

/// A run of dashes.
pub open spec fn dashes(n: int) -> Seq<char>
    decreases n,
{
    if n <= 0 {
        Seq::empty()
    } else {
        dashes(n - 1) + seq!['-']
    }
}

/// Right-align text in a column: unchanged when it already fills it.
pub open spec fn pad_left(s: Seq<char>, w: int) -> Seq<char> {
    spaces(w - s.len()) + s
}

/// Left-align text in a column: unchanged when it already fills it.
pub open spec fn pad_right(s: Seq<char>, w: int) -> Seq<char> {
    s + spaces(w - s.len())
}

/// The floor of the base-two logarithm.
pub open spec fn log2_of(n: int) -> int
    decreases n,
{
    if n <= 1 {
        0
    } else {
        1 + log2_of(n / 2)
    }
}

/// One row of the table report: label, height, and whether this table
/// dominates the padded trace length.
pub open spec fn spec_report_row(label: Seq<char>, h: u64, hlen: int, maxh: u64) -> Seq<char> {
    "| "@ + pad_right(label, 9) + " | "@ + pad_left(dec_chars(h as int), hlen) + " | "@ + pad_left(
        if h == maxh {
            "yes"@
        } else {
            "no"@
        },
        9,
    ) + " |\n"@
}

/// The rows of the table report, in order.
pub open spec fn spec_report_rows(rows: Seq<(String, u64)>, hlen: int, maxh: u64) -> Seq<char>
    decreases rows.len(),
{
    if rows.len() == 0 {
        Seq::empty()
    } else {
        spec_report_rows(rows.drop_last(), hlen, maxh) + spec_report_row(
            rows.last().0@,
            rows.last().1,
            hlen,
            maxh,
        )
    }
}

/// The height column width: wide enough for the greatest height and for
/// the column header.
pub open spec fn spec_height_width(maxh: u64) -> int {
    if dec_chars(maxh as int).len() >= 6 {
        dec_chars(maxh as int).len() as int
    } else {
        6
    }
}

/// The whole table report: header, separator, one row per table, and the
/// padded height as a power of two.
pub open spec fn spec_trace_report(rows: Seq<(String, u64)>, padded: u64) -> Seq<char> {
    let maxh = spec_max_height(rows);
    let hlen = spec_height_width(maxh);
    "| Table     | "@ + pad_left("Height"@, hlen) + " | Dominates |\n"@ + "|:----------|-"@
        + dashes(hlen) + ":|----------:|\n"@ + spec_report_rows(rows, hlen, maxh) + "\n"@
        + "Padded height: 2^"@ + dec_chars(log2_of(padded as int)) + "\n"@
}

/// Append a run of spaces.
fn append_spaces(s: &mut String, n: usize)
    ensures
        final(s)@ == old(s)@ + spaces(n as int),
{
    let mut i: usize = 0;
    while i < n
        invariant
            i <= n,
            s@ == old(s)@ + spaces(i as int),
        decreases n - i,
    {
        s.append(" ");
        proof {
            reveal_strlit(" ");
            assert(s@ =~= old(s)@ + spaces(i + 1));
        }
        i = i + 1;
    }
}

/// Append a run of dashes.
fn append_dashes(s: &mut String, n: usize)
    ensures
        final(s)@ == old(s)@ + dashes(n as int),
{
    let mut i: usize = 0;
    while i < n
        invariant
            i <= n,
            s@ == old(s)@ + dashes(i as int),
        decreases n - i,
    {
        s.append("-");
        proof {
            reveal_strlit("-");
            assert(s@ =~= old(s)@ + dashes(i + 1));
        }
        i = i + 1;
    }
}

/// The floor of the base-two logarithm.
pub fn log2(n: u64) -> (r: u64)
    ensures
        r == log2_of(n as int),
{
    let mut k: u64 = 0;
    proof {
        assert(n >> 0u64 == n) by (bit_vector);
    }
    while k < 64 && (n >> k) > 1
        invariant
            k <= 63,
            log2_of(n as int) == k + log2_of((n >> k) as int),
        decreases 64 - k,
    {
        proof {
            assert(k <= 62) by (bit_vector)
                requires
                    (n >> k) > 1,
                    k <= 63,
            ;
            assert(((n >> k) as u64) / 2 == (n >> (k + 1) as u64)) by (bit_vector)
                requires
                    k <= 62,
            ;
        }
        k = k + 1;
    }
    k
}

/// Render the table report of an execution trace: the height of every
/// table, which one dominates, and the padded (power-of-two-rounded)
/// height itself.
#[verifier::rlimit(100)]
pub fn format_trace_report(rows: &Vec<(String, u64)>, padded: u64) -> (r: String)
    ensures
        r@ == spec_trace_report(rows@, padded),
{
    let maxh = max_height(rows);
    let maxh_str = decimal_string(maxh);
    let dw = maxh_str.as_str().unicode_len();
    let hlen: usize = if dw >= 6 {
        dw
    } else {
        6
    };
    proof {
        assert(hlen == spec_height_width(maxh));
    }
    let mut s = String::new();
    s.append("| Table     | ");
    proof {
        reveal_strlit("Height");
    }
    append_spaces(&mut s, if hlen >= 6 {
        hlen - 6
    } else {
        0
    });
    s.append("Height");
    s.append(" | Dominates |\n");
    s.append("|:----------|-");
    append_dashes(&mut s, hlen);
    s.append(":|----------:|\n");
    let ghost header = s@;
    let mut i: usize = 0;
    while i < rows.len()
        invariant
            i <= rows@.len(),
            maxh == spec_max_height(rows@),
            hlen == spec_height_width(maxh),
            s@ == header + spec_report_rows(rows@.take(i as int), hlen as int, maxh),
        decreases rows@.len() - i,
    {
        let ghost before_row = s@;
        let ghost row = spec_report_row(rows@[i as int].0@, rows@[i as int].1, hlen as int, maxh);
        s.append("| ");
        let label = &rows[i].0;
        let label_len = label.as_str().unicode_len();
        s.append(label.as_str());
        append_spaces(&mut s, if label_len < 9 {
            9 - label_len
        } else {
            0
        });
        s.append(" | ");
        let h = rows[i].1;
        let h_str = decimal_string(h);
        let h_len = h_str.as_str().unicode_len();
        append_spaces(&mut s, if h_len < hlen {
            hlen - h_len
        } else {
            0
        });
        s.append(h_str.as_str());
        s.append(" | ");
        proof {
            reveal_strlit("yes");
            reveal_strlit("no");
        }
        if h == maxh {
            append_spaces(&mut s, 6);
            s.append("yes");
        } else {
            append_spaces(&mut s, 7);
            s.append("no");
        }
        s.append(" |\n");
        proof {
            assert(spaces(6) =~= spaces(9 - "yes"@.len()));
            assert(spaces(7) =~= spaces(9 - "no"@.len()));
            assert(s@ =~= before_row + row);
            assert(rows@.take(i + 1).drop_last() =~= rows@.take(i as int));
            assert(rows@.take(i + 1).last() == rows@[i as int]);
            assert(spec_report_rows(rows@.take(i + 1), hlen as int, maxh) == spec_report_rows(
                rows@.take(i as int),
                hlen as int,
                maxh,
            ) + row);
            assert(s@ =~= header + spec_report_rows(rows@.take(i + 1), hlen as int, maxh));
        }
        i = i + 1;
    }
    proof {
        assert(rows@.take(rows@.len() as int) =~= rows@);
    }
    s.append("\n");
    s.append("Padded height: 2^");
    let lg = log2(padded);
    push_decimal(&mut s, lg);
    s.append("\n");
    proof {
        assert(s@ =~= spec_trace_report(rows@, padded));
    }
    s
}

/// Render the public output values as one comma-and-space-joined line.
pub fn render_output_line(vals: &Vec<u64>) -> (r: String)
    ensures
        r@ == joined_line(vals@),
{
    let mut s = String::new();
    let mut i: usize = 0;
    while i < vals.len()
        invariant
            i <= vals@.len(),
            s@ == joined_line(vals@.take(i as int)),
        decreases vals@.len() - i,
    {
        if i > 0 {
            s.append(", ");
            proof {
                reveal_strlit(", ");
            }
        }
        push_decimal(&mut s, vals[i]);
        proof {
            assert(vals@.take(i + 1).drop_last() =~= vals@.take(i as int));
            assert(vals@.take(i + 1).last() == vals@[i as int]);
            if i == 0 {
                assert(s@ =~= joined_line(vals@.take(i + 1)));
            } else {
                assert(", "@ =~= seq![',', ' ']);
                assert(s@ =~= joined_line(vals@.take(i + 1)));
            }
        }
        i = i + 1;
    }
    proof {
        assert(vals@.take(vals@.len() as int) =~= vals@);
    }
    s
}

} // verus!
