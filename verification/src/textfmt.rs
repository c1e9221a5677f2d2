//! Text shaping for the interface: the `m:ss` time display, name truncation
//! with an ellipsis, and resampling the 32 spectrum bars onto however many
//! columns the terminal offers.

use vstd::prelude::*;

use vstd::arithmetic::div_mod::lemma_multiply_divide_lt;
use vstd::arithmetic::mul::lemma_mul_inequality;

verus! {

broadcast use vstd::string::axiom_spec_iter;

/// The character for one decimal digit.
pub open spec fn digit_char(d: int) -> char {
    if d == 0 {
        '0'
    } else if d == 1 {
        '1'
    } else if d == 2 {
        '2'
    } else if d == 3 {
        '3'
    } else if d == 4 {
        '4'
    } else if d == 5 {
        '5'
    } else if d == 6 {
        '6'
    } else if d == 7 {
        '7'
    } else if d == 8 {
        '8'
    } else {
        '9'
    }
}

/// The decimal digits of `n`, most significant first.
pub open spec fn dec_digits(n: int) -> Seq<char>
    decreases n,
{
    if n < 10 {
        seq![digit_char(n)]
    } else {
        dec_digits(n / 10) + seq![digit_char(n % 10)]
    }
}

/// `m:ss` — whole minutes, a colon, leftover seconds padded to two digits.
pub open spec fn duration_text(total_secs: int) -> Seq<char> {
    dec_digits(total_secs / 60) + seq![':'] + seq![
        digit_char((total_secs % 60) / 10),
        digit_char((total_secs % 60) % 10),
    ]
}

/// A name at most `max_chars` characters wide: left whole when it fits,
/// otherwise cut one short and finished with an ellipsis.
pub open spec fn truncated_name(s: Seq<char>, max_chars: int) -> Seq<char> {
    if s.len() <= max_chars {
        s
    } else {
        s.take(
            if max_chars > 0 {
                max_chars - 1
            } else {
                0
            },
        ) + seq!['…']
    }
}

/// Relies on String::push: appends exactly one character.
#[verifier::external_body]
fn push_char(s: &mut String, c: char)
    ensures
        final(s)@ == old(s)@.push(c),
{
    s.push(c);
}

/// The character for one decimal digit, as executable code.
fn digit_char_at(d: u64) -> (c: char)
    requires
        d < 10,
    ensures
        c == digit_char(d as int),
{
    match d {
        0 => '0',
        1 => '1',
        2 => '2',
        3 => '3',
        4 => '4',
        5 => '5',
        6 => '6',
        7 => '7',
        8 => '8',
        _ => '9',
    }
}

/// Append the decimal digits of `n`, most significant first.
fn push_decimal(s: &mut String, n: u64)
    ensures
        final(s)@ == old(s)@ + dec_digits(n as int),
    decreases n,
{
    if n < 10 {
        push_char(s, digit_char_at(n));
        assert(s@ =~= old(s)@ + dec_digits(n as int));
    } else {
        push_decimal(s, n / 10);
        push_char(s, digit_char_at(n % 10));
        assert(s@ =~= old(s)@ + dec_digits(n as int));
    }
}

/// A playback time as the interface shows it: `m:ss`.
pub fn format_duration(total_secs: u64) -> (r: String)
    ensures
        r@ == duration_text(total_secs as int),
{
    let mins = total_secs / 60;
    let secs = total_secs % 60;
    let mut out = String::new();
    push_decimal(&mut out, mins);
    push_char(&mut out, ':');
    push_char(&mut out, digit_char_at(secs / 10));
    push_char(&mut out, digit_char_at(secs % 10));
    assert(out@ =~= duration_text(total_secs as int));
    out
}

/// A song name cut to at most `max_chars` characters, a cut marked with an
/// ellipsis in the last spot.
pub fn truncate_name(s: &str, max_chars: usize) -> (r: String)
    ensures
        r@ == truncated_name(s@, max_chars as int),
{
    let mut chars: Vec<char> = Vec::new();
    for c in it: s.chars()
        invariant
            chars@ =~= it.seq().take(it.index() as int),
    {
        chars.push(c);
    }
    assert(chars@ =~= s@);
    if chars.len() <= max_chars {
        let r = s.to_owned();
        return r;
    }
    let keep: usize = if max_chars > 0 {
        max_chars - 1
    } else {
        0
    };
    let mut out = String::new();
    for i in 0..keep
        invariant
            keep < chars@.len(),
            chars@ =~= s@,
            out@ =~= s@.take(i as int),
    {
        push_char(&mut out, chars[i]);
        assert(out@ =~= s@.take(i + 1));
    }
    push_char(&mut out, '…');
    assert(out@ =~= truncated_name(s@, max_chars as int));
    out
}

/// The sum of a run of bar heights.
pub open spec fn seq_sum(s: Seq<u64>) -> int
    decreases s.len(),
{
    if s.len() == 0 {
        0
    } else {
        seq_sum(s.drop_last()) + s.last()
    }
}

/// The bin range of `data` that resampled column `i` of `target` covers.
pub open spec fn resample_lo(len: int, target: int, i: int) -> int {
    i * len / target
}

pub open spec fn resample_hi(len: int, target: int, i: int) -> int {
    let lo = resample_lo(len, target, i);
    let raw = (i + 1) * len / target;
    if raw < lo + 1 {
        lo + 1
    } else if raw > len {
        len
    } else {
        raw
    }
}

/// Resample spectrum bars onto `target_len` columns: with room to spare the
/// bars pass through (padded with silent columns); squeezed, each column
/// averages its own contiguous run of bars.
pub fn resample_spectrum(data: &Vec<u64>, target_len: usize) -> (r: Vec<u64>)
    requires
        forall|i: int| 0 <= i < data@.len() ==> (#[trigger] data@[i]) <= 100,
        data@.len() * target_len as int <= usize::MAX as int,
        100 * data@.len() <= u64::MAX as int,
    ensures
        r@.len() == target_len,
        data@.len() == 0 ==> forall|i: int| 0 <= i < target_len ==> (#[trigger] r@[i]) == 0,
        data@.len() > 0 && target_len >= data@.len() ==> (forall|i: int|
            0 <= i < data@.len() ==> (#[trigger] r@[i]) == data@[i]) && (forall|i: int|
            data@.len() <= i < target_len ==> (#[trigger] r@[i]) == 0),
        0 < target_len < data@.len() ==> forall|i: int|
            0 <= i < target_len ==> (#[trigger] r@[i]) as int == seq_sum(
                data@.subrange(
                    resample_lo(data@.len() as int, target_len as int, i),
                    resample_hi(data@.len() as int, target_len as int, i),
                ),
            ) / (resample_hi(data@.len() as int, target_len as int, i) - resample_lo(
                data@.len() as int,
                target_len as int,
                i,
            )),
{
    let len = data.len();
    if target_len == 0 {
        return Vec::new();
    }
    if len == 0 {
        let zeros = vec![0u64; target_len];
        return zeros;
    }
    if target_len >= len {
        let mut out: Vec<u64> = Vec::new();
        for i in 0..len
            invariant
                len == data@.len(),
                out@.len() == i as int,
                forall|j: int| 0 <= j < i as int ==> (#[trigger] out@[j]) == data@[j],
        {
            out.push(data[i]);
        }
        for i in len..target_len
            invariant
                len == data@.len(),
                out@.len() == i as int,
                forall|j: int| 0 <= j < len as int ==> (#[trigger] out@[j]) == data@[j],
                forall|j: int| len as int <= j < i as int ==> (#[trigger] out@[j]) == 0,
        {
            out.push(0);
        }
        return out;
    }
    let mut out: Vec<u64> = Vec::new();
    for i in 0..target_len
        invariant
            len == data@.len(),
            0 < target_len < len,
            len as int * target_len as int <= usize::MAX as int,
            100 * len as int <= u64::MAX as int,
            forall|j: int| 0 <= j < data@.len() ==> (#[trigger] data@[j]) <= 100,
            out@.len() == i as int,
            forall|j: int|
                0 <= j < i as int ==> (#[trigger] out@[j]) as int == seq_sum(
                    data@.subrange(
                        resample_lo(len as int, target_len as int, j),
                        resample_hi(len as int, target_len as int, j),
                    ),
                ) / (resample_hi(len as int, target_len as int, j) - resample_lo(
                    len as int,
                    target_len as int,
                    j,
                )),
    {
        proof {
            let t = target_len as int;
            let l = len as int;
            lemma_mul_inequality(i as int, t - 1, l);
            lemma_mul_inequality(i as int + 1, t, l);
            assert((t - 1) * l + l == t * l) by (nonlinear_arith);
            assert(l * t == t * l) by (nonlinear_arith);
            lemma_multiply_divide_lt(i as int * l, t, l);
        }
        let lo = i * len / target_len;
        assert(lo as int == resample_lo(len as int, target_len as int, i as int));
        assert(lo < len);
        let raw = (i + 1) * len / target_len;
        let hi = if raw < lo + 1 {
            lo + 1
        } else if raw > len {
            len
        } else {
            raw
        };
        assert(hi as int == resample_hi(len as int, target_len as int, i as int));
        assert(lo < hi <= len);
        let mut sum: u64 = 0;
        for k in iter: lo..hi
            invariant
                len == data@.len(),
                lo < hi <= len,
                100 * len as int <= u64::MAX as int,
                forall|j: int| 0 <= j < data@.len() ==> (#[trigger] data@[j]) <= 100,
                sum as int == seq_sum(data@.subrange(lo as int, k as int)),
                sum as int <= 100 * (k as int - lo as int),
        {
            assert(data@.subrange(lo as int, k as int + 1).drop_last() =~= data@.subrange(
                lo as int,
                k as int,
            ));
            sum = sum + data[k];
        }
        out.push(sum / ((hi - lo) as u64));
    }
    out
}

} // verus!
