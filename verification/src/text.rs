//! Rendering of numbers as text.
//!
//! Every page and report is assembled by appending to a `String`; the functions
//! here append numbers, and say exactly which characters they append.

use vstd::prelude::*;
use vstd::std_specs::iter::IteratorSpec;
use vstd::string::StringExecFns;

verus! {

/// The character that stands for a digit below sixteen, lower case above nine.
pub open spec fn digit_char(d: nat) -> char {
    if d == 0 {
        '0'
    } else if d == 1 {
        '1'
    } else if d == 2 {
        '2'
    } else if d == 3 {
        '3'
    } else if d == 4 {
        '4'
    } else if d == 5 {
        '5'
    } else if d == 6 {
        '6'
    } else if d == 7 {
        '7'
    } else if d == 8 {
        '8'
    } else if d == 9 {
        '9'
    } else if d == 10 {
        'a'
    } else if d == 11 {
        'b'
    } else if d == 12 {
        'c'
    } else if d == 13 {
        'd'
    } else if d == 14 {
        'e'
    } else {
        'f'
    }
}

/// `n` in decimal, most significant digit first, without leading zeros; zero
/// is the single digit `0`.
pub open spec fn decimal_text(n: nat) -> Seq<char>
    decreases n,
{
    if n < 10 {
        seq![digit_char(n)]
    } else {
        decimal_text(n / 10).push(digit_char(n % 10))
    }
}

/// `n` in lower-case hexadecimal, without leading zeros.
pub open spec fn hex_text(n: nat) -> Seq<char>
    decreases n,
{
    if n < 16 {
        seq![digit_char(n)]
    } else {
        hex_text(n / 16).push(digit_char(n % 16))
    }
}

/// A count of tenths written with one decimal place: 805 reads `80.5`.
pub open spec fn tenths_text(tenths: nat) -> Seq<char> {
    decimal_text(tenths / 10) + seq!['.'] + decimal_text(tenths % 10)
}

/// A count of hundredths written with two decimal places: 6667 reads `66.67`.
pub open spec fn hundredths_text(hundredths: nat) -> Seq<char> {
    decimal_text(hundredths / 100) + seq!['.'] + decimal_text((hundredths % 100) / 10)
        + decimal_text(hundredths % 10)
}

/// `value` divided by `unit`, rounded to the nearest whole number, halves upward.
pub open spec fn rounded_div(value: nat, unit: nat) -> nat
    recommends
        unit > 0,
{
    (value + unit / 2) / unit
}

fn digit_str(d: u64) -> (s: &'static str)
    requires
        d < 16,
    ensures
        s@ == seq![digit_char(d as nat)],
{
    proof {
        reveal_strlit("0");
        reveal_strlit("1");
        reveal_strlit("2");
        reveal_strlit("3");
        reveal_strlit("4");
        reveal_strlit("5");
        reveal_strlit("6");
        reveal_strlit("7");
        reveal_strlit("8");
        reveal_strlit("9");
        reveal_strlit("a");
        reveal_strlit("b");
        reveal_strlit("c");
        reveal_strlit("d");
        reveal_strlit("e");
        reveal_strlit("f");
    }
    let s = match d {
        0 => "0",
        1 => "1",
        2 => "2",
        3 => "3",
        4 => "4",
        5 => "5",
        6 => "6",
        7 => "7",
        8 => "8",
        9 => "9",
        10 => "a",
        11 => "b",
        12 => "c",
        13 => "d",
        14 => "e",
        _ => "f",
    };
    assert(s@ =~= seq![digit_char(d as nat)]);
    s
}

/// Appends `n` in decimal.
pub fn push_decimal(out: &mut String, n: u64)
    ensures
        final(out)@ == old(out)@ + decimal_text(n as nat),
    decreases n,
{
    if n >= 10 {
        push_decimal(out, n / 10);
    }
    out.append(digit_str(n % 10));
    proof {
        let last = digit_char((n % 10) as nat);
        if n >= 10 {
            let head = decimal_text((n / 10) as nat);
            assert((old(out)@ + head) + seq![last] =~= old(out)@ + head.push(last));
        }
    }
}

/// Appends `n` in lower-case hexadecimal.
pub fn push_hex(out: &mut String, n: u64)
    ensures
        final(out)@ == old(out)@ + hex_text(n as nat),
    decreases n,
{
    if n >= 16 {
        push_hex(out, n / 16);
    }
    out.append(digit_str(n % 16));
    proof {
        let last = digit_char((n % 16) as nat);
        if n >= 16 {
            let head = hex_text((n / 16) as nat);
            assert((old(out)@ + head) + seq![last] =~= old(out)@ + head.push(last));
        }
    }
}

/// Appends a count of tenths with one decimal place.
pub fn push_tenths(out: &mut String, tenths: u64)
    ensures
        final(out)@ == old(out)@ + tenths_text(tenths as nat),
{
    let ghost before = out@;
    push_decimal(out, tenths / 10);
    out.append(".");
    push_decimal(out, tenths % 10);
    proof {
        reveal_strlit(".");
        assert("."@ =~= seq!['.']);
        assert(out@ =~= before + tenths_text(tenths as nat));
    }
}

/// Appends a count of hundredths with two decimal places.
pub fn push_hundredths(out: &mut String, hundredths: u64)
    ensures
        final(out)@ == old(out)@ + hundredths_text(hundredths as nat),
{
    let ghost before = out@;
    push_decimal(out, hundredths / 100);
    out.append(".");
    push_decimal(out, (hundredths % 100) / 10);
    push_decimal(out, hundredths % 10);
    proof {
        reveal_strlit(".");
        assert("."@ =~= seq!['.']);
        assert(out@ =~= before + hundredths_text(hundredths as nat));
    }
}

/// `n` in decimal, as a string of its own.
pub fn decimal(n: u64) -> (s: String)
    ensures
        s@ == decimal_text(n as nat),
{
    let mut s = String::new();
    push_decimal(&mut s, n);
    assert(s@ =~= decimal_text(n as nat));
    s
}

/// `value / unit` rounded to the nearest whole number, halves upward.
pub fn round_div(value: u64, unit: u64) -> (q: u64)
    requires
        unit > 0,
    ensures
        q == rounded_div(value as nat, unit as nat),
{
    let half: u64 = unit / 2;
    let whole: u64 = value / unit;
    let rest: u64 = value % unit;
    assert((value + half) / (unit as int) == whole + (rest
        + half) / (unit as int)) by (nonlinear_arith)
        requires
            unit > 0,
            whole == value / unit,
            rest == value % unit,
    ;
    assert(rest + half < 2 * unit);
    if rest >= unit - half {
        assert((rest + half) / (unit as int) == 1) by (nonlinear_arith)
            requires
                unit <= rest + half < 2 * unit,
        ;
        assert(whole < u64::MAX) by (nonlinear_arith)
            requires
                unit >= 1,
                whole == value / unit,
                rest == value % unit,
                rest >= unit - half,
                half == unit / 2,
                value <= u64::MAX,
        ;
        whole + 1
    } else {
        assert((rest + half) / (unit as int) == 0) by (nonlinear_arith)
            requires
                0 <= rest + half < unit,
        ;
        whole
    }
}

/// The thousandths of a second, as they stand behind the decimal point:
/// three digits, without the zeros at the end.
pub open spec fn thousandths_text(rem: nat) -> Seq<char>
    recommends
        0 < rem < 1000,
{
    if rem % 10 != 0 {
        decimal_text(rem / 100) + decimal_text(rem / 10 % 10) + decimal_text(rem % 10)
    } else if rem / 10 % 10 != 0 {
        decimal_text(rem / 100) + decimal_text(rem / 10 % 10)
    } else {
        decimal_text(rem / 100)
    }
}

/// A duration of whole milliseconds in words of one unit: in seconds from a
/// second on, with as many decimals as it takes and no more; in
/// milliseconds below a second; and `0ns` for no time at all.
pub open spec fn duration_text(ms: nat) -> Seq<char> {
    if ms == 0 {
        "0ns"@
    } else if ms < 1000 {
        decimal_text(ms) + "ms"@
    } else if ms % 1000 == 0 {
        decimal_text(ms / 1000) + "s"@
    } else {
        decimal_text(ms / 1000) + "."@ + thousandths_text(ms % 1000) + "s"@
    }
}

fn thousandths(rem: u64) -> (text: String)
    requires
        0 < rem < 1000,
    ensures
        text@ == thousandths_text(rem as nat),
{
    let mut text = decimal(rem / 100);
    if rem % 10 != 0 {
        push_decimal(&mut text, rem / 10 % 10);
        push_decimal(&mut text, rem % 10);
    } else if rem / 10 % 10 != 0 {
        push_decimal(&mut text, rem / 10 % 10);
    }
    text
}

/// A duration of whole milliseconds in words of one unit.
pub fn duration_string(ms: u64) -> (text: String)
    ensures
        text@ == duration_text(ms as nat),
{
    if ms == 0 {
        String::from_str("0ns")
    } else if ms < 1000 {
        let mut text = decimal(ms);
        text.append("ms");
        text
    } else if ms % 1000 == 0 {
        let mut text = decimal(ms / 1000);
        text.append("s");
        text
    } else {
        let mut text = decimal(ms / 1000);
        text.append(".");
        let fraction = thousandths(ms % 1000);
        text.append(fraction.as_str());
        text.append("s");
        text
    }
}

/// Whether one text comes before another: at the first place where they
/// differ the character of lower number decides, and where one ends
/// before they differ, the shorter comes first.
pub open spec fn text_lt(a: Seq<char>, b: Seq<char>) -> bool
    decreases a.len(),
{
    if b.len() == 0 {
        false
    } else if a.len() == 0 {
        true
    } else if a[0] != b[0] {
        (a[0] as int) < (b[0] as int)
    } else {
        text_lt(a.drop_first(), b.drop_first())
    }
}

/// Whether one text comes before another.
pub fn comes_before(a: &str, b: &str) -> (before: bool)
    ensures
        before == text_lt(a@, b@),
{
    broadcast use vstd::string::group_string_axioms;

    let n = a.unicode_len();
    let mut seen: usize = 0;
    let mut xs = a.chars();
    let mut ys = b.chars();
    loop
        invariant
            seen + xs.remaining().len() == n,
            text_lt(a@, b@) == text_lt(xs.remaining(), ys.remaining()),
        decreases n - seen,
    {
        let y = ys.next();
        let x = xs.next();
        match (x, y) {
            (_, None) => {
                return false;
            },
            (None, Some(_)) => {
                return true;
            },
            (Some(c), Some(d)) => {
                if c != d {
                    return c < d;
                }
                seen += 1;
            },
        }
    }
}

/// No text comes before itself, and of two texts at most one comes
/// before the other.
pub proof fn lemma_text_order_strict(a: Seq<char>, b: Seq<char>)
    ensures
        !(text_lt(a, b) && text_lt(b, a)),
        a == b ==> !text_lt(a, b),
    decreases a.len(),
{
    if a.len() > 0 && b.len() > 0 && a[0] == b[0] {
        lemma_text_order_strict(a.drop_first(), b.drop_first());
        if a == b {
            assert(a.drop_first() == b.drop_first());
        }
    }
}

/// Of two texts that differ, one comes before the other.
pub proof fn lemma_text_order_total(a: Seq<char>, b: Seq<char>)
    ensures
        text_lt(a, b) || text_lt(b, a) || a == b,
    decreases a.len(),
{
    if a.len() > 0 && b.len() > 0 && a[0] == b[0] {
        lemma_text_order_total(a.drop_first(), b.drop_first());
        if a.drop_first() == b.drop_first() {
            assert(a =~= seq![a[0]] + a.drop_first());
            assert(b =~= seq![b[0]] + b.drop_first());
        }
    } else if a.len() == 0 && b.len() == 0 {
        assert(a =~= b);
    }
}

/// What comes before something that comes before a third comes before
/// the third.
pub proof fn lemma_text_order_chain(a: Seq<char>, b: Seq<char>, c: Seq<char>)
    requires
        text_lt(a, b),
        text_lt(b, c),
    ensures
        text_lt(a, c),
    decreases a.len(),
{
    if a.len() > 0 && b.len() > 0 && c.len() > 0 {
        if a[0] == b[0] && b[0] == c[0] {
            lemma_text_order_chain(a.drop_first(), b.drop_first(), c.drop_first());
        }
    }
}

/// What comes before something comes before whatever does not come
/// before that.
pub proof fn lemma_text_order_transitive(a: Seq<char>, b: Seq<char>, c: Seq<char>)
    requires
        text_lt(a, b),
        !text_lt(c, b),
    ensures
        text_lt(a, c),
{
    lemma_text_order_total(b, c);
    if text_lt(b, c) {
        lemma_text_order_chain(a, b, c);
    }
}

} // verus!
