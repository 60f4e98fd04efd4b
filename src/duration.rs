//! Rendering of time spans as `h:mm:ss` or `mm:ss`.

use vstd::prelude::*;
use vstd::string::StringExecFns;

verus! {

/// The character of a decimal digit.
pub open spec fn digit_char(d: nat) -> char {
    if d == 0 {
        '0'
    } else if d == 1 {
        '1'
    } else if d == 2 {
        '2'
    } else if d == 3 {
        '3'
    } else if d == 4 {
        '4'
    } else if d == 5 {
        '5'
    } else if d == 6 {
        '6'
    } else if d == 7 {
        '7'
    } else if d == 8 {
        '8'
    } else {
        '9'
    }
}

/// The decimal notation of `n`, without leading zeros.
pub open spec fn decimal(n: nat) -> Seq<char>
    decreases n,
{
    if n < 10 {
        seq![digit_char(n)]
    } else {
        decimal(n / 10).push(digit_char(n % 10))
    }
}

/// `n` (below 100) on exactly two digits, zero-padded.
pub open spec fn two_digits(n: nat) -> Seq<char> {
    seq![digit_char(n / 10), digit_char(n % 10)]
}

/// The rendering of a span of `millis` milliseconds: whole seconds only,
/// hours shown only when there is at least one.
pub open spec fn duration_text(millis: nat) -> Seq<char> {
    let total = millis / 1000;
    let hours = total / 3600;
    let minutes = total / 60 % 60;
    let seconds = total % 60;
    if hours > 0 {
        decimal(hours) + seq![':'] + two_digits(minutes) + seq![':'] + two_digits(seconds)
    } else {
        two_digits(minutes) + seq![':'] + two_digits(seconds)
    }
}

/// Minutes and seconds always take two digits each: a span under an hour
/// reads `mm:ss`, and a longer one `h:mm:ss` with at least one hour digit.
pub proof fn lemma_fixed_width_fields(millis: nat)
    ensures
        millis < 3_600_000 ==> duration_text(millis).len() == 5,
        millis >= 3_600_000 ==> duration_text(millis).len() >= 7,
        duration_text(millis)[duration_text(millis).len() - 3] == ':',
{
    let total = millis / 1000;
    if total / 3600 > 0 {
        assert(decimal(total / 3600).len() >= 1);
    }
}

fn digit_str(d: u64) -> (r: &'static str)
    requires
        d < 10,
    ensures
        r@ == seq![digit_char(d as nat)],
{
    proof {
        reveal_strlit("0");
        reveal_strlit("1");
        reveal_strlit("2");
        reveal_strlit("3");
        reveal_strlit("4");
        reveal_strlit("5");
        reveal_strlit("6");
        reveal_strlit("7");
        reveal_strlit("8");
        reveal_strlit("9");
    }
    if d == 0 {
        "0"
    } else if d == 1 {
        "1"
    } else if d == 2 {
        "2"
    } else if d == 3 {
        "3"
    } else if d == 4 {
        "4"
    } else if d == 5 {
        "5"
    } else if d == 6 {
        "6"
    } else if d == 7 {
        "7"
    } else if d == 8 {
        "8"
    } else {
        "9"
    }
}

/// Appends the decimal notation of `n` to `out`.
pub fn push_decimal(out: &mut String, n: u64)
    ensures
        final(out)@ == old(out)@ + decimal(n as nat),
    decreases n,
{
    if n >= 10 {
        push_decimal(out, n / 10);
        out.append(digit_str(n % 10));
        assert(final(out)@ =~= old(out)@ + decimal(n as nat));
    } else {
        out.append(digit_str(n));
    }
}

fn push_two_digits(out: &mut String, n: u64)
    requires
        n < 100,
    ensures
        final(out)@ == old(out)@ + two_digits(n as nat),
{
    out.append(digit_str(n / 10));
    out.append(digit_str(n % 10));
    assert(final(out)@ =~= old(out)@ + two_digits(n as nat));
}

/// Renders a span of `millis` milliseconds as `h:mm:ss`, or as `mm:ss` when
/// it is shorter than an hour. Fractions of a second are dropped.
pub fn display_duration(millis: u64) -> (r: String)
    ensures
        r@ == duration_text(millis as nat),
{
    let total = millis / 1000;
    let hours = total / 3600;
    let minutes = total / 60 % 60;
    let seconds = total % 60;
    let mut out = String::new();
    if hours > 0 {
        push_decimal(&mut out, hours);
        out.append(":");
    }
    push_two_digits(&mut out, minutes);
    out.append(":");
    push_two_digits(&mut out, seconds);
    proof {
        reveal_strlit(":");
    }
    assert(out@ =~= duration_text(millis as nat));
    out
}

/// A signed span in milliseconds made fit for display: a negative span,
/// which can only come of bad data, counts as zero.
pub fn clamp_millis(millis: i64) -> (r: u64)
    ensures
        r == if millis < 0 { 0 } else { millis as nat },
{
    if millis < 0 {
        0
    } else {
        millis as u64
    }
}

} // verus!
