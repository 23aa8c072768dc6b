use vstd::prelude::*;

verus! {

/// The decimal digit `d` as a character.
pub open spec fn digit_char(d: nat) -> char {
    if d == 0 {
        '0'
    } else if d == 1 {
        '1'
    } else if d == 2 {
        '2'
    } else if d == 3 {
        '3'
    } else if d == 4 {
        '4'
    } else if d == 5 {
        '5'
    } else if d == 6 {
        '6'
    } else if d == 7 {
        '7'
    } else if d == 8 {
        '8'
    } else {
        '9'
    }
}

/// The decimal notation of `n`, without leading zeros.
pub open spec fn decimal(n: nat) -> Seq<char>
    decreases n,
{
    if n < 10 {
        seq![digit_char(n)]
    } else {
        decimal(n / 10).push(digit_char(n % 10))
    }
}

/// `"{s}s"`
pub open spec fn seconds_text(s: nat) -> Seq<char> {
    decimal(s).push('s')
}

/// `"{m}m {s}s"`
pub open spec fn minutes_text(m: nat, s: nat) -> Seq<char> {
    decimal(m) + seq!['m', ' '] + seconds_text(s)
}

/// `"{h}h {m}m {s}s"`
pub open spec fn hours_text(h: nat, m: nat, s: nat) -> Seq<char> {
    decimal(h) + seq!['h', ' '] + minutes_text(m, s)
}

/// `"{d}d {h}h {m}m {s}s"`
pub open spec fn days_text(d: nat, h: nat, m: nat, s: nat) -> Seq<char> {
    decimal(d) + seq!['d', ' '] + hours_text(h, m, s)
}

/// The text of a span of `secs` whole seconds: the units from the largest
/// non-zero one down to seconds.
pub open spec fn duration_text(secs: nat) -> Seq<char> {
    let d = secs / 86400;
    let h = (secs % 86400) / 3600;
    let m = (secs % 3600) / 60;
    let s = secs % 60;
    if d > 0 {
        days_text(d, h, m, s)
    } else if h > 0 {
        hours_text(h, m, s)
    } else if m > 0 {
        minutes_text(m, s)
    } else {
        seconds_text(s)
    }
}

fn digit_str(d: u64) -> (r: &'static str)
    requires
        d < 10,
    ensures
        r@ == seq![digit_char(d as nat)],
{
    proof {
        reveal_strlit("0");
        reveal_strlit("1");
        reveal_strlit("2");
        reveal_strlit("3");
        reveal_strlit("4");
        reveal_strlit("5");
        reveal_strlit("6");
        reveal_strlit("7");
        reveal_strlit("8");
        reveal_strlit("9");
    }
    match d {
        0 => "0",
        1 => "1",
        2 => "2",
        3 => "3",
        4 => "4",
        5 => "5",
        6 => "6",
        7 => "7",
        8 => "8",
        _ => "9",
    }
}

/// Appends the decimal notation of `n` to `out`.
pub fn push_decimal(out: &mut String, n: u64)
    ensures
        final(out)@ == old(out)@ + decimal(n as nat),
    decreases n,
{
    if n >= 10 {
        push_decimal(out, n / 10);
    }
    out.append(digit_str(n % 10));
    proof {
        if n >= 10 {
            assert(decimal(n as nat) == decimal((n / 10) as nat).push(digit_char((n % 10) as nat)));
        }
    }
}

/// Renders a span of `secs` whole seconds as `"{d}d {h}h {m}m {s}s"`, leaving
/// out the leading units that are zero: `0` gives `"0s"`, `65` gives
/// `"1m 5s"`, `3661` gives `"1h 1m 1s"`.
pub fn format_duration(secs: u64) -> (r: String)
    ensures
        r@ == duration_text(secs as nat),
{
    let days: u64 = secs / 86400;
    let hours: u64 = (secs % 86400) / 3600;
    let minutes: u64 = (secs % 3600) / 60;
    let seconds: u64 = secs % 60;
    let mut out = String::new();
    if days > 0 {
        push_decimal(&mut out, days);
        out.append("d ");
    }
    if days > 0 || hours > 0 {
        push_decimal(&mut out, hours);
        out.append("h ");
    }
    if days > 0 || hours > 0 || minutes > 0 {
        push_decimal(&mut out, minutes);
        out.append("m ");
    }
    push_decimal(&mut out, seconds);
    out.append("s");
    proof {
        reveal_strlit("d ");
        reveal_strlit("h ");
        reveal_strlit("m ");
        reveal_strlit("s");
        assert(out@ =~= duration_text(secs as nat));
    }
    out
}

/// Exactly one of the four shapes is produced, chosen by the size of the span
/// alone, and each shape carries every unit below its largest one: under a
/// minute only seconds, under an hour minutes and seconds, under a day hours,
/// minutes and seconds, and from a day on all four.
pub proof fn lemma_duration_shape(secs: nat)
    ensures
        secs < 60 ==> duration_text(secs) == seconds_text(secs),
        60 <= secs < 3600 ==> duration_text(secs) == minutes_text(secs / 60, secs % 60),
        3600 <= secs < 86400 ==> duration_text(secs) == hours_text(
            secs / 3600,
            (secs % 3600) / 60,
            secs % 60,
        ),
        86400 <= secs ==> duration_text(secs) == days_text(
            secs / 86400,
            (secs % 86400) / 3600,
            (secs % 3600) / 60,
            secs % 60,
        ),
{
    if secs < 86400 {
        assert(secs / 86400 == 0);
        assert(secs % 86400 == secs);
        if secs < 3600 {
            assert(secs / 3600 == 0);
            assert(secs % 3600 == secs);
            if secs < 60 {
                assert(secs / 60 == 0);
                assert(secs % 60 == secs);
            } else {
                assert(secs / 60 > 0);
            }
        } else {
            assert(secs / 3600 > 0);
        }
    } else {
        assert(secs / 86400 > 0);
    }
}

} // verus!
