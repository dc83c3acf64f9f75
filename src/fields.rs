use vstd::prelude::*;

verus! {

/// The character of a decimal digit.
pub open spec fn digit_char(d: nat) -> char {
    if d == 0 { '0' } else if d == 1 { '1' } else if d == 2 { '2' } else if d == 3 { '3' }
    else if d == 4 { '4' } else if d == 5 { '5' } else if d == 6 { '6' } else if d == 7 { '7' }
    else if d == 8 { '8' } else { '9' }
}

/// The decimal writing of `n`, without leading zeros.
pub open spec fn decimal_text(n: nat) -> Seq<char>
    decreases n,
{
    if n < 10 {
        seq![digit_char(n)]
    } else {
        decimal_text(n / 10).push(digit_char(n % 10))
    }
}

fn digit_str(d: u64) -> (r: &'static str)
    requires
        d < 10,
    ensures
        r@ == seq![digit_char(d as nat)],
{
    if d == 0 { proof { reveal_strlit("0"); } "0" }
    else if d == 1 { proof { reveal_strlit("1"); } "1" }
    else if d == 2 { proof { reveal_strlit("2"); } "2" }
    else if d == 3 { proof { reveal_strlit("3"); } "3" }
    else if d == 4 { proof { reveal_strlit("4"); } "4" }
    else if d == 5 { proof { reveal_strlit("5"); } "5" }
    else if d == 6 { proof { reveal_strlit("6"); } "6" }
    else if d == 7 { proof { reveal_strlit("7"); } "7" }
    else if d == 8 { proof { reveal_strlit("8"); } "8" }
    else { proof { reveal_strlit("9"); } "9" }
}

/// Appends the decimal writing of `n` to `out`.
pub fn push_decimal(out: &mut String, n: u64)
    ensures
        final(out)@ == old(out)@ + decimal_text(n as nat),
    decreases n,
{
    if n >= 10 {
        push_decimal(out, n / 10);
    }
    out.append(digit_str(n % 10));
    assert(decimal_text(n as nat) =~= if n < 10 { seq![digit_char(n as nat)] } else {
        decimal_text((n / 10) as nat).push(digit_char((n % 10) as nat))
    });
}

/// A count below one hundred written with two digits.
pub open spec fn pad2_text(n: nat) -> Seq<char> {
    if n < 10 {
        seq!['0'] + decimal_text(n)
    } else {
        decimal_text(n)
    }
}

/// A duration of `d` whole seconds as `minutes:seconds`, seconds on two digits.
pub open spec fn duration_text(d: nat) -> Seq<char> {
    decimal_text(d / 60) + seq![':'] + pad2_text(d % 60)
}

/// Writes a duration of `secs` whole seconds as `minutes:seconds`.
pub fn format_duration(secs: u64) -> (r: String)
    ensures
        r@ == duration_text(secs as nat),
{
    let mut out = String::new();
    push_decimal(&mut out, secs / 60);
    out.append(":");
    let s = secs % 60;
    if s < 10 {
        out.append("0");
    }
    push_decimal(&mut out, s);
    proof {
        reveal_strlit(":");
        reveal_strlit("0");
        assert(out@ =~= duration_text(secs as nat));
    }
    out
}

/// The text of an optional duration: empty when it is absent.
pub open spec fn optional_duration_text(d: Option<u64>) -> Seq<char> {
    match d {
        Some(secs) => duration_text(secs as nat),
        None => Seq::empty(),
    }
}

/// Writes an optional duration; nothing when it is absent.
pub fn format_optional_duration(d: Option<u64>) -> (r: String)
    ensures
        r@ == optional_duration_text(d),
{
    match d {
        Some(secs) => format_duration(secs),
        None => String::new(),
    }
}

/// The letter shown for a set flag, nothing for a cleared one.
pub open spec fn flag_text(on: bool, letter: char) -> Seq<char> {
    if on {
        seq![letter]
    } else {
        Seq::empty()
    }
}

/// The four flag letters in their fixed order: repeat, random, single, consume.
pub open spec fn flags_text(repeat: bool, random: bool, single: bool, consume: bool) -> Seq<char> {
    flag_text(repeat, 'R') + flag_text(random, 'Z') + flag_text(single, 'S') + flag_text(consume, 'C')
}

/// The repeat flag: `R` when set.
pub fn repeat_flag(on: bool) -> (r: String)
    ensures
        r@ == flag_text(on, 'R'),
{
    if on {
        proof { reveal_strlit("R"); }
        String::from_str("R")
    } else {
        String::new()
    }
}

/// The random flag: `Z` when set.
pub fn random_flag(on: bool) -> (r: String)
    ensures
        r@ == flag_text(on, 'Z'),
{
    if on {
        proof { reveal_strlit("Z"); }
        String::from_str("Z")
    } else {
        String::new()
    }
}

/// The single flag: `S` when set.
pub fn single_flag(on: bool) -> (r: String)
    ensures
        r@ == flag_text(on, 'S'),
{
    if on {
        proof { reveal_strlit("S"); }
        String::from_str("S")
    } else {
        String::new()
    }
}

/// The consume flag: `C` when set.
pub fn consume_flag(on: bool) -> (r: String)
    ensures
        r@ == flag_text(on, 'C'),
{
    if on {
        proof { reveal_strlit("C"); }
        String::from_str("C")
    } else {
        String::new()
    }
}

/// All four flag letters, each present exactly when its flag is set.
pub fn flags(repeat: bool, random: bool, single: bool, consume: bool) -> (r: String)
    ensures
        r@ == flags_text(repeat, random, single, consume),
{
    let mut out = repeat_flag(repeat);
    let z = random_flag(random);
    out.append(z.as_str());
    let s = single_flag(single);
    out.append(s.as_str());
    let c = consume_flag(consume);
    out.append(c.as_str());
    out
}

/// A volume held within `0..=100`.
pub open spec fn clamp_volume(v: int) -> int {
    if v < 0 {
        0
    } else if v > 100 {
        100
    } else {
        v
    }
}

/// The volume after one step up: five more, at most 100.
pub fn volume_up(current: i8) -> (r: i8)
    ensures
        r as int == clamp_volume(current as int + 5),
{
    if current >= 95 {
        100
    } else if current < -5 {
        0
    } else {
        current + 5
    }
}

/// The volume after one step down: five less, at least 0.
pub fn volume_down(current: i8) -> (r: i8)
    ensures
        r as int == clamp_volume(current as int - 5),
{
    if current <= 5 {
        0
    } else if current > 105 {
        100
    } else {
        current - 5
    }
}

} // verus!
