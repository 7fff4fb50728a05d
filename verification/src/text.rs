//! Decimal rendering of counters and the clock / uptime texts built on it.
use vstd::prelude::*;

verus! {

/// The decimal digit character for `d < 10`.
pub open spec fn digit_char(d: nat) -> char {
    if d == 0 {
        '0'
    } else if d == 1 {
        '1'
    } else if d == 2 {
        '2'
    } else if d == 3 {
        '3'
    } else if d == 4 {
        '4'
    } else if d == 5 {
        '5'
    } else if d == 6 {
        '6'
    } else if d == 7 {
        '7'
    } else if d == 8 {
        '8'
    } else {
        '9'
    }
}

/// The numeric value of a decimal digit character (10 for any other character).
pub open spec fn char_value(c: char) -> nat {
    if c == '0' {
        0
    } else if c == '1' {
        1
    } else if c == '2' {
        2
    } else if c == '3' {
        3
    } else if c == '4' {
        4
    } else if c == '5' {
        5
    } else if c == '6' {
        6
    } else if c == '7' {
        7
    } else if c == '8' {
        8
    } else if c == '9' {
        9
    } else {
        10
    }
}

/// Decimal representation of `n`, without leading zeros (`"0"` for zero).
pub open spec fn dec(n: nat) -> Seq<char>
    decreases n,
{
    if n < 10 {
        seq![digit_char(n)]
    } else {
        dec(n / 10) + seq![digit_char(n % 10)]
    }
}

/// Decimal representation padded with zeros to at least two characters (`{:02}`).
pub open spec fn pad2(n: nat) -> Seq<char> {
    if n < 10 {
        seq!['0'] + dec(n)
    } else {
        dec(n)
    }
}

/// `HH:MM:SS` for a number of seconds; the hour field grows past two digits.
pub open spec fn clock_text(secs: nat) -> Seq<char> {
    pad2(secs / 3600) + seq![':'] + pad2((secs / 60) % 60) + seq![':'] + pad2(secs % 60)
}

/// `HHh MMm SSs` for a number of seconds.
pub open spec fn uptime_text(secs: nat) -> Seq<char> {
    pad2(secs / 3600) + seq!['h', ' '] + pad2((secs / 60) % 60) + seq!['m', ' '] + pad2(secs % 60)
        + seq!['s']
}

/// Reads a sequence of decimal digits back as a number.
pub open spec fn digits_value(s: Seq<char>) -> nat
    decreases s.len(),
{
    if s.len() == 0 {
        0
    } else {
        digits_value(s.drop_last()) * 10 + char_value(s.last())
    }
}

/// Every character is a decimal digit.
pub open spec fn all_digits(s: Seq<char>) -> bool {
    forall|i: int| 0 <= i < s.len() ==> #[trigger] char_value(s[i]) < 10
}

/// Decimal rendering is exact: the digits of `dec(n)` read back as `n`.
pub proof fn lemma_dec_round_trip(n: nat)
    ensures
        digits_value(dec(n)) == n,
        all_digits(dec(n)),
        dec(n).len() >= 1,
    decreases n,
{
    if n >= 10 {
        lemma_dec_round_trip(n / 10);
        let s = dec(n / 10) + seq![digit_char(n % 10)];
        assert(s.drop_last() =~= dec(n / 10));
        assert(char_value(digit_char(n % 10)) == n % 10);
        assert(n == (n / 10) * 10 + n % 10);
        assert(s.last() == digit_char(n % 10));
        assert(digits_value(s) == digits_value(dec(n / 10)) * 10 + n % 10);
        assert(dec(n) == s);
        assert forall|i: int| 0 <= i < s.len() implies #[trigger] char_value(s[i]) < 10 by {
            if i < dec(n / 10).len() {
                assert(s[i] == dec(n / 10)[i]);
            }
        }
    } else {
        assert(seq![digit_char(n)].drop_last() =~= Seq::<char>::empty());
        assert(char_value(digit_char(n)) == n);
        assert(digits_value(Seq::<char>::empty()) == 0);
        assert(digits_value(seq![digit_char(n)]) == n);
    }
}

/// Zero padding does not change the value read back, and gives at least two digits.
pub proof fn lemma_pad2_round_trip(n: nat)
    ensures
        digits_value(pad2(n)) == n,
        all_digits(pad2(n)),
        pad2(n).len() >= 2,
{
    lemma_dec_round_trip(n);
    if n < 10 {
        let s = seq!['0'] + dec(n);
        assert(s.drop_last() =~= seq!['0']);
        assert(digits_value(seq!['0'].drop_last()) == 0);
        assert(digits_value(seq!['0']) == 0);
    } else {
        // two digits or more
        lemma_dec_round_trip(n / 10);
    }
}

/// The fields of the clock text: hours, minutes below 60 and seconds below 60 that add
/// back up to the number of seconds.
pub proof fn lemma_clock_fields(secs: nat)
    ensures
        ({
            let h = secs / 3600;
            let m = (secs / 60) % 60;
            let s = secs % 60;
            &&& clock_text(secs) == pad2(h) + seq![':'] + pad2(m) + seq![':'] + pad2(s)
            &&& m < 60
            &&& s < 60
            &&& h * 3600 + m * 60 + s == secs
            &&& digits_value(pad2(h)) == h
            &&& digits_value(pad2(m)) == m
            &&& digits_value(pad2(s)) == s
        }),
{
    lemma_pad2_round_trip(secs / 3600);
    lemma_pad2_round_trip((secs / 60) % 60);
    lemma_pad2_round_trip(secs % 60);
    assert(secs == (secs / 60) * 60 + secs % 60);
    assert(secs / 60 == (secs / 60 / 60) * 60 + (secs / 60) % 60);
    assert(secs / 60 / 60 == secs / 3600) by {
        vstd::arithmetic::div_mod::lemma_div_denominator(secs as int, 60, 60);
    }
}

/// The one-character string of the digit `d`.
fn digit_str(d: u64) -> (res: &'static str)
    requires
        d < 10,
    ensures
        res@ == seq![digit_char(d as nat)],
{
    proof {
        reveal_strlit("0");
        reveal_strlit("1");
        reveal_strlit("2");
        reveal_strlit("3");
        reveal_strlit("4");
        reveal_strlit("5");
        reveal_strlit("6");
        reveal_strlit("7");
        reveal_strlit("8");
        reveal_strlit("9");
    }
    if d == 0 {
        "0"
    } else if d == 1 {
        "1"
    } else if d == 2 {
        "2"
    } else if d == 3 {
        "3"
    } else if d == 4 {
        "4"
    } else if d == 5 {
        "5"
    } else if d == 6 {
        "6"
    } else if d == 7 {
        "7"
    } else if d == 8 {
        "8"
    } else {
        "9"
    }
}

/// Appends the decimal representation of `n`.
pub fn push_decimal(out: &mut String, n: u64)
    ensures
        final(out)@ == old(out)@ + dec(n as nat),
    decreases n,
{
    if n >= 10 {
        push_decimal(out, n / 10);
    }
    out.append(digit_str(n % 10));
    proof {
        assert(final(out)@ =~= old(out)@ + dec(n as nat));
    }
}

/// Appends `n` padded with zeros to at least two digits.
pub fn push_pad2(out: &mut String, n: u64)
    ensures
        final(out)@ == old(out)@ + pad2(n as nat),
{
    if n < 10 {
        proof {
            reveal_strlit("0");
        }
        out.append("0");
    }
    push_decimal(out, n);
    proof {
        assert(final(out)@ =~= old(out)@ + pad2(n as nat));
    }
}

/// Renders a number of seconds as `HH:MM:SS`.
pub fn fmt_clock(secs: u64) -> (res: String)
    ensures
        res@ == clock_text(secs as nat),
{
    let mut out = String::new();
    push_pad2(&mut out, secs / 3600);
    proof {
        reveal_strlit(":");
    }
    out.append(":");
    push_pad2(&mut out, (secs / 60) % 60);
    out.append(":");
    push_pad2(&mut out, secs % 60);
    proof {
        assert(out@ =~= clock_text(secs as nat));
    }
    out
}

/// Renders a number of seconds as `HHh MMm SSs`.
pub fn fmt_uptime(secs: u64) -> (res: String)
    ensures
        res@ == uptime_text(secs as nat),
{
    let mut out = String::new();
    push_pad2(&mut out, secs / 3600);
    proof {
        reveal_strlit("h ");
        reveal_strlit("m ");
        reveal_strlit("s");
    }
    out.append("h ");
    push_pad2(&mut out, (secs / 60) % 60);
    out.append("m ");
    push_pad2(&mut out, secs % 60);
    out.append("s");
    proof {
        assert(out@ =~= uptime_text(secs as nat));
    }
    out
}

} // verus!
