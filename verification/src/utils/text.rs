//! Building the texts of messages.

use vstd::prelude::*;
use vstd::string::*;

verus! {

/// `prefix` followed by `rest`.
pub fn prefixed(prefix: &str, rest: &str) -> (s: String)
    ensures
        s@ == prefix@ + rest@,
{
    let mut s = String::from_str(prefix);
    s.append(rest);
    s
}

/// `prefix`, then `middle`, then `suffix`.
pub fn wrapped(prefix: &str, middle: &str, suffix: &str) -> (s: String)
    ensures
        s@ == prefix@ + middle@ + suffix@,
{
    let mut s = String::from_str(prefix);
    s.append(middle);
    s.append(suffix);
    s
}

/// The characters of an optional string.
pub open spec fn opt_chars(s: Option<String>) -> Option<Seq<char>> {
    match s {
        Some(v) => Some(v@),
        None => None,
    }
}

/// The characters of an optional text.
pub open spec fn opt_str_chars(s: Option<&str>) -> Option<Seq<char>> {
    match s {
        Some(v) => Some(v@),
        None => None,
    }
}

/// Copies an optional string.
pub fn clone_opt(s: &Option<String>) -> (r: Option<String>)
    ensures
        opt_chars(r) == opt_chars(*s),
{
    match s {
        Some(v) => Some(v.clone()),
        None => None,
    }
}

/// The character of a decimal digit.
pub open spec fn digit_char(d: int) -> char {
    if d == 0 {
        '0'
    } else if d == 1 {
        '1'
    } else if d == 2 {
        '2'
    } else if d == 3 {
        '3'
    } else if d == 4 {
        '4'
    } else if d == 5 {
        '5'
    } else if d == 6 {
        '6'
    } else if d == 7 {
        '7'
    } else if d == 8 {
        '8'
    } else {
        '9'
    }
}

/// The decimal digits of a natural number, without leading zeros.
pub open spec fn decimal_digits(n: nat) -> Seq<char>
    decreases n,
{
    if n < 10 {
        seq![digit_char(n as int)]
    } else {
        decimal_digits(n / 10).push(digit_char((n % 10) as int))
    }
}

/// A whole number written in decimal, with a minus sign where it is negative.
pub open spec fn decimal_text(n: int) -> Seq<char> {
    if n < 0 {
        seq!['-'] + decimal_digits((-n) as nat)
    } else {
        decimal_digits(n as nat)
    }
}

/// The digits of `low`, given lowest first, read highest first.
pub open spec fn digits_reversed(low: Seq<u8>) -> Seq<char> {
    Seq::new(low.len(), |j: int| digit_char(low[low.len() - 1 - j] as int))
}

/// One decimal digit as text.
fn digit_str(d: u8) -> (s: &'static str)
    requires
        d < 10,
    ensures
        s@ == seq![digit_char(d as int)],
{
    proof {
        reveal_strlit("0");
        reveal_strlit("1");
        reveal_strlit("2");
        reveal_strlit("3");
        reveal_strlit("4");
        reveal_strlit("5");
        reveal_strlit("6");
        reveal_strlit("7");
        reveal_strlit("8");
        reveal_strlit("9");
    }
    let s = match d {
        0 => "0",
        1 => "1",
        2 => "2",
        3 => "3",
        4 => "4",
        5 => "5",
        6 => "6",
        7 => "7",
        8 => "8",
        _ => "9",
    };
    assert(s@ =~= seq![digit_char(d as int)]);
    s
}

/// A 32-bit whole number written in decimal.
pub fn decimal(n: i32) -> (s: String)
    ensures
        s@ == decimal_text(n as int),
{
    let negative = n < 0;
    let magnitude: u32 = if negative {
        (-(n as i64)) as u32
    } else {
        n as u32
    };
    let mut rest: u32 = magnitude;
    let mut low: Vec<u8> = Vec::new();
    assert(decimal_digits(rest as nat) + digits_reversed(low@) =~= decimal_digits(
        magnitude as nat,
    ));
    while rest >= 10
        invariant
            forall|j: int| 0 <= j < low@.len() ==> low@[j] < 10,
            decimal_digits(rest as nat) + digits_reversed(low@) == decimal_digits(
                magnitude as nat,
            ),
        decreases rest,
    {
        let ghost before = low@;
        let d = (rest % 10) as u8;
        low.push(d);
        proof {
            assert(digits_reversed(low@) =~= seq![digit_char(d as int)] + digits_reversed(before));
            assert(decimal_digits(rest as nat) == decimal_digits((rest / 10) as nat).push(
                digit_char(d as int),
            ));
            assert(decimal_digits((rest / 10) as nat).push(digit_char(d as int))
                + digits_reversed(before) =~= decimal_digits((rest / 10) as nat) + (seq![
                digit_char(d as int),
            ] + digits_reversed(before)));
        }
        rest = rest / 10;
    }
    let mut s = if negative {
        String::from_str("-")
    } else {
        String::new()
    };
    let ghost sign = s@;
    proof {
        reveal_strlit("-");
        assert(sign =~= if negative {
            seq!['-']
        } else {
            Seq::<char>::empty()
        });
    }
    s.append(digit_str(rest as u8));
    let mut i: usize = low.len();
    assert(digits_reversed(low@).take(0) =~= Seq::<char>::empty());
    while i > 0
        invariant
            i <= low.len(),
            forall|j: int| 0 <= j < low@.len() ==> low@[j] < 10,
            s@ == sign + seq![digit_char(rest as int)] + digits_reversed(low@).take(
                low.len() - i,
            ),
        decreases i,
    {
        let ghost told = s@;
        i -= 1;
        s.append(digit_str(low[i]));
        proof {
            let all = digits_reversed(low@);
            assert(all.take(low.len() - i) =~= all.take(low.len() - i - 1).push(
                digit_char(low@[i as int] as int),
            ));
            assert(s@ =~= sign + seq![digit_char(rest as int)] + all.take(low.len() - i));
        }
    }
    proof {
        assert(digits_reversed(low@).take(low.len() as int) =~= digits_reversed(low@));
        assert(s@ =~= sign + decimal_digits(magnitude as nat));
        assert(Seq::<char>::empty() + decimal_digits(magnitude as nat) =~= decimal_digits(
            magnitude as nat,
        ));
    }
    s
}

} // verus!
