//! The display projection: the seconds left, shown as `MM:SS`.

use vstd::prelude::*;

verus! {

/// The character for a single decimal digit.
pub open spec fn digit_char(d: int) -> char {
    if d == 0 {
        '0'
    } else if d == 1 {
        '1'
    } else if d == 2 {
        '2'
    } else if d == 3 {
        '3'
    } else if d == 4 {
        '4'
    } else if d == 5 {
        '5'
    } else if d == 6 {
        '6'
    } else if d == 7 {
        '7'
    } else if d == 8 {
        '8'
    } else {
        '9'
    }
}

/// A seconds count shown as minutes and seconds, two digits each.
pub open spec fn mm_ss(n: int) -> Seq<char> {
    seq![
        digit_char(n / 60 / 10),
        digit_char(n / 60 % 10),
        ':',
        digit_char(n % 60 / 10),
        digit_char(n % 60 % 10),
    ]
}

fn digit_str(d: u32) -> (r: &'static str)
    requires
        d < 10,
    ensures
        r@ == seq![digit_char(d as int)],
{
    proof {
        reveal_strlit("0");
        reveal_strlit("1");
        reveal_strlit("2");
        reveal_strlit("3");
        reveal_strlit("4");
        reveal_strlit("5");
        reveal_strlit("6");
        reveal_strlit("7");
        reveal_strlit("8");
        reveal_strlit("9");
    }
    let r: &'static str = if d == 0 {
        "0"
    } else if d == 1 {
        "1"
    } else if d == 2 {
        "2"
    } else if d == 3 {
        "3"
    } else if d == 4 {
        "4"
    } else if d == 5 {
        "5"
    } else if d == 6 {
        "6"
    } else if d == 7 {
        "7"
    } else if d == 8 {
        "8"
    } else {
        "9"
    };
    proof {
        assert(r@ =~= seq![digit_char(d as int)]);
    }
    r
}

/// The seconds left, as the five characters `MM:SS`.
pub fn format_mm_ss(remaining: u32) -> (r: String)
    requires
        remaining < 3600,
    ensures
        r@ == mm_ss(remaining as int),
{
    let minutes: u32 = remaining / 60;
    let seconds: u32 = remaining % 60;
    let mut r = String::new();
    r.append(digit_str(minutes / 10));
    r.append(digit_str(minutes % 10));
    r.append(":");
    r.append(digit_str(seconds / 10));
    r.append(digit_str(seconds % 10));
    proof {
        reveal_strlit(":");
        assert(r@ =~= mm_ss(remaining as int));
    }
    r
}

} // verus!
