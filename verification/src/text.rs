//! Label text: decimal formatting and the fixed texts of the label stack.

use vstd::prelude::*;
use vstd::string::StringExecFns;

verus! {

pub open spec fn dec_digit(d: int) -> char {
    if d == 0 {
        '0'
    } else if d == 1 {
        '1'
    } else if d == 2 {
        '2'
    } else if d == 3 {
        '3'
    } else if d == 4 {
        '4'
    } else if d == 5 {
        '5'
    } else if d == 6 {
        '6'
    } else if d == 7 {
        '7'
    } else if d == 8 {
        '8'
    } else {
        '9'
    }
}

/// The decimal digits of a non-negative number, most significant first.
pub open spec fn dec_seq(n: int) -> Seq<char>
    decreases n,
{
    if n < 10 {
        seq![dec_digit(n)]
    } else {
        dec_seq(n / 10).push(dec_digit(n % 10))
    }
}

fn digit_str(d: u64) -> (r: &'static str)
    requires
        d < 10,
    ensures
        r@ == seq![dec_digit(d as int)],
{
    proof {
        reveal_strlit("0");
        reveal_strlit("1");
        reveal_strlit("2");
        reveal_strlit("3");
        reveal_strlit("4");
        reveal_strlit("5");
        reveal_strlit("6");
        reveal_strlit("7");
        reveal_strlit("8");
        reveal_strlit("9");
    }
    let r = if d == 0 {
        "0"
    } else if d == 1 {
        "1"
    } else if d == 2 {
        "2"
    } else if d == 3 {
        "3"
    } else if d == 4 {
        "4"
    } else if d == 5 {
        "5"
    } else if d == 6 {
        "6"
    } else if d == 7 {
        "7"
    } else if d == 8 {
        "8"
    } else {
        "9"
    };
    proof {
        assert(r@ =~= seq![dec_digit(d as int)]);
    }
    r
}

pub fn u64_to_dec(n: u64) -> (r: String)
    ensures
        r@ == dec_seq(n as int),
    decreases n,
{
    if n < 10 {
        String::from_str(digit_str(n))
    } else {
        let mut r = u64_to_dec(n / 10);
        r.append(digit_str(n % 10));
        proof {
            assert(r@ =~= dec_seq((n / 10) as int).push(dec_digit((n % 10) as int)));
        }
        r
    }
}

/// The health line of the label stack, such as a two-digit count followed by
/// a hit-point suffix.
pub fn hp_text(health: u64) -> (r: String)
    ensures
        r@ == dec_seq(health as int) + " HP"@,
{
    let mut r = u64_to_dec(health);
    r.append(" HP");
    r
}

/// The distance line of the label stack: whole meters and a unit suffix.
pub fn dist_text(meters: u64) -> (r: String)
    ensures
        r@ == dec_seq(meters as int) + "m"@,
{
    let mut r = u64_to_dec(meters);
    r.append("m");
    r
}

/// The comma-joined status flags line.
pub open spec fn flags_seq(kit: bool, flashed: bool) -> Seq<char> {
    if kit && flashed {
        "Kit, flashed"@
    } else if kit {
        "Kit"@
    } else if flashed {
        "flashed"@
    } else {
        ""@
    }
}

pub fn flags_text(kit: bool, flashed: bool) -> (r: String)
    ensures
        r@ == flags_seq(kit, flashed),
{
    if kit && flashed {
        String::from_str("Kit, flashed")
    } else if kit {
        String::from_str("Kit")
    } else if flashed {
        String::from_str("flashed")
    } else {
        String::from_str("")
    }
}

} // verus!
