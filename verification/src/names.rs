//! Workspace name construction. The resolver names targets that do not exist
//! yet; the compositor creates a workspace the first time a command mentions
//! it, so nothing here creates anything. Two synthetic shapes exist: the
//! deterministic `output-position`, and the collision-avoiding
//! `output:label-suffix` whose trailing suffix is a freshly drawn byte.

use vstd::prelude::*;

verus! {

/// The character of one decimal digit.
pub open spec fn spec_digit_char(d: nat) -> char
    recommends
        d < 10,
{
    if d == 0 {
        '0'
    } else if d == 1 {
        '1'
    } else if d == 2 {
        '2'
    } else if d == 3 {
        '3'
    } else if d == 4 {
        '4'
    } else if d == 5 {
        '5'
    } else if d == 6 {
        '6'
    } else if d == 7 {
        '7'
    } else if d == 8 {
        '8'
    } else {
        '9'
    }
}

/// The decimal rendering of a number, most significant digit first, with no
/// leading zeroes (zero itself renders as one digit).
pub open spec fn spec_dec(n: nat) -> Seq<char>
    decreases n,
{
    if n < 10 {
        seq![spec_digit_char(n)]
    } else {
        spec_dec(n / 10).push(spec_digit_char(n % 10))
    }
}

/// One decimal digit as a string slice.
fn digit_str(d: u8) -> (r: &'static str)
    requires
        d < 10,
    ensures
        r@ == seq![spec_digit_char(d as nat)],
{
    let r: &'static str = match d {
        0 => "0",
        1 => "1",
        2 => "2",
        3 => "3",
        4 => "4",
        5 => "5",
        6 => "6",
        7 => "7",
        8 => "8",
        _ => "9",
    };
    proof {
        reveal_strlit("0");
        reveal_strlit("1");
        reveal_strlit("2");
        reveal_strlit("3");
        reveal_strlit("4");
        reveal_strlit("5");
        reveal_strlit("6");
        reveal_strlit("7");
        reveal_strlit("8");
        reveal_strlit("9");
        assert(r@ =~= seq![spec_digit_char(d as nat)]);
    }
    r
}

/// Renders a number in decimal.
pub fn dec_string(n: u64) -> (r: String)
    ensures
        r@ == spec_dec(n as nat),
    decreases n,
{
    let mut s = if n >= 10 {
        dec_string(n / 10)
    } else {
        String::new()
    };
    s.append(digit_str((n % 10) as u8));
    proof {
        assert(s@ =~= spec_dec(n as nat));
    }
    s
}

/// The deterministic synthetic name for a position on an output:
/// `output-position`.
pub open spec fn spec_dash_name(output: Seq<char>, position: nat) -> Seq<char> {
    output + "-"@ + spec_dec(position)
}

/// The collision-avoiding synthetic name: `output:label-suffix`.
pub open spec fn spec_colon_name(output: Seq<char>, label: Seq<char>, suffix: nat) -> Seq<char> {
    output + ":"@ + label + "-"@ + spec_dec(suffix)
}

/// Builds the deterministic synthetic name for a position on an output.
pub fn dash_name(output: &str, position: u64) -> (r: String)
    ensures
        r@ == spec_dash_name(output@, position as nat),
{
    let mut s = output.to_owned();
    s.append("-");
    let digits = dec_string(position);
    s.append(digits.as_str());
    proof {
        assert(s@ =~= spec_dash_name(output@, position as nat));
    }
    s
}

/// Builds the collision-avoiding synthetic name from a given suffix.
pub fn colon_name(output: &str, label: &str, suffix: u8) -> (r: String)
    ensures
        r@ == spec_colon_name(output@, label@, suffix as nat),
{
    let mut s = output.to_owned();
    s.append(":");
    s.append(label);
    s.append("-");
    let digits = dec_string(suffix as u64);
    s.append(digits.as_str());
    proof {
        assert(s@ =~= spec_colon_name(output@, label@, suffix as nat));
    }
    s
}

/// Relies on rand::random: draws one byte from the thread-local generator.
/// Nothing is promised of its value.
#[verifier::external_body]
fn random_byte() -> u8 {
    rand::random::<u8>()
}

/// Names a fresh workspace slot on an output: `output:label` plus a randomly
/// drawn byte as suffix, so that the result is unlikely to collide with a
/// workspace that was renamed away from the slot earlier.
pub fn fmt_output_workspace(output: &str, workspace: &str) -> (r: String)
    ensures
        exists|b: u8| r@ == spec_colon_name(output@, workspace@, b as nat),
{
    let b = random_byte();
    let r = colon_name(output, workspace, b);
    proof {
        assert(r@ == spec_colon_name(output@, workspace@, b as nat));
    }
    r
}

} // verus!
