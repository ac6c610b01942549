use vstd::prelude::*;

use vstd::string::StringExecFns;

verus! {

/// The decimal digit character for a value below ten.
pub open spec fn spec_digit_str(d: u8) -> Seq<char>
    recommends
        d < 10,
{
    match d {
        0 => "0"@,
        1 => "1"@,
        2 => "2"@,
        3 => "3"@,
        4 => "4"@,
        5 => "5"@,
        6 => "6"@,
        7 => "7"@,
        8 => "8"@,
        9 => "9"@,
        _ => Seq::empty(),
    }
}

fn digit_str(d: u8) -> (r: &'static str)
    requires
        d < 10,
    ensures
        r@ == spec_digit_str(d),
{
    match d {
        0 => "0",
        1 => "1",
        2 => "2",
        3 => "3",
        4 => "4",
        5 => "5",
        6 => "6",
        7 => "7",
        8 => "8",
        _ => "9",
    }
}

/// The decimal rendering of a byte: one to three digits, no leading zeros.
pub open spec fn spec_u8_str(n: u8) -> Seq<char> {
    if n < 10 {
        spec_digit_str(n)
    } else if n < 100 {
        spec_digit_str(n / 10) + spec_digit_str(n % 10)
    } else {
        spec_digit_str(n / 100) + spec_digit_str((n / 10) % 10) + spec_digit_str(n % 10)
    }
}

/// Renders a byte as decimal text.
pub fn u8_str(n: u8) -> (r: String)
    ensures
        r@ == spec_u8_str(n),
{
    let mut s = String::new();
    if n >= 100 {
        s.append(digit_str(n / 100));
        s.append(digit_str((n / 10) % 10));
        s.append(digit_str(n % 10));
    } else if n >= 10 {
        s.append(digit_str(n / 10));
        s.append(digit_str(n % 10));
    } else {
        s.append(digit_str(n));
    }
    s
}

/// The rendering of a boolean.
pub open spec fn spec_bool_str(b: bool) -> Seq<char> {
    if b {
        "true"@
    } else {
        "false"@
    }
}

/// Renders a boolean as text.
pub fn bool_str(b: bool) -> (r: &'static str)
    ensures
        r@ == spec_bool_str(b),
{
    if b {
        "true"
    } else {
        "false"
    }
}

/// The suffix a battery line carries when that battery is charging.
pub open spec fn spec_charging_suffix(charging: bool) -> Seq<char> {
    if charging {
        " (charging)"@
    } else {
        ""@
    }
}

/// Renders the charging suffix of a battery line.
pub fn charging_suffix(charging: bool) -> (r: &'static str)
    ensures
        r@ == spec_charging_suffix(charging),
{
    if charging {
        " (charging)"
    } else {
        ""
    }
}

} // verus!
