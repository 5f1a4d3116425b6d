use vstd::prelude::*;
use vstd::string::StringExecFns;

verus! {

pub const NANOS_PER_SECOND: u64 = 1_000_000_000;

/// The decimal digit for `d`, which is below ten.
pub open spec fn digit_char(d: nat) -> char {
    if d == 0 {
        '0'
    } else if d == 1 {
        '1'
    } else if d == 2 {
        '2'
    } else if d == 3 {
        '3'
    } else if d == 4 {
        '4'
    } else if d == 5 {
        '5'
    } else if d == 6 {
        '6'
    } else if d == 7 {
        '7'
    } else if d == 8 {
        '8'
    } else {
        '9'
    }
}

/// The decimal notation of `n`, without leading zeros.
pub open spec fn decimal(n: nat) -> Seq<char>
    decreases n,
{
    if n < 10 {
        seq![digit_char(n)]
    } else {
        decimal(n / 10).push(digit_char(n % 10))
    }
}

/// `n` in decimal, padded with a leading zero to at least two digits.
pub open spec fn two_digit_spec(n: nat) -> Seq<char> {
    if n < 10 {
        seq!['0'] + decimal(n)
    } else {
        decimal(n)
    }
}

/// `HH:MM:SS` for a duration in nanoseconds, hours unbounded; `00:00:00`
/// for no duration.
pub open spec fn format_duration_spec(duration: Option<u64>) -> Seq<char> {
    match duration {
        Some(nanos) => {
            let secs = nanos as nat / NANOS_PER_SECOND as nat;
            two_digit_spec(secs / 3600) + seq![':'] + two_digit_spec((secs / 60) % 60) + seq![':']
                + two_digit_spec(secs % 60)
        },
        None => seq!['0', '0', ':', '0', '0', ':', '0', '0'],
    }
}

fn digit_str(d: u64) -> (r: &'static str)
    requires
        d < 10,
    ensures
        r@ == seq![digit_char(d as nat)],
{
    proof {
        reveal_strlit("0");
        reveal_strlit("1");
        reveal_strlit("2");
        reveal_strlit("3");
        reveal_strlit("4");
        reveal_strlit("5");
        reveal_strlit("6");
        reveal_strlit("7");
        reveal_strlit("8");
        reveal_strlit("9");
    }
    if d == 0 {
        "0"
    } else if d == 1 {
        "1"
    } else if d == 2 {
        "2"
    } else if d == 3 {
        "3"
    } else if d == 4 {
        "4"
    } else if d == 5 {
        "5"
    } else if d == 6 {
        "6"
    } else if d == 7 {
        "7"
    } else if d == 8 {
        "8"
    } else {
        "9"
    }
}

fn decimal_string(n: u64) -> (r: String)
    ensures
        r@ == decimal(n as nat),
    decreases n,
{
    if n < 10 {
        String::from_str(digit_str(n))
    } else {
        decimal_string(n / 10).concat(digit_str(n % 10))
    }
}

/// `number` in decimal, padded with a leading zero to at least two digits.
pub fn two_digit_string(number: u64) -> (r: String)
    ensures
        r@ == two_digit_spec(number as nat),
{
    let digits = decimal_string(number);
    if number < 10 {
        proof {
            reveal_strlit("0");
        }
        String::from_str("0").concat(digits.as_str())
    } else {
        digits
    }
}

/// `HH:MM:SS` for a duration in nanoseconds, hours unbounded; `00:00:00`
/// for no duration.
pub fn format_duration(duration: Option<u64>) -> (r: String)
    ensures
        r@ == format_duration_spec(duration),
{
    proof {
        reveal_strlit(":");
        reveal_strlit("00:00:00");
    }
    match duration {
        Some(nanos) => {
            let secs = nanos / NANOS_PER_SECOND;
            let seconds = two_digit_string(secs % 60);
            let minutes = two_digit_string((secs / 60) % 60);
            let hours = two_digit_string(secs / 3600);
            hours.concat(":").concat(minutes.as_str()).concat(":").concat(seconds.as_str())
        },
        None => String::from_str("00:00:00"),
    }
}

} // verus!
