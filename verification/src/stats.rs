//! Keys of the remote resource monitor's accelerator cards.

use vstd::prelude::*;

use crate::text::{spec_trim, trim};

verus! {

/// The decimal digits of `n`, most significant first.
pub open spec fn spec_decimal(n: nat) -> Seq<char>
    decreases n,
{
    if n < 10 {
        seq![spec_digit(n)]
    } else {
        spec_decimal(n / 10).push(spec_digit(n % 10))
    }
}

/// The character of a decimal digit.
pub open spec fn spec_digit(d: nat) -> char {
    if d == 0 {
        '0'
    } else if d == 1 {
        '1'
    } else if d == 2 {
        '2'
    } else if d == 3 {
        '3'
    } else if d == 4 {
        '4'
    } else if d == 5 {
        '5'
    } else if d == 6 {
        '6'
    } else if d == 7 {
        '7'
    } else if d == 8 {
        '8'
    } else {
        '9'
    }
}

fn digit(d: u32) -> (r: char)
    requires
        d < 10,
    ensures
        r == spec_digit(d as nat),
{
    if d == 0 {
        '0'
    } else if d == 1 {
        '1'
    } else if d == 2 {
        '2'
    } else if d == 3 {
        '3'
    } else if d == 4 {
        '4'
    } else if d == 5 {
        '5'
    } else if d == 6 {
        '6'
    } else if d == 7 {
        '7'
    } else if d == 8 {
        '8'
    } else {
        '9'
    }
}

/// `n` written in decimal.
pub fn decimal(n: u32) -> (r: String)
    ensures
        r@ == spec_decimal(n as nat),
    decreases n,
{
    if n < 10 {
        let mut s = String::new();
        s.push(digit(n));
        s
    } else {
        let mut s = decimal(n / 10);
        s.push(digit(n % 10));
        s
    }
}

/// The key that tells a GPU card apart: its UUID, trimmed, or its index
/// when the UUID is blank.
pub open spec fn spec_gpu_device_key(index: u32, uuid: Seq<char>) -> Seq<char> {
    if spec_trim(uuid).len() == 0 {
        spec_decimal(index as nat)
    } else {
        spec_trim(uuid)
    }
}

/// The key that tells a GPU card apart (see `spec_gpu_device_key`).
pub fn gpu_device_key(index: u32, uuid: &str) -> (r: String)
    ensures
        r@ == spec_gpu_device_key(index, uuid@),
{
    let trimmed = trim(uuid);
    if trimmed.as_str().is_empty() {
        decimal(index)
    } else {
        trimmed
    }
}

/// How long a machine has been up, as the text key of the label and the
/// whole days that it counts: one day takes the singular label.
pub fn resource_uptime_label(seconds: u64) -> (r: (&'static str, u64))
    ensures
        r.1 == seconds / 86_400,
        r.0@ == (if seconds / 86_400 == 1 {
            "resourceMonitor.day"@
        } else {
            "resourceMonitor.days"@
        }),
{
    let days = seconds / 86_400;
    if days == 1 {
        ("resourceMonitor.day", days)
    } else {
        ("resourceMonitor.days", days)
    }
}

} // verus!
