//! System volume control. Reading and setting the volume are AppleScripts
//! that the caller runs; a volume level is valid in `[0.0, 1.0]`, as a
//! brightness level is.

use vstd::prelude::*;

verus! {

/// The character of a decimal digit.
pub open spec fn digit_char(d: nat) -> char {
    if d == 0 {
        '0'
    } else if d == 1 {
        '1'
    } else if d == 2 {
        '2'
    } else if d == 3 {
        '3'
    } else if d == 4 {
        '4'
    } else if d == 5 {
        '5'
    } else if d == 6 {
        '6'
    } else if d == 7 {
        '7'
    } else if d == 8 {
        '8'
    } else {
        '9'
    }
}

/// The decimal digits of `n`, most significant first, without leading zeros.
pub open spec fn decimal(n: nat) -> Seq<char>
    decreases n,
{
    if n < 10 {
        seq![digit_char(n)]
    } else {
        decimal(n / 10).push(digit_char(n % 10))
    }
}

/// Relies on `u32::to_string` (the standard `Display` of an unsigned
/// integer): its decimal digits, with no sign and no leading zeros.
#[verifier::external_body]
fn decimal_text(n: u32) -> (r: String)
    ensures
        r@ == decimal(n as nat),
{
    n.to_string()
}

/// Controller for the system output volume on macOS.
pub struct VolumeController;

impl VolumeController {
    /// Creates a volume controller; this always succeeds.
    pub fn new() -> (r: Result<Self, String>)
        ensures
            r is Ok,
    {
        Ok(VolumeController)
    }

    /// The script that prints the output volume, from 0 to 100.
    pub fn volume_script() -> (r: String)
        ensures
            r@ == "output volume of (get volume settings)"@,
    {
        String::from_str("output volume of (get volume settings)")
    }

    /// The script that sets the output volume to `percent`.
    pub fn set_script(percent: u32) -> (r: String)
        ensures
            r@ == "set volume output volume "@ + decimal(percent as nat),
    {
        let mut script = String::from_str("set volume output volume ");
        let digits = decimal_text(percent);
        script.append(digits.as_str());
        script
    }
}

} // verus!
