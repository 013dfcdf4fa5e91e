//! Display formatting used by the terminal front end: byte counts and
//! durations rendered as short human-readable strings. Printing itself,
//! with its colors, lives outside the library.

use vstd::prelude::*;
use vstd::string::StringExecFns;

use crate::text::dec_seq;
use crate::text::digit_char;
use crate::text::u64_to_string;
use crate::text::u64_to_string_pad2;

verus! {

pub const KB: u64 = 1024;

pub const MB: u64 = 1048576;

pub const GB: u64 = 1073741824;

/// App styling helpers.
pub struct Styles;

/// A count scaled against a unit: the whole part and a rounded
/// two-digit fraction, with the carry applied when the fraction rounds
/// up to a full unit.
pub open spec fn spec_whole_frac(bytes: nat, unit: nat) -> (nat, nat) {
    let w = bytes / unit;
    let f = ((bytes % unit) * 100 + unit / 2) / unit;
    if f >= 100 {
        ((w + 1) as nat, 0 as nat)
    } else {
        (w, f)
    }
}

/// Two decimals: the whole part, a point, and a two-digit fraction.
pub open spec fn spec_two_dec(bytes: nat, unit: nat) -> Seq<char> {
    let wf = spec_whole_frac(bytes, unit);
    dec_seq(wf.0) + "."@ + (if wf.1 < 10 {
        seq![digit_char(0)] + dec_seq(wf.1)
    } else {
        dec_seq(wf.1)
    })
}

/// A byte count rendered against the largest unit it reaches, with two
/// decimals; plain bytes below one kibibyte.
pub open spec fn spec_format_bytes(bytes: nat) -> Seq<char> {
    if bytes >= GB {
        spec_two_dec(bytes, GB as nat) + " GB"@
    } else if bytes >= MB {
        spec_two_dec(bytes, MB as nat) + " MB"@
    } else if bytes >= KB {
        spec_two_dec(bytes, KB as nat) + " KB"@
    } else {
        dec_seq(bytes) + " B"@
    }
}

/// A duration in milliseconds rendered as milliseconds, seconds with one
/// decimal, or minutes and seconds.
pub open spec fn spec_format_duration(millis: nat) -> Seq<char> {
    if millis < 1000 {
        dec_seq(millis) + "ms"@
    } else if millis < 60000 {
        let tenths = (millis + 50) / 100;
        dec_seq(tenths / 10) + "."@ + dec_seq(tenths % 10) + "s"@
    } else {
        let mins = millis / 60000;
        let secs = (millis % 60000 + 500) / 1000;
        dec_seq(mins) + "m "@ + dec_seq(secs) + "s"@
    }
}

impl Styles {
    /// Formats a byte count as a short human-readable size.
    pub fn format_bytes(bytes: u64) -> (r: String)
        ensures
            r@ == spec_format_bytes(bytes as nat),
    {
        if bytes >= GB {
            Self::two_dec(bytes, GB).concat(" GB")
        } else if bytes >= MB {
            Self::two_dec(bytes, MB).concat(" MB")
        } else if bytes >= KB {
            Self::two_dec(bytes, KB).concat(" KB")
        } else {
            u64_to_string(bytes).concat(" B")
        }
    }

    /// The scaled value with two decimals.
    fn two_dec(bytes: u64, unit: u64) -> (r: String)
        requires
            2 <= unit <= GB,
        ensures
            r@ == spec_two_dec(bytes as nat, unit as nat),
    {
        let w = bytes / unit;
        let rm = bytes % unit;
        let f = (rm * 100 + unit / 2) / unit;
        proof {
            vstd::arithmetic::div_mod::lemma_div_is_ordered_by_denominator(
                bytes as int,
                2,
                unit as int,
            );
            assert(f <= 100) by (nonlinear_arith)
                requires
                    f == ((rm * 100 + unit / 2) as u64) / unit,
                    rm < unit,
                    2 <= unit,
            ;
        }
        let (whole, frac) = if f >= 100 {
            (w + 1, 0u64)
        } else {
            (w, f)
        };
        u64_to_string(whole).concat(".").concat(u64_to_string_pad2(frac).as_str())
    }

    /// Formats a duration given in milliseconds.
    pub fn format_duration(millis: u64) -> (r: String)
        ensures
            r@ == spec_format_duration(millis as nat),
    {
        if millis < 1000 {
            u64_to_string(millis).concat("ms")
        } else if millis < 60000 {
            let tenths = (millis + 50) / 100;
            u64_to_string(tenths / 10).concat(".").concat(
                u64_to_string(tenths % 10).as_str(),
            ).concat("s")
        } else {
            let mins = millis / 60000;
            let secs = (millis % 60000 + 500) / 1000;
            u64_to_string(mins).concat("m ").concat(u64_to_string(secs).as_str()).concat("s")
        }
    }
}

/// The palette a status line may use.
pub enum StatusColor {
    Green,
    Yellow,
    Red,
    Blue,
    White,
}

} // verus!
