//! Human-readable renderings of byte totals, throughput rates, link speeds
//! and interface flags.  Byte-unit renderings delegate to `humansize`; the
//! bit-unit renderings are computed here with truncating integer
//! arithmetic and are fully specified.

use vstd::prelude::*;

use crate::text::{dec_of, digit_char, fmt_pad2, fmt_u128, fmt_u64, fmt_hex, hex_of, pad2_of};

verus! {

/// The display unit for totals and rates.
#[derive(Clone, Copy, Debug, PartialEq, Eq, Structural)]
pub enum Unit {
    Bytes,
    Bits,
}

impl Default for Unit {
    fn default() -> (r: Self)
        ensures
            r == Unit::Bytes,
    {
        Unit::Bytes
    }
}

/// What `humansize::format_size` renders for a value, with the `BINARY`
/// options; a function of the numeric value alone.
pub uninterp spec fn binary_size_of(v: u64) -> Seq<char>;

/// Relies on `humansize::format_size` with `humansize::BINARY`: a pure
/// rendering of the value (binary prefixes, powers of 1024).
#[verifier::external_body]
fn format_size_binary(v: u64) -> (r: String)
    ensures
        r@ == binary_size_of(v),
{
    humansize::format_size(v, humansize::BINARY)
}

/// Bit-unit rendering of a bit count `vb`: whole bits below 1000, one
/// truncated decimal up to 10^6 (kilobits), two truncated decimals at
/// and above 10^6 (megabits and gigabits).  With `rate`, each suffix
/// carries a `/s`.
pub open spec fn bits_scaled_of(vb: nat, rate: bool) -> Seq<char> {
    if vb < 1000 {
        dec_of(vb) + (if rate { " b/s"@ } else { " b"@ })
    } else if vb < 1000000 {
        dec_of(vb / 1000) + "."@ + seq![digit_char((vb % 1000) / 100)] + (if rate {
            " Kb/s"@
        } else {
            " Kb"@
        })
    } else if vb < 1000000000 {
        dec_of(vb / 1000000) + "."@ + pad2_of((vb % 1000000) / 10000) + (if rate {
            " Mb/s"@
        } else {
            " Mb"@
        })
    } else {
        dec_of(vb / 1000000000) + "."@ + pad2_of((vb % 1000000000) / 10000000) + (if rate {
            " Gb/s"@
        } else {
            " Gb"@
        })
    }
}

fn bits_scaled(vb: u128, rate: bool) -> (r: String)
    ensures
        r@ == bits_scaled_of(vb as nat, rate),
{
    if vb < 1000 {
        let mut s = fmt_u128(vb);
        if rate {
            s.append(" b/s");
        } else {
            s.append(" b");
        }
        s
    } else if vb < 1000000 {
        let mut s = fmt_u128(vb / 1000);
        s.append(".");
        let tenth: u64 = ((vb % 1000) / 100) as u64;
        s.append(crate::text::fmt_u64(tenth).as_str());
        proof {
            assert(dec_of(tenth as nat) =~= seq![digit_char(tenth as nat)]);
        }
        if rate {
            s.append(" Kb/s");
        } else {
            s.append(" Kb");
        }
        s
    } else if vb < 1000000000 {
        let mut s = fmt_u128(vb / 1000000);
        s.append(".");
        let frac: u64 = ((vb % 1000000) / 10000) as u64;
        s.append(fmt_pad2(frac).as_str());
        if rate {
            s.append(" Mb/s");
        } else {
            s.append(" Mb");
        }
        s
    } else {
        let mut s = fmt_u128(vb / 1000000000);
        s.append(".");
        let frac: u64 = ((vb % 1000000000) / 10000000) as u64;
        s.append(fmt_pad2(frac).as_str());
        if rate {
            s.append(" Gb/s");
        } else {
            s.append(" Gb");
        }
        s
    }
}

/// Rendering of a cumulative byte total in the chosen unit.
pub open spec fn total_label_of(v_bytes: u64, unit: Unit) -> Seq<char> {
    match unit {
        Unit::Bytes => binary_size_of(v_bytes),
        Unit::Bits => bits_scaled_of((v_bytes * 8) as nat, false),
    }
}

/// Renders a cumulative byte total: binary-prefixed bytes, or
/// decimal-prefixed bits.
pub fn human_total(v_bytes: u64, unit: Unit) -> (r: String)
    ensures
        r@ == total_label_of(v_bytes, unit),
{
    match unit {
        Unit::Bytes => format_size_binary(v_bytes),
        Unit::Bits => bits_scaled((v_bytes as u128) * 8, false),
    }
}

/// Rendering of a throughput rate (whole bytes per second) in the chosen
/// unit.
pub open spec fn rate_label_of(v: u64, unit: Unit) -> Seq<char> {
    match unit {
        Unit::Bytes => if v < 1000 {
            dec_of(v as nat) + " B/s"@
        } else {
            binary_size_of(v) + "/s"@
        },
        Unit::Bits => bits_scaled_of((v * 8) as nat, true),
    }
}

/// Renders a throughput rate.
pub fn human_rate(v: u64, unit: Unit) -> (r: String)
    ensures
        r@ == rate_label_of(v, unit),
{
    match unit {
        Unit::Bytes => {
            if v < 1000 {
                let mut s = fmt_u64(v);
                s.append(" B/s");
                s
            } else {
                let mut s = format_size_binary(v);
                s.append("/s");
                s
            }
        },
        Unit::Bits => bits_scaled((v as u128) * 8, true),
    }
}

/// Rendering of a link speed in bits per second: two truncated decimals
/// with a decimal prefix, whole bits below 1000.
pub open spec fn bps_label_of(bps: u64) -> Seq<char> {
    if bps >= 1000000000 {
        dec_of(bps as nat / 1000000000) + "."@ + pad2_of((bps as nat % 1000000000) / 10000000)
            + " Gb/s"@
    } else if bps >= 1000000 {
        dec_of(bps as nat / 1000000) + "."@ + pad2_of((bps as nat % 1000000) / 10000) + " Mb/s"@
    } else if bps >= 1000 {
        dec_of(bps as nat / 1000) + "."@ + pad2_of((bps as nat % 1000) / 10) + " Kb/s"@
    } else {
        dec_of(bps as nat) + " b/s"@
    }
}

/// Renders a link speed in bits per second.
pub fn fmt_bps(bps: u64) -> (r: String)
    ensures
        r@ == bps_label_of(bps),
{
    if bps >= 1000000000 {
        let mut s = fmt_u64(bps / 1000000000);
        s.append(".");
        s.append(fmt_pad2((bps % 1000000000) / 10000000).as_str());
        s.append(" Gb/s");
        s
    } else if bps >= 1000000 {
        let mut s = fmt_u64(bps / 1000000);
        s.append(".");
        s.append(fmt_pad2((bps % 1000000) / 10000).as_str());
        s.append(" Mb/s");
        s
    } else if bps >= 1000 {
        let mut s = fmt_u64(bps / 1000);
        s.append(".");
        s.append(fmt_pad2((bps % 1000) / 10).as_str());
        s.append(" Kb/s");
        s
    } else {
        let mut s = fmt_u64(bps);
        s.append(" b/s");
        s
    }
}

/// Rendering of a raw flags word: `0x` followed by eight upper-case
/// hexadecimal digits.
pub open spec fn flags_label_of(flags: u32) -> Seq<char> {
    "0x"@ + hex_of(flags as nat, 8, true)
}

/// Renders a raw flags word.
pub fn fmt_flags(flags: u32) -> (r: String)
    ensures
        r@ == flags_label_of(flags),
{
    let mut s = String::from_str("0x");
    s.append(fmt_hex(flags, 8, true).as_str());
    s
}

} // verus!
