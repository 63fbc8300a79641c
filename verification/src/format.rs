//! Rendering of the saved-space total.
//!
//! The total is expressed in whole megabytes; from 1024 MiB upwards it is
//! rendered as gigabytes with the remaining megabytes after a dot (integer
//! division and remainder over 1024, not decimal rounding).

use vstd::prelude::*;

verus! {

/// The decimal digit character for `d` (for `0 <= d <= 9`).
pub open spec fn dec_digit(d: int) -> char {
    ((48 + d) as char)
}

/// The decimal representation of a non-negative integer, most significant
/// digit first, without leading zeros (a single zero for zero itself).
pub open spec fn dec_rep(n: int) -> Seq<char>
    decreases n,
{
    if n < 10 {
        seq![dec_digit(n)]
    } else {
        dec_rep(n / 10).push(dec_digit(n % 10))
    }
}

/// Renders an unsigned integer in decimal.
pub fn u64_to_dec(n: u64) -> (r: String)
    ensures
        r@ == dec_rep(n as int),
    decreases n,
{
    let digits = "0123456789";
    proof {
        reveal_strlit("0123456789");
    }
    if n < 10 {
        let d = n as usize;
        let piece = digits.substring_char(d, d + 1);
        proof {
            assert(piece@ =~= seq![digits@[d as int]]);
            assert(digits@[d as int] as u32 == 48 + d);
            assert(digits@[d as int] == dec_digit(n as int)) by {
                vstd::utf8::char_u32_cast(digits@[d as int], (48 + n) as u32);
            }
            assert(piece@ =~= dec_rep(n as int));
        }
        String::from_str(piece)
    } else {
        let mut r = u64_to_dec(n / 10);
        let d = (n % 10) as usize;
        let piece = digits.substring_char(d, d + 1);
        proof {
            assert(piece@ =~= seq![digits@[d as int]]);
            assert(digits@[d as int] as u32 == 48 + d);
            assert(digits@[d as int] == dec_digit(n as int % 10)) by {
                vstd::utf8::char_u32_cast(digits@[d as int], (48 + n % 10) as u32);
            }
        }
        r.append(piece);
        proof {
            assert(r@ =~= dec_rep(n as int));
        }
        r
    }
}

/// The text of the saved-space summary for a byte total: whole megabytes,
/// and from 1024 MiB upwards `<GB>.<remaining MB>GB`.
pub open spec fn saved_space_text(saved: u64) -> Seq<char> {
    let mb = saved as int / (1024int * 1024);
    if mb >= 1024 {
        dec_rep(mb / 1024) + "."@ + dec_rep(mb % 1024) + "GB"@
    } else {
        dec_rep(mb) + "MB"@
    }
}

/// Renders a byte total as the saved-space summary.
pub fn format_saved_space(saved: u64) -> (r: String)
    ensures
        r@ == saved_space_text(saved),
{
    let mb: u64 = saved / (1024 * 1024);
    if mb >= 1024 {
        let mut r = u64_to_dec(mb / 1024);
        r.append(".");
        let rem = u64_to_dec(mb % 1024);
        r.append(rem.as_str());
        r.append("GB");
        r
    } else {
        let mut r = u64_to_dec(mb);
        r.append("MB");
        r
    }
}

} // verus!
