//! Human-readable byte counts in IEC (binary) units.

use vstd::prelude::*;

verus! {

/// The text that bytesize's IEC display gives for a byte count.
pub uninterp spec fn iec_text(bytes: u64) -> Seq<char>;

pub open spec fn digit_char(d: nat) -> char
    recommends
        d < 10,
{
    ((d + 48) as u32) as char
}

/// The decimal digits of a number, most significant first, without leading zeros.
pub open spec fn decimal_digits(n: nat) -> Seq<char>
    decreases n,
{
    if n < 10 {
        seq![digit_char(n)]
    } else {
        decimal_digits(n / 10).push(digit_char(n % 10))
    }
}

/// Relies on bytesize's `ByteSize::display().iec()` rendered with `to_string`:
/// its text depends on the byte count alone. Under 1024 bytes it is the count in
/// decimal followed by " B"; from 1024 bytes on it ends in the "iB" unit suffix.
#[verifier::external_body]
pub(crate) fn iec_display(bytes: u64) -> (r: String)
    ensures
        r@ == iec_text(bytes),
        bytes < 1024 ==> r@ == decimal_digits(bytes as nat) + " B"@,
        bytes >= 1024 ==> r@.len() >= 2 && r@.subrange(r@.len() - 2, r@.len() as int) == "iB"@,
{
    bytesize::ByteSize::b(bytes).display().iec().to_string()
}

} // verus!
