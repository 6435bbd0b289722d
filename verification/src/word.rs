use vstd::prelude::*;

verus! {

/// The 16-bit value whose high byte is `hi` and whose low byte is `lo`.
pub open spec fn pair(hi: u8, lo: u8) -> u16 {
    (hi * 256 + lo) as u16
}

/// High byte of a 16-bit value.
pub open spec fn high(value: u16) -> u8 {
    (value / 256) as u8
}

/// Low byte of a 16-bit value.
pub open spec fn low(value: u16) -> u8 {
    (value % 256) as u8
}

/// Splitting a 16-bit value and joining the halves again gives the value back,
/// and the halves of a joined pair are the bytes it was made of.
pub proof fn lemma_pair_halves(hi: u8, lo: u8, value: u16)
    ensures
        high(pair(hi, lo)) == hi,
        low(pair(hi, lo)) == lo,
        pair(high(value), low(value)) == value,
{
}

/// Joins two bytes into a 16-bit value, `hi` being the high byte.
#[verifier::when_used_as_spec(pair)]
pub fn join(hi: u8, lo: u8) -> (value: u16)
    ensures
        value == pair(hi, lo),
{
    (hi as u16) * 256 + (lo as u16)
}

/// High byte of a 16-bit value.
#[verifier::when_used_as_spec(high)]
pub fn high_byte(value: u16) -> (hi: u8)
    ensures
        hi == high(value),
{
    (value / 256) as u8
}

/// Low byte of a 16-bit value.
#[verifier::when_used_as_spec(low)]
pub fn low_byte(value: u16) -> (lo: u8)
    ensures
        lo == low(value),
{
    (value % 256) as u8
}

} // verus!
