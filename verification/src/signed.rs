//! Numbers that cross an interface which takes them as signed.

use vstd::prelude::*;

verus! {

/// The signed number with the bits of `n`.
pub open spec fn signed(n: u32) -> int {
    if n <= i32::MAX {
        n as int
    } else {
        n - 0x1_0000_0000
    }
}

/// The signed number with the bits of `n`.
pub fn as_signed(n: u32) -> (number: i32)
    ensures
        number == signed(n),
{
    assert((n as i32) == (if n <= 0x7fff_ffff {
        n as int
    } else {
        n - 0x1_0000_0000
    })) by (bit_vector);
    #[verifier::truncate]
    (n as i32)
}

/// Numbers that a signed number can hold are unchanged, and no two numbers become the same.
pub proof fn law_signed_numbers(a: u32, b: u32)
    ensures
        a <= i32::MAX ==> signed(a) == a,
        i32::MIN <= signed(a) <= i32::MAX,
        signed(a) == signed(b) ==> a == b,
{
}

/// The number that crosses has the same bits: it differs from the one given by nothing, or by
/// what a 33rd bit would count, whichever brings it into range.
pub proof fn law_bits_are_kept(n: u32, number: i32)
    requires
        call_ensures(as_signed, (n,), number),
    ensures
        number == n || number == n - 0x1_0000_0000,
        number < 0 <==> n >= 0x8000_0000,
        signed(n) == number,
{
}

} // verus!
