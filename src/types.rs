use vstd::prelude::*;

verus! {

/// A 20-byte account address. The all-zero address stands for "no address"
/// (the target of a contract creation).
pub type Address = [u8; 20];

/// A 32-byte content digest (state roots, block hashes).
pub type Digest = [u8; 32];

/// A 256-bit quantity as four 64-bit limbs, least significant first.
pub type Word = [u64; 4];

/// The distinguished "no address" value: twenty zero bytes.
pub open spec fn zero_address() -> Address {
    vstd::array::spec_array_fill_for_copy_type::<u8, 20>(0u8)
}

/// Returns the zero address.
pub fn zero() -> (r: Address)
    ensures
        r == zero_address(),
{
    [0u8; 20]
}

/// Whether every byte of `a` is zero: the distinguished "no address" value.
pub open spec fn is_zero_address(a: Address) -> bool {
    forall|j: int| 0 <= j < 20 ==> #[trigger] a[j] == 0u8
}

/// Whether `a` is the zero address.
pub fn is_zero(a: &Address) -> (r: bool)
    ensures
        r == is_zero_address(*a),
{
    let mut i: usize = 0;
    while i < 20
        invariant
            0 <= i <= 20,
            forall|j: int| 0 <= j < i ==> a[j] == 0u8,
        decreases 20 - i,
    {
        if a[i] != 0 {
            return false;
        }
        i = i + 1;
    }
    true
}

} // verus!
