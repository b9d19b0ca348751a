pub mod bundle;
pub mod claim;
pub mod codec;
pub mod errors;
pub mod events;
pub mod fill;
pub mod hash;
pub mod merkle;
pub mod relay;
pub mod state;
pub mod store;

use vstd::prelude::*;

verus! {

/// A 32-byte account or hash identifier, as used throughout the settlement core.
pub type Bytes32 = [u8; 32];

/// The all-zero identifier: the default public key on the host chain, also the
/// sentinel emitted as the hash of an empty relay message.
pub open spec fn zero_bytes() -> Seq<u8> {
    Seq::new(32, |i: int| 0u8)
}

/// Returns the all-zero identifier.
pub fn zero_bytes32() -> (r: Bytes32)
    ensures
        r@ == zero_bytes(),
{
    let r: Bytes32 = [0u8; 32];
    proof {
        assert(r@ =~= zero_bytes());
    }
    r
}

/// Tests whether an identifier is the all-zero default.
pub fn bytes32_is_zero(b: &[u8; 32]) -> (r: bool)
    ensures
        r == (b@ == zero_bytes()),
{
    let mut i: usize = 0;
    while i < 32
        invariant
            0 <= i <= 32,
            forall|j: int| 0 <= j < i ==> b@[j] == 0u8,
        decreases 32 - i,
    {
        if b[i] != 0 {
            proof {
                assert(zero_bytes()[i as int] == 0u8);
            }
            return false;
        }
        i += 1;
    }
    proof {
        assert(b@ =~= zero_bytes());
    }
    true
}

} // verus!
