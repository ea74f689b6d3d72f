use vstd::prelude::*;

verus! {

/// The features of a pool that can be switched off one by one. Each has a
/// bit in the pool's status byte.
#[derive(Clone, Copy, Debug, PartialEq, Eq, Structural)]
pub enum PoolStatusBitIndex {
    Deposit,
    Withdraw,
    Swap,
}

/// Whether a feature is on or off. In the status byte a set bit means off.
#[derive(Clone, Copy, Debug, PartialEq, Eq, Structural)]
pub enum PoolStatusBitFlag {
    Enable,
    Disable,
}

impl PoolStatusBitIndex {
    /// The place of the feature's bit, counted from the lowest.
    pub open spec fn spec_bit(self) -> u8 {
        match self {
            PoolStatusBitIndex::Deposit => 0,
            PoolStatusBitIndex::Withdraw => 1,
            PoolStatusBitIndex::Swap => 2,
        }
    }

    /// The place of the feature's bit, counted from the lowest.
    pub fn bit(&self) -> (b: u8)
        ensures
            b == self.spec_bit(),
    {
        match self {
            PoolStatusBitIndex::Deposit => 0,
            PoolStatusBitIndex::Withdraw => 1,
            PoolStatusBitIndex::Swap => 2,
        }
    }
}

/// A feature is enabled when its bit in the status byte is clear.
pub open spec fn feature_enabled(status: u8, bit: PoolStatusBitIndex) -> bool {
    (status >> bit.spec_bit()) & 1 == 0
}

/// Whether the status byte leaves the feature enabled.
pub fn is_enabled(status: u8, bit: PoolStatusBitIndex) -> (r: bool)
    ensures
        r == feature_enabled(status, bit),
{
    let b: u8 = bit.bit();
    let mask: u8 = 1u8 << b;
    assert((status & (1u8 << b) == 0) == ((status >> b) & 1 == 0)) by (bit_vector)
        requires
            b < 3,
    ;
    status & mask == 0
}

/// The flag that the status byte holds for the feature.
pub fn status_flag(status: u8, bit: PoolStatusBitIndex) -> (f: PoolStatusBitFlag)
    ensures
        (f == PoolStatusBitFlag::Enable) == feature_enabled(status, bit),
{
    if is_enabled(status, bit) {
        PoolStatusBitFlag::Enable
    } else {
        PoolStatusBitFlag::Disable
    }
}

/// The status byte with one feature switched and every other bit kept.
///
/// A pool's status is only ever replaced as a whole; this computes the byte
/// to replace it with when a single feature is to change.
pub fn with_status_flag(status: u8, bit: PoolStatusBitIndex, flag: PoolStatusBitFlag) -> (r: u8)
    ensures
        feature_enabled(r, bit) == (flag == PoolStatusBitFlag::Enable),
        forall|b: u8| b < 8 && b != bit.spec_bit() ==> #[trigger] (r >> b) & 1 == (status >> b) & 1,
{
    let k: u8 = bit.bit();
    let mask: u8 = 1u8 << k;
    match flag {
        PoolStatusBitFlag::Enable => {
            let r: u8 = status & !mask;
            assert(((status & !(1u8 << k)) >> k) & 1 == 0) by (bit_vector)
                requires
                    k < 3,
            ;
            assert forall|b: u8| b < 8 && b != k implies #[trigger] (r >> b) & 1 == (status >> b)
                & 1 by {
                assert(((status & !(1u8 << k)) >> b) & 1 == (status >> b) & 1) by (bit_vector)
                    requires
                        k < 3,
                        b < 8,
                        b != k,
                ;
            }
            r
        },
        PoolStatusBitFlag::Disable => {
            let r: u8 = status | mask;
            assert(((status | (1u8 << k)) >> k) & 1 == 1) by (bit_vector)
                requires
                    k < 3,
            ;
            assert forall|b: u8| b < 8 && b != k implies #[trigger] (r >> b) & 1 == (status >> b)
                & 1 by {
                assert(((status | (1u8 << k)) >> b) & 1 == (status >> b) & 1) by (bit_vector)
                    requires
                        k < 3,
                        b < 8,
                        b != k,
                ;
            }
            r
        },
    }
}

} // verus!
