//! The 8080 condition flags: five independent booleans recomputed from the
//! result of the most recent flag-affecting operation, plus the packed
//! "program status word" byte layout used by PUSH PSW / POP PSW.

use vstd::prelude::*;

verus! {

/// The condition flags of the 8080: zero, sign, parity, carry and
/// auxiliary carry, each an independent boolean.
#[derive(Clone, Copy, PartialEq, Eq, Structural, Debug)]
pub struct ConditionCodes {
    pub zero: bool,
    pub sign: bool,
    pub parity: bool,
    pub carry: bool,
    pub aux_carry: bool,
}

impl ConditionCodes {
    /// All flags start cleared.
    pub fn new() -> (cc: ConditionCodes)
        ensures
            cc == (ConditionCodes {
                zero: false,
                sign: false,
                parity: false,
                carry: false,
                aux_carry: false,
            }),
    {
        ConditionCodes { zero: false, sign: false, parity: false, carry: false, aux_carry: false }
    }
}

/// The number of set bits among the `i` lowest bits of `n`.
pub open spec fn bitsum(n: u8, i: nat) -> nat
    decreases i,
{
    if i == 0 {
        0
    } else {
        bitsum(n, (i - 1) as nat) + (if n & (1u8 << ((i - 1) as u8)) != 0 {
            1nat
        } else {
            0nat
        })
    }
}

/// A byte has even parity when it has an even number of set bits.
pub open spec fn spec_parity(n: u8) -> bool {
    bitsum(n, 8) % 2 == 0
}

/// Returns true iff `num` has an even number of set bits.
pub fn parity(num: u8) -> (r: bool)
    ensures
        r == spec_parity(num),
{
    let mut count: u8 = 0;
    let mut i: u8 = 0;
    while i < 8
        invariant
            i <= 8,
            count <= i,
            count as nat == bitsum(num, i as nat),
        decreases 8 - i,
    {
        if num & (1u8 << i) != 0 {
            count = count + 1;
        }
        i = i + 1;
    }
    count % 2 == 0
}

/// The packed program status word byte: sign at bit 7, zero at bit 6,
/// auxiliary carry at bit 4, parity at bit 2, carry at bit 0; bit 1 is
/// always one and bits 3 and 5 are always zero, the 8080 convention.
pub open spec fn pack_cc(cc: ConditionCodes) -> u8 {
    ((if cc.sign {
        128int
    } else {
        0int
    }) + (if cc.zero {
        64int
    } else {
        0int
    }) + (if cc.aux_carry {
        16int
    } else {
        0int
    }) + (if cc.parity {
        4int
    } else {
        0int
    }) + 2 + (if cc.carry {
        1int
    } else {
        0int
    })) as u8
}

/// The flags recovered from a packed program status word byte.
pub open spec fn unpack_cc(w: u8) -> ConditionCodes {
    ConditionCodes {
        zero: (w / 64) % 2 == 1,
        sign: (w / 128) % 2 == 1,
        parity: (w / 4) % 2 == 1,
        carry: w % 2 == 1,
        aux_carry: (w / 16) % 2 == 1,
    }
}

/// Packing the flags into a program status word and unpacking it again
/// recovers exactly the original flags.
pub proof fn lemma_pack_unpack(cc: ConditionCodes)
    ensures
        unpack_cc(pack_cc(cc)) == cc,
{
}

impl ConditionCodes {
    /// The packed program status word byte for these flags.
    pub fn pack(&self) -> (w: u8)
        ensures
            w == pack_cc(*self),
    {
        (if self.sign {
            128u8
        } else {
            0u8
        }) + (if self.zero {
            64u8
        } else {
            0u8
        }) + (if self.aux_carry {
            16u8
        } else {
            0u8
        }) + (if self.parity {
            4u8
        } else {
            0u8
        }) + 2 + (if self.carry {
            1u8
        } else {
            0u8
        })
    }

    /// The flags encoded by a packed program status word byte.
    pub fn unpack(w: u8) -> (cc: ConditionCodes)
        ensures
            cc == unpack_cc(w),
    {
        ConditionCodes {
            zero: (w / 64) % 2 == 1,
            sign: (w / 128) % 2 == 1,
            parity: (w / 4) % 2 == 1,
            carry: w % 2 == 1,
            aux_carry: (w / 16) % 2 == 1,
        }
    }
}

} // verus!
