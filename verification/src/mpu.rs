//! The Cortex-M4 memory protection unit.
use vstd::prelude::*;

verus! {

/// Address of the first MPU register (`MPU_TYPE`).
pub const BASE_ADDRESS: usize = 0xE000ED90;

/// Handle on the memory-mapped MPU register block.
pub struct Mpu {
    /// Address of the register block.
    pub regs: usize,
}

impl Mpu {
    /// The MPU of this core, at its fixed register address.
    pub fn new() -> (m: Mpu)
        ensures
            m.regs == BASE_ADDRESS,
    {
        Mpu { regs: BASE_ADDRESS }
    }

    /// Address of the `MPU_TYPE` register, which the caller reads.
    pub fn type_register(&self) -> (addr: usize)
        ensures
            addr == self.regs,
    {
        self.regs
    }

    /// Number of MPU regions the hardware supports, given the value read
    /// from `MPU_TYPE`: the `DREGION` field, bits 8 to 15.
    pub fn num_regions(&self, mpu_type: u32) -> (n: u8)
        ensures
            n as int == (mpu_type as int / 256) % 256,
    {
        let r: u8 = #[verifier::truncate] ((mpu_type >> 8u32) as u8);
        assert(r as u32 == (mpu_type / 256) % 256) by (bit_vector)
            requires
                r == #[verifier::truncate] ((mpu_type >> 8u32) as u8),
        ;
        r
    }
}

} // verus!
