//! The boot translation tables (identity map, linear map, and the mapping
//! used by the out-of-range DRAM test), and the translation-control values
//! that go with them.
use vstd::prelude::*;
use crate::descriptor::{
    block_desc, block_descriptor, device_attr_bits, device_block_attrs, normal_attr_bits,
    normal_block_attrs, table_desc, table_descriptor,
};

verus! {

pub const ENTRY_COUNT: usize = 512;
pub const PAGE_SHIFT_2M: usize = 21;
pub const PAGE_SHIFT_1G: usize = 30;
pub const LINEAR_MAP_BASE: u64 = 0xffff_ffff_0000_0000;
pub const LINEAR_L1_START_INDEX: usize = 0;
pub const LINEAR_MAP_GB_COUNT: usize = 4;
pub const OOB_TEST_VA: usize = 0xa000_0000;

pub const MAIR_DEVICE_NGNRNE: u64 = 0x00;
pub const MAIR_NORMAL_WB: u64 = 0xff;
pub const MAIR_VALUE: u64 = MAIR_DEVICE_NGNRNE | (MAIR_NORMAL_WB << 8);

pub const TCR_T0SZ_4GB: u64 = 32;
pub const TCR_T1SZ_4GB: u64 = 32 << 16;
pub const TCR_IRGN0_WBWA: u64 = 0b01 << 8;
pub const TCR_ORGN0_WBWA: u64 = 0b01 << 10;
pub const TCR_SH0_INNER: u64 = 0b11 << 12;
pub const TCR_TG0_4K: u64 = 0b00 << 14;
pub const TCR_EL2_PS_40BIT: u64 = 0b010 << 16;
pub const TCR_IRGN1_WBWA: u64 = 0b01 << 24;
pub const TCR_ORGN1_WBWA: u64 = 0b01 << 26;
pub const TCR_SH1_INNER: u64 = 0b11 << 28;
pub const TCR_TG1_4K: u64 = 0b10 << 30;
pub const TCR_IPS_40BIT: u64 = 0b010 << 32;
pub const TCR_EL2_VALUE: u64 = TCR_T0SZ_4GB | TCR_IRGN0_WBWA | TCR_ORGN0_WBWA | TCR_SH0_INNER
    | TCR_TG0_4K | TCR_EL2_PS_40BIT;
pub const TCR_VALUE: u64 = TCR_T0SZ_4GB | TCR_T1SZ_4GB | TCR_IRGN0_WBWA | TCR_ORGN0_WBWA
    | TCR_SH0_INNER | TCR_TG0_4K | TCR_IRGN1_WBWA | TCR_ORGN1_WBWA | TCR_SH1_INNER | TCR_TG1_4K
    | TCR_IPS_40BIT;

/// The values that turn on translation at EL2: memory attributes, control,
/// and the base of the identity map.
#[derive(Clone, Copy, Debug, PartialEq, Eq)]
pub struct El2TranslationRegs {
    pub mair: u64,
    pub tcr: u64,
    pub ttbr0: u64,
}

/// The values that turn on translation at EL1: memory attributes, control,
/// the base of the identity map (TTBR0) and of the linear map (TTBR1).
#[derive(Clone, Copy, Debug, PartialEq, Eq)]
pub struct El1TranslationRegs {
    pub mair: u64,
    pub tcr: u64,
    pub ttbr0: u64,
    pub ttbr1: u64,
}

/// The level 1 table of the identity map: entry 0 points to the level 2
/// table of the first GiB, entry 1 maps the second GiB as one normal block;
/// the other entries keep what they held.
pub open spec fn identity_map_l1(prev: Seq<u64>, l2_addr: u64) -> Seq<u64> {
    prev.update(0, table_descriptor(l2_addr)).update(
        1,
        block_descriptor(1u64 << 30, normal_attr_bits()),
    )
}

/// The level 2 table of the identity map: the first GiB as 512 device blocks
/// of 2 MiB, each at its own address.
pub open spec fn identity_map_l2() -> Seq<u64> {
    Seq::new(512, |i: int| block_descriptor((i as u64) << 21, device_attr_bits()))
}

/// The level 1 table of the linear map: entries 0..4 map the first 4 GiB of
/// physical memory as 1 GiB blocks, the first one device and the others
/// normal; the other entries keep what they held.
pub open spec fn linear_map_l1(prev: Seq<u64>) -> Seq<u64> {
    Seq::new(
        512,
        |i: int|
            if i < 4 {
                block_descriptor(
                    (i as u64) << 30,
                    if i == 0 {
                        device_attr_bits()
                    } else {
                        normal_attr_bits()
                    },
                )
            } else {
                prev[i]
            },
    )
}

/// The level 1 table after the out-of-range test mapping: entry 2 points to
/// the test's level 2 table.
pub open spec fn oob_test_l1(prev: Seq<u64>, oob_l2_addr: u64) -> Seq<u64> {
    prev.update(2, table_descriptor(oob_l2_addr))
}

/// The test's level 2 table: entry 256 maps the 2 MiB at 0xa000_0000 as one
/// normal block.
pub open spec fn oob_test_l2(prev: Seq<u64>) -> Seq<u64> {
    prev.update(256, block_descriptor(0xa000_0000, normal_attr_bits()))
}

proof fn lemma_shift_to_u64(index: usize, shift: usize)
    requires
        (shift == 21 && index < 512) || (shift == 30 && index < 4),
    ensures
        ((index << shift) as u64) == ((index as u64) << (shift as u64)),
{
    assert(((index << shift) as u64) == ((index as u64) << (shift as u64))) by (bit_vector)
        requires
            (shift == 21 && index < 512) || (shift == 30 && index < 4),
    ;
}

/// Writes the identity map of the first 2 GiB: the first GiB as device
/// blocks through the level 2 table at `l2_addr`, the second GiB as one
/// normal block.
pub fn build_identity_map(l1: &mut [u64; 512], l2: &mut [u64; 512], l2_addr: usize)
    ensures
        final(l1)@ == identity_map_l1(old(l1)@, l2_addr as u64),
        final(l2)@ == identity_map_l2(),
{
    l1[0] = table_desc(l2_addr);

    let mut index: usize = 0;
    while index < ENTRY_COUNT
        invariant
            index <= 512,
            l2@.len() == 512,
            forall|i: int| 0 <= i < index ==> l2@[i] == identity_map_l2()[i],
        decreases 512 - index,
    {
        let phys = index << PAGE_SHIFT_2M;
        proof {
            lemma_shift_to_u64(index, PAGE_SHIFT_2M);
        }
        l2[index] = block_desc(phys, device_block_attrs());
        index = index + 1;
    }

    l1[1] = block_desc(1 << PAGE_SHIFT_1G, normal_block_attrs());
    proof {
        lemma_shift_to_u64(1, PAGE_SHIFT_1G);
    }
    assert(l2@ =~= identity_map_l2());
    assert(l1@ =~= identity_map_l1(old(l1)@, l2_addr as u64));
}

/// Adds the mapping that the out-of-range DRAM test reads through: the
/// 2 MiB at `OOB_TEST_VA`, at its own address, as normal memory, through the
/// level 2 table at `oob_l2_addr`.
pub fn map_oob_test_block(l1: &mut [u64; 512], oob_l2: &mut [u64; 512], oob_l2_addr: usize)
    ensures
        final(l1)@ == oob_test_l1(old(l1)@, oob_l2_addr as u64),
        final(oob_l2)@ == oob_test_l2(old(oob_l2)@),
{
    assert((OOB_TEST_VA >> PAGE_SHIFT_1G) == 2 && (1usize << PAGE_SHIFT_1G) >= 1 && ((OOB_TEST_VA
        & (((1usize << PAGE_SHIFT_1G) - 1) as usize)) >> PAGE_SHIFT_2M) == 256) by (bit_vector);
    let l1_index = OOB_TEST_VA >> PAGE_SHIFT_1G;
    let l2_index = (OOB_TEST_VA & ((1usize << PAGE_SHIFT_1G) - 1)) >> PAGE_SHIFT_2M;

    l1[l1_index] = table_desc(oob_l2_addr);
    oob_l2[l2_index] = block_desc(OOB_TEST_VA, normal_block_attrs());
}

/// Writes the linear map: the first 4 GiB of physical memory as 1 GiB
/// blocks, the first device and the others normal.
pub fn build_linear_map(linear_l1: &mut [u64; 512])
    ensures
        final(linear_l1)@ == linear_map_l1(old(linear_l1)@),
{
    let mut index: usize = 0;
    while index < LINEAR_MAP_GB_COUNT
        invariant
            index <= 4,
            linear_l1@.len() == 512,
            forall|i: int| 0 <= i < index ==> linear_l1@[i] == linear_map_l1(old(linear_l1)@)[i],
            forall|i: int| index <= i < 512 ==> linear_l1@[i] == old(linear_l1)@[i],
        decreases 4 - index,
    {
        let phys = index << PAGE_SHIFT_1G;
        proof {
            lemma_shift_to_u64(index, PAGE_SHIFT_1G);
        }
        let attrs = if index == 0 {
            device_block_attrs()
        } else {
            normal_block_attrs()
        };

        linear_l1[LINEAR_L1_START_INDEX + index] = block_desc(phys, attrs);
        index = index + 1;
    }
    assert(linear_l1@ =~= linear_map_l1(old(linear_l1)@));
}

/// Writes the identity map for EL2 and gives the values that turn on
/// translation through it.
pub fn enable_el2_mmu(l1: &mut [u64; 512], l2: &mut [u64; 512], l1_addr: usize, l2_addr: usize)
    -> (regs: El2TranslationRegs)
    ensures
        final(l1)@ == identity_map_l1(old(l1)@, l2_addr as u64),
        final(l2)@ == identity_map_l2(),
        regs == (El2TranslationRegs { mair: MAIR_VALUE, tcr: TCR_EL2_VALUE, ttbr0: l1_addr as u64 }),
{
    build_identity_map(l1, l2, l2_addr);
    El2TranslationRegs { mair: MAIR_VALUE, tcr: TCR_EL2_VALUE, ttbr0: l1_addr as u64 }
}

/// Writes the identity map and the linear map for EL1 and gives the values
/// that turn on translation through them.
pub fn init(
    l1: &mut [u64; 512],
    l2: &mut [u64; 512],
    linear_l1: &mut [u64; 512],
    l1_addr: usize,
    l2_addr: usize,
    linear_l1_addr: usize,
) -> (regs: El1TranslationRegs)
    ensures
        final(l1)@ == identity_map_l1(old(l1)@, l2_addr as u64),
        final(l2)@ == identity_map_l2(),
        final(linear_l1)@ == linear_map_l1(old(linear_l1)@),
        regs == (El1TranslationRegs {
            mair: MAIR_VALUE,
            tcr: TCR_VALUE,
            ttbr0: l1_addr as u64,
            ttbr1: linear_l1_addr as u64,
        }),
{
    build_identity_map(l1, l2, l2_addr);
    build_linear_map(linear_l1);
    El1TranslationRegs {
        mair: MAIR_VALUE,
        tcr: TCR_VALUE,
        ttbr0: l1_addr as u64,
        ttbr1: linear_l1_addr as u64,
    }
}

/// A system control value with the MMU enable bit (M, bit 0) set and every
/// other bit as it was.
pub fn sctlr_with_mmu_enabled(sctlr: u64) -> (enabled: u64)
    ensures
        enabled == sctlr | 1,
        enabled & 1 == 1,
        enabled & !1u64 == sctlr & !1u64,
{
    let enabled = sctlr | 1 << 0;
    assert(enabled == sctlr | 1 && enabled & 1 == 1 && enabled & !1u64 == sctlr & !1u64)
        by (bit_vector)
        requires
            enabled == sctlr | (1u64 << 0u64),
    ;
    enabled
}

/// Each builder writes only its own entries and keeps every other entry:
/// the identity map writes level 1 entries 0 and 1, the out-of-range test
/// mapping level 1 entry 2 and entry 256 of its level 2 table, the linear
/// map entries 0..4 of its level 1 table.
pub proof fn lemma_builders_keep_other_entries(prev: Seq<u64>, addr: u64, j: int)
    requires
        prev.len() == 512,
        0 <= j < 512,
    ensures
        identity_map_l1(prev, addr).len() == 512,
        oob_test_l1(prev, addr).len() == 512,
        oob_test_l2(prev).len() == 512,
        linear_map_l1(prev).len() == 512,
        j != 0 && j != 1 ==> identity_map_l1(prev, addr)[j] == prev[j],
        j != 2 ==> oob_test_l1(prev, addr)[j] == prev[j],
        j != 256 ==> oob_test_l2(prev)[j] == prev[j],
        j >= 4 ==> linear_map_l1(prev)[j] == prev[j],
{
}

} // verus!
