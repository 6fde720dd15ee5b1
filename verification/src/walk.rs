//! A model of the hardware table walk for the translation regimes that the
//! boot code sets up, and the laws that its tables obey under it.
use vstd::prelude::*;
use crate::descriptor::{
    Descriptor, MemoryAttrs, decode_descriptor, device_attr_bits, is_table_address,
    lemma_attr_bits_fields, lemma_block_descriptor_decodes, lemma_table_descriptor_decodes,
    memory_attrs, normal_attr_bits,
};
use crate::mmu::{
    LINEAR_MAP_BASE, MAIR_DEVICE_NGNRNE, MAIR_NORMAL_WB, MAIR_VALUE, TCR_EL2_VALUE, TCR_VALUE,
    identity_map_l1, identity_map_l2, linear_map_l1, oob_test_l1, oob_test_l2,
};

verus! {

/// The outcome of translating an address.
#[derive(Clone, Copy, Debug, PartialEq, Eq)]
pub enum Translation {
    /// The walk found no valid mapping: a translation fault.
    Fault,
    /// The address maps to `pa` with the attributes of the final descriptor.
    Mapped { pa: u64, attrs: MemoryAttrs },
}

/// The walk of a 4 GiB input region (TnSZ = 32) with the 4 KiB granule: it
/// starts at level 1, indexed by input bits [31:30]; a level 1 table entry
/// leads to a level 2 table indexed by bits [29:21], a level 2 table entry to
/// a level 3 table indexed by bits [20:12]. `tables` holds the tables that
/// the walk may read, by physical address.
pub open spec fn walk_4gb(l1: Seq<u64>, tables: Map<u64, Seq<u64>>, ia: u64) -> Translation
    recommends
        ia < 0x1_0000_0000,
{
    match decode_descriptor(l1[((ia >> 30) & 0x1ff) as int], 1) {
        Descriptor::Block { output, attrs } => Translation::Mapped {
            pa: output | (ia & 0x3fff_ffff),
            attrs,
        },
        Descriptor::Table { next_table } => {
            match decode_descriptor(tables[next_table][((ia >> 21) & 0x1ff) as int], 2) {
                Descriptor::Block { output, attrs } => Translation::Mapped {
                    pa: output | (ia & 0x1f_ffff),
                    attrs,
                },
                Descriptor::Table { next_table } => {
                    match decode_descriptor(tables[next_table][((ia >> 12) & 0x1ff) as int], 3) {
                        Descriptor::Page { output, attrs } => Translation::Mapped {
                            pa: output | (ia & 0xfff),
                            attrs,
                        },
                        _ => Translation::Fault,
                    }
                },
                _ => Translation::Fault,
            }
        },
        _ => Translation::Fault,
    }
}

/// Translation at EL2 with the boot control value: only the lowest 4 GiB
/// are translated, through TTBR0_EL2.
pub open spec fn translate_el2(ttbr0_l1: Seq<u64>, tables: Map<u64, Seq<u64>>, va: u64) -> Translation {
    if va < 0x1_0000_0000 {
        walk_4gb(ttbr0_l1, tables, va)
    } else {
        Translation::Fault
    }
}

/// Translation at EL1 with the boot control value: the lowest 4 GiB through
/// TTBR0_EL1, the highest 4 GiB (from `LINEAR_MAP_BASE`) through TTBR1_EL1,
/// nothing in between.
pub open spec fn translate_el1(
    ttbr0_l1: Seq<u64>,
    ttbr1_l1: Seq<u64>,
    tables: Map<u64, Seq<u64>>,
    va: u64,
) -> Translation {
    if va < 0x1_0000_0000 {
        walk_4gb(ttbr0_l1, tables, va)
    } else if va >= LINEAR_MAP_BASE {
        walk_4gb(ttbr1_l1, tables, (va - LINEAR_MAP_BASE) as u64)
    } else {
        Translation::Fault
    }
}

/// The attributes of a device block, as the walk reports them.
pub open spec fn device_attrs() -> MemoryAttrs {
    memory_attrs(device_attr_bits())
}

/// The attributes of a normal-memory block, as the walk reports them.
pub open spec fn normal_attrs() -> MemoryAttrs {
    memory_attrs(normal_attr_bits())
}

/// T0SZ, bits [5:0] of a translation control value.
pub open spec fn tcr_t0sz(tcr: u64) -> u64 {
    tcr & 0x3f
}

/// TG0, bits [15:14]: the TTBR0 granule (0b00 is 4 KiB).
pub open spec fn tcr_tg0(tcr: u64) -> u64 {
    (tcr >> 14) & 0x3
}

/// T1SZ, bits [21:16] of TCR_EL1.
pub open spec fn tcr_t1sz(tcr: u64) -> u64 {
    (tcr >> 16) & 0x3f
}

/// TG1, bits [31:30] of TCR_EL1: the TTBR1 granule (0b10 is 4 KiB).
pub open spec fn tcr_tg1(tcr: u64) -> u64 {
    (tcr >> 30) & 0x3
}

/// IPS, bits [34:32] of TCR_EL1 (0b010 is 40 bits).
pub open spec fn tcr_ips(tcr: u64) -> u64 {
    (tcr >> 32) & 0x7
}

/// PS, bits [18:16] of TCR_EL2 (0b010 is 40 bits).
pub open spec fn tcr_el2_ps(tcr: u64) -> u64 {
    (tcr >> 16) & 0x7
}

/// The size of the input region that a TnSZ value selects.
pub open spec fn region_bits(tsz: u64) -> int {
    64 - tsz
}

/// The level at which a walk with the 4 KiB granule starts for a TnSZ value.
pub open spec fn first_lookup_level_4k(tsz: u64) -> int {
    if tsz <= 24 {
        0
    } else if tsz <= 33 {
        1
    } else {
        2
    }
}

/// The memory type that MAIR field `index` holds.
pub open spec fn mair_attr(mair: u64, index: u64) -> u64 {
    (mair >> (8 * index)) & 0xff
}

proof fn lemma_input_bits(ia: u64)
    by (bit_vector)
    ensures
        ia < 0x4000_0000 ==> (ia >> 30) & 0x1ff == 0,
        0x4000_0000 <= ia < 0x8000_0000 ==> (ia >> 30) & 0x1ff == 1,
        0x8000_0000 <= ia < 0xc000_0000 ==> (ia >> 30) & 0x1ff == 2,
        0xc000_0000 <= ia < 0x1_0000_0000 ==> (ia >> 30) & 0x1ff == 3,
        ia < 0x1_0000_0000 ==> (ia >> 30) & 0x1ff < 4 && ((((ia >> 30) & 0x1ff) << 30) | (ia
            & 0x3fff_ffff)) == ia,
        (ia >> 21) & 0x1ff < 512,
        ia < 0x4000_0000 ==> ((((ia >> 21) & 0x1ff) << 21) | (ia & 0x1f_ffff)) == ia,
        0x4000_0000 <= ia < 0x8000_0000 ==> ((1u64 << 30u64) | (ia & 0x3fff_ffff)) == ia,
        0x8000_0000 <= ia < 0xc000_0000 ==> (((ia >> 21) & 0x1ff == 256) <==> (0xa000_0000 <= ia
            < 0xa020_0000)),
        0xa000_0000 <= ia < 0xa020_0000 ==> (0xa000_0000u64 | (ia & 0x1f_ffff)) == ia,
{
}

proof fn lemma_block_address_bits(k: u64)
    by (bit_vector)
    ensures
        k < 512 ==> (k << 21u64) & 0xffff_0000_001f_ffff == 0,
        k < 4 ==> (k << 30u64) & 0xffff_0000_3fff_ffff == 0,
        0xa000_0000u64 & 0xffff_0000_001f_ffff == 0,
{
}

/// The identity map translates each of the first 2 GiB to itself: the first
/// GiB as device memory, the second as normal memory.
pub proof fn lemma_identity_map_translates(
    prev: Seq<u64>,
    l2_addr: u64,
    tables: Map<u64, Seq<u64>>,
    ia: u64,
)
    requires
        prev.len() == 512,
        is_table_address(l2_addr),
        tables[l2_addr] == identity_map_l2(),
        ia < 0x8000_0000,
    ensures
        walk_4gb(identity_map_l1(prev, l2_addr), tables, ia) == (Translation::Mapped {
            pa: ia,
            attrs: if ia < 0x4000_0000 {
                device_attrs()
            } else {
                normal_attrs()
            },
        }),
{
    lemma_input_bits(ia);
    lemma_attr_bits_fields();
    let l1 = identity_map_l1(prev, l2_addr);
    if ia < 0x4000_0000 {
        lemma_table_descriptor_decodes(l2_addr, 1);
        let k = (ia >> 21) & 0x1ff;
        lemma_block_address_bits(k);
        assert(identity_map_l2()[k as int] == crate::descriptor::block_descriptor(
            k << 21,
            device_attr_bits(),
        ));
        lemma_block_descriptor_decodes(k << 21, device_attr_bits(), 2);
    } else {
        lemma_block_address_bits(1);
        lemma_block_descriptor_decodes(1u64 << 30, normal_attr_bits(), 1);
    }
}

/// Under the identity map alone, EL2 faults on every address from 2 GiB up:
/// the third and fourth GiB because the level 1 table held no valid entry
/// there before, the rest because it lies outside the translated region.
pub proof fn lemma_identity_map_upper_half_faults(
    prev: Seq<u64>,
    l2_addr: u64,
    tables: Map<u64, Seq<u64>>,
    va: u64,
)
    requires
        prev.len() == 512,
        prev[2] & 1 == 0,
        prev[3] & 1 == 0,
        va >= 0x8000_0000,
    ensures
        translate_el2(identity_map_l1(prev, l2_addr), tables, va) == Translation::Fault,
{
    lemma_input_bits(va);
}

/// Adding the out-of-range test mapping leaves the identity map of the first
/// 2 GiB as it was.
pub proof fn lemma_oob_test_keeps_identity_map(
    prev: Seq<u64>,
    l2_addr: u64,
    oob_l2_addr: u64,
    tables: Map<u64, Seq<u64>>,
    ia: u64,
)
    requires
        prev.len() == 512,
        ia < 0x8000_0000,
    ensures
        walk_4gb(oob_test_l1(identity_map_l1(prev, l2_addr), oob_l2_addr), tables, ia) == walk_4gb(
            identity_map_l1(prev, l2_addr),
            tables,
            ia,
        ),
{
    lemma_input_bits(ia);
}

/// With the out-of-range test mapping, the third GiB maps only the 2 MiB at
/// `OOB_TEST_VA`, to itself as normal memory, and faults elsewhere, where the
/// test's level 2 table held no other valid entry.
pub proof fn lemma_oob_test_block_translates(
    prev: Seq<u64>,
    l2_addr: u64,
    oob_prev: Seq<u64>,
    oob_l2_addr: u64,
    tables: Map<u64, Seq<u64>>,
    ia: u64,
)
    requires
        prev.len() == 512,
        oob_prev.len() == 512,
        is_table_address(oob_l2_addr),
        tables[oob_l2_addr] == oob_test_l2(oob_prev),
        forall|j: int| 0 <= j < 512 && j != 256 ==> #[trigger] oob_prev[j] & 1 == 0,
        0x8000_0000 <= ia < 0xc000_0000,
    ensures
        walk_4gb(oob_test_l1(identity_map_l1(prev, l2_addr), oob_l2_addr), tables, ia) == if 0xa000_0000
            <= ia < 0xa020_0000 {
            Translation::Mapped { pa: ia, attrs: normal_attrs() }
        } else {
            Translation::Fault
        },
{
    lemma_input_bits(ia);
    lemma_attr_bits_fields();
    lemma_table_descriptor_decodes(oob_l2_addr, 1);
    lemma_block_address_bits(0);
    lemma_block_descriptor_decodes(0xa000_0000, normal_attr_bits(), 2);
    let k = ((ia >> 21) & 0x1ff) as int;
    if k != 256 {
        assert(oob_test_l2(oob_prev)[k] == oob_prev[k]);
        assert(oob_prev[k] & 1 == 0);
    }
}

/// The linear map translates `off` to physical `off` for each of the first
/// 4 GiB: the first GiB as device memory, the others as normal memory.
pub proof fn lemma_linear_map_translates(prev: Seq<u64>, tables: Map<u64, Seq<u64>>, off: u64)
    requires
        prev.len() == 512,
        off < 0x1_0000_0000,
    ensures
        walk_4gb(linear_map_l1(prev), tables, off) == (Translation::Mapped {
            pa: off,
            attrs: if off < 0x4000_0000 {
                device_attrs()
            } else {
                normal_attrs()
            },
        }),
{
    lemma_input_bits(off);
    lemma_attr_bits_fields();
    let k = (off >> 30) & 0x1ff;
    lemma_block_address_bits(k);
    if k == 0 {
        lemma_block_descriptor_decodes(k << 30, device_attr_bits(), 1);
    } else {
        lemma_block_descriptor_decodes(k << 30, normal_attr_bits(), 1);
    }
}

/// At EL1, after the boot code has written both maps, the kernel reaches
/// each of the first 2 GiB of physical memory at its own address and at
/// `LINEAR_MAP_BASE` plus it, with the same attributes; the linear alias of
/// each of the first 4 GiB maps to it; and addresses between the two regions
/// fault.
pub proof fn lemma_el1_linear_alias(
    prev_l1: Seq<u64>,
    l2_addr: u64,
    prev_linear: Seq<u64>,
    tables: Map<u64, Seq<u64>>,
    pa: u64,
    va: u64,
)
    requires
        prev_l1.len() == 512,
        prev_linear.len() == 512,
        is_table_address(l2_addr),
        tables[l2_addr] == identity_map_l2(),
    ensures
        pa < 0x1_0000_0000 ==> translate_el1(
            identity_map_l1(prev_l1, l2_addr),
            linear_map_l1(prev_linear),
            tables,
            (LINEAR_MAP_BASE + pa) as u64,
        ) == (Translation::Mapped {
            pa,
            attrs: if pa < 0x4000_0000 {
                device_attrs()
            } else {
                normal_attrs()
            },
        }),
        pa < 0x8000_0000 ==> translate_el1(
            identity_map_l1(prev_l1, l2_addr),
            linear_map_l1(prev_linear),
            tables,
            pa,
        ) == translate_el1(
            identity_map_l1(prev_l1, l2_addr),
            linear_map_l1(prev_linear),
            tables,
            (LINEAR_MAP_BASE + pa) as u64,
        ),
        0x1_0000_0000 <= va < LINEAR_MAP_BASE ==> translate_el1(
            identity_map_l1(prev_l1, l2_addr),
            linear_map_l1(prev_linear),
            tables,
            va,
        ) == Translation::Fault,
{
    assert(LINEAR_MAP_BASE == 0xffff_ffff_0000_0000u64);
    if pa < 0x1_0000_0000 {
        lemma_linear_map_translates(prev_linear, tables, pa);
        assert(((LINEAR_MAP_BASE + pa) as u64) >= LINEAR_MAP_BASE);
        assert((((LINEAR_MAP_BASE + pa) as u64) - LINEAR_MAP_BASE) as u64 == pa);
    }
    if pa < 0x8000_0000 {
        lemma_identity_map_translates(prev_l1, l2_addr, tables, pa);
    }
}

/// The control values select the walk of `walk_4gb` in every region they
/// enable: 4 GiB regions (TnSZ = 32) with the 4 KiB granule, so the walk
/// starts at level 1; 40-bit physical addresses; and the MAIR fields that the
/// two attribute sets index are Device-nGnRnE and Normal write-back memory.
pub proof fn lemma_control_values()
    ensures
        tcr_t0sz(TCR_VALUE) == 32,
        tcr_t1sz(TCR_VALUE) == 32,
        tcr_tg0(TCR_VALUE) == 0b00,
        tcr_tg1(TCR_VALUE) == 0b10,
        tcr_ips(TCR_VALUE) == 0b010,
        tcr_t0sz(TCR_EL2_VALUE) == 32,
        tcr_tg0(TCR_EL2_VALUE) == 0b00,
        tcr_el2_ps(TCR_EL2_VALUE) == 0b010,
        region_bits(tcr_t0sz(TCR_VALUE)) == 32,
        region_bits(tcr_t1sz(TCR_VALUE)) == 32,
        region_bits(tcr_t0sz(TCR_EL2_VALUE)) == 32,
        first_lookup_level_4k(tcr_t0sz(TCR_VALUE)) == 1,
        first_lookup_level_4k(tcr_t1sz(TCR_VALUE)) == 1,
        first_lookup_level_4k(tcr_t0sz(TCR_EL2_VALUE)) == 1,
        LINEAR_MAP_BASE == 0x1_0000_0000_0000_0000 - 0x1_0000_0000,
        mair_attr(MAIR_VALUE, device_attrs().attr_index) == MAIR_DEVICE_NGNRNE,
        mair_attr(MAIR_VALUE, normal_attrs().attr_index) == MAIR_NORMAL_WB,
{
    lemma_attr_bits_fields();
    let t = TCR_VALUE;
    let e = TCR_EL2_VALUE;
    let m = MAIR_VALUE;
    assert(TCR_VALUE == 0x2_b520_3520u64 && TCR_EL2_VALUE == 0x2_3520u64 && MAIR_VALUE == 0xff00u64)
        by (bit_vector);
    assert(t & 0x3f == 32 && (t >> 16) & 0x3f == 32 && (t >> 14) & 0x3 == 0 && (t >> 30) & 0x3 == 2
        && (t >> 32) & 0x7 == 2 && e & 0x3f == 32 && (e >> 14) & 0x3 == 0 && (e >> 16) & 0x7 == 2
        && (m >> 0u64) & 0xff == 0 && (m >> 8u64) & 0xff == 0xff) by (bit_vector)
        requires
            t == 0x2_b520_3520u64,
            e == 0x2_3520u64,
            m == 0xff00u64,
    ;
}

/// With the out-of-range test mapping added to the identity map, EL2 still
/// faults on every address from 3 GiB up, where the level 1 table held no
/// valid entry for the fourth GiB before: the test mapping reaches no
/// further than its own GiB.
pub proof fn lemma_oob_test_leaves_fourth_gib_unmapped(
    prev: Seq<u64>,
    l2_addr: u64,
    oob_l2_addr: u64,
    tables: Map<u64, Seq<u64>>,
    va: u64,
)
    requires
        prev.len() == 512,
        prev[3] & 1 == 0,
        va >= 0xc000_0000,
    ensures
        translate_el2(oob_test_l1(identity_map_l1(prev, l2_addr), oob_l2_addr), tables, va)
            == Translation::Fault,
{
    lemma_input_bits(va);
}

} // verus!
