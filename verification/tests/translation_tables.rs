use aarch64_boot::descriptor::{
    block_desc, device_block_attrs, normal_block_attrs, table_desc, ACCESS_FLAG, PXN, UXN,
};
use aarch64_boot::mmu::{
    build_identity_map, build_linear_map, enable_el2_mmu, init, map_oob_test_block,
    sctlr_with_mmu_enabled, El1TranslationRegs, El2TranslationRegs, LINEAR_MAP_BASE,
    MAIR_VALUE, OOB_TEST_VA, TCR_EL2_VALUE, TCR_VALUE,
};

/// A walk of a 4 GiB region with the 4 KiB granule, written out for the
/// tests: the physical address and the final descriptor, or `None` on a
/// fault.
fn walk(l1: &[u64; 512], tables: &[(u64, &[u64; 512])], ia: u64) -> Option<(u64, u64)> {
    let find = |addr: u64| tables.iter().find(|(a, _)| *a == addr).map(|(_, t)| *t).unwrap();
    let d1 = l1[((ia >> 30) & 0x1ff) as usize];
    if d1 & 1 == 0 {
        return None;
    }
    if d1 & 2 == 0 {
        return Some(((d1 & 0x0000_ffff_c000_0000) | (ia & 0x3fff_ffff), d1));
    }
    let l2 = find(d1 & 0x0000_ffff_ffff_f000);
    let d2 = l2[((ia >> 21) & 0x1ff) as usize];
    if d2 & 1 == 0 {
        return None;
    }
    if d2 & 2 == 0 {
        return Some(((d2 & 0x0000_ffff_ffe0_0000) | (ia & 0x1f_ffff), d2));
    }
    let l3 = find(d2 & 0x0000_ffff_ffff_f000);
    let d3 = l3[((ia >> 12) & 0x1ff) as usize];
    if d3 & 3 != 3 {
        return None;
    }
    Some(((d3 & 0x0000_ffff_ffff_f000) | (ia & 0xfff), d3))
}

#[test]
fn descriptor_values() {
    assert_eq!(table_desc(0x4008_0000), 0x4008_0003);
    assert_eq!(device_block_attrs(), 0x0060_0000_0000_0400);
    assert_eq!(device_block_attrs(), ACCESS_FLAG | PXN | UXN);
    assert_eq!(normal_block_attrs(), 0x0000_0000_0000_0704);
    assert_eq!(block_desc(0x4000_0000, normal_block_attrs()), 0x4000_0705);
    assert_eq!(block_desc(0x0920_0000, device_block_attrs()), 0x0060_0000_0920_0401);
}

#[test]
fn identity_map_tables() {
    let mut l1 = [0u64; 512];
    l1[7] = 0xdead;
    let mut l2 = [0u64; 512];
    build_identity_map(&mut l1, &mut l2, 0x4010_1000);
    assert_eq!(l1[0], 0x4010_1003);
    assert_eq!(l1[1], 0x4000_0705);
    assert_eq!(l1[2], 0);
    assert_eq!(l1[7], 0xdead);
    for (i, d) in l2.iter().enumerate() {
        assert_eq!(*d, ((i as u64) << 21) | 0x0060_0000_0000_0401);
    }
}

#[test]
fn identity_map_translates_each_address_to_itself() {
    let mut l1 = [0u64; 512];
    let mut l2 = [0u64; 512];
    build_identity_map(&mut l1, &mut l2, 0x4010_1000);
    let tables = [(0x4010_1000u64, &l2)];
    for ia in [0u64, 0x0900_0000, 0x0900_0fff, 0x3fff_ffff, 0x4000_0000, 0x4008_0000, 0x7fff_fff8] {
        let (pa, d) = walk(&l1, &tables, ia).unwrap();
        assert_eq!(pa, ia);
        let device = ia < 0x4000_0000;
        assert_eq!((d >> 2) & 7, if device { 0 } else { 1 });
        assert_eq!((d >> 54) & 1 == 1, device);
    }
    for ia in [0x8000_0000u64, 0xa000_0000, 0xffff_ffff] {
        assert_eq!(walk(&l1, &tables, ia), None);
    }
}

#[test]
fn oob_test_block_maps_only_its_two_megabytes() {
    let mut l1 = [0u64; 512];
    let mut l2 = [0u64; 512];
    let mut oob = [0u64; 512];
    build_identity_map(&mut l1, &mut l2, 0x4010_1000);
    map_oob_test_block(&mut l1, &mut oob, 0x4010_3000);
    assert_eq!(l1[2], 0x4010_3003);
    assert_eq!(oob[256], 0xa000_0705);
    assert_eq!(oob.iter().filter(|d| **d != 0).count(), 1);
    let tables = [(0x4010_1000u64, &l2), (0x4010_3000u64, &oob)];
    assert_eq!(walk(&l1, &tables, OOB_TEST_VA as u64).map(|m| m.0), Some(0xa000_0000));
    assert_eq!(walk(&l1, &tables, 0xa01f_fff8).map(|m| m.0), Some(0xa01f_fff8));
    assert_eq!(walk(&l1, &tables, 0xa020_0000), None);
    assert_eq!(walk(&l1, &tables, 0x9fff_fff8), None);
    assert_eq!(walk(&l1, &tables, 0x8000_0000), None);
    assert_eq!(walk(&l1, &tables, 0x4000_0000).map(|m| m.0), Some(0x4000_0000));
}

#[test]
fn linear_map_tables_and_translation() {
    let mut l1 = [5u64; 512];
    build_linear_map(&mut l1);
    assert_eq!(l1[0], 0x0060_0000_0000_0401);
    assert_eq!(l1[1], 0x4000_0705);
    assert_eq!(l1[2], 0x8000_0705);
    assert_eq!(l1[3], 0xc000_0705);
    assert!(l1[4..].iter().all(|d| *d == 5));
    for off in [0u64, 0x0900_0000, 0x4000_0000, 0x8765_4321, 0xffff_ffff] {
        let va = LINEAR_MAP_BASE + off;
        assert_eq!(walk(&l1, &[], va - LINEAR_MAP_BASE).map(|m| m.0), Some(off));
    }
    assert_eq!(LINEAR_MAP_BASE, 0xffff_ffff_0000_0000);
}

#[test]
fn el2_and_el1_register_values() {
    let mut l1 = [0u64; 512];
    let mut l2 = [0u64; 512];
    let mut lin = [0u64; 512];
    let regs = enable_el2_mmu(&mut l1, &mut l2, 0x4010_0000, 0x4010_1000);
    assert_eq!(regs, El2TranslationRegs { mair: 0xff00, tcr: 0x2_3520, ttbr0: 0x4010_0000 });
    assert_eq!(l1[0], 0x4010_1003);
    let regs = init(&mut l1, &mut l2, &mut lin, 0x4010_0000, 0x4010_1000, 0x4010_2000);
    assert_eq!(
        regs,
        El1TranslationRegs {
            mair: 0xff00,
            tcr: 0x2_b520_3520,
            ttbr0: 0x4010_0000,
            ttbr1: 0x4010_2000,
        }
    );
    assert_eq!(lin[3], 0xc000_0705);
    assert_eq!(MAIR_VALUE, 0xff00);
    assert_eq!(TCR_EL2_VALUE & 0x3f, 32);
    assert_eq!((TCR_VALUE >> 16) & 0x3f, 32);
    assert_eq!((TCR_VALUE >> 30) & 3, 2);
}

#[test]
fn sctlr_mmu_bit() {
    assert_eq!(sctlr_with_mmu_enabled(0x30d0_0800), 0x30d0_0801);
    assert_eq!(sctlr_with_mmu_enabled(0x30d0_0801), 0x30d0_0801);
    assert_eq!(sctlr_with_mmu_enabled(0), 1);
    assert_eq!(sctlr_with_mmu_enabled(u64::MAX), u64::MAX);
    let once = sctlr_with_mmu_enabled(0x1234_5678_9abc_def0);
    assert_eq!(sctlr_with_mmu_enabled(once), once);
    assert_eq!(once & !1, 0x1234_5678_9abc_def0 & !1);
}
