//! Translation-table descriptors for the 4 KiB granule: how the boot code
//! writes them, and how the hardware reads them.
use vstd::prelude::*;

verus! {

pub const DESC_VALID: u64 = 1 << 0;
pub const DESC_TABLE: u64 = 1 << 1;
pub const DESC_BLOCK: u64 = 0 << 1;

pub const ATTR_IDX_SHIFT: u64 = 2;
pub const ATTR_IDX_DEVICE: u64 = 0 << ATTR_IDX_SHIFT;
pub const ATTR_IDX_NORMAL: u64 = 1 << ATTR_IDX_SHIFT;
pub const ACCESS_FLAG: u64 = 1 << 10;
pub const INNER_SHAREABLE: u64 = 0b11 << 8;
pub const PXN: u64 = 1 << 53;
pub const UXN: u64 = 1 << 54;

/// Output-address bits [47:12] of a table or page descriptor.
pub const TABLE_ADDR_MASK: u64 = 0x0000_ffff_ffff_f000;
/// Output-address bits [47:30] of a level 1 block descriptor.
pub const L1_BLOCK_ADDR_MASK: u64 = 0x0000_ffff_c000_0000;
/// Output-address bits [47:21] of a level 2 block descriptor.
pub const L2_BLOCK_ADDR_MASK: u64 = 0x0000_ffff_ffe0_0000;

/// The attribute fields of a block or page descriptor.
#[derive(Clone, Copy, Debug, PartialEq, Eq)]
pub struct MemoryAttrs {
    /// AttrIndx, bits [4:2]: the MAIR field that gives the memory type.
    pub attr_index: u64,
    /// AP, bits [7:6]: the access permissions.
    pub access_perms: u64,
    /// SH, bits [9:8]: the shareability.
    pub shareability: u64,
    /// AF, bit 10: the access flag.
    pub access_flag: bool,
    /// PXN, bit 53: privileged execute-never.
    pub pxn: bool,
    /// UXN, bit 54: unprivileged execute-never.
    pub uxn: bool,
}

/// What the hardware makes of a descriptor.
#[derive(Clone, Copy, Debug, PartialEq, Eq)]
pub enum Descriptor {
    /// Bit 0 clear, or a reserved encoding: the lookup faults.
    Invalid,
    /// The address of the next-level table.
    Table { next_table: u64 },
    /// A block at level 1 (1 GiB) or level 2 (2 MiB).
    Block { output: u64, attrs: MemoryAttrs },
    /// A 4 KiB page at level 3.
    Page { output: u64, attrs: MemoryAttrs },
}

/// The attribute fields of a descriptor.
pub open spec fn memory_attrs(d: u64) -> MemoryAttrs {
    MemoryAttrs {
        attr_index: (d >> 2) & 0x7,
        access_perms: (d >> 6) & 0x3,
        shareability: (d >> 8) & 0x3,
        access_flag: (d >> 10) & 1 == 1,
        pxn: (d >> 53) & 1 == 1,
        uxn: (d >> 54) & 1 == 1,
    }
}

/// How the hardware reads a descriptor at a lookup level (1, 2 or 3) with
/// the 4 KiB granule and 48-bit output addresses.
pub open spec fn decode_descriptor(d: u64, level: nat) -> Descriptor {
    if d & 1 == 0 {
        Descriptor::Invalid
    } else if level == 3 {
        if d & 2 == 2 {
            Descriptor::Page { output: d & TABLE_ADDR_MASK, attrs: memory_attrs(d) }
        } else {
            Descriptor::Invalid
        }
    } else if d & 2 == 2 {
        Descriptor::Table { next_table: d & TABLE_ADDR_MASK }
    } else if level == 1 {
        Descriptor::Block { output: d & L1_BLOCK_ADDR_MASK, attrs: memory_attrs(d) }
    } else if level == 2 {
        Descriptor::Block { output: d & L2_BLOCK_ADDR_MASK, attrs: memory_attrs(d) }
    } else {
        Descriptor::Invalid
    }
}

/// A table descriptor as the boot code writes it.
pub open spec fn table_descriptor(addr: u64) -> u64 {
    addr | DESC_VALID | DESC_TABLE
}

/// A block descriptor as the boot code writes it.
pub open spec fn block_descriptor(addr: u64, attrs: u64) -> u64 {
    addr | DESC_VALID | DESC_BLOCK | attrs
}

/// The attributes of a device block: MAIR index 0, access flag set,
/// never executable.
pub open spec fn device_attr_bits() -> u64 {
    ATTR_IDX_DEVICE | ACCESS_FLAG | PXN | UXN
}

/// The attributes of a normal-memory block: MAIR index 1, access flag set,
/// inner shareable.
pub open spec fn normal_attr_bits() -> u64 {
    ATTR_IDX_NORMAL | ACCESS_FLAG | INNER_SHAREABLE
}

/// An address that a table or page descriptor can hold: 4 KiB aligned and
/// below 2^48.
pub open spec fn is_table_address(addr: u64) -> bool {
    addr & 0xffff_0000_0000_0fff == 0
}

/// An address that a block descriptor at `level` can hold: aligned to the
/// block size (1 GiB at level 1, 2 MiB at level 2) and below 2^48.
pub open spec fn is_block_address(addr: u64, level: nat) -> bool {
    if level == 1 {
        addr & 0xffff_0000_3fff_ffff == 0
    } else {
        level == 2 && addr & 0xffff_0000_001f_ffff == 0
    }
}

/// Attribute bits that leave the type bits and the address bits alone.
pub open spec fn is_attr_only(attrs: u64) -> bool {
    attrs & 0x0000_ffff_ffff_f003 == 0
}

/// A table descriptor for the given address.
pub fn table_desc(addr: usize) -> (d: u64)
    ensures
        d == table_descriptor(addr as u64),
{
    (addr as u64) | DESC_VALID | DESC_TABLE
}

/// A block descriptor for the given address and attributes.
pub fn block_desc(addr: usize, attrs: u64) -> (d: u64)
    ensures
        d == block_descriptor(addr as u64, attrs),
{
    (addr as u64) | DESC_VALID | DESC_BLOCK | attrs
}

/// The attributes of a device block.
pub fn device_block_attrs() -> (attrs: u64)
    ensures
        attrs == device_attr_bits(),
        memory_attrs(attrs) == (MemoryAttrs {
            attr_index: 0,
            access_perms: 0,
            shareability: 0,
            access_flag: true,
            pxn: true,
            uxn: true,
        }),
        is_attr_only(attrs),
{
    proof {
        lemma_attr_bits_fields();
    }
    ATTR_IDX_DEVICE | ACCESS_FLAG | PXN | UXN
}

/// The attributes of a normal-memory block.
pub fn normal_block_attrs() -> (attrs: u64)
    ensures
        attrs == normal_attr_bits(),
        memory_attrs(attrs) == (MemoryAttrs {
            attr_index: 1,
            access_perms: 0,
            shareability: 0b11,
            access_flag: true,
            pxn: false,
            uxn: false,
        }),
        is_attr_only(attrs),
{
    proof {
        lemma_attr_bits_fields();
    }
    ATTR_IDX_NORMAL | ACCESS_FLAG | INNER_SHAREABLE
}

/// The fields of the two attribute sets.
pub proof fn lemma_attr_bits_fields()
    ensures
        device_attr_bits() == 0x0060_0000_0000_0400,
        normal_attr_bits() == 0x0000_0000_0000_0704,
        memory_attrs(device_attr_bits()) == (MemoryAttrs {
            attr_index: 0,
            access_perms: 0,
            shareability: 0,
            access_flag: true,
            pxn: true,
            uxn: true,
        }),
        memory_attrs(normal_attr_bits()) == (MemoryAttrs {
            attr_index: 1,
            access_perms: 0,
            shareability: 0b11,
            access_flag: true,
            pxn: false,
            uxn: false,
        }),
        is_attr_only(device_attr_bits()),
        is_attr_only(normal_attr_bits()),
{
    assert(ATTR_IDX_DEVICE | ACCESS_FLAG | PXN | UXN == 0x0060_0000_0000_0400u64) by (bit_vector);
    assert(ATTR_IDX_NORMAL | ACCESS_FLAG | INNER_SHAREABLE == 0x0000_0000_0000_0704u64)
        by (bit_vector);
    let dv: u64 = 0x0060_0000_0000_0400;
    let nm: u64 = 0x0000_0000_0000_0704;
    assert((dv >> 2) & 0x7 == 0 && (dv >> 6) & 0x3 == 0 && (dv >> 8) & 0x3 == 0 && (dv >> 10) & 1
        == 1 && (dv >> 53) & 1 == 1 && (dv >> 54) & 1 == 1 && dv & 0x0000_ffff_ffff_f003 == 0)
        by (bit_vector)
        requires
            dv == 0x0060_0000_0000_0400u64,
    ;
    assert((nm >> 2) & 0x7 == 1 && (nm >> 6) & 0x3 == 0 && (nm >> 8) & 0x3 == 3 && (nm >> 10) & 1
        == 1 && (nm >> 53) & 1 == 0 && (nm >> 54) & 1 == 0 && nm & 0x0000_ffff_ffff_f003 == 0)
        by (bit_vector)
        requires
            nm == 0x0000_0000_0000_0704u64,
    ;
}

/// The type bits as numbers.
pub proof fn lemma_type_bits()
    ensures
        DESC_VALID == 1,
        DESC_TABLE == 2,
        DESC_BLOCK == 0,
{
    assert(DESC_VALID == 1u64 && DESC_TABLE == 2u64 && DESC_BLOCK == 0u64) by (bit_vector);
}

/// A table descriptor written for a table address reads back, at level 1 or
/// 2, as a table descriptor for that address.
pub proof fn lemma_table_descriptor_decodes(addr: u64, level: nat)
    requires
        is_table_address(addr),
        level == 1 || level == 2,
    ensures
        decode_descriptor(table_descriptor(addr), level) == (Descriptor::Table { next_table: addr }),
{
    lemma_type_bits();
    let d = table_descriptor(addr);
    assert(d & 1 == 1 && d & 2 == 2 && d & 0x0000_ffff_ffff_f000 == addr) by (bit_vector)
        requires
            d == addr | 1u64 | 2u64,
            addr & 0xffff_0000_0000_0fff == 0,
    ;
}

/// A block descriptor written for a block address and attribute bits reads
/// back, at its level, as a block at that address with those attributes.
pub proof fn lemma_block_descriptor_decodes(addr: u64, attrs: u64, level: nat)
    requires
        is_block_address(addr, level),
        is_attr_only(attrs),
    ensures
        decode_descriptor(block_descriptor(addr, attrs), level) == (Descriptor::Block {
            output: addr,
            attrs: memory_attrs(attrs),
        }),
{
    lemma_type_bits();
    let d = block_descriptor(addr, attrs);
    assert(d == addr | 1u64 | attrs) by (bit_vector)
        requires
            d == addr | 1u64 | 0u64 | attrs,
    ;
    assert(addr & 0xffff_0000_0000_0fff == 0) by (bit_vector)
        requires
            addr & 0xffff_0000_3fff_ffff == 0 || addr & 0xffff_0000_001f_ffff == 0,
    ;
    assert(d & 1 == 1 && d & 2 == 0 && (d >> 2) & 0x7 == (attrs >> 2) & 0x7 && (d >> 6) & 0x3 == (
    attrs >> 6) & 0x3 && (d >> 8) & 0x3 == (attrs >> 8) & 0x3 && (d >> 10) & 1 == (attrs >> 10) & 1
        && (d >> 53) & 1 == (attrs >> 53) & 1 && (d >> 54) & 1 == (attrs >> 54) & 1) by (bit_vector)
        requires
            d == addr | 1u64 | attrs,
            addr & 0xffff_0000_0000_0fff == 0,
            attrs & 0x0000_ffff_ffff_f003 == 0,
    ;
    if level == 1 {
        assert(d & 0x0000_ffff_c000_0000 == addr) by (bit_vector)
            requires
                d == addr | 1u64 | attrs,
                addr & 0xffff_0000_3fff_ffff == 0,
                attrs & 0x0000_ffff_ffff_f003 == 0,
        ;
    } else {
        assert(d & 0x0000_ffff_ffe0_0000 == addr) by (bit_vector)
            requires
                d == addr | 1u64 | attrs,
                addr & 0xffff_0000_001f_ffff == 0,
                attrs & 0x0000_ffff_ffff_f003 == 0,
        ;
    }
}

} // verus!
