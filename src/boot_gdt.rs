use vstd::prelude::*;
use crate::gdt::{SegmentDescriptor, FLAT_CODE_ACCESS, FLAT_DATA_ACCESS, FLAT_FLAGS};

verus! {

/// Selector of the boot stages' flat code segment (slot 1, ring 0).
pub const BOOT_CODE_SELECTOR: u16 = 0x08;
/// Selector of the boot stages' flat data segment (slot 2, ring 0).
pub const BOOT_DATA_SELECTOR: u16 = 0x10;

/// The boot stages' three-slot table: null, flat code, flat data, all ring 0.
#[derive(Clone, Copy, Debug, PartialEq, Eq, Structural)]
pub struct GlobalDescriptorTable {
    pub null: SegmentDescriptor,
    pub code: SegmentDescriptor,
    pub data: SegmentDescriptor,
}

/// The operand of the descriptor-table load instruction for the boot table.
#[derive(Clone, Copy, Debug, PartialEq, Eq, Structural)]
pub struct GDTDescriptor {
    pub size: u16,
    pub base: u32,
}

impl GlobalDescriptorTable {
    /// The table every boot stage loads before entering protected mode.
    pub fn new() -> (r: Self)
        ensures
            r.null.encoding() == 0,
            r.code.is_flat(FLAT_CODE_ACCESS, FLAT_FLAGS),
            r.data.is_flat(FLAT_DATA_ACCESS, FLAT_FLAGS),
    {
        GlobalDescriptorTable {
            null: SegmentDescriptor::null(),
            code: SegmentDescriptor::code_segment(),
            data: SegmentDescriptor::data_segment(),
        }
    }

    /// The operand that loads this table from linear address `base`.
    pub fn descriptor(&self, base: u32) -> (r: GDTDescriptor)
        ensures
            r.size == 3 * 8 - 1,
            r.base == base,
    {
        GDTDescriptor { size: 3 * 8 - 1, base }
    }

    /// Selector of the code segment.
    pub fn code_segment_selector(&self) -> (r: u16)
        ensures
            r == BOOT_CODE_SELECTOR,
    {
        BOOT_CODE_SELECTOR
    }

    /// Selector of the data segment.
    pub fn data_segment_selector(&self) -> (r: u16)
        ensures
            r == BOOT_DATA_SELECTOR,
    {
        BOOT_DATA_SELECTOR
    }
}

/// Encoded descriptor of the flat 32-bit code segment.
pub const FLAT_CODE_DESCRIPTOR: u64 = 0x00CF_9A00_0000_FFFF;
/// Encoded descriptor of the flat 32-bit data segment.
pub const FLAT_DATA_DESCRIPTOR: u64 = 0x00CF_9200_0000_FFFF;

/// The same three-slot table as [`GlobalDescriptorTable`], held as the
/// encoded 64-bit descriptors.
#[derive(Clone, Copy, Debug, PartialEq, Eq, Structural)]
pub struct GdtProtectedMode {
    pub zero: u64,
    pub code: u64,
    pub data: u64,
}

/// The operand of the descriptor-table load instruction for [`GdtProtectedMode`].
#[derive(Clone, Copy, Debug, PartialEq, Eq, Structural)]
pub struct GdtPointer {
    pub limit: u16,
    pub base: u32,
}

impl GdtProtectedMode {
    /// A flat table: zero, code and data descriptors over all 4 GiB.
    pub fn new() -> (r: Self)
        ensures
            r.zero == 0,
            r.code == FLAT_CODE_DESCRIPTOR,
            r.data == FLAT_DATA_DESCRIPTOR,
    {
        let limit: u64 = 0x000F_0000_0000_FFFF;
        let access_common: u64 = 0x0000_9200_0000_0000;
        let size_and_granularity: u64 = 0x00C0_0000_0000_0000;
        let executable: u64 = 0x0000_0800_0000_0000;
        let base_flags: u64 = size_and_granularity | access_common | limit;
        assert(size_and_granularity | access_common | limit == 0x00CF_9200_0000_FFFFu64)
            by (bit_vector)
            requires
                limit == 0x000F_0000_0000_FFFFu64,
                access_common == 0x0000_9200_0000_0000u64,
                size_and_granularity == 0x00C0_0000_0000_0000u64,
        ;
        assert(0x00CF_9200_0000_FFFFu64 | executable == FLAT_CODE_DESCRIPTOR) by (bit_vector)
            requires
                executable == 0x0000_0800_0000_0000u64,
        ;
        GdtProtectedMode { zero: 0, code: base_flags | executable, data: base_flags }
    }

    /// The operand that loads this table from linear address `base`.
    pub fn pointer(&self, base: u32) -> (r: GdtPointer)
        ensures
            r.limit == 3 * 8 - 1,
            r.base == base,
    {
        GdtPointer { limit: 3 * 8 - 1, base }
    }
}

/// The boot table built field by field and the one written as 64-bit
/// constants hold the same bytes, slot for slot.
pub proof fn lemma_boot_tables_agree(t: GlobalDescriptorTable, p: GdtProtectedMode)
    requires
        t.null.encoding() == 0,
        t.code.is_flat(FLAT_CODE_ACCESS, FLAT_FLAGS),
        t.data.is_flat(FLAT_DATA_ACCESS, FLAT_FLAGS),
        p.zero == 0,
        p.code == FLAT_CODE_DESCRIPTOR,
        p.data == FLAT_DATA_DESCRIPTOR,
    ensures
        t.null.encoding() == p.zero,
        t.code.encoding() == p.code,
        t.data.encoding() == p.data,
{
    lemma_flat_fields(t.code);
    lemma_flat_fields(t.data);
}

proof fn lemma_flat_fields(d: SegmentDescriptor)
    requires
        d.base_spec() == 0,
        d.limit_spec() == 0xFFFFF,
        d.flags_spec() == FLAT_FLAGS,
    ensures
        d.base_low == 0,
        d.base_mid == 0,
        d.base_high == 0,
        d.limit_low == 0xFFFF,
        d.limit_flags == 0xCF,
{
}

} // verus!
