use bootchain::boot_gdt::{self, GdtProtectedMode, BOOT_CODE_SELECTOR, BOOT_DATA_SELECTOR};
use bootchain::gdt::{
    GlobalDescriptorTable, PrivilegeLevel, SegmentDescriptor, SegmentSelector, GDT_CAPACITY,
};

#[test]
fn null_descriptor_is_zero() {
    assert_eq!(SegmentDescriptor::null().to_u64(), 0);
}

#[test]
fn boot_flat_segments_encode() {
    assert_eq!(SegmentDescriptor::code_segment().to_u64(), 0x00CF_9A00_0000_FFFF);
    assert_eq!(SegmentDescriptor::data_segment().to_u64(), 0x00CF_9200_0000_FFFF);
}

#[test]
fn kernel_and_user_segments_encode() {
    assert_eq!(SegmentDescriptor::kernel_code().to_u64(), 0x00AF_9B00_0000_FFFF);
    assert_eq!(SegmentDescriptor::kernel_data().to_u64(), 0x008F_9300_0000_FFFF);
    assert_eq!(SegmentDescriptor::user_code().to_u64(), 0x00AF_FB00_0000_FFFF);
    assert_eq!(SegmentDescriptor::user_data().to_u64(), 0x008F_F300_0000_FFFF);
    assert_eq!(SegmentDescriptor::user_code().privilege_level(), 3);
    assert_eq!(SegmentDescriptor::kernel_code().privilege_level(), 0);
}

#[test]
fn base_is_split_into_three_fields() {
    let d = SegmentDescriptor::null().with_base(0x1234_5678);
    assert_eq!(d.base_low, 0x5678);
    assert_eq!(d.base_mid, 0x34);
    assert_eq!(d.base_high, 0x12);
    assert_eq!(d.base(), 0x1234_5678);
    assert_eq!(d.to_u64(), 0x1200_0034_5678_0000);
}

#[test]
fn limit_keeps_twenty_bits_and_the_flags() {
    let d = SegmentDescriptor::null().with_flags(0xC0).with_limit(0x0012_3456);
    assert_eq!(d.limit(), 0x2_3456);
    assert_eq!(d.limit_low, 0x3456);
    assert_eq!(d.limit_flags, 0xC2);
    assert_eq!(d.flags(), 0xC0);
}

#[test]
fn flags_keep_the_limit_nibble() {
    let d = SegmentDescriptor::null().with_limit(0xFFFFF).with_flags(0xA5);
    assert_eq!(d.flags(), 0xA0);
    assert_eq!(d.limit(), 0xFFFFF);
    assert_eq!(d.limit_flags, 0xAF);
}

#[test]
fn access_byte_lands_in_byte_five() {
    let d = SegmentDescriptor::null().with_access(0x9A);
    assert_eq!(d.access, 0x9A);
    assert_eq!(d.to_u64(), 0x0000_9A00_0000_0000);
}

#[test]
fn three_descriptors_get_consecutive_selectors() {
    let mut gdt = GlobalDescriptorTable::new();
    assert_eq!(gdt.len(), 1);
    let code = gdt.add_descriptor(SegmentDescriptor::kernel_code(), PrivilegeLevel::Ring0);
    let data = gdt.add_descriptor(SegmentDescriptor::kernel_data(), PrivilegeLevel::Ring0);
    let user = gdt.add_descriptor(SegmentDescriptor::user_code(), PrivilegeLevel::Ring0);
    assert_eq!(code.value(), 0x08);
    assert_eq!(data.value(), 0x10);
    assert_eq!(user.value(), 0x18);
    assert_eq!(gdt.len(), 4);
    assert_eq!(gdt.get(0).to_u64(), 0);
    assert_eq!(gdt.get(1), SegmentDescriptor::kernel_code());
    assert_eq!(gdt.get(3), SegmentDescriptor::user_code());
}

#[test]
fn user_selectors_carry_ring_three() {
    let mut gdt = GlobalDescriptorTable::new();
    gdt.add_descriptor(SegmentDescriptor::kernel_code(), PrivilegeLevel::Ring0);
    gdt.add_descriptor(SegmentDescriptor::kernel_data(), PrivilegeLevel::Ring0);
    let uc = gdt.add_descriptor(SegmentDescriptor::user_code(), PrivilegeLevel::Ring3);
    let ud = gdt.add_descriptor(SegmentDescriptor::user_data(), PrivilegeLevel::Ring3);
    assert_eq!(uc.value(), 0x1B);
    assert_eq!(ud.value(), 0x23);
    assert_eq!(SegmentSelector::new(5, PrivilegeLevel::Ring2).value(), 0x2A);
}

#[test]
fn table_fills_up_at_capacity() {
    let mut gdt = GlobalDescriptorTable::new();
    let mut last = 0;
    while !gdt.is_full() {
        last = gdt.add_descriptor(SegmentDescriptor::kernel_data(), PrivilegeLevel::Ring0).value();
    }
    assert_eq!(gdt.len(), GDT_CAPACITY);
    assert_eq!(last, ((GDT_CAPACITY - 1) * 8) as u16);
}

#[test]
fn kernel_table_pointer() {
    let gdt = GlobalDescriptorTable::new();
    let p = gdt.pointer(0x1000);
    assert_eq!(p.limit, 63);
    assert_eq!(p.base, 0x1000);
}

#[test]
fn boot_table_layout_and_selectors() {
    let t = boot_gdt::GlobalDescriptorTable::new();
    assert_eq!(t.null.to_u64(), 0);
    assert_eq!(t.code.to_u64(), boot_gdt::FLAT_CODE_DESCRIPTOR);
    assert_eq!(t.data.to_u64(), boot_gdt::FLAT_DATA_DESCRIPTOR);
    assert_eq!(t.code_segment_selector(), BOOT_CODE_SELECTOR);
    assert_eq!(t.data_segment_selector(), BOOT_DATA_SELECTOR);
    assert_eq!(t.code_segment_selector(), 0x08);
    assert_eq!(t.data_segment_selector(), 0x10);
    let d = t.descriptor(0x7E40);
    assert_eq!(d.size, 23);
    assert_eq!(d.base, 0x7E40);
}

#[test]
fn both_boot_tables_hold_the_same_bytes() {
    let t = boot_gdt::GlobalDescriptorTable::new();
    let p = GdtProtectedMode::new();
    assert_eq!(p.zero, t.null.to_u64());
    assert_eq!(p.code, t.code.to_u64());
    assert_eq!(p.data, t.data.to_u64());
    let ptr = p.pointer(0x8000);
    assert_eq!(ptr.limit, 23);
    assert_eq!(ptr.base, 0x8000);
}

#[test]
fn unfilled_slots_stay_null() {
    let mut gdt = GlobalDescriptorTable::new();
    for i in 0..GDT_CAPACITY {
        assert_eq!(gdt.slot(i).to_u64(), 0);
    }
    gdt.add_descriptor(SegmentDescriptor::kernel_code(), PrivilegeLevel::Ring0);
    assert_eq!(gdt.slot(1), SegmentDescriptor::kernel_code());
    for i in 2..GDT_CAPACITY {
        assert_eq!(gdt.slot(i), SegmentDescriptor::null());
    }
}
