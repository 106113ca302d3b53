use bootchain::gdt::PrivilegeLevel;
use bootchain::idt::{
    pushes_error_code, EntryOptions, GateType, Handler, IDTEntry, InterruptDescriptorTable,
    BREAKPOINT, DOUBLE_FAULT, KERNEL_CODE_SELECTOR, PAGE_FAULT,
};
use bootchain::interrupts::init_idt;

#[test]
fn new_table_has_no_present_gate() {
    let idt = InterruptDescriptorTable::new();
    for v in 0..=255u8 {
        let e = idt.entry(v);
        assert!(!e.options.present());
        assert_eq!(e.options.0, 0x0E00);
        assert_eq!(e.handler_addr(), 0);
    }
}

#[test]
fn breakpoint_trap_gate_decodes_back() {
    let mut idt = InterruptDescriptorTable::new();
    let h = Handler { addr: 0xFFFF_8000_0012_3456, with_error_code: false };
    idt.set_handler(BREAKPOINT, h, GateType::Trap, PrivilegeLevel::Ring0, None);
    let e = idt.entry(3);
    assert!(e.options.present());
    assert_eq!(e.options.gate_type(), Some(GateType::Trap));
    assert_eq!(e.gdt_selector, KERNEL_CODE_SELECTOR);
    assert_eq!(e.gdt_selector, 0x08);
    assert_eq!(e.options.privilege_level(), 0);
    assert_eq!(e.options.stack_index(), 0);
    assert_eq!(e.handler_addr(), 0xFFFF_8000_0012_3456);
    assert_eq!(e.options.0, 0x8F00);
    assert!(!idt.entry(2).options.present());
    assert!(!idt.entry(4).options.present());
}

#[test]
fn error_code_handler_with_stack_and_ring() {
    let mut idt = InterruptDescriptorTable::new();
    let h = Handler { addr: 0x4000, with_error_code: true };
    idt.set_handler(DOUBLE_FAULT, h, GateType::Interrupt, PrivilegeLevel::Ring3, Some(1));
    let e = idt.entry(DOUBLE_FAULT);
    assert_eq!(e.options.0, 0xEE01);
    assert_eq!(e.options.gate_type(), Some(GateType::Interrupt));
    assert_eq!(e.options.privilege_level(), 3);
    assert_eq!(e.options.stack_index(), 1);
}

#[test]
fn handler_address_is_split() {
    let mut e = IDTEntry::missing();
    e.set_handler_addr(0x1122_3344_5566_7788);
    assert_eq!(e.fn_pointer_low, 0x7788);
    assert_eq!(e.fn_pointer_middle, 0x5566);
    assert_eq!(e.fn_pointer_high, 0x1122_3344);
    assert_eq!(e.gdt_selector, 0x08);
    assert!(e.options.present());
    assert_eq!(e.options.gate_type(), Some(GateType::Interrupt));
}

#[test]
fn option_fields_sit_at_their_bits() {
    let mut o = EntryOptions::minimal();
    assert_eq!(o.0, 0x0E00);
    o.set_ist(5);
    assert_eq!(o.0, 0x0E05);
    o.set_privilege_level(PrivilegeLevel::Ring3);
    assert_eq!(o.0, 0x6E05);
    o.set_present(true);
    assert_eq!(o.0, 0xEE05);
    o.set_type(GateType::Trap);
    assert_eq!(o.0, 0xEF05);
    o.set_present(false);
    assert_eq!(o.0, 0x6F05);
    o.set_privilege_level(PrivilegeLevel::Ring0);
    assert_eq!(o.0, 0x0F05);
    o.set_ist(0);
    assert_eq!(o.0, 0x0F00);
}

#[test]
fn set_type_clears_bit_twelve() {
    let mut o = EntryOptions(0x1000);
    o.set_type(GateType::Interrupt);
    assert_eq!(o.0, 0x0E00);
    let unknown = EntryOptions(0x0C00);
    assert_eq!(unknown.gate_type(), None);
}

#[test]
fn error_code_vectors() {
    assert!(pushes_error_code(DOUBLE_FAULT));
    assert!(pushes_error_code(13));
    assert!(pushes_error_code(PAGE_FAULT));
    assert!(!pushes_error_code(0));
    assert!(!pushes_error_code(BREAKPOINT));
    assert!(!pushes_error_code(32));
}

#[test]
fn table_pointer() {
    let idt = InterruptDescriptorTable::new();
    let p = idt.pointer(0x20_0000);
    assert_eq!(p.limit, 4095);
    assert_eq!(p.offset, 0x20_0000);
}

#[test]
fn kernel_table_installs_breakpoint() {
    let idt = init_idt(0xABCD_EF01);
    let e = idt.entry(BREAKPOINT);
    assert!(e.options.present());
    assert_eq!(e.handler_addr(), 0xABCD_EF01);
    assert_eq!(e.gdt_selector, 0x08);
    assert_eq!(e.options.gate_type(), Some(GateType::Interrupt));
    for v in 0..=255u8 {
        if v != BREAKPOINT {
            assert!(!idt.entry(v).options.present());
        }
    }
}

#[test]
fn entry_bytes_in_hardware_order() {
    let mut e = IDTEntry::missing();
    e.set_handler_addr(0x1122_3344_5566_7788);
    assert_eq!(
        e.to_bytes(),
        vec![0x88, 0x77, 0x08, 0x00, 0x00, 0x8E, 0x66, 0x55, 0x44, 0x33, 0x22, 0x11, 0, 0, 0, 0]
    );
    assert_eq!(IDTEntry::missing().to_bytes(), vec![0, 0, 0, 0, 0x00, 0x0E, 0, 0, 0, 0, 0, 0, 0, 0, 0, 0]);
}

#[test]
fn table_image_places_vector_v_at_sixteen_v() {
    let idt = init_idt(0xABCD_EF01);
    let image = idt.to_bytes();
    assert_eq!(image.len(), 4096);
    assert_eq!(&image[48..64], &idt.entry(BREAKPOINT).to_bytes()[..]);
    assert_eq!(&image[48..52], &[0x01, 0xEF, 0x08, 0x00]);
    for v in 0..=255u8 {
        let at = 16 * v as usize;
        assert_eq!(&image[at..at + 16], &idt.entry(v).to_bytes()[..]);
    }
}

#[test]
fn kernel_table_other_entries_are_empty() {
    let idt = init_idt(0x1234);
    for v in 0..=255u8 {
        if v != BREAKPOINT {
            assert_eq!(idt.entry(v), IDTEntry::missing());
        }
    }
}
