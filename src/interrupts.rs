use vstd::prelude::*;
use crate::idt::{
    BREAKPOINT,
    Handler,
    IDT_ENTRIES,
    InterruptDescriptorTable,
    KERNEL_CODE_SELECTOR,
    dpl_of,
    gate_bits_of,
    INTERRUPT_GATE_BITS,
    present_of,
    ist_of,
    lemma_options_from_fields,
    missing_entry,
};

verus! {

/// The kernel's interrupt table: the breakpoint handler at `breakpoint_handler`
/// as a ring-0 interrupt gate; every other entry is the empty, not-present one.
pub fn init_idt(breakpoint_handler: u64) -> (r: InterruptDescriptorTable)
    ensures
        r.gates().len() == IDT_ENTRIES,
        ({
            let e = r.gates()[BREAKPOINT as int];
            &&& e.handler_addr_spec() == breakpoint_handler
            &&& e.gdt_selector == KERNEL_CODE_SELECTOR
            &&& present_of(e.options.0)
            &&& gate_bits_of(e.options.0) == INTERRUPT_GATE_BITS
            &&& dpl_of(e.options.0) == 0
            &&& ist_of(e.options.0) == 0
            &&& e.options.0 == 0x8E00
            &&& e.reserved == 0
        }),
        forall|v: int|
            0 <= v < IDT_ENTRIES && v != BREAKPOINT ==> #[trigger] r.gates()[v] == missing_entry(),
{
    let mut idt = InterruptDescriptorTable::new();
    idt.set_handler_fn(BREAKPOINT, Handler { addr: breakpoint_handler, with_error_code: false });
    proof {
        let o = idt.gates()[BREAKPOINT as int].options.0;
        lemma_options_from_fields(0x0E00);
        lemma_options_from_fields(o);
    }
    idt
}

} // verus!
