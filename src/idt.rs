use vstd::prelude::*;
use crate::gdt::{PrivilegeLevel, SegmentSelector};
use crate::disk::{le_bytes, lemma_le_bytes_len, push_le};

verus! {

/// Number of gates in the table.
pub const IDT_ENTRIES: usize = 256;
/// Selector of the kernel code segment every gate jumps through (slot 1, ring 0).
pub const KERNEL_CODE_SELECTOR: u16 = 0x08;

/// Vector of the divide-error exception.
pub const DIVIDE_ERROR: u8 = 0;
/// Vector of the breakpoint exception.
pub const BREAKPOINT: u8 = 3;
/// Vector of the double-fault exception.
pub const DOUBLE_FAULT: u8 = 8;
/// Vector of the general-protection exception.
pub const GENERAL_PROTECTION_FAULT: u8 = 13;
/// Vector of the page-fault exception.
pub const PAGE_FAULT: u8 = 14;

/// Gate type bits of an interrupt gate (interrupts stay disabled on entry).
pub const INTERRUPT_GATE_BITS: u16 = 0xE;
/// Gate type bits of a trap gate (interrupts stay enabled on entry).
pub const TRAP_GATE_BITS: u16 = 0xF;

/// Whether the CPU pushes an error code when raising this vector, so that its
/// handler must take one.
pub open spec fn pushes_error_code_spec(vector: u8) -> bool {
    vector == 8 || vector == 10 || vector == 11 || vector == 12 || vector == 13 || vector == 14
        || vector == 17 || vector == 21 || vector == 30
}

/// Whether the CPU pushes an error code when raising this vector.
pub fn pushes_error_code(vector: u8) -> (r: bool)
    ensures
        r == pushes_error_code_spec(vector),
{
    vector == 8 || vector == 10 || vector == 11 || vector == 12 || vector == 13 || vector == 14
        || vector == 17 || vector == 21 || vector == 30
}

/// How the CPU enters a handler.
#[derive(Clone, Copy, Debug, PartialEq, Eq, Structural)]
pub enum GateType {
    /// Interrupts are disabled on entry.
    Interrupt,
    /// Interrupts stay enabled on entry.
    Trap,
}

impl GateType {
    /// The type bits of this gate.
    pub open spec fn bits(self) -> u16 {
        match self {
            GateType::Interrupt => INTERRUPT_GATE_BITS,
            GateType::Trap => TRAP_GATE_BITS,
        }
    }
}

/// A handler's address and whether it takes the error code the CPU pushes.
#[derive(Clone, Copy, Debug, PartialEq, Eq, Structural)]
pub struct Handler {
    pub addr: u64,
    pub with_error_code: bool,
}

/// The option word of a gate: bits 0-2 stack index, 8-11 gate type, 12 zero,
/// 13-14 privilege level, 15 present.
#[derive(Clone, Copy, Debug, PartialEq, Eq, Structural)]
pub struct EntryOptions(pub u16);

/// Stack-index field of an option word.
pub open spec fn ist_of(v: u16) -> u16 {
    v % 8
}

/// Bits 3-7 of an option word, which no setter touches.
pub open spec fn low_bits_of(v: u16) -> u16 {
    (v / 8) % 32
}

/// Gate-type field of an option word.
pub open spec fn gate_bits_of(v: u16) -> u16 {
    (v / 256) % 16
}

/// Bit 12 of an option word, zero in every gate.
pub open spec fn bit12_of(v: u16) -> u16 {
    (v / 4096) % 2
}

/// Privilege field of an option word.
pub open spec fn dpl_of(v: u16) -> u16 {
    (v / 8192) % 4
}

/// Present bit of an option word.
pub open spec fn present_of(v: u16) -> bool {
    v / 32768 == 1
}

impl EntryOptions {
    /// An interrupt gate, not present, ring 0, no stack switch.
    pub fn minimal() -> (r: Self)
        ensures
            r.0 == 0x0E00,
            !present_of(r.0),
            gate_bits_of(r.0) == INTERRUPT_GATE_BITS,
            dpl_of(r.0) == 0,
            ist_of(r.0) == 0,
            bit12_of(r.0) == 0,
    {
        EntryOptions(0x0E00)
    }

    /// Sets its type and clears bit 12; the other fields stay.
    pub fn set_type(&mut self, gtype: GateType)
        ensures
            gate_bits_of(final(self).0) == gtype.bits(),
            bit12_of(final(self).0) == 0,
            ist_of(final(self).0) == ist_of(old(self).0),
            low_bits_of(final(self).0) == low_bits_of(old(self).0),
            dpl_of(final(self).0) == dpl_of(old(self).0),
            present_of(final(self).0) == present_of(old(self).0),
    {
        let type_val: u16 = match gtype {
            GateType::Interrupt => INTERRUPT_GATE_BITS,
            GateType::Trap => TRAP_GATE_BITS,
        };
        let v = self.0;
        let nv = (v & !0x1F00u16) | (type_val << 8u16);
        proof {
            lemma_set_type_bits(v, type_val);
        }
        self.0 = nv;
    }

    /// Sets the privilege level needed to raise the vector by software; the
    /// other fields stay.
    pub fn set_privilege_level(&mut self, privilege: PrivilegeLevel)
        ensures
            dpl_of(final(self).0) == privilege.level(),
            gate_bits_of(final(self).0) == gate_bits_of(old(self).0),
            bit12_of(final(self).0) == bit12_of(old(self).0),
            ist_of(final(self).0) == ist_of(old(self).0),
            low_bits_of(final(self).0) == low_bits_of(old(self).0),
            present_of(final(self).0) == present_of(old(self).0),
    {
        let p = privilege.value();
        let v = self.0;
        proof {
            lemma_set_dpl_bits(v, p);
        }
        self.0 = (v & !0x6000u16) | (p << 13u16);
    }

    /// Sets or clears the present bit; the other fields stay.
    pub fn set_present(&mut self, present: bool)
        ensures
            present_of(final(self).0) == present,
            gate_bits_of(final(self).0) == gate_bits_of(old(self).0),
            bit12_of(final(self).0) == bit12_of(old(self).0),
            ist_of(final(self).0) == ist_of(old(self).0),
            low_bits_of(final(self).0) == low_bits_of(old(self).0),
            dpl_of(final(self).0) == dpl_of(old(self).0),
    {
        let v = self.0;
        proof {
            lemma_set_present_bits(v);
        }
        if present {
            self.0 = v | 0x8000;
        } else {
            self.0 = v & 0x7FFF;
        }
    }

    /// Sets the interrupt stack table index (0 keeps the current stack); the
    /// other fields stay.
    pub fn set_ist(&mut self, index: u16)
        requires
            index <= 7,
        ensures
            ist_of(final(self).0) == index,
            gate_bits_of(final(self).0) == gate_bits_of(old(self).0),
            bit12_of(final(self).0) == bit12_of(old(self).0),
            low_bits_of(final(self).0) == low_bits_of(old(self).0),
            dpl_of(final(self).0) == dpl_of(old(self).0),
            present_of(final(self).0) == present_of(old(self).0),
    {
        let v = self.0;
        proof {
            lemma_set_ist_bits(v, index);
        }
        self.0 = (v & !0x0007u16) | index;
    }

    /// Whether the entry is present.
    pub fn present(&self) -> (r: bool)
        ensures
            r == present_of(self.0),
    {
        self.0 >= 0x8000
    }

    /// The entry type, if the type bits name one.
    pub fn gate_type(&self) -> (r: Option<GateType>)
        ensures
            gate_bits_of(self.0) == INTERRUPT_GATE_BITS ==> r == Some(GateType::Interrupt),
            gate_bits_of(self.0) == TRAP_GATE_BITS ==> r == Some(GateType::Trap),
            gate_bits_of(self.0) != INTERRUPT_GATE_BITS && gate_bits_of(self.0) != TRAP_GATE_BITS
                ==> r.is_none(),
    {
        let bits = (self.0 / 256) % 16;
        if bits == INTERRUPT_GATE_BITS {
            Some(GateType::Interrupt)
        } else if bits == TRAP_GATE_BITS {
            Some(GateType::Trap)
        } else {
            None
        }
    }

    /// The privilege level field.
    pub fn privilege_level(&self) -> (r: u16)
        ensures
            r == dpl_of(self.0),
    {
        (self.0 / 8192) % 4
    }

    /// The stack index field.
    pub fn stack_index(&self) -> (r: u16)
        ensures
            r == ist_of(self.0),
    {
        self.0 % 8
    }
}

/// A gate with no handler: zero address and selector, an interrupt gate
/// that is not present.
pub open spec fn missing_entry() -> IDTEntry {
    IDTEntry {
        fn_pointer_low: 0,
        gdt_selector: 0,
        options: EntryOptions(0x0E00),
        fn_pointer_middle: 0,
        fn_pointer_high: 0,
        reserved: 0,
    }
}

/// One 16-byte gate.
#[derive(Clone, Copy, Debug, PartialEq, Eq, Structural)]
pub struct IDTEntry {
    pub fn_pointer_low: u16,
    pub gdt_selector: u16,
    pub options: EntryOptions,
    pub fn_pointer_middle: u16,
    pub fn_pointer_high: u32,
    pub reserved: u32,
}

impl IDTEntry {
    /// The handler address, joined from its three parts.
    pub open spec fn handler_addr_spec(self) -> int {
        self.fn_pointer_low + self.fn_pointer_middle * 0x1_0000 + self.fn_pointer_high
            * 0x1_0000_0000
    }

    /// The 16 bytes of this entry in the order the CPU reads them: address
    /// bits 0-15, selector, options, address bits 16-31, address bits 32-63,
    /// reserved; each little-endian.
    pub open spec fn bytes_spec(self) -> Seq<u8> {
        le_bytes(self.fn_pointer_low as int, 2) + le_bytes(self.gdt_selector as int, 2) + le_bytes(
            self.options.0 as int,
            2,
        ) + le_bytes(self.fn_pointer_middle as int, 2) + le_bytes(self.fn_pointer_high as int, 4)
            + le_bytes(self.reserved as int, 4)
    }

    /// This entry as it lies in the table.
    pub fn to_bytes(&self) -> (r: Vec<u8>)
        ensures
            r@ == self.bytes_spec(),
            r@.len() == 16,
    {
        let mut out: Vec<u8> = Vec::new();
        self.append_bytes(&mut out);
        proof {
            assert(out@ =~= self.bytes_spec());
        }
        out
    }

    fn append_bytes(&self, out: &mut Vec<u8>)
        ensures
            final(out)@ == old(out)@ + self.bytes_spec(),
            self.bytes_spec().len() == 16,
    {
        push_le(out, self.fn_pointer_low as u64, 2);
        push_le(out, self.gdt_selector as u64, 2);
        push_le(out, self.options.0 as u64, 2);
        push_le(out, self.fn_pointer_middle as u64, 2);
        push_le(out, self.fn_pointer_high as u64, 4);
        push_le(out, self.reserved as u64, 4);
        proof {
            lemma_le_bytes_len(self.fn_pointer_low as int, 2);
            lemma_le_bytes_len(self.gdt_selector as int, 2);
            lemma_le_bytes_len(self.options.0 as int, 2);
            lemma_le_bytes_len(self.fn_pointer_middle as int, 2);
            lemma_le_bytes_len(self.fn_pointer_high as int, 4);
            lemma_le_bytes_len(self.reserved as int, 4);
            assert(final(out)@ =~= old(out)@ + self.bytes_spec());
        }
    }

    /// A gate with no handler, marked not present.
    pub fn missing() -> (r: Self)
        ensures
            r == missing_entry(),
            r.handler_addr_spec() == 0,
            r.gdt_selector == 0,
            r.reserved == 0,
            r.options.0 == 0x0E00,
            !present_of(r.options.0),
    {
        IDTEntry {
            fn_pointer_low: 0,
            gdt_selector: 0,
            options: EntryOptions::minimal(),
            fn_pointer_middle: 0,
            fn_pointer_high: 0,
            reserved: 0,
        }
    }

    /// Points the entry at `addr` through the kernel code segment and marks it
    /// present; its type, privilege and stack index stay.
    pub fn set_handler_addr(&mut self, addr: u64)
        ensures
            final(self).handler_addr_spec() == addr,
            final(self).gdt_selector == KERNEL_CODE_SELECTOR,
            final(self).reserved == old(self).reserved,
            present_of(final(self).options.0),
            gate_bits_of(final(self).options.0) == gate_bits_of(old(self).options.0),
            bit12_of(final(self).options.0) == bit12_of(old(self).options.0),
            ist_of(final(self).options.0) == ist_of(old(self).options.0),
            low_bits_of(final(self).options.0) == low_bits_of(old(self).options.0),
            dpl_of(final(self).options.0) == dpl_of(old(self).options.0),
    {
        proof {
            lemma_split_addr(addr);
        }
        self.fn_pointer_low = (addr & 0xFFFF) as u16;
        self.fn_pointer_middle = ((addr >> 16u64) & 0xFFFF) as u16;
        self.fn_pointer_high = (addr >> 32u64) as u32;
        self.gdt_selector = SegmentSelector::new(1, PrivilegeLevel::Ring0).value();
        self.options.set_present(true);
    }

    /// The handler address.
    pub fn handler_addr(&self) -> (r: u64)
        ensures
            r == self.handler_addr_spec(),
    {
        proof {
            lemma_join_addr(self.fn_pointer_low, self.fn_pointer_middle, self.fn_pointer_high);
        }
        (self.fn_pointer_low as u64) | ((self.fn_pointer_middle as u64) << 16u64) | ((
        self.fn_pointer_high as u64) << 32u64)
    }
}

/// The operand of the interrupt-table load instruction.
#[derive(Clone, Copy, Debug, PartialEq, Eq, Structural)]
pub struct IDTPointer {
    pub limit: u16,
    pub offset: u64,
}

/// What the CPU pushes before entering a handler.
#[derive(Clone, Copy, Debug, PartialEq, Eq, Structural)]
pub struct InterruptStackFrame {
    pub instruction_pointer: u64,
    pub code_segment: u64,
    pub cpu_flags: u64,
    pub stack_pointer: u64,
    pub stack_segment: u64,
}

/// The 256 gates: 0-31 the CPU's exceptions, 32-255 free for interrupts.
pub struct InterruptDescriptorTable {
    entries: Vec<IDTEntry>,
}

impl InterruptDescriptorTable {
    /// The entries, by vector.
    pub closed spec fn gates(&self) -> Seq<IDTEntry> {
        self.entries@
    }

    /// A table of 256 gates, none present.
    pub fn new() -> (r: Self)
        ensures
            r.gates().len() == IDT_ENTRIES,
            forall|v: int|
                0 <= v < IDT_ENTRIES ==> #[trigger] r.gates()[v] == missing_entry(),
    {
        let mut entries: Vec<IDTEntry> = Vec::new();
        let mut i: usize = 0;
        while i < IDT_ENTRIES
            invariant
                i <= IDT_ENTRIES,
                entries@.len() == i,
                forall|v: int|
                    0 <= v < i ==> #[trigger] entries@[v] == missing_entry(),
            decreases IDT_ENTRIES - i,
        {
            entries.push(IDTEntry::missing());
            i = i + 1;
        }
        InterruptDescriptorTable { entries }
    }

    /// The entry of `vector`.
    pub fn entry(&self, vector: u8) -> (r: IDTEntry)
        requires
            self.gates().len() == IDT_ENTRIES,
        ensures
            r == self.gates()[vector as int],
    {
        self.entries[vector as usize]
    }

    /// Points the entry of `vector` at a handler whose signature matches what
    /// the CPU pushes for it, and marks it present; the other gates stay.
    pub fn set_handler_fn(&mut self, vector: u8, handler: Handler)
        requires
            old(self).gates().len() == IDT_ENTRIES,
            handler.with_error_code == pushes_error_code_spec(vector),
        ensures
            final(self).gates().len() == IDT_ENTRIES,
            ({
                let e = final(self).gates()[vector as int];
                let o = old(self).gates()[vector as int];
                &&& e.handler_addr_spec() == handler.addr
                &&& e.gdt_selector == KERNEL_CODE_SELECTOR
                &&& present_of(e.options.0)
                &&& gate_bits_of(e.options.0) == gate_bits_of(o.options.0)
                &&& dpl_of(e.options.0) == dpl_of(o.options.0)
                &&& ist_of(e.options.0) == ist_of(o.options.0)
                &&& low_bits_of(e.options.0) == low_bits_of(o.options.0)
                &&& bit12_of(e.options.0) == bit12_of(o.options.0)
                &&& e.reserved == o.reserved
            }),
            forall|v: int|
                0 <= v < IDT_ENTRIES && v != vector ==> #[trigger] final(self).gates()[v] == old(
                    self,
                ).gates()[v],
    {
        let mut e = self.entries[vector as usize];
        e.set_handler_addr(handler.addr);
        self.entries.set(vector as usize, e);
    }

    /// Installs a handler at `vector`: its address, the kernel code selector,
    /// its type, the privilege level and the stack index (none: 0), and
    /// marks the entry present; the other gates stay.
    pub fn set_handler(
        &mut self,
        vector: u8,
        handler: Handler,
        gate: GateType,
        privilege: PrivilegeLevel,
        stack_index: Option<u16>,
    )
        requires
            old(self).gates().len() == IDT_ENTRIES,
            handler.with_error_code == pushes_error_code_spec(vector),
            stack_index matches Some(i) ==> i <= 7,
        ensures
            final(self).gates().len() == IDT_ENTRIES,
            ({
                let e = final(self).gates()[vector as int];
                &&& e.handler_addr_spec() == handler.addr
                &&& e.gdt_selector == KERNEL_CODE_SELECTOR
                &&& present_of(e.options.0)
                &&& gate_bits_of(e.options.0) == gate.bits()
                &&& bit12_of(e.options.0) == 0
                &&& dpl_of(e.options.0) == privilege.level()
                &&& ist_of(e.options.0) == match stack_index {
                    Some(i) => i,
                    None => 0,
                }
                &&& low_bits_of(e.options.0) == low_bits_of(
                    old(self).gates()[vector as int].options.0,
                )
                &&& e.reserved == old(self).gates()[vector as int].reserved
            }),
            forall|v: int|
                0 <= v < IDT_ENTRIES && v != vector ==> #[trigger] final(self).gates()[v] == old(
                    self,
                ).gates()[v],
    {
        let mut e = self.entries[vector as usize];
        e.set_handler_addr(handler.addr);
        e.options.set_type(gate);
        e.options.set_privilege_level(privilege);
        match stack_index {
            Some(i) => e.options.set_ist(i),
            None => e.options.set_ist(0),
        }
        self.entries.set(vector as usize, e);
    }

    /// The table as the CPU reads it: 4096 bytes, the entry of vector `v`
    /// at bytes `16 * v` to `16 * v + 15`.
    pub fn to_bytes(&self) -> (r: Vec<u8>)
        requires
            self.gates().len() == IDT_ENTRIES,
        ensures
            r@.len() == IDT_ENTRIES * 16,
            forall|v: int|
                0 <= v < IDT_ENTRIES ==> r@.subrange(16 * v, 16 * v + 16)
                    == #[trigger] self.gates()[v].bytes_spec(),
    {
        let mut out: Vec<u8> = Vec::new();
        let mut i: usize = 0;
        while i < IDT_ENTRIES
            invariant
                i <= IDT_ENTRIES,
                self.gates().len() == IDT_ENTRIES,
                out@.len() == 16 * i,
                forall|v: int|
                    0 <= v < i ==> out@.subrange(16 * v, 16 * v + 16)
                        == #[trigger] self.gates()[v].bytes_spec(),
            decreases IDT_ENTRIES - i,
        {
            let ghost before = out@;
            let e = self.entries[i];
            e.append_bytes(&mut out);
            proof {
                assert forall|v: int| 0 <= v < i + 1 implies out@.subrange(16 * v, 16 * v + 16)
                    == #[trigger] self.gates()[v].bytes_spec() by {
                    if v < i {
                        assert(out@.subrange(16 * v, 16 * v + 16) =~= before.subrange(
                            16 * v,
                            16 * v + 16,
                        ));
                    } else {
                        assert(out@.subrange(16 * v, 16 * v + 16) =~= e.bytes_spec());
                    }
                }
            }
            i = i + 1;
        }
        out
    }

    /// The operand that loads this table from linear address `base`.
    pub fn pointer(&self, base: u64) -> (r: IDTPointer)
        ensures
            r.limit == IDT_ENTRIES * 16 - 1,
            r.offset == base,
    {
        IDTPointer { limit: 4095, offset: base }
    }
}

/// An option word is fixed by its fields.
pub proof fn lemma_options_from_fields(v: u16)
    ensures
        v == ist_of(v) + low_bits_of(v) * 8 + gate_bits_of(v) * 256 + bit12_of(v) * 4096 + dpl_of(v)
            * 8192 + (if present_of(v) {
            32768int
        } else {
            0int
        }),
{
    assert(v == v % 8 + (v / 8) % 32 * 8 + (v / 256) % 16 * 256 + (v / 4096) % 2 * 4096 + (v / 8192)
        % 4 * 8192 + v / 32768 * 32768 && v / 32768 <= 1) by (bit_vector);
}

proof fn lemma_set_type_bits(v: u16, t: u16)
    requires
        t < 16,
    ensures
        ({
            let nv = (v & !0x1F00u16) | (t << 8u16);
            &&& gate_bits_of(nv) == t
            &&& bit12_of(nv) == 0
            &&& ist_of(nv) == ist_of(v)
            &&& low_bits_of(nv) == low_bits_of(v)
            &&& dpl_of(nv) == dpl_of(v)
            &&& present_of(nv) == present_of(v)
        }),
{
    assert(((v & !0x1F00u16) | (t << 8u16)) / 256 % 16 == t && ((v & !0x1F00u16) | (t << 8u16))
        / 4096 % 2 == 0 && ((v & !0x1F00u16) | (t << 8u16)) % 8 == v % 8 && ((v & !0x1F00u16) | (t
        << 8u16)) / 8 % 32 == v / 8 % 32 && ((v & !0x1F00u16) | (t << 8u16)) / 8192 % 4 == v / 8192
        % 4 && ((v & !0x1F00u16) | (t << 8u16)) / 32768 == v / 32768) by (bit_vector)
        requires
            t < 16,
    ;
}

proof fn lemma_set_dpl_bits(v: u16, p: u16)
    requires
        p < 4,
    ensures
        ({
            let nv = (v & !0x6000u16) | (p << 13u16);
            &&& dpl_of(nv) == p
            &&& gate_bits_of(nv) == gate_bits_of(v)
            &&& bit12_of(nv) == bit12_of(v)
            &&& ist_of(nv) == ist_of(v)
            &&& low_bits_of(nv) == low_bits_of(v)
            &&& present_of(nv) == present_of(v)
        }),
{
    assert(((v & !0x6000u16) | (p << 13u16)) / 8192 % 4 == p && ((v & !0x6000u16) | (p << 13u16))
        / 256 % 16 == v / 256 % 16 && ((v & !0x6000u16) | (p << 13u16)) / 4096 % 2 == v / 4096 % 2
        && ((v & !0x6000u16) | (p << 13u16)) % 8 == v % 8 && ((v & !0x6000u16) | (p << 13u16)) / 8
        % 32 == v / 8 % 32 && ((v & !0x6000u16) | (p << 13u16)) / 32768 == v / 32768)
        by (bit_vector)
        requires
            p < 4,
    ;
}

proof fn lemma_set_present_bits(v: u16)
    ensures
        present_of(v | 0x8000),
        !present_of(v & 0x7FFF),
        gate_bits_of(v | 0x8000) == gate_bits_of(v),
        gate_bits_of(v & 0x7FFF) == gate_bits_of(v),
        bit12_of(v | 0x8000) == bit12_of(v),
        bit12_of(v & 0x7FFF) == bit12_of(v),
        ist_of(v | 0x8000) == ist_of(v),
        ist_of(v & 0x7FFF) == ist_of(v),
        low_bits_of(v | 0x8000) == low_bits_of(v),
        low_bits_of(v & 0x7FFF) == low_bits_of(v),
        dpl_of(v | 0x8000) == dpl_of(v),
        dpl_of(v & 0x7FFF) == dpl_of(v),
{
    assert((v | 0x8000) / 32768 == 1 && (v & 0x7FFF) / 32768 == 0 && (v | 0x8000) / 256 % 16 == v
        / 256 % 16 && (v & 0x7FFF) / 256 % 16 == v / 256 % 16 && (v | 0x8000) / 4096 % 2 == v / 4096
        % 2 && (v & 0x7FFF) / 4096 % 2 == v / 4096 % 2 && (v | 0x8000) % 8 == v % 8 && (v & 0x7FFF)
        % 8 == v % 8 && (v | 0x8000) / 8 % 32 == v / 8 % 32 && (v & 0x7FFF) / 8 % 32 == v / 8 % 32
        && (v | 0x8000) / 8192 % 4 == v / 8192 % 4 && (v & 0x7FFF) / 8192 % 4 == v / 8192 % 4)
        by (bit_vector);
}

proof fn lemma_set_ist_bits(v: u16, i: u16)
    requires
        i <= 7,
    ensures
        ({
            let nv = (v & !0x0007u16) | i;
            &&& ist_of(nv) == i
            &&& gate_bits_of(nv) == gate_bits_of(v)
            &&& bit12_of(nv) == bit12_of(v)
            &&& low_bits_of(nv) == low_bits_of(v)
            &&& dpl_of(nv) == dpl_of(v)
            &&& present_of(nv) == present_of(v)
        }),
{
    assert(((v & !0x0007u16) | i) % 8 == i && ((v & !0x0007u16) | i) / 256 % 16 == v / 256 % 16
        && ((v & !0x0007u16) | i) / 4096 % 2 == v / 4096 % 2 && ((v & !0x0007u16) | i) / 8 % 32 == v
        / 8 % 32 && ((v & !0x0007u16) | i) / 8192 % 4 == v / 8192 % 4 && ((v & !0x0007u16) | i)
        / 32768 == v / 32768) by (bit_vector)
        requires
            i <= 7,
    ;
}

proof fn lemma_split_addr(addr: u64)
    ensures
        (addr & 0xFFFF) as u16 as int + ((addr >> 16u64) & 0xFFFF) as u16 as int * 0x1_0000 + (addr
            >> 32u64) as u32 as int * 0x1_0000_0000 == addr as int,
{
    assert((addr & 0xFFFF) < 0x1_0000 && ((addr >> 16u64) & 0xFFFF) < 0x1_0000 && (addr >> 32u64)
        < 0x1_0000_0000 && (addr & 0xFFFF) + ((addr >> 16u64) & 0xFFFF) * 0x1_0000 + (addr >> 32u64)
        * 0x1_0000_0000 == addr) by (bit_vector);
}

proof fn lemma_join_addr(lo: u16, mid: u16, hi: u32)
    ensures
        (lo as u64) | ((mid as u64) << 16u64) | ((hi as u64) << 32u64) == lo + mid * 0x1_0000 + hi
            * 0x1_0000_0000,
{
    assert((lo as u64) | ((mid as u64) << 16u64) | ((hi as u64) << 32u64) == lo + mid * 0x1_0000
        + hi * 0x1_0000_0000) by (bit_vector);
}

} // verus!
