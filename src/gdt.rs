use vstd::prelude::*;

verus! {

/// Access byte: the descriptor is present.
pub const ACCESS_PRESENT: u8 = 0x80;
/// Access byte: privilege level 3 in bits 5 and 6.
pub const ACCESS_DPL_RING3: u8 = 0x60;
/// Access byte: a code or data descriptor rather than a system one.
pub const ACCESS_DESCRIPTOR_TYPE: u8 = 0x10;
/// Access byte: the segment holds code.
pub const ACCESS_EXECUTABLE: u8 = 0x08;
/// Access byte: readable (code) or writable (data).
pub const ACCESS_READ_WRITE: u8 = 0x02;
/// Access byte: set by the CPU on first use; preset to avoid a write to the table.
pub const ACCESS_ACCESSED: u8 = 0x01;

/// Flag nibble: the limit counts 4 KiB pages.
pub const FLAG_GRANULARITY: u8 = 0x80;
/// Flag nibble: 32-bit operand size.
pub const FLAG_SIZE: u8 = 0x40;
/// Flag nibble: 64-bit code segment.
pub const FLAG_LONG_MODE: u8 = 0x20;

/// Largest limit a descriptor can hold (20 bits).
pub const MAX_LIMIT: u32 = 0xFFFFF;

/// Access byte of the kernel's code segment: present, ring 0, code, readable, accessed.
pub const KERNEL_CODE_ACCESS: u8 = 0x9B;
/// Access byte of the kernel's data segment: present, ring 0, data, writable, accessed.
pub const KERNEL_DATA_ACCESS: u8 = 0x93;
/// Access byte of the user code segment: present, ring 3, code, readable, accessed.
pub const USER_CODE_ACCESS: u8 = 0xFB;
/// Access byte of the user data segment: present, ring 3, data, writable, accessed.
pub const USER_DATA_ACCESS: u8 = 0xF3;
/// Flags of a 64-bit code segment with page granularity.
pub const LONG_CODE_FLAGS: u8 = 0xA0;
/// Flags of a data segment with page granularity.
pub const PAGED_DATA_FLAGS: u8 = 0x80;

/// Access byte of the flat ring-0 code segment used by the boot stages.
pub const FLAT_CODE_ACCESS: u8 = 0x9A;
/// Access byte of the flat ring-0 data segment used by the boot stages.
pub const FLAT_DATA_ACCESS: u8 = 0x92;
/// Flags of the boot stages' flat 32-bit segments: page granularity, 32-bit size.
pub const FLAT_FLAGS: u8 = 0xC0;

/// The all-zero descriptor.
pub open spec fn null_descriptor() -> SegmentDescriptor {
    SegmentDescriptor {
        limit_low: 0,
        base_low: 0,
        base_mid: 0,
        access: 0,
        limit_flags: 0,
        base_high: 0,
    }
}

/// An 8-byte segment descriptor, field by field in the order the CPU reads them.
#[derive(Clone, Copy, Debug, PartialEq, Eq, Structural)]
pub struct SegmentDescriptor {
    pub limit_low: u16,
    pub base_low: u16,
    pub base_mid: u8,
    pub access: u8,
    /// Bits 0-3: limit bits 16-19; bits 4-7: the flag nibble.
    pub limit_flags: u8,
    pub base_high: u8,
}

impl SegmentDescriptor {
    /// The 32-bit base address, joined from its three parts.
    pub open spec fn base_spec(self) -> int {
        self.base_low + self.base_mid * 0x10000 + self.base_high * 0x100_0000
    }

    /// The 20-bit limit, joined from its two parts.
    pub open spec fn limit_spec(self) -> int {
        self.limit_low + (self.limit_flags % 16) * 0x10000
    }

    /// The flag nibble, in the upper four bits of a byte.
    pub open spec fn flags_spec(self) -> int {
        (self.limit_flags / 16) * 16
    }

    /// The descriptor as the 64-bit little-endian value stored in the table.
    pub open spec fn encoding(self) -> int {
        self.limit_low + self.base_low * 0x1_0000 + self.base_mid * 0x1_0000_0000
            + self.access * 0x100_0000_0000 + self.limit_flags * 0x1_0000_0000_0000
            + self.base_high * 0x100_0000_0000_0000
    }

    /// The mandatory first entry of every table: all zero.
    pub fn null() -> (r: Self)
        ensures
            r == null_descriptor(),
            r.encoding() == 0,
            r.base_spec() == 0,
            r.limit_spec() == 0,
            r.flags_spec() == 0,
            r.access == 0,
    {
        SegmentDescriptor {
            limit_low: 0,
            base_low: 0,
            base_mid: 0,
            access: 0,
            limit_flags: 0,
            base_high: 0,
        }
    }

    /// Replaces the base address, keeping everything else.
    pub fn with_base(self, base: u32) -> (r: Self)
        ensures
            r.base_spec() == base,
            r.limit_low == self.limit_low,
            r.limit_flags == self.limit_flags,
            r.access == self.access,
    {
        let mut d = self;
        d.base_low = (base & 0xFFFF) as u16;
        d.base_mid = ((base >> 16u32) & 0xFF) as u8;
        d.base_high = ((base >> 24u32) & 0xFF) as u8;
        proof {
            lemma_split_base(base);
        }
        d
    }

    /// Replaces the limit with its low 20 bits, keeping the flag nibble and the rest.
    pub fn with_limit(self, limit: u32) -> (r: Self)
        ensures
            r.limit_spec() == limit % 0x10_0000,
            r.flags_spec() == self.flags_spec(),
            r.base_low == self.base_low,
            r.base_mid == self.base_mid,
            r.base_high == self.base_high,
            r.access == self.access,
    {
        let mut d = self;
        let old_lf = self.limit_flags;
        d.limit_low = (limit & 0xFFFF) as u16;
        d.limit_flags = (old_lf & 0xF0) | (((limit >> 16u32) & 0x0F) as u8);
        proof {
            lemma_split_limit(limit, old_lf);
        }
        d
    }

    /// Replaces the access byte.
    pub fn with_access(self, access: u8) -> (r: Self)
        ensures
            r == (SegmentDescriptor { access, ..self }),
    {
        let mut d = self;
        d.access = access;
        d
    }

    /// Replaces the flag nibble with the upper four bits of `flags`, keeping the limit.
    pub fn with_flags(self, flags: u8) -> (r: Self)
        ensures
            r.flags_spec() == (flags / 16) * 16,
            r.limit_spec() == self.limit_spec(),
            r.limit_low == self.limit_low,
            r.base_low == self.base_low,
            r.base_mid == self.base_mid,
            r.base_high == self.base_high,
            r.access == self.access,
    {
        let mut d = self;
        let old_lf = self.limit_flags;
        d.limit_flags = (old_lf & 0x0F) | (flags & 0xF0);
        proof {
            lemma_merge_flags(old_lf, flags);
        }
        d
    }

    /// A descriptor spanning all 4 GiB from base 0 with the given access byte and flags.
    pub open spec fn is_flat(self, access: u8, flags: u8) -> bool {
        &&& self.base_spec() == 0
        &&& self.limit_spec() == MAX_LIMIT
        &&& self.access == access
        &&& self.flags_spec() == flags
    }

    fn flat(access: u8, flags: u8) -> (r: Self)
        requires
            flags % 16 == 0,
        ensures
            r.is_flat(access, flags),
    {
        SegmentDescriptor::null().with_limit(MAX_LIMIT).with_base(0).with_access(access).with_flags(
            flags,
        )
    }

    /// The boot stages' flat 32-bit ring-0 code segment.
    pub fn code_segment() -> (r: Self)
        ensures
            r.is_flat(FLAT_CODE_ACCESS, FLAT_FLAGS),
    {
        Self::flat(FLAT_CODE_ACCESS, FLAT_FLAGS)
    }

    /// The boot stages' flat 32-bit ring-0 data segment.
    pub fn data_segment() -> (r: Self)
        ensures
            r.is_flat(FLAT_DATA_ACCESS, FLAT_FLAGS),
    {
        Self::flat(FLAT_DATA_ACCESS, FLAT_FLAGS)
    }

    /// The kernel's code segment.
    pub fn kernel_code() -> (r: Self)
        ensures
            r.is_flat(KERNEL_CODE_ACCESS, LONG_CODE_FLAGS),
    {
        Self::flat(KERNEL_CODE_ACCESS, LONG_CODE_FLAGS)
    }

    /// The kernel's data segment.
    pub fn kernel_data() -> (r: Self)
        ensures
            r.is_flat(KERNEL_DATA_ACCESS, PAGED_DATA_FLAGS),
    {
        Self::flat(KERNEL_DATA_ACCESS, PAGED_DATA_FLAGS)
    }

    /// The ring-3 code segment.
    pub fn user_code() -> (r: Self)
        ensures
            r.is_flat(USER_CODE_ACCESS, LONG_CODE_FLAGS),
    {
        Self::flat(USER_CODE_ACCESS, LONG_CODE_FLAGS)
    }

    /// The ring-3 data segment.
    pub fn user_data() -> (r: Self)
        ensures
            r.is_flat(USER_DATA_ACCESS, PAGED_DATA_FLAGS),
    {
        Self::flat(USER_DATA_ACCESS, PAGED_DATA_FLAGS)
    }

    /// The base address.
    pub fn base(&self) -> (r: u32)
        ensures
            r == self.base_spec(),
    {
        proof {
            lemma_join_base(self.base_low, self.base_mid, self.base_high);
        }
        (self.base_low as u32) | ((self.base_mid as u32) << 16u32) | ((self.base_high as u32)
            << 24u32)
    }

    /// The 20-bit limit.
    pub fn limit(&self) -> (r: u32)
        ensures
            r == self.limit_spec(),
    {
        proof {
            lemma_join_limit(self.limit_low, self.limit_flags);
        }
        (self.limit_low as u32) | (((self.limit_flags & 0x0F) as u32) << 16u32)
    }

    /// The flag nibble, in the upper four bits.
    pub fn flags(&self) -> (r: u8)
        ensures
            r == self.flags_spec(),
    {
        proof {
            lemma_upper_nibble(self.limit_flags);
        }
        self.limit_flags & 0xF0
    }

    /// The privilege level held in the access byte.
    pub fn privilege_level(&self) -> (r: u8)
        ensures
            r == (self.access / 32) % 4,
    {
        proof {
            lemma_dpl_bits(self.access);
        }
        (self.access >> 5u8) & 0x03
    }

    /// The descriptor as the 64-bit value stored in the table.
    pub fn to_u64(&self) -> (r: u64)
        ensures
            r == self.encoding(),
    {
        proof {
            lemma_join_descriptor(
                self.limit_low,
                self.base_low,
                self.base_mid,
                self.access,
                self.limit_flags,
                self.base_high,
            );
        }
        (self.limit_low as u64) | ((self.base_low as u64) << 16u64) | ((self.base_mid as u64)
            << 32u64) | ((self.access as u64) << 40u64) | ((self.limit_flags as u64) << 48u64)
            | ((self.base_high as u64) << 56u64)
    }
}

/// Number of descriptors the kernel's table holds, the null descriptor included.
pub const GDT_CAPACITY: usize = 8;

/// Size in bytes of one descriptor.
pub const DESCRIPTOR_BYTES: u16 = 8;

/// A privilege ring, 0 being the most privileged.
#[derive(Clone, Copy, Debug, PartialEq, Eq, Structural)]
pub enum PrivilegeLevel {
    Ring0,
    Ring1,
    Ring2,
    Ring3,
}

impl PrivilegeLevel {
    /// The ring number.
    pub open spec fn level(self) -> nat {
        match self {
            PrivilegeLevel::Ring0 => 0,
            PrivilegeLevel::Ring1 => 1,
            PrivilegeLevel::Ring2 => 2,
            PrivilegeLevel::Ring3 => 3,
        }
    }

    /// The ring number.
    pub fn value(&self) -> (r: u16)
        ensures
            r == self.level(),
    {
        match self {
            PrivilegeLevel::Ring0 => 0,
            PrivilegeLevel::Ring1 => 1,
            PrivilegeLevel::Ring2 => 2,
            PrivilegeLevel::Ring3 => 3,
        }
    }
}

/// The value loaded into a segment register: table index times 8, plus the
/// requested privilege level.
#[derive(Clone, Copy, Debug, PartialEq, Eq, Structural)]
pub struct SegmentSelector(pub u16);

impl SegmentSelector {
    /// The selector of entry `index` at the given privilege level.
    pub fn new(index: u16, privilege: PrivilegeLevel) -> (r: Self)
        requires
            index < 0x2000,
        ensures
            r.0 == index * 8 + privilege.level(),
    {
        let p = privilege.value();
        proof {
            lemma_selector_bits(index, p);
        }
        SegmentSelector((index << 3u16) | p)
    }

    /// The raw 16-bit selector.
    pub fn value(&self) -> (r: u16)
        ensures
            r == self.0,
    {
        self.0
    }
}

/// The operand of the descriptor-table load instruction: size minus one, and
/// the table's linear address.
#[derive(Clone, Copy, Debug, PartialEq, Eq, Structural)]
pub struct GDTPointer {
    pub limit: u16,
    pub base: u64,
}

/// The kernel's descriptor table: a fixed number of slots, slot 0 null, the
/// others filled in order.
pub struct GlobalDescriptorTable {
    table: Vec<SegmentDescriptor>,
    next_free: usize,
}

impl GlobalDescriptorTable {
    /// The slots filled so far, the null descriptor first.
    pub closed spec fn entries(&self) -> Seq<SegmentDescriptor> {
        self.table@.subrange(0, self.next_free as int)
    }

    /// Every slot of the table as the CPU reads it, filled or not.
    pub closed spec fn slots(&self) -> Seq<SegmentDescriptor> {
        self.table@
    }

    /// The table has its fixed size, slot 0 is null, and unfilled slots are null.
    pub closed spec fn wf(&self) -> bool {
        &&& self.table@.len() == GDT_CAPACITY
        &&& 1 <= self.next_free <= GDT_CAPACITY
        &&& self.table@[0] == null_descriptor()
        &&& forall|i: int|
            self.next_free <= i < GDT_CAPACITY ==> #[trigger] self.table@[i] == null_descriptor()
    }

    /// An empty table: only the null descriptor; every slot is null.
    pub fn new() -> (r: Self)
        ensures
            r.wf(),
            r.entries().len() == 1,
            r.entries()[0] == null_descriptor(),
            r.slots().len() == GDT_CAPACITY,
            forall|i: int| 0 <= i < GDT_CAPACITY ==> #[trigger] r.slots()[i] == null_descriptor(),
    {
        let mut table: Vec<SegmentDescriptor> = Vec::new();
        let mut i: usize = 0;
        while i < GDT_CAPACITY
            invariant
                i <= GDT_CAPACITY,
                table@.len() == i,
                forall|j: int| 0 <= j < i ==> #[trigger] table@[j] == null_descriptor(),
            decreases GDT_CAPACITY - i,
        {
            table.push(SegmentDescriptor::null());
            i = i + 1;
        }
        GlobalDescriptorTable { table, next_free: 1 }
    }

    /// Number of filled slots, the null descriptor included.
    pub fn len(&self) -> (r: usize)
        requires
            self.wf(),
        ensures
            r == self.entries().len(),
    {
        self.next_free
    }

    /// Whether every slot is filled.
    pub fn is_full(&self) -> (r: bool)
        requires
            self.wf(),
        ensures
            r == (self.entries().len() == GDT_CAPACITY),
    {
        self.next_free >= GDT_CAPACITY
    }

    /// The descriptor in slot `index`.
    pub fn get(&self, index: usize) -> (r: SegmentDescriptor)
        requires
            self.wf(),
            index < self.entries().len(),
        ensures
            r == self.entries()[index as int],
    {
        self.table[index]
    }

    /// The descriptor in slot `index`, filled or not.
    pub fn slot(&self, index: usize) -> (r: SegmentDescriptor)
        requires
            self.wf(),
            index < GDT_CAPACITY,
        ensures
            r == self.slots()[index as int],
    {
        self.table[index]
    }

    /// Appends a descriptor and returns its selector at the given privilege.
    /// Filling a full table is a construction error, excluded here.
    pub fn add_descriptor(&mut self, descriptor: SegmentDescriptor, privilege: PrivilegeLevel) -> (r:
        SegmentSelector)
        requires
            old(self).wf(),
            old(self).entries().len() < GDT_CAPACITY,
        ensures
            final(self).wf(),
            final(self).entries() == old(self).entries().push(descriptor),
            final(self).slots() == old(self).slots().update(old(self).entries().len() as int, descriptor),
            r.0 == old(self).entries().len() * 8 + privilege.level(),
            final(self).entries()[(r.0 / 8) as int] == descriptor,
            r.0 % 8 == privilege.level(),
    {
        let index = self.next_free;
        self.table.set(index, descriptor);
        self.next_free = index + 1;
        proof {
            assert(self.entries() =~= old(self).entries().push(descriptor));
        }
        SegmentSelector::new(index as u16, privilege)
    }

    /// The operand that loads this table from linear address `base`.
    pub fn pointer(&self, base: u64) -> (r: GDTPointer)
        ensures
            r.limit == GDT_CAPACITY * 8 - 1,
            r.base == base,
    {
        GDTPointer { limit: (GDT_CAPACITY as u16) * DESCRIPTOR_BYTES - 1, base }
    }
}

/// In a well-formed table slot 0 is null, the filled slots come first and every slot after
/// them is null, so the CPU, which reads all the slots, sees only null
/// descriptors beyond the filled ones.
pub proof fn lemma_unfilled_slots_null(t: GlobalDescriptorTable)
    requires
        t.wf(),
    ensures
        t.slots().len() == GDT_CAPACITY,
        1 <= t.entries().len() <= GDT_CAPACITY,
        t.slots()[0] == null_descriptor(),
        t.entries() == t.slots().subrange(0, t.entries().len() as int),
        forall|i: int|
            t.entries().len() <= i < GDT_CAPACITY ==> #[trigger] t.slots()[i] == null_descriptor(),
{
}

/// Appending descriptors to an empty table hands out consecutive selectors:
/// the first at 0x08, then 0x10, then 0x18, each carrying the requested ring.
pub proof fn lemma_first_selectors(
    t0: GlobalDescriptorTable,
    t1: GlobalDescriptorTable,
    t2: GlobalDescriptorTable,
    t3: GlobalDescriptorTable,
    d1: SegmentDescriptor,
    d2: SegmentDescriptor,
    d3: SegmentDescriptor,
    s1: SegmentSelector,
    s2: SegmentSelector,
    s3: SegmentSelector,
    ring_a: PrivilegeLevel,
    ring_b: PrivilegeLevel,
    ring_c: PrivilegeLevel,
)
    requires
        t0.entries().len() == 1,
        t1.entries() == t0.entries().push(d1),
        s1.0 == t0.entries().len() * 8 + ring_a.level(),
        t2.entries() == t1.entries().push(d2),
        s2.0 == t1.entries().len() * 8 + ring_b.level(),
        t3.entries() == t2.entries().push(d3),
        s3.0 == t2.entries().len() * 8 + ring_c.level(),
    ensures
        s1.0 == 0x08 + ring_a.level(),
        s2.0 == 0x10 + ring_b.level(),
        s3.0 == 0x18 + ring_c.level(),
        t3.entries().len() == 4,
        t3.entries()[1] == d1,
        t3.entries()[2] == d2,
        t3.entries()[3] == d3,
{
}

proof fn lemma_selector_bits(index: u16, p: u16)
    requires
        index < 0x2000,
        p < 4,
    ensures
        (index << 3u16) | p == index * 8 + p,
{
    assert((index << 3u16) | p == index * 8 + p) by (bit_vector)
        requires
            index < 0x2000,
            p < 4,
    ;
}

proof fn lemma_split_base(base: u32)
    ensures
        (base & 0xFFFF) as u16 as int + ((base >> 16u32) & 0xFF) as u8 as int * 0x10000 + ((base
            >> 24u32) & 0xFF) as u8 as int * 0x100_0000 == base as int,
{
    assert((base & 0xFFFF) < 0x10000 && ((base >> 16u32) & 0xFF) < 0x100 && ((base >> 24u32)
        & 0xFF) < 0x100 && (base & 0xFFFF) + ((base >> 16u32) & 0xFF) * 0x10000 + ((base >> 24u32)
        & 0xFF) * 0x100_0000 == base) by (bit_vector);
}

proof fn lemma_split_limit(limit: u32, lf: u8)
    ensures
        ({
            let nlf = (lf & 0xF0) | (((limit >> 16u32) & 0x0F) as u8);
            &&& (limit & 0xFFFF) as u16 as int + (nlf % 16) as int * 0x10000 == limit as int
                % 0x10_0000
            &&& nlf / 16 == lf / 16
        }),
{
    assert((limit & 0xFFFF) < 0x10000 && ((limit >> 16u32) & 0x0F) < 16) by (bit_vector);
    let hi = ((limit >> 16u32) & 0x0F) as u8;
    assert((limit & 0xFFFF) + (((limit >> 16u32) & 0x0F) * 0x10000) == limit % 0x10_0000)
        by (bit_vector);
    assert(((lf & 0xF0) | hi) % 16 == hi && ((lf & 0xF0) | hi) / 16 == lf / 16) by (bit_vector)
        requires
            hi < 16,
    ;
}

proof fn lemma_merge_flags(lf: u8, flags: u8)
    ensures
        ((lf & 0x0F) | (flags & 0xF0)) / 16 == flags / 16,
        ((lf & 0x0F) | (flags & 0xF0)) % 16 == lf % 16,
{
    assert(((lf & 0x0F) | (flags & 0xF0)) / 16 == flags / 16 && ((lf & 0x0F) | (flags & 0xF0))
        % 16 == lf % 16) by (bit_vector);
}

proof fn lemma_join_base(lo: u16, mid: u8, hi: u8)
    ensures
        (lo as u32) | ((mid as u32) << 16u32) | ((hi as u32) << 24u32) == lo + mid * 0x10000 + hi
            * 0x100_0000,
{
    assert((lo as u32) | ((mid as u32) << 16u32) | ((hi as u32) << 24u32) == lo + mid * 0x10000
        + hi * 0x100_0000) by (bit_vector);
}

proof fn lemma_join_limit(lo: u16, lf: u8)
    ensures
        (lo as u32) | (((lf & 0x0F) as u32) << 16u32) == lo + (lf % 16) * 0x10000,
{
    assert((lo as u32) | (((lf & 0x0F) as u32) << 16u32) == lo + (lf % 16) * 0x10000)
        by (bit_vector);
}

proof fn lemma_upper_nibble(b: u8)
    ensures
        b & 0xF0 == (b / 16) * 16,
{
    assert(b & 0xF0 == (b / 16) * 16) by (bit_vector);
}

proof fn lemma_dpl_bits(b: u8)
    ensures
        (b >> 5u8) & 0x03 == (b / 32) % 4,
{
    assert((b >> 5u8) & 0x03 == (b / 32) % 4) by (bit_vector);
}

proof fn lemma_join_descriptor(a: u16, b: u16, c: u8, d: u8, e: u8, f: u8)
    ensures
        (a as u64) | ((b as u64) << 16u64) | ((c as u64) << 32u64) | ((d as u64) << 40u64) | ((
        e as u64) << 48u64) | ((f as u64) << 56u64) == a + b * 0x1_0000 + c * 0x1_0000_0000 + d
            * 0x100_0000_0000 + e * 0x1_0000_0000_0000 + f * 0x100_0000_0000_0000,
{
    assert((a as u64) | ((b as u64) << 16u64) | ((c as u64) << 32u64) | ((d as u64) << 40u64)
        | ((e as u64) << 48u64) | ((f as u64) << 56u64) == a + b * 0x1_0000 + c * 0x1_0000_0000 + d
        * 0x100_0000_0000 + e * 0x1_0000_0000_0000 + f * 0x100_0000_0000_0000) by (bit_vector);
}

} // verus!
