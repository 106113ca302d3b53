use vstd::prelude::*;

verus! {

/// The probed byte below 1 MiB (0000:0500).
pub const PROBE_LOW: u32 = 0x0500;
/// The byte exactly 1 MiB above it (FFFF:0510), which aliases it while the line is off.
pub const PROBE_HIGH: u32 = 0x10_0500;
/// Distance between the two probed bytes.
pub const ONE_MIB: u32 = 0x10_0000;

/// One memory access of the probe, or its verdict.
#[derive(Clone, Copy, Debug, PartialEq, Eq, Structural)]
pub enum ProbeStep {
    /// Read the byte at this linear address and report it.
    Read(u32),
    /// Write this byte at this linear address.
    Write(u32, u8),
    /// The probe is over: `true` when the line is enabled.
    Done(bool),
}

/// The state of an [`A20Probe`] in mathematical terms.
pub struct A20ProbeModel {
    pub stage: int,
    pub saved_low: u8,
    pub saved_high: u8,
    pub seen_low: u8,
    pub seen_high: u8,
}

impl A20ProbeModel {
    /// The access made at each stage: save both bytes, write 0 low and 1
    /// high, read both back, put both saved bytes back, and judge.
    pub open spec fn step(self) -> ProbeStep {
        if self.stage == 0 {
            ProbeStep::Read(PROBE_LOW)
        } else if self.stage == 1 {
            ProbeStep::Read(PROBE_HIGH)
        } else if self.stage == 2 {
            ProbeStep::Write(PROBE_LOW, 0)
        } else if self.stage == 3 {
            ProbeStep::Write(PROBE_HIGH, 1)
        } else if self.stage == 4 {
            ProbeStep::Read(PROBE_LOW)
        } else if self.stage == 5 {
            ProbeStep::Read(PROBE_HIGH)
        } else if self.stage == 6 {
            ProbeStep::Write(PROBE_LOW, self.saved_low)
        } else if self.stage == 7 {
            ProbeStep::Write(PROBE_HIGH, self.saved_high)
        } else {
            ProbeStep::Done(self.seen_low != self.seen_high)
        }
    }

    /// The state once the access of this stage was made; `value` is the
    /// byte read, and is ignored after a write.
    pub open spec fn after(self, value: u8) -> Self {
        let next = A20ProbeModel { stage: self.stage + 1, ..self };
        if self.stage == 0 {
            A20ProbeModel { saved_low: value, ..next }
        } else if self.stage == 1 {
            A20ProbeModel { saved_high: value, ..next }
        } else if self.stage == 4 {
            A20ProbeModel { seen_low: value, ..next }
        } else if self.stage == 5 {
            A20ProbeModel { seen_high: value, ..next }
        } else {
            next
        }
    }
}

/// Checks whether the A20 line is enabled by writing two different bytes
/// 1 MiB apart and reading them back, restoring both bytes afterwards.
pub struct A20Probe {
    stage: u8,
    saved_low: u8,
    saved_high: u8,
    seen_low: u8,
    seen_high: u8,
}

impl View for A20Probe {
    type V = A20ProbeModel;

    closed spec fn view(&self) -> A20ProbeModel {
        A20ProbeModel {
            stage: self.stage as int,
            saved_low: self.saved_low,
            saved_high: self.saved_high,
            seen_low: self.seen_low,
            seen_high: self.seen_high,
        }
    }
}

impl A20Probe {
    /// A probe about to make its first access.
    pub fn new() -> (r: Self)
        ensures
            r@.stage == 0,
    {
        A20Probe { stage: 0, saved_low: 0, saved_high: 0, seen_low: 0, seen_high: 0 }
    }

    /// The access to make next, or the verdict.
    pub fn next_step(&self) -> (r: ProbeStep)
        requires
            self@.stage <= 8,
        ensures
            r == self@.step(),
    {
        if self.stage == 0 {
            ProbeStep::Read(PROBE_LOW)
        } else if self.stage == 1 {
            ProbeStep::Read(PROBE_HIGH)
        } else if self.stage == 2 {
            ProbeStep::Write(PROBE_LOW, 0)
        } else if self.stage == 3 {
            ProbeStep::Write(PROBE_HIGH, 1)
        } else if self.stage == 4 {
            ProbeStep::Read(PROBE_LOW)
        } else if self.stage == 5 {
            ProbeStep::Read(PROBE_HIGH)
        } else if self.stage == 6 {
            ProbeStep::Write(PROBE_LOW, self.saved_low)
        } else if self.stage == 7 {
            ProbeStep::Write(PROBE_HIGH, self.saved_high)
        } else {
            ProbeStep::Done(self.seen_low != self.seen_high)
        }
    }

    /// Records that the access just asked for was made; `value` is the byte
    /// read, and is ignored after a write.
    pub fn complete(&mut self, value: u8)
        requires
            old(self)@.stage < 8,
        ensures
            final(self)@ == old(self)@.after(value),
            final(self)@.stage <= 8,
    {
        if self.stage == 0 {
            self.saved_low = value;
        } else if self.stage == 1 {
            self.saved_high = value;
        } else if self.stage == 4 {
            self.seen_low = value;
        } else if self.stage == 5 {
            self.seen_high = value;
        }
        self.stage = self.stage + 1;
    }
}

/// Physical memory as the probe sees it: with the line off, an address
/// wraps at 1 MiB onto the byte below.
pub struct MemoryModel {
    pub bytes: spec_fn(int) -> u8,
    pub a20: bool,
}

impl MemoryModel {
    /// The byte an address reaches.
    pub open spec fn physical(self, addr: int) -> int {
        if self.a20 {
            addr
        } else {
            addr % (ONE_MIB as int)
        }
    }

    pub open spec fn read(self, addr: int) -> u8 {
        (self.bytes)(self.physical(addr))
    }

    pub open spec fn write(self, addr: int, v: u8) -> Self {
        let p = self.physical(addr);
        MemoryModel { bytes: |x: int| if x == p { v } else { (self.bytes)(x) }, a20: self.a20 }
    }
}

/// Runs a probe against a memory model for at most `fuel` accesses.
pub open spec fn run_probe(p: A20ProbeModel, m: MemoryModel, fuel: nat) -> (A20ProbeModel,
    MemoryModel)
    decreases fuel,
{
    if fuel == 0 {
        (p, m)
    } else {
        match p.step() {
            ProbeStep::Read(a) => run_probe(p.after(m.read(a as int)), m, (fuel - 1) as nat),
            ProbeStep::Write(a, v) => run_probe(p.after(0), m.write(a as int, v), (fuel - 1) as nat),
            ProbeStep::Done(_) => (p, m),
        }
    }
}

/// Against memory where the two probed bytes alias, the probe reports the
/// line disabled; where they do not, enabled. Either way every byte of
/// memory holds the value it had when the probe is done.
pub proof fn lemma_probe_detects_aliasing(p: A20ProbeModel, m: MemoryModel)
    requires
        p.stage == 0,
    ensures
        run_probe(p, m, 8).0.step() == ProbeStep::Done(m.a20),
        m.a20 <==> m.physical(PROBE_LOW as int) != m.physical(PROBE_HIGH as int),
        forall|x: int| (#[trigger] (run_probe(p, m, 8).1.bytes)(x)) == (m.bytes)(x),
        run_probe(p, m, 8).1.a20 == m.a20,
{
    reveal_with_fuel(run_probe, 9);
    let r = run_probe(p, m, 8);
    let lo = PROBE_LOW as int;
    let hi = PROBE_HIGH as int;
    let m1 = m.write(lo, 0);
    let m2 = m1.write(hi, 1);
    let m3 = m2.write(lo, m.read(lo));
    let m4 = m3.write(hi, m.read(hi));
    assert(r.1 == m4);
    assert(m.physical(hi) == if m.a20 {
        hi
    } else {
        lo
    });
    assert forall|x: int| (#[trigger] (r.1.bytes)(x)) == (m.bytes)(x) by {
        if x == m.physical(hi) {
        } else if x == m.physical(lo) {
        } else {
        }
    }
}

/// Whether the CPU's reply to an A20 firmware call reports success: carry
/// clear and a zero status in AH.
pub open spec fn reply_ok(r: FirmwareReply) -> bool {
    !r.carry && r.ah == 0
}

/// Firmware function that asks whether the A20 calls are supported.
pub const A20_QUERY_SUPPORT: u16 = 0x2403;
/// Firmware function that asks whether the line is enabled.
pub const A20_QUERY_STATUS: u16 = 0x2402;
/// Firmware function that enables the line.
pub const A20_ENABLE: u16 = 0x2401;

/// What an A20 firmware call left in the flags and registers.
#[derive(Clone, Copy, Debug, PartialEq, Eq, Structural)]
pub struct FirmwareReply {
    pub carry: bool,
    pub ah: u8,
    pub al: u8,
}

/// One step of the firmware method.
#[derive(Clone, Copy, Debug, PartialEq, Eq, Structural)]
pub enum FirmwareStep {
    /// Call the firmware's system service with this function in AX and report the reply.
    Call(u16),
    /// The method is over: `true` when the firmware reported the line enabled.
    Finished(bool),
}

/// The firmware method: query support, query status, then enable unless
/// already enabled; an error at any of the three calls fails the method.
pub struct BiosA20 {
    stage: u8,
}

impl View for BiosA20 {
    type V = int;

    closed spec fn view(&self) -> int {
        self.stage as int
    }
}

/// The firmware method's step at each stage.
pub open spec fn bios_step(stage: int) -> FirmwareStep {
    if stage == 0 {
        FirmwareStep::Call(A20_QUERY_SUPPORT)
    } else if stage == 1 {
        FirmwareStep::Call(A20_QUERY_STATUS)
    } else if stage == 2 {
        FirmwareStep::Call(A20_ENABLE)
    } else if stage == 3 {
        FirmwareStep::Finished(true)
    } else {
        FirmwareStep::Finished(false)
    }
}

/// The firmware method's stage after a reply at `stage`.
pub open spec fn bios_after(stage: int, r: FirmwareReply) -> int {
    if !reply_ok(r) {
        4
    } else if stage == 0 {
        1
    } else if stage == 1 {
        if r.al == 1 {
            3
        } else {
            2
        }
    } else {
        3
    }
}

impl BiosA20 {
    pub fn new() -> (r: Self)
        ensures
            r@ == 0,
    {
        BiosA20 { stage: 0 }
    }

    pub fn next_step(&self) -> (r: FirmwareStep)
        ensures
            r == bios_step(self@),
    {
        if self.stage == 0 {
            FirmwareStep::Call(A20_QUERY_SUPPORT)
        } else if self.stage == 1 {
            FirmwareStep::Call(A20_QUERY_STATUS)
        } else if self.stage == 2 {
            FirmwareStep::Call(A20_ENABLE)
        } else if self.stage == 3 {
            FirmwareStep::Finished(true)
        } else {
            FirmwareStep::Finished(false)
        }
    }

    /// Records the reply to the call just made.
    pub fn reply(&mut self, r: FirmwareReply)
        requires
            bios_step(old(self)@) is Call,
        ensures
            final(self)@ == bios_after(old(self)@, r),
    {
        if r.carry || r.ah != 0 {
            self.stage = 4;
        } else if self.stage == 0 {
            self.stage = 1;
        } else if self.stage == 1 {
            if r.al == 1 {
                self.stage = 3;
            } else {
                self.stage = 2;
            }
        } else {
            self.stage = 3;
        }
    }
}

/// Runs the firmware method against replies given in order: the final stage
/// and the functions called.
pub open spec fn run_bios(stage: int, replies: Seq<FirmwareReply>) -> (int, Seq<u16>)
    decreases replies.len(),
{
    match bios_step(stage) {
        FirmwareStep::Call(f) => if replies.len() > 0 {
            let r = run_bios(bios_after(stage, replies[0]), replies.drop_first());
            (r.0, seq![f] + r.1)
        } else {
            (stage, Seq::empty())
        },
        _ => (stage, Seq::empty()),
    }
}

/// The firmware method calls 0x2403, then 0x2402, then 0x2401 unless the
/// status reply says the line is already on, stopping at the first reply
/// with the carry set or a non-zero AH; it succeeds exactly when every
/// reply it got was clean.
pub proof fn lemma_bios_sequence(r0: FirmwareReply, r1: FirmwareReply, r2: FirmwareReply)
    ensures
        ({
            let r = run_bios(0, seq![r0, r1, r2]);
            &&& r.1 == if !reply_ok(r0) {
                seq![A20_QUERY_SUPPORT]
            } else if !reply_ok(r1) || r1.al == 1 {
                seq![A20_QUERY_SUPPORT, A20_QUERY_STATUS]
            } else {
                seq![A20_QUERY_SUPPORT, A20_QUERY_STATUS, A20_ENABLE]
            }
            &&& bios_step(r.0) == FirmwareStep::Finished(
                reply_ok(r0) && reply_ok(r1) && (r1.al == 1 || reply_ok(r2)),
            )
        }),
{
    let rs = seq![r0, r1, r2];
    reveal_with_fuel(run_bios, 4);
    assert(rs.drop_first() =~= seq![r1, r2]);
    assert(seq![r1, r2].drop_first() =~= seq![r2]);
    assert(seq![r2].drop_first() =~= Seq::<FirmwareReply>::empty());
    assert(seq![A20_QUERY_SUPPORT] + Seq::<u16>::empty() =~= seq![A20_QUERY_SUPPORT]);
    assert(seq![A20_QUERY_STATUS] + Seq::<u16>::empty() =~= seq![A20_QUERY_STATUS]);
    assert(seq![A20_ENABLE] + Seq::<u16>::empty() =~= seq![A20_ENABLE]);
    assert(seq![A20_QUERY_SUPPORT] + seq![A20_QUERY_STATUS] =~= seq![
        A20_QUERY_SUPPORT,
        A20_QUERY_STATUS,
    ]);
    assert(seq![A20_QUERY_STATUS] + seq![A20_ENABLE] =~= seq![A20_QUERY_STATUS, A20_ENABLE]);
    assert(seq![A20_QUERY_SUPPORT] + seq![A20_QUERY_STATUS, A20_ENABLE] =~= seq![
        A20_QUERY_SUPPORT,
        A20_QUERY_STATUS,
        A20_ENABLE,
    ]);
}

/// Keyboard controller status/command port.
pub const KBC_COMMAND_PORT: u16 = 0x64;
/// Keyboard controller data port.
pub const KBC_DATA_PORT: u16 = 0x60;
/// Controller command: disable the keyboard.
pub const KBC_DISABLE_KEYBOARD: u8 = 0xAD;
/// Controller command: read the output port.
pub const KBC_READ_OUTPUT: u8 = 0xD0;
/// Controller command: write the output port.
pub const KBC_WRITE_OUTPUT: u8 = 0xD1;
/// Controller command: enable the keyboard.
pub const KBC_ENABLE_KEYBOARD: u8 = 0xAE;
/// Output-port bit that gates A20.
pub const KBC_A20_BIT: u8 = 0x02;

/// The controller accepts a byte: its input buffer is empty (status bit 1 clear).
pub open spec fn input_ready(status: u8) -> bool {
    (status / 2) % 2 == 0
}

/// The controller has a byte for us: its output buffer is full (status bit 0 set).
pub open spec fn output_ready(status: u8) -> bool {
    status % 2 == 1
}

/// One port access of the keyboard-controller method.
#[derive(Clone, Copy, Debug, PartialEq, Eq, Structural)]
pub enum KbcStep {
    /// Read the status port and report the byte.
    ReadStatus,
    /// Write this command byte to the command port.
    Command(u8),
    /// Read the data port and report the byte.
    ReadData,
    /// Write this byte to the data port.
    WriteData(u8),
    /// The method is over.
    Finished,
}

/// The keyboard-controller method: disable the keyboard, read the output
/// port, write it back with the A20 bit set, enable the keyboard; every
/// access waits for the controller's status to show it ready.
pub struct KeyboardControllerA20 {
    stage: u8,
    output_port: u8,
    last_status: Option<u8>,
}

/// The state of a [`KeyboardControllerA20`] in mathematical terms.
pub struct KbcModel {
    pub stage: int,
    pub output_port: u8,
    /// The status byte read just before, if the last access was a status read.
    pub last_status: Option<u8>,
}

impl View for KeyboardControllerA20 {
    type V = KbcModel;

    closed spec fn view(&self) -> KbcModel {
        KbcModel { stage: self.stage as int, output_port: self.output_port, last_status: self.last_status }
    }
}

/// The stages that wait for the input buffer to empty.
pub open spec fn kbc_waits_input(stage: int) -> bool {
    stage == 0 || stage == 2 || stage == 6 || stage == 8 || stage == 10 || stage == 12
}

/// The access each stage makes once its wait, if any, is over.
pub open spec fn kbc_access(stage: int, output_port: u8) -> KbcStep {
    if stage == 1 {
        KbcStep::Command(KBC_DISABLE_KEYBOARD)
    } else if stage == 3 {
        KbcStep::Command(KBC_READ_OUTPUT)
    } else if stage == 5 {
        KbcStep::ReadData
    } else if stage == 7 {
        KbcStep::Command(KBC_WRITE_OUTPUT)
    } else if stage == 9 {
        KbcStep::WriteData(output_port | KBC_A20_BIT)
    } else if stage == 11 {
        KbcStep::Command(KBC_ENABLE_KEYBOARD)
    } else if stage >= 13 {
        KbcStep::Finished
    } else {
        KbcStep::ReadStatus
    }
}

impl KbcModel {
    /// The last status read showed the input buffer empty.
    pub open spec fn may_write(self) -> bool {
        self.last_status matches Some(s) && input_ready(s)
    }

    /// The last status read showed the output buffer full.
    pub open spec fn may_read(self) -> bool {
        self.last_status matches Some(s) && output_ready(s)
    }

    /// Each access stage is reached only through a status read that allows it.
    pub open spec fn wf(self) -> bool {
        &&& 0 <= self.stage <= 13
        &&& self.stage % 2 == 1 && self.stage != 5 ==> self.may_write()
        &&& self.stage == 5 ==> self.may_read()
    }

    /// The next access: a stage that waits reads the status until it shows
    /// the controller ready, then moves on.
    pub open spec fn step(self) -> KbcStep {
        kbc_access(self.stage, self.output_port)
    }

    /// The state after the access of this stage; `value` is the byte read,
    /// ignored after a write.
    pub open spec fn after(self, value: u8) -> Self {
        let s = self.stage;
        if kbc_waits_input(s) {
            if input_ready(value) {
                KbcModel { stage: s + 1, last_status: Some(value), ..self }
            } else {
                KbcModel { last_status: Some(value), ..self }
            }
        } else if s == 4 {
            if output_ready(value) {
                KbcModel { stage: s + 1, last_status: Some(value), ..self }
            } else {
                KbcModel { last_status: Some(value), ..self }
            }
        } else if s == 5 {
            KbcModel { stage: s + 1, output_port: value, last_status: None }
        } else {
            KbcModel { stage: s + 1, last_status: None, ..self }
        }
    }
}

impl KeyboardControllerA20 {
    pub fn new() -> (r: Self)
        ensures
            r@.stage == 0,
            r@.last_status is None,
            r@.wf(),
    {
        KeyboardControllerA20 { stage: 0, output_port: 0, last_status: None }
    }

    /// The next port access. A write is only ever asked for right after a
    /// status read that showed the input buffer empty, and a data read right
    /// after one that showed the output buffer full.
    pub fn next_step(&self) -> (r: KbcStep)
        requires
            self@.wf(),
        ensures
            r == self@.step(),
            r is Command || r is WriteData ==> self@.may_write(),
            r is ReadData ==> self@.may_read(),
    {
        if self.stage == 1 {
            KbcStep::Command(KBC_DISABLE_KEYBOARD)
        } else if self.stage == 3 {
            KbcStep::Command(KBC_READ_OUTPUT)
        } else if self.stage == 5 {
            KbcStep::ReadData
        } else if self.stage == 7 {
            KbcStep::Command(KBC_WRITE_OUTPUT)
        } else if self.stage == 9 {
            KbcStep::WriteData(self.output_port | KBC_A20_BIT)
        } else if self.stage == 11 {
            KbcStep::Command(KBC_ENABLE_KEYBOARD)
        } else if self.stage >= 13 {
            KbcStep::Finished
        } else {
            KbcStep::ReadStatus
        }
    }

    /// Records the access just made; `value` is the byte read, ignored after a write.
    pub fn complete(&mut self, value: u8)
        requires
            old(self)@.wf(),
            old(self)@.stage < 13,
        ensures
            final(self)@ == old(self)@.after(value),
            final(self)@.wf(),
    {
        let s = self.stage;
        if s == 0 || s == 2 || s == 6 || s == 8 || s == 10 || s == 12 {
            self.last_status = Some(value);
            if (value / 2) % 2 == 0 {
                self.stage = s + 1;
            }
        } else if s == 4 {
            self.last_status = Some(value);
            if value % 2 == 1 {
                self.stage = s + 1;
            }
        } else if s == 5 {
            self.output_port = value;
            self.last_status = None;
            self.stage = s + 1;
        } else {
            self.last_status = None;
            self.stage = s + 1;
        }
    }
}

/// Runs the keyboard-controller method for at most `fuel` accesses against
/// a controller whose status reads `status` and whose output port reads
/// `port`: the final state and the accesses other than status reads.
pub open spec fn run_kbc(m: KbcModel, status: u8, port: u8, fuel: nat) -> (KbcModel, Seq<KbcStep>)
    decreases fuel,
{
    if fuel == 0 {
        (m, Seq::empty())
    } else {
        match m.step() {
            KbcStep::Finished => (m, Seq::empty()),
            KbcStep::ReadStatus => run_kbc(m.after(status), status, port, (fuel - 1) as nat),
            KbcStep::ReadData => {
                let r = run_kbc(m.after(port), status, port, (fuel - 1) as nat);
                (r.0, seq![KbcStep::ReadData] + r.1)
            },
            step => {
                let r = run_kbc(m.after(0), status, port, (fuel - 1) as nat);
                (r.0, seq![step] + r.1)
            },
        }
    }
}

/// Against a controller that is always ready, the method disables the
/// keyboard (0xAD), asks for the output port (0xD0), reads it, announces a
/// write of the output port (0xD1), writes it back with bit 1 set, and
/// enables the keyboard again (0xAE), in that order and nothing else.
pub proof fn lemma_kbc_sequence(m: KbcModel, status: u8, port: u8)
    requires
        m.stage == 0,
        input_ready(status),
        output_ready(status),
    ensures
        run_kbc(m, status, port, 13).1 == seq![
            KbcStep::Command(KBC_DISABLE_KEYBOARD),
            KbcStep::Command(KBC_READ_OUTPUT),
            KbcStep::ReadData,
            KbcStep::Command(KBC_WRITE_OUTPUT),
            KbcStep::WriteData(port | KBC_A20_BIT),
            KbcStep::Command(KBC_ENABLE_KEYBOARD),
        ],
        run_kbc(m, status, port, 13).0.step() == KbcStep::Finished,
{
    reveal_with_fuel(run_kbc, 14);
    let e = Seq::<KbcStep>::empty();
    let a = KbcStep::Command(KBC_DISABLE_KEYBOARD);
    let b = KbcStep::Command(KBC_READ_OUTPUT);
    let c = KbcStep::ReadData;
    let d = KbcStep::Command(KBC_WRITE_OUTPUT);
    let w = KbcStep::WriteData(port | KBC_A20_BIT);
    let f = KbcStep::Command(KBC_ENABLE_KEYBOARD);
    assert(seq![a] + (seq![b] + (seq![c] + (seq![d] + (seq![w] + (seq![f] + e))))) =~= seq![
        a,
        b,
        c,
        d,
        w,
        f,
    ]);
}

/// System control port of the fast method.
pub const FAST_A20_PORT: u16 = 0x92;

/// The byte to write back to the system control port, or none when the
/// A20 bit (bit 1) is already set: bit 1 set, the reset bit (bit 0)
/// cleared, the other bits kept.
pub fn fast_a20_value(current: u8) -> (r: Option<u8>)
    ensures
        (current / 2) % 2 == 1 ==> r is None,
        (current / 2) % 2 == 0 ==> r == Some(((current / 4) * 4 + 2) as u8),
{
    if current & 0x02 != 0 {
        proof {
            assert(current & 0x02 != 0 ==> (current / 2) % 2 == 1) by (bit_vector);
        }
        None
    } else {
        proof {
            assert(current & 0x02 == 0 ==> (current / 2) % 2 == 0 && (current | 0x02) & 0xFE == (
            current / 4) * 4 + 2) by (bit_vector);
        }
        Some((current | 0x02) & 0xFE)
    }
}

/// The three ways of enabling the line, in the order they are tried.
#[derive(Clone, Copy, Debug, PartialEq, Eq, Structural)]
pub enum A20Method {
    Firmware,
    KeyboardController,
    Fast,
}

/// One step of the A20 escalation.
#[derive(Clone, Copy, Debug, PartialEq, Eq, Structural)]
pub enum A20Action {
    /// Run an [`A20Probe`] and report its verdict.
    Probe,
    /// Run this method to its end.
    Run(A20Method),
    /// The line is enabled.
    Enabled,
    /// Every method was tried and the line is still disabled.
    Failed,
}

/// The escalation's step at each stage: probe, then each method followed by
/// a probe, stopping at the first probe that finds the line enabled.
pub open spec fn escalation_step(stage: int) -> A20Action {
    if stage == 0 || stage == 2 || stage == 4 || stage == 6 {
        A20Action::Probe
    } else if stage == 1 {
        A20Action::Run(A20Method::Firmware)
    } else if stage == 3 {
        A20Action::Run(A20Method::KeyboardController)
    } else if stage == 5 {
        A20Action::Run(A20Method::Fast)
    } else if stage == 7 {
        A20Action::Enabled
    } else {
        A20Action::Failed
    }
}

/// The stage after a probe found the line `enabled` at `stage`.
pub open spec fn escalation_after_probe(stage: int, enabled: bool) -> int {
    if enabled {
        7
    } else if stage == 6 {
        8
    } else {
        stage + 1
    }
}

/// Enables the A20 line, escalating through the firmware, keyboard
/// controller and fast methods; each method is followed by a probe.
pub struct A20Enabler {
    stage: u8,
}

impl View for A20Enabler {
    type V = int;

    closed spec fn view(&self) -> int {
        self.stage as int
    }
}

/// Starts enabling the A20 line.
pub fn enable_a20() -> (r: A20Enabler)
    ensures
        r@ == 0,
{
    A20Enabler { stage: 0 }
}

impl A20Enabler {
    pub fn next_action(&self) -> (r: A20Action)
        ensures
            r == escalation_step(self@),
    {
        if self.stage == 0 || self.stage == 2 || self.stage == 4 || self.stage == 6 {
            A20Action::Probe
        } else if self.stage == 1 {
            A20Action::Run(A20Method::Firmware)
        } else if self.stage == 3 {
            A20Action::Run(A20Method::KeyboardController)
        } else if self.stage == 5 {
            A20Action::Run(A20Method::Fast)
        } else if self.stage == 7 {
            A20Action::Enabled
        } else {
            A20Action::Failed
        }
    }

    /// Records a probe's verdict.
    pub fn probe_done(&mut self, enabled: bool)
        requires
            escalation_step(old(self)@) is Probe,
        ensures
            final(self)@ == escalation_after_probe(old(self)@, enabled),
    {
        if enabled {
            self.stage = 7;
        } else if self.stage == 6 {
            self.stage = 8;
        } else {
            self.stage = self.stage + 1;
        }
    }

    /// Records that the method asked for has run, whatever it reported:
    /// the probe that follows decides.
    pub fn method_done(&mut self)
        requires
            escalation_step(old(self)@) is Run,
        ensures
            final(self)@ == old(self)@ + 1,
    {
        self.stage = self.stage + 1;
    }
}

/// A machine on which each method either enables the line or does nothing.
pub struct A20World {
    pub enabled: bool,
    pub firmware_works: bool,
    pub keyboard_controller_works: bool,
    pub fast_works: bool,
}

impl A20World {
    pub open spec fn works(self, m: A20Method) -> bool {
        match m {
            A20Method::Firmware => self.firmware_works,
            A20Method::KeyboardController => self.keyboard_controller_works,
            A20Method::Fast => self.fast_works,
        }
    }

    pub open spec fn run_method(self, m: A20Method) -> Self {
        A20World { enabled: self.enabled || self.works(m), ..self }
    }
}

/// Runs the escalation in a world for at most `fuel` steps: the final
/// stage, the world, and the methods that were run, in order.
pub open spec fn run_escalation(stage: int, w: A20World, fuel: nat) -> (int, A20World, Seq<
    A20Method,
>)
    decreases fuel,
{
    if fuel == 0 {
        (stage, w, Seq::empty())
    } else {
        match escalation_step(stage) {
            A20Action::Probe => run_escalation(
                escalation_after_probe(stage, w.enabled),
                w,
                (fuel - 1) as nat,
            ),
            A20Action::Run(m) => {
                let r = run_escalation(stage + 1, w.run_method(m), (fuel - 1) as nat);
                (r.0, r.1, seq![m] + r.2)
            },
            _ => (stage, w, Seq::empty()),
        }
    }
}

/// The escalation enables the line exactly when it was already enabled or
/// some method works; the outcome it reports is what the last probe saw;
/// and it stops at the first method that works, never running a later one.
pub proof fn lemma_escalation_outcome(w: A20World)
    ensures
        ({
            let r = run_escalation(0, w, 7);
            let any = w.enabled || w.firmware_works || w.keyboard_controller_works
                || w.fast_works;
            &&& escalation_step(r.0) == if any {
                A20Action::Enabled
            } else {
                A20Action::Failed
            }
            &&& r.1.enabled == any
            &&& r.2 == if w.enabled {
                Seq::<A20Method>::empty()
            } else if w.firmware_works {
                seq![A20Method::Firmware]
            } else if w.keyboard_controller_works {
                seq![A20Method::Firmware, A20Method::KeyboardController]
            } else {
                seq![A20Method::Firmware, A20Method::KeyboardController, A20Method::Fast]
            }
        }),
{
    reveal_with_fuel(run_escalation, 8);
    assert(seq![A20Method::Firmware] + Seq::<A20Method>::empty() =~= seq![A20Method::Firmware]);
    assert(seq![A20Method::KeyboardController] + Seq::<A20Method>::empty() =~= seq![
        A20Method::KeyboardController,
    ]);
    assert(seq![A20Method::Fast] + Seq::<A20Method>::empty() =~= seq![A20Method::Fast]);
    assert(seq![A20Method::Firmware] + seq![A20Method::KeyboardController] =~= seq![
        A20Method::Firmware,
        A20Method::KeyboardController,
    ]);
    assert(seq![A20Method::KeyboardController] + seq![A20Method::Fast] =~= seq![
        A20Method::KeyboardController,
        A20Method::Fast,
    ]);
    assert(seq![A20Method::Firmware] + seq![A20Method::KeyboardController, A20Method::Fast] =~= seq![
        A20Method::Firmware,
        A20Method::KeyboardController,
        A20Method::Fast,
    ]);
}

} // verus!
