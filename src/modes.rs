use vstd::prelude::*;
use crate::boot_gdt::{BOOT_CODE_SELECTOR, BOOT_DATA_SELECTOR};

verus! {

/// The CPU's operating mode as the boot stages see it.
#[derive(Clone, Copy, Debug, PartialEq, Eq, Structural)]
pub enum CpuMode {
    /// 16-bit real mode: segments of 64 KiB, firmware calls usable.
    RealMode,
    /// Real mode whose data and stack registers keep flat 4 GiB limits.
    Unreal,
    /// 32-bit protected mode with flat segments; no firmware calls.
    Protected32,
    /// 64-bit long mode; not implemented.
    Long,
    /// Between modes, in the middle of a transition.
    Transitional,
}

/// One instruction-level step of a mode transition, for the code driving
/// the CPU to perform in order.
#[derive(Clone, Copy, Debug, PartialEq, Eq, Structural)]
pub enum ModeOp {
    /// Remember the real-mode code, data and stack segment values.
    SaveSegments,
    /// Clear the interrupt flag.
    DisableInterrupts,
    /// Load the boot descriptor table.
    LoadGdt,
    /// Set the protection-enable bit of CR0.
    SetProtectionBit,
    /// Clear the protection-enable bit of CR0.
    ClearProtectionBit,
    /// Far jump through this code selector, which flushes the decoding of
    /// the instructions already fetched.
    FarJump(u16),
    /// Far jump back to the saved real-mode code segment.
    FarJumpSaved,
    /// Load this selector into the data, extra and stack segment registers.
    LoadDataSegments(u16),
    /// Put the saved real-mode data and stack segment values back; their
    /// cached limits stay as they are.
    RestoreSegments,
    /// Set the interrupt flag.
    EnableInterrupts,
}

/// What of the CPU's state the transitions change.
#[derive(Clone, Copy, Debug, PartialEq, Eq, Structural)]
pub struct CpuState {
    /// CR0's protection-enable bit.
    pub protection: bool,
    /// The interrupt flag.
    pub interrupts: bool,
    /// The boot descriptor table is loaded.
    pub gdt_loaded: bool,
    /// The code segment decodes as 32-bit protected-mode code.
    pub code32: bool,
    /// The data and stack registers hold flat 4 GiB limits.
    pub data_flat: bool,
    /// The data and stack selectors are valid for the current mode.
    pub data_valid: bool,
    /// The real-mode segment values are saved.
    pub saved: bool,
}

/// Registers and mode agree: the state an interrupt handler may run in.
pub open spec fn consistent(s: CpuState) -> bool {
    s.data_valid && s.code32 == s.protection && (s.protection ==> s.data_flat && s.gdt_loaded)
}

/// The mode a state is in.
pub open spec fn mode_of(s: CpuState) -> CpuMode {
    if !consistent(s) {
        CpuMode::Transitional
    } else if s.protection {
        CpuMode::Protected32
    } else if s.data_flat {
        CpuMode::Unreal
    } else {
        CpuMode::RealMode
    }
}

/// Firmware services work only outside protected mode.
pub open spec fn firmware_usable(s: CpuState) -> bool {
    !s.protection
}

/// The ordering rules: a table is loaded with interrupts off; protection is
/// switched on only after the table is loaded; interrupts come back only
/// once every register agrees with the mode; saved values are used only
/// after saving.
pub open spec fn allowed(s: CpuState, op: ModeOp) -> bool {
    match op {
        ModeOp::LoadGdt => !s.interrupts,
        ModeOp::SetProtectionBit => s.gdt_loaded && !s.interrupts,
        ModeOp::ClearProtectionBit => !s.interrupts,
        ModeOp::FarJump(_) => !s.interrupts,
        ModeOp::LoadDataSegments(_) => !s.interrupts,
        ModeOp::FarJumpSaved => s.saved && !s.interrupts,
        ModeOp::RestoreSegments => s.saved && !s.interrupts,
        ModeOp::EnableInterrupts => consistent(s),
        _ => true,
    }
}

/// The state after one step.
pub open spec fn step(s: CpuState, op: ModeOp) -> CpuState {
    match op {
        ModeOp::SaveSegments => CpuState { saved: true, ..s },
        ModeOp::DisableInterrupts => CpuState { interrupts: false, ..s },
        ModeOp::EnableInterrupts => CpuState { interrupts: true, ..s },
        ModeOp::LoadGdt => CpuState { gdt_loaded: true, ..s },
        ModeOp::SetProtectionBit => CpuState { protection: true, data_valid: false, ..s },
        ModeOp::ClearProtectionBit => CpuState { protection: false, data_valid: false, ..s },
        ModeOp::FarJump(sel) => CpuState {
            code32: s.protection && sel == BOOT_CODE_SELECTOR,
            ..s
        },
        ModeOp::FarJumpSaved => CpuState { code32: false, ..s },
        ModeOp::LoadDataSegments(sel) => if s.protection && sel == BOOT_DATA_SELECTOR {
            CpuState { data_flat: true, data_valid: true, ..s }
        } else {
            CpuState { data_valid: false, ..s }
        },
        ModeOp::RestoreSegments => CpuState { data_valid: !s.protection, ..s },
    }
}

/// The state after a sequence of steps.
pub open spec fn run(s: CpuState, ops: Seq<ModeOp>) -> CpuState
    decreases ops.len(),
{
    if ops.len() == 0 {
        s
    } else {
        step(run(s, ops.drop_last()), ops.last())
    }
}

/// Every step of the sequence is allowed in the state it meets.
pub open spec fn plan_safe(s: CpuState, ops: Seq<ModeOp>) -> bool
    decreases ops.len(),
{
    if ops.len() == 0 {
        true
    } else {
        plan_safe(s, ops.drop_last()) && allowed(run(s, ops.drop_last()), ops.last())
    }
}

/// No interrupt can arrive while registers and mode disagree.
pub open spec fn interrupt_safe(s: CpuState) -> bool {
    consistent(s) || !s.interrupts
}

/// Following the ordering rules, interrupts are never enabled while the
/// CPU's registers disagree with its mode, whatever the sequence of steps.
pub proof fn lemma_safe_plans_keep_interrupts_safe(s: CpuState, ops: Seq<ModeOp>)
    requires
        interrupt_safe(s),
        plan_safe(s, ops),
    ensures
        interrupt_safe(run(s, ops)),
    decreases ops.len(),
{
    if ops.len() > 0 {
        lemma_safe_plans_keep_interrupts_safe(s, ops.drop_last());
    }
}

/// Sets the protection-enable bit of a CR0 value.
pub fn set_protected_mode_bit(cr0: u32) -> (r: u32)
    ensures
        r == cr0 - cr0 % 2 + 1,
{
    proof {
        assert(cr0 | 1 == cr0 - cr0 % 2 + 1) by (bit_vector);
    }
    cr0 | 1
}

/// Clears the protection-enable bit of a CR0 value.
pub fn clear_protected_mode_bit(cr0: u32) -> (r: u32)
    ensures
        r == cr0 - cr0 % 2,
{
    proof {
        assert(cr0 & 0xFFFF_FFFE == cr0 - cr0 % 2) by (bit_vector);
    }
    cr0 & 0xFFFF_FFFE
}

/// Drives the CPU between real, unreal and protected mode. It keeps a model
/// of the CPU's state and hands out the steps of each transition in order.
pub struct ModeController {
    state: CpuState,
}

impl View for ModeController {
    type V = CpuState;

    closed spec fn view(&self) -> CpuState {
        self.state
    }
}

impl ModeController {
    /// The modelled CPU state.
    pub fn state(&self) -> (r: CpuState)
        ensures
            r == self@,
    {
        self.state
    }

    /// The state the firmware hands over: real mode, interrupts on, no table loaded.
    pub fn new() -> (r: Self)
        ensures
            mode_of(r@) == CpuMode::RealMode,
            r@.interrupts,
            !r@.gdt_loaded,
            !r@.saved,
    {
        ModeController {
            state: CpuState {
                protection: false,
                interrupts: true,
                gdt_loaded: false,
                code32: false,
                data_flat: false,
                data_valid: true,
                saved: false,
            },
        }
    }

    /// The current mode.
    pub fn mode(&self) -> (r: CpuMode)
        ensures
            r == mode_of(self@),
    {
        let s = self.state;
        let consistent = s.data_valid && s.code32 == s.protection && (!s.protection || (
        s.data_flat && s.gdt_loaded));
        if !consistent {
            CpuMode::Transitional
        } else if s.protection {
            CpuMode::Protected32
        } else if s.data_flat {
            CpuMode::Unreal
        } else {
            CpuMode::RealMode
        }
    }

    /// Whether firmware calls may be made now.
    pub fn firmware_usable(&self) -> (r: bool)
        ensures
            r == firmware_usable(self@),
    {
        !self.state.protection
    }

    fn perform(&mut self, ops: &mut Vec<ModeOp>, op: ModeOp, Ghost(start): Ghost<CpuState>)
        requires
            old(self)@ == run(start, old(ops)@),
            plan_safe(start, old(ops)@),
            allowed(old(self)@, op),
        ensures
            final(self)@ == run(start, final(ops)@),
            plan_safe(start, final(ops)@),
            final(ops)@ == old(ops)@.push(op),
            final(self)@ == step(old(self)@, op),
    {
        let s = self.state;
        self.state = match op {
            ModeOp::SaveSegments => CpuState { saved: true, ..s },
            ModeOp::DisableInterrupts => CpuState { interrupts: false, ..s },
            ModeOp::EnableInterrupts => CpuState { interrupts: true, ..s },
            ModeOp::LoadGdt => CpuState { gdt_loaded: true, ..s },
            ModeOp::SetProtectionBit => CpuState { protection: true, data_valid: false, ..s },
            ModeOp::ClearProtectionBit => CpuState { protection: false, data_valid: false, ..s },
            ModeOp::FarJump(sel) => CpuState {
                code32: s.protection && sel == BOOT_CODE_SELECTOR,
                ..s
            },
            ModeOp::FarJumpSaved => CpuState { code32: false, ..s },
            ModeOp::LoadDataSegments(sel) => if s.protection && sel == BOOT_DATA_SELECTOR {
                CpuState { data_flat: true, data_valid: true, ..s }
            } else {
                CpuState { data_valid: false, ..s }
            },
            ModeOp::RestoreSegments => CpuState { data_valid: !s.protection, ..s },
        };
        ops.push(op);
        proof {
            assert(ops@.drop_last() =~= old(ops)@);
        }
    }

    fn enter_protected(&mut self, ops: &mut Vec<ModeOp>, Ghost(start): Ghost<CpuState>)
        requires
            old(self)@ == run(start, old(ops)@),
            plan_safe(start, old(ops)@),
        ensures
            final(self)@ == run(start, final(ops)@),
            plan_safe(start, final(ops)@),
            final(ops)@ == old(ops)@ + protected_plan(),
            mode_of(final(self)@) == CpuMode::Protected32,
            !final(self)@.interrupts,
            final(self)@.saved == old(self)@.saved,
    {
        self.perform(ops, ModeOp::DisableInterrupts, Ghost(start));
        self.perform(ops, ModeOp::LoadGdt, Ghost(start));
        self.perform(ops, ModeOp::SetProtectionBit, Ghost(start));
        self.perform(ops, ModeOp::FarJump(BOOT_CODE_SELECTOR), Ghost(start));
        self.perform(ops, ModeOp::LoadDataSegments(BOOT_DATA_SELECTOR), Ghost(start));
        proof {
            assert(ops@ =~= old(ops)@ + protected_plan());
        }
    }

    /// Enters 32-bit protected mode: interrupts off, table loaded, protection
    /// on, a far jump through the code selector, then every data and stack
    /// register loaded with the flat data selector. Interrupts stay off.
    pub fn protected_mode(&mut self) -> (ops: Vec<ModeOp>)
        requires
            firmware_usable(old(self)@),
        ensures
            ops@ == protected_plan(),
            plan_safe(old(self)@, ops@),
            final(self)@ == run(old(self)@, ops@),
            mode_of(final(self)@) == CpuMode::Protected32,
            !final(self)@.interrupts,
    {
        let mut ops: Vec<ModeOp> = Vec::new();
        let ghost start = self.state;
        proof {
            assert(ops@ + protected_plan() =~= protected_plan());
        }
        self.enter_protected(&mut ops, Ghost(start));
        ops
    }

    /// Enters unreal mode: saves the real-mode segments, passes through
    /// protected mode to load flat limits into the data and stack registers,
    /// leaves protected mode with a far jump back to the saved code segment,
    /// restores the saved segment values and only then enables interrupts.
    pub fn unreal_mode(&mut self) -> (ops: Vec<ModeOp>)
        requires
            firmware_usable(old(self)@),
        ensures
            ops@ == unreal_plan(),
            plan_safe(old(self)@, ops@),
            final(self)@ == run(old(self)@, ops@),
            mode_of(final(self)@) == CpuMode::Unreal,
            final(self)@.interrupts,
            firmware_usable(final(self)@),
    {
        let mut ops: Vec<ModeOp> = Vec::new();
        let ghost start = self.state;
        self.perform(&mut ops, ModeOp::SaveSegments, Ghost(start));
        self.enter_protected(&mut ops, Ghost(start));
        self.perform(&mut ops, ModeOp::ClearProtectionBit, Ghost(start));
        self.perform(&mut ops, ModeOp::FarJumpSaved, Ghost(start));
        self.perform(&mut ops, ModeOp::RestoreSegments, Ghost(start));
        self.perform(&mut ops, ModeOp::EnableInterrupts, Ghost(start));
        proof {
            assert(ops@ =~= unreal_plan());
        }
        ops
    }
}

/// The steps of entering protected mode.
pub open spec fn protected_plan() -> Seq<ModeOp> {
    seq![
        ModeOp::DisableInterrupts,
        ModeOp::LoadGdt,
        ModeOp::SetProtectionBit,
        ModeOp::FarJump(BOOT_CODE_SELECTOR),
        ModeOp::LoadDataSegments(BOOT_DATA_SELECTOR),
    ]
}

/// The steps of entering unreal mode.
pub open spec fn unreal_plan() -> Seq<ModeOp> {
    seq![ModeOp::SaveSegments] + protected_plan() + seq![
        ModeOp::ClearProtectionBit,
        ModeOp::FarJumpSaved,
        ModeOp::RestoreSegments,
        ModeOp::EnableInterrupts,
    ]
}

/// Long mode is not implemented: asking for it leaves the mode as it is.
pub fn long_mode(mode: CpuMode) -> (r: CpuMode)
    ensures
        r == mode,
{
    mode
}

} // verus!
