use vstd::prelude::*;
use crate::disk::{
    DiskAction,
    DiskAddressPacket,
    DiskReader,
    DiskReaderModel,
    PACKET_SIZE,
    SECTOR_SIZE,
    run,
    plain_request,
    lemma_read_all_succeed,
    lemma_read_fails_at,
    lemma_read_order,
};
use crate::modes::{
    CpuMode,
    CpuState,
    ModeController,
    ModeOp,
    firmware_usable,
    mode_of,
    plan_safe,
    protected_plan,
    unreal_plan,
};
use crate::modes::run as run_steps;

verus! {

/// First sector of the second stage on disk.
pub const STAGE2_LBA: u64 = 2048;
/// Length of the second stage in sectors.
pub const STAGE2_SECTORS: u16 = 64;
/// Where the first stage loads the second stage and jumps to it.
pub const STAGE2_LOAD_OFFSET: u16 = 0x7E00;
/// First sector of the kernel image on disk.
pub const KERNEL_LBA: u64 = 4096;
/// Scratch window below 64 KiB through which kernel sectors pass.
pub const KERNEL_BUFFER: u16 = 0x1000;
/// Where the kernel image is copied to and entered, at 1 MiB.
pub const KERNEL_TARGET: u32 = 0x10_0000;

/// What the first stage must do next.
#[derive(Clone, Copy, Debug, PartialEq, Eq, Structural)]
pub enum Stage1Action {
    /// Read with this packet and report whether the firmware succeeded.
    Read(DiskAddressPacket),
    /// Loading failed: report it and halt.
    Halt,
    /// Jump to this offset, where the second stage now lies.
    Jump(u16),
}

/// The first stage's next action for a reader in this state.
pub open spec fn stage1_action(m: DiskReaderModel) -> Stage1Action {
    match m.action() {
        DiskAction::Read(p) => Stage1Action::Read(p),
        DiskAction::Finished(true) => Stage1Action::Jump(STAGE2_LOAD_OFFSET),
        _ => Stage1Action::Halt,
    }
}

/// The reader of the first stage when it starts.
pub open spec fn stage1_start() -> DiskReaderModel {
    DiskReaderModel {
        cursor: STAGE2_LOAD_OFFSET as int,
        lba: STAGE2_LBA as int,
        remaining: STAGE2_SECTORS as int,
        copy_to: None,
        copy_pending: false,
        failed: false,
    }
}

/// The first stage: load the second stage off the disk and jump to it, or
/// halt on a read error.
pub struct Stage1 {
    reader: DiskReader,
}

impl Stage1 {
    /// The state of the disk request.
    pub closed spec fn disk(&self) -> DiskReaderModel {
        self.reader@
    }

    /// The first stage, about to read the second stage's first sector.
    pub fn new() -> (r: Self)
        ensures
            r.disk() == stage1_start(),
            plain_request(r.disk()),
    {
        let mut reader = DiskReader::new(STAGE2_LOAD_OFFSET, STAGE2_LBA);
        reader.read_sectors(STAGE2_SECTORS);
        Stage1 { reader }
    }

    /// The next action.
    pub fn next_action(&self) -> (r: Stage1Action)
        requires
            plain_request(self.disk()) || self.disk().failed && self.disk().wf(),
        ensures
            r == stage1_action(self.disk()),
    {
        match self.reader.next_action() {
            DiskAction::Read(p) => Stage1Action::Read(p),
            DiskAction::Finished(true) => Stage1Action::Jump(STAGE2_LOAD_OFFSET),
            _ => Stage1Action::Halt,
        }
    }

    /// Records the firmware's answer to the read just made.
    pub fn read_done(&mut self, ok: bool)
        requires
            plain_request(old(self).disk()),
            stage1_action(old(self).disk()) is Read,
        ensures
            final(self).disk() == old(self).disk().after_read(ok),
            plain_request(final(self).disk()) || final(self).disk().failed
                && final(self).disk().wf(),
    {
        self.reader.read_done(ok);
    }
}

/// With every read answered successfully, the first stage reads sectors
/// 2048 to 2111 in order to consecutive 512-byte slots from 0x7E00, 32768
/// bytes in all, and then jumps to 0x7E00. When the read of sector number
/// `k` (from 1) fails, it halts after `k - 1` sectors, and no jump is ever
/// asked for before.
pub proof fn lemma_stage1_loads_then_jumps(answers: Seq<bool>, i: int, k: int)
    requires
        0 <= i < STAGE2_SECTORS,
        1 <= k <= STAGE2_SECTORS,
    ensures
        answers.len() == i && (forall|j: int| 0 <= j < i ==> #[trigger] answers[j])
            ==> stage1_action(run(stage1_start(), answers)) == Stage1Action::Read(
            DiskAddressPacket {
                packet_size: PACKET_SIZE,
                zero: 0,
                sectors: 1,
                transfer_offset: (STAGE2_LOAD_OFFSET + SECTOR_SIZE * i) as u16,
                transfer_segment: 0,
                lba: (STAGE2_LBA + i) as u64,
            },
        ),
        answers.len() == STAGE2_SECTORS && (forall|j: int|
            0 <= j < answers.len() ==> #[trigger] answers[j]) ==> stage1_action(
            run(stage1_start(), answers),
        ) == Stage1Action::Jump(STAGE2_LOAD_OFFSET) && run(stage1_start(), answers).cursor
            - STAGE2_LOAD_OFFSET == 32768,
        k <= answers.len() && (forall|j: int| 0 <= j < k - 1 ==> #[trigger] answers[j])
            && !answers[k - 1] ==> stage1_action(run(stage1_start(), answers))
            == Stage1Action::Halt && run(stage1_start(), answers).lba == STAGE2_LBA + k - 1,
{
    let m = stage1_start();
    if answers.len() == i && (forall|j: int| 0 <= j < i ==> #[trigger] answers[j]) {
        lemma_read_order(m, answers, i);
    }
    if answers.len() == STAGE2_SECTORS && (forall|j: int|
        0 <= j < answers.len() ==> #[trigger] answers[j]) {
        lemma_read_all_succeed(m, answers);
    }
    if k <= answers.len() && (forall|j: int| 0 <= j < k - 1 ==> #[trigger] answers[j])
        && !answers[k - 1] {
        lemma_read_fails_at(m, answers, k);
    }
}

/// What the second stage must do next.
#[derive(Clone, Copy, Debug, PartialEq, Eq, Structural)]
pub enum Stage2Action {
    /// Run the A20 escalation and report whether the line is enabled.
    EnableA20,
    /// Call [`Stage2::enter_unreal`] and perform the steps it returns.
    EnterUnreal,
    /// Perform this step of loading the kernel and report it.
    Disk(DiskAction),
    /// Call [`Stage2::enter_protected`] and perform the steps it returns.
    EnterProtected,
    /// Jump to the kernel at this linear address.
    Jump(u32),
    /// Boot failed: report it and halt.
    Halt,
}

/// The second stage: enable A20, enter unreal mode, copy the kernel above
/// 1 MiB, enter protected mode and jump to the kernel.
pub struct Stage2 {
    phase: u8,
    reader: DiskReader,
    cpu: ModeController,
}

/// The second stage's next action in a phase.
pub open spec fn stage2_action(phase: int, disk: DiskReaderModel) -> Stage2Action {
    if phase == 0 {
        Stage2Action::EnableA20
    } else if phase == 1 {
        Stage2Action::EnterUnreal
    } else if phase == 2 {
        match disk.action() {
            DiskAction::Finished(false) => Stage2Action::Halt,
            a => Stage2Action::Disk(a),
        }
    } else if phase == 3 {
        Stage2Action::EnterProtected
    } else if phase == 4 {
        Stage2Action::Jump(KERNEL_TARGET)
    } else {
        Stage2Action::Halt
    }
}

impl Stage2 {
    pub closed spec fn phase(&self) -> int {
        self.phase as int
    }

    pub closed spec fn disk(&self) -> DiskReaderModel {
        self.reader@
    }

    /// The modelled CPU state.
    pub closed spec fn cpu(&self) -> CpuState {
        self.cpu@
    }

    /// The phases' invariant: the disk request is well formed, the CPU is in
    /// real mode before unreal mode is entered, in unreal mode while the
    /// kernel loads, and the kernel is fully copied before protected mode.
    pub closed spec fn wf(&self) -> bool {
        &&& self.reader@.wf()
        &&& self.reader@.copy_to is Some
        &&& 0 <= self.phase <= 5
        &&& self.phase <= 1 ==> mode_of(self.cpu@) == CpuMode::RealMode
        &&& self.phase == 2 ==> mode_of(self.cpu@) == CpuMode::Unreal
        &&& self.phase == 3 ==> self.reader@.action() == DiskAction::Finished(true)
            && mode_of(self.cpu@) == CpuMode::Unreal
        &&& self.phase == 4 ==> self.reader@.action() == DiskAction::Finished(true)
            && mode_of(self.cpu@) == CpuMode::Protected32
    }

    /// The second stage of a kernel of `kernel_sectors` sectors.
    pub fn new(kernel_sectors: u16) -> (r: Self)
        ensures
            r.wf(),
            r.phase() == 0,
            r.disk().lba == KERNEL_LBA,
            r.disk().remaining == kernel_sectors,
            r.disk().copy_to == Some(KERNEL_TARGET as int),
            r.disk().cursor == KERNEL_BUFFER,
            !r.disk().failed,
            !r.disk().copy_pending,
            mode_of(r.cpu()) == CpuMode::RealMode,
            r.cpu().interrupts,
            !r.cpu().gdt_loaded,
            !r.cpu().saved,
    {
        let mut reader = DiskReader::new(KERNEL_BUFFER, KERNEL_LBA);
        reader.read_and_copy_sectors(kernel_sectors, KERNEL_TARGET);
        Stage2 { phase: 0, reader, cpu: ModeController::new() }
    }

    /// The next action. Disk reads are only asked for while firmware calls
    /// work, and the jump only in protected mode once the whole kernel is in
    /// place.
    pub fn next_action(&self) -> (r: Stage2Action)
        requires
            self.wf(),
        ensures
            r == stage2_action(self.phase(), self.disk()),
            r matches Stage2Action::Disk(DiskAction::Read(_)) ==> firmware_usable(self.cpu()),
            r is Jump ==> mode_of(self.cpu()) == CpuMode::Protected32
                && self.disk().action() == DiskAction::Finished(true),
    {
        if self.phase == 0 {
            Stage2Action::EnableA20
        } else if self.phase == 1 {
            Stage2Action::EnterUnreal
        } else if self.phase == 2 {
            match self.reader.next_action() {
                DiskAction::Finished(false) => Stage2Action::Halt,
                a => Stage2Action::Disk(a),
            }
        } else if self.phase == 3 {
            Stage2Action::EnterProtected
        } else if self.phase == 4 {
            Stage2Action::Jump(KERNEL_TARGET)
        } else {
            Stage2Action::Halt
        }
    }

    /// Records the outcome of the A20 escalation; without the line, the
    /// kernel cannot be loaded above 1 MiB and the stage halts.
    pub fn a20_done(&mut self, enabled: bool)
        requires
            old(self).wf(),
            old(self).phase() == 0,
        ensures
            final(self).wf(),
            final(self).phase() == if enabled {
                1int
            } else {
                5int
            },
            final(self).disk() == old(self).disk(),
            final(self).cpu() == old(self).cpu(),
    {
        if enabled {
            self.phase = 1;
        } else {
            self.phase = 5;
        }
    }

    /// Enters unreal mode; the caller performs the returned steps in order.
    pub fn enter_unreal(&mut self) -> (ops: Vec<ModeOp>)
        requires
            old(self).wf(),
            old(self).phase() == 1,
        ensures
            final(self).wf(),
            final(self).phase() == if old(self).disk().action() == DiskAction::Finished(true) {
                3int
            } else {
                2int
            },
            final(self).disk() == old(self).disk(),
            mode_of(final(self).cpu()) == CpuMode::Unreal,
            ops@ == unreal_plan(),
            plan_safe(old(self).cpu(), ops@),
            final(self).cpu() == run_steps(old(self).cpu(), ops@),
    {
        let ops = self.cpu.unreal_mode();
        self.phase = 2;
        self.finish_load();
        ops
    }

    /// Records the firmware's answer to the kernel read just made.
    pub fn read_done(&mut self, ok: bool)
        requires
            old(self).wf(),
            old(self).phase() == 2,
            old(self).disk().action() is Read,
        ensures
            final(self).wf(),
            final(self).disk() == old(self).disk().after_read(ok),
            final(self).cpu() == old(self).cpu(),
            final(self).phase() == if old(self).disk().after_read(ok).action() == DiskAction::Finished(
                true,
            ) {
                3int
            } else {
                2int
            },
    {
        self.reader.read_done(ok);
        self.finish_load();
    }

    /// Records that the sector in the scratch window was copied.
    pub fn copy_done(&mut self)
        requires
            old(self).wf(),
            old(self).phase() == 2,
            old(self).disk().action() is Copy,
        ensures
            final(self).wf(),
            final(self).disk() == old(self).disk().after_copy(),
            final(self).cpu() == old(self).cpu(),
            final(self).phase() == if old(self).disk().after_copy().action() == DiskAction::Finished(
                true,
            ) {
                3int
            } else {
                2int
            },
    {
        self.reader.copy_done();
        self.finish_load();
    }

    fn finish_load(&mut self)
        requires
            old(self).reader@.wf(),
            old(self).reader@.copy_to is Some,
            old(self).phase == 2,
            mode_of(old(self).cpu@) == CpuMode::Unreal,
        ensures
            final(self).wf(),
            final(self).reader == old(self).reader,
            final(self).cpu == old(self).cpu,
            final(self).phase() == if old(self).disk().action() == DiskAction::Finished(true) {
                3int
            } else {
                2int
            },
    {
        match self.reader.next_action() {
            DiskAction::Finished(true) => {
                self.phase = 3;
            },
            _ => {},
        }
    }

    /// Enters protected mode once the kernel is loaded; the caller performs
    /// the returned steps in order.
    pub fn enter_protected(&mut self) -> (ops: Vec<ModeOp>)
        requires
            old(self).wf(),
            old(self).phase() == 3,
        ensures
            final(self).wf(),
            final(self).phase() == 4,
            final(self).disk() == old(self).disk(),
            mode_of(final(self).cpu()) == CpuMode::Protected32,
            ops@ == protected_plan(),
            plan_safe(old(self).cpu(), ops@),
            final(self).cpu() == run_steps(old(self).cpu(), ops@),
    {
        let ops = self.cpu.protected_mode();
        self.phase = 4;
        ops
    }
}

} // verus!
