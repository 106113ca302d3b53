use bootchain::boot::{
    Stage1, Stage1Action, Stage2, Stage2Action, KERNEL_BUFFER, KERNEL_LBA, KERNEL_TARGET,
    STAGE2_LBA, STAGE2_LOAD_OFFSET, STAGE2_SECTORS,
};
use bootchain::disk::DiskAction;
use bootchain::modes::ModeOp;

/// A disk whose sector `n` is filled with the low byte of `n`.
fn sector(lba: u64) -> Vec<u8> {
    vec![(lba & 0xFF) as u8; 512]
}

/// Runs the first stage over a simulated disk; the read of sector number
/// `fail_at` (from 1) fails. Returns the memory, the jump target if any, and
/// whether it halted.
fn run_stage1(fail_at: Option<usize>) -> (Vec<u8>, Option<u16>, bool, usize) {
    let mut memory = vec![0xEEu8; 0x1_0000];
    let mut s = Stage1::new();
    let mut reads = 0;
    loop {
        match s.next_action() {
            Stage1Action::Read(p) => {
                reads += 1;
                if fail_at == Some(reads) {
                    s.read_done(false);
                } else {
                    let start = p.transfer_offset as usize;
                    memory[start..start + 512].copy_from_slice(&sector(p.lba));
                    s.read_done(true);
                }
            }
            Stage1Action::Jump(addr) => return (memory, Some(addr), false, reads),
            Stage1Action::Halt => return (memory, None, true, reads),
        }
    }
}

#[test]
fn stage1_loads_stage2_and_jumps_there() {
    let (memory, jump, halted, reads) = run_stage1(None);
    assert!(!halted);
    assert_eq!(jump, Some(0x7E00));
    assert_eq!(jump, Some(STAGE2_LOAD_OFFSET));
    assert_eq!(reads, 64);
    assert_eq!(reads, STAGE2_SECTORS as usize);
    let start = 0x7E00;
    for i in 0..64usize {
        let expected = sector(STAGE2_LBA + i as u64);
        assert_eq!(&memory[start + 512 * i..start + 512 * (i + 1)], &expected[..]);
    }
    assert_eq!(64 * 512, 32768);
    assert_eq!(memory[start - 1], 0xEE);
    assert_eq!(memory[start + 32768], 0xEE);
}

#[test]
fn stage1_halts_on_a_read_failure_before_jumping() {
    let (memory, jump, halted, reads) = run_stage1(Some(30));
    assert!(halted);
    assert_eq!(jump, None);
    assert_eq!(reads, 30);
    let start = 0x7E00;
    assert_eq!(memory[start + 512 * 28], (STAGE2_LBA + 28) as u8);
    assert_eq!(memory[start + 512 * 29], 0xEE);
}

/// Runs the second stage against a machine where the A20 escalation ends
/// with `a20` and kernel sector reads all succeed.
fn run_stage2(kernel_sectors: u16, a20: bool) -> (Vec<Stage2Action>, Vec<Vec<ModeOp>>, Vec<(u16, u32)>) {
    let mut s = Stage2::new(kernel_sectors);
    let mut actions = Vec::new();
    let mut transitions = Vec::new();
    let mut copies = Vec::new();
    loop {
        let a = s.next_action();
        actions.push(a);
        match a {
            Stage2Action::EnableA20 => s.a20_done(a20),
            Stage2Action::EnterUnreal => transitions.push(s.enter_unreal()),
            Stage2Action::Disk(DiskAction::Read(p)) => {
                assert_eq!(p.transfer_offset, KERNEL_BUFFER);
                s.read_done(true);
            }
            Stage2Action::Disk(DiskAction::Copy { from, to }) => {
                copies.push((from, to));
                s.copy_done();
            }
            Stage2Action::Disk(DiskAction::Finished(_)) => panic!("finished load left pending"),
            Stage2Action::EnterProtected => transitions.push(s.enter_protected()),
            Stage2Action::Jump(_) | Stage2Action::Halt => return (actions, transitions, copies),
        }
    }
}

#[test]
fn stage2_loads_the_kernel_above_one_megabyte() {
    let (actions, transitions, copies) = run_stage2(3, true);
    assert_eq!(actions[0], Stage2Action::EnableA20);
    assert_eq!(actions[1], Stage2Action::EnterUnreal);
    assert_eq!(*actions.last().unwrap(), Stage2Action::Jump(KERNEL_TARGET));
    assert_eq!(*actions.last().unwrap(), Stage2Action::Jump(0x10_0000));
    assert_eq!(transitions.len(), 2);
    assert_eq!(transitions[1][0], ModeOp::DisableInterrupts);
    assert_eq!(copies, vec![(KERNEL_BUFFER, 0x10_0000), (KERNEL_BUFFER, 0x10_0200), (KERNEL_BUFFER, 0x10_0400)]);
    let reads: Vec<u64> = actions
        .iter()
        .filter_map(|a| match a {
            Stage2Action::Disk(DiskAction::Read(p)) => Some(p.lba),
            _ => None,
        })
        .collect();
    assert_eq!(reads, vec![KERNEL_LBA, KERNEL_LBA + 1, KERNEL_LBA + 2]);
}

#[test]
fn stage2_with_empty_kernel_goes_straight_to_protected_mode() {
    let (actions, transitions, copies) = run_stage2(0, true);
    assert!(copies.is_empty());
    assert_eq!(transitions.len(), 2);
    assert_eq!(actions[2], Stage2Action::EnterProtected);
}

#[test]
fn stage2_halts_without_a20() {
    let (actions, transitions, _) = run_stage2(3, false);
    assert_eq!(actions, vec![Stage2Action::EnableA20, Stage2Action::Halt]);
    assert!(transitions.is_empty());
}
