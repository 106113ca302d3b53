use bootchain::modes::{
    clear_protected_mode_bit, long_mode, set_protected_mode_bit, CpuMode, ModeController, ModeOp,
};

#[test]
fn protected_mode_steps_in_order() {
    let mut c = ModeController::new();
    assert_eq!(c.mode(), CpuMode::RealMode);
    assert!(c.firmware_usable());
    let ops = c.protected_mode();
    assert_eq!(
        ops,
        vec![
            ModeOp::DisableInterrupts,
            ModeOp::LoadGdt,
            ModeOp::SetProtectionBit,
            ModeOp::FarJump(0x08),
            ModeOp::LoadDataSegments(0x10),
        ]
    );
    assert_eq!(c.mode(), CpuMode::Protected32);
    assert!(!c.firmware_usable());
    assert!(!c.state().interrupts);
}

#[test]
fn unreal_mode_restores_before_enabling_interrupts() {
    let mut c = ModeController::new();
    let ops = c.unreal_mode();
    assert_eq!(
        ops,
        vec![
            ModeOp::SaveSegments,
            ModeOp::DisableInterrupts,
            ModeOp::LoadGdt,
            ModeOp::SetProtectionBit,
            ModeOp::FarJump(0x08),
            ModeOp::LoadDataSegments(0x10),
            ModeOp::ClearProtectionBit,
            ModeOp::FarJumpSaved,
            ModeOp::RestoreSegments,
            ModeOp::EnableInterrupts,
        ]
    );
    assert_eq!(c.mode(), CpuMode::Unreal);
    assert!(c.firmware_usable());
    assert!(c.state().interrupts);
    assert!(c.state().data_flat);
}

#[test]
fn unreal_then_protected() {
    let mut c = ModeController::new();
    c.unreal_mode();
    c.protected_mode();
    assert_eq!(c.mode(), CpuMode::Protected32);
}

#[test]
fn cr0_protection_bit() {
    assert_eq!(set_protected_mode_bit(0x6000_0010), 0x6000_0011);
    assert_eq!(set_protected_mode_bit(0x6000_0011), 0x6000_0011);
    assert_eq!(clear_protected_mode_bit(0x6000_0011), 0x6000_0010);
    assert_eq!(clear_protected_mode_bit(0xFFFF_FFFF), 0xFFFF_FFFE);
}

#[test]
fn long_mode_is_not_entered() {
    assert_eq!(long_mode(CpuMode::Protected32), CpuMode::Protected32);
    assert_eq!(long_mode(CpuMode::RealMode), CpuMode::RealMode);
}
