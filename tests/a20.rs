use bootchain::a20::{
    enable_a20, fast_a20_value, A20Action, A20Method, A20Probe, BiosA20, FirmwareReply,
    FirmwareStep, KbcStep, KeyboardControllerA20, ProbeStep, A20_ENABLE, A20_QUERY_STATUS,
    A20_QUERY_SUPPORT, PROBE_HIGH, PROBE_LOW,
};

/// Two megabytes of memory whose upper megabyte aliases the lower one while
/// the line is off.
struct Memory {
    bytes: Vec<u8>,
    a20: bool,
}

impl Memory {
    fn new(a20: bool) -> Memory {
        let mut bytes = vec![0u8; 0x20_0000];
        bytes[PROBE_LOW as usize] = 0x5A;
        bytes[PROBE_HIGH as usize] = 0xC3;
        Memory { bytes, a20 }
    }
    fn physical(&self, addr: u32) -> usize {
        if self.a20 { addr as usize } else { (addr % 0x10_0000) as usize }
    }
}

fn run_probe(mem: &mut Memory) -> bool {
    let mut p = A20Probe::new();
    loop {
        match p.next_step() {
            ProbeStep::Read(a) => {
                let v = mem.bytes[mem.physical(a)];
                p.complete(v);
            }
            ProbeStep::Write(a, v) => {
                let i = mem.physical(a);
                mem.bytes[i] = v;
                p.complete(0);
            }
            ProbeStep::Done(enabled) => return enabled,
        }
    }
}

#[test]
fn probe_reports_disabled_when_aliased() {
    let mut mem = Memory::new(false);
    let before = mem.bytes.clone();
    assert!(!run_probe(&mut mem));
    assert_eq!(mem.bytes[PROBE_LOW as usize], 0x5A);
    assert_eq!(mem.bytes, before);
}

#[test]
fn probe_reports_enabled_when_independent() {
    let mut mem = Memory::new(true);
    let before = mem.bytes.clone();
    assert!(run_probe(&mut mem));
    assert_eq!(mem.bytes[PROBE_LOW as usize], 0x5A);
    assert_eq!(mem.bytes[PROBE_HIGH as usize], 0xC3);
    assert_eq!(mem.bytes, before);
}

/// Runs the escalation where each method either turns the line on or not.
fn escalate(mut on: bool, works: [bool; 3]) -> (A20Action, bool, Vec<A20Method>) {
    let mut e = enable_a20();
    let mut ran = Vec::new();
    loop {
        match e.next_action() {
            A20Action::Probe => {
                let mut mem = Memory::new(on);
                let enabled = run_probe(&mut mem);
                e.probe_done(enabled);
            }
            A20Action::Run(m) => {
                let i = match m {
                    A20Method::Firmware => 0,
                    A20Method::KeyboardController => 1,
                    A20Method::Fast => 2,
                };
                on = on || works[i];
                ran.push(m);
                e.method_done();
            }
            done => return (done, on, ran),
        }
    }
}

#[test]
fn already_enabled_line_needs_no_method() {
    let (r, on, ran) = escalate(true, [false, false, false]);
    assert_eq!(r, A20Action::Enabled);
    assert!(on);
    assert!(ran.is_empty());
}

#[test]
fn fast_method_rescues_failed_firmware() {
    let (r, on, ran) = escalate(false, [false, false, true]);
    assert_eq!(r, A20Action::Enabled);
    assert!(on);
    assert_eq!(ran, vec![A20Method::Firmware, A20Method::KeyboardController, A20Method::Fast]);
}

#[test]
fn no_working_method_is_a_terminal_failure() {
    let (r, on, ran) = escalate(false, [false, false, false]);
    assert_eq!(r, A20Action::Failed);
    assert!(!on);
    assert_eq!(ran.len(), 3);
}

#[test]
fn escalation_stops_at_first_success() {
    let (r, _, ran) = escalate(false, [true, true, true]);
    assert_eq!(r, A20Action::Enabled);
    assert_eq!(ran, vec![A20Method::Firmware]);
    let (r, _, ran) = escalate(false, [false, true, true]);
    assert_eq!(r, A20Action::Enabled);
    assert_eq!(ran, vec![A20Method::Firmware, A20Method::KeyboardController]);
}

fn run_bios(replies: &[FirmwareReply]) -> (Vec<u16>, bool) {
    let mut b = BiosA20::new();
    let mut calls = Vec::new();
    loop {
        match b.next_step() {
            FirmwareStep::Call(ax) => {
                let r = replies[calls.len()];
                calls.push(ax);
                b.reply(r);
            }
            FirmwareStep::Finished(ok) => return (calls, ok),
        }
    }
}

const OK: FirmwareReply = FirmwareReply { carry: false, ah: 0, al: 0 };

#[test]
fn firmware_method_queries_then_enables() {
    let (calls, ok) = run_bios(&[OK, OK, OK]);
    assert!(ok);
    assert_eq!(calls, vec![A20_QUERY_SUPPORT, A20_QUERY_STATUS, A20_ENABLE]);
    assert_eq!(calls, vec![0x2403, 0x2402, 0x2401]);
}

#[test]
fn firmware_method_skips_enable_when_active() {
    let active = FirmwareReply { carry: false, ah: 0, al: 1 };
    let (calls, ok) = run_bios(&[OK, active]);
    assert!(ok);
    assert_eq!(calls, vec![0x2403, 0x2402]);
}

#[test]
fn firmware_method_fails_on_any_error() {
    let carry = FirmwareReply { carry: true, ah: 0, al: 0 };
    let unsupported = FirmwareReply { carry: false, ah: 0x86, al: 0 };
    assert_eq!(run_bios(&[carry]), (vec![0x2403], false));
    assert_eq!(run_bios(&[OK, unsupported]), (vec![0x2403, 0x2402], false));
    assert_eq!(run_bios(&[OK, OK, carry]), (vec![0x2403, 0x2402, 0x2401], false));
}

#[test]
fn keyboard_controller_waits_and_sets_the_a20_bit() {
    let mut k = KeyboardControllerA20::new();
    let mut polls = 0;
    let mut writes: Vec<(char, u8)> = Vec::new();
    loop {
        match k.next_step() {
            KbcStep::ReadStatus => {
                polls += 1;
                // Busy on every other poll; output buffer full once asked.
                let status = if polls % 2 == 1 { 0x02 } else { 0x01 };
                k.complete(status);
            }
            KbcStep::Command(c) => {
                writes.push(('c', c));
                k.complete(0);
            }
            KbcStep::ReadData => {
                writes.push(('r', 0));
                k.complete(0x45);
            }
            KbcStep::WriteData(d) => {
                writes.push(('d', d));
                k.complete(0);
            }
            KbcStep::Finished => break,
        }
    }
    assert_eq!(
        writes,
        vec![('c', 0xAD), ('c', 0xD0), ('r', 0), ('c', 0xD1), ('d', 0x47), ('c', 0xAE)]
    );
    assert!(polls >= 12);
}

#[test]
fn fast_method_value() {
    assert_eq!(fast_a20_value(0x00), Some(0x02));
    assert_eq!(fast_a20_value(0x01), Some(0x02));
    assert_eq!(fast_a20_value(0xFD), Some(0xFE));
    assert_eq!(fast_a20_value(0x02), None);
    assert_eq!(fast_a20_value(0x03), None);
}
