use bootchain::disk::{DiskAction, DiskAddressPacket, DiskReader, PACKET_SIZE};

/// Drives a reader against a simulated firmware whose `i`-th read (from 1)
/// succeeds unless it is `fail_at`; returns the packets read and the outcome.
fn drive(reader: &mut DiskReader, fail_at: Option<usize>) -> (Vec<DiskAddressPacket>, Vec<(u16, u32)>, bool) {
    let mut reads = Vec::new();
    let mut copies = Vec::new();
    loop {
        match reader.next_action() {
            DiskAction::Read(p) => {
                reads.push(p);
                let ok = fail_at != Some(reads.len());
                reader.read_done(ok);
            }
            DiskAction::Copy { from, to } => {
                copies.push((from, to));
                reader.copy_done();
            }
            DiskAction::Finished(ok) => return (reads, copies, ok),
        }
    }
}

#[test]
fn packet_fields() {
    let p = DiskAddressPacket::new(64, 0x7E00, 2048);
    assert_eq!(p.packet_size, 16);
    assert_eq!(p.packet_size, PACKET_SIZE);
    assert_eq!(p.zero, 0);
    assert_eq!(p.sectors, 64);
    assert_eq!(p.transfer_offset, 0x7E00);
    assert_eq!(p.transfer_segment, 0);
    assert_eq!(p.lba, 2048);
}

#[test]
fn packet_byte_layout() {
    let p = DiskAddressPacket::new(0x0102, 0x7E00, 0x0807_0605_0403_0201);
    assert_eq!(
        p.to_bytes(),
        vec![16, 0, 0x02, 0x01, 0x00, 0x7E, 0x00, 0x00, 0x01, 0x02, 0x03, 0x04, 0x05, 0x06, 0x07, 0x08]
    );
}

#[test]
fn always_succeeding_reads_advance_by_n() {
    for n in 0..=127u16 {
        let mut r = DiskReader::new(0x0100, 2048);
        r.read_sectors(n);
        let (reads, copies, ok) = drive(&mut r, None);
        assert!(ok);
        assert!(copies.is_empty());
        assert_eq!(reads.len(), n as usize);
        assert_eq!(r.lba(), 2048 + n as u64);
        assert_eq!(r.offset_target(), 0x0100 + 512 * n);
        for (i, p) in reads.iter().enumerate() {
            assert_eq!(p.sectors, 1);
            assert_eq!(p.lba, 2048 + i as u64);
            assert_eq!(p.transfer_offset, 0x0100 + 512 * i as u16);
        }
    }
}

#[test]
fn zero_sectors_is_a_no_op() {
    let mut r = DiskReader::new(0x7E00, 2048);
    r.read_sectors(0);
    assert_eq!(r.next_action(), DiskAction::Finished(true));
    assert_eq!(r.lba(), 2048);
    assert_eq!(r.offset_target(), 0x7E00);
}

#[test]
fn failure_on_call_k_leaves_k_minus_one_advances() {
    let n: u16 = 20;
    for k in 1..=n as usize {
        let mut r = DiskReader::new(0x1000, 100);
        r.read_sectors(n);
        let (reads, _, ok) = drive(&mut r, Some(k));
        assert!(!ok);
        assert_eq!(reads.len(), k);
        assert_eq!(r.lba(), 100 + (k as u64 - 1));
        assert_eq!(r.offset_target(), 0x1000 + 512 * (k as u16 - 1));
        assert_eq!(r.next_action(), DiskAction::Finished(false));
    }
}

#[test]
fn copy_reads_through_a_fixed_window() {
    let mut r = DiskReader::new(0x1000, 4096);
    r.read_and_copy_sectors(4, 0x10_0000);
    let (reads, copies, ok) = drive(&mut r, None);
    assert!(ok);
    assert_eq!(reads.len(), 4);
    for (i, p) in reads.iter().enumerate() {
        assert_eq!(p.transfer_offset, 0x1000);
        assert_eq!(p.lba, 4096 + i as u64);
    }
    assert_eq!(copies, vec![(0x1000, 0x10_0000), (0x1000, 0x10_0200), (0x1000, 0x10_0400), (0x1000, 0x10_0600)]);
    assert_eq!(r.lba(), 4100);
    assert_eq!(r.offset_target(), 0x1000);
}

#[test]
fn copy_failure_stops_after_the_copied_sectors() {
    let mut r = DiskReader::new(0x1000, 4096);
    r.read_and_copy_sectors(10, 0x10_0000);
    let (reads, copies, ok) = drive(&mut r, Some(3));
    assert!(!ok);
    assert_eq!(reads.len(), 3);
    assert_eq!(copies.len(), 2);
    assert_eq!(r.lba(), 4098);
}

#[test]
fn copy_may_end_at_the_top_of_the_address_space() {
    let mut r = DiskReader::new(0x1000, 50);
    r.read_and_copy_sectors(2, 0xFFFF_FC00);
    let (reads, copies, ok) = drive(&mut r, None);
    assert!(ok);
    assert_eq!(reads.len(), 2);
    assert_eq!(copies, vec![(0x1000, 0xFFFF_FC00), (0x1000, 0xFFFF_FE00)]);
    assert_eq!(r.lba(), 52);
}
