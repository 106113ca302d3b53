use vstd::prelude::*;

verus! {

/// Bytes in one disk sector.
pub const SECTOR_SIZE: u16 = 512;
/// Firmware drive number of the boot disk.
pub const BOOT_DRIVE: u8 = 0x80;
/// Size in bytes of a disk address packet.
pub const PACKET_SIZE: u8 = 16;

/// The little-endian bytes of the low `n` bytes of `v`.
pub open spec fn le_bytes(v: int, n: nat) -> Seq<u8>
    decreases n,
{
    if n == 0 {
        Seq::empty()
    } else {
        seq![(v % 256) as u8] + le_bytes(v / 256, (n - 1) as nat)
    }
}

/// The 16-byte request handed to the firmware's extended block read.
#[derive(Clone, Copy, Debug, PartialEq, Eq, Structural)]
pub struct DiskAddressPacket {
    pub packet_size: u8,
    pub zero: u8,
    pub sectors: u16,
    pub transfer_offset: u16,
    pub transfer_segment: u16,
    pub lba: u64,
}

impl DiskAddressPacket {
    /// The packet as it lies in memory.
    pub open spec fn bytes_spec(self) -> Seq<u8> {
        seq![self.packet_size, self.zero] + le_bytes(self.sectors as int, 2) + le_bytes(
            self.transfer_offset as int,
            2,
        ) + le_bytes(self.transfer_segment as int, 2) + le_bytes(self.lba as int, 8)
    }

    /// A request for `sectors` sectors from `lba` into segment 0 at `transfer_offset`.
    pub fn new(sectors: u16, transfer_offset: u16, lba: u64) -> (r: Self)
        ensures
            r == (DiskAddressPacket {
                packet_size: PACKET_SIZE,
                zero: 0,
                sectors,
                transfer_offset,
                transfer_segment: 0,
                lba,
            }),
    {
        DiskAddressPacket {
            packet_size: PACKET_SIZE,
            zero: 0,
            sectors,
            transfer_offset,
            transfer_segment: 0,
            lba,
        }
    }

    /// The packet as it lies in memory: size, zero, count, offset, segment, LBA.
    pub fn to_bytes(&self) -> (r: Vec<u8>)
        ensures
            r@ == self.bytes_spec(),
            r@.len() == 16,
    {
        let mut out: Vec<u8> = Vec::new();
        out.push(self.packet_size);
        out.push(self.zero);
        push_le(&mut out, self.sectors as u64, 2);
        push_le(&mut out, self.transfer_offset as u64, 2);
        push_le(&mut out, self.transfer_segment as u64, 2);
        push_le(&mut out, self.lba, 8);
        proof {
            lemma_le_bytes_len(self.sectors as int, 2);
            lemma_le_bytes_len(self.transfer_offset as int, 2);
            lemma_le_bytes_len(self.transfer_segment as int, 2);
            lemma_le_bytes_len(self.lba as int, 8);
            assert(out@ =~= self.bytes_spec());
        }
        out
    }
}

pub(crate) proof fn lemma_le_bytes_len(v: int, n: nat)
    ensures
        le_bytes(v, n).len() == n,
    decreases n,
{
    if n > 0 {
        lemma_le_bytes_len(v / 256, (n - 1) as nat);
    }
}

pub(crate) fn push_le(out: &mut Vec<u8>, value: u64, count: usize)
    ensures
        final(out)@ == old(out)@ + le_bytes(value as int, count as nat),
{
    let mut v: u64 = value;
    let mut i: usize = 0;
    while i < count
        invariant
            i <= count,
            old(out)@ + le_bytes(value as int, count as nat) == out@ + le_bytes(
                v as int,
                (count - i) as nat,
            ),
        decreases count - i,
    {
        let ghost before = out@;
        out.push((v % 256) as u8);
        proof {
            let k = (count - i) as nat;
            assert(le_bytes(v as int, k) == seq![(v % 256) as u8] + le_bytes(
                v as int / 256,
                (k - 1) as nat,
            ));
            assert(before + le_bytes(v as int, k) =~= out@ + le_bytes(
                v as int / 256,
                (k - 1) as nat,
            ));
        }
        v = v / 256;
        i = i + 1;
    }
    proof {
        assert(out@ + le_bytes(v as int, 0) =~= out@);
    }
}

/// What the code driving the hardware must do next for a disk request.
#[derive(Clone, Copy, Debug, PartialEq, Eq, Structural)]
pub enum DiskAction {
    /// Call the firmware's extended read on `BOOT_DRIVE` with this packet,
    /// then report whether it succeeded.
    Read(DiskAddressPacket),
    /// Copy one sector from the scratch window at offset `from` (segment 0) to
    /// linear address `to`, then report it done.
    Copy { from: u16, to: u32 },
    /// The request is over: `true` when every sector arrived.
    Finished(bool),
}

/// The state of a [`DiskReader`] in mathematical terms.
pub struct DiskReaderModel {
    /// Offset in segment 0 where the next sector lands (the scratch window when copying).
    pub cursor: int,
    /// Next sector to read.
    pub lba: int,
    /// Sectors of the current request not yet delivered.
    pub remaining: int,
    /// Where the next sector is copied to, for a request that copies.
    pub copy_to: Option<int>,
    /// A sector sits in the scratch window waiting to be copied.
    pub copy_pending: bool,
    /// The firmware reported an error; the request stopped there.
    pub failed: bool,
}

impl DiskReaderModel {
    /// The bounds that keep every cursor inside its machine word.
    pub open spec fn wf(self) -> bool {
        &&& 0 <= self.cursor <= u16::MAX
        &&& 0 <= self.remaining <= u16::MAX
        &&& 0 <= self.lba
        &&& self.lba + self.remaining <= u64::MAX
        &&& match self.copy_to {
            None => self.cursor + SECTOR_SIZE * self.remaining <= u16::MAX && !self.copy_pending,
            Some(t) => {
                &&& 0 <= t
                &&& t + SECTOR_SIZE * self.remaining <= 0x1_0000_0000
                &&& self.cursor + SECTOR_SIZE <= 0x1_0000
                &&& self.copy_pending ==> self.remaining > 0
            },
        }
    }

    /// The next step of the request.
    pub open spec fn action(self) -> DiskAction {
        if self.failed {
            DiskAction::Finished(false)
        } else if self.copy_pending {
            DiskAction::Copy { from: self.cursor as u16, to: self.copy_to.unwrap() as u32 }
        } else if self.remaining == 0 {
            DiskAction::Finished(true)
        } else {
            DiskAction::Read(
                DiskAddressPacket {
                    packet_size: PACKET_SIZE,
                    zero: 0,
                    sectors: 1,
                    transfer_offset: self.cursor as u16,
                    transfer_segment: 0,
                    lba: self.lba as u64,
                },
            )
        }
    }

    /// The request has no step left.
    pub open spec fn is_finished(self) -> bool {
        self.action() is Finished
    }

    /// The state after the firmware answered the pending read.
    pub open spec fn after_read(self, ok: bool) -> Self {
        if !ok {
            DiskReaderModel { failed: true, ..self }
        } else if self.copy_to is Some {
            DiskReaderModel { copy_pending: true, ..self }
        } else {
            DiskReaderModel {
                cursor: self.cursor + SECTOR_SIZE,
                lba: self.lba + 1,
                remaining: self.remaining - 1,
                ..self
            }
        }
    }

    /// The state after the pending copy was made.
    pub open spec fn after_copy(self) -> Self {
        DiskReaderModel {
            lba: self.lba + 1,
            remaining: self.remaining - 1,
            copy_to: Some(self.copy_to.unwrap() + SECTOR_SIZE),
            copy_pending: false,
            ..self
        }
    }

    /// The same cursors with `n` sectors advanced: as after `n` successful
    /// reads of a request that does not copy.
    pub open spec fn advanced(self, n: int) -> Self {
        DiskReaderModel {
            cursor: self.cursor + SECTOR_SIZE * n,
            lba: self.lba + n,
            remaining: self.remaining - n,
            ..self
        }
    }
}

/// Reads sectors off the boot drive through the firmware, one sector per
/// firmware call, advancing its cursors as sectors arrive. It decides each
/// step; the caller performs it and reports back.
pub struct DiskReader {
    offset_target: u16,
    lba: u64,
    remaining: u16,
    copy_to: Option<u64>,
    copy_pending: bool,
    failed: bool,
}

impl View for DiskReader {
    type V = DiskReaderModel;

    closed spec fn view(&self) -> DiskReaderModel {
        DiskReaderModel {
            cursor: self.offset_target as int,
            lba: self.lba as int,
            remaining: self.remaining as int,
            copy_to: match self.copy_to {
                Some(t) => Some(t as int),
                None => None,
            },
            copy_pending: self.copy_pending,
            failed: self.failed,
        }
    }
}

impl DiskReader {
    /// A reader whose next sector is `lba`, landing at `offset_target` in segment 0.
    pub fn new(offset_target: u16, lba: u64) -> (r: Self)
        ensures
            r@ == (DiskReaderModel {
                cursor: offset_target as int,
                lba: lba as int,
                remaining: 0,
                copy_to: None,
                copy_pending: false,
                failed: false,
            }),
            r@.wf(),
    {
        DiskReader {
            offset_target,
            lba,
            remaining: 0,
            copy_to: None,
            copy_pending: false,
            failed: false,
        }
    }

    /// Offset in segment 0 where the next sector lands.
    pub fn offset_target(&self) -> (r: u16)
        ensures
            r == self@.cursor,
    {
        self.offset_target
    }

    /// The next sector to read.
    pub fn lba(&self) -> (r: u64)
        ensures
            r == self@.lba,
    {
        self.lba
    }

    /// Starts reading `sectors` contiguous sectors to the cursor, which
    /// advances by 512 bytes per sector; zero sectors finish at once with success.
    pub fn read_sectors(&mut self, sectors: u16)
        requires
            old(self)@.wf(),
            old(self)@.is_finished(),
            old(self)@.cursor + SECTOR_SIZE * sectors <= u16::MAX,
            old(self)@.lba + sectors <= u64::MAX,
        ensures
            final(self)@ == (DiskReaderModel {
                remaining: sectors as int,
                copy_to: None,
                copy_pending: false,
                failed: false,
                ..old(self)@
            }),
            final(self)@.wf(),
    {
        self.remaining = sectors;
        self.copy_to = None;
        self.copy_pending = false;
        self.failed = false;
    }

    /// Starts reading `sectors` contiguous sectors, each through the fixed
    /// scratch window at the cursor and then copied to `target`, `target + 512`, ...
    /// The scratch window lies below 64 KiB; the last copy may end at the
    /// top of the 32-bit address space.
    pub fn read_and_copy_sectors(&mut self, sectors: u16, target: u32)
        requires
            old(self)@.wf(),
            old(self)@.is_finished(),
            old(self)@.cursor + SECTOR_SIZE <= 0x1_0000,
            target + SECTOR_SIZE * sectors <= 0x1_0000_0000,
            old(self)@.lba + sectors <= u64::MAX,
        ensures
            final(self)@ == (DiskReaderModel {
                remaining: sectors as int,
                copy_to: Some(target as int),
                copy_pending: false,
                failed: false,
                ..old(self)@
            }),
            final(self)@.wf(),
    {
        self.remaining = sectors;
        self.copy_to = Some(target as u64);
        self.copy_pending = false;
        self.failed = false;
    }

    /// The step the caller must perform next.
    pub fn next_action(&self) -> (r: DiskAction)
        requires
            self@.wf(),
        ensures
            r == self@.action(),
    {
        if self.failed {
            DiskAction::Finished(false)
        } else if self.copy_pending {
            match self.copy_to {
                Some(t) => DiskAction::Copy { from: self.offset_target, to: t as u32 },
                None => DiskAction::Finished(false),
            }
        } else if self.remaining == 0 {
            DiskAction::Finished(true)
        } else {
            DiskAction::Read(DiskAddressPacket::new(1, self.offset_target, self.lba))
        }
    }

    /// Records the firmware's answer to the read just performed. A failure
    /// ends the request: nothing is retried and nothing is undone.
    pub fn read_done(&mut self, ok: bool)
        requires
            old(self)@.wf(),
            old(self)@.action() is Read,
        ensures
            final(self)@ == old(self)@.after_read(ok),
            final(self)@.wf(),
    {
        if !ok {
            self.failed = true;
        } else if self.copy_to.is_some() {
            self.copy_pending = true;
        } else {
            self.offset_target = self.offset_target + SECTOR_SIZE;
            self.lba = self.lba + 1;
            self.remaining = self.remaining - 1;
        }
    }

    /// Records that the sector in the scratch window was copied.
    pub fn copy_done(&mut self)
        requires
            old(self)@.wf(),
            old(self)@.action() is Copy,
        ensures
            final(self)@ == old(self)@.after_copy(),
            final(self)@.wf(),
    {
        match self.copy_to {
            Some(t) => {
                self.copy_to = Some(t + SECTOR_SIZE as u64);
            },
            None => {},
        }
        self.lba = self.lba + 1;
        self.remaining = self.remaining - 1;
        self.copy_pending = false;
    }
}

/// Drives a request against a firmware that answers the `i`-th read with
/// `answers[i]`, performing every copy asked for, until the request finishes
/// or the answers run out.
pub open spec fn run(m: DiskReaderModel, answers: Seq<bool>) -> DiskReaderModel
    decreases answers.len(),
{
    if m.action() is Read && answers.len() > 0 {
        let m1 = m.after_read(answers[0]);
        let m2 = if m1.action() is Copy {
            m1.after_copy()
        } else {
            m1
        };
        run(m2, answers.drop_first())
    } else {
        m
    }
}

/// A plain request in progress: no copying, no failure yet.
pub open spec fn plain_request(m: DiskReaderModel) -> bool {
    &&& m.wf()
    &&& m.copy_to is None
    &&& !m.failed
}

proof fn lemma_run_successes(m: DiskReaderModel, answers: Seq<bool>, k: int)
    requires
        plain_request(m),
        0 <= k <= m.remaining,
        k <= answers.len(),
        forall|i: int| 0 <= i < k ==> #[trigger] answers[i],
    ensures
        run(m, answers) == run(m.advanced(k), answers.subrange(k, answers.len() as int)),
        plain_request(m.advanced(k)),
    decreases k,
{
    if k > 0 {
        let m1 = m.after_read(answers[0]);
        assert(m1 == m.advanced(1));
        assert(answers[0]);
        let rest = answers.drop_first();
        assert forall|i: int| 0 <= i < k - 1 implies #[trigger] rest[i] by {
            assert(answers[i + 1]);
        }
        lemma_run_successes(m1, rest, k - 1);
        assert(rest.subrange(k - 1, rest.len() as int) =~= answers.subrange(k, answers.len() as int));
        assert(m1.advanced(k - 1) == m.advanced(k));
    } else {
        assert(answers.subrange(0, answers.len() as int) =~= answers);
        assert(m.advanced(0) == m);
    }
}

/// Against a firmware that always succeeds, a plain request of `n` sectors
/// ends in success with the sector cursor `n` further on and the destination
/// `512 * n` bytes further on.
pub proof fn lemma_read_all_succeed(m: DiskReaderModel, answers: Seq<bool>)
    requires
        plain_request(m),
        answers.len() == m.remaining,
        forall|i: int| 0 <= i < answers.len() ==> #[trigger] answers[i],
    ensures
        run(m, answers).action() == DiskAction::Finished(true),
        run(m, answers).lba == m.lba + m.remaining,
        run(m, answers).cursor == m.cursor + SECTOR_SIZE * m.remaining,
{
    lemma_run_successes(m, answers, m.remaining);
    let e = answers.subrange(m.remaining, answers.len() as int);
    assert(e.len() == 0);
    assert(m.advanced(m.remaining).action() == DiskAction::Finished(true));
}

/// A plain request of zero sectors has nothing to do: it is finished with
/// success and its cursors stay where they were.
pub proof fn lemma_read_nothing(m: DiskReaderModel, answers: Seq<bool>)
    requires
        plain_request(m),
        m.remaining == 0,
    ensures
        m.action() == DiskAction::Finished(true),
        run(m, answers) == m,
{
}

/// When the firmware fails the `k`-th read of a plain request (counting
/// from 1), the request ends in failure with exactly `k - 1` sectors
/// advanced, and no read is issued after the failed one.
pub proof fn lemma_read_fails_at(m: DiskReaderModel, answers: Seq<bool>, k: int)
    requires
        plain_request(m),
        1 <= k <= m.remaining,
        k <= answers.len(),
        forall|i: int| 0 <= i < k - 1 ==> #[trigger] answers[i],
        !answers[k - 1],
    ensures
        run(m, answers).action() == DiskAction::Finished(false),
        run(m, answers).lba == m.lba + (k - 1),
        run(m, answers).cursor == m.cursor + SECTOR_SIZE * (k - 1),
{
    lemma_run_successes(m, answers, k - 1);
    let mk = m.advanced(k - 1);
    let rest = answers.subrange(k - 1, answers.len() as int);
    assert(!rest[0]);
    let failed = mk.after_read(false);
    assert(run(mk, rest) == run(failed, rest.drop_first()));
    assert(failed.action() == DiskAction::Finished(false));
}

/// After the first `i` reads of a plain request succeeded, the next read
/// asks for sector `lba + i` to land `512 * i` bytes past the start.
pub proof fn lemma_read_order(m: DiskReaderModel, answers: Seq<bool>, i: int)
    requires
        plain_request(m),
        0 <= i < m.remaining,
        answers.len() == i,
        forall|j: int| 0 <= j < i ==> #[trigger] answers[j],
    ensures
        run(m, answers).action() == DiskAction::Read(
            DiskAddressPacket {
                packet_size: PACKET_SIZE,
                zero: 0,
                sectors: 1,
                transfer_offset: (m.cursor + SECTOR_SIZE * i) as u16,
                transfer_segment: 0,
                lba: (m.lba + i) as u64,
            },
        ),
{
    lemma_run_successes(m, answers, i);
}

/// A copying request in progress: no failure yet, no copy pending.
pub open spec fn copy_request(m: DiskReaderModel) -> bool {
    &&& m.wf()
    &&& m.copy_to is Some
    &&& !m.failed
    &&& !m.copy_pending
}

/// The cursors of a copying request after `n` sectors were read and copied:
/// the scratch window stays, the destination moves on by 512 bytes a sector.
pub open spec fn copied(m: DiskReaderModel, n: int) -> DiskReaderModel {
    DiskReaderModel {
        lba: m.lba + n,
        remaining: m.remaining - n,
        copy_to: Some(m.copy_to.unwrap() + SECTOR_SIZE * n),
        ..m
    }
}

proof fn lemma_run_copies(m: DiskReaderModel, answers: Seq<bool>, k: int)
    requires
        copy_request(m),
        0 <= k <= m.remaining,
        k <= answers.len(),
        forall|i: int| 0 <= i < k ==> #[trigger] answers[i],
    ensures
        run(m, answers) == run(copied(m, k), answers.subrange(k, answers.len() as int)),
        copy_request(copied(m, k)),
    decreases k,
{
    if k > 0 {
        assert(answers[0]);
        let m1 = m.after_read(true).after_copy();
        assert(m1 == copied(m, 1));
        let rest = answers.drop_first();
        assert forall|i: int| 0 <= i < k - 1 implies #[trigger] rest[i] by {
            assert(answers[i + 1]);
        }
        lemma_run_copies(m1, rest, k - 1);
        assert(rest.subrange(k - 1, rest.len() as int) =~= answers.subrange(k, answers.len() as int));
        assert(copied(m1, k - 1) == copied(m, k));
    } else {
        assert(answers.subrange(0, answers.len() as int) =~= answers);
        assert(copied(m, 0) == m);
    }
}

/// A copying request whose reads all succeed reads every sector through the
/// same scratch window and copies the `i`-th to `target + 512 * i`: after
/// `i` sectors the next read is of `lba + i` into the window, and at the end
/// the request succeeds with the sector cursor `n` further on.
pub proof fn lemma_copy_all_succeed(m: DiskReaderModel, answers: Seq<bool>, i: int)
    requires
        copy_request(m),
        0 <= i <= m.remaining,
        i <= answers.len(),
        forall|j: int| 0 <= j < answers.len() ==> #[trigger] answers[j],
    ensures
        answers.len() == i && i < m.remaining ==> run(m, answers).action() == DiskAction::Read(
            DiskAddressPacket {
                packet_size: PACKET_SIZE,
                zero: 0,
                sectors: 1,
                transfer_offset: m.cursor as u16,
                transfer_segment: 0,
                lba: (m.lba + i) as u64,
            },
        ),
        answers.len() == i && i < m.remaining ==> run(m, answers).after_read(true).action()
            == (DiskAction::Copy {
            from: m.cursor as u16,
            to: (m.copy_to.unwrap() + SECTOR_SIZE * i) as u32,
        }),
        answers.len() == m.remaining ==> run(m, answers).action() == DiskAction::Finished(true)
            && run(m, answers).lba == m.lba + m.remaining && run(m, answers).cursor == m.cursor,
{
    lemma_run_copies(m, answers, i);
    if answers.len() == m.remaining {
        lemma_run_copies(m, answers, m.remaining);
    }
}

/// When the firmware fails the `k`-th read of a copying request (from 1),
/// the request ends in failure after `k - 1` sectors were read and copied;
/// nothing is retried or undone.
pub proof fn lemma_copy_fails_at(m: DiskReaderModel, answers: Seq<bool>, k: int)
    requires
        copy_request(m),
        1 <= k <= m.remaining,
        k <= answers.len(),
        forall|i: int| 0 <= i < k - 1 ==> #[trigger] answers[i],
        !answers[k - 1],
    ensures
        run(m, answers).action() == DiskAction::Finished(false),
        run(m, answers).lba == m.lba + (k - 1),
        run(m, answers).copy_to == Some(m.copy_to.unwrap() + SECTOR_SIZE * (k - 1)),
{
    lemma_run_copies(m, answers, k - 1);
    let mk = copied(m, k - 1);
    let rest = answers.subrange(k - 1, answers.len() as int);
    assert(!rest[0]);
    let failed = mk.after_read(false);
    assert(run(mk, rest) == run(failed, rest.drop_first()));
    assert(failed.action() == DiskAction::Finished(false));
}

} // verus!
