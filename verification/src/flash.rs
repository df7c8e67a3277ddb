//! Flash memory controller (MSC) logic.
//!
//! The flash array is modelled by [`FlashMem`], its bytes indexed from
//! [`FLASH_BASE`]; the controller by [`MscRegs`]. Erasing sets a page to 0xFF;
//! programming a word can only clear bits (the new byte is the old one ANDed with the
//! byte written), so data written to erased flash reads back unchanged. What the
//! controller reports while it works comes from `status`, which reads MSC STATUS.
use vstd::prelude::*;

use crate::cmu::{Clken1, CmuRegs};

verus! {

/// Flash page size in bytes (8 KB).
pub const PAGE_SIZE: u32 = 0x2000;

/// Flash base address.
pub const FLASH_BASE: u32 = 0x0800_0000;

/// Flash size in bytes (1536 KB).
pub const FLASH_SIZE: u32 = 1536 * 1024;

/// Number of status polls before an operation times out.
pub const PROGRAM_TIMEOUT: u32 = 10_000_000;

/// Flash error types.
#[derive(Debug, Clone, Copy, PartialEq, Eq)]
pub enum Error {
    /// Operation tried to access an invalid address.
    InvalidAddress,
    /// The flash region is locked and cannot be written or erased.
    Locked,
    /// Operation timed out.
    Timeout,
    /// Address or size is not properly aligned.
    Alignment,
}

/// The STATUS fields read while an operation runs.
#[derive(Clone, Copy, Debug, PartialEq, Eq)]
pub struct MscStatus {
    /// STATUS.INVADDR
    pub invaddr: bool,
    /// STATUS.LOCKED
    pub locked: bool,
    /// STATUS.REGLOCK is LOCKED.
    pub reglock: bool,
    /// STATUS.BUSY
    pub busy: bool,
    /// STATUS.PENDING
    pub pending: bool,
    /// STATUS.WDATAREADY
    pub wdataready: bool,
}

/// The MSC register fields used by the driver.
#[derive(Clone, Copy, Debug, PartialEq, Eq)]
pub struct MscRegs {
    /// The register interface is locked (LOCK written with the lock key).
    pub locked: bool,
    /// WRITECTRL.WREN
    pub wren: bool,
}

/// The flash array: `FLASH_SIZE` bytes, byte `i` at address `FLASH_BASE + i`.
pub struct FlashMem {
    /// The bytes of the array.
    pub bytes: Vec<u8>,
}

impl FlashMem {
    /// The array has the size of the flash.
    pub open spec fn wf(&self) -> bool {
        self.bytes@.len() == FLASH_SIZE
    }

    /// A fully erased array.
    pub fn erased() -> (r: Self)
        ensures
            r.wf(),
            forall|i: int| 0 <= i < FLASH_SIZE ==> r.bytes@[i] == 0xFF,
    {
        let mut bytes: Vec<u8> = Vec::new();
        let mut i: u32 = 0;
        while i < FLASH_SIZE
            invariant
                i <= FLASH_SIZE,
                bytes@.len() == i,
                forall|k: int| 0 <= k < i ==> bytes@[k] == 0xFF,
            decreases FLASH_SIZE - i,
        {
            bytes.push(0xFF);
            i = i + 1;
        }
        FlashMem { bytes }
    }
}

/// An address range lies inside the flash: it starts in the flash and ends at its
/// end at the latest.
pub open spec fn spec_valid(address: u32, len: u32) -> bool {
    &&& FLASH_BASE <= address < FLASH_BASE + FLASH_SIZE
    &&& address + len <= FLASH_BASE + FLASH_SIZE
}

/// The range check can be computed in 32 bits.
pub open spec fn range_fits(address: u32, len: u32) -> bool {
    FLASH_BASE <= address < FLASH_BASE + FLASH_SIZE ==> address + len <= u32::MAX
}

/// The array with `len` bytes from index `start` set to `v`.
pub open spec fn spec_fill(mem: Seq<u8>, start: int, len: int, v: u8) -> Seq<u8> {
    Seq::new(mem.len(), |i: int| if start <= i < start + len { v } else { mem[i] })
}

/// The array after `data` is programmed at index `start`: each byte is the old byte
/// ANDed with the byte written.
pub open spec fn spec_program(mem: Seq<u8>, start: int, data: Seq<u8>) -> Seq<u8> {
    Seq::new(mem.len(), |i: int| if start <= i < start + data.len() { mem[i] & data[i - start] } else { mem[i] })
}

/// The little-endian word of four bytes.
pub open spec fn spec_le_word(b0: u8, b1: u8, b2: u8, b3: u8) -> u32 {
    (b0 as u32) | ((b1 as u32) << 8u32) | ((b2 as u32) << 16u32) | ((b3 as u32) << 24u32)
}

/// Assemble a little-endian word.
pub fn le_word(b0: u8, b1: u8, b2: u8, b3: u8) -> (r: u32)
    ensures
        r == spec_le_word(b0, b1, b2, b3),
{
    (b0 as u32) | ((b1 as u32) << 8) | ((b2 as u32) << 16) | ((b3 as u32) << 24)
}

/// Byte `k` (0 is the least significant) of a word.
pub open spec fn spec_word_byte(w: u32, k: u32) -> u8 {
    ((w >> (8 * k)) & 0xFF) as u8
}

/// The bytes of a little-endian word are the bytes it was assembled from.
pub proof fn lemma_le_word_bytes(b0: u8, b1: u8, b2: u8, b3: u8)
    ensures
        spec_word_byte(spec_le_word(b0, b1, b2, b3), 0) == b0,
        spec_word_byte(spec_le_word(b0, b1, b2, b3), 1) == b1,
        spec_word_byte(spec_le_word(b0, b1, b2, b3), 2) == b2,
        spec_word_byte(spec_le_word(b0, b1, b2, b3), 3) == b3,
{
    let w = spec_le_word(b0, b1, b2, b3);
    assert(((w >> 0u32) & 0xFF) as u8 == b0 && ((w >> 8u32) & 0xFF) as u8 == b1 && ((w >> 16u32) & 0xFF) as u8 == b2
        && ((w >> 24u32) & 0xFF) as u8 == b3) by (bit_vector)
        requires
            w == (b0 as u32) | ((b1 as u32) << 8u32) | ((b2 as u32) << 16u32) | ((b3 as u32) << 24u32),
    ;
}

/// Program one word at array index `o`: byte `k` of the word (little-endian) is
/// ANDed into byte `o + k`.
fn program_word(mem: &mut FlashMem, o: usize, w: u32)
    requires
        old(mem).wf(),
        o + 4 <= FLASH_SIZE,
    ensures
        final(mem).wf(),
        final(mem).bytes@ == spec_program(
            old(mem).bytes@,
            o as int,
            seq![spec_word_byte(w, 0), spec_word_byte(w, 1), spec_word_byte(w, 2), spec_word_byte(w, 3)],
        ),
{
    let ghost m0 = mem.bytes@;
    let b0 = ((w >> 0) & 0xFF) as u8;
    let b1 = ((w >> 8) & 0xFF) as u8;
    let b2 = ((w >> 16) & 0xFF) as u8;
    let b3 = ((w >> 24) & 0xFF) as u8;
    let v0 = mem.bytes[o] & b0;
    mem.bytes.set(o, v0);
    let v1 = mem.bytes[o + 1] & b1;
    mem.bytes.set(o + 1, v1);
    let v2 = mem.bytes[o + 2] & b2;
    mem.bytes.set(o + 2, v2);
    let v3 = mem.bytes[o + 3] & b3;
    mem.bytes.set(o + 3, v3);
    proof {
        let s = seq![spec_word_byte(w, 0), spec_word_byte(w, 1), spec_word_byte(w, 2), spec_word_byte(w, 3)];
        assert(s[0] == b0 && s[1] == b1 && s[2] == b2 && s[3] == b3);
        assert(mem.bytes@ =~= spec_program(m0, o as int, s));
    }
}

/// What one status reading decides while waiting for an operation to finish: an
/// invalid address or a lock ends the wait with that error, a status that is neither
/// busy nor pending ends it successfully, and anything else keeps it waiting (`None`).
pub open spec fn completion_verdict(s: MscStatus) -> Option<Result<(), Error>> {
    if s.invaddr {
        Some(Err(Error::InvalidAddress))
    } else if s.locked || s.reglock {
        Some(Err(Error::Locked))
    } else if !s.busy && !s.pending {
        Some(Ok(()))
    } else {
        None
    }
}

/// What one status reading decides while waiting for the next data word to be
/// accepted: the errors of [`completion_verdict`], then success once WDATAREADY is set.
pub open spec fn wdata_verdict(s: MscStatus) -> Option<Result<(), Error>> {
    if s.invaddr {
        Some(Err(Error::InvalidAddress))
    } else if s.locked || s.reglock {
        Some(Err(Error::Locked))
    } else if s.wdataready {
        Some(Ok(()))
    } else {
        None
    }
}

/// The verdict of one status reading: [`wdata_verdict`] when waiting for a data word
/// to be accepted (`wdata`), else [`completion_verdict`].
pub open spec fn verdict_of(wdata: bool, s: MscStatus) -> Option<Result<(), Error>> {
    if wdata {
        wdata_verdict(s)
    } else {
        completion_verdict(s)
    }
}

/// A wait that read the statuses `polls` in turn returned `r`: every status but the
/// last kept it waiting, and the last one decided `r`, or, when it did not decide
/// either, `PROGRAM_TIMEOUT` statuses were read and `r` is a timeout.
pub open spec fn spec_waited(polls: Seq<MscStatus>, wdata: bool, r: Result<(), Error>) -> bool {
    &&& 1 <= polls.len() <= PROGRAM_TIMEOUT
    &&& forall|i: int| 0 <= i < polls.len() - 1 ==> (#[trigger] verdict_of(wdata, polls[i])) is None
    &&& match verdict_of(wdata, polls.last()) {
        Some(v) => r == v,
        None => polls.len() == PROGRAM_TIMEOUT && r == Err::<(), Error>(Error::Timeout),
    }
}

/// Every status that `status` can read reports the controller idle: no invalid
/// address, no lock, neither busy nor pending.
pub open spec fn controller_idle<S: Fn() -> MscStatus>(status: S) -> bool {
    forall|s: MscStatus|
        #[trigger] call_ensures(status, (), s) ==> !s.invaddr && !s.locked && !s.reglock && !s.busy && !s.pending
}

/// Every status that `status` can read reports the controller idle and ready for the
/// next data word.
pub open spec fn controller_ready<S: Fn() -> MscStatus>(status: S) -> bool {
    &&& controller_idle(status)
    &&& forall|s: MscStatus| #[trigger] call_ensures(status, (), s) ==> s.wdataready
}

/// Error `e` is what the reading `s` decides while waiting (for a data word when
/// `wdata`, else for completion), or a timeout after a reading that kept the wait
/// going.
pub open spec fn reading_gives(wdata: bool, s: MscStatus, e: Error) -> bool {
    ||| verdict_of(wdata, s) == Some(Err::<(), Error>(e))
    ||| e == Error::Timeout && verdict_of(wdata, s) is None
}

/// Wait for the controller to finish an operation: the statuses that `status` reads
/// are judged in turn by [`completion_verdict`] until one decides, for at most
/// `PROGRAM_TIMEOUT` readings.
fn wait_for_completion<S: Fn() -> MscStatus>(status: &S) -> (r: Result<(), Error>)
    requires
        call_requires(*status, ()),
    ensures
        r matches Err(e) ==> e == Error::InvalidAddress || e == Error::Locked || e == Error::Timeout,
        exists|polls: Seq<MscStatus>|
            (forall|i: int| 0 <= i < polls.len() ==> call_ensures(*status, (), #[trigger] polls[i]))
                && #[trigger] spec_waited(polls, false, r),
        controller_idle(*status) ==> r is Ok,
        r matches Err(e) ==> exists|s: MscStatus| #[trigger] call_ensures(*status, (), s) && reading_gives(false, s, e),
{
    let ghost mut polls: Seq<MscStatus> = Seq::empty();
    let mut timeout: u32 = PROGRAM_TIMEOUT;
    while timeout > 0
        invariant
            call_requires(*status, ()),
            polls.len() == PROGRAM_TIMEOUT - timeout,
            timeout <= PROGRAM_TIMEOUT,
            forall|i: int| 0 <= i < polls.len() ==> call_ensures(*status, (), #[trigger] polls[i]),
            forall|i: int| 0 <= i < polls.len() ==> (#[trigger] verdict_of(false, polls[i])) is None,
        decreases timeout,
    {
        let s = status();
        proof {
            polls = polls.push(s);
            assert(polls.last() == s);
        }
        if s.invaddr {
            proof { assert(spec_waited(polls, false, Err(Error::InvalidAddress))); }
            return Err(Error::InvalidAddress);
        }
        if s.locked || s.reglock {
            proof { assert(spec_waited(polls, false, Err(Error::Locked))); }
            return Err(Error::Locked);
        }
        if !s.busy && !s.pending {
            proof { assert(spec_waited(polls, false, Ok(()))); }
            return Ok(());
        }
        timeout = timeout - 1;
    }
    proof {
        assert(spec_waited(polls, false, Err(Error::Timeout)));
        assert(call_ensures(*status, (), polls[0]) && verdict_of(false, polls[0]) is None);
        assert(reading_gives(false, polls[0], Error::Timeout));
    }
    Err(Error::Timeout)
}

/// Wait for the controller to accept the next data word: the statuses that `status`
/// reads are judged in turn by [`wdata_verdict`] until one decides, for at most
/// `PROGRAM_TIMEOUT` readings.
fn wait_for_wdata_ready<S: Fn() -> MscStatus>(status: &S) -> (r: Result<(), Error>)
    requires
        call_requires(*status, ()),
    ensures
        r matches Err(e) ==> e == Error::InvalidAddress || e == Error::Locked || e == Error::Timeout,
        exists|polls: Seq<MscStatus>|
            (forall|i: int| 0 <= i < polls.len() ==> call_ensures(*status, (), #[trigger] polls[i]))
                && #[trigger] spec_waited(polls, true, r),
        controller_ready(*status) ==> r is Ok,
        r matches Err(e) ==> exists|s: MscStatus| #[trigger] call_ensures(*status, (), s) && reading_gives(true, s, e),
{
    let ghost mut polls: Seq<MscStatus> = Seq::empty();
    let mut timeout: u32 = PROGRAM_TIMEOUT;
    while timeout > 0
        invariant
            call_requires(*status, ()),
            polls.len() == PROGRAM_TIMEOUT - timeout,
            timeout <= PROGRAM_TIMEOUT,
            forall|i: int| 0 <= i < polls.len() ==> call_ensures(*status, (), #[trigger] polls[i]),
            forall|i: int| 0 <= i < polls.len() ==> (#[trigger] verdict_of(true, polls[i])) is None,
        decreases timeout,
    {
        let s = status();
        proof {
            polls = polls.push(s);
            assert(polls.last() == s);
        }
        if s.invaddr {
            proof { assert(spec_waited(polls, true, Err(Error::InvalidAddress))); }
            return Err(Error::InvalidAddress);
        }
        if s.locked || s.reglock {
            proof { assert(spec_waited(polls, true, Err(Error::Locked))); }
            return Err(Error::Locked);
        }
        if s.wdataready {
            proof { assert(spec_waited(polls, true, Ok(()))); }
            return Ok(());
        }
        timeout = timeout - 1;
    }
    proof {
        assert(spec_waited(polls, true, Err(Error::Timeout)));
        assert(call_ensures(*status, (), polls[0]) && verdict_of(true, polls[0]) is None);
        assert(reading_gives(true, polls[0], Error::Timeout));
    }
    Err(Error::Timeout)
}

/// An error the controller reports while working.
pub open spec fn hw_error(e: Error) -> bool {
    e == Error::InvalidAddress || e == Error::Locked || e == Error::Timeout
}

proof fn lemma_prefix_of_concat(x: Seq<(u32, u32)>, y: Seq<(u32, u32)>, z: Seq<(u32, u32)>)
    requires
        x + y == z,
    ensures
        x == z.take(x.len() as int),
{
    assert(x =~= z.take(x.len() as int));
}

/// An erase of `size` bytes at `address` passes the checks: page-aligned, whole
/// pages, inside the flash.
pub open spec fn spec_erase_accepted(address: u32, size: u32) -> bool {
    address % PAGE_SIZE == 0 && size % PAGE_SIZE == 0 && spec_valid(address, size)
}

/// The page addresses an erase of `size` bytes at `address` goes through, ascending.
pub open spec fn spec_erase_pages(address: u32, size: u32) -> Seq<u32> {
    Seq::new((size / PAGE_SIZE) as nat, |i: int| (address + i * (PAGE_SIZE as int)) as u32)
}

/// A write of `len` bytes at `address` passes the checks: word-aligned, whole words,
/// inside the flash.
pub open spec fn spec_write_accepted(address: u32, len: nat) -> bool {
    address % 4 == 0 && len % 4 == 0 && len <= u32::MAX && spec_valid(address, len as u32)
}

/// The programming bursts of a write of `remaining` bytes from `addr`: each burst is
/// its ADDRB address and its length in bytes, and runs up to the next page boundary or
/// to the end of the data, whichever comes first.
#[verifier::opaque]
pub open spec fn spec_bursts(addr: int, remaining: int) -> Seq<(u32, u32)>
    decreases remaining,
{
    if remaining <= 0 {
        Seq::empty()
    } else {
        let page_left = PAGE_SIZE as int - addr % (PAGE_SIZE as int);
        let n = if page_left < remaining {
            page_left
        } else {
            remaining
        };
        seq![(addr as u32, n as u32)] + spec_bursts(addr + n, remaining - n)
    }
}

/// The bursts of a write never cross a page boundary: each is non-empty and ends at
/// or before the end of the page it starts in; the first starts at the write's
/// address and each next one where the previous ended.
pub proof fn lemma_bursts_within_pages(addr: int, n: int)
    requires
        0 <= addr,
        0 <= n,
        addr + n <= u32::MAX,
    ensures
        forall|i: int|
            0 <= i < spec_bursts(addr, n).len() ==> (#[trigger] spec_bursts(addr, n)[i]).1 > 0
                && (spec_bursts(addr, n)[i].0 as int) % (PAGE_SIZE as int) + spec_bursts(addr, n)[i].1 as int
                <= PAGE_SIZE as int,
        n > 0 ==> spec_bursts(addr, n)[0].0 == addr,
        forall|i: int|
            0 <= i < spec_bursts(addr, n).len() - 1 ==> spec_bursts(addr, n)[i + 1].0 as int
                == (#[trigger] spec_bursts(addr, n)[i]).0 as int + spec_bursts(addr, n)[i].1 as int,
    decreases n,
{
    reveal(spec_bursts);
    if n > 0 {
        let page_left = PAGE_SIZE as int - addr % (PAGE_SIZE as int);
        let m = if page_left < n {
            page_left
        } else {
            n
        };
        lemma_bursts_within_pages(addr + m, n - m);
        let s = spec_bursts(addr, n);
        let t = spec_bursts(addr + m, n - m);
        assert(s == seq![(addr as u32, m as u32)] + t);
        assert forall|i: int| 0 <= i < s.len() implies (#[trigger] s[i]).1 > 0 && (s[i].0 as int) % (PAGE_SIZE as int)
            + s[i].1 as int <= PAGE_SIZE as int by {
            if i > 0 {
                assert(s[i] == t[i - 1]);
            }
        }
        assert forall|i: int| 0 <= i < s.len() - 1 implies s[i + 1].0 as int == (#[trigger] s[i]).0 as int + s[i].1 as int by {
            assert(s[i + 1] == t[i]);
            if i > 0 {
                assert(s[i] == t[i - 1]);
            }
        }
    }
}

/// Information about a flash region.
#[derive(Debug, Clone, Copy, PartialEq, Eq)]
pub struct FlashRegion {
    /// Base address of the region.
    pub base: u32,
    /// Size of the region in bytes.
    pub size: u32,
}

/// Flash memory controller driver.
pub struct Flash {
    /// Nothing is held: the driver stands for the controller.
    pub unit: (),
}

impl Flash {
    /// Create the driver: MSC clock on, register interface unlocked, writing
    /// disabled.
    pub fn new(cmu: &mut CmuRegs, msc: &mut MscRegs) -> (r: Self)
        ensures
            *final(cmu) == (CmuRegs { clken1: Clken1 { msc: true, ..old(cmu).clken1 }, ..*old(cmu) }),
            *final(msc) == (MscRegs { locked: false, wren: false }),
    {
        cmu.clken1 = Clken1 { msc: true, ..cmu.clken1 };
        *msc = MscRegs { locked: false, wren: false };
        Flash { unit: () }
    }

    /// The flash base address.
    pub fn base_address(&self) -> (r: u32)
        ensures
            r == FLASH_BASE,
    {
        FLASH_BASE
    }

    /// The total flash size in bytes.
    pub fn capacity(&self) -> (r: u32)
        ensures
            r == FLASH_SIZE,
    {
        FLASH_SIZE
    }

    /// The flash page size in bytes.
    pub fn page_size(&self) -> (r: u32)
        ensures
            r == PAGE_SIZE,
    {
        PAGE_SIZE
    }

    /// The main flash region.
    pub fn main_flash_region(&self) -> (r: FlashRegion)
        ensures
            r == (FlashRegion { base: FLASH_BASE, size: FLASH_SIZE }),
    {
        FlashRegion { base: FLASH_BASE, size: FLASH_SIZE }
    }

    /// Whether an address range lies inside the flash.
    pub fn is_valid_address(&self, address: u32, len: u32) -> (r: bool)
        requires
            range_fits(address, len),
        ensures
            r == spec_valid(address, len),
    {
        FLASH_BASE <= address && address < FLASH_BASE + FLASH_SIZE && address + len <= FLASH_BASE + FLASH_SIZE
    }

    /// Whether the register interface is locked.
    pub fn is_locked(&self, msc: &MscRegs) -> (r: bool)
        ensures
            r == msc.locked,
    {
        msc.locked
    }

    /// Read flash into `buffer`.
    pub fn read(&self, address: u32, buffer: &mut [u8], mem: &FlashMem) -> (r: Result<(), Error>)
        requires
            mem.wf(),
            old(buffer)@.len() <= u32::MAX,
            range_fits(address, old(buffer)@.len() as u32),
        ensures
            final(buffer)@.len() == old(buffer)@.len(),
            !spec_valid(address, old(buffer)@.len() as u32) ==> r == Err::<(), Error>(Error::InvalidAddress)
                && final(buffer)@ == old(buffer)@,
            spec_valid(address, old(buffer)@.len() as u32) ==> r is Ok && final(buffer)@ == mem.bytes@.subrange(
                address - FLASH_BASE,
                address - FLASH_BASE + old(buffer)@.len(),
            ),
    {
        if !self.is_valid_address(address, buffer.len() as u32) {
            return Err(Error::InvalidAddress);
        }
        let start = (address - FLASH_BASE) as usize;
        let ghost len = buffer@.len();
        let mut i: usize = 0;
        while i < buffer.len()
            invariant
                mem.wf(),
                buffer@.len() == len,
                len == old(buffer)@.len(),
                start + len <= FLASH_SIZE,
                i <= len,
                forall|k: int| 0 <= k < i ==> buffer@[k] == mem.bytes@[start + k],
            decreases buffer.len() - i,
        {
            buffer[i] = mem.bytes[start + i];
            i = i + 1;
        }
        proof {
            assert(buffer@ =~= mem.bytes@.subrange(start as int, start + len));
        }
        Ok(())
    }

    /// Erase whole pages. The address must be page-aligned and the size a multiple of
    /// the page size (else `Alignment`), and the range inside the flash (else
    /// `InvalidAddress`). The register interface is unlocked and writing enabled for
    /// the duration, then both are put back. Page by page, in ascending order, the
    /// page address goes to ADDRB and, unless the status then reports an invalid
    /// address, ERASEPAGE is issued (here the page address is appended to `pages`);
    /// a page is erased once the controller reports it done. The first error the
    /// controller reports ends the erase.
    pub fn erase<S: Fn() -> MscStatus>(
        &mut self,
        address: u32,
        size: u32,
        mem: &mut FlashMem,
        msc: &mut MscRegs,
        pages: &mut Vec<u32>,
        status: S,
    ) -> (r: Result<(), Error>)
        requires
            old(mem).wf(),
            call_requires(status, ()),
            range_fits(address, size),
        ensures
            final(mem).wf(),
            (address % PAGE_SIZE != 0 || size % PAGE_SIZE != 0) <==> r == Err::<(), Error>(Error::Alignment),
            r == Err::<(), Error>(Error::Alignment) ==> final(mem).bytes@ == old(mem).bytes@ && *final(msc) == *old(msc),
            address % PAGE_SIZE == 0 && size % PAGE_SIZE == 0 && !spec_valid(address, size) ==> r == Err::<(), Error>(
                Error::InvalidAddress,
            ) && final(mem).bytes@ == old(mem).bytes@ && *final(msc) == *old(msc),
            !spec_erase_accepted(address, size) ==> final(pages)@ == old(pages)@,
            spec_erase_accepted(address, size) ==> *final(msc) == (MscRegs { wren: false, ..*old(msc) }),
            spec_erase_accepted(address, size) && size == 0 ==> r is Ok,
            spec_erase_accepted(address, size) && controller_idle(status) ==> r is Ok,
            spec_erase_accepted(address, size) && r is Ok ==> final(mem).bytes@ == spec_fill(
                old(mem).bytes@,
                address - FLASH_BASE,
                size as int,
                0xFF,
            ),
            spec_erase_accepted(address, size) && r is Ok ==> final(pages)@ == old(pages)@ + spec_erase_pages(address, size),
            spec_erase_accepted(address, size) && r is Err ==> (r matches Err(e) && hw_error(e)) && exists|k: int|
                0 <= k <= size && k % (PAGE_SIZE as int) == 0 && final(mem).bytes@ == #[trigger] spec_fill(
                    old(mem).bytes@,
                    address - FLASH_BASE,
                    k,
                    0xFF,
                ),
            spec_erase_accepted(address, size) && r is Err ==> exists|k: int|
                0 <= k <= size / PAGE_SIZE && final(pages)@ == old(pages)@ + #[trigger] spec_erase_pages(address, size).take(k),
            spec_erase_accepted(address, size) ==> (r matches Err(e) ==> exists|s: MscStatus|
                #[trigger] call_ensures(status, (), s) && reading_gives(false, s, e)),
    {
        if address % PAGE_SIZE != 0 || size % PAGE_SIZE != 0 {
            return Err(Error::Alignment);
        }
        if !self.is_valid_address(address, size) {
            return Err(Error::InvalidAddress);
        }
        let was_locked = msc.locked;
        *msc = MscRegs { locked: false, wren: true };
        let ghost m0 = mem.bytes@;
        let ghost p0 = pages@;
        let start = (address - FLASH_BASE) as usize;
        let total = size as usize;
        let mut done: usize = 0;
        proof {
            assert(mem.bytes@ =~= spec_fill(m0, start as int, 0, 0xFF));
            assert(pages@ =~= p0 + spec_erase_pages(address, size).take(0));
        }
        while done < total
            invariant
                mem.wf(),
                call_requires(status, ()),
                start + total <= FLASH_SIZE,
                total == size,
                total % (PAGE_SIZE as usize) == 0,
                done <= total,
                done % (PAGE_SIZE as usize) == 0,
                start == address - FLASH_BASE,
                m0 == old(mem).bytes@,
                p0 == old(pages)@,
                address % PAGE_SIZE == 0,
                size % PAGE_SIZE == 0,
                spec_valid(address, size),
                was_locked == old(msc).locked,
                mem.bytes@ == spec_fill(m0, start as int, done as int, 0xFF),
                pages@ == p0 + spec_erase_pages(address, size).take(done as int / (PAGE_SIZE as int)),
                *msc == (MscRegs { locked: false, wren: true }),
            decreases total - done,
        {
            proof {
                let p: int = PAGE_SIZE as int;
                let d: int = done as int;
                let t: int = total as int;
                assert(d + p <= t) by (nonlinear_arith)
                    requires d < t, d % p == 0, t % p == 0, p > 0;
                assert(d / p < t / p) by (nonlinear_arith)
                    requires d < t, d % p == 0, t % p == 0, p > 0;
                assert((d + p) / p == d / p + 1) by (nonlinear_arith)
                    requires d % p == 0, p > 0;
                assert(d == (d / p) * p) by (nonlinear_arith)
                    requires d % p == 0, p > 0;
            }
            let page = address + done as u32;
            let s = status();
            if s.invaddr {
                *msc = MscRegs { locked: was_locked, wren: false };
                proof {
                    assert(reading_gives(false, s, Error::InvalidAddress));
                }
                return Err(Error::InvalidAddress);
            }
            let ghost before = pages@;
            pages.push(page);
            proof {
                let k: int = done as int / (PAGE_SIZE as int);
                let all = spec_erase_pages(address, size);
                assert(all[k] == page);
                assert(pages@ =~= p0 + all.take(k + 1));
            }
            match wait_for_completion(&status) {
                Ok(()) => {},
                Err(e) => {
                    *msc = MscRegs { locked: was_locked, wren: false };
                    return Err(e);
                },
            }
            let mut j: usize = 0;
            while j < PAGE_SIZE as usize
                invariant
                    mem.wf(),
                    start + total <= FLASH_SIZE,
                    done + (PAGE_SIZE as usize) <= total,
                    j <= PAGE_SIZE,
                    mem.bytes@ == spec_fill(m0, start as int, (done + j) as int, 0xFF),
                decreases PAGE_SIZE - j,
            {
                mem.bytes.set(start + done + j, 0xFF);
                proof {
                    assert(mem.bytes@ =~= spec_fill(m0, start as int, (done + j + 1) as int, 0xFF));
                }
                j = j + 1;
            }
            proof {
                let p: int = PAGE_SIZE as int;
                let d: int = done as int;
                assert((d + p) % p == 0) by (nonlinear_arith)
                    requires d % p == 0, p > 0;
            }
            done = done + PAGE_SIZE as usize;
        }
        proof {
            let all = spec_erase_pages(address, size);
            assert(all.take(done as int / (PAGE_SIZE as int)) =~= all);
        }
        *msc = MscRegs { locked: was_locked, wren: false };
        Ok(())
    }

    /// Write data. The address must be word-aligned and the length a multiple of 4
    /// (else `Alignment`), and the range inside the flash (else `InvalidAddress`);
    /// no data writes nothing. The data goes out in bursts that never cross a page
    /// boundary (each ADDRB write, here appended to `bursts` with the burst's length,
    /// starts one), as little-endian words, each programmed as it is written; the
    /// register interface is unlocked and writing enabled for the duration, then
    /// both are put back. The first error the controller reports ends the write.
    pub fn write<S: Fn() -> MscStatus>(
        &mut self,
        address: u32,
        data: &[u8],
        mem: &mut FlashMem,
        msc: &mut MscRegs,
        bursts: &mut Vec<(u32, u32)>,
        status: S,
    ) -> (r: Result<(), Error>)
        requires
            old(mem).wf(),
            call_requires(status, ()),
            data@.len() <= u32::MAX,
            range_fits(address, data@.len() as u32),
        ensures
            final(mem).wf(),
            !spec_write_accepted(address, data@.len()) ==> final(bursts)@ == old(bursts)@,
            spec_write_accepted(address, data@.len()) && r is Ok
                ==> final(bursts)@ == old(bursts)@ + spec_bursts(address as int, data@.len() as int),
            spec_write_accepted(address, data@.len()) && controller_ready(status) ==> r is Ok,
            spec_write_accepted(address, data@.len()) ==> (r matches Err(e) ==> exists|s: MscStatus|
                #[trigger] call_ensures(status, (), s) && (reading_gives(false, s, e) || reading_gives(true, s, e))),
            spec_write_accepted(address, data@.len()) && r is Err
                ==> old(bursts)@.len() < final(bursts)@.len()
                && final(bursts)@ == (old(bursts)@ + spec_bursts(address as int, data@.len() as int)).take(final(bursts)@.len() as int),
            (address % 4 != 0 || data@.len() % 4 != 0) <==> r == Err::<(), Error>(Error::Alignment),
            r == Err::<(), Error>(Error::Alignment) ==> final(mem).bytes@ == old(mem).bytes@ && *final(msc) == *old(msc),
            address % 4 == 0 && data@.len() % 4 == 0 && !spec_valid(address, data@.len() as u32) ==> r == Err::<(), Error>(
                Error::InvalidAddress,
            ) && final(mem).bytes@ == old(mem).bytes@ && *final(msc) == *old(msc),
            address % 4 == 0 && spec_valid(address, data@.len() as u32) && data@.len() == 0 ==> r is Ok && final(mem).bytes@
                == old(mem).bytes@ && *final(msc) == *old(msc),
            address % 4 == 0 && data@.len() % 4 == 0 && spec_valid(address, data@.len() as u32) && data@.len() > 0
                ==> *final(msc) == (MscRegs { wren: false, ..*old(msc) }),
            address % 4 == 0 && data@.len() % 4 == 0 && spec_valid(address, data@.len() as u32) && r is Ok ==> final(mem).bytes@ == spec_program(old(mem).bytes@, address - FLASH_BASE, data@),
            address % 4 == 0 && data@.len() % 4 == 0 && spec_valid(address, data@.len() as u32) && r is Err ==> (r matches Err(e) && hw_error(e)) && exists|k: int|
                0 <= k <= data@.len() && k % 4 == 0 && final(mem).bytes@ == #[trigger] spec_program(
                    old(mem).bytes@,
                    address - FLASH_BASE,
                    data@.subrange(0, k),
                ),
    {
        if address % 4 != 0 || data.len() % 4 != 0 {
            return Err(Error::Alignment);
        }
        if !self.is_valid_address(address, data.len() as u32) {
            return Err(Error::InvalidAddress);
        }
        if data.len() == 0 {
            proof {
                reveal(spec_bursts);
                assert(bursts@ =~= bursts@ + spec_bursts(address as int, 0));
            }
            return Ok(());
        }
        let was_locked = msc.locked;
        *msc = MscRegs { locked: false, wren: true };
        let ghost m0 = mem.bytes@;
        let len = data.len() as u32;
        let start = address - FLASH_BASE;
        let mut offset: u32 = 0;
        let ghost b0 = bursts@;
        proof {
            assert(mem.bytes@ =~= spec_program(m0, start as int, data@.subrange(0, 0)));
        }
        while offset < len
            invariant
                mem.wf(),
                call_requires(status, ()),
                len == data@.len(),
                start == address - FLASH_BASE,
                start % 4 == 0,
                start + len <= FLASH_SIZE,
                len % 4 == 0,
                offset <= len,
                offset % 4 == 0,
                m0 == old(mem).bytes@,
                address % 4 == 0,
                spec_valid(address, len),
                was_locked == old(msc).locked,
                mem.bytes@ == spec_program(m0, start as int, data@.subrange(0, offset as int)),
                *msc == (MscRegs { locked: false, wren: true }),
                bursts@ + spec_bursts(address + offset, len - offset) == b0 + spec_bursts(address as int, len as int),
                b0 == old(bursts)@,
                offset > 0 ==> bursts@.len() > b0.len(),
                address as int + len as int <= u32::MAX,
            decreases len - offset,
        {
            let cur = start + offset;
            let page_remaining = PAGE_SIZE - (cur % PAGE_SIZE);
            let data_remaining = len - offset;
            let burst = if page_remaining < data_remaining {
                page_remaining
            } else {
                data_remaining
            };
            assert(burst % 4 == 0 && burst >= 4);
            proof {
                let a: int = address + offset;
                assert(a % (PAGE_SIZE as int) == cur % PAGE_SIZE) by {
                    assert(FLASH_BASE as int == 0x4000 * (PAGE_SIZE as int));
                    assert(a == cur + 0x4000 * (PAGE_SIZE as int));
                    vstd::arithmetic::div_mod::lemma_mod_multiples_vanish(0x4000, cur as int, PAGE_SIZE as int);
                }
                let rest = spec_bursts(a + burst, len - offset - burst);
                reveal(spec_bursts);
                assert(spec_bursts(a, len - offset) == seq![(a as u32, burst)] + rest);
            }
            let ghost before = bursts@;
            bursts.push((address + offset, burst));
            proof {
                let a: int = address + offset;
                let rest = spec_bursts(a + burst, len - offset - burst);
                assert(bursts@ + rest =~= before + (seq![(a as u32, burst)] + rest));
                lemma_prefix_of_concat(bursts@, rest, b0 + spec_bursts(address as int, len as int));
            }
            let s = status();
            if s.invaddr {
                *msc = MscRegs { locked: was_locked, wren: false };
                proof {
                    assert(reading_gives(false, s, Error::InvalidAddress));
                }
                return Err(Error::InvalidAddress);
            }
            let words = burst / 4;
            let mut i: u32 = 0;
            while i < words
                invariant
                    mem.wf(),
                    call_requires(status, ()),
                    len == data@.len(),
                    start + len <= FLASH_SIZE,
                    offset % 4 == 0,
                    offset + burst <= len,
                    words * 4 == burst,
                    i <= words,
                    m0 == old(mem).bytes@,
                    address % 4 == 0,
                    len % 4 == 0,
                    start == address - FLASH_BASE,
                    spec_valid(address, len),
                    was_locked == old(msc).locked,
                    mem.bytes@ == spec_program(m0, start as int, data@.subrange(0, offset + 4 * i)),
                    *msc == (MscRegs { locked: false, wren: true }),
                    b0 == old(bursts)@,
                    bursts@.len() > b0.len(),
                    bursts@ == (b0 + spec_bursts(address as int, len as int)).take(bursts@.len() as int),
                    bursts@ + spec_bursts(address + offset + burst, len - offset - burst) == b0 + spec_bursts(
                        address as int,
                        len as int,
                    ),
                decreases words - i,
            {
                let wo = (offset + i * 4) as usize;
                let w = le_word(data[wo], data[wo + 1], data[wo + 2], data[wo + 3]);
                let ghost before = mem.bytes@;
                program_word(mem, (start as usize) + wo, w);
                proof {
                    lemma_le_word_bytes(data@[wo as int], data@[wo + 1], data@[wo + 2], data@[wo + 3]);
                    assert(mem.bytes@ =~= spec_program(m0, start as int, data@.subrange(0, offset + 4 * (i + 1))));
                }
                if i < words - 1 {
                    match wait_for_wdata_ready(&status) {
                        Ok(()) => {},
                        Err(e) => {
                            *msc = MscRegs { locked: was_locked, wren: false };
                            proof {
                                let k = offset + 4 * (i + 1);
                                assert(0 <= k <= data@.len() && k % 4 == 0);
                            }
                            return Err(e);
                        },
                    }
                }
                i = i + 1;
            }
            match wait_for_completion(&status) {
                Ok(()) => {},
                Err(e) => {
                    *msc = MscRegs { locked: was_locked, wren: false };
                    return Err(e);
                },
            }
            offset = offset + burst;
        }
        proof {
            assert(data@.subrange(0, len as int) =~= data@);
            reveal(spec_bursts);
            assert(spec_bursts(address + offset, len - offset) =~= Seq::<(u32, u32)>::empty());
            assert(bursts@ =~= bursts@ + Seq::<(u32, u32)>::empty());
        }
        *msc = MscRegs { locked: was_locked, wren: false };
        Ok(())
    }

    /// Compare flash with `data`: `Ok(true)` exactly when every byte matches.
    pub fn verify(&self, address: u32, data: &[u8], mem: &FlashMem) -> (r: Result<bool, Error>)
        requires
            mem.wf(),
            data@.len() <= u32::MAX,
            range_fits(address, data@.len() as u32),
        ensures
            !spec_valid(address, data@.len() as u32) ==> r == Err::<bool, Error>(Error::InvalidAddress),
            spec_valid(address, data@.len() as u32) ==> r == Ok::<bool, Error>(
                mem.bytes@.subrange(address - FLASH_BASE, address - FLASH_BASE + data@.len()) == data@,
            ),
    {
        if !self.is_valid_address(address, data.len() as u32) {
            return Err(Error::InvalidAddress);
        }
        let start = (address - FLASH_BASE) as usize;
        let mut i: usize = 0;
        while i < data.len()
            invariant
                mem.wf(),
                start + data@.len() <= FLASH_SIZE,
                start == address - FLASH_BASE,
                i <= data@.len(),
                forall|k: int| 0 <= k < i ==> mem.bytes@[start + k] == data@[k],
            decreases data.len() - i,
        {
            if mem.bytes[start + i] != data[i] {
                proof {
                    assert(mem.bytes@.subrange(start as int, start + data@.len())[i as int] != data@[i as int]);
                }
                return Ok(false);
            }
            i = i + 1;
        }
        proof {
            assert(mem.bytes@.subrange(start as int, start + data@.len()) =~= data@);
        }
        Ok(true)
    }

    /// Whether a range is erased (every byte 0xFF).
    pub fn is_erased(&self, address: u32, size: u32, mem: &FlashMem) -> (r: Result<bool, Error>)
        requires
            mem.wf(),
            range_fits(address, size),
        ensures
            !spec_valid(address, size) ==> r == Err::<bool, Error>(Error::InvalidAddress),
            spec_valid(address, size) ==> r == Ok::<bool, Error>(
                forall|i: int| address - FLASH_BASE <= i < address - FLASH_BASE + size ==> mem.bytes@[i] == 0xFF,
            ),
    {
        if !self.is_valid_address(address, size) {
            return Err(Error::InvalidAddress);
        }
        let start = (address - FLASH_BASE) as usize;
        let n = size as usize;
        let mut i: usize = 0;
        while i < n
            invariant
                mem.wf(),
                start + n <= FLASH_SIZE,
                start == address - FLASH_BASE,
                n == size,
                i <= n,
                forall|k: int| start <= k < start + i ==> mem.bytes@[k] == 0xFF,
            decreases n - i,
        {
            if mem.bytes[start + i] != 0xFF {
                return Ok(false);
            }
            i = i + 1;
        }
        Ok(true)
    }

    /// Tear the driver down: writing disabled and the register interface locked.
    pub fn release(self, msc: &mut MscRegs)
        ensures
            *final(msc) == (MscRegs { locked: true, wren: false }),
    {
        *msc = MscRegs { locked: true, wren: false };
    }
}

/// Data written into an erased range reads back unchanged.
pub proof fn lemma_erase_write_read(mem: Seq<u8>, s: int, n: int, t: int, data: Seq<u8>)
    requires
        0 <= s,
        s <= t,
        t + data.len() <= s + n,
        s + n <= mem.len(),
    ensures
        spec_program(spec_fill(mem, s, n, 0xFF), t, data).subrange(t, t + data.len()) == data,
{
    let m = spec_program(spec_fill(mem, s, n, 0xFF), t, data);
    assert forall|i: int| 0 <= i < data.len() implies m[t + i] == data[i] by {
        let d = data[i];
        assert(0xFFu8 & d == d) by (bit_vector);
    }
    assert(m.subrange(t, t + data.len()) =~= data);
}

/// Read after erase and write: once the pages of `[page, page + size)` are erased and
/// `data` is written at `address` inside them, a read of `data.len()` bytes at
/// `address` gives back `data`. Stated over the flash contents that `erase`, `write`
/// and `read` leave and read when they succeed.
pub proof fn lemma_read_after_erase_and_write(mem: FlashMem, page: u32, size: u32, address: u32, data: Seq<u8>)
    requires
        mem.wf(),
        spec_erase_accepted(page, size),
        spec_write_accepted(address, data.len()),
        page <= address,
        address + data.len() <= page + size,
    ensures
        ({
            let erased = spec_fill(mem.bytes@, page - FLASH_BASE, size as int, 0xFF);
            let written = spec_program(erased, address - FLASH_BASE, data);
            &&& spec_valid(address, data.len() as u32)
            &&& written.subrange(address - FLASH_BASE, address - FLASH_BASE + data.len()) == data
        }),
{
    lemma_erase_write_read(mem.bytes@, page - FLASH_BASE, size as int, address - FLASH_BASE, data);
}

/// Programming never sets a bit: every byte after programming has only bits that
/// were set before.
pub proof fn lemma_program_only_clears(mem: Seq<u8>, s: int, data: Seq<u8>, i: int)
    requires
        0 <= i < mem.len(),
    ensures
        spec_program(mem, s, data)[i] & mem[i] == spec_program(mem, s, data)[i],
{
    let a = mem[i];
    if s <= i < s + data.len() {
        let d = data[i - s];
        assert((a & d) & a == a & d) by (bit_vector);
    } else {
        assert(a & a == a) by (bit_vector);
    }
}

} // verus!
