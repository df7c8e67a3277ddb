//! Linked Direct Memory Access (LDMA) controller logic.
//!
//! Descriptor encoding, channel allocation and the register effects of the driver's
//! operations, expressed over a model of the LDMA register block.
use vstd::layout::size_of;
use vstd::prelude::*;

verus! {

/// Number of DMA channels available.
pub const CHANNEL_COUNT: usize = 8;

/// Bit of the ERROR flag in the IF and IEN registers.
pub const ERROR_FLAG: u32 = 0x8000_0000;

/// Largest number of units one descriptor moves.
pub const MAX_TRANSFER_COUNT: usize = 2048;

/// LDMA transfer size.
#[derive(Clone, Copy, Debug, PartialEq, Eq)]
pub enum TransferSize {
    /// Byte (8-bit) transfers.
    Byte,
    /// Half-word (16-bit) transfers.
    HalfWord,
    /// Word (32-bit) transfers.
    Word,
}

impl TransferSize {
    /// The SIZE field encoding.
    pub open spec fn spec_bits(self) -> u32 {
        match self {
            TransferSize::Byte => 0,
            TransferSize::HalfWord => 1,
            TransferSize::Word => 2,
        }
    }

    /// The SIZE field encoding.
    pub fn bits(self) -> (r: u32)
        ensures
            r == self.spec_bits(),
    {
        match self {
            TransferSize::Byte => 0,
            TransferSize::HalfWord => 1,
            TransferSize::Word => 2,
        }
    }

    /// The default transfer size (word).
    pub fn default() -> (r: Self)
        ensures
            r == TransferSize::Word,
    {
        TransferSize::Word
    }
}

/// Source address increment mode.
#[derive(Clone, Copy, Debug, PartialEq, Eq)]
pub enum SrcInc {
    /// Increment source address by one unit.
    One,
    /// Increment source address by two units.
    Two,
    /// Increment source address by four units.
    Four,
    /// Do not increment source address.
    Hold,
}

impl SrcInc {
    /// The SRCINC field encoding.
    pub open spec fn spec_bits(self) -> u32 {
        match self {
            SrcInc::One => 0,
            SrcInc::Two => 1,
            SrcInc::Four => 2,
            SrcInc::Hold => 3,
        }
    }

    /// The SRCINC field encoding.
    pub fn bits(self) -> (r: u32)
        ensures
            r == self.spec_bits(),
    {
        match self {
            SrcInc::One => 0,
            SrcInc::Two => 1,
            SrcInc::Four => 2,
            SrcInc::Hold => 3,
        }
    }
}

/// Destination address increment mode.
#[derive(Clone, Copy, Debug, PartialEq, Eq)]
pub enum DstInc {
    /// Increment destination address by one unit.
    One,
    /// Increment destination address by two units.
    Two,
    /// Increment destination address by four units.
    Four,
    /// Do not increment destination address.
    Hold,
}

impl DstInc {
    /// The DSTINC field encoding.
    pub open spec fn spec_bits(self) -> u32 {
        match self {
            DstInc::One => 0,
            DstInc::Two => 1,
            DstInc::Four => 2,
            DstInc::Hold => 3,
        }
    }

    /// The DSTINC field encoding.
    pub fn bits(self) -> (r: u32)
        ensures
            r == self.spec_bits(),
    {
        match self {
            DstInc::One => 0,
            DstInc::Two => 1,
            DstInc::Four => 2,
            DstInc::Hold => 3,
        }
    }
}

/// Block size for arbitration.
#[derive(Clone, Copy, Debug, PartialEq, Eq)]
pub enum BlockSize {
    /// One transfer per arbitration.
    Unit1,
    /// Two transfers per arbitration.
    Unit2,
    /// Three transfers per arbitration.
    Unit3,
    /// Four transfers per arbitration.
    Unit4,
    /// Six transfers per arbitration.
    Unit6,
    /// Eight transfers per arbitration.
    Unit8,
    /// 16 transfers per arbitration.
    Unit16,
    /// 32 transfers per arbitration.
    Unit32,
    /// 64 transfers per arbitration.
    Unit64,
    /// 128 transfers per arbitration.
    Unit128,
    /// 256 transfers per arbitration.
    Unit256,
    /// 512 transfers per arbitration.
    Unit512,
    /// 1024 transfers per arbitration.
    Unit1024,
    /// Lock arbitration during entire transfer.
    All,
}

impl BlockSize {
    /// The BLOCKSIZE field encoding.
    pub open spec fn spec_bits(self) -> u32 {
        match self {
            BlockSize::Unit1 => 0,
            BlockSize::Unit2 => 1,
            BlockSize::Unit3 => 2,
            BlockSize::Unit4 => 3,
            BlockSize::Unit6 => 4,
            BlockSize::Unit8 => 5,
            BlockSize::Unit16 => 6,
            BlockSize::Unit32 => 7,
            BlockSize::Unit64 => 8,
            BlockSize::Unit128 => 9,
            BlockSize::Unit256 => 10,
            BlockSize::Unit512 => 11,
            BlockSize::Unit1024 => 12,
            BlockSize::All => 15,
        }
    }

    /// The BLOCKSIZE field encoding.
    pub fn bits(self) -> (r: u32)
        ensures
            r == self.spec_bits(),
    {
        match self {
            BlockSize::Unit1 => 0,
            BlockSize::Unit2 => 1,
            BlockSize::Unit3 => 2,
            BlockSize::Unit4 => 3,
            BlockSize::Unit6 => 4,
            BlockSize::Unit8 => 5,
            BlockSize::Unit16 => 6,
            BlockSize::Unit32 => 7,
            BlockSize::Unit64 => 8,
            BlockSize::Unit128 => 9,
            BlockSize::Unit256 => 10,
            BlockSize::Unit512 => 11,
            BlockSize::Unit1024 => 12,
            BlockSize::All => 15,
        }
    }
}

/// LDMA error types.
#[derive(Debug, Clone, Copy, PartialEq, Eq)]
pub enum Error {
    /// No channels available.
    NoChannel,
    /// Invalid channel number.
    InvalidChannel,
    /// Transfer error (bus error or descriptor error).
    TransferError,
    /// Transfer count too large.
    CountTooLarge,
}

/// LDMA configuration.
#[derive(Clone, Copy, Debug, PartialEq, Eq)]
pub struct Config {
    /// Number of fixed priority channels (0-7).
    pub num_fixed_priority: u8,
}

impl Config {
    /// The default configuration: no fixed-priority channels.
    pub fn default() -> (r: Self)
        ensures
            r.num_fixed_priority == 0,
    {
        Config { num_fixed_priority: 0 }
    }
}

/// Transfer configuration for a single DMA transfer.
#[derive(Clone, Copy, Debug, PartialEq, Eq)]
pub struct TransferConfig {
    /// Transfer size (byte, half-word, word).
    pub size: TransferSize,
    /// Source address increment.
    pub src_inc: SrcInc,
    /// Destination address increment.
    pub dst_inc: DstInc,
    /// Block size for arbitration.
    pub block_size: BlockSize,
}

impl TransferConfig {
    /// The default transfer configuration.
    pub open spec fn spec_default() -> Self {
        TransferConfig {
            size: TransferSize::Word,
            src_inc: SrcInc::One,
            dst_inc: DstInc::One,
            block_size: BlockSize::Unit4,
        }
    }

    /// The default transfer configuration: words, both addresses incremented by one
    /// unit, four units per arbitration.
    pub fn default() -> (r: Self)
        ensures
            r.size == TransferSize::Word,
            r.src_inc == SrcInc::One,
            r.dst_inc == DstInc::One,
            r.block_size == BlockSize::Unit4,
    {
        TransferConfig {
            size: TransferSize::Word,
            src_inc: SrcInc::One,
            dst_inc: DstInc::One,
            block_size: BlockSize::Unit4,
        }
    }
}

/// The XFERCNT field of a control word.
pub open spec fn ctrl_xfercnt(ctrl: u32) -> u32 {
    (ctrl >> 4u32) & 0x7FF
}

/// The bits of a control word that no field written by the driver occupies.
pub open spec fn ctrl_reserved(ctrl: u32) -> u32 {
    ctrl & 0x03D8_0007
}

/// A control word describes a block-mode transfer of `count` units (saturating at
/// one unit, counted modulo 2048) with the given configuration: STRUCTREQ set,
/// the fields placed at their positions and every other bit clear.
pub open spec fn ctrl_describes(ctrl: u32, count: u16, config: TransferConfig, done_ifs: bool) -> bool {
    let xfer: int = if count == 0 { 0 } else { count - 1 };
    &&& (ctrl >> 3u32) & 1 == 1
    &&& ctrl_xfercnt(ctrl) == xfer % 2048
    &&& (ctrl >> 15u32) & 0xF == config.block_size.spec_bits()
    &&& (ctrl >> 21u32) & 1 == (if done_ifs { 1u32 } else { 0u32 })
    &&& (ctrl >> 26u32) & 3 == config.src_inc.spec_bits()
    &&& (ctrl >> 28u32) & 3 == config.size.spec_bits()
    &&& (ctrl >> 30u32) & 3 == config.dst_inc.spec_bits()
    &&& ctrl_reserved(ctrl) == 0
}

/// DMA descriptor for linked transfers (the hardware descriptor format).
#[derive(Clone, Copy, Debug, PartialEq, Eq)]
pub struct Descriptor {
    /// Control word.
    pub ctrl: u32,
    /// Source address.
    pub src: u32,
    /// Destination address.
    pub dst: u32,
    /// Link to next descriptor (or 0 for end).
    pub link: u32,
}

/// Pack the fields of a control word.
fn pack_ctrl(xfer_cnt: u32, block: u32, done: u32, src: u32, size: u32, dst: u32) -> (r: u32)
    requires
        xfer_cnt < 2048,
        block < 16,
        done < 2,
        src < 4,
        size < 4,
        dst < 4,
    ensures
        (r >> 3u32) & 1 == 1,
        (r >> 4u32) & 0x7FF == xfer_cnt,
        (r >> 15u32) & 0xF == block,
        (r >> 21u32) & 1 == done,
        (r >> 26u32) & 3 == src,
        (r >> 28u32) & 3 == size,
        (r >> 30u32) & 3 == dst,
        r & 0x03D8_0007 == 0,
{
    let r: u32 = (1u32 << 3u32) | (xfer_cnt << 4u32) | (block << 15u32) | (done << 21u32) | (src
        << 26u32) | (size << 28u32) | (dst << 30u32);
    assert(
        (r >> 3u32) & 1 == 1
        && (r >> 4u32) & 0x7FF == xfer_cnt
        && (r >> 15u32) & 0xF == block
        && (r >> 21u32) & 1 == done
        && (r >> 26u32) & 3 == src
        && (r >> 28u32) & 3 == size
        && (r >> 30u32) & 3 == dst
        && r & 0x03D8_0007 == 0
    ) by (bit_vector)
        requires
            xfer_cnt < 2048,
            block < 16,
            done < 2,
            src < 4,
            size < 4,
            dst < 4,
            r == (1u32 << 3u32) | (xfer_cnt << 4u32) | (block << 15u32) | (done << 21u32) | (src
                << 26u32) | (size << 28u32) | (dst << 30u32),
    ;
    r
}

impl Descriptor {
    /// Build the control word for a descriptor.
    pub fn build_ctrl(count: u16, config: &TransferConfig, done_ifs: bool) -> (r: u32)
        ensures
            ctrl_describes(r, count, *config, done_ifs),
    {
        let xfer_cnt: u32 = if count == 0 { 0 } else { (count - 1) as u32 };
        let done: u32 = if done_ifs { 1 } else { 0 };
        let masked: u32 = xfer_cnt & 0x7FF;
        assert(masked == xfer_cnt % 2048 && masked < 2048) by (bit_vector)
            requires masked == xfer_cnt & 0x7FF;
        pack_ctrl(
            masked,
            config.block_size.bits(),
            done,
            config.src_inc.bits(),
            config.size.bits(),
            config.dst_inc.bits(),
        )
    }

    /// Create a memory-to-memory transfer descriptor.
    pub fn memory_to_memory(src: u32, dst: u32, count: u16, config: &TransferConfig) -> (r: Self)
        ensures
            ctrl_describes(r.ctrl, count, *config, false),
            r.src == src,
            r.dst == dst,
            r.link == 0,
    {
        let ctrl = Self::build_ctrl(count, config, false);
        Descriptor { ctrl, src, dst, link: 0 }
    }

    /// Create a memory-to-peripheral transfer descriptor (the destination register
    /// address does not increment).
    pub fn memory_to_peripheral(src: u32, peripheral_reg: u32, count: u16, config: &TransferConfig) -> (r: Self)
        ensures
            ctrl_describes(r.ctrl, count, TransferConfig { dst_inc: DstInc::Hold, ..*config }, false),
            r.src == src,
            r.dst == peripheral_reg,
            r.link == 0,
    {
        let cfg = TransferConfig { dst_inc: DstInc::Hold, ..*config };
        let ctrl = Self::build_ctrl(count, &cfg, false);
        Descriptor { ctrl, src, dst: peripheral_reg, link: 0 }
    }

    /// Create a peripheral-to-memory transfer descriptor (the source register address
    /// does not increment).
    pub fn peripheral_to_memory(peripheral_reg: u32, dst: u32, count: u16, config: &TransferConfig) -> (r: Self)
        ensures
            ctrl_describes(r.ctrl, count, TransferConfig { src_inc: SrcInc::Hold, ..*config }, false),
            r.src == peripheral_reg,
            r.dst == dst,
            r.link == 0,
    {
        let cfg = TransferConfig { src_inc: SrcInc::Hold, ..*config };
        let ctrl = Self::build_ctrl(count, &cfg, false);
        Descriptor { ctrl, src: peripheral_reg, dst, link: 0 }
    }

    /// Link this descriptor to the descriptor stored at `next_address`: the LINK bit
    /// is set together with the absolute address.
    pub fn link_to(&mut self, next_address: u32)
        ensures
            final(self).link == next_address | 1,
            final(self).ctrl == old(self).ctrl,
            final(self).src == old(self).src,
            final(self).dst == old(self).dst,
    {
        self.link = next_address | 1;
    }
}

} // verus!

verus! {

/// The LDMA and LDMAXBAR register fields used by the driver.
///
/// Write-only command registers (CHDIS, LINKLOAD) hold the value last written.
#[derive(Clone, Copy, Debug, PartialEq, Eq)]
pub struct LdmaRegs {
    /// EN.EN
    pub en: bool,
    /// CTRL.NUMFIXED
    pub numfixed: u8,
    /// CHDIS (last value written).
    pub chdis: u32,
    /// DBGHALT
    pub dbghalt: u32,
    /// REQDIS
    pub reqdis: u32,
    /// IEN
    pub ien: u32,
    /// IF
    pub if_flags: u32,
    /// CHDONE
    pub chdone: u32,
    /// LINKLOAD (last value written).
    pub linkload: u32,
    /// Per-channel CFG.
    pub ch_cfg: [u32; 8],
    /// Per-channel CTRL (loaded by the hardware from the descriptor).
    pub ch_ctrl: [u32; 8],
    /// Per-channel LINK.
    pub ch_link: [u32; 8],
    /// LDMAXBAR per-channel REQSEL.
    pub xbar_reqsel: [u32; 8],
}

/// Handle for an allocated DMA channel.
#[derive(Debug, PartialEq, Eq)]
pub struct Channel {
    /// The channel index.
    pub index: u8,
}

impl Channel {
    /// Get the channel index.
    pub fn index(&self) -> (r: u8)
        ensures
            r == self.index,
    {
        self.index
    }
}

/// Peripheral request signals for LDMA transfers (SOURCESEL | SIGSEL << 4 values).
#[derive(Clone, Copy, Debug, PartialEq, Eq)]
pub struct PeripheralSignal(pub u32);

/// Request signal value: uSART0 TX buffer level.
pub const USART0_TXBL_SIGNAL: u32 = 0x0001_0400;

/// Request signal value: uSART0 RX data available.
pub const USART0_RXDATAV_SIGNAL: u32 = 0x0000_0400;

/// Request signal value: eUSART0 TX FIFO level.
pub const EUSART0_TXFL_SIGNAL: u32 = 0x0010_0c00;

/// Request signal value: eUSART0 RX FIFO level.
pub const EUSART0_RXFL_SIGNAL: u32 = 0x0001_0c00;

/// Request signal value: eUSART1 TX FIFO level.
pub const EUSART1_TXFL_SIGNAL: u32 = 0x0010_0d00;

/// Request signal value: eUSART1 RX FIFO level.
pub const EUSART1_RXFL_SIGNAL: u32 = 0x0001_0d00;

/// Request signal value: i2C0 TX buffer level.
pub const I2C0_TXBL_SIGNAL: u32 = 0x0001_0500;

/// Request signal value: i2C0 RX data available.
pub const I2C0_RXDATAV_SIGNAL: u32 = 0x0000_0500;

/// Request signal value: i2C1 TX buffer level.
pub const I2C1_TXBL_SIGNAL: u32 = 0x0001_0600;

/// Request signal value: i2C1 RX data available.
pub const I2C1_RXDATAV_SIGNAL: u32 = 0x0000_0600;

/// Request signal value: iADC0 scan result available.
pub const IADC0_SCAN_SIGNAL: u32 = 0x0000_0800;

/// Request signal value: iADC0 single result available.
pub const IADC0_SINGLE_SIGNAL: u32 = 0x0001_0800;

/// Request signal value: timer0 overflow/underflow.
pub const TIMER0_UFOF_SIGNAL: u32 = 0x0003_0000;

/// Request signal value: timer1 overflow/underflow.
pub const TIMER1_UFOF_SIGNAL: u32 = 0x0003_0100;

/// Request signal value: mSC write data.
pub const MSC_WDATA_SIGNAL: u32 = 0x0000_0200;

/// The channel bit of channel `ch`.
pub open spec fn ch_bit(ch: int) -> u32 {
    (1u32 << (ch as u32)) as u32
}

/// Whether channel `ch` is marked in use in an allocation mask.
pub open spec fn in_use(mask: u8, ch: u8) -> bool {
    (mask >> ch) & 1 == 1
}

/// Live channels agree with the allocation mask: each one's bit is set, and no two
/// share an index.
pub open spec fn live_channels_ok(mask: u8, live: Seq<u8>) -> bool {
    &&& forall|i: int| 0 <= i < live.len() ==> #[trigger] live[i] < 8 && in_use(mask, live[i])
    &&& forall|i: int, j: int| 0 <= i < j < live.len() ==> #[trigger] live[i] != #[trigger] live[j]
}

/// Allocating keeps live channels distinct: the channel handed out (free before, its
/// bit then set) differs from every live one, and the live ones stay allocated.
pub proof fn lemma_allocate_keeps_channels_distinct(mask: u8, live: Seq<u8>, c: u8)
    requires
        live_channels_ok(mask, live),
        c < 8,
        !in_use(mask, c),
    ensures
        live_channels_ok(mask | (1u8 << c), live.push(c)),
{
    let m2 = mask | (1u8 << c);
    let l2 = live.push(c);
    assert(in_use(m2, c)) by (bit_vector)
        requires m2 == mask | (1u8 << c), c < 8;
    assert forall|i: int| 0 <= i < l2.len() implies #[trigger] l2[i] < 8 && in_use(m2, l2[i]) by {
        if i < live.len() {
            let x = live[i];
            assert(in_use(m2, x)) by (bit_vector)
                requires m2 == mask | (1u8 << c), (mask >> x) & 1 == 1, x < 8, c < 8;
        }
    }
    assert forall|i: int, j: int| 0 <= i < j < l2.len() implies #[trigger] l2[i] != #[trigger] l2[j] by {
        if j == live.len() {
            assert(in_use(mask, live[i]));
        }
    }
}

/// Releasing a live channel keeps the others distinct and allocated.
pub proof fn lemma_release_keeps_channels_distinct(mask: u8, live: Seq<u8>, k: int)
    requires
        live_channels_ok(mask, live),
        0 <= k < live.len(),
    ensures
        live_channels_ok(mask & !(1u8 << live[k]), live.remove(k)),
{
    let c = live[k];
    let m2 = mask & !(1u8 << c);
    let l2 = live.remove(k);
    assert forall|i: int| 0 <= i < l2.len() implies #[trigger] l2[i] < 8 && in_use(m2, l2[i]) by {
        let src: int = if i < k { i } else { i + 1 };
        assert(l2[i] == live[src]);
        assert(live[src] != c);
        let x = live[src];
        assert(in_use(m2, x)) by (bit_vector)
            requires m2 == mask & !(1u8 << c), (mask >> x) & 1 == 1, x < 8, c < 8, x != c;
    }
    assert forall|i: int, j: int| 0 <= i < j < l2.len() implies #[trigger] l2[i] != #[trigger] l2[j] by {
        let si: int = if i < k { i } else { i + 1 };
        let sj: int = if j < k { j } else { j + 1 };
        assert(l2[i] == live[si] && l2[j] == live[sj] && si < sj);
    }
}

/// LDMA driver: channel allocation state and the register effects of its operations.
#[derive(Debug, PartialEq, Eq)]
pub struct Ldma {
    /// Channel allocation mask: bit `n` set while channel `n` is in use.
    pub alloc: u8,
}

impl Ldma {
    /// Initialize the LDMA controller: clocks on, controller enabled, all channels
    /// disabled, only the error interrupt enabled and all flags cleared.
    pub fn new(config: Config, cmu: &mut crate::cmu::CmuRegs, regs: &mut LdmaRegs) -> (r: Self)
        ensures
            r.alloc == 0,
            *final(cmu) == (crate::cmu::CmuRegs {
                clken0: (crate::cmu::Clken0 { ldma: true, ldmaxbar: true, ..old(cmu).clken0 }),
                ..*old(cmu)
            }),
            *final(regs) == (LdmaRegs {
                en: true,
                numfixed: config.num_fixed_priority,
                chdis: 0xFF,
                dbghalt: 0,
                reqdis: 0,
                ien: ERROR_FLAG,
                if_flags: 0xFFFF_FFFF,
                ..*old(regs)
            }),
    {
        cmu.clken0 = crate::cmu::Clken0 { ldma: true, ldmaxbar: true, ..cmu.clken0 };
        *regs = LdmaRegs {
            en: true,
            numfixed: config.num_fixed_priority,
            chdis: 0xFF,
            dbghalt: 0,
            reqdis: 0,
            ien: ERROR_FLAG,
            if_flags: 0xFFFF_FFFF,
            ..*regs
        };
        Ldma { alloc: 0 }
    }

    /// Allocate a DMA channel: the lowest-numbered free channel, or `None` when all
    /// eight are in use.
    pub fn allocate_channel(&mut self) -> (r: Option<Channel>)
        ensures
            r is None <==> old(self).alloc == 0xFF,
            r is None ==> final(self).alloc == old(self).alloc,
            r matches Some(c) ==> {
                &&& c.index < 8
                &&& !in_use(old(self).alloc, c.index)
                &&& forall|k: u8| k < c.index ==> in_use(old(self).alloc, k)
                &&& final(self).alloc == old(self).alloc | (1u8 << c.index)
            },
    {
        let current = self.alloc;
        let mut ch: u8 = 0;
        while ch < 8
            invariant
                ch <= 8,
                current == self.alloc,
                self.alloc == old(self).alloc,
                forall|k: u8| k < ch ==> in_use(current, k),
            decreases 8 - ch,
        {
            if (current >> ch) & 1 == 0 {
                self.alloc = current | (1u8 << ch);
                assert(current != 0xFF) by (bit_vector)
                    requires (current >> ch) & 1 == 0, ch < 8;
                return Some(Channel { index: ch });
            }
            assert(in_use(current, ch)) by (bit_vector)
                requires !((current >> ch) & 1 == 0);
            ch = ch + 1;
        }
        assert(in_use(current, 0) && in_use(current, 1) && in_use(current, 2) && in_use(current, 3));
        assert(in_use(current, 4) && in_use(current, 5) && in_use(current, 6) && in_use(current, 7));
        assert(current == 0xFF) by (bit_vector)
            requires
                (current >> 0u8) & 1 == 1, (current >> 1u8) & 1 == 1, (current >> 2u8) & 1 == 1,
                (current >> 3u8) & 1 == 1, (current >> 4u8) & 1 == 1, (current >> 5u8) & 1 == 1,
                (current >> 6u8) & 1 == 1, (current >> 7u8) & 1 == 1;
        None
    }

    /// Tear the controller down: all channels disabled, interrupts disabled, the
    /// controller switched off.
    pub fn release(self, regs: &mut LdmaRegs)
        ensures
            *final(regs) == (LdmaRegs { chdis: 0xFF, ien: 0, en: false, ..*old(regs) }),
    {
        *regs = LdmaRegs { chdis: 0xFF, ien: 0, en: false, ..*regs };
    }

    /// Free an allocated channel.
    pub fn release_channel(&mut self, channel: Channel)
        requires
            channel.index < 8,
        ensures
            final(self).alloc == old(self).alloc & !(1u8 << channel.index),
    {
        self.alloc = self.alloc & !(1u8 << channel.index);
    }
}


impl Ldma {
    /// Start a transfer on `channel` from the descriptor stored at `desc_address`:
    /// the channel's done flag is cleared, its interrupt flag written and its
    /// interrupt enabled, the descriptor address (word aligned) placed in its LINK
    /// register, its CFG cleared, and LINKLOAD issued for it.
    pub fn start_transfer_with_descriptor(&self, regs: &mut LdmaRegs, channel: &Channel, desc_address: u32) -> (r: Result<(), Error>)
        requires
            channel.index < 8,
        ensures
            r is Ok,
            *final(regs) == (LdmaRegs {
                chdone: old(regs).chdone & !ch_bit(channel.index as int),
                if_flags: ch_bit(channel.index as int),
                ien: old(regs).ien | ch_bit(channel.index as int),
                ch_link: final(regs).ch_link,
                ch_cfg: final(regs).ch_cfg,
                linkload: ch_bit(channel.index as int),
                ..*old(regs)
            }),
            final(regs).ch_link@ == old(regs).ch_link@.update(channel.index as int, desc_address & !3u32),
            final(regs).ch_cfg@ == old(regs).ch_cfg@.update(channel.index as int, 0u32),
    {
        let ch = channel.index as usize;
        let bit: u32 = 1u32 << channel.index;
        let mut link = regs.ch_link;
        link[ch] = desc_address & !3u32;
        let mut cfg = regs.ch_cfg;
        cfg[ch] = 0;
        *regs = LdmaRegs {
            chdone: regs.chdone & !bit,
            if_flags: bit,
            ien: regs.ien | bit,
            ch_link: link,
            ch_cfg: cfg,
            linkload: bit,
            ..*regs
        };
        Ok(())
    }

    /// Check if a channel transfer is complete (its CHDONE bit is set).
    pub fn is_complete(&self, regs: &LdmaRegs, channel: &Channel) -> (r: bool)
        requires
            channel.index < 8,
        ensures
            r == (regs.chdone & ch_bit(channel.index as int) != 0),
    {
        let ch_mask: u32 = 1u32 << channel.index;
        regs.chdone & ch_mask != 0
    }

    /// Stop a DMA transfer on a channel: the channel is disabled and its interrupt
    /// masked.
    pub fn stop(&self, regs: &mut LdmaRegs, channel: &Channel)
        requires
            channel.index < 8,
        ensures
            *final(regs) == (LdmaRegs {
                chdis: ch_bit(channel.index as int),
                ien: old(regs).ien & !ch_bit(channel.index as int),
                ..*old(regs)
            }),
    {
        let ch_mask: u32 = 1u32 << channel.index;
        *regs = LdmaRegs { chdis: ch_mask, ien: regs.ien & !ch_mask, ..*regs };
    }

    /// Get the number of remaining transfer items for a channel: zero once it is
    /// done, otherwise one more than the XFERCNT field of its CTRL register.
    pub fn remaining_count(&self, regs: &LdmaRegs, channel: &Channel) -> (r: u32)
        requires
            channel.index < 8,
        ensures
            regs.chdone & ch_bit(channel.index as int) != 0 ==> r == 0,
            regs.chdone & ch_bit(channel.index as int) == 0 ==> r == ctrl_xfercnt(
                regs.ch_ctrl[channel.index as int],
            ) + 1,
    {
        let ch = channel.index as usize;
        let bit: u32 = 1u32 << channel.index;
        if regs.chdone & bit != 0 {
            return 0;
        }
        let ctrl = regs.ch_ctrl[ch];
        let xfercnt = (ctrl >> 4u32) & 0x7FF;
        assert(xfercnt <= 0x7FF) by (bit_vector)
            requires xfercnt == (ctrl >> 4u32) & 0x7FF;
        xfercnt + 1
    }

    /// Route a peripheral request signal to a channel (LDMAXBAR REQSEL).
    pub fn configure_peripheral_channel(&self, regs: &mut LdmaRegs, channel: &Channel, signal: PeripheralSignal)
        requires
            channel.index < 8,
        ensures
            *final(regs) == (LdmaRegs { xbar_reqsel: final(regs).xbar_reqsel, ..*old(regs) }),
            final(regs).xbar_reqsel@ == old(regs).xbar_reqsel@.update(channel.index as int, signal.0),
    {
        let mut reqsel = regs.xbar_reqsel;
        reqsel[channel.index as usize] = signal.0;
        regs.xbar_reqsel = reqsel;
    }

    /// One check of a waiting transfer: an error flag ends the wait with
    /// `TransferError` (writing the ERROR flag), a set CHDONE bit ends it
    /// successfully (clearing the done bit and writing the channel flag), and
    /// otherwise the transfer is still pending (`None`) and nothing is written.
    pub fn poll_complete(&self, regs: &mut LdmaRegs, channel: &Channel) -> (r: Option<Result<(), Error>>)
        requires
            channel.index < 8,
        ensures
            old(regs).if_flags & ERROR_FLAG != 0 ==> r == Some(Err::<(), Error>(Error::TransferError))
                && *final(regs) == (LdmaRegs { if_flags: ERROR_FLAG, ..*old(regs) }),
            old(regs).if_flags & ERROR_FLAG == 0 && old(regs).chdone & ch_bit(channel.index as int) != 0
                ==> r == Some(Ok::<(), Error>(())) && *final(regs) == (LdmaRegs {
                chdone: old(regs).chdone & !ch_bit(channel.index as int),
                if_flags: ch_bit(channel.index as int),
                ..*old(regs)
            }),
            old(regs).if_flags & ERROR_FLAG == 0 && old(regs).chdone & ch_bit(channel.index as int) == 0
                ==> r is None && *final(regs) == *old(regs),
    {
        let ch_mask: u32 = 1u32 << channel.index;
        if regs.if_flags & ERROR_FLAG != 0 {
            *regs = LdmaRegs { if_flags: ERROR_FLAG, ..*regs };
            return Some(Err(Error::TransferError));
        }
        if regs.chdone & ch_mask != 0 {
            *regs = LdmaRegs { chdone: regs.chdone & !ch_mask, if_flags: ch_mask, ..*regs };
            return Some(Ok(()));
        }
        None
    }

    /// Validate a memory-to-memory transfer of `src_len` elements of `elem_size`
    /// bytes into `dst_len` elements and build its descriptor.
    ///
    /// The lengths must match, be non-zero and at most 2048, and the element size must
    /// be 1, 2 or 4 bytes; otherwise the transfer is refused with `CountTooLarge`.
    pub fn memory_transfer_descriptor(
        src_addr: u32,
        src_len: usize,
        dst_addr: u32,
        dst_len: usize,
        elem_size: usize,
    ) -> (r: Result<Descriptor, Error>)
        ensures
            (src_len != dst_len || src_len == 0 || src_len > MAX_TRANSFER_COUNT || !(elem_size == 1
                || elem_size == 2 || elem_size == 4)) <==> r == Err::<Descriptor, Error>(Error::CountTooLarge),
            !(src_len != dst_len || src_len == 0 || src_len > MAX_TRANSFER_COUNT || !(elem_size == 1
                || elem_size == 2 || elem_size == 4)) ==> r is Ok,
            r matches Ok(d) ==> d.src == src_addr && d.dst == dst_addr && d.link == 0 && ctrl_describes(
                d.ctrl,
                src_len as u16,
                TransferConfig {
                    size: if elem_size == 1 {
                        TransferSize::Byte
                    } else if elem_size == 2 {
                        TransferSize::HalfWord
                    } else {
                        TransferSize::Word
                    },
                    ..TransferConfig::spec_default()
                },
                false,
            ),
    {
        if src_len != dst_len || src_len == 0 {
            return Err(Error::CountTooLarge);
        }
        if src_len > MAX_TRANSFER_COUNT {
            return Err(Error::CountTooLarge);
        }
        let size = match elem_size {
            1 => TransferSize::Byte,
            2 => TransferSize::HalfWord,
            4 => TransferSize::Word,
            _ => return Err(Error::CountTooLarge),
        };
        let config = TransferConfig { size, ..TransferConfig::default() };
        Ok(Descriptor::memory_to_memory(src_addr, dst_addr, src_len as u16, &config))
    }

    /// Blocking memory-to-memory transfer of the elements of `src`, which lie at
    /// `src_addr`, into `dst`, which lies at `dst_addr`. The request is checked and
    /// described as by [`memory_transfer_descriptor`](Self::memory_transfer_descriptor)
    /// with the element size of `T` (a refused one writes no register and leaves `dst`
    /// alone); `place` stores the descriptor in memory and returns its address; the
    /// transfer is started on `channel` from it as by
    /// [`start_transfer_with_descriptor`](Self::start_transfer_with_descriptor); then
    /// `settle` waits until the controller reports the channel done or an error and
    /// returns the CHDONE and IF values it then reads, and the outcome is decided as by
    /// [`poll_complete`](Self::poll_complete). On success `dst` holds the elements of
    /// `src`, as the controller leaves them.
    pub fn transfer_blocking<T: Copy, P: Fn(Descriptor) -> u32, W: Fn() -> (u32, u32)>(
        &self,
        regs: &mut LdmaRegs,
        channel: &Channel,
        src_addr: u32,
        src: &[T],
        dst_addr: u32,
        dst: &mut [T],
        place: P,
        settle: W,
    ) -> (r: Result<(), Error>)
        requires
            channel.index < 8,
            forall|d: Descriptor| call_requires(place, (d,)),
            settles(settle, channel.index),
        ensures
            spec_transfer_refused(src@.len() as usize, old(dst)@.len() as usize, size_of::<T>() as usize) <==> r
                == Err::<(), Error>(Error::CountTooLarge),
            spec_transfer_refused(src@.len() as usize, old(dst)@.len() as usize, size_of::<T>() as usize)
                ==> *final(regs) == *old(regs) && final(dst)@ == old(dst)@,
            final(dst)@.len() == old(dst)@.len(),
            r is Ok ==> final(dst)@ == src@,
            !spec_transfer_refused(src@.len() as usize, old(dst)@.len() as usize, size_of::<T>() as usize) ==> exists|
                d: Descriptor,
                a: u32,
                done: u32,
                flags: u32,
            |
                #![trigger call_ensures(place, (d,), a), call_ensures(settle, (), (done, flags))]
                call_ensures(place, (d,), a) && call_ensures(settle, (), (done, flags))
                && d.src == src_addr && d.dst == dst_addr && d.link == 0
                && ctrl_describes(d.ctrl, src@.len() as u16, spec_elem_config(size_of::<T>() as usize), false)
                && *final(regs) == spec_settled(
                    LdmaRegs { chdone: done, if_flags: flags, ..spec_started(*old(regs), channel.index, a) },
                    channel.index,
                )
                && r == (if flags & ERROR_FLAG != 0 { Err::<(), Error>(Error::TransferError) } else { Ok::<(), Error>(()) }),
    {
        let src_len = src.len();
        let dst_len = dst.len();
        let elem_size = core::mem::size_of::<T>();
        let desc = match Self::memory_transfer_descriptor(src_addr, src_len, dst_addr, dst_len, elem_size) {
            Ok(d) => d,
            Err(e) => return Err(e),
        };
        let a = place(desc);
        let ghost r0 = *regs;
        let _ = self.start_transfer_with_descriptor(regs, channel, a);
        proof {
            let e = spec_started(r0, channel.index, a);
            assert(regs.ch_link =~= e.ch_link);
            assert(regs.ch_cfg =~= e.ch_cfg);
        }
        let (done, flags) = settle();
        *regs = LdmaRegs { chdone: done, if_flags: flags, ..*regs };
        let ghost r1 = *regs;
        let outcome = self.poll_complete(regs, channel);
        match outcome {
            Some(Ok(())) => {
                let mut k: usize = 0;
                while k < dst.len()
                    invariant
                        dst@.len() == src@.len(),
                        k <= dst@.len(),
                        forall|m: int| 0 <= m < k ==> dst@[m] == src@[m],
                    decreases dst.len() - k,
                {
                    dst[k] = src[k];
                    k = k + 1;
                }
                proof {
                    assert(dst@ =~= src@);
                }
                Ok(())
            },
            Some(Err(e)) => Err(e),
            None => {
                proof {
                    assert(call_ensures(settle, (), (done, flags)));
                    assert(false);
                }
                Err(Error::TransferError)
            },
        }
    }
}

/// A blocking wait ends: every (CHDONE, IF) pair that `settle` returns has the
/// channel's done bit or the error flag set.
pub open spec fn settles<W: Fn() -> (u32, u32)>(settle: W, ch: u8) -> bool {
    &&& call_requires(settle, ())
    &&& forall|done: u32, flags: u32|
        #[trigger] call_ensures(settle, (), (done, flags)) ==> flags & ERROR_FLAG != 0 || done & ch_bit(ch as int) != 0
}

/// A memory-to-memory request is refused: lengths differ, are zero or exceed
/// `MAX_TRANSFER_COUNT`, or the element size is not 1, 2 or 4 bytes.
pub open spec fn spec_transfer_refused(src_len: usize, dst_len: usize, elem_size: usize) -> bool {
    src_len != dst_len || src_len == 0 || src_len > MAX_TRANSFER_COUNT || !(elem_size == 1 || elem_size == 2
        || elem_size == 4)
}

/// The transfer configuration for elements of `elem_size` bytes.
pub open spec fn spec_elem_config(elem_size: usize) -> TransferConfig {
    TransferConfig {
        size: if elem_size == 1 {
            TransferSize::Byte
        } else if elem_size == 2 {
            TransferSize::HalfWord
        } else {
            TransferSize::Word
        },
        ..TransferConfig::spec_default()
    }
}

/// The LDMA registers after a transfer is started on channel `ch` from the descriptor
/// at `desc_address`.
pub open spec fn spec_started(regs: LdmaRegs, ch: u8, desc_address: u32) -> LdmaRegs {
    LdmaRegs {
        chdone: regs.chdone & !ch_bit(ch as int),
        if_flags: ch_bit(ch as int),
        ien: regs.ien | ch_bit(ch as int),
        ch_link: vstd::array::spec_array_update(regs.ch_link, ch as int, desc_address & !3u32),
        ch_cfg: vstd::array::spec_array_update(regs.ch_cfg, ch as int, 0u32),
        linkload: ch_bit(ch as int),
        ..regs
    }
}

/// The LDMA registers after a finished wait on channel `ch` is acknowledged: the
/// ERROR flag written on an error, else the done bit cleared and the channel flag
/// written.
pub open spec fn spec_settled(regs: LdmaRegs, ch: u8) -> LdmaRegs {
    if regs.if_flags & ERROR_FLAG != 0 {
        LdmaRegs { if_flags: ERROR_FLAG, ..regs }
    } else {
        LdmaRegs { chdone: regs.chdone & !ch_bit(ch as int), if_flags: ch_bit(ch as int), ..regs }
    }
}

/// Which channel wakers an LDMA interrupt wakes: bit `n` of the result is set when
/// channel `n` completed, and every bit is set on an error.
pub open spec fn spec_wake_mask(flags: u32) -> u8 {
    if flags & ERROR_FLAG != 0 {
        0xFF
    } else {
        (flags & 0xFF) as u8
    }
}

/// LDMA interrupt handling: every pending flag that was read is cleared and the set
/// of channels whose wakers must be woken is returned.
pub fn on_interrupt(regs: &mut LdmaRegs) -> (r: u8)
    ensures
        r == spec_wake_mask(old(regs).if_flags),
        *final(regs) == (LdmaRegs { if_flags: 0, ..*old(regs) }),
{
    let flags = regs.if_flags;
    // IF_CLR: the flags read are cleared.
    regs.if_flags = regs.if_flags & !flags;
    assert(flags & !flags == 0) by (bit_vector);
    if flags & ERROR_FLAG != 0 {
        0xFF
    } else {
        (flags & 0xFF) as u8
    }
}

/// A channel loaded from a descriptor built for `count` units (1 to 2048) that has
/// not finished reports exactly `count` remaining units.
pub proof fn lemma_remaining_count_of_descriptor(ctrl: u32, count: u16, config: TransferConfig)
    requires
        1 <= count <= 2048,
        ctrl_describes(ctrl, count, config, false),
    ensures
        ctrl_xfercnt(ctrl) + 1 == count,
{
}

/// Releasing a freshly allocated channel restores the allocation state.
pub proof fn lemma_allocate_release_roundtrip(mask: u8, ch: u8)
    requires
        ch < 8,
        !in_use(mask, ch),
    ensures
        (mask | (1u8 << ch)) & !(1u8 << ch) == mask,
        in_use(mask | (1u8 << ch), ch),
{
    assert((mask | (1u8 << ch)) & !(1u8 << ch) == mask && ((mask | (1u8 << ch)) >> ch) & 1 == 1) by (bit_vector)
        requires ch < 8, !((mask >> ch) & 1 == 1);
}

/// The transfer sizes in declaration order: byte, half-word, word.
pub open spec fn transfer_size_order() -> Seq<TransferSize> {
    seq![
        TransferSize::Byte,
        TransferSize::HalfWord,
        TransferSize::Word,
    ]
}

/// Transfer sizes are encoded by their width: the k-th size in declaration order
/// (byte, half-word, word) moves 2^k bytes per unit and has SIZE value k; no two sizes
/// share a value.
pub proof fn lemma_transfer_size_encoding(s: TransferSize)
    ensures
        forall|k: int|
            0 <= k < 3 ==> ((#[trigger] transfer_size_order()[k]).spec_bits() == k),
        transfer_size_order().contains(s),
        forall|q: TransferSize| #[trigger] q.spec_bits() == s.spec_bits() ==> q == s,
{
    let o = transfer_size_order();
    assert forall|k: int| 0 <= k < 3 implies (o[k].spec_bits() == k) by {
        if k == 0 {
            assert(o[0] == TransferSize::Byte);
        } else if k == 1 {
            assert(o[1] == TransferSize::HalfWord);
        } else if k == 2 {
            assert(o[2] == TransferSize::Word);
        }
    }
    match s {
        TransferSize::Byte => assert(o[0] == s),
        TransferSize::HalfWord => assert(o[1] == s),
        TransferSize::Word => assert(o[2] == s),
    }
}

/// The source increments in declaration order: one, two, four units, hold.
pub open spec fn src_inc_order() -> Seq<SrcInc> {
    seq![
        SrcInc::One,
        SrcInc::Two,
        SrcInc::Four,
        SrcInc::Hold,
    ]
}

/// Source increments are encoded by their step: the k-th increment in declaration
/// order (one, two, four units, then hold) has SRCINC value k, so an incrementing
/// setting steps 2^SRCINC units and holding the address is SRCINC 3; no two settings
/// share a value.
pub proof fn lemma_src_inc_encoding(i: SrcInc)
    ensures
        forall|k: int|
            0 <= k < 4 ==> ((#[trigger] src_inc_order()[k]).spec_bits() == k),
        src_inc_order().contains(i),
        forall|q: SrcInc| #[trigger] q.spec_bits() == i.spec_bits() ==> q == i,
{
    let o = src_inc_order();
    assert forall|k: int| 0 <= k < 4 implies (o[k].spec_bits() == k) by {
        if k == 0 {
            assert(o[0] == SrcInc::One);
        } else if k == 1 {
            assert(o[1] == SrcInc::Two);
        } else if k == 2 {
            assert(o[2] == SrcInc::Four);
        } else if k == 3 {
            assert(o[3] == SrcInc::Hold);
        }
    }
    match i {
        SrcInc::One => assert(o[0] == i),
        SrcInc::Two => assert(o[1] == i),
        SrcInc::Four => assert(o[2] == i),
        SrcInc::Hold => assert(o[3] == i),
    }
}

/// The destination increments in declaration order: one, two, four units, hold.
pub open spec fn dst_inc_order() -> Seq<DstInc> {
    seq![
        DstInc::One,
        DstInc::Two,
        DstInc::Four,
        DstInc::Hold,
    ]
}

/// Destination increments are encoded by their step: the k-th increment in
/// declaration order (one, two, four units, then hold) has DSTINC value k, so an
/// incrementing setting steps 2^DSTINC units and holding the address is DSTINC 3; no
/// two settings share a value.
pub proof fn lemma_dst_inc_encoding(i: DstInc)
    ensures
        forall|k: int|
            0 <= k < 4 ==> ((#[trigger] dst_inc_order()[k]).spec_bits() == k),
        dst_inc_order().contains(i),
        forall|q: DstInc| #[trigger] q.spec_bits() == i.spec_bits() ==> q == i,
{
    let o = dst_inc_order();
    assert forall|k: int| 0 <= k < 4 implies (o[k].spec_bits() == k) by {
        if k == 0 {
            assert(o[0] == DstInc::One);
        } else if k == 1 {
            assert(o[1] == DstInc::Two);
        } else if k == 2 {
            assert(o[2] == DstInc::Four);
        } else if k == 3 {
            assert(o[3] == DstInc::Hold);
        }
    }
    match i {
        DstInc::One => assert(o[0] == i),
        DstInc::Two => assert(o[1] == i),
        DstInc::Four => assert(o[2] == i),
        DstInc::Hold => assert(o[3] == i),
    }
}

/// The block sizes in declaration order, from one unit to the whole transfer.
pub open spec fn block_size_order() -> Seq<BlockSize> {
    seq![
        BlockSize::Unit1,
        BlockSize::Unit2,
        BlockSize::Unit3,
        BlockSize::Unit4,
        BlockSize::Unit6,
        BlockSize::Unit8,
        BlockSize::Unit16,
        BlockSize::Unit32,
        BlockSize::Unit64,
        BlockSize::Unit128,
        BlockSize::Unit256,
        BlockSize::Unit512,
        BlockSize::Unit1024,
        BlockSize::All,
    ]
}

/// Block sizes are encoded in declaration order: the k-th block size has BLOCKSIZE
/// value k, except locking arbitration for the whole transfer, which is 15; no two
/// block sizes share a value.
pub proof fn lemma_block_size_encoding(b: BlockSize)
    ensures
        forall|k: int|
            0 <= k < 14 ==> ((#[trigger] block_size_order()[k]).spec_bits() == (if k < 13 { k } else { 15 })),
        block_size_order().contains(b),
        forall|q: BlockSize| #[trigger] q.spec_bits() == b.spec_bits() ==> q == b,
{
    let o = block_size_order();
    assert forall|k: int| 0 <= k < 14 implies (o[k].spec_bits() == (if k < 13 { k } else { 15 })) by {
        if k == 0 {
            assert(o[0] == BlockSize::Unit1);
        } else if k == 1 {
            assert(o[1] == BlockSize::Unit2);
        } else if k == 2 {
            assert(o[2] == BlockSize::Unit3);
        } else if k == 3 {
            assert(o[3] == BlockSize::Unit4);
        } else if k == 4 {
            assert(o[4] == BlockSize::Unit6);
        } else if k == 5 {
            assert(o[5] == BlockSize::Unit8);
        } else if k == 6 {
            assert(o[6] == BlockSize::Unit16);
        } else if k == 7 {
            assert(o[7] == BlockSize::Unit32);
        } else if k == 8 {
            assert(o[8] == BlockSize::Unit64);
        } else if k == 9 {
            assert(o[9] == BlockSize::Unit128);
        } else if k == 10 {
            assert(o[10] == BlockSize::Unit256);
        } else if k == 11 {
            assert(o[11] == BlockSize::Unit512);
        } else if k == 12 {
            assert(o[12] == BlockSize::Unit1024);
        } else if k == 13 {
            assert(o[13] == BlockSize::All);
        }
    }
    match b {
        BlockSize::Unit1 => assert(o[0] == b),
        BlockSize::Unit2 => assert(o[1] == b),
        BlockSize::Unit3 => assert(o[2] == b),
        BlockSize::Unit4 => assert(o[3] == b),
        BlockSize::Unit6 => assert(o[4] == b),
        BlockSize::Unit8 => assert(o[5] == b),
        BlockSize::Unit16 => assert(o[6] == b),
        BlockSize::Unit32 => assert(o[7] == b),
        BlockSize::Unit64 => assert(o[8] == b),
        BlockSize::Unit128 => assert(o[9] == b),
        BlockSize::Unit256 => assert(o[10] == b),
        BlockSize::Unit512 => assert(o[11] == b),
        BlockSize::Unit1024 => assert(o[12] == b),
        BlockSize::All => assert(o[13] == b),
    }
}

/// A memory-to-peripheral descriptor holds the destination (the peripheral register):
/// its DSTINC field is 3, whatever the configuration it was built from.
pub proof fn lemma_memory_to_peripheral_holds_destination(ctrl: u32, count: u16, config: TransferConfig)
    requires
        ctrl_describes(ctrl, count, TransferConfig { dst_inc: DstInc::Hold, ..config }, false),
    ensures
        (ctrl >> 30u32) & 3 == 3,
{
}

/// A peripheral-to-memory descriptor holds the source (the peripheral register): its
/// SRCINC field is 3, whatever the configuration it was built from.
pub proof fn lemma_peripheral_to_memory_holds_source(ctrl: u32, count: u16, config: TransferConfig)
    requires
        ctrl_describes(ctrl, count, TransferConfig { src_inc: SrcInc::Hold, ..config }, false),
    ensures
        (ctrl >> 26u32) & 3 == 3,
{
}

} // verus!
