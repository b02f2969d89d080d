//! DMA engine: address classification, flow-control derivation, and the
//! single-block transfer protocol of the six-channel DMA controller.
//!
//! The controller's registers are explicit fields of [`Dmac`].  The one
//! register the hardware writes on its own — the channel-enable word, whose
//! bits fall as transfers drain — is read through a [`StatusScript`], so the
//! busy-wait contracts can state exactly how far a wait advances.  Every
//! command write is also logged in [`Dmac::events`], which is what pins down
//! the disable-before-program ordering.

use vstd::prelude::*;

verus! {

use crate::script::{StatusScript, PollCond, has_hit, first_hit, after_hit, cond_holds};
use crate::sysctl::Sysctl;

/// One of the six DMA channels.
#[derive(Clone, Copy, PartialEq, Eq, Structural, Debug)]
pub enum Channel {
    Ch0,
    Ch1,
    Ch2,
    Ch3,
    Ch4,
    Ch5,
}

impl Channel {
    /// The channel's index in the register file.
    pub open spec fn spec_num(self) -> int {
        match self {
            Channel::Ch0 => 0,
            Channel::Ch1 => 1,
            Channel::Ch2 => 2,
            Channel::Ch3 => 3,
            Channel::Ch4 => 4,
            Channel::Ch5 => 5,
        }
    }

    /// The channel's index in the register file.
    pub fn num(self) -> (n: usize)
        ensures
            n == self.spec_num(),
    {
        match self {
            Channel::Ch0 => 0,
            Channel::Ch1 => 1,
            Channel::Ch2 => 2,
            Channel::Ch3 => 3,
            Channel::Ch4 => 4,
            Channel::Ch5 => 5,
        }
    }
}

/// Classification of a transfer endpoint address.
#[derive(Clone, Copy, PartialEq, Eq, Structural, Debug)]
pub enum MemType {
    Peripheral,
    Memory,
}

/// Start of the cached SRAM window.
pub const MEM_BASE: u64 = 0x8000_0000;

/// Length of the cached SRAM window: six mebibytes.
pub const MEM_LEN: u64 = 0x0060_0000;

/// Start of the uncached SRAM alias window.
pub const MEM_NO_CACHE_BASE: u64 = 0x4000_0000;

/// Length of the uncached SRAM alias window: eight mebibytes.
pub const MEM_NO_CACHE_LEN: u64 = 0x0080_0000;

/// The one peripheral-held address that behaves as memory.
pub const MEM_ALIAS_ADDR: u64 = 0x5045_0040;

/// The fixed address-range rule that classifies a physical address.
pub open spec fn address_class(addr: u64) -> MemType {
    if (MEM_BASE <= addr < MEM_BASE + MEM_LEN) || (MEM_NO_CACHE_BASE <= addr < MEM_NO_CACHE_BASE
        + MEM_NO_CACHE_LEN) || addr == MEM_ALIAS_ADDR {
        MemType::Memory
    } else {
        MemType::Peripheral
    }
}

/// Classify a physical address as a memory buffer or a peripheral register.
pub fn is_memory(addr: u64) -> (t: MemType)
    ensures
        t == address_class(addr),
{
    if (addr >= MEM_BASE && addr < MEM_BASE + MEM_LEN) || (addr >= MEM_NO_CACHE_BASE && addr
        < MEM_NO_CACHE_BASE + MEM_NO_CACHE_LEN) || addr == MEM_ALIAS_ADDR {
        MemType::Memory
    } else {
        MemType::Peripheral
    }
}

/// An address is classified as memory exactly when it lies in one of the two
/// SRAM windows or is the one aliased peripheral address; everything else is
/// a peripheral.
pub proof fn lemma_address_classification(addr: u64)
    ensures
        address_class(addr) is Memory <==> (MEM_BASE <= addr < MEM_BASE + MEM_LEN) || (
        MEM_NO_CACHE_BASE <= addr < MEM_NO_CACHE_BASE + MEM_NO_CACHE_LEN) || addr
            == MEM_ALIAS_ADDR,
        address_class(addr) is Peripheral <==> !((MEM_BASE <= addr < MEM_BASE + MEM_LEN) || (
        MEM_NO_CACHE_BASE <= addr < MEM_NO_CACHE_BASE + MEM_NO_CACHE_LEN) || addr
            == MEM_ALIAS_ADDR),
{
}

/// Hardware flow-control mode of one transfer.
#[derive(Clone, Copy, PartialEq, Eq, Structural, Debug)]
pub enum FlowControl {
    Mem2MemDma,
    Mem2PrfDma,
    Prf2MemDma,
    Prf2PrfDma,
}

/// Handshake interface select of one transfer endpoint.
#[derive(Clone, Copy, PartialEq, Eq, Structural, Debug)]
pub enum HandshakeSel {
    Hardware,
    Software,
}

/// Address increment mode of one transfer endpoint.
#[derive(Clone, Copy, PartialEq, Eq, Structural, Debug)]
pub enum Inc {
    Increment,
    NoChange,
}

/// Width of one transfer beat.
#[derive(Clone, Copy, PartialEq, Eq, Structural, Debug)]
pub enum TrWidth {
    Bit8,
    Bit16,
    Bit32,
    Bit64,
}

/// Burst length of one transfer endpoint, in beats.
#[derive(Clone, Copy, PartialEq, Eq, Structural, Debug)]
pub enum Msize {
    Item1,
    Item4,
    Item8,
    Item16,
    Item32,
}

/// AXI master port driving one transfer endpoint.
#[derive(Clone, Copy, PartialEq, Eq, Structural, Debug)]
pub enum MasterSelect {
    AxiMaster1,
    AxiMaster2,
}

/// The fixed mapping from endpoint classes to the flow-control mode.
pub open spec fn spec_flow_control(src: MemType, dst: MemType) -> FlowControl {
    match (src, dst) {
        (MemType::Memory, MemType::Memory) => FlowControl::Mem2MemDma,
        (MemType::Memory, MemType::Peripheral) => FlowControl::Mem2PrfDma,
        (MemType::Peripheral, MemType::Memory) => FlowControl::Prf2MemDma,
        (MemType::Peripheral, MemType::Peripheral) => FlowControl::Prf2PrfDma,
    }
}

/// The fixed mapping from an endpoint class to its handshake select: memory
/// endpoints are paced by software, peripheral endpoints by their hardware
/// request line.
pub open spec fn spec_handshake(t: MemType) -> HandshakeSel {
    match t {
        MemType::Memory => HandshakeSel::Software,
        MemType::Peripheral => HandshakeSel::Hardware,
    }
}

/// Derive the flow-control mode from the two endpoint classes.
pub fn flow_control_for(src: MemType, dst: MemType) -> (f: FlowControl)
    ensures
        f == spec_flow_control(src, dst),
{
    match (src, dst) {
        (MemType::Memory, MemType::Memory) => FlowControl::Mem2MemDma,
        (MemType::Memory, MemType::Peripheral) => FlowControl::Mem2PrfDma,
        (MemType::Peripheral, MemType::Memory) => FlowControl::Prf2MemDma,
        (MemType::Peripheral, MemType::Peripheral) => FlowControl::Prf2PrfDma,
    }
}

/// Derive the handshake select from one endpoint class.
pub fn handshake_for(t: MemType) -> (h: HandshakeSel)
    ensures
        h == spec_handshake(t),
{
    match t {
        MemType::Memory => HandshakeSel::Software,
        MemType::Peripheral => HandshakeSel::Hardware,
    }
}

/// The four endpoint-class pairs map to the four distinct flow-control
/// modes, and each class to its handshake select, as fixed by the hardware.
pub proof fn lemma_flow_control_mapping()
    ensures
        spec_flow_control(MemType::Memory, MemType::Memory) == FlowControl::Mem2MemDma,
        spec_flow_control(MemType::Memory, MemType::Peripheral) == FlowControl::Mem2PrfDma,
        spec_flow_control(MemType::Peripheral, MemType::Memory) == FlowControl::Prf2MemDma,
        spec_flow_control(MemType::Peripheral, MemType::Peripheral) == FlowControl::Prf2PrfDma,
        spec_handshake(MemType::Memory) == HandshakeSel::Software,
        spec_handshake(MemType::Peripheral) == HandshakeSel::Hardware,
{
}

/// The per-channel register block.
#[derive(Clone, Copy, PartialEq, Eq, Structural, Debug)]
pub struct ChannelRegs {
    /// Flow-control mode of the programmed transfer.
    pub flow_control: FlowControl,
    /// Handshake select of the source endpoint.
    pub hs_sel_src: HandshakeSel,
    /// Handshake select of the destination endpoint.
    pub hs_sel_dst: HandshakeSel,
    /// Hardware handshake interface of the source.
    pub src_per: u8,
    /// Hardware handshake interface of the destination.
    pub dst_per: u8,
    /// Multi-block type of the source: zero is single-block.
    pub src_multblk: u8,
    /// Multi-block type of the destination: zero is single-block.
    pub dst_multblk: u8,
    /// Source address register.
    pub sar: u64,
    /// Destination address register.
    pub dar: u64,
    /// AXI master of the source endpoint.
    pub src_master: MasterSelect,
    /// AXI master of the destination endpoint.
    pub dst_master: MasterSelect,
    /// Source address increment mode.
    pub src_inc: Inc,
    /// Destination address increment mode.
    pub dst_inc: Inc,
    /// Source beat width.
    pub src_tr_width: TrWidth,
    /// Destination beat width.
    pub dst_tr_width: TrWidth,
    /// Source burst length.
    pub src_msize: Msize,
    /// Destination burst length.
    pub dst_msize: Msize,
    /// Block length register: holds one less than the block length.
    pub block_ts: u32,
    /// Pending interrupt-status bits of the channel.
    pub int_status: u32,
}

impl ChannelRegs {
    /// The block as it reads after an engine reset.
    pub open spec fn spec_cleared() -> ChannelRegs {
        ChannelRegs {
            flow_control: FlowControl::Mem2MemDma,
            hs_sel_src: HandshakeSel::Hardware,
            hs_sel_dst: HandshakeSel::Hardware,
            src_per: 0,
            dst_per: 0,
            src_multblk: 0,
            dst_multblk: 0,
            sar: 0,
            dar: 0,
            src_master: MasterSelect::AxiMaster1,
            dst_master: MasterSelect::AxiMaster1,
            src_inc: Inc::Increment,
            dst_inc: Inc::Increment,
            src_tr_width: TrWidth::Bit8,
            dst_tr_width: TrWidth::Bit8,
            src_msize: Msize::Item1,
            dst_msize: Msize::Item1,
            block_ts: 0,
            int_status: 0,
        }
    }

    /// Build the reset-value block.
    pub fn cleared() -> (r: ChannelRegs)
        ensures
            r == ChannelRegs::spec_cleared(),
    {
        ChannelRegs {
            flow_control: FlowControl::Mem2MemDma,
            hs_sel_src: HandshakeSel::Hardware,
            hs_sel_dst: HandshakeSel::Hardware,
            src_per: 0,
            dst_per: 0,
            src_multblk: 0,
            dst_multblk: 0,
            sar: 0,
            dar: 0,
            src_master: MasterSelect::AxiMaster1,
            dst_master: MasterSelect::AxiMaster1,
            src_inc: Inc::Increment,
            dst_inc: Inc::Increment,
            src_tr_width: TrWidth::Bit8,
            dst_tr_width: TrWidth::Bit8,
            src_msize: Msize::Item1,
            dst_msize: Msize::Item1,
            block_ts: 0,
            int_status: 0,
        }
    }
}

/// How one channel's registers read after a transfer has been programmed:
/// addresses as given, flow control and handshake selects derived from the
/// endpoint classes, the channel's own hardware handshake interface on both
/// sides, single-block mode, the fixed AXI master split, the caller's
/// increment, width and burst settings, and the block length less one.
pub open spec fn spec_programmed(
    ch_num: int,
    src: u64,
    dst: u64,
    src_inc: Inc,
    dst_inc: Inc,
    trans_width: TrWidth,
    burst_size: Msize,
    block_size: u32,
    int_status: u32,
) -> ChannelRegs {
    ChannelRegs {
        flow_control: spec_flow_control(address_class(src), address_class(dst)),
        hs_sel_src: spec_handshake(address_class(src)),
        hs_sel_dst: spec_handshake(address_class(dst)),
        src_per: ch_num as u8,
        dst_per: ch_num as u8,
        src_multblk: 0,
        dst_multblk: 0,
        sar: src,
        dar: dst,
        src_master: MasterSelect::AxiMaster1,
        dst_master: MasterSelect::AxiMaster2,
        src_inc,
        dst_inc,
        src_tr_width: trans_width,
        dst_tr_width: trans_width,
        src_msize: burst_size,
        dst_msize: burst_size,
        block_ts: (block_size - 1) as u32,
        int_status,
    }
}

/// One command write of the DMA driver, in program order.
#[derive(Clone, Copy, PartialEq, Eq, Structural, Debug)]
pub enum DmacEvent {
    /// Whole-engine reset.
    Reset,
    /// Clear of the engine-level interrupt status.
    ClearCommonInterrupt,
    /// Clear of one channel's interrupt status.
    ClearChannelInterrupt(usize),
    /// Engine enabled.
    EngineEnable,
    /// Engine disabled.
    EngineDisable,
    /// All channel-enable bits cleared at once.
    AllChannelsDisabled,
    /// One channel enabled.
    ChannelEnable(usize),
    /// One channel disabled.
    ChannelDisable(usize),
    /// One channel's transfer parameters written.
    ChannelProgrammed(usize),
}

/// The DMA engine.
pub struct Dmac {
    /// Engine enable bit of the configuration register.
    pub enabled: bool,
    /// Engine interrupt enable bit of the configuration register.
    pub int_enabled: bool,
    /// Channel-enable word as last written by the driver: bit `n` enables
    /// channel `n`, bit `n + 8` is its write-enable strobe.
    pub chen: u32,
    /// The six per-channel register blocks.
    pub channels: Vec<ChannelRegs>,
    /// The hardware's answers to polled reads of the channel-enable word.
    pub status: StatusScript,
    /// Log of the driver's command writes.
    pub events: Vec<DmacEvent>,
}

impl Dmac {
    /// Six channels, and a consistent poll cursor.
    pub open spec fn wf(self) -> bool {
        self.channels@.len() == 6 && self.status.wf()
    }

    /// The poll condition under which a channel reads as idle: its
    /// channel-enable bit has fallen.
    pub open spec fn idle_cond(ch: Channel) -> PollCond {
        PollCond::MaskedEq(1u32 << ch.spec_num() as u32, 0)
    }

    /// A powered-off engine: everything disabled and cleared, nothing
    /// queued, nothing logged.
    pub fn new() -> (d: Dmac)
        ensures
            d.wf(),
            !d.enabled && !d.int_enabled,
            d.chen == 0,
            forall|i: int| 0 <= i < 6 ==> d.channels@[i] == ChannelRegs::spec_cleared(),
            d.status.pending() == Seq::<u32>::empty(),
            d.status.reads@ == Seq::<u32>::empty(),
            d.events@ == Seq::<DmacEvent>::empty(),
    {
        let mut channels: Vec<ChannelRegs> = Vec::new();
        channels.push(ChannelRegs::cleared());
        channels.push(ChannelRegs::cleared());
        channels.push(ChannelRegs::cleared());
        channels.push(ChannelRegs::cleared());
        channels.push(ChannelRegs::cleared());
        channels.push(ChannelRegs::cleared());
        Dmac {
            enabled: false,
            int_enabled: false,
            chen: 0,
            channels,
            status: StatusScript::new(),
            events: Vec::new(),
        }
    }

    /// Reset the whole engine: every register returns to its reset value.
    /// The model completes the reset handshake synchronously.
    fn reset(&mut self)
        requires
            old(self).wf(),
        ensures
            final(self).wf(),
            !final(self).enabled && !final(self).int_enabled,
            final(self).chen == 0,
            forall|i: int| 0 <= i < 6 ==> final(self).channels@[i] == ChannelRegs::spec_cleared(),
            final(self).status == old(self).status,
            final(self).events@ == old(self).events@.push(DmacEvent::Reset),
    {
        self.enabled = false;
        self.int_enabled = false;
        self.chen = 0;
        let mut channels: Vec<ChannelRegs> = Vec::new();
        channels.push(ChannelRegs::cleared());
        channels.push(ChannelRegs::cleared());
        channels.push(ChannelRegs::cleared());
        channels.push(ChannelRegs::cleared());
        channels.push(ChannelRegs::cleared());
        channels.push(ChannelRegs::cleared());
        self.channels = channels;
        self.events.push(DmacEvent::Reset);
    }

    /// Clear the engine-level interrupt status.
    fn clear_common_interrupt(&mut self)
        requires
            old(self).wf(),
        ensures
            final(self).wf(),
            final(self).events@ == old(self).events@.push(DmacEvent::ClearCommonInterrupt),
            *final(self) == (Dmac { events: final(self).events, ..*old(self) }),
    {
        self.events.push(DmacEvent::ClearCommonInterrupt);
    }

    /// Clear one channel's interrupt status.
    fn channel_interrupt_clear(&mut self, ch: Channel)
        requires
            old(self).wf(),
        ensures
            final(self).wf(),
            final(self).channels@ == old(self).channels@.update(
                ch.spec_num(),
                (ChannelRegs { int_status: 0, ..old(self).channels@[ch.spec_num()] }),
            ),
            final(self).events@ == old(self).events@.push(
                DmacEvent::ClearChannelInterrupt(ch.spec_num() as usize),
            ),
            *final(self) == (Dmac {
                channels: final(self).channels,
                events: final(self).events,
                ..*old(self)
            }),
    {
        let i = ch.num();
        let mut regs = self.channels[i];
        regs.int_status = 0;
        self.channels[i] = regs;
        self.events.push(DmacEvent::ClearChannelInterrupt(i));
    }

    /// Enable the engine, with its interrupt output enabled as well.
    fn enable(&mut self)
        requires
            old(self).wf(),
        ensures
            final(self).wf(),
            final(self).enabled && final(self).int_enabled,
            final(self).events@ == old(self).events@.push(DmacEvent::EngineEnable),
            *final(self) == (Dmac {
                enabled: true,
                int_enabled: true,
                events: final(self).events,
                ..*old(self)
            }),
    {
        self.enabled = true;
        self.int_enabled = true;
        self.events.push(DmacEvent::EngineEnable);
    }

    /// Disable the engine and its interrupt output.
    fn disable(&mut self)
        requires
            old(self).wf(),
        ensures
            final(self).wf(),
            !final(self).enabled && !final(self).int_enabled,
            final(self).events@ == old(self).events@.push(DmacEvent::EngineDisable),
            *final(self) == (Dmac {
                enabled: false,
                int_enabled: false,
                events: final(self).events,
                ..*old(self)
            }),
    {
        self.enabled = false;
        self.int_enabled = false;
        self.events.push(DmacEvent::EngineDisable);
    }

    /// Set one channel's enable bit, strobing its write-enable.
    fn channel_enable(&mut self, ch: Channel)
        requires
            old(self).wf(),
        ensures
            final(self).wf(),
            final(self).chen == crate::gpiohs::spec_set_bit(
                crate::gpiohs::spec_set_bit(old(self).chen, true, ch.spec_num() as u32),
                true,
                (ch.spec_num() + 8) as u32,
            ),
            final(self).events@ == old(self).events@.push(
                DmacEvent::ChannelEnable(ch.spec_num() as usize),
            ),
            *final(self) == (Dmac { chen: final(self).chen, events: final(self).events, ..*old(self) }),
    {
        let i = ch.num();
        self.chen = crate::gpiohs::u32_set_bit(self.chen, true, i);
        self.chen = crate::gpiohs::u32_set_bit(self.chen, true, i + 8);
        self.events.push(DmacEvent::ChannelEnable(i));
    }

    /// Clear one channel's enable bit, clearing its write-enable too.
    fn channel_disable(&mut self, ch: Channel)
        requires
            old(self).wf(),
        ensures
            final(self).wf(),
            final(self).chen == crate::gpiohs::spec_set_bit(
                crate::gpiohs::spec_set_bit(old(self).chen, false, ch.spec_num() as u32),
                false,
                (ch.spec_num() + 8) as u32,
            ),
            final(self).events@ == old(self).events@.push(
                DmacEvent::ChannelDisable(ch.spec_num() as usize),
            ),
            *final(self) == (Dmac { chen: final(self).chen, events: final(self).events, ..*old(self) }),
    {
        let i = ch.num();
        self.chen = crate::gpiohs::u32_set_bit(self.chen, false, i);
        self.chen = crate::gpiohs::u32_set_bit(self.chen, false, i + 8);
        self.events.push(DmacEvent::ChannelDisable(i));
    }

    /// Bring up the engine: open its clock gate, reset it, clear every
    /// pending interrupt status, and re-enable it.  The final state does not
    /// depend on the state before the call.
    pub fn init(&mut self, sysctl: &mut Sysctl)
        requires
            old(self).wf(),
            old(sysctl).wf(),
        ensures
            final(self).wf(),
            final(sysctl).wf(),
            final(sysctl).dma_clk_en,
            *final(sysctl) == (Sysctl { dma_clk_en: true, ..*old(sysctl) }),
            final(self).enabled && final(self).int_enabled,
            final(self).chen == 0,
            forall|i: int| 0 <= i < 6 ==> final(self).channels@[i] == ChannelRegs::spec_cleared(),
            final(self).status == old(self).status,
            final(self).events@ == old(self).events@ + seq![
                DmacEvent::Reset,
                DmacEvent::ClearCommonInterrupt,
                DmacEvent::EngineDisable,
                DmacEvent::AllChannelsDisabled,
                DmacEvent::ClearChannelInterrupt(0),
                DmacEvent::ClearChannelInterrupt(1),
                DmacEvent::ClearChannelInterrupt(2),
                DmacEvent::ClearChannelInterrupt(3),
                DmacEvent::ClearChannelInterrupt(4),
                DmacEvent::ClearChannelInterrupt(5),
                DmacEvent::EngineEnable,
            ],
    {
        sysctl.dma_clk_en = true;
        self.reset();
        self.clear_common_interrupt();
        self.disable();
        // The reset already dropped every channel-enable bit; the explicit
        // clear keeps the engine's bring-up sequence observable.
        assert(0u32 & !0x3fu32 == 0u32) by (bit_vector);
        self.chen = self.chen & !0x3fu32;
        self.events.push(DmacEvent::AllChannelsDisabled);
        self.channel_interrupt_clear(Channel::Ch0);
        self.channel_interrupt_clear(Channel::Ch1);
        self.channel_interrupt_clear(Channel::Ch2);
        self.channel_interrupt_clear(Channel::Ch3);
        self.channel_interrupt_clear(Channel::Ch4);
        self.channel_interrupt_clear(Channel::Ch5);
        self.enable();
        proof {
            assert(self.events@ =~= old(self).events@ + seq![
                DmacEvent::Reset,
                DmacEvent::ClearCommonInterrupt,
                DmacEvent::EngineDisable,
                DmacEvent::AllChannelsDisabled,
                DmacEvent::ClearChannelInterrupt(0),
                DmacEvent::ClearChannelInterrupt(1),
                DmacEvent::ClearChannelInterrupt(2),
                DmacEvent::ClearChannelInterrupt(3),
                DmacEvent::ClearChannelInterrupt(4),
                DmacEvent::ClearChannelInterrupt(5),
                DmacEvent::EngineEnable,
            ]);
        }
    }

    /// Wait until the hardware reports the channel idle, then clear its
    /// interrupt status.  Returns only once a polled read shows the
    /// channel-enable bit down, and consumes no reads past that one.
    pub fn wait_idle(&mut self, ch: Channel)
        requires
            old(self).wf(),
            has_hit(old(self).status.pending(), Dmac::idle_cond(ch)),
        ensures
            final(self).wf(),
            final(self).status.pending() == after_hit(
                old(self).status.pending(),
                Dmac::idle_cond(ch),
            ),
            cond_holds(
                Dmac::idle_cond(ch),
                old(self).status.pending()[first_hit(
                    old(self).status.pending(),
                    Dmac::idle_cond(ch),
                )],
            ),
            forall|j: int|
                0 <= j < first_hit(old(self).status.pending(), Dmac::idle_cond(ch))
                    ==> !cond_holds(Dmac::idle_cond(ch), old(self).status.pending()[j]),
            final(self).status.reads == old(self).status.reads,
            final(self).channels@ == old(self).channels@.update(
                ch.spec_num(),
                (ChannelRegs { int_status: 0, ..old(self).channels@[ch.spec_num()] }),
            ),
            final(self).events@ == old(self).events@.push(
                DmacEvent::ClearChannelInterrupt(ch.spec_num() as usize),
            ),
            final(self).enabled == old(self).enabled,
            final(self).int_enabled == old(self).int_enabled,
            final(self).chen == old(self).chen,
    {
        let i = ch.num();
        let mask: u32 = 1u32 << (i as u32);
        self.status.poll_until(PollCond::MaskedEq(mask, 0));
        self.channel_interrupt_clear(ch);
    }

    /// Wait for the channel's transfer to complete.  This is the only
    /// blocking primitive of the transfer engine: it does not return while
    /// the channel still reads busy, and it clears the channel's interrupt
    /// status exactly once.  On an already-idle channel it returns after the
    /// first read.
    pub fn wait_done(&mut self, ch: Channel)
        requires
            old(self).wf(),
            has_hit(old(self).status.pending(), Dmac::idle_cond(ch)),
        ensures
            final(self).wf(),
            final(self).status.pending() == after_hit(
                old(self).status.pending(),
                Dmac::idle_cond(ch),
            ),
            forall|j: int|
                0 <= j < first_hit(old(self).status.pending(), Dmac::idle_cond(ch))
                    ==> !cond_holds(Dmac::idle_cond(ch), old(self).status.pending()[j]),
            final(self).status.reads == old(self).status.reads,
            final(self).channels@ == old(self).channels@.update(
                ch.spec_num(),
                (ChannelRegs { int_status: 0, ..old(self).channels@[ch.spec_num()] }),
            ),
            final(self).events@ == old(self).events@.push(
                DmacEvent::ClearChannelInterrupt(ch.spec_num() as usize),
            ),
            final(self).enabled == old(self).enabled,
            final(self).int_enabled == old(self).int_enabled,
            final(self).chen == old(self).chen,
    {
        self.wait_idle(ch);
    }

    /// Program one channel's transfer parameters.
    fn set_channel_param(
        &mut self,
        ch: Channel,
        src: u64,
        dst: u64,
        src_inc: Inc,
        dst_inc: Inc,
        trans_width: TrWidth,
        burst_size: Msize,
        block_size: u32,
    )
        requires
            old(self).wf(),
            block_size >= 1,
        ensures
            final(self).wf(),
            final(self).channels@ == old(self).channels@.update(
                ch.spec_num(),
                spec_programmed(
                    ch.spec_num(),
                    src,
                    dst,
                    src_inc,
                    dst_inc,
                    trans_width,
                    burst_size,
                    block_size,
                    old(self).channels@[ch.spec_num()].int_status,
                ),
            ),
            final(self).events@ == old(self).events@.push(
                DmacEvent::ChannelProgrammed(ch.spec_num() as usize),
            ),
            *final(self) == (Dmac {
                channels: final(self).channels,
                events: final(self).events,
                ..*old(self)
            }),
    {
        let i = ch.num();
        let src_class = is_memory(src);
        let dst_class = is_memory(dst);
        let regs = ChannelRegs {
            flow_control: flow_control_for(src_class, dst_class),
            hs_sel_src: handshake_for(src_class),
            hs_sel_dst: handshake_for(dst_class),
            src_per: i as u8,
            dst_per: i as u8,
            src_multblk: 0,
            dst_multblk: 0,
            sar: src,
            dar: dst,
            src_master: MasterSelect::AxiMaster1,
            dst_master: MasterSelect::AxiMaster2,
            src_inc,
            dst_inc,
            src_tr_width: trans_width,
            dst_tr_width: trans_width,
            src_msize: burst_size,
            dst_msize: burst_size,
            block_ts: block_size - 1,
            int_status: self.channels[i].int_status,
        };
        self.channels[i] = regs;
        self.events.push(DmacEvent::ChannelProgrammed(i));
    }

    /// Start one single-block transfer: clear the channel's interrupt
    /// status, disable the channel and wait until the hardware reports it
    /// idle, program the transfer, then enable the engine and the channel.
    /// Returns as soon as the transfer is triggered, without waiting for
    /// completion.
    pub fn set_single_mode(
        &mut self,
        ch: Channel,
        src: u64,
        dst: u64,
        src_inc: Inc,
        dst_inc: Inc,
        trans_width: TrWidth,
        burst_size: Msize,
        block_size: u32,
    )
        requires
            old(self).wf(),
            block_size >= 1,
            has_hit(old(self).status.pending(), Dmac::idle_cond(ch)),
        ensures
            final(self).wf(),
            final(self).channels@ == old(self).channels@.update(
                ch.spec_num(),
                spec_programmed(
                    ch.spec_num(),
                    src,
                    dst,
                    src_inc,
                    dst_inc,
                    trans_width,
                    burst_size,
                    block_size,
                    0,
                ),
            ),
            final(self).status.pending() == after_hit(
                old(self).status.pending(),
                Dmac::idle_cond(ch),
            ),
            final(self).status.reads == old(self).status.reads,
            final(self).enabled && final(self).int_enabled,
            final(self).chen == crate::gpiohs::spec_set_bit(
                crate::gpiohs::spec_set_bit(
                    crate::gpiohs::spec_set_bit(
                        crate::gpiohs::spec_set_bit(old(self).chen, false, ch.spec_num() as u32),
                        false,
                        (ch.spec_num() + 8) as u32,
                    ),
                    true,
                    ch.spec_num() as u32,
                ),
                true,
                (ch.spec_num() + 8) as u32,
            ),
            final(self).events@ == old(self).events@ + seq![
                DmacEvent::ClearChannelInterrupt(ch.spec_num() as usize),
                DmacEvent::ChannelDisable(ch.spec_num() as usize),
                DmacEvent::ClearChannelInterrupt(ch.spec_num() as usize),
                DmacEvent::ChannelProgrammed(ch.spec_num() as usize),
                DmacEvent::EngineEnable,
                DmacEvent::ChannelEnable(ch.spec_num() as usize),
            ],
    {
        self.channel_interrupt_clear(ch);
        self.channel_disable(ch);
        self.wait_idle(ch);
        self.set_channel_param(ch, src, dst, src_inc, dst_inc, trans_width, burst_size, block_size);
        self.enable();
        self.channel_enable(ch);
        proof {
            assert(self.channels@ =~= old(self).channels@.update(
                ch.spec_num(),
                spec_programmed(
                    ch.spec_num(),
                    src,
                    dst,
                    src_inc,
                    dst_inc,
                    trans_width,
                    burst_size,
                    block_size,
                    0,
                ),
            ));
            assert(self.events@ =~= old(self).events@ + seq![
                DmacEvent::ClearChannelInterrupt(ch.spec_num() as usize),
                DmacEvent::ChannelDisable(ch.spec_num() as usize),
                DmacEvent::ClearChannelInterrupt(ch.spec_num() as usize),
                DmacEvent::ChannelProgrammed(ch.spec_num() as usize),
                DmacEvent::EngineEnable,
                DmacEvent::ChannelEnable(ch.spec_num() as usize),
            ]);
        }
    }
}

} // verus!
