//! SPI bus driver: transmit-only configuration, the enhanced
//! instruction/address framing used by the display protocol, and the three
//! data pumps — polled transmit, constant fill, and the DMA hand-off.
//!
//! The controller's registers are fields of [`Spi`]; every word pushed into
//! the data register is appended to [`Spi::transmitted`], which is the wire
//! trace the display contracts are stated over.  The two registers the
//! hardware answers — the transmit-FIFO occupancy and the status register —
//! are read through queues with a quiescent fallback: before every unit the
//! driver waits for FIFO room (occupancy below the FIFO depth), and before
//! deasserting the chip select it waits for the double idle condition, busy
//! bit clear *and* transmit-FIFO-empty bit set, since FIFO-empty alone does
//! not mean the last word has finished shifting out.  A queue that runs dry
//! reads as the settled bus (an empty FIFO, an idle status), so a transfer
//! waits through whatever transient values a test scripts and then
//! completes.

use vstd::prelude::*;

verus! {

use crate::dmac::{Channel, Dmac, Inc, Msize, TrWidth, spec_programmed};
use crate::script::{PollCond, StatusScript, drained, drained_n, has_hit, after_hit,
    lemma_drained_n_step};
use crate::sysctl::{DmaSelect, Sysctl};

/// Clock phase/polarity of the bus.
#[derive(Clone, Copy, PartialEq, Eq, Structural, Debug)]
pub enum WorkMode {
    Mode0,
    Mode1,
    Mode2,
    Mode3,
}

/// Wire format of one frame.
#[derive(Clone, Copy, PartialEq, Eq, Structural, Debug)]
pub enum FrameFormat {
    Standard,
    Dual,
    Quad,
    Octal,
}

/// Transfer mode of the controller.
#[derive(Clone, Copy, PartialEq, Eq, Structural, Debug)]
pub enum Tmod {
    TransRecv,
    Trans,
    Recv,
    Eeprom,
}

/// Instruction/address phase handling of the enhanced framing.
#[derive(Clone, Copy, PartialEq, Eq, Structural, Debug)]
pub enum Aitm {
    Standard,
    AddrStandard,
    AsFrameFormat,
}

/// Rejected driver configuration.
#[derive(Clone, Copy, PartialEq, Eq, Structural, Debug)]
pub enum ConfigError {
    /// The instruction length is not one of the four the hardware encodes.
    InvalidInstructionLength,
}

/// Depth of the transmit FIFO, in entries.
pub const TX_FIFO_DEPTH: u32 = 32;

/// Status-register mask of the two bits an idle check reads: the busy bit
/// and the transmit-FIFO-empty bit.
pub const STATUS_IDLE_MASK: u32 = 0x05;

/// Status-register pattern of an idle bus: busy clear and
/// transmit-FIFO-empty set.  Both must hold, not just one.
pub const STATUS_IDLE_VALUE: u32 = 0x04;

/// The physical address of the SPI0 data register, as the DMA engine sees
/// it.  It lies outside both SRAM windows, so the transfer engine classifies
/// it as a peripheral endpoint.
pub const SPI0_DATA_REG_ADDR: u64 = 0x5200_0060;

/// Instruction lengths the hardware can frame.
pub open spec fn valid_instruction_length(bits: u32) -> bool {
    bits == 0 || bits == 4 || bits == 8 || bits == 16
}

/// The hardware encoding of a valid instruction length.
pub open spec fn spec_inst_len_code(bits: u32) -> u8 {
    if bits == 0 {
        0
    } else if bits == 4 {
        1
    } else if bits == 8 {
        2
    } else {
        3
    }
}

/// Encode an instruction length for the enhanced-framing register.  Exactly
/// the lengths 0, 4, 8 and 16 are accepted; everything else is an invalid
/// configuration.
pub fn encode_instruction_length(bits: u32) -> (r: Result<u8, ConfigError>)
    ensures
        r is Ok <==> valid_instruction_length(bits),
        r matches Ok(code) ==> code == spec_inst_len_code(bits),
        r matches Err(e) ==> e == ConfigError::InvalidInstructionLength,
{
    match bits {
        0 => Ok(0),
        4 => Ok(1),
        8 => Ok(2),
        16 => Ok(3),
        _ => Err(ConfigError::InvalidInstructionLength),
    }
}

/// The baud-rate divider derived from the peripheral bus clock, clamped to
/// the hardware's valid range.
pub open spec fn spec_baud_div(aclk_freq: u32, apb2_clk_sel: u8, baud: u32) -> u32 {
    let d = (aclk_freq as int / (apb2_clk_sel as int + 1)) / baud as int;
    if d < 2 {
        2
    } else if d > 65534 {
        65534
    } else {
        d as u32
    }
}

/// The SPI0 controller.
pub struct Spi {
    /// Interrupt mask register: zero masks everything.
    pub interrupt_mask: u32,
    /// DMA control register: bit one enables transmit DMA requests.
    pub dma_control: u32,
    /// Transmit-FIFO DMA request threshold.
    pub dma_tx_level: u32,
    /// Receive-FIFO DMA request threshold.
    pub dma_rx_level: u32,
    /// Slave-select register: one bit per chip select.
    pub slave_select: u32,
    /// Controller enable.
    pub enabled: bool,
    /// Clock mode.
    pub work_mode: WorkMode,
    /// Transfer mode; this driver only transmits.
    pub tmod: Tmod,
    /// Wire format.
    pub frame_format: FrameFormat,
    /// Data length register: holds one less than the frame bit width.
    pub data_length: u8,
    /// Instruction/address phase handling.
    pub aitm: Aitm,
    /// Wait cycles between the address and data phases.
    pub wait_cycles: u8,
    /// Encoded instruction length.
    pub inst_length: u8,
    /// Encoded address length (bits divided by four).
    pub addr_length: u8,
    /// Endianness register.
    pub endian: u32,
    /// Baud-rate divider.
    pub baud_rate: u32,
    /// Every word pushed into the data register, oldest first.
    pub transmitted: Vec<u32>,
    /// The hardware's answers to reads of the transmit-FIFO occupancy;
    /// once exhausted, the FIFO reads as empty.
    pub fifo_levels: StatusScript,
    /// The hardware's answers to reads of the status register; once
    /// exhausted, the bus reads as idle.
    pub status: StatusScript,
}

impl Spi {
    /// Consistent cursors on both hardware-answer queues.
    pub open spec fn wf(self) -> bool {
        self.fifo_levels.wf() && self.status.wf()
    }

    /// The poll condition of a FIFO-room wait: occupancy below the depth.
    pub open spec fn room_cond() -> PollCond {
        PollCond::Below(TX_FIFO_DEPTH)
    }

    /// The poll condition of a bus-idle wait: busy clear and
    /// transmit-FIFO-empty set.
    pub open spec fn bus_idle_cond() -> PollCond {
        PollCond::MaskedEq(STATUS_IDLE_MASK, STATUS_IDLE_VALUE)
    }

    /// The framing-side registers two configurations share: everything the
    /// bus was configured with, as opposed to what a transfer changes.
    pub open spec fn framing_eq(a: Spi, b: Spi) -> bool {
        &&& a.work_mode == b.work_mode
        &&& a.tmod == b.tmod
        &&& a.frame_format == b.frame_format
        &&& a.data_length == b.data_length
        &&& a.aitm == b.aitm
        &&& a.wait_cycles == b.wait_cycles
        &&& a.inst_length == b.inst_length
        &&& a.addr_length == b.addr_length
        &&& a.endian == b.endian
        &&& a.baud_rate == b.baud_rate
    }

    /// What [`Spi::configure`] leaves behind: interrupts masked, DMA
    /// requests off with the transmit threshold preset, no chip select
    /// asserted, the bus disabled, transmit-only mode with the requested
    /// framing, the enhanced framing back at its reset value, and the baud
    /// divider derived from the peripheral bus clock.
    pub open spec fn spec_configured(
        self,
        sysctl: Sysctl,
        mode: WorkMode,
        frame_format: FrameFormat,
        data_bit_length: u8,
        endian: u8,
        baud: u32,
    ) -> bool {
        &&& self.interrupt_mask == 0
        &&& self.dma_control == 0
        &&& self.dma_tx_level == 0x10
        &&& self.dma_rx_level == 0
        &&& self.slave_select == 0
        &&& !self.enabled
        &&& self.work_mode == mode
        &&& self.tmod == Tmod::Trans
        &&& self.frame_format == frame_format
        &&& self.data_length == data_bit_length - 1
        &&& self.aitm == Aitm::Standard
        &&& self.wait_cycles == 0
        &&& self.inst_length == 0
        &&& self.addr_length == 0
        &&& self.endian == endian as u32
        &&& self.baud_rate == spec_baud_div(sysctl.aclk_freq, sysctl.apb2_clk_sel, baud)
    }

    /// How configuring the bus changes the system controller: both its
    /// clock gates opened, the extra device-clock divider cleared, and the
    /// shared data pins routed.
    pub open spec fn spec_clocks_opened(pre: Sysctl, post: Sysctl) -> bool {
        post == (Sysctl {
            apb2_clk_en: true,
            spi0_clk_en: true,
            spi0_clk_threshold: 0,
            spi_dvp_data_enable: true,
            ..pre
        })
    }

    /// Configure the bus for transmit-only operation.  Leaves the bus
    /// disabled until a transfer starts; an out-of-range baud request is
    /// silently clamped to the divider range the hardware accepts.
    pub fn configure(
        &mut self,
        sysctl: &mut Sysctl,
        mode: WorkMode,
        frame_format: FrameFormat,
        data_bit_length: u8,
        endian: u8,
        baud: u32,
    )
        requires
            data_bit_length >= 1,
            baud >= 1,
        ensures
            final(self).spec_configured(
                *final(sysctl),
                mode,
                frame_format,
                data_bit_length,
                endian,
                baud,
            ),
            final(self).transmitted == old(self).transmitted,
            final(self).fifo_levels == old(self).fifo_levels,
            final(self).status == old(self).status,
            Spi::spec_clocks_opened(*old(sysctl), *final(sysctl)),
    {
        self.interrupt_mask = 0;
        self.dma_control = 0;
        self.dma_tx_level = 0x10;
        self.dma_rx_level = 0;
        self.slave_select = 0;
        self.enabled = false;
        self.work_mode = mode;
        self.tmod = Tmod::Trans;
        self.frame_format = frame_format;
        self.data_length = data_bit_length - 1;
        self.aitm = Aitm::Standard;
        self.wait_cycles = 0;
        self.inst_length = 0;
        self.addr_length = 0;
        self.endian = endian as u32;

        sysctl.apb2_clk_en = true;
        sysctl.spi0_clk_en = true;
        sysctl.spi0_clk_threshold = 0;
        sysctl.spi_dvp_data_enable = true;

        let apb2_clk: u32 = sysctl.aclk_freq / (sysctl.apb2_clk_sel as u32 + 1);
        let mut b: u32 = apb2_clk / baud;
        if b < 2 {
            b = 2;
        } else if b > 65534 {
            b = 65534;
        }
        self.baud_rate = b;
    }

    /// Take the SPI0 controller and configure it.
    pub fn new_spi0(
        sysctl: &mut Sysctl,
        mode: WorkMode,
        frame_format: FrameFormat,
        data_bit_length: u8,
        endian: u8,
        baud: u32,
    ) -> (spi: Spi)
        requires
            data_bit_length >= 1,
            baud >= 1,
        ensures
            spi.wf(),
            spi.spec_configured(*final(sysctl), mode, frame_format, data_bit_length, endian, baud),
            spi.transmitted@ == Seq::<u32>::empty(),
            spi.fifo_levels.pending() == Seq::<u32>::empty(),
            spi.status.pending() == Seq::<u32>::empty(),
            Spi::spec_clocks_opened(*old(sysctl), *final(sysctl)),
    {
        let mut spi = Spi {
            interrupt_mask: 0,
            dma_control: 0,
            dma_tx_level: 0,
            dma_rx_level: 0,
            slave_select: 0,
            enabled: false,
            work_mode: WorkMode::Mode0,
            tmod: Tmod::Trans,
            frame_format: FrameFormat::Standard,
            data_length: 0,
            aitm: Aitm::Standard,
            wait_cycles: 0,
            inst_length: 0,
            addr_length: 0,
            endian: 0,
            baud_rate: 0,
            transmitted: Vec::new(),
            fifo_levels: StatusScript::new(),
            status: StatusScript::new(),
        };
        spi.configure(sysctl, mode, frame_format, data_bit_length, endian, baud);
        spi
    }

    /// Program the enhanced instruction/address framing that prepends an
    /// instruction and/or address phase to the data phase.  Only the
    /// instruction lengths 0, 4, 8 and 16 bits exist in the hardware; any
    /// other request is rejected without touching a register.
    pub fn set_non_standard_mode(
        &mut self,
        instruction_length: u32,
        address_length: u32,
        wait_cycles: u8,
        aitm: Aitm,
    ) -> (r: Result<(), ConfigError>)
        requires
            address_length < 1024,
        ensures
            r is Ok <==> valid_instruction_length(instruction_length),
            r is Ok ==> *final(self) == (Spi {
                aitm,
                wait_cycles,
                inst_length: spec_inst_len_code(instruction_length),
                addr_length: (address_length / 4) as u8,
                ..*old(self)
            }),
            r is Err ==> *final(self) == *old(self),
            r matches Err(e) ==> e == ConfigError::InvalidInstructionLength,
    {
        let code = match encode_instruction_length(instruction_length) {
            Ok(code) => code,
            Err(e) => {
                return Err(e);
            },
        };
        self.aitm = aitm;
        self.wait_cycles = wait_cycles;
        self.inst_length = code;
        self.addr_length = (address_length / 4) as u8;
        Ok(())
    }

    /// Transmit a buffer over the bus: assert the chip select, enable the
    /// bus, push every word in order — each only once the FIFO has room —
    /// then wait for the bus to read idle (busy clear and FIFO empty, both)
    /// before deasserting the chip select and disabling the bus.
    pub fn send_data(&mut self, cs: u32, tx: &Vec<u32>)
        requires
            cs < 32,
            old(self).wf(),
        ensures
            final(self).wf(),
            final(self).transmitted@ == old(self).transmitted@ + tx@,
            final(self).slave_select == 0,
            !final(self).enabled,
            final(self).fifo_levels.reads == old(self).fifo_levels.reads,
            final(self).fifo_levels.pending() == drained_n(
                old(self).fifo_levels.pending(),
                Spi::room_cond(),
                tx@.len(),
            ),
            final(self).status.reads == old(self).status.reads,
            final(self).status.pending() == drained(
                old(self).status.pending(),
                Spi::bus_idle_cond(),
            ),
            Spi::framing_eq(*final(self), *old(self)),
            final(self).interrupt_mask == old(self).interrupt_mask,
            final(self).dma_control == old(self).dma_control,
            final(self).dma_tx_level == old(self).dma_tx_level,
            final(self).dma_rx_level == old(self).dma_rx_level,
    {
        self.slave_select = 1u32 << cs;
        self.enabled = true;
        let ghost f0 = self.fifo_levels.pending();
        let mut i: usize = 0;
        while i < tx.len()
            invariant
                self.wf(),
                i <= tx.len(),
                self.transmitted@ == old(self).transmitted@ + tx@.subrange(0, i as int),
                f0 == old(self).fifo_levels.pending(),
                self.fifo_levels.reads == old(self).fifo_levels.reads,
                self.fifo_levels.pending() == drained_n(f0, Spi::room_cond(), i as nat),
                self.status == old(self).status,
                Spi::framing_eq(*self, *old(self)),
                self.interrupt_mask == old(self).interrupt_mask,
                self.dma_control == old(self).dma_control,
                self.dma_tx_level == old(self).dma_tx_level,
                self.dma_rx_level == old(self).dma_rx_level,
            decreases tx.len() - i,
        {
            self.fifo_levels.poll_or_settle(PollCond::Below(TX_FIFO_DEPTH), 0);
            self.transmitted.push(tx[i]);
            i = i + 1;
            proof {
                lemma_drained_n_step(f0, Spi::room_cond(), (i - 1) as nat);
                assert(self.transmitted@ =~= old(self).transmitted@ + tx@.subrange(0, i as int));
            }
        }
        assert(STATUS_IDLE_VALUE & STATUS_IDLE_MASK == STATUS_IDLE_VALUE) by (bit_vector);
        self.status.poll_or_settle(PollCond::MaskedEq(STATUS_IDLE_MASK, STATUS_IDLE_VALUE), STATUS_IDLE_VALUE);
        self.slave_select = 0;
        self.enabled = false;
        proof {
            assert(tx@.subrange(0, tx@.len() as int) =~= tx@);
        }
    }

    /// Transmit one constant word a given number of times — a buffer-free
    /// fill for solid-colour rectangles.  The bus framing and the FIFO and
    /// idle waits are the same as [`Spi::send_data`]'s.
    pub fn fill_data(&mut self, cs: u32, value: u32, len: usize)
        requires
            cs < 32,
            old(self).wf(),
        ensures
            final(self).wf(),
            final(self).transmitted@ == old(self).transmitted@ + Seq::new(
                len as nat,
                |j: int| value,
            ),
            final(self).slave_select == 0,
            !final(self).enabled,
            final(self).fifo_levels.reads == old(self).fifo_levels.reads,
            final(self).fifo_levels.pending() == drained_n(
                old(self).fifo_levels.pending(),
                Spi::room_cond(),
                len as nat,
            ),
            final(self).status.reads == old(self).status.reads,
            final(self).status.pending() == drained(
                old(self).status.pending(),
                Spi::bus_idle_cond(),
            ),
            Spi::framing_eq(*final(self), *old(self)),
            final(self).interrupt_mask == old(self).interrupt_mask,
            final(self).dma_control == old(self).dma_control,
            final(self).dma_tx_level == old(self).dma_tx_level,
            final(self).dma_rx_level == old(self).dma_rx_level,
    {
        self.slave_select = 1u32 << cs;
        self.enabled = true;
        let ghost f0 = self.fifo_levels.pending();
        let mut i: usize = 0;
        while i < len
            invariant
                self.wf(),
                i <= len,
                self.transmitted@ == old(self).transmitted@ + Seq::new(i as nat, |j: int| value),
                f0 == old(self).fifo_levels.pending(),
                self.fifo_levels.reads == old(self).fifo_levels.reads,
                self.fifo_levels.pending() == drained_n(f0, Spi::room_cond(), i as nat),
                self.status == old(self).status,
                Spi::framing_eq(*self, *old(self)),
                self.interrupt_mask == old(self).interrupt_mask,
                self.dma_control == old(self).dma_control,
                self.dma_tx_level == old(self).dma_tx_level,
                self.dma_rx_level == old(self).dma_rx_level,
            decreases len - i,
        {
            self.fifo_levels.poll_or_settle(PollCond::Below(TX_FIFO_DEPTH), 0);
            self.transmitted.push(value);
            i = i + 1;
            proof {
                lemma_drained_n_step(f0, Spi::room_cond(), (i - 1) as nat);
                assert(self.transmitted@ =~= old(self).transmitted@ + Seq::new(
                    i as nat,
                    |j: int| value,
                ));
            }
        }
        assert(STATUS_IDLE_VALUE & STATUS_IDLE_MASK == STATUS_IDLE_VALUE) by (bit_vector);
        self.status.poll_or_settle(PollCond::MaskedEq(STATUS_IDLE_MASK, STATUS_IDLE_VALUE), STATUS_IDLE_VALUE);
        self.slave_select = 0;
        self.enabled = false;
    }

    /// Transmit a buffer with the DMA engine as the data pump: route the
    /// transmit request line to the channel, enable transmit DMA requests
    /// at the preset FIFO threshold, assert the chip select and enable the
    /// bus, trigger a single-block transfer from the buffer to the data
    /// register, wait for it to complete, then — as on the polled path —
    /// wait for the bus to read idle before deasserting and disabling.
    /// The DMA requests pace the FIFO, so no occupancy read happens here.
    /// `src` is the physical address of `tx`'s words, as the DMA engine
    /// will see it.
    pub fn send_data_dma(
        &mut self,
        sysctl: &mut Sysctl,
        dmac: &mut Dmac,
        channel: Channel,
        cs: u32,
        src: u64,
        tx: &Vec<u32>,
    )
        requires
            cs < 32,
            old(self).wf(),
            old(sysctl).wf(),
            old(dmac).wf(),
            tx@.len() >= 1,
            tx@.len() <= u32::MAX,
            has_hit(old(dmac).status.pending(), Dmac::idle_cond(channel)),
            has_hit(
                after_hit(old(dmac).status.pending(), Dmac::idle_cond(channel)),
                Dmac::idle_cond(channel),
            ),
        ensures
            final(self).wf(),
            final(self).transmitted@ == old(self).transmitted@ + tx@,
            final(self).slave_select == 0,
            !final(self).enabled,
            final(self).fifo_levels == old(self).fifo_levels,
            final(self).status.reads == old(self).status.reads,
            final(self).status.pending() == drained(
                old(self).status.pending(),
                Spi::bus_idle_cond(),
            ),
            Spi::framing_eq(*final(self), *old(self)),
            final(self).interrupt_mask == old(self).interrupt_mask,
            final(self).dma_control == 0x2,
            final(self).dma_tx_level == 0x10,
            final(self).dma_rx_level == old(self).dma_rx_level,
            final(sysctl).wf(),
            final(sysctl).dma_select@ == old(sysctl).dma_select@.update(
                channel.spec_num(),
                DmaSelect::Ssi0TxReq,
            ),
            *final(sysctl) == (Sysctl { dma_select: final(sysctl).dma_select, ..*old(sysctl) }),
            final(dmac).wf(),
            final(dmac).channels@ == old(dmac).channels@.update(
                channel.spec_num(),
                spec_programmed(
                    channel.spec_num(),
                    src,
                    SPI0_DATA_REG_ADDR,
                    Inc::Increment,
                    Inc::NoChange,
                    TrWidth::Bit32,
                    Msize::Item4,
                    tx@.len() as u32,
                    0,
                ),
            ),
            final(dmac).status.pending() == after_hit(
                after_hit(old(dmac).status.pending(), Dmac::idle_cond(channel)),
                Dmac::idle_cond(channel),
            ),
            final(dmac).enabled && final(dmac).int_enabled,
    {
        sysctl.set_dma_sel(channel, DmaSelect::Ssi0TxReq);
        self.dma_control = 0x2;
        self.dma_tx_level = 0x10;
        self.slave_select = 1u32 << cs;
        self.enabled = true;
        dmac.set_single_mode(
            channel,
            src,
            SPI0_DATA_REG_ADDR,
            Inc::Increment,
            Inc::NoChange,
            TrWidth::Bit32,
            Msize::Item4,
            tx.len() as u32,
        );
        let mut i: usize = 0;
        while i < tx.len()
            invariant
                self.wf(),
                i <= tx.len(),
                self.transmitted@ == old(self).transmitted@ + tx@.subrange(0, i as int),
                self.fifo_levels == old(self).fifo_levels,
                self.status == old(self).status,
                Spi::framing_eq(*self, *old(self)),
                self.interrupt_mask == old(self).interrupt_mask,
                self.dma_control == 0x2,
                self.dma_tx_level == 0x10,
                self.dma_rx_level == old(self).dma_rx_level,
            decreases tx.len() - i,
        {
            self.transmitted.push(tx[i]);
            i = i + 1;
            proof {
                assert(self.transmitted@ =~= old(self).transmitted@ + tx@.subrange(0, i as int));
            }
        }
        dmac.wait_done(channel);
        assert(STATUS_IDLE_VALUE & STATUS_IDLE_MASK == STATUS_IDLE_VALUE) by (bit_vector);
        self.status.poll_or_settle(PollCond::MaskedEq(STATUS_IDLE_MASK, STATUS_IDLE_VALUE), STATUS_IDLE_VALUE);
        self.slave_select = 0;
        self.enabled = false;
        proof {
            assert(tx@.subrange(0, tx@.len() as int) =~= tx@);
            assert(dmac.channels@ =~= old(dmac).channels@.update(
                channel.spec_num(),
                spec_programmed(
                    channel.spec_num(),
                    src,
                    SPI0_DATA_REG_ADDR,
                    Inc::Increment,
                    Inc::NoChange,
                    TrWidth::Bit32,
                    Msize::Item4,
                    tx@.len() as u32,
                    0,
                ),
            ));
        }
    }
}

} // verus!
