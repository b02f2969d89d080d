//! DVP camera capture block and its SCCB sensor-control channel.
//!
//! The block's configuration registers are fields of [`Dvp`].  Its status
//! register is special: the capture flags (frame-start, frame-finish) and
//! the SCCB busy flag are set by the hardware and only write-cleared by the
//! driver, so reads of it come from a [`StatusScript`] and every write to it
//! is logged in [`Dvp::events`].  The frame-capture handshake contract is
//! stated over both: how far each spin advanced the queue, and exactly which
//! clear/re-arm words were written between the spins.

use vstd::prelude::*;

verus! {

use crate::script::{StatusScript, PollCond, has_hit, after_hit};
use crate::sysctl::Sysctl;

/// Frame-start flag of the status register.
pub const STS_FRAME_START: u32 = 0x1;

/// Write-enable strobe of the frame-start flag.
pub const STS_FRAME_START_WE: u32 = 0x2;

/// Frame-finish flag of the status register.
pub const STS_FRAME_FINISH: u32 = 0x4;

/// Write-enable strobe of the frame-finish flag.
pub const STS_FRAME_FINISH_WE: u32 = 0x8;

/// Capture-enable flag of the status register.
pub const STS_DVP_EN: u32 = 0x10;

/// Write-enable strobe of the capture-enable flag.
pub const STS_DVP_EN_WE: u32 = 0x20;

/// SCCB transfer-busy flag of the status register.
pub const STS_SCCB_EN: u32 = 0x100;

/// Write-enable strobe of the SCCB transfer-busy flag.
pub const STS_SCCB_EN_WE: u32 = 0x200;

/// AXI burst length of the capture write path.
#[derive(Clone, Copy, PartialEq, Eq, Structural, Debug)]
pub enum BurstLength {
    Byte1,
    Byte4,
}

/// Number of bytes of one SCCB transaction.
#[derive(Clone, Copy, PartialEq, Eq, Structural, Debug)]
pub enum SccbByteNum {
    Num1,
    Num2,
    Num3,
    Num4,
}

/// One write the DVP driver performs on hardware-owned registers, in
/// program order.
#[derive(Clone, Copy, PartialEq, Eq, Structural, Debug)]
pub enum DvpEvent {
    /// Write of the given word to the status register.
    StsWrite(u32),
    /// Write of the SCCB control register: device address, register
    /// address, and the data byte (zero where the transaction has none).
    SccbCtlWrite { device: u8, reg: u8, data: u8 },
    /// Settle delay, in microseconds.
    DelayMicros(u32),
}

/// The DVP capture block.
pub struct Dvp {
    /// Width of the sensor's register addresses, in bits.
    pub sccb_reg_len: u8,
    /// Divider of the sensor clock output.
    pub clk_div: u8,
    /// Enable of the sensor clock output.
    pub clk_enable: bool,
    /// SCCB clock low count.
    pub scl_lcnt: u8,
    /// SCCB clock high count.
    pub scl_hcnt: u8,
    /// Whether the capture path bursts four beats at a time.
    pub burst: bool,
    /// AXI burst length matching the burst setting.
    pub gm_mlen: BurstLength,
    /// Pixel format select.
    pub format: u8,
    /// Bursts per horizontal line, derived from the width and burst mode.
    pub href_burst_num: u8,
    /// Lines per frame.
    pub line_num: u16,
    /// Whether frames are copied to the neural-network output planes.
    pub ai_output_enable: bool,
    /// Whether frames are written to the display framebuffer.
    pub display_output_enable: bool,
    /// Frame-start interrupt enable.
    pub start_int_enable: bool,
    /// Frame-finish interrupt enable.
    pub finish_int_enable: bool,
    /// Whether capture re-arms itself after every frame.
    pub auto_enable: bool,
    /// Physical address of the display framebuffer.
    pub rgb_addr: u32,
    /// Byte count of the next SCCB transaction.
    pub sccb_byte_num: SccbByteNum,
    /// Device address last written to the SCCB control register.
    pub sccb_device_address: u8,
    /// Register address last written to the SCCB control register.
    pub sccb_reg_address: u8,
    /// Data byte last written to the SCCB control register.
    pub sccb_wdata: u8,
    /// The hardware's answers to reads of the status register, including
    /// the latched SCCB read data.
    pub status: StatusScript,
    /// Log of the driver's writes to hardware-owned registers.
    pub events: Vec<DvpEvent>,
}

impl Dvp {
    /// A consistent poll cursor.
    pub open spec fn wf(self) -> bool {
        self.status.wf()
    }

    /// The poll condition of a frame-start wait.
    pub open spec fn start_cond() -> PollCond {
        PollCond::AnySet(STS_FRAME_START)
    }

    /// The poll condition of a frame-finish wait.
    pub open spec fn finish_cond() -> PollCond {
        PollCond::AnySet(STS_FRAME_FINISH)
    }

    /// The poll condition of an SCCB-idle wait.
    pub open spec fn sccb_idle_cond() -> PollCond {
        PollCond::MaskedEq(STS_SCCB_EN, 0)
    }

    /// What remains of the status queue after one SCCB transfer: a wait for
    /// idle, the kick, and a second wait for idle.
    pub open spec fn after_sccb_transfer(p: Seq<u32>) -> Seq<u32> {
        after_hit(after_hit(p, Dvp::sccb_idle_cond()), Dvp::sccb_idle_cond())
    }

    /// The status queue can serve one SCCB transfer.
    pub open spec fn sccb_transfer_ready(p: Seq<u32>) -> bool {
        has_hit(p, Dvp::sccb_idle_cond()) && has_hit(
            after_hit(p, Dvp::sccb_idle_cond()),
            Dvp::sccb_idle_cond(),
        )
    }

    /// What remains of the status queue after a full capture handshake:
    /// two waits for frame-start and one for frame-finish.
    pub open spec fn after_capture(p: Seq<u32>) -> Seq<u32> {
        after_hit(
            after_hit(after_hit(p, Dvp::start_cond()), Dvp::start_cond()),
            Dvp::finish_cond(),
        )
    }

    /// The status queue can serve a full capture handshake.
    pub open spec fn capture_ready(p: Seq<u32>) -> bool {
        &&& has_hit(p, Dvp::start_cond())
        &&& has_hit(after_hit(p, Dvp::start_cond()), Dvp::start_cond())
        &&& has_hit(
            after_hit(after_hit(p, Dvp::start_cond()), Dvp::start_cond()),
            Dvp::finish_cond(),
        )
    }

    /// Bring up the capture block: open its clock gates, pulse its reset,
    /// route the shared data pins, drop both camera power domains to their
    /// capture voltage, start the sensor clock at a safe divider, and slow
    /// the SCCB clock all the way down.
    pub fn new_dvp(sccb_reg_len: u8, sysctl: &mut Sysctl) -> (dvp: Dvp)
        ensures
            dvp.wf(),
            *final(sysctl) == (Sysctl {
                apb1_clk_en: true,
                dvp_clk_en: true,
                dvp_reset: false,
                spi_dvp_data_enable: true,
                power_mode_sel6: false,
                power_mode_sel7: false,
                ..*old(sysctl)
            }),
            dvp.sccb_reg_len == sccb_reg_len,
            dvp.clk_div == 3 && dvp.clk_enable,
            dvp.scl_lcnt == 255 && dvp.scl_hcnt == 255,
            !dvp.burst && dvp.gm_mlen == BurstLength::Byte1,
            dvp.format == 0 && dvp.href_burst_num == 0 && dvp.line_num == 0,
            !dvp.ai_output_enable && !dvp.display_output_enable,
            !dvp.start_int_enable && !dvp.finish_int_enable,
            !dvp.auto_enable,
            dvp.rgb_addr == 0,
            dvp.sccb_byte_num == SccbByteNum::Num1,
            dvp.sccb_device_address == 0 && dvp.sccb_reg_address == 0 && dvp.sccb_wdata == 0,
            dvp.status.pending() == Seq::<u32>::empty(),
            dvp.status.reads@ == Seq::<u32>::empty(),
            dvp.events@ == seq![DvpEvent::DelayMicros(10)],
    {
        sysctl.apb1_clk_en = true;
        sysctl.dvp_clk_en = true;
        sysctl.dvp_reset = true;
        // the reset must be held briefly before it is released
        sysctl.dvp_reset = false;
        sysctl.spi_dvp_data_enable = true;
        sysctl.power_mode_sel6 = false;
        sysctl.power_mode_sel7 = false;
        let mut events: Vec<DvpEvent> = Vec::new();
        events.push(DvpEvent::DelayMicros(10));
        let dvp = Dvp {
            sccb_reg_len,
            clk_div: 3,
            clk_enable: true,
            scl_lcnt: 255,
            scl_hcnt: 255,
            burst: false,
            gm_mlen: BurstLength::Byte1,
            format: 0,
            href_burst_num: 0,
            line_num: 0,
            ai_output_enable: false,
            display_output_enable: false,
            start_int_enable: false,
            finish_int_enable: false,
            auto_enable: false,
            rgb_addr: 0,
            sccb_byte_num: SccbByteNum::Num1,
            sccb_device_address: 0,
            sccb_reg_address: 0,
            sccb_wdata: 0,
            status: StatusScript::new(),
            events,
        };
        proof {
            assert(dvp.events@ =~= seq![DvpEvent::DelayMicros(10)]);
        }
        dvp
    }

    /// The divider that brings the peripheral bus clock down to twice the
    /// requested sensor clock, clamped to its eight-bit field.
    pub open spec fn spec_xclk_div(aclk_freq: u32, apb1_clk_sel: u8, xclk: u32) -> u8 {
        let apb1 = aclk_freq as int / (apb1_clk_sel as int + 1);
        let period = if apb1 > 2 * xclk { apb1 / (2 * xclk) - 1 } else { 0 };
        if period > 255 {
            255
        } else {
            period as u8
        }
    }

    /// Set the sensor clock output to the requested frequency, as close as
    /// the divider allows; an out-of-range request is silently clamped.
    pub fn set_xclk(&mut self, sysctl: &Sysctl, xclk: u32)
        requires
            1 <= xclk <= 0x7fff_ffff,
        ensures
            *final(self) == (Dvp {
                clk_div: Dvp::spec_xclk_div(sysctl.aclk_freq, sysctl.apb1_clk_sel, xclk),
                clk_enable: true,
                ..*old(self)
            }),
    {
        let apb1_clk: u32 = sysctl.aclk_freq / (sysctl.apb1_clk_sel as u32 + 1);
        let mut period: u32 = 0;
        if apb1_clk > xclk * 2 {
            assert(apb1_clk as int / (xclk as int * 2) >= 1) by (nonlinear_arith)
                requires
                    apb1_clk > xclk as int * 2,
                    xclk >= 1,
            ;
            period = apb1_clk / (xclk * 2) - 1;
        }
        if period > 255 {
            period = 255;
        }
        self.clk_div = period as u8;
        self.clk_enable = true;
    }

    /// Configure capture in one call: the sensor clock, then the burst
    /// mode, the pixel format, and last the frame geometry — the per-line
    /// burst count depends on the burst mode, so the geometry must be
    /// programmed after it.
    pub fn configure(
        &mut self,
        sysctl: &Sysctl,
        xclk: u32,
        format: u8,
        width: u32,
        height: u32,
        burst: bool,
    )
        requires
            1 <= xclk <= 0x7fff_ffff,
            height <= 0xffff,
            burst ==> width / 8 / 4 <= 0xff,
            !burst ==> width / 8 <= 0xff,
        ensures
            *final(self) == (Dvp {
                clk_div: Dvp::spec_xclk_div(sysctl.aclk_freq, sysctl.apb1_clk_sel, xclk),
                clk_enable: true,
                burst,
                gm_mlen: if burst {
                    BurstLength::Byte4
                } else {
                    BurstLength::Byte1
                },
                format,
                href_burst_num: if burst {
                    (width / 8 / 4) as u8
                } else {
                    (width / 8) as u8
                },
                line_num: height as u16,
                ..*old(self)
            }),
    {
        self.set_xclk(sysctl, xclk);
        if burst {
            self.enable_burst();
        } else {
            self.disable_burst();
        }
        self.set_image_format(format);
        self.set_image_size(width, height);
    }

    /// Switch the capture write path to four-beat bursts.
    pub fn enable_burst(&mut self)
        ensures
            *final(self) == (Dvp { burst: true, gm_mlen: BurstLength::Byte4, ..*old(self) }),
    {
        self.burst = true;
        self.gm_mlen = BurstLength::Byte4;
    }

    /// Switch the capture write path to single-beat transfers.
    pub fn disable_burst(&mut self)
        ensures
            *final(self) == (Dvp { burst: false, gm_mlen: BurstLength::Byte1, ..*old(self) }),
    {
        self.burst = false;
        self.gm_mlen = BurstLength::Byte1;
    }

    /// Select the pixel format.
    pub fn set_image_format(&mut self, format: u8)
        ensures
            *final(self) == (Dvp { format, ..*old(self) }),
    {
        self.format = format;
    }

    /// Program the frame geometry.  The per-line burst count depends on the
    /// burst mode, so the burst mode must be set first; this derivation is
    /// the controller's, not the caller's.
    pub fn set_image_size(&mut self, width: u32, height: u32)
        requires
            height <= 0xffff,
            old(self).burst ==> width / 8 / 4 <= 0xff,
            !old(self).burst ==> width / 8 <= 0xff,
        ensures
            *final(self) == (Dvp {
                href_burst_num: if old(self).burst {
                    (width / 8 / 4) as u8
                } else {
                    (width / 8) as u8
                },
                line_num: height as u16,
                ..*old(self)
            }),
    {
        if self.burst {
            self.href_burst_num = (width / 8 / 4) as u8;
        } else {
            self.href_burst_num = (width / 8) as u8;
        }
        self.line_num = height as u16;
    }

    /// Enable or disable the copy of frames to the neural-network planes.
    pub fn set_ai_output_enable(&mut self, b: bool)
        ensures
            *final(self) == (Dvp { ai_output_enable: b, ..*old(self) }),
    {
        self.ai_output_enable = b;
    }

    /// Enable or disable the write of frames to the display framebuffer.
    pub fn set_display_output_enable(&mut self, b: bool)
        ensures
            *final(self) == (Dvp { display_output_enable: b, ..*old(self) }),
    {
        self.display_output_enable = b;
    }

    /// Enable or disable both capture interrupts together.  This polling
    /// driver leaves them masked.
    pub fn set_dvp_interrupt(&mut self, b: bool)
        ensures
            *final(self) == (Dvp { start_int_enable: b, finish_int_enable: b, ..*old(self) }),
    {
        self.start_int_enable = b;
        self.finish_int_enable = b;
    }

    /// Write-clear both capture flags.
    pub fn clear_interrupt_status(&mut self)
        requires
            old(self).wf(),
        ensures
            final(self).wf(),
            final(self).events@ == old(self).events@ + seq![
                DvpEvent::StsWrite(STS_FRAME_START | STS_FRAME_START_WE),
                DvpEvent::StsWrite(STS_FRAME_FINISH | STS_FRAME_FINISH_WE),
            ],
            *final(self) == (Dvp { events: final(self).events, ..*old(self) }),
    {
        self.events.push(DvpEvent::StsWrite(STS_FRAME_START | STS_FRAME_START_WE));
        self.events.push(DvpEvent::StsWrite(STS_FRAME_FINISH | STS_FRAME_FINISH_WE));
        proof {
            assert(self.events@ =~= old(self).events@ + seq![
                DvpEvent::StsWrite(STS_FRAME_START | STS_FRAME_START_WE),
                DvpEvent::StsWrite(STS_FRAME_FINISH | STS_FRAME_FINISH_WE),
            ]);
        }
    }

    /// Point the capture write path at the caller's framebuffer.  The
    /// buffer stays the caller's: it must remain valid and sized for the
    /// configured geometry for as long as capture runs.
    pub fn set_display_addr(&mut self, addr: u32)
        ensures
            *final(self) == (Dvp { rgb_addr: addr, ..*old(self) }),
    {
        self.rgb_addr = addr;
    }

    /// Enable or disable automatic re-arming of capture after each frame.
    pub fn set_auto(&mut self, b: bool)
        ensures
            *final(self) == (Dvp { auto_enable: b, ..*old(self) }),
    {
        self.auto_enable = b;
    }

    /// Arm capture of one frame.
    pub fn start_convert(&mut self)
        requires
            old(self).wf(),
        ensures
            final(self).wf(),
            final(self).events@ == old(self).events@.push(
                DvpEvent::StsWrite(STS_DVP_EN | STS_DVP_EN_WE),
            ),
            *final(self) == (Dvp { events: final(self).events, ..*old(self) }),
    {
        self.events.push(DvpEvent::StsWrite(STS_DVP_EN | STS_DVP_EN_WE));
    }

    /// Capture one full frame into the framebuffer, without tearing: wait
    /// for frame-start, acknowledge it, wait for frame-start again (the
    /// hardware reasserts it once the new frame's write path is armed),
    /// clear both flags and re-arm capture in one write, and only then wait
    /// for frame-finish, which marks the framebuffer complete.  Each wait
    /// returns at the first read showing its flag and consumes nothing past
    /// it.
    pub fn get_image(&mut self)
        requires
            old(self).wf(),
            Dvp::capture_ready(old(self).status.pending()),
        ensures
            final(self).wf(),
            final(self).status.pending() == Dvp::after_capture(old(self).status.pending()),
            final(self).status.reads == old(self).status.reads,
            final(self).events@ == old(self).events@ + seq![
                DvpEvent::StsWrite(STS_FRAME_START | STS_FRAME_START_WE),
                DvpEvent::StsWrite(
                    STS_FRAME_FINISH | STS_FRAME_FINISH_WE | STS_FRAME_START | STS_FRAME_START_WE
                        | STS_DVP_EN | STS_DVP_EN_WE,
                ),
            ],
            *final(self) == (Dvp {
                status: final(self).status,
                events: final(self).events,
                ..*old(self)
            }),
    {
        self.status.poll_until(PollCond::AnySet(STS_FRAME_START));
        self.events.push(DvpEvent::StsWrite(STS_FRAME_START | STS_FRAME_START_WE));
        self.status.poll_until(PollCond::AnySet(STS_FRAME_START));
        self.events.push(
            DvpEvent::StsWrite(
                STS_FRAME_FINISH | STS_FRAME_FINISH_WE | STS_FRAME_START | STS_FRAME_START_WE
                    | STS_DVP_EN | STS_DVP_EN_WE,
            ),
        );
        self.status.poll_until(PollCond::AnySet(STS_FRAME_FINISH));
        proof {
            assert(self.events@ =~= old(self).events@ + seq![
                DvpEvent::StsWrite(STS_FRAME_START | STS_FRAME_START_WE),
                DvpEvent::StsWrite(
                    STS_FRAME_FINISH | STS_FRAME_FINISH_WE | STS_FRAME_START | STS_FRAME_START_WE
                        | STS_DVP_EN | STS_DVP_EN_WE,
                ),
            ]);
        }
    }

    /// Run one SCCB transfer: wait until the control bus is free, kick the
    /// transfer off, wait until the busy flag falls again to confirm
    /// completion, then let the bus settle.
    fn sccb_start_transfer(&mut self)
        requires
            old(self).wf(),
            Dvp::sccb_transfer_ready(old(self).status.pending()),
        ensures
            final(self).wf(),
            final(self).status.pending() == Dvp::after_sccb_transfer(old(self).status.pending()),
            final(self).status.reads == old(self).status.reads,
            final(self).events@ == old(self).events@ + seq![
                DvpEvent::StsWrite(STS_SCCB_EN | STS_SCCB_EN_WE),
                DvpEvent::DelayMicros(1000),
            ],
            *final(self) == (Dvp {
                status: final(self).status,
                events: final(self).events,
                ..*old(self)
            }),
    {
        self.status.poll_until(PollCond::MaskedEq(STS_SCCB_EN, 0));
        self.events.push(DvpEvent::StsWrite(STS_SCCB_EN | STS_SCCB_EN_WE));
        self.status.poll_until(PollCond::MaskedEq(STS_SCCB_EN, 0));
        self.events.push(DvpEvent::DelayMicros(1000));
        proof {
            assert(self.events@ =~= old(self).events@ + seq![
                DvpEvent::StsWrite(STS_SCCB_EN | STS_SCCB_EN_WE),
                DvpEvent::DelayMicros(1000),
            ]);
        }
    }

    /// Write one sensor register over SCCB: a three-byte transaction
    /// carrying the device address, the register address, and the value.
    pub fn sccb_send(&mut self, dev_addr: u8, reg_addr: u8, reg_data: u8)
        requires
            old(self).wf(),
            Dvp::sccb_transfer_ready(old(self).status.pending()),
        ensures
            final(self).wf(),
            final(self).status.pending() == Dvp::after_sccb_transfer(old(self).status.pending()),
            final(self).status.reads == old(self).status.reads,
            final(self).sccb_byte_num == SccbByteNum::Num3,
            final(self).sccb_device_address == dev_addr | 0x1,
            final(self).sccb_reg_address == reg_addr,
            final(self).sccb_wdata == reg_data,
            final(self).events@ == old(self).events@ + seq![
                DvpEvent::SccbCtlWrite { device: dev_addr | 0x1, reg: reg_addr, data: reg_data },
                DvpEvent::StsWrite(STS_SCCB_EN | STS_SCCB_EN_WE),
                DvpEvent::DelayMicros(1000),
            ],
            *final(self) == (Dvp {
                sccb_byte_num: SccbByteNum::Num3,
                sccb_device_address: dev_addr | 0x1,
                sccb_reg_address: reg_addr,
                sccb_wdata: reg_data,
                status: final(self).status,
                events: final(self).events,
                ..*old(self)
            }),
    {
        self.sccb_byte_num = SccbByteNum::Num3;
        self.sccb_device_address = dev_addr | 0x1;
        self.sccb_reg_address = reg_addr;
        self.sccb_wdata = reg_data;
        self.events.push(
            DvpEvent::SccbCtlWrite { device: dev_addr | 0x1, reg: reg_addr, data: reg_data },
        );
        self.sccb_start_transfer();
        proof {
            assert(self.events@ =~= old(self).events@ + seq![
                DvpEvent::SccbCtlWrite { device: dev_addr | 0x1, reg: reg_addr, data: reg_data },
                DvpEvent::StsWrite(STS_SCCB_EN | STS_SCCB_EN_WE),
                DvpEvent::DelayMicros(1000),
            ]);
        }
    }

    /// Read one sensor register over SCCB.  Two transactions: the first
    /// sends the device and register address, the second — device address
    /// only — triggers the read, whose result the hardware latches into the
    /// configuration register; the model serves that latched byte from the
    /// status queue.
    pub fn sccb_query(&mut self, dev_addr: u8, reg_addr: u8) -> (r: u8)
        requires
            old(self).wf(),
            Dvp::sccb_transfer_ready(old(self).status.pending()),
            Dvp::sccb_transfer_ready(Dvp::after_sccb_transfer(old(self).status.pending())),
            Dvp::after_sccb_transfer(
                Dvp::after_sccb_transfer(old(self).status.pending()),
            ).len() > 0,
        ensures
            final(self).wf(),
            r == Dvp::after_sccb_transfer(Dvp::after_sccb_transfer(old(self).status.pending()))[0]
                as u8,
            final(self).status.pending() == Dvp::after_sccb_transfer(
                Dvp::after_sccb_transfer(old(self).status.pending()),
            ).skip(1),
            final(self).status.reads == old(self).status.reads,
            final(self).sccb_byte_num == SccbByteNum::Num2,
            final(self).sccb_device_address == dev_addr,
            final(self).sccb_reg_address == 0,
            final(self).sccb_wdata == 0,
            final(self).events@ == old(self).events@ + seq![
                DvpEvent::SccbCtlWrite { device: dev_addr | 0x1, reg: reg_addr, data: 0 },
                DvpEvent::StsWrite(STS_SCCB_EN | STS_SCCB_EN_WE),
                DvpEvent::DelayMicros(1000),
                DvpEvent::SccbCtlWrite { device: dev_addr, reg: 0, data: 0 },
                DvpEvent::StsWrite(STS_SCCB_EN | STS_SCCB_EN_WE),
                DvpEvent::DelayMicros(1000),
            ],
            *final(self) == (Dvp {
                sccb_byte_num: SccbByteNum::Num2,
                sccb_device_address: dev_addr,
                sccb_reg_address: 0,
                sccb_wdata: 0,
                status: final(self).status,
                events: final(self).events,
                ..*old(self)
            }),
    {
        self.sccb_byte_num = SccbByteNum::Num2;
        self.sccb_device_address = dev_addr | 0x1;
        self.sccb_reg_address = reg_addr;
        self.sccb_wdata = 0;
        self.events.push(DvpEvent::SccbCtlWrite { device: dev_addr | 0x1, reg: reg_addr, data: 0 });
        self.sccb_start_transfer();
        self.sccb_device_address = dev_addr;
        self.sccb_reg_address = 0;
        self.events.push(DvpEvent::SccbCtlWrite { device: dev_addr, reg: 0, data: 0 });
        self.sccb_start_transfer();
        let latched = self.status.take_next();
        proof {
            assert(self.events@ =~= old(self).events@ + seq![
                DvpEvent::SccbCtlWrite { device: dev_addr | 0x1, reg: reg_addr, data: 0 },
                DvpEvent::StsWrite(STS_SCCB_EN | STS_SCCB_EN_WE),
                DvpEvent::DelayMicros(1000),
                DvpEvent::SccbCtlWrite { device: dev_addr, reg: 0, data: 0 },
                DvpEvent::StsWrite(STS_SCCB_EN | STS_SCCB_EN_WE),
                DvpEvent::DelayMicros(1000),
            ]);
        }
        latched as u8
    }
}

} // verus!
