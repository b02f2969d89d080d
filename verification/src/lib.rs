//! Register-level driver stack for a RISC-V microcontroller's display and
//! camera peripherals: a DMA channel manager, an SPI bus driver, a high-speed
//! GPIO block, and a DVP/SCCB camera capture block, composed into an LCD
//! display controller.
//!
//! The peripherals are modelled at the register level.  Every register the
//! drivers program is an explicit field of the owning device value, every
//! write-only command register is logged in an event trace, and every status
//! bit that the hardware flips on its own is represented by a queue of read
//! results (see [`script`]).  The drivers are verified against this model:
//! their contracts pin down exactly which registers each call programs, which
//! bus traffic it emits, and how far each busy-wait poll advances.
//!
//! The display controller below owns its peripherals outright — the GPIO
//! block for its two lines, the system controller, the DMA engine and the
//! SPI bus — so the single-owner discipline the hardware requires holds by
//! construction.  Its observable behaviour is the panel protocol it emits,
//! logged in [`Lcd::events`]: command bytes, data units, reset-line moves,
//! and the mandated power-on delays.

use vstd::prelude::*;

pub mod dmac;
pub mod dvp;
pub mod gpiohs;
pub mod script;
pub mod spi;
pub mod sysctl;

verus! {

use crate::dmac::Dmac;
use crate::gpiohs::{Gpiohs, GpiohsBlock, spec_set_bit};
use crate::spi::{Aitm, FrameFormat, Spi, Tmod, WorkMode, spec_baud_div, spec_inst_len_code,
    valid_instruction_length};
use crate::sysctl::Sysctl;

/// Frequency of the system bus clock, in hertz.
pub const CPU_FREQ: u32 = 390_000_000;

/// GPIO line wired to the panel's reset input.
pub const RST: usize = 21;

/// GPIO line wired to the panel's data/command select input.
pub const DCX: usize = 22;

/// Chip select of the panel on the SPI bus.
pub const CHIP_SELECT: u32 = 3;

/// White in the panel's 16-bit colour encoding.
pub const WHITE: u16 = 0xffff;

/// Black in the panel's 16-bit colour encoding.
pub const BLACK: u16 = 0x0000;

/// Blue in the panel's 16-bit colour encoding.
pub const BLUE: u16 = 0x001f;

/// Red in the panel's 16-bit colour encoding.
pub const RED: u16 = 0xf800;

/// Green in the panel's 16-bit colour encoding.
pub const GREEN: u16 = 0x07e0;

/// Scan direction of the panel, set once at power-on.
#[derive(Clone, Copy, PartialEq, Eq, Structural, Debug)]
pub enum Dir {
    XyRlud,
    YxRlud,
    XyLrud,
    YxLrud,
    XyRldu,
    YxRldu,
    XyLrdu,
    YxLrdu,
}

impl Dir {
    /// The memory-access-control byte the panel expects for this direction.
    pub open spec fn spec_value(self) -> u8 {
        match self {
            Dir::XyRlud => 0x00,
            Dir::YxRlud => 0x20,
            Dir::XyLrud => 0x40,
            Dir::YxLrud => 0x60,
            Dir::XyRldu => 0x80,
            Dir::YxRldu => 0xa0,
            Dir::XyLrdu => 0xc0,
            Dir::YxLrdu => 0xe0,
        }
    }

    /// The memory-access-control byte the panel expects for this direction.
    pub fn value(self) -> (v: u8)
        ensures
            v == self.spec_value(),
    {
        match self {
            Dir::XyRlud => 0x00,
            Dir::YxRlud => 0x20,
            Dir::XyLrud => 0x40,
            Dir::YxLrud => 0x60,
            Dir::XyRldu => 0x80,
            Dir::YxRldu => 0xa0,
            Dir::XyLrdu => 0xc0,
            Dir::YxLrdu => 0xe0,
        }
    }
}

/// One observable step of the panel protocol, in wire order.
#[derive(Clone, Copy, PartialEq, Eq, Structural, Debug)]
pub enum PanelEvent {
    /// The reset line driven high.
    ResetHigh,
    /// The reset line driven low.
    ResetLow,
    /// A mandated timing delay, in microseconds.
    DelayMicros(u32),
    /// One byte sent in command mode.
    Command(u8),
    /// One byte sent in data mode.
    DataByte(u8),
    /// One 16-bit unit sent in data mode.
    DataShort(u16),
    /// One 32-bit unit sent in data mode.
    DataWord(u32),
}

/// The data events of a byte buffer, in order.
pub open spec fn byte_data_events(data: Seq<u8>) -> Seq<PanelEvent> {
    Seq::new(data.len(), |j: int| PanelEvent::DataByte(data[j]))
}

/// The words a byte buffer occupies on the 8-bit-framed wire.
pub open spec fn words_of_bytes(data: Seq<u8>) -> Seq<u32> {
    Seq::new(data.len(), |j: int| data[j] as u32)
}

/// The big-endian high/low split of two inclusive 16-bit bounds, as the
/// panel's address-set commands expect them.
pub open spec fn bound_bytes(a: u16, b: u16) -> Seq<u8> {
    seq![(a >> 8) as u8, a as u8, (b >> 8) as u8, b as u8]
}

/// The full addressing-window sequence: the column-address command with its
/// four-byte payload, the row-address command with its payload, then the
/// memory-write command.
pub open spec fn area_events(x1: u16, y1: u16, x2: u16, y2: u16) -> Seq<PanelEvent> {
    seq![PanelEvent::Command(0x2a)] + byte_data_events(bound_bytes(x1, x2)) + seq![
        PanelEvent::Command(0x2b),
    ] + byte_data_events(bound_bytes(y1, y2)) + seq![PanelEvent::Command(0x2c)]
}

/// Two 16-bit colours packed into one 32-bit wire word.
pub open spec fn packed_color(color: u16) -> u32 {
    (color as u32) << 16 | color as u32
}

/// How many fully packed words a rectangle's pixels occupy: two pixels per
/// word, under the exclusive upper-bound convention.  An odd area's last
/// pixel does not fit a packed word and follows on its own.
pub open spec fn fill_word_count(x1: u16, y1: u16, x2: u16, y2: u16) -> nat {
    (((x2 - x1) * (y2 - y1)) / 2) as nat
}

/// Whether a rectangle holds an odd number of pixels, leaving one over
/// after packing.
pub open spec fn fill_has_odd_pixel(x1: u16, y1: u16, x2: u16, y2: u16) -> bool {
    ((x2 - x1) * (y2 - y1)) % 2 == 1
}

/// The events of one rectangle fill: nothing at all for a degenerate
/// rectangle, else the addressing window over the inclusive bounds, the
/// packed colour words, and — when the pixel count is odd — the last
/// pixel's two bytes, high first, so every pixel of the area is streamed.
pub open spec fn rect_fill_events(x1: u16, y1: u16, x2: u16, y2: u16, color: u16) -> Seq<
    PanelEvent,
> {
    if x1 == x2 || y1 == y2 {
        Seq::empty()
    } else {
        area_events(x1, y1, (x2 - 1) as u16, (y2 - 1) as u16) + Seq::new(
            fill_word_count(x1, y1, x2, y2),
            |j: int| PanelEvent::DataWord(packed_color(color)),
        ) + (if fill_has_odd_pixel(x1, y1, x2, y2) {
            seq![PanelEvent::DataByte((color >> 8) as u8), PanelEvent::DataByte(color as u8)]
        } else {
            Seq::<PanelEvent>::empty()
        })
    }
}

/// The events of one pixel: a one-by-one addressing window and the colour's
/// two bytes, high first.
pub open spec fn point_events(x: u16, y: u16, color: u16) -> Seq<PanelEvent> {
    area_events(x, y, x, y) + seq![
        PanelEvent::DataByte((color >> 8) as u8),
        PanelEvent::DataByte(color as u8),
    ]
}

/// Whether column `j` of a glyph row byte is set; column zero is the
/// most significant bit.
pub open spec fn glyph_bit(row: u8, j: int) -> bool {
    (row as u32) & (0x80u32 >> j as u32) != 0
}

/// The events of one glyph row from column `j` on: a pixel for every set
/// bit, left to right.
pub open spec fn glyph_row_events(row: u8, x: u16, y: u16, color: u16, j: int) -> Seq<PanelEvent>
    decreases 8 - j,
{
    if j < 0 || j >= 8 {
        Seq::empty()
    } else {
        (if glyph_bit(row, j) {
            point_events((x + j) as u16, y, color)
        } else {
            Seq::empty()
        }) + glyph_row_events(row, x, y, color, j + 1)
    }
}

/// The events of one glyph from row `i` on: its sixteen rows top to bottom,
/// each taken from the font table.
pub open spec fn char_events(font: Seq<u8>, c: char, x: u16, y: u16, color: u16, i: int) -> Seq<
    PanelEvent,
>
    decreases 16 - i,
{
    if i < 0 || i >= 16 {
        Seq::empty()
    } else {
        glyph_row_events(font[(c as int) * 16 + i], x, (y + i) as u16, color, 0) + char_events(
            font,
            c,
            x,
            y,
            color,
            i + 1,
        )
    }
}

/// The events of a string from character `i` on: one glyph every eight
/// columns.
pub open spec fn string_events(
    font: Seq<u8>,
    s: Seq<char>,
    x: u16,
    y: u16,
    color: u16,
    i: int,
) -> Seq<PanelEvent>
    decreases s.len() - i,
{
    if i < 0 || i >= s.len() {
        Seq::empty()
    } else {
        char_events(font, s[i], (x + 8 * i) as u16, y, color, 0) + string_events(
            font,
            s,
            x,
            y,
            color,
            i + 1,
        )
    }
}

/// The fixed power-on sequence: a timed reset pulse, software reset,
/// sleep-out, 16-bit pixel format, inversion on, the scan direction,
/// display-on — each with its mandated settle delay — and a full-screen
/// clear to white.
pub open spec fn power_on_events(max_x: u16, max_y: u16, dir: Dir) -> Seq<PanelEvent> {
    seq![
        PanelEvent::ResetHigh,
        PanelEvent::DelayMicros(50000),
        PanelEvent::ResetLow,
        PanelEvent::DelayMicros(50000),
        PanelEvent::ResetHigh,
        PanelEvent::Command(0x01),
        PanelEvent::DelayMicros(50000),
        PanelEvent::Command(0x11),
        PanelEvent::DelayMicros(50000),
        PanelEvent::Command(0x3a),
        PanelEvent::DataByte(0x55),
        PanelEvent::DelayMicros(10000),
        PanelEvent::Command(0x21),
        PanelEvent::DelayMicros(10000),
        PanelEvent::Command(0x36),
        PanelEvent::DataByte(dir.spec_value()),
        PanelEvent::DelayMicros(10000),
        PanelEvent::Command(0x29),
        PanelEvent::DelayMicros(10000),
    ] + rect_fill_events(0, 0, max_x, max_y, WHITE)
}

/// The display controller: its two GPIO lines, the peripherals it owns, the
/// panel geometry, the glyph table, and the panel protocol it has emitted.
///
/// Every transfer here drives the bus through its polled transmit pump; the
/// DMA hand-off stays available on [`Spi::send_data_dma`] for bulk paths
/// that carry their buffer's physical address.
pub struct Lcd {
    /// Handle on the panel's reset line.
    pub rst: Gpiohs,
    /// Handle on the panel's data/command select line.
    pub dcx: Gpiohs,
    /// The GPIO block both lines live in.
    pub gpio: GpiohsBlock,
    /// The system controller.
    pub sysctl: Sysctl,
    /// The DMA engine, brought up at construction.
    pub dmac: Dmac,
    /// The SPI bus the panel hangs off.
    pub spi: Spi,
    /// Horizontal size of the panel, in pixels.
    pub max_x: u16,
    /// Vertical size of the panel, in pixels.
    pub max_y: u16,
    /// Glyph table: sixteen row bytes for each of 256 characters.
    pub font: Vec<u8>,
    /// The panel protocol emitted so far.
    pub events: Vec<PanelEvent>,
}

/// The parts of the controller no draw call may touch: the line
/// assignments, the geometry, the glyph table, and the DMA engine.
pub open spec fn lcd_frame_eq(pre: Lcd, post: Lcd) -> bool {
    &&& post.rst == pre.rst
    &&& post.dcx == pre.dcx
    &&& post.max_x == pre.max_x
    &&& post.max_y == pre.max_y
    &&& post.font == pre.font
    &&& post.dmac == pre.dmac
}

/// The bus configuration every display transfer runs under: octal frames of
/// the given width at ten megahertz, transmit-only, with the enhanced
/// framing carrying the given instruction and address phases, and the bus
/// left disabled with no chip select asserted.
pub open spec fn display_framing(
    spi: Spi,
    sysctl: Sysctl,
    data_bits: u8,
    inst_bits: u32,
    addr_bits: u32,
) -> bool {
    &&& spi.work_mode == WorkMode::Mode0
    &&& spi.tmod == Tmod::Trans
    &&& spi.frame_format == FrameFormat::Octal
    &&& spi.data_length == data_bits - 1
    &&& spi.aitm == Aitm::AsFrameFormat
    &&& spi.wait_cycles == 0
    &&& spi.inst_length == spec_inst_len_code(inst_bits)
    &&& spi.addr_length == (addr_bits / 4) as u8
    &&& spi.endian == 0
    &&& spi.baud_rate == spec_baud_div(sysctl.aclk_freq, sysctl.apb2_clk_sel, 10_000_000)
    &&& spi.interrupt_mask == 0
    &&& spi.dma_control == 0
    &&& spi.dma_tx_level == 0x10
    &&& spi.dma_rx_level == 0
    &&& spi.slave_select == 0
    &&& !spi.enabled
}

impl Lcd {
    /// The controller's invariant: consistent peripherals, a full glyph
    /// table, and its two lines where the board routes them.
    pub open spec fn wf(self) -> bool {
        &&& self.sysctl.wf()
        &&& self.dmac.wf()
        &&& self.spi.wf()
        &&& self.font@.len() == 4096
        &&& self.rst.index == RST
        &&& self.dcx.index == DCX
    }

    /// Record one mandated timing delay.
    fn delay_us(&mut self, micros: u32)
        ensures
            final(self).events@ == old(self).events@.push(PanelEvent::DelayMicros(micros)),
            *final(self) == (Lcd { events: final(self).events, ..*old(self) }),
    {
        self.events.push(PanelEvent::DelayMicros(micros));
    }

    /// Configure the bus for one display transfer: octal frames of the
    /// given width at ten megahertz, and the enhanced framing's instruction
    /// and address phases.
    fn configure_framing(&mut self, data_bits: u8, inst_bits: u32, addr_bits: u32)
        requires
            old(self).wf(),
            data_bits >= 1,
            valid_instruction_length(inst_bits),
            addr_bits < 1024,
        ensures
            final(self).wf(),
            display_framing(final(self).spi, final(self).sysctl, data_bits, inst_bits, addr_bits),
            final(self).spi.transmitted == old(self).spi.transmitted,
            Spi::spec_clocks_opened(old(self).sysctl, final(self).sysctl),
            final(self).gpio == old(self).gpio,
            final(self).events == old(self).events,
            lcd_frame_eq(*old(self), *final(self)),
    {
        self.spi.configure(
            &mut self.sysctl,
            WorkMode::Mode0,
            FrameFormat::Octal,
            data_bits,
            0,
            10_000_000,
        );
        let framing = self.spi.set_non_standard_mode(inst_bits, addr_bits, 0, Aitm::AsFrameFormat);
        proof {
            assert(framing is Ok);
        }
    }

    /// Send one command byte: command mode on the data/command line, 8-bit
    /// frames with an 8-bit instruction phase and no address phase.
    pub fn send_command(&mut self, cmd: u8)
        requires
            old(self).wf(),
        ensures
            final(self).wf(),
            final(self).events@ == old(self).events@.push(PanelEvent::Command(cmd)),
            final(self).spi.transmitted@ == old(self).spi.transmitted@.push(cmd as u32),
            final(self).gpio.output_val == spec_set_bit(
                old(self).gpio.output_val,
                false,
                DCX as u32,
            ),
            final(self).gpio.output_en == old(self).gpio.output_en,
            final(self).gpio.input_en == old(self).gpio.input_en,
            Spi::spec_clocks_opened(old(self).sysctl, final(self).sysctl),
            display_framing(final(self).spi, final(self).sysctl, 8, 8, 0),
            lcd_frame_eq(*old(self), *final(self)),
    {
        self.dcx.set_low(&mut self.gpio);
        self.configure_framing(8, 8, 0);
        let mut buf: Vec<u32> = Vec::new();
        buf.push(cmd as u32);
        self.spi.send_data(CHIP_SELECT, &buf);
        self.events.push(PanelEvent::Command(cmd));
        proof {
            assert(self.spi.transmitted@ =~= old(self).spi.transmitted@.push(cmd as u32));
        }
    }

    /// Send one data byte: data mode, 8-bit frames with an 8-bit address
    /// phase and no instruction phase.
    pub fn send_byte(&mut self, data: u8)
        requires
            old(self).wf(),
        ensures
            final(self).wf(),
            final(self).events@ == old(self).events@.push(PanelEvent::DataByte(data)),
            final(self).spi.transmitted@ == old(self).spi.transmitted@.push(data as u32),
            final(self).gpio.output_val == spec_set_bit(
                old(self).gpio.output_val,
                true,
                DCX as u32,
            ),
            final(self).gpio.output_en == old(self).gpio.output_en,
            final(self).gpio.input_en == old(self).gpio.input_en,
            Spi::spec_clocks_opened(old(self).sysctl, final(self).sysctl),
            display_framing(final(self).spi, final(self).sysctl, 8, 0, 8),
            lcd_frame_eq(*old(self), *final(self)),
    {
        self.dcx.set_high(&mut self.gpio);
        self.configure_framing(8, 0, 8);
        let mut buf: Vec<u32> = Vec::new();
        buf.push(data as u32);
        self.spi.send_data(CHIP_SELECT, &buf);
        self.events.push(PanelEvent::DataByte(data));
        proof {
            assert(self.spi.transmitted@ =~= old(self).spi.transmitted@.push(data as u32));
        }
    }

    /// Send a buffer of data bytes under 8-bit framing.
    pub fn send_bytes(&mut self, data: &Vec<u8>)
        requires
            old(self).wf(),
        ensures
            final(self).wf(),
            final(self).events@ == old(self).events@ + byte_data_events(data@),
            final(self).spi.transmitted@ == old(self).spi.transmitted@ + words_of_bytes(data@),
            final(self).gpio.output_val == spec_set_bit(
                old(self).gpio.output_val,
                true,
                DCX as u32,
            ),
            final(self).gpio.output_en == old(self).gpio.output_en,
            final(self).gpio.input_en == old(self).gpio.input_en,
            Spi::spec_clocks_opened(old(self).sysctl, final(self).sysctl),
            display_framing(final(self).spi, final(self).sysctl, 8, 0, 8),
            lcd_frame_eq(*old(self), *final(self)),
    {
        self.dcx.set_high(&mut self.gpio);
        self.configure_framing(8, 0, 8);
        let mut buf: Vec<u32> = Vec::new();
        let mut i: usize = 0;
        while i < data.len()
            invariant
                i <= data@.len(),
                buf@ == words_of_bytes(data@).subrange(0, i as int),
            decreases data@.len() - i,
        {
            buf.push(data[i] as u32);
            i = i + 1;
            proof {
                assert(buf@ =~= words_of_bytes(data@).subrange(0, i as int));
            }
        }
        proof {
            assert(buf@ =~= words_of_bytes(data@));
        }
        self.spi.send_data(CHIP_SELECT, &buf);
        let ghost mid = *self;
        let mut j: usize = 0;
        while j < data.len()
            invariant
                j <= data@.len(),
                self.events@ == mid.events@ + byte_data_events(data@).subrange(0, j as int),
                *self == (Lcd { events: self.events, ..mid }),
            decreases data@.len() - j,
        {
            self.events.push(PanelEvent::DataByte(data[j]));
            j = j + 1;
            proof {
                assert(self.events@ =~= mid.events@ + byte_data_events(data@).subrange(
                    0,
                    j as int,
                ));
            }
        }
        proof {
            assert(self.events@ =~= old(self).events@ + byte_data_events(data@));
            assert(self.spi.transmitted@ =~= old(self).spi.transmitted@ + words_of_bytes(data@));
        }
    }

    /// Send a buffer of 16-bit units under 16-bit framing.
    pub fn send_shorts(&mut self, data: &Vec<u16>)
        requires
            old(self).wf(),
        ensures
            final(self).wf(),
            final(self).events@ == old(self).events@ + Seq::new(
                data@.len(),
                |j: int| PanelEvent::DataShort(data@[j]),
            ),
            final(self).spi.transmitted@ == old(self).spi.transmitted@ + Seq::new(
                data@.len(),
                |j: int| data@[j] as u32,
            ),
            final(self).gpio.output_val == spec_set_bit(
                old(self).gpio.output_val,
                true,
                DCX as u32,
            ),
            final(self).gpio.output_en == old(self).gpio.output_en,
            final(self).gpio.input_en == old(self).gpio.input_en,
            Spi::spec_clocks_opened(old(self).sysctl, final(self).sysctl),
            display_framing(final(self).spi, final(self).sysctl, 16, 0, 16),
            lcd_frame_eq(*old(self), *final(self)),
    {
        self.dcx.set_high(&mut self.gpio);
        self.configure_framing(16, 0, 16);
        let mut buf: Vec<u32> = Vec::new();
        let mut i: usize = 0;
        while i < data.len()
            invariant
                i <= data@.len(),
                buf@ == Seq::new(data@.len(), |j: int| data@[j] as u32).subrange(0, i as int),
            decreases data@.len() - i,
        {
            buf.push(data[i] as u32);
            i = i + 1;
            proof {
                assert(buf@ =~= Seq::new(data@.len(), |j: int| data@[j] as u32).subrange(
                    0,
                    i as int,
                ));
            }
        }
        proof {
            assert(buf@ =~= Seq::new(data@.len(), |j: int| data@[j] as u32));
        }
        self.spi.send_data(CHIP_SELECT, &buf);
        let ghost mid = *self;
        let mut j: usize = 0;
        while j < data.len()
            invariant
                j <= data@.len(),
                self.events@ == mid.events@ + Seq::new(
                    data@.len(),
                    |k: int| PanelEvent::DataShort(data@[k]),
                ).subrange(0, j as int),
                *self == (Lcd { events: self.events, ..mid }),
            decreases data@.len() - j,
        {
            self.events.push(PanelEvent::DataShort(data[j]));
            j = j + 1;
            proof {
                assert(self.events@ =~= mid.events@ + Seq::new(
                    data@.len(),
                    |k: int| PanelEvent::DataShort(data@[k]),
                ).subrange(0, j as int));
            }
        }
        proof {
            assert(self.events@ =~= old(self).events@ + Seq::new(
                data@.len(),
                |k: int| PanelEvent::DataShort(data@[k]),
            ));
            assert(self.spi.transmitted@ =~= old(self).spi.transmitted@ + Seq::new(
                data@.len(),
                |j: int| data@[j] as u32,
            ));
        }
    }

    /// Send a buffer of 32-bit units under 32-bit framing.
    pub fn send_words(&mut self, data: &Vec<u32>)
        requires
            old(self).wf(),
        ensures
            final(self).wf(),
            final(self).events@ == old(self).events@ + Seq::new(
                data@.len(),
                |j: int| PanelEvent::DataWord(data@[j]),
            ),
            final(self).spi.transmitted@ == old(self).spi.transmitted@ + data@,
            final(self).gpio.output_val == spec_set_bit(
                old(self).gpio.output_val,
                true,
                DCX as u32,
            ),
            final(self).gpio.output_en == old(self).gpio.output_en,
            final(self).gpio.input_en == old(self).gpio.input_en,
            Spi::spec_clocks_opened(old(self).sysctl, final(self).sysctl),
            display_framing(final(self).spi, final(self).sysctl, 32, 0, 32),
            lcd_frame_eq(*old(self), *final(self)),
    {
        self.dcx.set_high(&mut self.gpio);
        self.configure_framing(32, 0, 32);
        self.spi.send_data(CHIP_SELECT, data);
        let ghost mid = *self;
        let mut j: usize = 0;
        while j < data.len()
            invariant
                j <= data@.len(),
                self.events@ == mid.events@ + Seq::new(
                    data@.len(),
                    |k: int| PanelEvent::DataWord(data@[k]),
                ).subrange(0, j as int),
                *self == (Lcd { events: self.events, ..mid }),
            decreases data@.len() - j,
        {
            self.events.push(PanelEvent::DataWord(data[j]));
            j = j + 1;
            proof {
                assert(self.events@ =~= mid.events@ + Seq::new(
                    data@.len(),
                    |k: int| PanelEvent::DataWord(data@[k]),
                ).subrange(0, j as int));
            }
        }
        proof {
            assert(self.events@ =~= old(self).events@ + Seq::new(
                data@.len(),
                |k: int| PanelEvent::DataWord(data@[k]),
            ));
        }
    }

    /// Stream one constant 32-bit word a given number of times under 32-bit
    /// framing, without allocating a buffer.
    pub fn fill_data(&mut self, value: u32, len: usize)
        requires
            old(self).wf(),
        ensures
            final(self).wf(),
            final(self).events@ == old(self).events@ + Seq::new(
                len as nat,
                |j: int| PanelEvent::DataWord(value),
            ),
            final(self).spi.transmitted@ == old(self).spi.transmitted@ + Seq::new(
                len as nat,
                |j: int| value,
            ),
            final(self).gpio.output_val == spec_set_bit(
                old(self).gpio.output_val,
                true,
                DCX as u32,
            ),
            final(self).gpio.output_en == old(self).gpio.output_en,
            final(self).gpio.input_en == old(self).gpio.input_en,
            Spi::spec_clocks_opened(old(self).sysctl, final(self).sysctl),
            display_framing(final(self).spi, final(self).sysctl, 32, 0, 32),
            lcd_frame_eq(*old(self), *final(self)),
    {
        self.dcx.set_high(&mut self.gpio);
        self.configure_framing(32, 0, 32);
        self.spi.fill_data(CHIP_SELECT, value, len);
        let ghost mid = *self;
        let mut j: usize = 0;
        while j < len
            invariant
                j <= len,
                self.events@ == mid.events@ + Seq::new(j as nat, |k: int| PanelEvent::DataWord(value)),
                *self == (Lcd { events: self.events, ..mid }),
            decreases len - j,
        {
            self.events.push(PanelEvent::DataWord(value));
            j = j + 1;
            proof {
                assert(self.events@ =~= mid.events@ + Seq::new(
                    j as nat,
                    |k: int| PanelEvent::DataWord(value),
                ));
            }
        }
        proof {
            assert(self.events@ =~= old(self).events@ + Seq::new(
                len as nat,
                |k: int| PanelEvent::DataWord(value),
            ));
        }
    }

    /// Establish the rectangular addressing window with inclusive bounds:
    /// column-address set, row-address set — each four big-endian bytes —
    /// then the memory-write command.
    pub fn lcd_set_area(&mut self, x1: u16, y1: u16, x2: u16, y2: u16)
        requires
            old(self).wf(),
        ensures
            final(self).wf(),
            final(self).events@ == old(self).events@ + area_events(x1, y1, x2, y2),
            Spi::spec_clocks_opened(old(self).sysctl, final(self).sysctl),
            final(self).gpio.output_val == spec_set_bit(
                old(self).gpio.output_val,
                false,
                DCX as u32,
            ),
            lcd_frame_eq(*old(self), *final(self)),
    {
        let mut buf: Vec<u8> = Vec::new();
        buf.push((x1 >> 8) as u8);
        buf.push(#[verifier::truncate] (x1 as u8));
        buf.push((x2 >> 8) as u8);
        buf.push(#[verifier::truncate] (x2 as u8));
        self.send_command(0x2a);
        self.send_bytes(&buf);
        proof {
            assert(buf@ =~= bound_bytes(x1, x2));
        }

        let mut buf2: Vec<u8> = Vec::new();
        buf2.push((y1 >> 8) as u8);
        buf2.push(#[verifier::truncate] (y1 as u8));
        buf2.push((y2 >> 8) as u8);
        buf2.push(#[verifier::truncate] (y2 as u8));
        self.send_command(0x2b);
        self.send_bytes(&buf2);
        proof {
            assert(buf2@ =~= bound_bytes(y1, y2));
        }

        self.send_command(0x2c);
        proof {
            crate::gpiohs::lemma_set_bit_overwrite(
                old(self).gpio.output_val,
                false,
                true,
                DCX as u32,
            );
            crate::gpiohs::lemma_set_bit_overwrite(
                old(self).gpio.output_val,
                true,
                false,
                DCX as u32,
            );
            assert(self.events@ =~= old(self).events@ + area_events(x1, y1, x2, y2));
        }
    }

    /// Fill a rectangle given with exclusive upper bounds.  A degenerate
    /// rectangle — zero width or zero height — is a no-op that touches no
    /// register at all; otherwise the addressing window is set to the
    /// inclusive bounds and every pixel of the area streams out: packed two
    /// to a word, with an odd area's last pixel following as its two bytes.
    pub fn fill_rectangle(&mut self, x1: u16, y1: u16, x2: u16, y2: u16, color: u16)
        requires
            old(self).wf(),
            x1 <= x2,
            y1 <= y2,
        ensures
            final(self).wf(),
            final(self).events@ == old(self).events@ + rect_fill_events(x1, y1, x2, y2, color),
            (x1 == x2 || y1 == y2) ==> *final(self) == *old(self),
            lcd_frame_eq(*old(self), *final(self)),
    {
        if x1 == x2 || y1 == y2 {
            proof {
                assert(self.events@ =~= old(self).events@ + rect_fill_events(
                    x1,
                    y1,
                    x2,
                    y2,
                    color,
                ));
            }
            return ;
        }
        self.lcd_set_area(x1, y1, x2 - 1, y2 - 1);
        let color32: u32 = (color as u32) << 16 | color as u32;
        let dx: u32 = (x2 - x1) as u32;
        let dy: u32 = (y2 - y1) as u32;
        assert(dx * dy <= 0xffff * 0xffff) by (nonlinear_arith)
            requires
                dx <= 0xffff,
                dy <= 0xffff,
        ;
        let total: u32 = dx * dy;
        self.fill_data(color32, (total / 2) as usize);
        if total % 2 == 1 {
            let mut last_pixel: Vec<u8> = Vec::new();
            last_pixel.push((color >> 8) as u8);
            last_pixel.push(#[verifier::truncate] (color as u8));
            self.send_bytes(&last_pixel);
            proof {
                assert(byte_data_events(last_pixel@) =~= seq![
                    PanelEvent::DataByte((color >> 8) as u8),
                    PanelEvent::DataByte(color as u8),
                ]);
            }
        }
        proof {
            assert(self.events@ =~= old(self).events@ + rect_fill_events(x1, y1, x2, y2, color));
        }
    }

    /// Draw one pixel: a one-by-one addressing window, then the colour's
    /// two bytes.
    pub fn lcd_draw_point(&mut self, x: u16, y: u16, color: u16)
        requires
            old(self).wf(),
        ensures
            final(self).wf(),
            final(self).events@ == old(self).events@ + point_events(x, y, color),
            lcd_frame_eq(*old(self), *final(self)),
    {
        self.lcd_set_area(x, y, x, y);
        let mut buf: Vec<u8> = Vec::new();
        buf.push((color >> 8) as u8);
        buf.push(#[verifier::truncate] (color as u8));
        self.send_bytes(&buf);
        proof {
            assert(byte_data_events(buf@) =~= seq![
                PanelEvent::DataByte((color >> 8) as u8),
                PanelEvent::DataByte(color as u8),
            ]);
            assert(self.events@ =~= old(self).events@ + point_events(x, y, color));
        }
    }

    /// Draw one glyph from the font table: sixteen rows of eight columns,
    /// one pixel per set bit.
    pub fn lcd_draw_char(&mut self, x: u16, y: u16, c: char, color: u16)
        requires
            old(self).wf(),
            (c as u32) < 256,
            x + 7 <= 0xffff,
            y + 15 <= 0xffff,
        ensures
            final(self).wf(),
            final(self).events@ == old(self).events@ + char_events(
                old(self).font@,
                c,
                x,
                y,
                color,
                0,
            ),
            lcd_frame_eq(*old(self), *final(self)),
    {
        let ghost font0 = self.font@;
        let mut i: usize = 0;
        while i < 16
            invariant
                self.wf(),
                lcd_frame_eq(*old(self), *self),
                self.font@ == font0,
                (c as u32) < 256,
                x + 7 <= 0xffff,
                y + 15 <= 0xffff,
                i <= 16,
                self.events@ + char_events(font0, c, x, y, color, i as int) == old(self).events@
                    + char_events(font0, c, x, y, color, 0),
            decreases 16 - i,
        {
            let ghost events_at_row = self.events@;
            let idx: usize = (c as usize) * 16 + i;
            let row: u8 = self.font[idx];
            let row_y: u16 = y + (i as u16);
            let mut j: u16 = 0;
            while j < 8
                invariant
                    self.wf(),
                    lcd_frame_eq(*old(self), *self),
                    self.font@ == font0,
                    x + 7 <= 0xffff,
                    j <= 8,
                    row == font0[(c as int) * 16 + i],
                    i < 16,
                    (c as u32) < 256,
                    self.events@ + glyph_row_events(row, x, row_y, color, j as int)
                        == events_at_row + glyph_row_events(row, x, row_y, color, 0),
                decreases 8 - j,
            {
                let mask: u32 = 0x80u32 >> (j as u32);
                let ghost events_at_col = self.events@;
                if (row as u32) & mask != 0 {
                    self.lcd_draw_point(x + j, row_y, color);
                    proof {
                        assert(glyph_bit(row, j as int));
                        assert(self.events@ =~= events_at_col + point_events(
                            (x + j) as u16,
                            row_y,
                            color,
                        ));
                    }
                } else {
                    proof {
                        assert(!glyph_bit(row, j as int));
                    }
                }
                j = j + 1;
                proof {
                    assert(events_at_col + glyph_row_events(row, x, row_y, color, j - 1)
                        =~= events_at_col + ((if glyph_bit(row, j - 1) {
                        point_events((x + (j - 1)) as u16, row_y, color)
                    } else {
                        Seq::<PanelEvent>::empty()
                    }) + glyph_row_events(row, x, row_y, color, j as int)));
                    assert(self.events@ + glyph_row_events(row, x, row_y, color, j as int)
                        =~= events_at_row + glyph_row_events(row, x, row_y, color, 0));
                }
            }
            i = i + 1;
            proof {
                assert(glyph_row_events(row, x, row_y, color, 8) =~= Seq::<PanelEvent>::empty());
                assert(self.events@ =~= events_at_row + glyph_row_events(row, x, row_y, color, 0));
                assert(char_events(font0, c, x, y, color, i - 1) == glyph_row_events(
                    font0[(c as int) * 16 + (i - 1)],
                    x,
                    (y + (i - 1)) as u16,
                    color,
                    0,
                ) + char_events(font0, c, x, y, color, i as int));
                assert(self.events@ + char_events(font0, c, x, y, color, i as int)
                    =~= old(self).events@ + char_events(font0, c, x, y, color, 0));
            }
        }
        proof {
            assert(char_events(font0, c, x, y, color, 16) =~= Seq::<PanelEvent>::empty());
            assert(self.events@ =~= old(self).events@ + char_events(font0, c, x, y, color, 0));
        }
    }

    /// Draw a string left to right, one glyph every eight columns.
    pub fn lcd_draw_string(&mut self, x: u16, y: u16, s: &str, color: u16)
        requires
            old(self).wf(),
            forall|i: int| 0 <= i < s@.len() ==> (s@[i] as u32) < 256,
            x + 8 * s@.len() <= 0xffff,
            s@.len() > 0 ==> y + 15 <= 0xffff,
        ensures
            final(self).wf(),
            final(self).events@ == old(self).events@ + string_events(
                old(self).font@,
                s@,
                x,
                y,
                color,
                0,
            ),
            lcd_frame_eq(*old(self), *final(self)),
    {
        let ghost font0 = self.font@;
        let n: usize = s.unicode_len();
        let mut mx: u16 = x;
        let mut i: usize = 0;
        while i < n
            invariant
                self.wf(),
                lcd_frame_eq(*old(self), *self),
                self.font@ == font0,
                n == s@.len(),
                forall|k: int| 0 <= k < s@.len() ==> (s@[k] as u32) < 256,
                x + 8 * s@.len() <= 0xffff,
                n > 0 ==> y + 15 <= 0xffff,
                i <= n,
                mx == x + 8 * i,
                self.events@ + string_events(font0, s@, x, y, color, i as int) == old(self).events@
                    + string_events(font0, s@, x, y, color, 0),
            decreases n - i,
        {
            let c = s.get_char(i);
            self.lcd_draw_char(mx, y, c, color);
            mx = mx + 8;
            i = i + 1;
            proof {
                assert(self.events@ + string_events(font0, s@, x, y, color, i as int)
                    =~= old(self).events@ + string_events(font0, s@, x, y, color, 0));
            }
        }
        proof {
            assert(string_events(font0, s@, x, y, color, n as int) =~= Seq::<PanelEvent>::empty());
            assert(self.events@ =~= old(self).events@ + string_events(font0, s@, x, y, color, 0));
        }
    }

    /// Replace one character's sixteen glyph rows.
    pub fn set_glyph(&mut self, c: u8, rows: &Vec<u8>)
        requires
            old(self).wf(),
            rows@.len() == 16,
        ensures
            final(self).wf(),
            final(self).font@.len() == 4096,
            forall|k: int|
                0 <= k < 4096 ==> final(self).font@[k] == if (c as int) * 16 <= k < (c as int) * 16
                    + 16 {
                    rows@[k - (c as int) * 16]
                } else {
                    old(self).font@[k]
                },
            *final(self) == (Lcd { font: final(self).font, ..*old(self) }),
    {
        let base: usize = (c as usize) * 16;
        let mut i: usize = 0;
        while i < 16
            invariant
                self.font@.len() == 4096,
                base == (c as int) * 16,
                base + 16 <= 4096,
                rows@.len() == 16,
                i <= 16,
                forall|k: int|
                    0 <= k < 4096 ==> self.font@[k] == if base <= k < base + i {
                        rows@[k - base]
                    } else {
                        old(self).font@[k]
                    },
                *self == (Lcd { font: self.font, ..*old(self) }),
            decreases 16 - i,
        {
            self.font[base + i] = rows[i];
            i = i + 1;
        }
    }

    /// Bring the panel up: route and pulse the reset line with the panel's
    /// mandated delays, bring up the DMA engine, run the power-on command
    /// sequence, and clear the whole screen to white.  The glyph table
    /// starts out blank and is filled per character with
    /// [`Lcd::set_glyph`].
    pub fn new_lcd(max_x: u16, max_y: u16, dir: Dir) -> (lcd: Lcd)
        ensures
            lcd.wf(),
            lcd.max_x == max_x,
            lcd.max_y == max_y,
            lcd.events@ == power_on_events(max_x, max_y, dir),
            forall|k: int| 0 <= k < 4096 ==> lcd.font@[k] == 0u8,
            lcd.dmac.enabled && lcd.dmac.int_enabled,
            lcd.dmac.status.pending() == Seq::<u32>::empty(),
    {
        let mut font: Vec<u8> = Vec::new();
        let mut k: usize = 0;
        while k < 4096
            invariant
                k <= 4096,
                font@.len() == k,
                forall|j: int| 0 <= j < k ==> font@[j] == 0u8,
            decreases 4096 - k,
        {
            font.push(0);
            k = k + 1;
        }

        let rst = Gpiohs::new(RST);
        let dcx = Gpiohs::new(DCX);
        let mut sysctl = Sysctl::new(CPU_FREQ, 0, 0);
        let spi = Spi::new_spi0(&mut sysctl, WorkMode::Mode0, FrameFormat::Octal, 8, 0, 10_000_000);
        let mut lcd = Lcd {
            rst,
            dcx,
            gpio: GpiohsBlock::new(),
            sysctl,
            dmac: Dmac::new(),
            spi,
            max_x,
            max_y,
            font,
            events: Vec::new(),
        };
        lcd.rst.set_output(&mut lcd.gpio);
        lcd.dcx.set_output(&mut lcd.gpio);

        lcd.rst.set_high(&mut lcd.gpio);
        lcd.events.push(PanelEvent::ResetHigh);
        lcd.delay_us(50_000);
        lcd.rst.set_low(&mut lcd.gpio);
        lcd.events.push(PanelEvent::ResetLow);
        lcd.delay_us(50_000);
        lcd.rst.set_high(&mut lcd.gpio);
        lcd.events.push(PanelEvent::ResetHigh);

        lcd.dmac.init(&mut lcd.sysctl);

        lcd.send_command(0x01);
        lcd.delay_us(50_000);
        lcd.send_command(0x11);
        lcd.delay_us(50_000);
        lcd.send_command(0x3a);
        lcd.send_byte(0x55);
        lcd.delay_us(10_000);
        lcd.send_command(0x21);
        lcd.delay_us(10_000);
        lcd.send_command(0x36);
        lcd.send_byte(dir.value());
        lcd.delay_us(10_000);
        lcd.send_command(0x29);
        lcd.delay_us(10_000);
        lcd.fill_rectangle(0, 0, max_x, max_y, WHITE);
        proof {
            assert(lcd.events@ =~= power_on_events(max_x, max_y, dir));
        }
        lcd
    }
}

} // verus!
