//! System controller: clock gates, clock selectors, and the DMA handshake
//! routing matrix.
//!
//! The controller is modelled as an owned register file.  The clock
//! frequencies that the real block derives from its PLL registers are held
//! as plain values fixed at construction, since the drivers only ever read
//! them to derive dividers.

use vstd::prelude::*;

verus! {

use crate::dmac::Channel;

/// Peripheral request source routed to a DMA channel.
#[derive(Clone, Copy, PartialEq, Eq, Structural, Debug)]
pub enum DmaSelect {
    Ssi0RxReq,
    Ssi0TxReq,
    Ssi1RxReq,
    Ssi1TxReq,
    I2s0RxReq,
    I2s0TxReq,
    AiRxReq,
    FftRxReq,
    FftTxReq,
}

/// The system controller's register file, as far as these drivers touch it.
pub struct Sysctl {
    /// Frequency of the AXI bus clock, in hertz.
    pub aclk_freq: u32,
    /// Divider select for the first peripheral bus clock.
    pub apb1_clk_sel: u8,
    /// Divider select for the second peripheral bus clock.
    pub apb2_clk_sel: u8,
    /// Clock gate of the first peripheral bus.
    pub apb1_clk_en: bool,
    /// Clock gate of the second peripheral bus.
    pub apb2_clk_en: bool,
    /// Clock gate of the DMA engine.
    pub dma_clk_en: bool,
    /// Clock gate of the SPI0 controller.
    pub spi0_clk_en: bool,
    /// Clock gate of the DVP capture block.
    pub dvp_clk_en: bool,
    /// Extra divider threshold of the SPI0 device clock.
    pub spi0_clk_threshold: u8,
    /// Routes the shared SPI/DVP data pins to the enabled peripheral.
    pub spi_dvp_data_enable: bool,
    /// Reset line of the DVP block.
    pub dvp_reset: bool,
    /// Power-domain voltage select, bank 6.
    pub power_mode_sel6: bool,
    /// Power-domain voltage select, bank 7.
    pub power_mode_sel7: bool,
    /// Handshake request source of each DMA channel.
    pub dma_select: Vec<DmaSelect>,
}

impl Sysctl {
    /// One routing entry per DMA channel.
    pub open spec fn wf(self) -> bool {
        self.dma_select@.len() == 6
    }

    /// A controller whose clock tree runs at the given frequencies, with
    /// every gate still closed and every select at its reset value.
    pub fn new(aclk_freq: u32, apb1_clk_sel: u8, apb2_clk_sel: u8) -> (s: Sysctl)
        ensures
            s.wf(),
            s.aclk_freq == aclk_freq,
            s.apb1_clk_sel == apb1_clk_sel,
            s.apb2_clk_sel == apb2_clk_sel,
            !s.apb1_clk_en && !s.apb2_clk_en,
            !s.dma_clk_en && !s.spi0_clk_en && !s.dvp_clk_en,
            s.spi0_clk_threshold == 0,
            !s.spi_dvp_data_enable,
            !s.dvp_reset,
            !s.power_mode_sel6 && !s.power_mode_sel7,
            forall|i: int| 0 <= i < 6 ==> s.dma_select@[i] == DmaSelect::Ssi0RxReq,
    {
        let mut sel: Vec<DmaSelect> = Vec::new();
        sel.push(DmaSelect::Ssi0RxReq);
        sel.push(DmaSelect::Ssi0RxReq);
        sel.push(DmaSelect::Ssi0RxReq);
        sel.push(DmaSelect::Ssi0RxReq);
        sel.push(DmaSelect::Ssi0RxReq);
        sel.push(DmaSelect::Ssi0RxReq);
        Sysctl {
            aclk_freq,
            apb1_clk_sel,
            apb2_clk_sel,
            apb1_clk_en: false,
            apb2_clk_en: false,
            dma_clk_en: false,
            spi0_clk_en: false,
            dvp_clk_en: false,
            spi0_clk_threshold: 0,
            spi_dvp_data_enable: false,
            dvp_reset: false,
            power_mode_sel6: false,
            power_mode_sel7: false,
            dma_select: sel,
        }
    }

    /// Route the given peripheral request source to a DMA channel.
    pub fn set_dma_sel(&mut self, ch: Channel, sel: DmaSelect)
        requires
            old(self).wf(),
        ensures
            final(self).wf(),
            final(self).dma_select@ == old(self).dma_select@.update(ch.spec_num(), sel),
            *final(self) == (Sysctl { dma_select: final(self).dma_select, ..*old(self) }),
    {
        let i = ch.num();
        self.dma_select[i] = sel;
    }
}

} // verus!
