use k210_lcd::dmac::{Channel, Dmac, FlowControl, HandshakeSel};
use k210_lcd::spi::{
    encode_instruction_length, Aitm, ConfigError, FrameFormat, Spi, Tmod, WorkMode,
    SPI0_DATA_REG_ADDR,
};
use k210_lcd::sysctl::{DmaSelect, Sysctl};

#[test]
fn instruction_length_encoding() {
    assert_eq!(encode_instruction_length(0), Ok(0));
    assert_eq!(encode_instruction_length(4), Ok(1));
    assert_eq!(encode_instruction_length(8), Ok(2));
    assert_eq!(encode_instruction_length(16), Ok(3));
    for bits in [1u32, 2, 3, 5, 7, 12, 15, 17, 24, 32, 100] {
        assert_eq!(
            encode_instruction_length(bits),
            Err(ConfigError::InvalidInstructionLength)
        );
    }
}

#[test]
fn new_spi0_configures_the_bus() {
    let mut sysctl = Sysctl::new(390_000_000, 0, 0);
    let spi = Spi::new_spi0(
        &mut sysctl,
        WorkMode::Mode0,
        FrameFormat::Octal,
        8,
        0,
        10_000_000,
    );
    assert_eq!(spi.interrupt_mask, 0);
    assert_eq!(spi.dma_control, 0);
    assert_eq!(spi.dma_tx_level, 0x10);
    assert_eq!(spi.dma_rx_level, 0);
    assert_eq!(spi.slave_select, 0);
    assert!(!spi.enabled);
    assert_eq!(spi.work_mode, WorkMode::Mode0);
    assert_eq!(spi.tmod, Tmod::Trans);
    assert_eq!(spi.frame_format, FrameFormat::Octal);
    assert_eq!(spi.data_length, 7);
    assert_eq!(spi.aitm, Aitm::Standard);
    assert_eq!(spi.baud_rate, 39); // 390 MHz / 10 MHz
    assert!(spi.transmitted.is_empty());
    assert!(sysctl.apb2_clk_en && sysctl.spi0_clk_en && sysctl.spi_dvp_data_enable);
}

#[test]
fn baud_divider_clamps_at_both_ends() {
    let mut sysctl = Sysctl::new(390_000_000, 0, 0);
    let low = Spi::new_spi0(
        &mut sysctl,
        WorkMode::Mode0,
        FrameFormat::Standard,
        8,
        0,
        400_000_000, // divider would be 0
    );
    assert_eq!(low.baud_rate, 2);
    let high = Spi::new_spi0(
        &mut sysctl,
        WorkMode::Mode0,
        FrameFormat::Standard,
        8,
        0,
        1, // divider would be 390 000 000
    );
    assert_eq!(high.baud_rate, 65534);
}

#[test]
fn set_non_standard_mode_accepts_the_four_lengths() {
    let mut sysctl = Sysctl::new(390_000_000, 0, 0);
    let mut spi = Spi::new_spi0(
        &mut sysctl,
        WorkMode::Mode0,
        FrameFormat::Octal,
        8,
        0,
        10_000_000,
    );
    assert_eq!(
        spi.set_non_standard_mode(16, 24, 5, Aitm::AsFrameFormat),
        Ok(())
    );
    assert_eq!(spi.aitm, Aitm::AsFrameFormat);
    assert_eq!(spi.wait_cycles, 5);
    assert_eq!(spi.inst_length, 3);
    assert_eq!(spi.addr_length, 6);
}

#[test]
fn set_non_standard_mode_rejects_without_programming() {
    let mut sysctl = Sysctl::new(390_000_000, 0, 0);
    let mut spi = Spi::new_spi0(
        &mut sysctl,
        WorkMode::Mode0,
        FrameFormat::Octal,
        8,
        0,
        10_000_000,
    );
    let r = spi.set_non_standard_mode(12, 8, 1, Aitm::AsFrameFormat);
    assert_eq!(r, Err(ConfigError::InvalidInstructionLength));
    // nothing was touched
    assert_eq!(spi.aitm, Aitm::Standard);
    assert_eq!(spi.wait_cycles, 0);
    assert_eq!(spi.inst_length, 0);
    assert_eq!(spi.addr_length, 0);
}

#[test]
fn send_data_appends_to_the_wire_and_disables_the_bus() {
    let mut sysctl = Sysctl::new(390_000_000, 0, 0);
    let mut spi = Spi::new_spi0(
        &mut sysctl,
        WorkMode::Mode0,
        FrameFormat::Octal,
        8,
        0,
        10_000_000,
    );
    spi.send_data(3, &vec![0x11, 0x22, 0x33]);
    spi.send_data(3, &vec![0x44]);
    assert_eq!(spi.transmitted, vec![0x11, 0x22, 0x33, 0x44]);
    assert_eq!(spi.slave_select, 0);
    assert!(!spi.enabled);
}

#[test]
fn fill_data_repeats_one_word() {
    let mut sysctl = Sysctl::new(390_000_000, 0, 0);
    let mut spi = Spi::new_spi0(
        &mut sysctl,
        WorkMode::Mode0,
        FrameFormat::Octal,
        32,
        0,
        10_000_000,
    );
    spi.fill_data(3, 0xdeadbeef, 5);
    assert_eq!(spi.transmitted, vec![0xdeadbeef; 5]);
    assert_eq!(spi.slave_select, 0);
    assert!(!spi.enabled);
}

#[test]
fn send_data_waits_for_fifo_room_before_each_word() {
    let mut sysctl = Sysctl::new(390_000_000, 0, 0);
    let mut spi = Spi::new_spi0(
        &mut sysctl,
        WorkMode::Mode0,
        FrameFormat::Octal,
        8,
        0,
        10_000_000,
    );
    // before the first word the FIFO reads full twice, then has room;
    // before the second word it reads full once more, then drains
    for v in [32, 32, 31, 32, 0] {
        spi.fifo_levels.enqueue(v);
    }
    spi.send_data(3, &vec![0xaa, 0xbb]);
    assert_eq!(spi.fifo_levels.taken, 5);
    assert_eq!(spi.transmitted, vec![0xaa, 0xbb]);
}

#[test]
fn send_data_requires_busy_clear_and_fifo_empty_together() {
    let mut sysctl = Sysctl::new(390_000_000, 0, 0);
    let mut spi = Spi::new_spi0(
        &mut sysctl,
        WorkMode::Mode0,
        FrameFormat::Octal,
        8,
        0,
        10_000_000,
    );
    // 0x01: still busy; 0x05: FIFO empty but still busy — neither may end
    // the wait; 0x04: busy clear and FIFO empty
    for v in [0x01, 0x05, 0x04, 0xdead] {
        spi.status.enqueue(v);
    }
    spi.send_data(3, &vec![0x77]);
    assert_eq!(spi.status.taken, 3);
    assert_eq!(spi.slave_select, 0);
    assert!(!spi.enabled);
}

#[test]
fn fill_data_waits_out_scripted_backpressure() {
    let mut sysctl = Sysctl::new(390_000_000, 0, 0);
    let mut spi = Spi::new_spi0(
        &mut sysctl,
        WorkMode::Mode0,
        FrameFormat::Octal,
        32,
        0,
        10_000_000,
    );
    for v in [32, 0] {
        spi.fifo_levels.enqueue(v);
    }
    spi.status.enqueue(0x01);
    spi.status.enqueue(0x04);
    spi.fill_data(3, 9, 3);
    // word one consumed the two occupancy reads; the later words found the
    // queue dry and the FIFO settled empty
    assert_eq!(spi.fifo_levels.taken, 2);
    assert_eq!(spi.status.taken, 2);
    assert_eq!(spi.transmitted, vec![9, 9, 9]);
}

#[test]
fn send_data_dma_hands_off_to_the_transfer_engine() {
    let mut sysctl = Sysctl::new(390_000_000, 0, 0);
    let mut dmac = Dmac::new();
    let mut spi = Spi::new_spi0(
        &mut sysctl,
        WorkMode::Mode0,
        FrameFormat::Octal,
        32,
        0,
        10_000_000,
    );
    // one idle read for disable-and-drain, one for the completion wait
    dmac.status.enqueue(0);
    dmac.status.enqueue(0);
    spi.send_data_dma(
        &mut sysctl,
        &mut dmac,
        Channel::Ch0,
        3,
        0x8000_1000,
        &vec![1, 2, 3],
    );
    assert_eq!(spi.transmitted, vec![1, 2, 3]);
    assert_eq!(spi.dma_control, 0x2);
    assert_eq!(spi.dma_tx_level, 0x10);
    assert_eq!(spi.slave_select, 0);
    assert!(!spi.enabled);
    assert_eq!(sysctl.dma_select[0], DmaSelect::Ssi0TxReq);
    let regs = &dmac.channels[0];
    assert_eq!(regs.sar, 0x8000_1000);
    assert_eq!(regs.dar, SPI0_DATA_REG_ADDR);
    assert_eq!(regs.flow_control, FlowControl::Mem2PrfDma);
    assert_eq!(regs.hs_sel_src, HandshakeSel::Software);
    assert_eq!(regs.hs_sel_dst, HandshakeSel::Hardware);
    assert_eq!(regs.block_ts, 2);
    assert_eq!(dmac.status.taken, 2);
}
