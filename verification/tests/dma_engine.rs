use k210_lcd::dmac::{
    flow_control_for, handshake_for, Channel, ChannelRegs, Dmac, DmacEvent, FlowControl,
    HandshakeSel, Inc, MasterSelect, MemType, Msize, TrWidth,
};
use k210_lcd::sysctl::{DmaSelect, Sysctl};

#[test]
fn flow_control_mapping() {
    assert_eq!(
        flow_control_for(MemType::Memory, MemType::Memory),
        FlowControl::Mem2MemDma
    );
    assert_eq!(
        flow_control_for(MemType::Memory, MemType::Peripheral),
        FlowControl::Mem2PrfDma
    );
    assert_eq!(
        flow_control_for(MemType::Peripheral, MemType::Memory),
        FlowControl::Prf2MemDma
    );
    assert_eq!(
        flow_control_for(MemType::Peripheral, MemType::Peripheral),
        FlowControl::Prf2PrfDma
    );
    assert_eq!(handshake_for(MemType::Memory), HandshakeSel::Software);
    assert_eq!(handshake_for(MemType::Peripheral), HandshakeSel::Hardware);
}

#[test]
fn init_resets_and_enables() {
    let mut sysctl = Sysctl::new(390_000_000, 0, 0);
    let mut dmac = Dmac::new();
    dmac.init(&mut sysctl);
    assert!(sysctl.dma_clk_en);
    assert!(dmac.enabled);
    assert!(dmac.int_enabled);
    assert_eq!(dmac.chen, 0);
    for ch in &dmac.channels {
        assert_eq!(*ch, ChannelRegs::cleared());
    }
    assert_eq!(
        dmac.events,
        vec![
            DmacEvent::Reset,
            DmacEvent::ClearCommonInterrupt,
            DmacEvent::EngineDisable,
            DmacEvent::AllChannelsDisabled,
            DmacEvent::ClearChannelInterrupt(0),
            DmacEvent::ClearChannelInterrupt(1),
            DmacEvent::ClearChannelInterrupt(2),
            DmacEvent::ClearChannelInterrupt(3),
            DmacEvent::ClearChannelInterrupt(4),
            DmacEvent::ClearChannelInterrupt(5),
            DmacEvent::EngineEnable,
        ]
    );
}

#[test]
fn set_single_mode_programs_the_channel() {
    let mut dmac = Dmac::new();
    dmac.status.enqueue(0); // the channel reads idle at once
    dmac.set_single_mode(
        Channel::Ch0,
        0x8000_0000,
        0x5200_0060,
        Inc::Increment,
        Inc::NoChange,
        TrWidth::Bit32,
        Msize::Item4,
        8,
    );
    let regs = &dmac.channels[0];
    assert_eq!(regs.flow_control, FlowControl::Mem2PrfDma);
    assert_eq!(regs.hs_sel_src, HandshakeSel::Software);
    assert_eq!(regs.hs_sel_dst, HandshakeSel::Hardware);
    assert_eq!(regs.sar, 0x8000_0000);
    assert_eq!(regs.dar, 0x5200_0060);
    assert_eq!(regs.src_per, 0);
    assert_eq!(regs.dst_per, 0);
    assert_eq!(regs.src_multblk, 0);
    assert_eq!(regs.dst_multblk, 0);
    assert_eq!(regs.src_master, MasterSelect::AxiMaster1);
    assert_eq!(regs.dst_master, MasterSelect::AxiMaster2);
    assert_eq!(regs.src_inc, Inc::Increment);
    assert_eq!(regs.dst_inc, Inc::NoChange);
    assert_eq!(regs.src_tr_width, TrWidth::Bit32);
    assert_eq!(regs.dst_tr_width, TrWidth::Bit32);
    assert_eq!(regs.src_msize, Msize::Item4);
    assert_eq!(regs.dst_msize, Msize::Item4);
    assert_eq!(regs.block_ts, 7); // the hardware field holds length - 1
    assert_eq!(regs.int_status, 0);
    assert!(dmac.enabled);
    // enable bit 0 and its write-enable strobe, bit 8
    assert_eq!(dmac.chen, 0x101);
    assert_eq!(
        dmac.events,
        vec![
            DmacEvent::ClearChannelInterrupt(0),
            DmacEvent::ChannelDisable(0),
            DmacEvent::ClearChannelInterrupt(0),
            DmacEvent::ChannelProgrammed(0),
            DmacEvent::EngineEnable,
            DmacEvent::ChannelEnable(0),
        ]
    );
}

#[test]
fn set_single_mode_all_four_flow_modes() {
    let mem = 0x8010_0000u64;
    let prf = 0x5025_0000u64;
    let cases = [
        (mem, mem, FlowControl::Mem2MemDma),
        (mem, prf, FlowControl::Mem2PrfDma),
        (prf, mem, FlowControl::Prf2MemDma),
        (prf, prf, FlowControl::Prf2PrfDma),
    ];
    for (src, dst, flow) in cases {
        let mut dmac = Dmac::new();
        dmac.status.enqueue(0);
        dmac.set_single_mode(
            Channel::Ch2,
            src,
            dst,
            Inc::Increment,
            Inc::Increment,
            TrWidth::Bit8,
            Msize::Item1,
            1,
        );
        assert_eq!(dmac.channels[2].flow_control, flow);
        assert_eq!(dmac.channels[2].block_ts, 0);
        assert_eq!(dmac.chen, 0x4 | 0x400);
    }
}

#[test]
fn wait_done_spins_until_the_busy_bit_clears() {
    let mut dmac = Dmac::new();
    // channel 1 reads busy twice, then idle
    dmac.status.enqueue(0x2);
    dmac.status.enqueue(0x2);
    dmac.status.enqueue(0x0);
    dmac.channels[1].int_status = 0xffff;
    dmac.wait_done(Channel::Ch1);
    assert_eq!(dmac.status.taken, 3); // did not return while busy, stopped at idle
    assert_eq!(dmac.channels[1].int_status, 0);
    // the interrupt status was cleared exactly once
    assert_eq!(dmac.events, vec![DmacEvent::ClearChannelInterrupt(1)]);
}

#[test]
fn wait_done_is_idempotent_on_an_idle_channel() {
    let mut dmac = Dmac::new();
    dmac.status.enqueue(0x0);
    dmac.status.enqueue(0x0);
    dmac.wait_done(Channel::Ch3);
    assert_eq!(dmac.status.taken, 1);
    dmac.wait_done(Channel::Ch3);
    assert_eq!(dmac.status.taken, 2);
    assert_eq!(
        dmac.events,
        vec![
            DmacEvent::ClearChannelInterrupt(3),
            DmacEvent::ClearChannelInterrupt(3),
        ]
    );
}

#[test]
fn wait_done_only_watches_its_own_channel() {
    let mut dmac = Dmac::new();
    // other channels busy the whole time; channel 4 idle from the start
    dmac.status.enqueue(0xef);
    dmac.wait_done(Channel::Ch4);
    assert_eq!(dmac.status.taken, 1);
}

#[test]
fn set_dma_sel_routes_one_channel() {
    let mut sysctl = Sysctl::new(390_000_000, 0, 0);
    sysctl.set_dma_sel(Channel::Ch5, DmaSelect::Ssi0TxReq);
    assert_eq!(sysctl.dma_select[5], DmaSelect::Ssi0TxReq);
    for i in 0..5 {
        assert_eq!(sysctl.dma_select[i], DmaSelect::Ssi0RxReq);
    }
}
