use k210_lcd::dvp::{
    BurstLength, Dvp, DvpEvent, SccbByteNum, STS_FRAME_FINISH, STS_FRAME_FINISH_WE,
    STS_FRAME_START, STS_FRAME_START_WE, STS_DVP_EN, STS_DVP_EN_WE, STS_SCCB_EN, STS_SCCB_EN_WE,
};
use k210_lcd::sysctl::Sysctl;

fn fresh_dvp() -> (Sysctl, Dvp) {
    let mut sysctl = Sysctl::new(390_000_000, 0, 0);
    let dvp = Dvp::new_dvp(8, &mut sysctl);
    (sysctl, dvp)
}

#[test]
fn new_dvp_brings_the_block_up() {
    let (sysctl, dvp) = fresh_dvp();
    assert!(sysctl.apb1_clk_en && sysctl.dvp_clk_en);
    assert!(!sysctl.dvp_reset); // the reset pulse has been released
    assert!(sysctl.spi_dvp_data_enable);
    assert!(!sysctl.power_mode_sel6 && !sysctl.power_mode_sel7);
    assert_eq!(dvp.sccb_reg_len, 8);
    assert_eq!(dvp.clk_div, 3);
    assert!(dvp.clk_enable);
    assert_eq!(dvp.scl_lcnt, 255);
    assert_eq!(dvp.scl_hcnt, 255);
    assert_eq!(dvp.events, vec![DvpEvent::DelayMicros(10)]);
}

#[test]
fn capture_handshake_consumes_both_start_observations() {
    let (_sysctl, mut dvp) = fresh_dvp();
    // the simulated sensor: start asserted, cleared, asserted again, then
    // the frame finishes
    for v in [0, STS_FRAME_START, 0, STS_FRAME_START, STS_FRAME_FINISH] {
        dvp.status.enqueue(v);
    }
    let writes_before = dvp.events.len();
    dvp.get_image();
    // exactly one pass consumed the whole scripted sequence
    assert_eq!(dvp.status.taken, 5);
    assert_eq!(
        &dvp.events[writes_before..],
        &[
            DvpEvent::StsWrite(STS_FRAME_START | STS_FRAME_START_WE),
            DvpEvent::StsWrite(
                STS_FRAME_FINISH
                    | STS_FRAME_FINISH_WE
                    | STS_FRAME_START
                    | STS_FRAME_START_WE
                    | STS_DVP_EN
                    | STS_DVP_EN_WE
            ),
        ]
    );
}

#[test]
fn capture_waits_out_a_cleared_start_flag() {
    let (_sysctl, mut dvp) = fresh_dvp();
    // after the acknowledge, the flag stays down for two reads before the
    // hardware re-asserts it
    for v in [
        STS_FRAME_START,
        0,
        0,
        STS_FRAME_START,
        0,
        STS_FRAME_FINISH,
    ] {
        dvp.status.enqueue(v);
    }
    dvp.get_image();
    assert_eq!(dvp.status.taken, 6);
}

#[test]
fn capture_stops_at_the_first_finish() {
    let (_sysctl, mut dvp) = fresh_dvp();
    for v in [
        STS_FRAME_START,
        STS_FRAME_START,
        STS_FRAME_FINISH,
        0xdead,
        0xbeef,
    ] {
        dvp.status.enqueue(v);
    }
    dvp.get_image();
    // the two trailing reads are still pending
    assert_eq!(dvp.status.taken, 3);
    assert_eq!(dvp.status.reads.len() - dvp.status.taken, 2);
}

#[test]
fn start_convert_arms_capture() {
    let (_sysctl, mut dvp) = fresh_dvp();
    let before = dvp.events.len();
    dvp.start_convert();
    assert_eq!(
        &dvp.events[before..],
        &[DvpEvent::StsWrite(STS_DVP_EN | STS_DVP_EN_WE)]
    );
}

#[test]
fn clear_interrupt_status_write_clears_both_flags() {
    let (_sysctl, mut dvp) = fresh_dvp();
    let before = dvp.events.len();
    dvp.clear_interrupt_status();
    assert_eq!(
        &dvp.events[before..],
        &[
            DvpEvent::StsWrite(STS_FRAME_START | STS_FRAME_START_WE),
            DvpEvent::StsWrite(STS_FRAME_FINISH | STS_FRAME_FINISH_WE),
        ]
    );
}

#[test]
fn sccb_send_is_one_three_byte_transaction() {
    let (_sysctl, mut dvp) = fresh_dvp();
    dvp.status.enqueue(0);
    dvp.status.enqueue(0);
    let before = dvp.events.len();
    dvp.sccb_send(0x42, 0x12, 0x80);
    assert_eq!(dvp.sccb_byte_num, SccbByteNum::Num3);
    assert_eq!(dvp.sccb_device_address, 0x43);
    assert_eq!(dvp.sccb_reg_address, 0x12);
    assert_eq!(dvp.sccb_wdata, 0x80);
    assert_eq!(
        &dvp.events[before..],
        &[
            DvpEvent::SccbCtlWrite {
                device: 0x43,
                reg: 0x12,
                data: 0x80
            },
            DvpEvent::StsWrite(STS_SCCB_EN | STS_SCCB_EN_WE),
            DvpEvent::DelayMicros(1000),
        ]
    );
    assert_eq!(dvp.status.taken, 2);
}

#[test]
fn sccb_send_waits_for_a_busy_bus() {
    let (_sysctl, mut dvp) = fresh_dvp();
    // busy before the kick, busy once after it
    for v in [STS_SCCB_EN, 0, STS_SCCB_EN, STS_SCCB_EN, 0] {
        dvp.status.enqueue(v);
    }
    dvp.sccb_send(0x42, 0x01, 0x02);
    assert_eq!(dvp.status.taken, 5);
}

#[test]
fn sccb_query_reads_back_the_latched_byte() {
    let (_sysctl, mut dvp) = fresh_dvp();
    for v in [0, 0, 0, 0, 0x5a] {
        dvp.status.enqueue(v);
    }
    let before = dvp.events.len();
    let r = dvp.sccb_query(0x42, 0x0a);
    assert_eq!(r, 0x5a);
    assert_eq!(dvp.sccb_byte_num, SccbByteNum::Num2);
    // the second transaction carries the device address alone
    assert_eq!(dvp.sccb_device_address, 0x42);
    assert_eq!(dvp.sccb_reg_address, 0);
    assert_eq!(dvp.sccb_wdata, 0);
    assert_eq!(
        &dvp.events[before..],
        &[
            DvpEvent::SccbCtlWrite {
                device: 0x43,
                reg: 0x0a,
                data: 0
            },
            DvpEvent::StsWrite(STS_SCCB_EN | STS_SCCB_EN_WE),
            DvpEvent::DelayMicros(1000),
            DvpEvent::SccbCtlWrite {
                device: 0x42,
                reg: 0,
                data: 0
            },
            DvpEvent::StsWrite(STS_SCCB_EN | STS_SCCB_EN_WE),
            DvpEvent::DelayMicros(1000),
        ]
    );
}

#[test]
fn image_size_depends_on_burst_mode() {
    let (_sysctl, mut dvp) = fresh_dvp();
    dvp.enable_burst();
    assert_eq!(dvp.gm_mlen, BurstLength::Byte4);
    dvp.set_image_size(320, 240);
    assert_eq!(dvp.href_burst_num, 10); // 320 / 8 / 4
    assert_eq!(dvp.line_num, 240);
    dvp.disable_burst();
    assert_eq!(dvp.gm_mlen, BurstLength::Byte1);
    dvp.set_image_size(320, 240);
    assert_eq!(dvp.href_burst_num, 40); // 320 / 8
}

#[test]
fn xclk_divider_is_derived_and_clamped() {
    let (sysctl, mut dvp) = fresh_dvp();
    dvp.set_xclk(&sysctl, 24_000_000);
    assert_eq!(dvp.clk_div, 7); // 390 MHz / 48 MHz, less one
    dvp.set_xclk(&sysctl, 200_000_000);
    assert_eq!(dvp.clk_div, 0); // bus clock below twice the request
    dvp.set_xclk(&sysctl, 1);
    assert_eq!(dvp.clk_div, 255); // clamped to the eight-bit field
}

#[test]
fn configure_sets_burst_before_geometry() {
    let (sysctl, mut dvp) = fresh_dvp();
    dvp.configure(&sysctl, 24_000_000, 0x01, 320, 240, true);
    assert_eq!(dvp.clk_div, 7);
    assert!(dvp.burst);
    assert_eq!(dvp.gm_mlen, BurstLength::Byte4);
    assert_eq!(dvp.format, 0x01);
    assert_eq!(dvp.href_burst_num, 10);
    assert_eq!(dvp.line_num, 240);
}

#[test]
fn output_routing_flags() {
    let (_sysctl, mut dvp) = fresh_dvp();
    dvp.set_display_output_enable(true);
    dvp.set_ai_output_enable(false);
    dvp.set_auto(false);
    dvp.set_dvp_interrupt(false);
    dvp.set_display_addr(0x8060_0000);
    assert!(dvp.display_output_enable);
    assert!(!dvp.ai_output_enable);
    assert!(!dvp.auto_enable);
    assert!(!dvp.start_int_enable && !dvp.finish_int_enable);
    assert_eq!(dvp.rgb_addr, 0x8060_0000);
}
