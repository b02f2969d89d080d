use k210_lcd::gpiohs::{u32_set_bit, Gpiohs, GpiohsBlock};
use k210_lcd::script::{PollCond, StatusScript};

#[test]
fn set_bit_sets_and_clears_one_bit() {
    assert_eq!(u32_set_bit(0, true, 0), 1);
    assert_eq!(u32_set_bit(0, true, 21), 1 << 21);
    assert_eq!(u32_set_bit(0xffff_ffff, false, 21), 0xffff_ffff & !(1 << 21));
    assert_eq!(u32_set_bit(0x5, true, 1), 0x7);
    assert_eq!(u32_set_bit(0x7, false, 1), 0x5);
    // setting an already-set bit changes nothing
    assert_eq!(u32_set_bit(0x7, true, 1), 0x7);
}

#[test]
fn line_handles_drive_their_own_bit() {
    let mut block = GpiohsBlock::new();
    let rst = Gpiohs::new(21);
    let dcx = Gpiohs::new(22);
    assert_eq!(rst.index, 21);
    rst.set_output(&mut block);
    dcx.set_output(&mut block);
    assert_eq!(block.output_en, (1 << 21) | (1 << 22));
    assert_eq!(block.input_en, 0);
    rst.set_high(&mut block);
    dcx.set_high(&mut block);
    assert_eq!(block.output_val, (1 << 21) | (1 << 22));
    rst.set_low(&mut block);
    assert_eq!(block.output_val, 1 << 22);
}

#[test]
fn poll_until_stops_at_the_first_hit() {
    let mut script = StatusScript::new();
    for v in [0x8, 0x8, 0x9, 0x1] {
        script.enqueue(v);
    }
    let v = script.poll_until(PollCond::AnySet(0x1));
    assert_eq!(v, 0x9);
    assert_eq!(script.taken, 3);
    let v2 = script.poll_until(PollCond::MaskedEq(0x8, 0));
    assert_eq!(v2, 0x1);
    assert_eq!(script.taken, 4);
}
