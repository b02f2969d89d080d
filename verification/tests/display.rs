use k210_lcd::{Dir, Lcd, PanelEvent, BLACK, BLUE, GREEN, RED, WHITE};

fn fresh_lcd() -> Lcd {
    Lcd::new_lcd(8, 8, Dir::YxRlud)
}

fn area(x1: u16, y1: u16, x2: u16, y2: u16) -> Vec<PanelEvent> {
    vec![
        PanelEvent::Command(0x2a),
        PanelEvent::DataByte((x1 >> 8) as u8),
        PanelEvent::DataByte(x1 as u8),
        PanelEvent::DataByte((x2 >> 8) as u8),
        PanelEvent::DataByte(x2 as u8),
        PanelEvent::Command(0x2b),
        PanelEvent::DataByte((y1 >> 8) as u8),
        PanelEvent::DataByte(y1 as u8),
        PanelEvent::DataByte((y2 >> 8) as u8),
        PanelEvent::DataByte(y2 as u8),
        PanelEvent::Command(0x2c),
    ]
}

fn point(x: u16, y: u16, color: u16) -> Vec<PanelEvent> {
    let mut v = area(x, y, x, y);
    v.push(PanelEvent::DataByte((color >> 8) as u8));
    v.push(PanelEvent::DataByte(color as u8));
    v
}

#[test]
fn power_on_sequence_is_fixed() {
    let lcd = Lcd::new_lcd(2, 1, Dir::YxRlud);
    let mut expected = vec![
        PanelEvent::ResetHigh,
        PanelEvent::DelayMicros(50000),
        PanelEvent::ResetLow,
        PanelEvent::DelayMicros(50000),
        PanelEvent::ResetHigh,
        PanelEvent::Command(0x01),
        PanelEvent::DelayMicros(50000),
        PanelEvent::Command(0x11),
        PanelEvent::DelayMicros(50000),
        PanelEvent::Command(0x3a),
        PanelEvent::DataByte(0x55),
        PanelEvent::DelayMicros(10000),
        PanelEvent::Command(0x21),
        PanelEvent::DelayMicros(10000),
        PanelEvent::Command(0x36),
        PanelEvent::DataByte(0x20), // the scan-direction byte
        PanelEvent::DelayMicros(10000),
        PanelEvent::Command(0x29),
        PanelEvent::DelayMicros(10000),
    ];
    expected.extend(area(0, 0, 1, 0));
    expected.push(PanelEvent::DataWord(0xffff_ffff)); // 2 white pixels, packed
    assert_eq!(lcd.events, expected);
    assert_eq!(lcd.max_x, 2);
    assert_eq!(lcd.max_y, 1);
}

#[test]
fn set_area_splits_bounds_big_endian() {
    let mut lcd = fresh_lcd();
    let before = lcd.events.len();
    lcd.lcd_set_area(0x12, 0x0056, 0x34, 0x0178);
    let emitted = &lcd.events[before..];
    assert_eq!(
        emitted,
        &[
            PanelEvent::Command(0x2a),
            PanelEvent::DataByte(0x00),
            PanelEvent::DataByte(0x12),
            PanelEvent::DataByte(0x00),
            PanelEvent::DataByte(0x34),
            PanelEvent::Command(0x2b),
            PanelEvent::DataByte(0x00),
            PanelEvent::DataByte(0x56),
            PanelEvent::DataByte(0x01),
            PanelEvent::DataByte(0x78),
            PanelEvent::Command(0x2c),
        ]
    );
}

#[test]
fn fill_rectangle_zero_width_is_a_no_op() {
    let mut lcd = fresh_lcd();
    let events_before = lcd.events.clone();
    let wire_before = lcd.spi.transmitted.clone();
    lcd.fill_rectangle(3, 1, 3, 6, BLUE);
    assert_eq!(lcd.events, events_before);
    assert_eq!(lcd.spi.transmitted, wire_before);
}

#[test]
fn fill_rectangle_zero_height_is_a_no_op() {
    let mut lcd = fresh_lcd();
    let events_before = lcd.events.clone();
    let wire_before = lcd.spi.transmitted.clone();
    lcd.fill_rectangle(1, 5, 4, 5, BLUE);
    assert_eq!(lcd.events, events_before);
    assert_eq!(lcd.spi.transmitted, wire_before);
}

#[test]
fn fill_rectangle_streams_packed_pixels() {
    let mut lcd = fresh_lcd();
    let before = lcd.events.len();
    lcd.fill_rectangle(1, 2, 3, 6, BLUE);
    let mut expected = area(1, 2, 2, 5); // inclusive bounds
    for _ in 0..4 {
        // (3-1) * (6-2) = 8 pixels = 4 packed words
        expected.push(PanelEvent::DataWord(0x001f_001f));
    }
    assert_eq!(&lcd.events[before..], &expected[..]);
}

#[test]
fn fill_rectangle_odd_pixel_count_streams_every_pixel() {
    let mut lcd = fresh_lcd();
    let before = lcd.events.len();
    lcd.fill_rectangle(0, 0, 3, 3, RED);
    // 9 pixels: 4 packed words, then the last pixel's two bytes
    let mut expected = area(0, 0, 2, 2);
    for _ in 0..4 {
        expected.push(PanelEvent::DataWord(0xf800_f800));
    }
    expected.push(PanelEvent::DataByte(0xf8));
    expected.push(PanelEvent::DataByte(0x00));
    assert_eq!(&lcd.events[before..], &expected[..]);
}

#[test]
fn fill_rectangle_single_pixel_area() {
    let mut lcd = fresh_lcd();
    let before = lcd.events.len();
    lcd.fill_rectangle(2, 3, 3, 4, BLUE);
    // one pixel: no packed word, just the pixel's two bytes
    let mut expected = area(2, 3, 2, 3);
    expected.push(PanelEvent::DataByte(0x00));
    expected.push(PanelEvent::DataByte(0x1f));
    assert_eq!(&lcd.events[before..], &expected[..]);
}

#[test]
fn draw_point_at_the_panel_corner() {
    let mut lcd = fresh_lcd();
    let before = lcd.events.len();
    lcd.lcd_draw_point(0xffff, 0xffff, GREEN);
    let mut expected = vec![
        PanelEvent::Command(0x2a),
        PanelEvent::DataByte(0xff),
        PanelEvent::DataByte(0xff),
        PanelEvent::DataByte(0xff),
        PanelEvent::DataByte(0xff),
        PanelEvent::Command(0x2b),
        PanelEvent::DataByte(0xff),
        PanelEvent::DataByte(0xff),
        PanelEvent::DataByte(0xff),
        PanelEvent::DataByte(0xff),
        PanelEvent::Command(0x2c),
    ];
    expected.push(PanelEvent::DataByte(0x07));
    expected.push(PanelEvent::DataByte(0xe0));
    assert_eq!(&lcd.events[before..], &expected[..]);
}

#[test]
fn fill_rectangle_packs_black_pixels_as_zero_words() {
    let mut lcd = fresh_lcd();
    let before = lcd.events.len();
    lcd.fill_rectangle(0, 0, 2, 1, BLACK);
    let mut expected = area(0, 0, 1, 0);
    expected.push(PanelEvent::DataWord(0));
    assert_eq!(&lcd.events[before..], &expected[..]);
}

#[test]
fn draw_point_sets_a_unit_window() {
    let mut lcd = fresh_lcd();
    let before = lcd.events.len();
    lcd.lcd_draw_point(5, 7, RED);
    assert_eq!(&lcd.events[before..], &point(5, 7, RED)[..]);
}

#[test]
fn send_command_and_data_are_logged_in_order() {
    let mut lcd = fresh_lcd();
    let before = lcd.events.len();
    let wire_before = lcd.spi.transmitted.len();
    lcd.send_command(0x2c);
    lcd.send_byte(0xab);
    lcd.send_bytes(&vec![1, 2]);
    lcd.send_shorts(&vec![0x1234]);
    lcd.send_words(&vec![0xcafe_f00d]);
    lcd.fill_data(7, 2);
    assert_eq!(
        &lcd.events[before..],
        &[
            PanelEvent::Command(0x2c),
            PanelEvent::DataByte(0xab),
            PanelEvent::DataByte(1),
            PanelEvent::DataByte(2),
            PanelEvent::DataShort(0x1234),
            PanelEvent::DataWord(0xcafe_f00d),
            PanelEvent::DataWord(7),
            PanelEvent::DataWord(7),
        ]
    );
    assert_eq!(
        &lcd.spi.transmitted[wire_before..],
        &[0x2c, 0xab, 1, 2, 0x1234, 0xcafe_f00d, 7, 7]
    );
}

#[test]
fn draw_char_plots_exactly_the_set_bits() {
    let mut lcd = fresh_lcd();
    let mut rows = vec![0u8; 16];
    rows[0] = 0x80; // leftmost column of the top row
    rows[1] = 0x01; // rightmost column of the second row
    lcd.set_glyph(b'A', &rows);
    let before = lcd.events.len();
    lcd.lcd_draw_char(10, 20, 'A', RED);
    let mut expected = point(10, 20, RED);
    expected.extend(point(17, 21, RED));
    assert_eq!(&lcd.events[before..], &expected[..]);
}

#[test]
fn draw_char_of_a_blank_glyph_emits_nothing() {
    let mut lcd = fresh_lcd();
    let before = lcd.events.len();
    lcd.lcd_draw_char(0, 0, 'z', BLUE);
    assert_eq!(lcd.events.len(), before);
}

#[test]
fn draw_string_advances_eight_columns_per_char() {
    let mut lcd = fresh_lcd();
    let mut rows_a = vec![0u8; 16];
    rows_a[0] = 0x80;
    let mut rows_b = vec![0u8; 16];
    rows_b[0] = 0x40;
    lcd.set_glyph(b'A', &rows_a);
    lcd.set_glyph(b'B', &rows_b);
    let before = lcd.events.len();
    lcd.lcd_draw_string(4, 0, "AB", BLUE);
    let mut expected = point(4, 0, BLUE); // 'A', column 0
    expected.extend(point(13, 0, BLUE)); // 'B', column 1, one cell right
    assert_eq!(&lcd.events[before..], &expected[..]);
}

#[test]
fn draw_string_empty_emits_nothing() {
    let mut lcd = fresh_lcd();
    let before = lcd.events.len();
    lcd.lcd_draw_string(0, 0, "", BLUE);
    assert_eq!(lcd.events.len(), before);
}

#[test]
fn set_glyph_replaces_only_its_character() {
    let mut lcd = fresh_lcd();
    let rows: Vec<u8> = (0..16).collect();
    lcd.set_glyph(2, &rows);
    for k in 0..4096 {
        if (32..48).contains(&k) {
            assert_eq!(lcd.font[k], (k - 32) as u8);
        } else {
            assert_eq!(lcd.font[k], 0);
        }
    }
}
