//! The display driver: command validation, the bus-operation stream, and
//! the observable display model.
use time_saver::custom_characters::custom_char_map;
use time_saver::custom_characters::CharMap;
use time_saver::custom_characters::HEART_BORDER;
use time_saver::custom_characters::HEART_FULL;
use time_saver::custom_characters::MAN_DANCING;
use time_saver::custom_characters::MAN_STANDING;
use time_saver::lcd1602::BusOp;
use time_saver::lcd1602::Error;
use time_saver::lcd1602::LCD1602;
use time_saver::lcd1602::PinId;
use time_saver::lcd1602::TextDirection;
use time_saver::text_format::format_right_aligned_3;

#[test]
fn new_display_is_blank_with_cursor_home() {
    let lcd = LCD1602::new();
    assert_eq!(lcd.cursor(), (0, 0));
    assert_eq!(lcd.screen_contents(), vec![0x20u8; 32]);
}

#[test]
fn init_stream_starts_with_the_mode_pings() {
    // The first byte on the bus is the command 0x03: register select low,
    // high nibble 0x0 on the data pins, an enable pulse, then the low
    // nibble 0x3 (bits 0 and 1 high), and another enable pulse.
    let mut lcd = LCD1602::new();
    let ops = lcd.take_ops();
    let expected_first = vec![
        BusOp::SetPin(PinId::RegisterSelect, false),
        BusOp::SetPin(PinId::Data4, false),
        BusOp::SetPin(PinId::Data5, false),
        BusOp::SetPin(PinId::Data6, false),
        BusOp::SetPin(PinId::Data7, false),
        BusOp::SetPin(PinId::Enable, true),
        BusOp::DelayMs(1),
        BusOp::SetPin(PinId::Enable, false),
        BusOp::DelayMs(1),
        BusOp::SetPin(PinId::Data4, true),
        BusOp::SetPin(PinId::Data5, true),
        BusOp::SetPin(PinId::Data6, false),
        BusOp::SetPin(PinId::Data7, false),
        BusOp::SetPin(PinId::Enable, true),
        BusOp::DelayMs(1),
        BusOp::SetPin(PinId::Enable, false),
        BusOp::DelayMs(1),
        BusOp::DelayMs(5),
    ];
    assert!(ops.len() > expected_first.len());
    assert_eq!(&ops[..expected_first.len()], &expected_first[..]);
}

#[test]
fn take_ops_drains_the_queue() {
    let mut lcd = LCD1602::new();
    let first = lcd.take_ops();
    assert!(!first.is_empty());
    let second = lcd.take_ops();
    assert!(second.is_empty());
}

#[test]
fn print_fills_screen_cells_and_advances_cursor() {
    let mut lcd = LCD1602::new();
    lcd.print("Hi");
    let screen = lcd.screen_contents();
    assert_eq!(screen[0], b'H');
    assert_eq!(screen[1], b'i');
    assert_eq!(lcd.cursor(), (0, 2));
}

#[test]
fn print_emits_data_bytes_on_the_bus() {
    let mut lcd = LCD1602::new();
    let _ = lcd.take_ops();
    lcd.print("A");
    let ops = lcd.take_ops();
    // 'A' is 0x41: register select high, nibble 0x4, then nibble 0x1.
    let expected = vec![
        BusOp::SetPin(PinId::RegisterSelect, true),
        BusOp::SetPin(PinId::Data4, false),
        BusOp::SetPin(PinId::Data5, false),
        BusOp::SetPin(PinId::Data6, true),
        BusOp::SetPin(PinId::Data7, false),
        BusOp::SetPin(PinId::Enable, true),
        BusOp::DelayMs(1),
        BusOp::SetPin(PinId::Enable, false),
        BusOp::DelayMs(1),
        BusOp::SetPin(PinId::Data4, true),
        BusOp::SetPin(PinId::Data5, false),
        BusOp::SetPin(PinId::Data6, false),
        BusOp::SetPin(PinId::Data7, false),
        BusOp::SetPin(PinId::Enable, true),
        BusOp::DelayMs(1),
        BusOp::SetPin(PinId::Enable, false),
        BusOp::DelayMs(1),
    ];
    assert_eq!(ops, expected);
}

#[test]
fn print_past_the_right_edge_is_invisible() {
    let mut lcd = LCD1602::new();
    let _ = lcd.set_cursor(0, 15);
    lcd.print("xyz");
    let screen = lcd.screen_contents();
    assert_eq!(screen[15], b'x');
    // The rest ran off the visible row; row 1 is untouched.
    assert_eq!(&screen[16..32], &[0x20u8; 16][..]);
    assert_eq!(lcd.cursor(), (0, 18));
}

#[test]
fn set_cursor_moves_within_the_two_rows() {
    let mut lcd = LCD1602::new();
    assert_eq!(lcd.set_cursor(1, 15), Ok(()));
    assert_eq!(lcd.cursor(), (1, 15));
    lcd.print("Z");
    assert_eq!(lcd.screen_contents()[31], b'Z');
}

#[test]
fn set_cursor_row_2_fails_and_changes_nothing() {
    let mut lcd = LCD1602::new();
    let _ = lcd.set_cursor(1, 3);
    lcd.print("ab");
    let before_screen = lcd.screen_contents();
    let before_cursor = lcd.cursor();
    let mut probe = lcd.take_ops();
    assert!(!probe.is_empty());
    assert_eq!(lcd.set_cursor(2, 0), Err(Error::InvalidCursorPosition));
    assert_eq!(lcd.screen_contents(), before_screen);
    assert_eq!(lcd.cursor(), before_cursor);
    probe = lcd.take_ops();
    assert!(probe.is_empty(), "a rejected cursor move must send nothing");
}

#[test]
fn set_cursor_column_16_fails() {
    let mut lcd = LCD1602::new();
    assert_eq!(lcd.set_cursor(0, 16), Err(Error::InvalidCursorPosition));
}

#[test]
fn define_glyph_slot_8_fails_and_changes_nothing() {
    let mut lcd = LCD1602::new();
    let map: CharMap = [1, 2, 3, 4, 5, 6, 7, 8];
    let before = lcd.glyph(0);
    let _ = lcd.take_ops();
    assert_eq!(lcd.create_custom_char(8, map), Err(Error::InvalidGlyphSlot));
    assert_eq!(lcd.glyph(0), before);
    assert!(lcd.take_ops().is_empty());
}

#[test]
fn define_glyph_stores_the_bitmap() {
    let mut lcd = LCD1602::new();
    let map: CharMap = [0x1f, 0x11, 0x11, 0x11, 0x11, 0x11, 0x11, 0x1f];
    assert_eq!(lcd.create_custom_char(5, map), Ok(()));
    assert_eq!(lcd.glyph(5), map);
}

#[test]
fn write_glyph_slot_8_fails() {
    let mut lcd = LCD1602::new();
    assert_eq!(lcd.write_custom_char(8), Err(Error::InvalidGlyphSlot));
}

#[test]
fn write_glyph_puts_the_slot_code_on_screen() {
    let mut lcd = LCD1602::new();
    let _ = lcd.set_cursor(1, 15);
    assert_eq!(lcd.write_custom_char(3), Ok(()));
    assert_eq!(lcd.screen_contents()[31], 3);
}

#[test]
fn clear_twice_is_observably_clear_once() {
    let mut once = LCD1602::new();
    let _ = once.set_cursor(1, 7);
    once.print("something");
    let mut twice = LCD1602::new();
    let _ = twice.set_cursor(1, 7);
    twice.print("something");

    once.clear();
    twice.clear();
    twice.clear();

    assert_eq!(once.screen_contents(), twice.screen_contents());
    assert_eq!(once.cursor(), twice.cursor());
    assert_eq!(once.cursor(), (0, 0));
    assert_eq!(once.screen_contents(), vec![0x20u8; 32]);
}

#[test]
fn home_keeps_the_screen() {
    let mut lcd = LCD1602::new();
    lcd.print("keep");
    lcd.home();
    assert_eq!(lcd.cursor(), (0, 0));
    assert_eq!(lcd.screen_contents()[0], b'k');
}

#[test]
fn format_pads_to_three_characters() {
    assert_eq!(format_right_aligned_3(0), vec![0x20, 0x20, b'0']);
    assert_eq!(format_right_aligned_3(7), vec![0x20, 0x20, b'7']);
    assert_eq!(format_right_aligned_3(42), vec![0x20, b'4', b'2']);
    assert_eq!(format_right_aligned_3(100), vec![b'1', b'0', b'0']);
    assert_eq!(format_right_aligned_3(1234), vec![b'1', b'2', b'3', b'4']);
    assert_eq!(
        format_right_aligned_3(u32::MAX),
        vec![b'4', b'2', b'9', b'4', b'9', b'6', b'7', b'2', b'9', b'5']
    );
}

#[test]
fn application_glyphs_are_loaded_in_their_slots() {
    let mut lcd = LCD1602::new();
    lcd.init_custom_chars();
    assert_eq!(
        lcd.glyph(MAN_STANDING),
        [0x0e, 0x0e, 0x04, 0x1f, 0x04, 0x04, 0x0a, 0x0a]
    );
    assert_eq!(lcd.glyph(MAN_DANCING), custom_char_map(MAN_DANCING));
    assert_eq!(lcd.glyph(HEART_FULL), custom_char_map(HEART_FULL));
    assert_eq!(lcd.glyph(HEART_BORDER), custom_char_map(HEART_BORDER));
}

#[test]
fn display_control_and_entry_mode_send_their_command_bytes() {
    let mut lcd = LCD1602::new();
    let _ = lcd.take_ops();
    // Display on, cursor shown, no blink: command 0x0E = nibbles 0x0, 0xE.
    lcd.set_display(true, true, false);
    let ops = lcd.take_ops();
    assert_eq!(ops[0], BusOp::SetPin(PinId::RegisterSelect, false));
    assert_eq!(ops[1], BusOp::SetPin(PinId::Data4, false));
    assert_eq!(ops[2], BusOp::SetPin(PinId::Data5, false));
    assert_eq!(ops[3], BusOp::SetPin(PinId::Data6, false));
    assert_eq!(ops[4], BusOp::SetPin(PinId::Data7, false));
    assert_eq!(ops[9], BusOp::SetPin(PinId::Data4, false));
    assert_eq!(ops[10], BusOp::SetPin(PinId::Data5, true));
    assert_eq!(ops[11], BusOp::SetPin(PinId::Data6, true));
    assert_eq!(ops[12], BusOp::SetPin(PinId::Data7, true));
    // Entry mode right-to-left, no shift: command 0x04 = nibbles 0x0, 0x4.
    lcd.set_entry_mode(TextDirection::RightToLeft, false);
    let ops = lcd.take_ops();
    assert_eq!(ops[9], BusOp::SetPin(PinId::Data4, false));
    assert_eq!(ops[10], BusOp::SetPin(PinId::Data5, false));
    assert_eq!(ops[11], BusOp::SetPin(PinId::Data6, true));
    assert_eq!(ops[12], BusOp::SetPin(PinId::Data7, false));
}

#[test]
fn glyph_definition_sends_address_then_rows() {
    let mut lcd = LCD1602::new();
    let _ = lcd.take_ops();
    let map: CharMap = [0, 1, 2, 3, 4, 5, 6, 7];
    assert_eq!(lcd.create_custom_char(2, map), Ok(()));
    let ops = lcd.take_ops();
    // Address command 0x50 (0x40 + slot 2 * 8): nibbles 0x5, 0x0.
    assert_eq!(ops[0], BusOp::SetPin(PinId::RegisterSelect, false));
    assert_eq!(ops[1], BusOp::SetPin(PinId::Data4, true));
    assert_eq!(ops[2], BusOp::SetPin(PinId::Data5, false));
    assert_eq!(ops[3], BusOp::SetPin(PinId::Data6, true));
    assert_eq!(ops[4], BusOp::SetPin(PinId::Data7, false));
    // One register-select write plus 8 rows follow, each 17 ops long.
    assert_eq!(ops.len(), 17 + 8 * 17);
    assert_eq!(ops[17], BusOp::SetPin(PinId::RegisterSelect, true));
}
