//! The character-LCD command encoder and display model.
//!
//! The display sits on a 4-bit parallel bus: every command or data
//! byte becomes two 4-bit writes to the data pins, each strobed by an enable
//! pulse with protocol-mandated delays. This module computes that exact
//! operation stream — the unverified harness only replays it onto the pins —
//! and keeps a model of the observable display state (visible cells, cursor,
//! glyph memory) that the contracts speak about.
use vstd::prelude::*;

use crate::custom_characters::CharMap;
use crate::custom_characters::HEART_BORDER;
use crate::custom_characters::HEART_FULL;
use crate::custom_characters::MAN_DANCING;
use crate::custom_characters::MAN_STANDING;
use crate::custom_characters::custom_char_map;
use crate::custom_characters::spec_custom_char_map;

verus! {

/// A pin of the display bus.
#[derive(Clone, Copy, Debug, PartialEq, Eq, Structural)]
pub enum PinId {
    /// Register select: low for a command byte, high for a data byte.
    RegisterSelect,
    /// The enable strobe.
    Enable,
    /// Data bus bit 4.
    Data4,
    /// Data bus bit 5.
    Data5,
    /// Data bus bit 6.
    Data6,
    /// Data bus bit 7.
    Data7,
}

/// One step of the bus protocol: drive a pin to a level, or hold the bus
/// for a protocol-mandated number of milliseconds.
#[derive(Clone, Copy, Debug, PartialEq, Eq, Structural)]
pub enum BusOp {
    SetPin(PinId, bool),
    DelayMs(u8),
}

/// Whether a byte goes to the instruction register or the data register.
#[derive(Clone, Copy, Debug, PartialEq, Eq, Structural)]
pub enum PackType {
    Command,
    Data,
}

/// Direction the cursor moves after each written character.
#[derive(Clone, Copy, Debug, PartialEq, Eq, Structural)]
pub enum TextDirection {
    LeftToRight,
    RightToLeft,
}

/// A rejected display call.
#[derive(Clone, Copy, Debug, PartialEq, Eq, Structural)]
pub enum Error {
    /// The cursor position is outside the 2 rows by 16 columns.
    InvalidCursorPosition,
    /// The glyph slot is outside the 8 character-generator slots.
    InvalidGlyphSlot,
}

/// The observable state of the display: what a reader of the panel and of
/// the controller's memory could tell apart. The emitted bus operations are
/// deliberately not part of it.
pub struct DisplayObs {
    /// The 32 visible cells, row-major: row 0 columns 0..16, then row 1.
    pub screen: Seq<u8>,
    /// Cursor row, 0 or 1.
    pub cursor_row: u8,
    /// Cursor column. Columns at 16 and beyond are off-screen: writes there
    /// land in invisible display memory. Saturates at 255 in this model.
    pub cursor_col: u8,
    /// The 8 glyph bitmaps of the character-generator memory.
    pub glyphs: Seq<CharMap>,
    /// True after a glyph definition: the controller's address counter
    /// points into glyph memory until the cursor is positioned again.
    pub cgram_addressing: bool,
    /// True while the entry mode moves the cursor left to right.
    pub left_to_right: bool,
}

/// The 8 bus steps of one 4-bit write: the low 4 bits of `data` onto the
/// data pins, then an enable pulse with its two settle delays.
pub open spec fn write_bus_ops(data: u8) -> Seq<BusOp> {
    seq![
        BusOp::SetPin(PinId::Data4, data & 0x01 != 0),
        BusOp::SetPin(PinId::Data5, data & 0x02 != 0),
        BusOp::SetPin(PinId::Data6, data & 0x04 != 0),
        BusOp::SetPin(PinId::Data7, data & 0x08 != 0),
        BusOp::SetPin(PinId::Enable, true),
        BusOp::DelayMs(1),
        BusOp::SetPin(PinId::Enable, false),
        BusOp::DelayMs(1),
    ]
}

/// One whole byte on the bus: the register select level, then the high
/// nibble, then the low nibble.
pub open spec fn send_ops(pack: PackType, payload: u8) -> Seq<BusOp> {
    seq![BusOp::SetPin(PinId::RegisterSelect, pack is Data)] + write_bus_ops(payload >> 4)
        + write_bus_ops(payload)
}

/// The clear-display command plus its long settle delay.
pub open spec fn clear_ops() -> Seq<BusOp> {
    send_ops(PackType::Command, 0x01) + seq![BusOp::DelayMs(2)]
}

/// The return-home command plus its long settle delay.
pub open spec fn home_ops() -> Seq<BusOp> {
    send_ops(PackType::Command, 0x02) + seq![BusOp::DelayMs(2)]
}

/// The set-display-memory-address command for a cursor position.
pub open spec fn spec_cursor_command(row: u8, col: u8) -> u8 {
    (0x80 + 0x40 * row + col) as u8
}

/// The display-control command byte.
pub open spec fn spec_display_control_command(on: bool, show_cursor: bool, blink_cursor: bool) -> u8 {
    ((0x08int + if on {
        0x04int
    } else {
        0int
    }) + (if show_cursor {
        0x02int
    } else {
        0int
    }) + (if blink_cursor {
        0x01int
    } else {
        0int
    })) as u8
}

/// The entry-mode command byte.
pub open spec fn spec_entry_mode_command(text_direction: TextDirection, shift_increment: bool) -> u8 {
    ((0x04int + if text_direction is LeftToRight {
        0x02int
    } else {
        0int
    }) + (if shift_increment {
        0x01int
    } else {
        0int
    })) as u8
}

/// The set-glyph-memory-address command for a glyph slot.
pub open spec fn spec_glyph_address_command(slot: u8) -> u8 {
    (0x40 + 8 * slot) as u8
}

/// Data sends for a run of bytes, in order.
pub open spec fn data_ops(bytes: Seq<u8>) -> Seq<BusOp>
    decreases bytes.len(),
{
    if bytes.len() == 0 {
        Seq::empty()
    } else {
        data_ops(bytes.drop_last()) + send_ops(PackType::Data, bytes.last())
    }
}

/// The whole operation stream of one glyph definition: the glyph-memory
/// address, then the 8 row patterns.
pub open spec fn glyph_ops(slot: u8, rows: Seq<u8>) -> Seq<BusOp> {
    send_ops(PackType::Command, spec_glyph_address_command(slot)) + data_ops(rows)
}

/// The power-on initialisation stream: three pings that force 8-bit mode,
/// the switch to 4-bit mode, function set (2 lines, 5x8 dots), display on,
/// left-to-right entry mode, and a clear.
pub open spec fn init_ops() -> Seq<BusOp> {
    send_ops(PackType::Command, 0x03) + seq![BusOp::DelayMs(5)] + send_ops(PackType::Command, 0x03)
        + seq![BusOp::DelayMs(5)] + send_ops(PackType::Command, 0x03) + seq![BusOp::DelayMs(5)]
        + send_ops(PackType::Command, 0x02) + send_ops(PackType::Command, 0x28) + send_ops(
        PackType::Command,
        spec_display_control_command(true, false, false),
    ) + send_ops(PackType::Command, spec_entry_mode_command(TextDirection::LeftToRight, false))
        + clear_ops()
}

/// A screen of 32 blank (space) cells.
pub open spec fn blank_screen() -> Seq<u8> {
    Seq::new(32, |i: int| 0x20u8)
}

/// An empty glyph bitmap.
pub open spec fn blank_glyph() -> Seq<u8> {
    Seq::new(8, |i: int| 0u8)
}

/// The display after the clear command: screen blank, cursor at home,
/// addressing back in display memory. Glyph memory is untouched.
pub open spec fn spec_clear_display(o: DisplayObs) -> DisplayObs {
    DisplayObs { screen: blank_screen(), cursor_row: 0, cursor_col: 0, cgram_addressing: false, ..o }
}

/// The display after the return-home command: cursor at home, screen kept.
pub open spec fn spec_home(o: DisplayObs) -> DisplayObs {
    DisplayObs { cursor_row: 0, cursor_col: 0, cgram_addressing: false, ..o }
}

/// The display after a successful cursor move.
pub open spec fn spec_set_cursor(o: DisplayObs, row: u8, col: u8) -> DisplayObs {
    DisplayObs { cursor_row: row, cursor_col: col, cgram_addressing: false, ..o }
}

/// The display after one data byte, in left-to-right entry mode with the
/// address counter in display memory: the byte lands in the cell under the
/// cursor if that cell is visible, and the cursor moves one column right.
pub open spec fn spec_write_byte(o: DisplayObs, b: u8) -> DisplayObs {
    let moved = if o.cursor_col < 255 {
        (o.cursor_col + 1) as u8
    } else {
        o.cursor_col
    };
    if o.cursor_row < 2 && o.cursor_col < 16 {
        DisplayObs {
            screen: o.screen.update(0x10 * o.cursor_row + o.cursor_col, b),
            cursor_col: moved,
            ..o
        }
    } else {
        DisplayObs { cursor_col: moved, ..o }
    }
}

/// The display after a run of data bytes.
pub open spec fn spec_write_bytes(o: DisplayObs, bytes: Seq<u8>) -> DisplayObs
    decreases bytes.len(),
{
    if bytes.len() == 0 {
        o
    } else {
        spec_write_byte(spec_write_bytes(o, bytes.drop_last()), bytes.last())
    }
}

/// The display after a successful glyph definition.
pub open spec fn spec_define_glyph(o: DisplayObs, slot: u8, char_map: CharMap) -> DisplayObs {
    DisplayObs { glyphs: o.glyphs.update(slot as int, char_map), cgram_addressing: true, ..o }
}

/// The byte a printed character puts on the bus: its low 8 bits — the
/// driver truncates characters for this 8-bit character set.
pub open spec fn lcd_byte(c: char) -> u8 {
    (((c as u32) % 0x100) as u8)
}

/// The bus bytes of a whole string.
pub open spec fn lcd_bytes(s: Seq<char>) -> Seq<u8> {
    Seq::new(s.len(), |i: int| lcd_byte(s[i]))
}

/// The display driver: the emitted-but-not-yet-replayed bus operations,
/// and the model of the observable display state.
pub struct LCD1602 {
    queue: Vec<BusOp>,
    screen: Vec<u8>,
    cursor_row: u8,
    cursor_col: u8,
    glyphs: Vec<CharMap>,
    cgram_addressing: bool,
    left_to_right: bool,
}

impl LCD1602 {
    /// The observable display state.
    pub closed spec fn obs(self) -> DisplayObs {
        DisplayObs {
            screen: self.screen@,
            cursor_row: self.cursor_row,
            cursor_col: self.cursor_col,
            glyphs: self.glyphs@,
            cgram_addressing: self.cgram_addressing,
            left_to_right: self.left_to_right,
        }
    }

    /// The bus operations emitted so far and not yet taken by the harness.
    pub closed spec fn queue(self) -> Seq<BusOp> {
        self.queue@
    }

    /// Well-formedness: the model has its 32 visible cells and 8 glyph
    /// slots, and the cursor row is one of the 2 rows.
    pub open spec fn wf(self) -> bool {
        &&& self.obs().screen.len() == 32
        &&& self.obs().glyphs.len() == 8
        &&& self.obs().cursor_row < 2
    }

    /// A blank 32-cell screen model.
    fn blank_screen_vec() -> (v: Vec<u8>)
        ensures
            v@ =~= blank_screen(),
    {
        let mut v: Vec<u8> = Vec::new();
        let mut i: usize = 0;
        while i < 32
            invariant
                i <= 32,
                v@.len() == i,
                forall|j: int| 0 <= j < i ==> v@[j] == 0x20u8,
            decreases 32 - i,
        {
            v.push(0x20);
            i += 1;
        }
        v
    }

    /// Eight blank glyph slots.
    fn blank_glyphs_vec() -> (v: Vec<CharMap>)
        ensures
            v@.len() == 8,
            forall|i: int| 0 <= i < 8 ==> (#[trigger] v@[i])@ =~= blank_glyph(),
    {
        let mut v: Vec<CharMap> = Vec::new();
        let mut i: usize = 0;
        while i < 8
            invariant
                i <= 8,
                v@.len() == i,
                forall|j: int| 0 <= j < i ==> (#[trigger] v@[j])@ =~= blank_glyph(),
            decreases 8 - i,
        {
            let g: CharMap = [0u8; 8];
            assert(g@ =~= blank_glyph());
            v.push(g);
            i += 1;
        }
        v
    }

    /// Put the low 4 bits of `data` on the data pins and strobe enable.
    fn write_bus(&mut self, data: u8)
        ensures
            final(self).queue() == old(self).queue() + write_bus_ops(data),
            final(self).obs() == old(self).obs(),
    {
        self.queue.push(BusOp::SetPin(PinId::Data4, data & 0x01 != 0));
        self.queue.push(BusOp::SetPin(PinId::Data5, data & 0x02 != 0));
        self.queue.push(BusOp::SetPin(PinId::Data6, data & 0x04 != 0));
        self.queue.push(BusOp::SetPin(PinId::Data7, data & 0x08 != 0));
        self.queue.push(BusOp::SetPin(PinId::Enable, true));
        self.queue.push(BusOp::DelayMs(1));
        self.queue.push(BusOp::SetPin(PinId::Enable, false));
        self.queue.push(BusOp::DelayMs(1));
        proof {
            assert(self.queue@ =~= old(self).queue@ + write_bus_ops(data));
        }
    }

    /// Send one byte, as a command or as data, as two 4-bit writes.
    fn send(&mut self, pack: PackType, payload: u8)
        ensures
            final(self).queue() == old(self).queue() + send_ops(pack, payload),
            final(self).obs() == old(self).obs(),
    {
        match pack {
            PackType::Command => self.queue.push(BusOp::SetPin(PinId::RegisterSelect, false)),
            PackType::Data => self.queue.push(BusOp::SetPin(PinId::RegisterSelect, true)),
        }
        self.write_bus(payload >> 4);
        self.write_bus(payload);
        proof {
            assert(self.queue@ =~= old(self).queue@ + send_ops(pack, payload));
        }
    }

    /// A fresh display, already taken through the whole power-on
    /// initialisation: 4-bit mode, 2 lines, display on, left-to-right
    /// entry mode, cleared.
    pub fn new() -> (lcd: LCD1602)
        ensures
            lcd.wf(),
            lcd.queue() == init_ops(),
            lcd.obs().screen == blank_screen(),
            lcd.obs().cursor_row == 0,
            lcd.obs().cursor_col == 0,
            lcd.obs().glyphs.len() == 8,
            forall|i: int| 0 <= i < 8 ==> (#[trigger] lcd.obs().glyphs[i])@ =~= blank_glyph(),
            !lcd.obs().cgram_addressing,
            lcd.obs().left_to_right,
    {
        let mut lcd = LCD1602 {
            queue: Vec::new(),
            screen: Self::blank_screen_vec(),
            cursor_row: 0,
            cursor_col: 0,
            glyphs: Self::blank_glyphs_vec(),
            cgram_addressing: false,
            left_to_right: true,
        };
        lcd.send(PackType::Command, 0x03);
        lcd.queue.push(BusOp::DelayMs(5));
        lcd.send(PackType::Command, 0x03);
        lcd.queue.push(BusOp::DelayMs(5));
        lcd.send(PackType::Command, 0x03);
        lcd.queue.push(BusOp::DelayMs(5));
        lcd.send(PackType::Command, 0x02);
        lcd.send(PackType::Command, 0x28);
        lcd.set_display(true, false, false);
        lcd.set_entry_mode(TextDirection::LeftToRight, false);
        lcd.clear();
        proof {
            assert(lcd.queue@ =~= init_ops());
        }
        lcd
    }

    /// Configure display power, cursor visibility and cursor blink.
    pub fn set_display(&mut self, on: bool, show_cursor: bool, blink_cursor: bool)
        ensures
            final(self).queue() == old(self).queue() + send_ops(
                PackType::Command,
                spec_display_control_command(on, show_cursor, blink_cursor),
            ),
            final(self).obs() == old(self).obs(),
    {
        let mut cmd: u8 = 0x08;
        if on {
            cmd = cmd + 0x04;
        }
        if show_cursor {
            cmd = cmd + 0x02;
        }
        if blink_cursor {
            cmd = cmd + 0x01;
        }
        self.send(PackType::Command, cmd);
    }

    /// Configure the direction the cursor moves after each character.
    pub fn set_entry_mode(&mut self, text_direction: TextDirection, shift_increment: bool)
        ensures
            final(self).queue() == old(self).queue() + send_ops(
                PackType::Command,
                spec_entry_mode_command(text_direction, shift_increment),
            ),
            final(self).obs() == (DisplayObs {
                left_to_right: text_direction is LeftToRight,
                ..old(self).obs()
            }),
    {
        let mut cmd: u8 = 0x04;
        match text_direction {
            TextDirection::LeftToRight => {
                cmd = cmd + 0x02;
                self.left_to_right = true;
            },
            TextDirection::RightToLeft => {
                self.left_to_right = false;
            },
        }
        if shift_increment {
            cmd = cmd + 0x01;
        }
        self.send(PackType::Command, cmd);
    }

    /// Clear the screen and move the cursor to the start.
    pub fn clear(&mut self)
        requires
            old(self).wf(),
        ensures
            final(self).wf(),
            final(self).queue() == old(self).queue() + clear_ops(),
            final(self).obs() == spec_clear_display(old(self).obs()),
    {
        self.send(PackType::Command, 0x01);
        self.queue.push(BusOp::DelayMs(2));
        let mut i: usize = 0;
        while i < 32
            invariant
                i <= 32,
                self.screen@.len() == 32,
                forall|j: int| 0 <= j < i ==> self.screen@[j] == 0x20u8,
                self.queue@ == old(self).queue@ + clear_ops(),
                self.cursor_row == old(self).cursor_row,
                self.cursor_col == old(self).cursor_col,
                self.glyphs@ == old(self).glyphs@,
                self.cgram_addressing == old(self).cgram_addressing,
                self.left_to_right == old(self).left_to_right,
            decreases 32 - i,
        {
            self.screen[i] = 0x20;
            i += 1;
        }
        self.cursor_row = 0;
        self.cursor_col = 0;
        self.cgram_addressing = false;
        proof {
            assert(self.screen@ =~= blank_screen());
        }
    }

    /// Move the cursor to the start without erasing anything.
    pub fn home(&mut self)
        requires
            old(self).wf(),
        ensures
            final(self).wf(),
            final(self).queue() == old(self).queue() + home_ops(),
            final(self).obs() == spec_home(old(self).obs()),
    {
        self.send(PackType::Command, 0x02);
        self.queue.push(BusOp::DelayMs(2));
        self.cursor_row = 0;
        self.cursor_col = 0;
        self.cgram_addressing = false;
        proof {
            assert(self.queue@ =~= old(self).queue@ + home_ops());
        }
    }

    /// Move the cursor. Rows run 0..2 and columns 0..16; anything outside
    /// is rejected with `InvalidCursorPosition` and the display is left
    /// exactly as it was.
    pub fn set_cursor(&mut self, row: u8, column: u8) -> (r: Result<(), Error>)
        requires
            old(self).wf(),
        ensures
            final(self).wf(),
            row < 2 && column < 16 ==> {
                &&& r == Ok::<(), Error>(())
                &&& final(self).queue() == old(self).queue() + send_ops(
                    PackType::Command,
                    spec_cursor_command(row, column),
                )
                &&& final(self).obs() == spec_set_cursor(old(self).obs(), row, column)
            },
            !(row < 2 && column < 16) ==> {
                &&& r == Err::<(), Error>(Error::InvalidCursorPosition)
                &&& *final(self) == *old(self)
            },
    {
        if column >= 16 || row >= 2 {
            Err(Error::InvalidCursorPosition)
        } else {
            self.send(PackType::Command, 0x80 + 0x40 * row + column);
            self.cursor_row = row;
            self.cursor_col = column;
            self.cgram_addressing = false;
            Ok(())
        }
    }

    /// Send one data byte and track its effect on the visible screen.
    fn write_data_byte(&mut self, b: u8)
        requires
            old(self).wf(),
            old(self).obs().left_to_right,
            !old(self).obs().cgram_addressing,
        ensures
            final(self).wf(),
            final(self).queue() == old(self).queue() + send_ops(PackType::Data, b),
            final(self).obs() == spec_write_byte(old(self).obs(), b),
    {
        self.send(PackType::Data, b);
        if self.cursor_row < 2 && self.cursor_col < 16 {
            let idx: usize = 0x10 * self.cursor_row as usize + self.cursor_col as usize;
            self.screen[idx] = b;
        }
        if self.cursor_col < 255 {
            self.cursor_col = self.cursor_col + 1;
        }
    }

    /// Print a string at the cursor. Characters are truncated to the
    /// display's 8-bit character set; what runs past column 15 lands in
    /// invisible display memory, as on the real panel.
    pub fn print(&mut self, s: &str)
        requires
            old(self).wf(),
            old(self).obs().left_to_right,
            !old(self).obs().cgram_addressing,
        ensures
            final(self).wf(),
            final(self).obs().left_to_right,
            !final(self).obs().cgram_addressing,
            final(self).queue() == old(self).queue() + data_ops(lcd_bytes(s@)),
            final(self).obs() == spec_write_bytes(old(self).obs(), lcd_bytes(s@)),
    {
        let n = s.unicode_len();
        let mut i: usize = 0;
        while i < n
            invariant
                i <= n,
                n == s@.len(),
                self.wf(),
                self.obs().left_to_right,
                !self.obs().cgram_addressing,
                self.queue@ == old(self).queue@ + data_ops(lcd_bytes(s@).subrange(0, i as int)),
                self.obs() == spec_write_bytes(
                    old(self).obs(),
                    lcd_bytes(s@).subrange(0, i as int),
                ),
            decreases n - i,
        {
            let c = s.get_char(i);
            let b = ((c as u32) % 0x100) as u8;
            self.write_data_byte(b);
            i += 1;
            proof {
                let done = lcd_bytes(s@).subrange(0, i as int);
                assert(done.drop_last() =~= lcd_bytes(s@).subrange(0, i - 1));
                assert(self.queue@ =~= old(self).queue@ + data_ops(done));
            }
        }
        proof {
            assert(lcd_bytes(s@).subrange(0, n as int) =~= lcd_bytes(s@));
        }
    }

    /// Print a run of raw character bytes at the cursor, as `print` does
    /// for a string. The application uses it for text it computes itself,
    /// such as formatted numbers.
    pub fn print_bytes(&mut self, bytes: &Vec<u8>)
        requires
            old(self).wf(),
            old(self).obs().left_to_right,
            !old(self).obs().cgram_addressing,
        ensures
            final(self).wf(),
            final(self).obs().left_to_right,
            !final(self).obs().cgram_addressing,
            final(self).queue() == old(self).queue() + data_ops(bytes@),
            final(self).obs() == spec_write_bytes(old(self).obs(), bytes@),
    {
        let n = bytes.len();
        let mut i: usize = 0;
        while i < n
            invariant
                i <= n,
                n == bytes@.len(),
                self.wf(),
                self.obs().left_to_right,
                !self.obs().cgram_addressing,
                self.queue@ == old(self).queue@ + data_ops(bytes@.subrange(0, i as int)),
                self.obs() == spec_write_bytes(old(self).obs(), bytes@.subrange(0, i as int)),
            decreases n - i,
        {
            let b = bytes[i];
            self.write_data_byte(b);
            i += 1;
            proof {
                let done = bytes@.subrange(0, i as int);
                assert(done.drop_last() =~= bytes@.subrange(0, i - 1));
                assert(self.queue@ =~= old(self).queue@ + data_ops(done));
            }
        }
        proof {
            assert(bytes@.subrange(0, n as int) =~= bytes@);
        }
    }

    /// Store one glyph bitmap in a known-valid glyph slot.
    fn store_glyph(&mut self, slot: u8, char_map: CharMap)
        requires
            old(self).wf(),
            slot < 8,
        ensures
            final(self).wf(),
            final(self).queue() == old(self).queue() + glyph_ops(slot, char_map@),
            final(self).obs() == spec_define_glyph(old(self).obs(), slot, char_map),
    {
        self.send(PackType::Command, 0x40 + 8 * slot);
        let mut i: usize = 0;
        while i < 8
            invariant
                i <= 8,
                self.queue@ == old(self).queue@ + send_ops(
                    PackType::Command,
                    spec_glyph_address_command(slot),
                ) + data_ops(char_map@.subrange(0, i as int)),
                self.obs() == old(self).obs(),
            decreases 8 - i,
        {
            self.send(PackType::Data, char_map[i]);
            i += 1;
            proof {
                let done = char_map@.subrange(0, i as int);
                assert(done.drop_last() =~= char_map@.subrange(0, i - 1));
                assert(self.queue@ =~= old(self).queue@ + send_ops(
                    PackType::Command,
                    spec_glyph_address_command(slot),
                ) + data_ops(done));
            }
        }
        self.glyphs[slot as usize] = char_map;
        self.cgram_addressing = true;
        proof {
            assert(char_map@.subrange(0, 8) =~= char_map@);
            assert(self.queue@ =~= old(self).queue@ + glyph_ops(slot, char_map@));
        }
    }

    /// Define a custom glyph in one of the 8 glyph slots. A slot above 7 is
    /// rejected with `InvalidGlyphSlot` and the display is left exactly as
    /// it was. A successful definition leaves the address counter in glyph
    /// memory: position the cursor before the next write.
    pub fn create_custom_char(&mut self, mem_location: u8, char_map: CharMap) -> (r: Result<
        (),
        Error,
    >)
        requires
            old(self).wf(),
        ensures
            final(self).wf(),
            mem_location < 8 ==> {
                &&& r == Ok::<(), Error>(())
                &&& final(self).queue() == old(self).queue() + glyph_ops(mem_location, char_map@)
                &&& final(self).obs() == spec_define_glyph(old(self).obs(), mem_location, char_map)
            },
            mem_location >= 8 ==> {
                &&& r == Err::<(), Error>(Error::InvalidGlyphSlot)
                &&& *final(self) == *old(self)
            },
    {
        if mem_location > 7 {
            Err(Error::InvalidGlyphSlot)
        } else {
            self.store_glyph(mem_location, char_map);
            Ok(())
        }
    }

    /// Write a previously defined glyph at the cursor. A slot above 7 is
    /// rejected with `InvalidGlyphSlot` and the display is left exactly as
    /// it was.
    pub fn write_custom_char(&mut self, mem_location: u8) -> (r: Result<(), Error>)
        requires
            old(self).wf(),
            old(self).obs().left_to_right,
            !old(self).obs().cgram_addressing,
        ensures
            final(self).wf(),
            mem_location < 8 ==> {
                &&& r == Ok::<(), Error>(())
                &&& final(self).queue() == old(self).queue() + send_ops(
                    PackType::Data,
                    mem_location,
                )
                &&& final(self).obs() == spec_write_byte(old(self).obs(), mem_location)
            },
            mem_location >= 8 ==> {
                &&& r == Err::<(), Error>(Error::InvalidGlyphSlot)
                &&& *final(self) == *old(self)
            },
    {
        if mem_location > 7 {
            Err(Error::InvalidGlyphSlot)
        } else {
            self.write_data_byte(mem_location);
            Ok(())
        }
    }

    /// Define the application's four glyphs: the two figures, then the two
    /// hearts.
    pub fn init_custom_chars(&mut self)
        requires
            old(self).wf(),
        ensures
            final(self).wf(),
            final(self).queue() == old(self).queue() + glyph_ops(
                MAN_STANDING,
                spec_custom_char_map(MAN_STANDING),
            ) + glyph_ops(MAN_DANCING, spec_custom_char_map(MAN_DANCING)) + glyph_ops(
                HEART_FULL,
                spec_custom_char_map(HEART_FULL),
            ) + glyph_ops(HEART_BORDER, spec_custom_char_map(HEART_BORDER)),
            final(self).obs().glyphs.len() == old(self).obs().glyphs.len(),
            forall|i: int|
                4 <= i < old(self).obs().glyphs.len() ==> final(self).obs().glyphs[i] == old(
                    self,
                ).obs().glyphs[i],
            final(self).obs().glyphs[MAN_STANDING as int]@ =~= spec_custom_char_map(MAN_STANDING),
            final(self).obs().glyphs[MAN_DANCING as int]@ =~= spec_custom_char_map(MAN_DANCING),
            final(self).obs().glyphs[HEART_FULL as int]@ =~= spec_custom_char_map(HEART_FULL),
            final(self).obs().glyphs[HEART_BORDER as int]@ =~= spec_custom_char_map(HEART_BORDER),
            final(self).obs().cgram_addressing,
            final(self).obs().screen == old(self).obs().screen,
            final(self).obs().cursor_row == old(self).obs().cursor_row,
            final(self).obs().cursor_col == old(self).obs().cursor_col,
            final(self).obs().left_to_right == old(self).obs().left_to_right,
    {
        self.store_glyph(MAN_STANDING, custom_char_map(MAN_STANDING));
        self.store_glyph(MAN_DANCING, custom_char_map(MAN_DANCING));
        self.store_glyph(HEART_FULL, custom_char_map(HEART_FULL));
        self.store_glyph(HEART_BORDER, custom_char_map(HEART_BORDER));
    }

    /// Hand the emitted bus operations to the harness for replay, leaving
    /// the queue empty. The observable display state is untouched.
    pub fn take_ops(&mut self) -> (ops: Vec<BusOp>)
        ensures
            ops@ == old(self).queue(),
            final(self).queue() == Seq::<BusOp>::empty(),
            final(self).obs() == old(self).obs(),
    {
        let mut out: Vec<BusOp> = Vec::new();
        core::mem::swap(&mut out, &mut self.queue);
        out
    }

    /// The cursor position, row then column.
    pub fn cursor(&self) -> (rc: (u8, u8))
        ensures
            rc.0 == self.obs().cursor_row,
            rc.1 == self.obs().cursor_col,
    {
        (self.cursor_row, self.cursor_col)
    }

    /// A copy of the 32 visible cells, row-major.
    pub fn screen_contents(&self) -> (v: Vec<u8>)
        requires
            self.wf(),
        ensures
            v@ == self.obs().screen,
    {
        let mut v: Vec<u8> = Vec::new();
        let mut i: usize = 0;
        while i < 32
            invariant
                i <= 32,
                self.wf(),
                v@.len() == i,
                forall|j: int| 0 <= j < i ==> v@[j] == self.obs().screen[j],
            decreases 32 - i,
        {
            v.push(self.screen[i]);
            i += 1;
        }
        proof {
            assert(v@ =~= self.obs().screen);
        }
        v
    }

    /// The stored bitmap of one glyph slot.
    pub fn glyph(&self, slot: u8) -> (m: CharMap)
        requires
            self.wf(),
            slot < 8,
        ensures
            m == self.obs().glyphs[slot as int],
    {
        self.glyphs[slot as usize]
    }
}

/// Clearing twice is observably the same as clearing once: in both cases
/// the screen is blank, the cursor is at home, and glyph memory is exactly
/// what it was.
pub proof fn lemma_clear_idempotent(o: DisplayObs)
    ensures
        spec_clear_display(spec_clear_display(o)) == spec_clear_display(o),
        spec_clear_display(o).screen == blank_screen(),
        spec_clear_display(o).cursor_row == 0,
        spec_clear_display(o).cursor_col == 0,
        spec_clear_display(o).glyphs == o.glyphs,
{
}

} // verus!
