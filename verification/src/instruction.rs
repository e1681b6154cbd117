//! Instruction-register bit patterns of the display controller.

use vstd::prelude::*;

verus! {

/// Flag bits of the display-control instruction.
#[derive(Clone, Copy, Debug, PartialEq, Eq, Structural)]
pub enum DisplayControl {
    Off,
    CursorBlink,
    CursorOn,
    DisplayOn,
}

impl DisplayControl {
    pub open spec fn spec_bits(self) -> u8 {
        match self {
            DisplayControl::Off => 0x00,
            DisplayControl::CursorBlink => 0x01,
            DisplayControl::CursorOn => 0x02,
            DisplayControl::DisplayOn => 0x04,
        }
    }

    #[verifier::when_used_as_spec(spec_bits)]
    pub fn bits(self) -> (b: u8)
        ensures
            b == self.spec_bits(),
    {
        match self {
            DisplayControl::Off => 0x00,
            DisplayControl::CursorBlink => 0x01,
            DisplayControl::CursorOn => 0x02,
            DisplayControl::DisplayOn => 0x04,
        }
    }
}

/// State of the backlight line of the expander.
#[derive(Clone, Copy, Debug, PartialEq, Eq, Structural)]
pub enum Backlight {
    Off,
    On,
}

impl Backlight {
    pub open spec fn spec_bits(self) -> u8 {
        match self {
            Backlight::Off => 0x00,
            Backlight::On => 0x08,
        }
    }

    #[verifier::when_used_as_spec(spec_bits)]
    pub fn bits(self) -> (b: u8)
        ensures
            b == self.spec_bits(),
    {
        match self {
            Backlight::Off => 0x00,
            Backlight::On => 0x08,
        }
    }
}

/// Operation class of an instruction: the base code the flags are OR-ed onto.
#[derive(Clone, Copy, Debug, PartialEq, Eq, Structural)]
pub enum Mode {
    EntrySet,
    DisplayControl,
    FunctionSet,
    DDRAMAddr,
}

impl Mode {
    pub open spec fn spec_bits(self) -> u8 {
        match self {
            Mode::EntrySet => 0x04,
            Mode::DisplayControl => 0x08,
            Mode::FunctionSet => 0x20,
            Mode::DDRAMAddr => 0x80,
        }
    }

    #[verifier::when_used_as_spec(spec_bits)]
    pub fn bits(self) -> (b: u8)
        ensures
            b == self.spec_bits(),
    {
        match self {
            Mode::EntrySet => 0x04,
            Mode::DisplayControl => 0x08,
            Mode::FunctionSet => 0x20,
            Mode::DDRAMAddr => 0x80,
        }
    }
}

/// Instructions that are a fixed code.
#[derive(Clone, Copy, Debug, PartialEq, Eq, Structural)]
pub enum Commands {
    Clear,
    ReturnHome,
    ShiftCursorLeft,
    ShiftCursorRight,
    ShiftDisplayLeft,
    ShiftDisplayRight,
}

impl Commands {
    pub open spec fn spec_bits(self) -> u8 {
        match self {
            Commands::Clear => 0x01,
            Commands::ReturnHome => 0x02,
            Commands::ShiftCursorLeft => 0x10,
            Commands::ShiftCursorRight => 0x14,
            Commands::ShiftDisplayLeft => 0x18,
            Commands::ShiftDisplayRight => 0x1c,
        }
    }

    #[verifier::when_used_as_spec(spec_bits)]
    pub fn bits(self) -> (b: u8)
        ensures
            b == self.spec_bits(),
    {
        match self {
            Commands::Clear => 0x01,
            Commands::ReturnHome => 0x02,
            Commands::ShiftCursorLeft => 0x10,
            Commands::ShiftCursorRight => 0x14,
            Commands::ShiftDisplayLeft => 0x18,
            Commands::ShiftDisplayRight => 0x1c,
        }
    }
}

/// Bus width announced by a function-set instruction.
#[derive(Clone, Copy, Debug, PartialEq, Eq, Structural)]
pub enum BitMode {
    Bit4,
    Bit8,
}

impl BitMode {
    pub open spec fn spec_bits(self) -> u8 {
        match self {
            BitMode::Bit4 => 0x00,
            BitMode::Bit8 => 0x10,
        }
    }

    #[verifier::when_used_as_spec(spec_bits)]
    pub fn bits(self) -> (b: u8)
        ensures
            b == self.spec_bits(),
    {
        match self {
            BitMode::Bit4 => 0x00,
            BitMode::Bit8 => 0x10,
        }
    }
}

/// Dot matrix of the character font.
#[derive(Clone, Copy, Debug, PartialEq, Eq, Structural)]
pub enum Font {
    Font5x8,
    Font5x10,
}

impl Font {
    pub open spec fn spec_bits(self) -> u8 {
        match self {
            Font::Font5x8 => 0x00,
            Font::Font5x10 => 0x04,
        }
    }

    #[verifier::when_used_as_spec(spec_bits)]
    pub fn bits(self) -> (b: u8)
        ensures
            b == self.spec_bits(),
    {
        match self {
            Font::Font5x8 => 0x00,
            Font::Font5x10 => 0x04,
        }
    }
}

/// Entry direction bit of the entry-mode instruction. `Left` is the
/// conventional left-to-right text entry.
#[derive(Clone, Copy, Debug, PartialEq, Eq, Structural)]
pub enum CursorMoveDir {
    Right,
    Left,
}

impl CursorMoveDir {
    pub open spec fn spec_bits(self) -> u8 {
        match self {
            CursorMoveDir::Right => 0x00,
            CursorMoveDir::Left => 0x02,
        }
    }

    #[verifier::when_used_as_spec(spec_bits)]
    pub fn bits(self) -> (b: u8)
        ensures
            b == self.spec_bits(),
    {
        match self {
            CursorMoveDir::Right => 0x00,
            CursorMoveDir::Left => 0x02,
        }
    }
}

/// Shift-display-on-write bit of the entry-mode instruction.
#[derive(Clone, Copy, Debug, PartialEq, Eq, Structural)]
pub enum DisplayShift {
    Decrement,
    Increment,
}

impl DisplayShift {
    pub open spec fn spec_bits(self) -> u8 {
        match self {
            DisplayShift::Decrement => 0x00,
            DisplayShift::Increment => 0x01,
        }
    }

    #[verifier::when_used_as_spec(spec_bits)]
    pub fn bits(self) -> (b: u8)
        ensures
            b == self.spec_bits(),
    {
        match self {
            DisplayShift::Decrement => 0x00,
            DisplayShift::Increment => 0x01,
        }
    }
}

/// The function-set instruction: base code, bus width, font and line count.
pub open spec fn function_set_spec(width: BitMode, font: Font, multi_line: bool) -> u8 {
    match (width, font, multi_line) {
        (BitMode::Bit4, Font::Font5x8, false) => 0x20,
        (BitMode::Bit4, Font::Font5x8, true) => 0x28,
        (BitMode::Bit4, Font::Font5x10, false) => 0x24,
        (BitMode::Bit4, Font::Font5x10, true) => 0x2c,
        (BitMode::Bit8, Font::Font5x8, false) => 0x30,
        (BitMode::Bit8, Font::Font5x8, true) => 0x38,
        (BitMode::Bit8, Font::Font5x10, false) => 0x34,
        (BitMode::Bit8, Font::Font5x10, true) => 0x3c,
    }
}

/// Encodes a function-set instruction. The result is the base code OR-ed
/// with the three fields, each of which owns its own bit.
pub fn function_set(width: BitMode, font: Font, multi_line: bool) -> (byte: u8)
    ensures
        byte == function_set_spec(width, font, multi_line),
        byte == Mode::FunctionSet.spec_bits() | width.spec_bits() | font.spec_bits() | (if multi_line {
            0x08u8
        } else {
            0x00u8
        }),
        (byte & 0x08 != 0) == multi_line,
        (byte & 0x10 != 0) == (width == BitMode::Bit8),
        (byte & 0x04 != 0) == (font == Font::Font5x10),
{
    let lines: u8 = if multi_line { 0x08 } else { 0x00 };
    let byte: u8 = Mode::FunctionSet.bits() | width.bits() | font.bits() | lines;
    let w: u8 = width.bits();
    let f: u8 = font.bits();
    assert(byte == 0x20u8 + w + f + lines && (byte & 0x08 != 0) == (lines == 0x08) && (byte & 0x10
        != 0) == (w == 0x10) && (byte & 0x04 != 0) == (f == 0x04)) by (bit_vector)
        requires
            byte == 0x20u8 | w | f | lines,
            w == 0x00 || w == 0x10,
            f == 0x00 || f == 0x04,
            lines == 0x00 || lines == 0x08,
    ;
    byte
}

/// The display-control instruction with the display forced on.
pub open spec fn display_control_spec(cursor_on: bool, cursor_blink: bool) -> u8 {
    match (cursor_on, cursor_blink) {
        (false, false) => 0x0c,
        (false, true) => 0x0d,
        (true, false) => 0x0e,
        (true, true) => 0x0f,
    }
}

/// Encodes a display-control instruction: display on, cursor and blink as asked.
pub fn display_control(cursor_on: bool, cursor_blink: bool) -> (byte: u8)
    ensures
        byte == display_control_spec(cursor_on, cursor_blink),
        byte == Mode::DisplayControl.spec_bits() | DisplayControl::DisplayOn.spec_bits() | (if cursor_on {
            DisplayControl::CursorOn.spec_bits()
        } else {
            DisplayControl::Off.spec_bits()
        }) | (if cursor_blink {
            DisplayControl::CursorBlink.spec_bits()
        } else {
            DisplayControl::Off.spec_bits()
        }),
        byte & 0x04 != 0,
        (byte & 0x02 != 0) == cursor_on,
        (byte & 0x01 != 0) == cursor_blink,
{
    let c: u8 = if cursor_on { DisplayControl::CursorOn.bits() } else { DisplayControl::Off.bits() };
    let b: u8 = if cursor_blink { DisplayControl::CursorBlink.bits() } else { DisplayControl::Off.bits() };
    let byte: u8 = Mode::DisplayControl.bits() | DisplayControl::DisplayOn.bits() | c | b;
    assert(byte == 0x0cu8 + c + b && byte & 0x04 != 0 && (byte & 0x02 != 0) == (c == 0x02) && (byte
        & 0x01 != 0) == (b == 0x01)) by (bit_vector)
        requires
            byte == 0x08u8 | 0x04u8 | c | b,
            c == 0x00 || c == 0x02,
            b == 0x00 || b == 0x01,
    ;
    byte
}

/// The entry-mode instruction.
pub open spec fn entry_mode_spec(direction: CursorMoveDir, shift: DisplayShift) -> u8 {
    match (direction, shift) {
        (CursorMoveDir::Right, DisplayShift::Decrement) => 0x04,
        (CursorMoveDir::Right, DisplayShift::Increment) => 0x05,
        (CursorMoveDir::Left, DisplayShift::Decrement) => 0x06,
        (CursorMoveDir::Left, DisplayShift::Increment) => 0x07,
    }
}

/// Encodes an entry-mode instruction from the direction and shift bits.
pub fn entry_mode(direction: CursorMoveDir, shift: DisplayShift) -> (byte: u8)
    ensures
        byte == entry_mode_spec(direction, shift),
        byte == Mode::EntrySet.spec_bits() | direction.spec_bits() | shift.spec_bits(),
{
    let d: u8 = direction.bits();
    let s: u8 = shift.bits();
    let byte: u8 = Mode::EntrySet.bits() | d | s;
    assert(byte == 0x04u8 + d + s) by (bit_vector)
        requires
            byte == 0x04u8 | d | s,
            d == 0x00 || d == 0x02,
            s == 0x00 || s == 0x01,
    ;
    byte
}

/// The set-DDRAM-address instruction: bit 7 set, bits 6 to 0 the address.
pub open spec fn ddram_address_spec(address: u8) -> u8 {
    (0x80 + address % 0x80) as u8
}

/// Encodes a set-DDRAM-address instruction. Only the low seven bits of
/// `address` are used.
pub fn ddram_address(address: u8) -> (byte: u8)
    ensures
        byte == ddram_address_spec(address),
        byte == Mode::DDRAMAddr.spec_bits() | (address & 0x7f),
        byte & 0x80 != 0,
        byte & 0x7f == address & 0x7f,
{
    let byte: u8 = Mode::DDRAMAddr.bits() | (address & 0x7f);
    assert(byte == 0x80u8 + address % 0x80u8 && byte & 0x80 != 0 && byte & 0x7f == address & 0x7f)
        by (bit_vector)
        requires
            byte == 0x80u8 | (address & 0x7f),
    ;
    byte
}

} // verus!
