use lcd_lcm1602_i2c::address::{row_col_to_address, row_offset};
use lcd_lcm1602_i2c::frame::{frame, send_byte, send_nibble};
use lcd_lcm1602_i2c::instruction::{ddram_address, display_control, entry_mode, function_set};
use lcd_lcm1602_i2c::timing::{
    CLEAR_HOME_DELAY_MS, HANDSHAKE_DELAY_MS, LEGACY_NIBBLE_SETTLE_US, NIBBLE_SETTLE_US,
    POWER_ON_DELAY_MS,
};
use lcd_lcm1602_i2c::{
    Backlight, BitMode, BusOp, Commands, CursorMoveDir, DisplayControl, DisplayShift, Font,
    Geometry, Link, Mode, Register, TimingProfile,
};

fn link(profile: TimingProfile, backlight: Backlight) -> Link {
    Link { address: 0x27, backlight, profile }
}

fn write(frame: u8) -> BusOp {
    BusOp::Write { address: 0x27, frame }
}

fn strobed_nibbles(ops: &[BusOp]) -> Vec<u8> {
    let mut out = Vec::new();
    for op in ops {
        if let BusOp::Write { frame, .. } = op {
            if frame & 0x04 != 0 {
                out.push(frame >> 4);
            }
        }
    }
    out
}

#[test]
fn timing_constants() {
    assert_eq!(POWER_ON_DELAY_MS, 80);
    assert_eq!(HANDSHAKE_DELAY_MS, 5);
    assert_eq!(NIBBLE_SETTLE_US, 700);
    assert_eq!(LEGACY_NIBBLE_SETTLE_US, 5000);
    assert_eq!(CLEAR_HOME_DELAY_MS, 2);
    assert_eq!(TimingProfile::Modern.settle_us(), 700);
    assert_eq!(TimingProfile::Legacy.settle_us(), 5000);
    assert!(TimingProfile::Modern.asserts_before_strobe());
    assert!(!TimingProfile::Legacy.asserts_before_strobe());
}

#[test]
fn enum_bit_patterns() {
    assert_eq!(DisplayControl::Off.bits(), 0x00);
    assert_eq!(DisplayControl::CursorBlink.bits(), 0x01);
    assert_eq!(DisplayControl::CursorOn.bits(), 0x02);
    assert_eq!(DisplayControl::DisplayOn.bits(), 0x04);
    assert_eq!(Backlight::Off.bits(), 0x00);
    assert_eq!(Backlight::On.bits(), 0x08);
    assert_eq!(Mode::EntrySet.bits(), 0x04);
    assert_eq!(Mode::DisplayControl.bits(), 0x08);
    assert_eq!(Mode::FunctionSet.bits(), 0x20);
    assert_eq!(Mode::DDRAMAddr.bits(), 0x80);
    assert_eq!(Commands::Clear.bits(), 0x01);
    assert_eq!(Commands::ReturnHome.bits(), 0x02);
    assert_eq!(Commands::ShiftCursorLeft.bits(), 16);
    assert_eq!(Commands::ShiftCursorRight.bits(), 16 | 4);
    assert_eq!(Commands::ShiftDisplayLeft.bits(), 16 | 8);
    assert_eq!(Commands::ShiftDisplayRight.bits(), 16 | 8 | 4);
    assert_eq!(BitMode::Bit4.bits(), 0x00);
    assert_eq!(BitMode::Bit8.bits(), 0x10);
    assert_eq!(Font::Font5x8.bits(), 0x00);
    assert_eq!(Font::Font5x10.bits(), 0x04);
    assert_eq!(CursorMoveDir::Right.bits(), 0x00);
    assert_eq!(CursorMoveDir::Left.bits(), 0x02);
    assert_eq!(DisplayShift::Decrement.bits(), 0x00);
    assert_eq!(DisplayShift::Increment.bits(), 0x01);
    assert_eq!(Register::Command.bits(), 0x00);
    assert_eq!(Register::Data.bits(), 0x01);
}

#[test]
fn function_set_bytes() {
    assert_eq!(function_set(BitMode::Bit8, Font::Font5x8, false), 0x30);
    assert_eq!(function_set(BitMode::Bit4, Font::Font5x8, false), 0x20);
    assert_eq!(function_set(BitMode::Bit4, Font::Font5x8, true), 0x28);
    assert_eq!(function_set(BitMode::Bit4, Font::Font5x10, false), 0x24);
    assert_eq!(function_set(BitMode::Bit4, Font::Font5x10, true), 0x2c);
    assert_eq!(function_set(BitMode::Bit8, Font::Font5x10, true), 0x3c);
}

#[test]
fn function_set_line_bit_follows_row_count() {
    let two_rows: u8 = 2;
    let byte = function_set(BitMode::Bit4, Font::Font5x8, two_rows > 0);
    assert_ne!(byte & 0x08, 0);
    let no_rows: u8 = 0;
    let byte = function_set(BitMode::Bit4, Font::Font5x8, no_rows > 0);
    assert_eq!(byte & 0x08, 0);
}

#[test]
fn display_control_bytes() {
    assert_eq!(display_control(false, false), 0x0c);
    assert_eq!(display_control(false, true), 0x0d);
    assert_eq!(display_control(true, false), 0x0e);
    assert_eq!(display_control(true, true), 0x0f);
}

#[test]
fn entry_mode_bytes() {
    assert_eq!(entry_mode(CursorMoveDir::Left, DisplayShift::Decrement), 0x06);
    assert_eq!(entry_mode(CursorMoveDir::Right, DisplayShift::Decrement), 0x04);
    assert_eq!(entry_mode(CursorMoveDir::Right, DisplayShift::Increment), 0x05);
    assert_eq!(entry_mode(CursorMoveDir::Left, DisplayShift::Increment), 0x07);
}

#[test]
fn ddram_address_bytes() {
    assert_eq!(ddram_address(0x00), 0x80);
    assert_eq!(ddram_address(0x45), 0xc5);
    assert_eq!(ddram_address(0x7f), 0xff);
    assert_eq!(ddram_address(0x80), 0x80);
    assert_eq!(ddram_address(0xc5), 0xc5);
}

#[test]
fn geometry_presets() {
    assert_eq!(Geometry::lcd16x2(), Geometry { rows: 2, columns: 16 });
    assert_eq!(Geometry::lcd16x4(), Geometry { rows: 4, columns: 16 });
    assert_eq!(Geometry::lcd20x4(), Geometry { rows: 4, columns: 20 });
    assert!(Geometry::lcd16x4().is_16x4());
    assert!(!Geometry::lcd16x2().is_16x4());
    assert!(!Geometry::lcd20x4().is_16x4());
}

#[test]
fn first_column_is_the_table_entry() {
    let normal: [u8; 4] = [0x00, 0x40, 0x14, 0x54];
    let wide: [u8; 4] = [0x00, 0x40, 0x10, 0x50];
    for r in 0..2u8 {
        assert_eq!(row_col_to_address(r, 0, Geometry::lcd16x2()), normal[r as usize]);
    }
    for r in 0..4u8 {
        assert_eq!(row_col_to_address(r, 0, Geometry::lcd20x4()), normal[r as usize]);
        assert_eq!(row_offset(r, Geometry::lcd20x4()), normal[r as usize]);
        assert_eq!(row_col_to_address(r, 0, Geometry::lcd16x4()), wide[r as usize]);
        assert_eq!(row_offset(r, Geometry::lcd16x4()), wide[r as usize]);
    }
}

#[test]
fn address_of_second_row_sixth_column() {
    assert_eq!(row_col_to_address(1, 5, Geometry::lcd16x2()), 0x45);
    assert_eq!(ddram_address(row_col_to_address(1, 5, Geometry::lcd16x2())), 0xc5);
}

#[test]
fn third_row_tells_the_tables_apart() {
    assert_eq!(row_col_to_address(2, 0, Geometry::lcd16x4()), 0x10);
    assert_eq!(row_col_to_address(2, 0, Geometry::lcd20x4()), 0x14);
    assert_eq!(row_col_to_address(3, 19, Geometry::lcd20x4()), 0x67);
}

#[test]
fn address_wraps_to_seven_bits() {
    assert_eq!(row_col_to_address(3, 255, Geometry::lcd20x4()), 0x53);
    assert_eq!(row_col_to_address(1, 0x40, Geometry::lcd16x2()), 0x00);
    assert_eq!(row_col_to_address(0, 0x7f, Geometry { rows: 0, columns: 0 }), 0x7f);
}

#[test]
fn frame_layout() {
    assert_eq!(frame(0xa0, Register::Data, true, Backlight::On), 0xad);
    assert_eq!(frame(0xa0, Register::Data, false, Backlight::On), 0xa9);
    assert_eq!(frame(0xa0, Register::Command, true, Backlight::Off), 0xa4);
    assert_eq!(frame(0xaf, Register::Command, false, Backlight::Off), 0xa0);
    for high in 0..=255u8 {
        let f = frame(high, Register::Data, true, Backlight::On);
        assert_eq!(f & 0x02, 0);
    }
}

#[test]
fn nibble_is_three_writes_and_a_settle() {
    let ops = send_nibble(link(TimingProfile::Modern, Backlight::On), 0x30, Register::Command);
    assert_eq!(ops, vec![write(0x38), write(0x3c), write(0x38), BusOp::DelayUs(700)]);
    let ops = send_nibble(link(TimingProfile::Modern, Backlight::Off), 0x20, Register::Command);
    assert_eq!(ops, vec![write(0x20), write(0x24), write(0x20), BusOp::DelayUs(700)]);
}

#[test]
fn legacy_nibble_is_two_writes_and_a_longer_settle() {
    let ops = send_nibble(link(TimingProfile::Legacy, Backlight::On), 0x30, Register::Command);
    assert_eq!(ops, vec![write(0x3c), write(0x38), BusOp::DelayUs(5000)]);
}

#[test]
fn byte_is_high_nibble_then_low_nibble() {
    let ops = send_byte(link(TimingProfile::Modern, Backlight::On), 0xa5, Register::Data);
    assert_eq!(
        ops,
        vec![
            write(0xa9),
            write(0xad),
            write(0xa9),
            BusOp::DelayUs(700),
            write(0x59),
            write(0x5d),
            write(0x59),
            BusOp::DelayUs(700),
        ]
    );
    let ops = send_byte(link(TimingProfile::Legacy, Backlight::Off), 0x01, Register::Command);
    assert_eq!(
        ops,
        vec![
            write(0x04),
            write(0x00),
            BusOp::DelayUs(5000),
            write(0x14),
            write(0x10),
            BusOp::DelayUs(5000),
        ]
    );
}

#[test]
fn every_byte_reassembles_from_its_two_nibbles() {
    for profile in [TimingProfile::Modern, TimingProfile::Legacy] {
        for register in [Register::Command, Register::Data] {
            for backlight in [Backlight::On, Backlight::Off] {
                for b in 0..=255u8 {
                    let ops = send_byte(link(profile, backlight), b, register);
                    let nibbles = strobed_nibbles(&ops);
                    assert_eq!(nibbles.len(), 2);
                    assert_eq!((nibbles[0] << 4) | nibbles[1], b);
                    let first = send_nibble(link(profile, backlight), b & 0xf0, register);
                    let second = send_nibble(link(profile, backlight), b << 4, register);
                    assert_eq!(ops[..first.len()], first[..]);
                    assert_eq!(ops[first.len()..], second[..]);
                }
            }
        }
    }
}
