use hd44780::bus::{BusOp, Level, PinMode};
use hd44780::liquid_crystal::{
    LiquidCrystal, LCD_5X10DOTS, LCD_CLEARDISPLAY, LCD_DISPLAYCONTROL, LCD_ENTRYMODESET,
    LCD_RETURNHOME, LCD_SETCGRAMADDR, LCD_SETDDRAMADDR,
};

const RS: u8 = 12;
const RW: u8 = 10;
const EN: u8 = 11;
const D4: [u8; 4] = [5, 4, 3, 2];
const D8: [u8; 8] = [9, 8, 7, 6, 5, 4, 3, 2];

/// A latch seen on the simulated bus: register select level and the value
/// on the data lines at the rising edge of enable.
#[derive(Debug, Clone, Copy, PartialEq)]
struct Latch {
    rs: Level,
    value: u8,
}

fn latches(ops: &[BusOp], data: &[u8]) -> Vec<Latch> {
    let mut levels = [Level::Low; 256];
    let mut out = Vec::new();
    for op in ops {
        if let BusOp::Write { pin, level } = *op {
            if pin == EN && level == Level::High {
                let mut value = 0u8;
                for (i, p) in data.iter().enumerate() {
                    if levels[*p as usize] == Level::High {
                        value |= 1 << i;
                    }
                }
                out.push(Latch { rs: levels[RS as usize], value });
            }
            levels[pin as usize] = level;
        }
    }
    out
}

/// Bytes moved through the controller after bring-up, on a 4-bit bus.
fn bytes4(ops: &[BusOp]) -> Vec<(Level, u8)> {
    let l = latches(ops, &D4);
    assert_eq!(l.len() % 2, 0);
    l.chunks(2).map(|p| {
        assert_eq!(p[0].rs, p[1].rs);
        (p[0].rs, (p[0].value << 4) | p[1].value)
    }).collect()
}

fn four_bit() -> LiquidCrystal {
    LiquidCrystal::liquid_crystal_1(RS, EN, D4[0], D4[1], D4[2], D4[3])
}

fn ready4(cols: u8, lines: u8) -> LiquidCrystal {
    let mut lcd = four_bit();
    lcd.begin(cols, lines, None);
    lcd.take_ops();
    lcd
}

fn delays(ops: &[BusOp]) -> Vec<u32> {
    ops.iter().filter_map(|o| match o {
        BusOp::Delay { us } => Some(*us),
        _ => None,
    }).collect()
}

#[test]
fn construction_touches_no_hardware() {
    let mut lcd = four_bit();
    assert!(!lcd.is_initialized());
    assert_eq!(lcd.function_flags(), 0x00);
    assert_eq!(lcd.control_flags(), 0x00);
    assert_eq!(lcd.entry_flags(), 0x00);
    assert!(lcd.take_ops().is_empty());
    let mut lcd8 = LiquidCrystal::liquid_crystal_4(RS, EN, 9, 8, 7, 6, 5, 4, 3, 2);
    assert_eq!(lcd8.function_flags(), 0x10);
    assert!(lcd8.take_ops().is_empty());
}

#[test]
fn default_is_four_bit_and_idle() {
    let mut lcd = LiquidCrystal::default();
    assert!(!lcd.is_initialized());
    assert_eq!(lcd.function_flags(), 0x00);
    assert_eq!(lcd.num_lines(), 0);
    assert!(lcd.take_ops().is_empty());
}

#[test]
fn row_offsets_follow_column_count() {
    let mut lcd = four_bit();
    lcd.begin(20, 4, None);
    assert_eq!(
        [lcd.row_offset(0), lcd.row_offset(1), lcd.row_offset(2), lcd.row_offset(3)],
        [0x00, 0x40, 20, 0x54]
    );
    lcd.begin(16, 2, None);
    assert_eq!(
        [lcd.row_offset(0), lcd.row_offset(1), lcd.row_offset(2), lcd.row_offset(3)],
        [0x00, 0x40, 16, 0x50]
    );
}

#[test]
fn set_row_offsets_replaces_table() {
    let mut lcd = four_bit();
    lcd.setRowOffsets(1, 2, 3, 4);
    assert_eq!(
        [lcd.row_offset(0), lcd.row_offset(1), lcd.row_offset(2), lcd.row_offset(3)],
        [1, 2, 3, 4]
    );
    assert!(lcd.take_ops().is_empty());
}

#[test]
fn begin_sets_default_flags() {
    let mut lcd = four_bit();
    lcd.begin(16, 2, None);
    assert!(lcd.is_initialized());
    assert_eq!(lcd.control_flags(), 0x04);
    assert_eq!(lcd.entry_flags(), 0x02);
    assert_eq!(lcd.function_flags(), 0x08);
    assert_eq!(lcd.num_lines(), 2);
}

#[test]
fn begin_defaults_override_earlier_flags() {
    let mut lcd = ready4(16, 2);
    lcd.blink();
    lcd.cursor();
    lcd.rightToLeft();
    lcd.autoscroll();
    lcd.begin(16, 2, None);
    assert_eq!(lcd.control_flags(), 0x04);
    assert_eq!(lcd.entry_flags(), 0x02);
}

#[test]
fn tall_font_only_on_one_line() {
    let mut lcd = four_bit();
    lcd.begin(16, 1, Some(LCD_5X10DOTS));
    assert_eq!(lcd.function_flags(), 0x04);
    lcd.begin(16, 2, Some(LCD_5X10DOTS));
    assert_eq!(lcd.function_flags(), 0x08);
}

#[test]
fn four_bit_bring_up_sequence() {
    let mut lcd = four_bit();
    lcd.begin(16, 2, None);
    let ops = lcd.take_ops();
    let mut expected_modes = vec![
        BusOp::SetMode { pin: RS, mode: PinMode::Output },
        BusOp::SetMode { pin: EN, mode: PinMode::Output },
    ];
    for p in D4 {
        expected_modes.push(BusOp::SetMode { pin: p, mode: PinMode::Output });
    }
    assert_eq!(&ops[..6], &expected_modes[..]);
    assert_eq!(ops[6], BusOp::Delay { us: 50000 });
    assert_eq!(ops[7], BusOp::Write { pin: RS, level: Level::Low });
    assert_eq!(ops[8], BusOp::Write { pin: EN, level: Level::Low });
    let l: Vec<u8> = latches(&ops, &D4).iter().map(|x| x.value).collect();
    assert_eq!(&l[..4], &[0x3, 0x3, 0x3, 0x2]);
    let rest: Vec<u8> = l[4..].chunks(2).map(|p| (p[0] << 4) | p[1]).collect();
    assert_eq!(rest, vec![0x28, 0x0C, 0x01, 0x06]);
    let d = delays(&ops);
    assert_eq!(d.iter().filter(|&&u| u == 4500).count(), 2);
    assert_eq!(d.iter().filter(|&&u| u == 150).count(), 1);
    assert!(d.contains(&1520));
}

#[test]
fn eight_bit_bring_up_sequence() {
    let mut lcd = LiquidCrystal::liquid_crystal_3(RS, RW, EN, 9, 8, 7, 6, 5, 4, 3, 2);
    lcd.begin(16, 1, None);
    let ops = lcd.take_ops();
    assert_eq!(ops[0], BusOp::SetMode { pin: RS, mode: PinMode::Output });
    assert_eq!(ops[1], BusOp::SetMode { pin: RW, mode: PinMode::Output });
    assert_eq!(ops[2], BusOp::SetMode { pin: EN, mode: PinMode::Output });
    for (i, p) in D8.iter().enumerate() {
        assert_eq!(ops[3 + i], BusOp::SetMode { pin: *p, mode: PinMode::Output });
    }
    assert_eq!(ops[11], BusOp::Delay { us: 50000 });
    assert_eq!(ops[14], BusOp::Write { pin: RW, level: Level::Low });
    let l: Vec<u8> = latches(&ops, &D8).iter().map(|x| x.value).collect();
    assert_eq!(l, vec![0x30, 0x30, 0x30, 0x30, 0x0C, 0x01, 0x06]);
}

#[test]
fn read_write_pin_untouched_when_absent() {
    let mut lcd = four_bit();
    lcd.begin(16, 2, None);
    lcd.write(b'A');
    let ops = lcd.take_ops();
    assert!(ops.iter().all(|o| match o {
        BusOp::SetMode { pin, .. } | BusOp::Write { pin, .. } => *pin != 255,
        BusOp::Delay { .. } => true,
    }));
}

#[test]
fn protocol_refused_before_begin() {
    let mut lcd = four_bit();
    lcd.command(0x01);
    assert_eq!(lcd.write(b'A'), 0);
    lcd.clear();
    lcd.display();
    lcd.setCursor(1, 1);
    assert!(!lcd.createChar(0, &[0; 8], 8));
    assert!(lcd.take_ops().is_empty());
    assert_eq!(lcd.control_flags(), 0x00);
}

#[test]
fn write_returns_one_after_begin() {
    let mut lcd = ready4(16, 2);
    assert_eq!(lcd.write(b'A'), 1);
    assert_eq!(bytes4(&lcd.take_ops()), vec![(Level::High, b'A')]);
}

#[test]
fn byte_splits_into_high_then_low_nibble() {
    let mut lcd = ready4(16, 2);
    lcd.write(0xA5);
    let ops = lcd.take_ops();
    let l = latches(&ops, &D4);
    assert_eq!(l, vec![Latch { rs: Level::High, value: 0xA }, Latch { rs: Level::High, value: 0x5 }]);
    let mut expected = vec![BusOp::Write { pin: RS, level: Level::High }];
    for (nibble, _) in [(0xAu8, 0), (0x5u8, 1)] {
        for (i, p) in D4.iter().enumerate() {
            let level = if (nibble >> i) & 1 == 1 { Level::High } else { Level::Low };
            expected.push(BusOp::Write { pin: *p, level });
        }
        expected.push(BusOp::Write { pin: EN, level: Level::Low });
        expected.push(BusOp::Delay { us: 1 });
        expected.push(BusOp::Write { pin: EN, level: Level::High });
        expected.push(BusOp::Delay { us: 1 });
        expected.push(BusOp::Write { pin: EN, level: Level::Low });
        expected.push(BusOp::Delay { us: 450 });
    }
    expected.push(BusOp::Delay { us: 37 });
    assert_eq!(ops, expected);
}

#[test]
fn eight_bit_byte_in_one_latch() {
    let mut lcd = LiquidCrystal::liquid_crystal_4(RS, EN, 9, 8, 7, 6, 5, 4, 3, 2);
    lcd.begin(16, 2, None);
    lcd.take_ops();
    lcd.write(0xA5);
    let ops = lcd.take_ops();
    assert_eq!(latches(&ops, &D8), vec![Latch { rs: Level::High, value: 0xA5 }]);
}

#[test]
fn clear_and_home_wait_long() {
    let mut lcd = ready4(16, 2);
    lcd.clear();
    let ops = lcd.take_ops();
    assert_eq!(bytes4(&ops), vec![(Level::Low, LCD_CLEARDISPLAY)]);
    assert_eq!(*ops.last().unwrap(), BusOp::Delay { us: 1520 });
    lcd.home();
    let ops = lcd.take_ops();
    assert_eq!(bytes4(&ops), vec![(Level::Low, LCD_RETURNHOME)]);
    assert_eq!(*ops.last().unwrap(), BusOp::Delay { us: 1520 });
}

#[test]
fn standard_command_waits_37us() {
    let mut lcd = ready4(16, 2);
    lcd.command(0x14);
    let ops = lcd.take_ops();
    assert_eq!(bytes4(&ops), vec![(Level::Low, 0x14)]);
    assert_eq!(*ops.last().unwrap(), BusOp::Delay { us: 37 });
}

#[test]
fn custom_char_then_cursor() {
    let mut lcd = ready4(16, 2);
    let bitmap = [0x00, 0x0A, 0x1F, 0x1F, 0x0E, 0x04, 0x00, 0x11];
    assert!(lcd.createChar(3, &bitmap, 8));
    let sent = bytes4(&lcd.take_ops());
    assert_eq!(sent.len(), 9);
    assert_eq!(sent[0], (Level::Low, LCD_SETCGRAMADDR | (3 << 3)));
    assert_eq!(sent[0].1, 0x58);
    for i in 0..8 {
        assert_eq!(sent[1 + i], (Level::High, bitmap[i]));
    }
    lcd.setCursor(5, 1);
    let sent = bytes4(&lcd.take_ops());
    assert_eq!(sent, vec![(Level::Low, LCD_SETDDRAMADDR | (0x40 + 5))]);
}

#[test]
fn custom_char_rejects_bad_slot_or_size() {
    let mut lcd = ready4(16, 2);
    assert!(!lcd.createChar(8, &[0; 8], 8));
    assert!(!lcd.createChar(0, &[0; 7], 7));
    assert!(lcd.take_ops().is_empty());
}

#[test]
fn custom_char_takes_first_eight_rows() {
    let mut lcd = ready4(16, 2);
    let rows = [1, 2, 3, 4, 5, 6, 7, 8, 9];
    assert!(lcd.createChar(7, &rows, 8));
    let sent = bytes4(&lcd.take_ops());
    assert_eq!(sent.len(), 9);
    assert_eq!(sent[0], (Level::Low, 0x78));
    for i in 0..8 {
        assert_eq!(sent[1 + i], (Level::High, rows[i]));
    }
}

#[test]
fn command_gives_clear_and_home_the_long_wait() {
    let mut lcd = ready4(16, 2);
    lcd.command(LCD_CLEARDISPLAY);
    let ops = lcd.take_ops();
    assert_eq!(bytes4(&ops), vec![(Level::Low, LCD_CLEARDISPLAY)]);
    assert_eq!(*ops.last().unwrap(), BusOp::Delay { us: 1520 });
    lcd.command(LCD_RETURNHOME);
    let ops = lcd.take_ops();
    assert_eq!(*ops.last().unwrap(), BusOp::Delay { us: 1520 });
    lcd.command(0x03);
    assert_eq!(*lcd.take_ops().last().unwrap(), BusOp::Delay { us: 37 });
}

#[test]
fn cursor_row_is_clamped() {
    let mut lcd = ready4(16, 2);
    lcd.setCursor(2, 3);
    assert_eq!(bytes4(&lcd.take_ops()), vec![(Level::Low, 0x80 | 0x42)]);
    lcd.setCursor(0, 0);
    assert_eq!(bytes4(&lcd.take_ops()), vec![(Level::Low, 0x80)]);
    let mut lcd = ready4(20, 4);
    lcd.setCursor(1, 200);
    assert_eq!(bytes4(&lcd.take_ops()), vec![(Level::Low, 0x80 | (0x54 + 1))]);
}

#[test]
fn cursor_after_blink_keeps_blink() {
    let mut lcd = ready4(16, 2);
    lcd.blink();
    assert_eq!(bytes4(&lcd.take_ops()), vec![(Level::Low, LCD_DISPLAYCONTROL | 0x05)]);
    lcd.cursor();
    assert_eq!(bytes4(&lcd.take_ops()), vec![(Level::Low, 0x0F)]);
    assert_eq!(lcd.control_flags(), 0x07);
}

#[test]
fn display_controls_each_bit() {
    let mut lcd = ready4(16, 2);
    lcd.cursor();
    lcd.noDisplay();
    lcd.noCursor();
    lcd.display();
    lcd.blink();
    lcd.noBlink();
    let sent: Vec<u8> = bytes4(&lcd.take_ops()).iter().map(|b| b.1).collect();
    assert_eq!(sent, vec![0x0E, 0x0A, 0x08, 0x0C, 0x0D, 0x0C]);
}

#[test]
fn entry_mode_and_scrolling() {
    let mut lcd = ready4(16, 2);
    lcd.rightToLeft();
    assert_eq!(lcd.entry_flags(), 0x00);
    lcd.autoscroll();
    assert_eq!(lcd.entry_flags(), 0x01);
    lcd.leftToRight();
    lcd.noAutoscroll();
    lcd.scrollDisplayLeft();
    lcd.scrollDisplayRight();
    let sent: Vec<u8> = bytes4(&lcd.take_ops()).iter().map(|b| b.1).collect();
    assert_eq!(
        sent,
        vec![LCD_ENTRYMODESET, 0x05, 0x07, LCD_ENTRYMODESET | 0x02, 0x18, 0x1C]
    );
}

#[test]
fn init_rewires_and_resets() {
    let mut lcd = ready4(16, 2);
    lcd.init(0, 1, 255, 2, 3, 4, 5, 6, 7, 8, 9, 10);
    assert!(!lcd.is_initialized());
    assert_eq!(lcd.function_flags(), 0x10);
    assert!(lcd.take_ops().is_empty());
    let mut lcd2 = LiquidCrystal::liquid_crystal_2(RS, RW, EN, 5, 4, 3, 2);
    lcd2.begin(16, 2, None);
    let ops = lcd2.take_ops();
    assert!(ops.contains(&BusOp::SetMode { pin: RW, mode: PinMode::Output }));
}
