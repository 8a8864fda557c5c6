//! The HD44780 controller: configuration, bring-up sequence and the
//! command / character protocol.
use vstd::prelude::*;
use vstd::seq_lib::lemma_concat_associative;
use crate::bus::{
    BusOp, ENABLE_HOLD_US, LATCH_SETTLE_US, Level, PinMode, bit_of, latch_ops, level_of, lines_ops,
    pulse_ops,
};

verus! {

// commands
pub const LCD_CLEARDISPLAY: u8 = 0x01;
pub const LCD_RETURNHOME: u8 = 0x02;
pub const LCD_ENTRYMODESET: u8 = 0x04;
pub const LCD_DISPLAYCONTROL: u8 = 0x08;
pub const LCD_CURSORSHIFT: u8 = 0x10;
pub const LCD_FUNCTIONSET: u8 = 0x20;
pub const LCD_SETCGRAMADDR: u8 = 0x40;
pub const LCD_SETDDRAMADDR: u8 = 0x80;

// flags for display entry mode
pub const LCD_ENTRYRIGHT: u8 = 0x00;
pub const LCD_ENTRYLEFT: u8 = 0x02;
pub const LCD_ENTRYSHIFTINCREMENT: u8 = 0x01;
pub const LCD_ENTRYSHIFTDECREMENT: u8 = 0x00;

// flags for display on/off control
pub const LCD_DISPLAYON: u8 = 0x04;
pub const LCD_DISPLAYOFF: u8 = 0x00;
pub const LCD_CURSORON: u8 = 0x02;
pub const LCD_CURSOROFF: u8 = 0x00;
pub const LCD_BLINKON: u8 = 0x01;
pub const LCD_BLINKOFF: u8 = 0x00;

// flags for display/cursor shift
pub const LCD_DISPLAYMOVE: u8 = 0x08;
pub const LCD_CURSORMOVE: u8 = 0x00;
pub const LCD_MOVERIGHT: u8 = 0x04;
pub const LCD_MOVELEFT: u8 = 0x00;

// flags for function set
pub const LCD_8BITMODE: u8 = 0x10;
pub const LCD_4BITMODE: u8 = 0x00;
pub const LCD_2LINE: u8 = 0x08;
pub const LCD_1LINE: u8 = 0x00;
pub const LCD_5X10DOTS: u8 = 0x04;
pub const LCD_5X8DOTS: u8 = 0x00;

/// Pin number that means "read/write line not wired, tied low".
pub const NO_PIN: u8 = 255;

/// Execution time of an ordinary instruction or character write.
pub const COMMAND_WAIT_US: u32 = 37;
/// Execution time of clear and return-home, which reset the address counter.
pub const SLOW_COMMAND_WAIT_US: u32 = 1520;
/// Settling time after power rises, before the first instruction.
pub const POWER_ON_WAIT_US: u32 = 50000;
/// Waits between the attempts of the bus-width reset sequence.
pub const RESET_LONG_WAIT_US: u32 = 4500;
pub const RESET_SHORT_WAIT_US: u32 = 150;

// When the display powers up, it is configured as follows:
//
// 1. Display clear
// 2. Function set:
//    DL = 1; 8-bit interface data
//    N = 0; 1-line display
//    F = 0; 5x8 dot character font
// 3. Display on/off control:
//    D = 0; Display off
//    C = 0; Cursor off
//    B = 0; Blinking off
// 4. Entry mode set:
//    I/D = 1; Increment by 1
//    S = 0; No shift
//
// Resetting the microcontroller does not reset the display, so nothing of
// that state can be assumed when the controller is constructed.
pub struct LiquidCrystal {
    rs_pin: u8,
    rw_pin: Option<u8>,
    enable_pin: u8,
    data_pins: Vec<u8>,
    eight_bit: bool,
    two_lines: bool,
    tall_font: bool,
    display_on: bool,
    cursor_on: bool,
    blink_on: bool,
    left_to_right: bool,
    autoscroll_on: bool,
    initialized: bool,
    numlines: u8,
    row_offsets: Vec<u8>,
    ops: Vec<BusOp>,
}

/// Abstract state of a controller.
pub struct LcdView {
    /// Register select: low for instructions, high for characters.
    pub rs_pin: u8,
    /// Read/write line; `None` when it is tied low.
    pub rw_pin: Option<u8>,
    /// Enable line, active on a high pulse.
    pub enable_pin: u8,
    /// The data lines in bus order: 4 of them, or 8.
    pub data_pins: Seq<u8>,
    pub eight_bit: bool,
    pub two_lines: bool,
    pub tall_font: bool,
    pub display_on: bool,
    pub cursor_on: bool,
    pub blink_on: bool,
    pub left_to_right: bool,
    pub autoscroll: bool,
    pub initialized: bool,
    pub numlines: u8,
    pub row_offsets: Seq<u8>,
    /// Bus steps issued and not yet drained by the platform.
    pub ops: Seq<BusOp>,
}

impl View for LiquidCrystal {
    type V = LcdView;

    closed spec fn view(&self) -> LcdView {
        LcdView {
            rs_pin: self.rs_pin,
            rw_pin: self.rw_pin,
            enable_pin: self.enable_pin,
            data_pins: self.data_pins@,
            eight_bit: self.eight_bit,
            two_lines: self.two_lines,
            tall_font: self.tall_font,
            display_on: self.display_on,
            cursor_on: self.cursor_on,
            blink_on: self.blink_on,
            left_to_right: self.left_to_right,
            autoscroll: self.autoscroll_on,
            initialized: self.initialized,
            numlines: self.numlines,
            row_offsets: self.row_offsets@,
            ops: self.ops@,
        }
    }
}

/// The bus width matches the number of data pins, the offset table has four
/// slots, and an initialized controller knows its line count.
pub open spec fn wf(v: LcdView) -> bool {
    &&& (v.data_pins.len() == 4 && !v.eight_bit) || (v.data_pins.len() == 8 && v.eight_bit)
    &&& v.row_offsets.len() == 4
    &&& v.initialized ==> 1 <= v.numlines <= 4
}

pub open spec fn bus_width(v: LcdView) -> nat {
    if v.eight_bit {
        8
    } else {
        4
    }
}

/// The function-set flags: bus width, line count and font height.
pub open spec fn function_bits(v: LcdView) -> u8 {
    (if v.eight_bit { LCD_8BITMODE } else { LCD_4BITMODE }) | (if v.two_lines {
        LCD_2LINE
    } else {
        LCD_1LINE
    }) | (if v.tall_font { LCD_5X10DOTS } else { LCD_5X8DOTS })
}

/// The display-control flags: display, cursor and blink.
pub open spec fn control_bits(v: LcdView) -> u8 {
    (if v.display_on { LCD_DISPLAYON } else { LCD_DISPLAYOFF }) | (if v.cursor_on {
        LCD_CURSORON
    } else {
        LCD_CURSOROFF
    }) | (if v.blink_on { LCD_BLINKON } else { LCD_BLINKOFF })
}

/// The entry-mode flags: text direction and autoscroll.
pub open spec fn entry_bits(v: LcdView) -> u8 {
    (if v.left_to_right { LCD_ENTRYLEFT } else { LCD_ENTRYRIGHT }) | (if v.autoscroll {
        LCD_ENTRYSHIFTINCREMENT
    } else {
        LCD_ENTRYSHIFTDECREMENT
    })
}

pub open spec fn rw_low_ops(v: LcdView) -> Seq<BusOp> {
    match v.rw_pin {
        Some(p) => seq![BusOp::Write { pin: p, level: Level::Low }],
        None => seq![],
    }
}

/// Selecting the register and write direction, then moving one byte: in one
/// latch on an 8-bit bus, high nibble then low nibble on a 4-bit bus.
pub open spec fn send_ops(v: LcdView, value: u8, mode: Level) -> Seq<BusOp> {
    seq![BusOp::Write { pin: v.rs_pin, level: mode }] + rw_low_ops(v) + if v.eight_bit {
        latch_ops(v.data_pins, v.enable_pin, value, 8)
    } else {
        latch_ops(v.data_pins, v.enable_pin, value >> 4u8, 4) + latch_ops(
            v.data_pins,
            v.enable_pin,
            value & 0x0fu8,
            4,
        )
    }
}

/// Sending one byte and waiting for the controller to execute it.
pub open spec fn transfer_ops(v: LcdView, value: u8, mode: Level, wait: u32) -> Seq<BusOp> {
    send_ops(v, value, mode).push(BusOp::Delay { us: wait })
}

/// Execution time of instruction `value`: clear and return-home reset the
/// address counter and take far longer than the others.
pub open spec fn command_wait(value: u8) -> u32 {
    if value == LCD_CLEARDISPLAY || value == LCD_RETURNHOME {
        SLOW_COMMAND_WAIT_US
    } else {
        COMMAND_WAIT_US
    }
}

/// Sending an instruction and waiting for it to execute.
pub open spec fn command_ops(v: LcdView, value: u8) -> Seq<BusOp> {
    transfer_ops(v, value, Level::Low, command_wait(value))
}

pub open spec fn data_ops(v: LcdView, value: u8) -> Seq<BusOp> {
    transfer_ops(v, value, Level::High, COMMAND_WAIT_US)
}

/// `v` with `extra` appended to its pending bus steps.
pub open spec fn issued(v: LcdView, extra: Seq<BusOp>) -> LcdView {
    LcdView { ops: v.ops + extra, ..v }
}

/// Issuing an instruction: performed once initialized, refused before.
pub open spec fn after_command(v: LcdView, value: u8) -> LcdView {
    if v.initialized {
        issued(v, command_ops(v, value))
    } else {
        v
    }
}

/// Writing a character: performed once initialized, refused before.
pub open spec fn after_write(v: LcdView, value: u8) -> LcdView {
    if v.initialized {
        issued(v, data_ops(v, value))
    } else {
        v
    }
}

/// Setting all three display-control flags and re-sending them together.
pub open spec fn with_control(v: LcdView, display: bool, cursor: bool, blink: bool) -> LcdView {
    if v.initialized {
        let w = LcdView { display_on: display, cursor_on: cursor, blink_on: blink, ..v };
        issued(w, command_ops(w, LCD_DISPLAYCONTROL | control_bits(w)))
    } else {
        v
    }
}

/// Setting both entry-mode flags and re-sending them together.
pub open spec fn with_entry(v: LcdView, left_to_right: bool, autoscroll: bool) -> LcdView {
    if v.initialized {
        let w = LcdView { left_to_right, autoscroll, ..v };
        issued(w, command_ops(w, LCD_ENTRYMODESET | entry_bits(w)))
    } else {
        v
    }
}

/// The row actually addressed: at most the last row of the display.
pub open spec fn clamped_row(v: LcdView, row: u8) -> int {
    let r = if row >= 4 {
        3
    } else {
        row as int
    };
    if r >= v.numlines {
        v.numlines - 1
    } else {
        r
    }
}

/// DDRAM address of column `col` on row `row`.
pub open spec fn cursor_address(v: LcdView, col: u8, row: u8) -> u8 {
    ((v.row_offsets[clamped_row(v, row)] + col) % 256) as u8
}

pub open spec fn after_set_cursor(v: LcdView, col: u8, row: u8) -> LcdView {
    after_command(v, LCD_SETDDRAMADDR | cursor_address(v, col, row))
}

/// Character writes of `rows`, in order.
pub open spec fn rows_ops(v: LcdView, rows: Seq<u8>) -> Seq<BusOp>
    decreases rows.len(),
{
    if rows.len() == 0 {
        seq![]
    } else {
        rows_ops(v, rows.drop_last()) + data_ops(v, rows.last())
    }
}

/// A glyph definition is accepted for slots 0 to 7 and at least eight rows.
pub open spec fn glyph_accepted(v: LcdView, location: u8, charmap: Seq<u8>) -> bool {
    v.initialized && location < 8 && charmap.len() >= 8
}

/// Defining a glyph: the slot's CGRAM address, then its first eight rows.
pub open spec fn after_create_char(v: LcdView, location: u8, charmap: Seq<u8>) -> LcdView {
    if glyph_accepted(v, location, charmap) {
        issued(v, command_ops(v, LCD_SETCGRAMADDR | (location << 3u8)) + rows_ops(v, charmap.take(8)))
    } else {
        v
    }
}

/// Row base addresses of a display with `cols` columns: rows 2 and 3
/// continue rows 0 and 1.
pub open spec fn row_offsets_for(cols: u8) -> Seq<u8> {
    seq![0x00u8, 0x40u8, cols, ((0x40 + cols) % 256) as u8]
}

pub open spec fn dot_flag(dotsize: Option<u8>) -> u8 {
    match dotsize {
        Some(d) => d,
        None => LCD_5X8DOTS,
    }
}

/// The configuration that `begin` records before it talks to the display.
/// A 10-dot font is only available on one-line displays.
pub open spec fn configured(v: LcdView, cols: u8, lines: u8, dotsize: Option<u8>) -> LcdView {
    LcdView {
        two_lines: lines > 1,
        tall_font: dot_flag(dotsize) != LCD_5X8DOTS && lines == 1,
        numlines: lines,
        row_offsets: row_offsets_for(cols),
        ..v
    }
}

/// Every control pin that is wired, and every data pin of the bus width,
/// set to output.
pub open spec fn pin_setup_ops(v: LcdView) -> Seq<BusOp> {
    seq![BusOp::SetMode { pin: v.rs_pin, mode: PinMode::Output }] + match v.rw_pin {
        Some(p) => seq![BusOp::SetMode { pin: p, mode: PinMode::Output }],
        None => seq![],
    } + seq![BusOp::SetMode { pin: v.enable_pin, mode: PinMode::Output }] + data_setup_ops(v)
}

pub open spec fn data_setup_prefix(v: LcdView, n: nat) -> Seq<BusOp> {
    Seq::new(n, |i: int| BusOp::SetMode { pin: v.data_pins[i], mode: PinMode::Output })
}

pub open spec fn data_setup_ops(v: LcdView) -> Seq<BusOp> {
    data_setup_prefix(v, bus_width(v))
}

/// Register select, enable and read/write (if wired) driven low.
pub open spec fn idle_ops(v: LcdView) -> Seq<BusOp> {
    seq![
        BusOp::Write { pin: v.rs_pin, level: Level::Low },
        BusOp::Write { pin: v.enable_pin, level: Level::Low },
    ] + rw_low_ops(v)
}

pub open spec fn nibble_ops(v: LcdView, value: u8) -> Seq<BusOp> {
    latch_ops(v.data_pins, v.enable_pin, value, 4)
}

pub open spec fn wait_ops(us: u32) -> Seq<BusOp> {
    seq![BusOp::Delay { us }]
}

/// Forcing a known bus width whatever state the display was left in
/// (HD44780 datasheet, figures 23 and 24).
pub open spec fn width_reset_ops(v: LcdView) -> Seq<BusOp> {
    let fs = LCD_FUNCTIONSET | function_bits(v);
    if v.eight_bit {
        command_ops(v, fs) + wait_ops(RESET_LONG_WAIT_US) + command_ops(v, fs) + wait_ops(
            RESET_SHORT_WAIT_US,
        ) + command_ops(v, fs)
    } else {
        nibble_ops(v, 0x03) + wait_ops(RESET_LONG_WAIT_US) + nibble_ops(v, 0x03) + wait_ops(
            RESET_LONG_WAIT_US,
        ) + nibble_ops(v, 0x03) + wait_ops(RESET_SHORT_WAIT_US) + nibble_ops(v, 0x02)
    }
}

/// Pins to output, power-on wait, bus width forced, then the function set.
pub open spec fn bus_bring_up_ops(v: LcdView) -> Seq<BusOp> {
    pin_setup_ops(v) + wait_ops(POWER_ON_WAIT_US) + idle_ops(v) + width_reset_ops(v) + command_ops(
        v,
        LCD_FUNCTIONSET | function_bits(v),
    )
}

/// Display on with cursor and blink off, clear, then the default entry mode.
pub open spec fn defaults_ops(v: LcdView) -> Seq<BusOp> {
    command_ops(v, LCD_DISPLAYCONTROL | (LCD_DISPLAYON | LCD_CURSOROFF | LCD_BLINKOFF))
        + command_ops(v, LCD_CLEARDISPLAY) + command_ops(
        v,
        LCD_ENTRYMODESET | (LCD_ENTRYLEFT | LCD_ENTRYSHIFTDECREMENT),
    )
}

/// The whole bring-up sequence of a display configured as `v`.
pub open spec fn begin_ops(v: LcdView) -> Seq<BusOp> {
    bus_bring_up_ops(v) + defaults_ops(v)
}

/// State after `begin`: display on, cursor and blink off, text left to
/// right without autoscroll, ready for the protocol.
pub open spec fn begun(v: LcdView, cols: u8, lines: u8, dotsize: Option<u8>) -> LcdView {
    let c = configured(v, cols, lines, dotsize);
    LcdView {
        display_on: true,
        cursor_on: false,
        blink_on: false,
        left_to_right: true,
        autoscroll: false,
        initialized: true,
        ops: c.ops + begin_ops(c),
        ..c
    }
}

pub open spec fn pin_option(pin: u8) -> Option<u8> {
    if pin == NO_PIN {
        None
    } else {
        Some(pin)
    }
}

/// A controller that knows its wiring and nothing else: every flag clear,
/// not initialized, nothing issued. `fourbitmode` non-zero selects the
/// 4-bit bus on the first four of `pins`.
pub open spec fn unconfigured(fourbitmode: u8, rs: u8, rw: u8, enable: u8, pins: Seq<u8>) -> LcdView {
    LcdView {
        rs_pin: rs,
        rw_pin: pin_option(rw),
        enable_pin: enable,
        data_pins: if fourbitmode > 0 {
            pins.take(4)
        } else {
            pins
        },
        eight_bit: fourbitmode == 0,
        two_lines: false,
        tall_font: false,
        display_on: false,
        cursor_on: false,
        blink_on: false,
        left_to_right: false,
        autoscroll: false,
        initialized: false,
        numlines: 0,
        row_offsets: seq![0u8, 0u8, 0u8, 0u8],
        ops: seq![],
    }
}

/// A transfer depends on the wiring and the bus width alone.
pub proof fn lemma_transfer_same_bus(a: LcdView, b: LcdView, value: u8, mode: Level, wait: u32)
    requires
        a.rs_pin == b.rs_pin,
        a.rw_pin == b.rw_pin,
        a.enable_pin == b.enable_pin,
        a.data_pins == b.data_pins,
        a.eight_bit == b.eight_bit,
    ensures
        transfer_ops(a, value, mode, wait) == transfer_ops(b, value, mode, wait),
{
}

impl LiquidCrystal {
    fn emit(&mut self, op: BusOp)
        ensures
            final(self)@ == issued(old(self)@, seq![op]),
    {
        self.ops.push(op);
        assert(self@ == issued(old(self)@, seq![op])) by {
            assert(self.ops@ =~= old(self).ops@ + seq![op]);
        }
    }

    /// Latches what is on the data lines with one enable pulse.
    fn pulseEnable(&mut self)
        ensures
            final(self)@ == issued(old(self)@, pulse_ops(old(self)@.enable_pin)),
    {
        let ghost start = self@;
        let en = self.enable_pin;
        self.emit(BusOp::Write { pin: en, level: Level::Low });
        self.emit(BusOp::Delay { us: ENABLE_HOLD_US });
        self.emit(BusOp::Write { pin: en, level: Level::High });
        self.emit(BusOp::Delay { us: ENABLE_HOLD_US });
        self.emit(BusOp::Write { pin: en, level: Level::Low });
        self.emit(BusOp::Delay { us: LATCH_SETTLE_US });
        assert(self@.ops =~= start.ops + pulse_ops(start.enable_pin));
    }

    /// Places the low `width` bits of `value` on the first `width` data pins.
    fn write_lines(&mut self, value: u8, width: u8)
        requires
            width <= 8,
            width <= old(self)@.data_pins.len(),
        ensures
            final(self)@ == issued(old(self)@, lines_ops(old(self)@.data_pins, value, width as nat)),
    {
        let ghost start = self@;
        let mut i: u8 = 0;
        while i < width
            invariant
                i <= width,
                width <= 8,
                width <= start.data_pins.len(),
                self@ == issued(start, lines_ops(start.data_pins, value, i as nat)),
            decreases width - i,
        {
            let high = (value >> i) & 1u8 == 1u8;
            let level = if high {
                Level::High
            } else {
                Level::Low
            };
            assert(level == level_of(bit_of(value, i as int)));
            let pin = self.data_pins[i as usize];
            self.emit(BusOp::Write { pin, level });
            assert(start.ops + lines_ops(start.data_pins, value, (i + 1) as nat) =~= start.ops
                + lines_ops(start.data_pins, value, i as nat) + seq![BusOp::Write { pin, level }]);
            i = i + 1;
        }
    }

    fn write_latched(&mut self, value: u8, width: u8)
        requires
            width <= 8,
            width <= old(self)@.data_pins.len(),
        ensures
            final(self)@ == issued(
                old(self)@,
                latch_ops(old(self)@.data_pins, old(self)@.enable_pin, value, width as nat),
            ),
    {
        let ghost start = self@;
        self.write_lines(value, width);
        self.pulseEnable();
        assert(self@.ops =~= start.ops + latch_ops(start.data_pins, start.enable_pin, value, width as nat));
    }

    /// Latches the low nibble of `value` on the first four data pins.
    fn write4bits(&mut self, value: u8)
        requires
            wf(old(self)@),
        ensures
            final(self)@ == issued(
                old(self)@,
                latch_ops(old(self)@.data_pins, old(self)@.enable_pin, value, 4),
            ),
    {
        self.write_latched(value, 4);
    }

    /// Latches all of `value` on an 8-bit bus.
    fn write8bits(&mut self, value: u8)
        requires
            wf(old(self)@),
            old(self)@.eight_bit,
        ensures
            final(self)@ == issued(
                old(self)@,
                latch_ops(old(self)@.data_pins, old(self)@.enable_pin, value, 8),
            ),
    {
        self.write_latched(value, 8);
    }

    /// Moves one byte to the instruction register (`Low`) or the data
    /// register (`High`). The single path of every command and character.
    fn send(&mut self, value: u8, mode: Level)
        requires
            wf(old(self)@),
        ensures
            final(self)@ == issued(old(self)@, send_ops(old(self)@, value, mode)),
    {
        let ghost start = self@;
        let rs = self.rs_pin;
        self.emit(BusOp::Write { pin: rs, level: mode });
        match self.rw_pin {
            Some(p) => self.emit(BusOp::Write { pin: p, level: Level::Low }),
            None => {},
        }
        assert(self@.ops =~= start.ops + seq![BusOp::Write { pin: rs, level: mode }] + rw_low_ops(start));
        if self.eight_bit {
            self.write8bits(value);
        } else {
            self.write4bits(value >> 4u8);
            self.write4bits(value & 0x0fu8);
        }
        assert(self@.ops =~= start.ops + send_ops(start, value, mode));
    }

    /// Sends one byte, then waits `wait` microseconds for it to execute.
    fn transfer(&mut self, value: u8, mode: Level, wait: u32)
        requires
            wf(old(self)@),
        ensures
            final(self)@ == issued(old(self)@, transfer_ops(old(self)@, value, mode, wait)),
    {
        let ghost start = self@;
        self.send(value, mode);
        self.emit(BusOp::Delay { us: wait });
        assert(self@.ops =~= start.ops + transfer_ops(start, value, mode, wait));
    }
    /// Sends an instruction byte and waits for it to execute: 1520 µs for
    /// clear and return-home, 37 µs for the others. Refused before `begin`
    /// has completed.
    pub fn command(&mut self, value: u8)
        requires
            wf(old(self)@),
        ensures
            final(self)@ == after_command(old(self)@, value),
    {
        if self.initialized {
            self.raw_command(value);
        }
    }

    fn execution_wait(value: u8) -> (r: u32)
        ensures
            r == command_wait(value),
    {
        if value == LCD_CLEARDISPLAY || value == LCD_RETURNHOME {
            SLOW_COMMAND_WAIT_US
        } else {
            COMMAND_WAIT_US
        }
    }

    /// Sends an instruction whether or not the protocol is open yet.
    fn raw_command(&mut self, value: u8)
        requires
            wf(old(self)@),
        ensures
            final(self)@ == issued(old(self)@, command_ops(old(self)@, value)),
    {
        let wait = Self::execution_wait(value);
        self.transfer(value, Level::Low, wait);
    }

    /// Writes a character at the address counter. Returns the number of
    /// bytes taken: 1, or 0 when refused before `begin` has completed.
    pub fn write(&mut self, value: u8) -> (r: usize)
        requires
            wf(old(self)@),
        ensures
            final(self)@ == after_write(old(self)@, value),
            r == if old(self)@.initialized {
                1usize
            } else {
                0usize
            },
    {
        if self.initialized {
            self.transfer(value, Level::High, COMMAND_WAIT_US);
            1
        } else {
            0
        }
    }

    /// Blanks the display and returns the cursor to the first position.
    pub fn clear(&mut self)
        requires
            wf(old(self)@),
        ensures
            final(self)@ == after_command(old(self)@, LCD_CLEARDISPLAY),
    {
        self.command(LCD_CLEARDISPLAY);
    }

    /// Returns the cursor and any display shift to the first position.
    pub fn home(&mut self)
        requires
            wf(old(self)@),
        ensures
            final(self)@ == after_command(old(self)@, LCD_RETURNHOME),
    {
        self.command(LCD_RETURNHOME);
    }

    /// The one place the display-control flags change: all three are sent.
    fn apply_control(&mut self, display: bool, cursor: bool, blink: bool)
        requires
            wf(old(self)@),
        ensures
            final(self)@ == with_control(old(self)@, display, cursor, blink),
    {
        if self.initialized {
            self.display_on = display;
            self.cursor_on = cursor;
            self.blink_on = blink;
            let op = LCD_DISPLAYCONTROL | self.control_flags();
            self.command(op);
        }
    }

    /// The one place the entry-mode flags change: both are sent.
    fn apply_entry(&mut self, left_to_right: bool, autoscroll: bool)
        requires
            wf(old(self)@),
        ensures
            final(self)@ == with_entry(old(self)@, left_to_right, autoscroll),
    {
        if self.initialized {
            self.left_to_right = left_to_right;
            self.autoscroll_on = autoscroll;
            let op = LCD_ENTRYMODESET | self.entry_flags();
            self.command(op);
        }
    }

    /// The display-control flags as the controller encodes them.
    pub fn control_flags(&self) -> (r: u8)
        ensures
            r == control_bits(self@),
    {
        (if self.display_on { LCD_DISPLAYON } else { LCD_DISPLAYOFF }) | (if self.cursor_on {
            LCD_CURSORON
        } else {
            LCD_CURSOROFF
        }) | (if self.blink_on { LCD_BLINKON } else { LCD_BLINKOFF })
    }

    /// The entry-mode flags as the controller encodes them.
    pub fn entry_flags(&self) -> (r: u8)
        ensures
            r == entry_bits(self@),
    {
        (if self.left_to_right { LCD_ENTRYLEFT } else { LCD_ENTRYRIGHT }) | (if self.autoscroll_on {
            LCD_ENTRYSHIFTINCREMENT
        } else {
            LCD_ENTRYSHIFTDECREMENT
        })
    }

    /// The function-set flags as the controller encodes them.
    pub fn function_flags(&self) -> (r: u8)
        ensures
            r == function_bits(self@),
    {
        (if self.eight_bit { LCD_8BITMODE } else { LCD_4BITMODE }) | (if self.two_lines {
            LCD_2LINE
        } else {
            LCD_1LINE
        }) | (if self.tall_font { LCD_5X10DOTS } else { LCD_5X8DOTS })
    }

    pub fn noDisplay(&mut self)
        requires
            wf(old(self)@),
        ensures
            final(self)@ == with_control(old(self)@, false, old(self)@.cursor_on, old(self)@.blink_on),
    {
        self.apply_control(false, self.cursor_on, self.blink_on);
    }

    pub fn display(&mut self)
        requires
            wf(old(self)@),
        ensures
            final(self)@ == with_control(old(self)@, true, old(self)@.cursor_on, old(self)@.blink_on),
    {
        self.apply_control(true, self.cursor_on, self.blink_on);
    }

    pub fn noBlink(&mut self)
        requires
            wf(old(self)@),
        ensures
            final(self)@ == with_control(old(self)@, old(self)@.display_on, old(self)@.cursor_on, false),
    {
        self.apply_control(self.display_on, self.cursor_on, false);
    }

    pub fn blink(&mut self)
        requires
            wf(old(self)@),
        ensures
            final(self)@ == with_control(old(self)@, old(self)@.display_on, old(self)@.cursor_on, true),
    {
        self.apply_control(self.display_on, self.cursor_on, true);
    }

    pub fn noCursor(&mut self)
        requires
            wf(old(self)@),
        ensures
            final(self)@ == with_control(old(self)@, old(self)@.display_on, false, old(self)@.blink_on),
    {
        self.apply_control(self.display_on, false, self.blink_on);
    }

    pub fn cursor(&mut self)
        requires
            wf(old(self)@),
        ensures
            final(self)@ == with_control(old(self)@, old(self)@.display_on, true, old(self)@.blink_on),
    {
        self.apply_control(self.display_on, true, self.blink_on);
    }

    /// Shifts the whole display one position left, without changing DDRAM.
    pub fn scrollDisplayLeft(&mut self)
        requires
            wf(old(self)@),
        ensures
            final(self)@ == after_command(old(self)@, LCD_CURSORSHIFT | LCD_DISPLAYMOVE | LCD_MOVELEFT),
    {
        self.command(LCD_CURSORSHIFT | LCD_DISPLAYMOVE | LCD_MOVELEFT);
    }

    /// Shifts the whole display one position right, without changing DDRAM.
    pub fn scrollDisplayRight(&mut self)
        requires
            wf(old(self)@),
        ensures
            final(self)@ == after_command(old(self)@, LCD_CURSORSHIFT | LCD_DISPLAYMOVE | LCD_MOVERIGHT),
    {
        self.command(LCD_CURSORSHIFT | LCD_DISPLAYMOVE | LCD_MOVERIGHT);
    }

    /// Text flows from left to right.
    pub fn leftToRight(&mut self)
        requires
            wf(old(self)@),
        ensures
            final(self)@ == with_entry(old(self)@, true, old(self)@.autoscroll),
    {
        self.apply_entry(true, self.autoscroll_on);
    }

    /// Text flows from right to left.
    pub fn rightToLeft(&mut self)
        requires
            wf(old(self)@),
        ensures
            final(self)@ == with_entry(old(self)@, false, old(self)@.autoscroll),
    {
        self.apply_entry(false, self.autoscroll_on);
    }

    /// Each character written shifts the display instead of the cursor.
    pub fn autoscroll(&mut self)
        requires
            wf(old(self)@),
        ensures
            final(self)@ == with_entry(old(self)@, old(self)@.left_to_right, true),
    {
        self.apply_entry(self.left_to_right, true);
    }

    /// Each character written moves the cursor.
    pub fn noAutoscroll(&mut self)
        requires
            wf(old(self)@),
        ensures
            final(self)@ == with_entry(old(self)@, old(self)@.left_to_right, false),
    {
        self.apply_entry(self.left_to_right, false);
    }

    /// Replaces the table of row base addresses. Touches no hardware.
    pub fn setRowOffsets(&mut self, row1: u8, row2: u8, row3: u8, row4: u8)
        requires
            wf(old(self)@),
        ensures
            final(self)@ == (LcdView { row_offsets: seq![row1, row2, row3, row4], ..old(self)@ }),
    {
        let mut t: Vec<u8> = Vec::new();
        t.push(row1);
        t.push(row2);
        t.push(row3);
        t.push(row4);
        self.row_offsets = t;
        assert(self@.row_offsets =~= seq![row1, row2, row3, row4]);
    }

    /// Moves the cursor to column `col` of row `row`; a row past the last
    /// one addresses the last one. Always re-issues the DDRAM address, so it
    /// also leaves glyph-definition mode.
    pub fn setCursor(&mut self, col: u8, row: u8)
        requires
            wf(old(self)@),
        ensures
            final(self)@ == after_set_cursor(old(self)@, col, row),
    {
        if self.initialized {
            let mut r: u8 = if row >= 4 {
                3
            } else {
                row
            };
            if r >= self.numlines {
                r = self.numlines - 1;
            }
            let base = self.row_offsets[r as usize];
            let address = ((base as u16 + col as u16) % 256) as u8;
            self.command(LCD_SETDDRAMADDR | address);
        }
    }

    /// Defines the glyph of character `location` (0 to 7) from the first
    /// eight rows of `charmap`. Returns whether the definition was accepted:
    /// a slot past 7, fewer than eight rows, or a call before `begin` has
    /// completed is refused and issues nothing. The row count is taken from
    /// the slice; `_len` is accepted for callers that pass it separately.
    pub fn createChar(&mut self, location: u8, charmap: &[u8], _len: u8) -> (accepted: bool)
        requires
            wf(old(self)@),
        ensures
            accepted == glyph_accepted(old(self)@, location, charmap@),
            final(self)@ == after_create_char(old(self)@, location, charmap@),
    {
        if !(self.initialized && location < 8 && charmap.len() >= 8) {
            return false;
        }
        let ghost start = self@;
        let ghost head = command_ops(start, LCD_SETCGRAMADDR | (location << 3u8));
        self.command(LCD_SETCGRAMADDR | (location << 3u8));
        proof {
            assert(charmap@.take(0) =~= Seq::<u8>::empty());
            assert(head + rows_ops(start, charmap@.take(0)) =~= head);
        }
        let mut i: usize = 0;
        while i < 8
            invariant
                0 <= i <= 8,
                charmap@.len() >= 8,
                start.initialized,
                wf(start),
                head == command_ops(start, LCD_SETCGRAMADDR | (location << 3u8)),
                self@ == issued(start, head + rows_ops(start, charmap@.take(i as int))),
            decreases 8 - i,
        {
            let ghost prev = self@;
            let row = charmap[i];
            self.write(row);
            proof {
                lemma_transfer_same_bus(prev, start, row, Level::High, COMMAND_WAIT_US);
                let t = charmap@.take(i as int + 1);
                assert(t.drop_last() =~= charmap@.take(i as int));
                assert(t.last() == row);
                assert(rows_ops(start, t) == rows_ops(start, charmap@.take(i as int)) + data_ops(start, row));
                lemma_concat_associative(start.ops, head + rows_ops(start, charmap@.take(i as int)), data_ops(start, row));
                lemma_concat_associative(head, rows_ops(start, charmap@.take(i as int)), data_ops(start, row));
            }
            i = i + 1;
        }
        true
    }

    fn set_data_outputs(&mut self)
        requires
            wf(old(self)@),
        ensures
            final(self)@ == issued(old(self)@, data_setup_ops(old(self)@)),
    {
        let ghost start = self@;
        let width: usize = if self.eight_bit {
            8
        } else {
            4
        };
        let mut i: usize = 0;
        while i < width
            invariant
                i <= width,
                width == bus_width(start),
                wf(start),
                self@ == issued(start, data_setup_prefix(start, i as nat)),
            decreases width - i,
        {
            let pin = self.data_pins[i];
            self.emit(BusOp::SetMode { pin, mode: PinMode::Output });
            assert(data_setup_prefix(start, (i + 1) as nat) =~= data_setup_prefix(start, i as nat)
                + seq![BusOp::SetMode { pin, mode: PinMode::Output }]);
            assert(self@.ops =~= start.ops + data_setup_prefix(start, (i + 1) as nat));
            i = i + 1;
        }
    }

    fn setup_pins(&mut self)
        requires
            wf(old(self)@),
        ensures
            final(self)@ == issued(old(self)@, pin_setup_ops(old(self)@)),
    {
        let ghost start = self@;
        let rs = self.rs_pin;
        self.emit(BusOp::SetMode { pin: rs, mode: PinMode::Output });
        match self.rw_pin {
            Some(p) => self.emit(BusOp::SetMode { pin: p, mode: PinMode::Output }),
            None => {},
        }
        let en = self.enable_pin;
        self.emit(BusOp::SetMode { pin: en, mode: PinMode::Output });
        self.set_data_outputs();
        assert(self@.ops =~= start.ops + pin_setup_ops(start));
    }

    fn drive_idle(&mut self)
        requires
            wf(old(self)@),
        ensures
            final(self)@ == issued(old(self)@, idle_ops(old(self)@)),
    {
        let ghost start = self@;
        let rs = self.rs_pin;
        let en = self.enable_pin;
        self.emit(BusOp::Write { pin: rs, level: Level::Low });
        self.emit(BusOp::Write { pin: en, level: Level::Low });
        match self.rw_pin {
            Some(p) => self.emit(BusOp::Write { pin: p, level: Level::Low }),
            None => {},
        }
        assert(self@.ops =~= start.ops + idle_ops(start));
    }

    fn reset_bus_width(&mut self)
        requires
            wf(old(self)@),
        ensures
            final(self)@ == issued(old(self)@, width_reset_ops(old(self)@)),
    {
        let ghost start = self@;
        if !self.eight_bit {
            self.write4bits(0x03);
            self.emit(BusOp::Delay { us: RESET_LONG_WAIT_US });
            self.write4bits(0x03);
            self.emit(BusOp::Delay { us: RESET_LONG_WAIT_US });
            self.write4bits(0x03);
            self.emit(BusOp::Delay { us: RESET_SHORT_WAIT_US });
            self.write4bits(0x02);
        } else {
            let fs = LCD_FUNCTIONSET | self.function_flags();
            self.raw_command(fs);
            self.emit(BusOp::Delay { us: RESET_LONG_WAIT_US });
            self.raw_command(fs);
            self.emit(BusOp::Delay { us: RESET_SHORT_WAIT_US });
            self.raw_command(fs);
        }
        assert(self@.ops =~= start.ops + width_reset_ops(start));
    }

    /// Pins to output, power-on wait, bus width forced, function set sent.
    fn bring_up_bus(&mut self)
        requires
            wf(old(self)@),
        ensures
            final(self)@ == issued(old(self)@, bus_bring_up_ops(old(self)@)),
    {
        let ghost c = self@;
        let ghost a = pin_setup_ops(c);
        let ghost w = wait_ops(POWER_ON_WAIT_US);
        let ghost i = idle_ops(c);
        let ghost r = width_reset_ops(c);
        let ghost f = command_ops(c, LCD_FUNCTIONSET | function_bits(c));
        self.setup_pins();
        self.emit(BusOp::Delay { us: POWER_ON_WAIT_US });
        self.drive_idle();
        self.reset_bus_width();
        let fs = LCD_FUNCTIONSET | self.function_flags();
        self.raw_command(fs);
        proof {
            lemma_concat_associative(c.ops, a, w);
            lemma_concat_associative(c.ops, a + w, i);
            lemma_concat_associative(c.ops, a + w + i, r);
            lemma_concat_associative(c.ops, a + w + i + r, f);
        }
    }

    /// Display on with cursor and blink off, cleared, default entry mode;
    /// then the protocol is open.
    fn apply_defaults(&mut self)
        requires
            wf(old(self)@),
        ensures
            final(self)@ == (LcdView {
                display_on: true,
                cursor_on: false,
                blink_on: false,
                left_to_right: true,
                autoscroll: false,
                initialized: true,
                ops: old(self)@.ops + defaults_ops(old(self)@),
                ..old(self)@
            }),
    {
        let ghost c = self@;
        self.display_on = true;
        self.cursor_on = false;
        self.blink_on = false;
        let dc = LCD_DISPLAYCONTROL | self.control_flags();
        proof {
            lemma_transfer_same_bus(self@, c, dc, Level::Low, command_wait(dc));
        }
        self.raw_command(dc);
        proof {
            lemma_transfer_same_bus(self@, c, LCD_CLEARDISPLAY, Level::Low, command_wait(LCD_CLEARDISPLAY));
        }
        self.raw_command(LCD_CLEARDISPLAY);
        self.left_to_right = true;
        self.autoscroll_on = false;
        let em = LCD_ENTRYMODESET | self.entry_flags();
        proof {
            lemma_transfer_same_bus(self@, c, em, Level::Low, command_wait(em));
        }
        self.raw_command(em);
        self.initialized = true;
        assert(self@.ops =~= c.ops + defaults_ops(c));
    }

    /// Brings the display from an unknown power-on state into a known one:
    /// `cols` columns, `lines` lines (1 to 4), and a 10-dot font when
    /// `dotsize` is given and not `LCD_5X8DOTS` on a one-line display.
    /// Afterwards the display is on and clear, cursor and blink are off, and
    /// text runs left to right without autoscroll.
    pub fn begin(&mut self, cols: u8, lines: u8, dotsize: Option<u8>)
        requires
            wf(old(self)@),
            1 <= lines <= 4,
        ensures
            final(self)@ == begun(old(self)@, cols, lines, dotsize),
            wf(final(self)@),
    {
        let dots = match dotsize {
            Some(d) => d,
            None => LCD_5X8DOTS,
        };
        self.two_lines = lines > 1;
        self.tall_font = dots != LCD_5X8DOTS && lines == 1;
        self.numlines = lines;
        self.setRowOffsets(0x00, 0x40, cols, ((0x40u16 + cols as u16) % 256) as u8);
        let ghost c = self@;
        assert(c == configured(old(self)@, cols, lines, dotsize)) by {
            assert(c.row_offsets =~= row_offsets_for(cols));
        }
        self.bring_up_bus();
        self.apply_defaults();
        proof {
            lemma_concat_associative(c.ops, bus_bring_up_ops(c), defaults_ops(c));
        }
    }
    /// Records the wiring: register select `rs`, read/write `rw`
    /// (`NO_PIN` when tied low), `enable`, and the data pins; a non-zero
    /// `fourbitmode` uses only `d0` to `d3`. Clears every flag and touches
    /// no hardware.
    pub fn init(
        &mut self,
        fourbitmode: u8,
        rs: u8,
        rw: u8,
        enable: u8,
        d0: u8,
        d1: u8,
        d2: u8,
        d3: u8,
        d4: u8,
        d5: u8,
        d6: u8,
        d7: u8,
    )
        ensures
            final(self)@ == unconfigured(fourbitmode, rs, rw, enable, seq![d0, d1, d2, d3, d4, d5, d6, d7]),
            wf(final(self)@),
    {
        *self = Self::wired(fourbitmode, rs, rw, enable, d0, d1, d2, d3, d4, d5, d6, d7);
    }

    fn wired(
        fourbitmode: u8,
        rs: u8,
        rw: u8,
        enable: u8,
        d0: u8,
        d1: u8,
        d2: u8,
        d3: u8,
        d4: u8,
        d5: u8,
        d6: u8,
        d7: u8,
    ) -> (r: Self)
        ensures
            r@ == unconfigured(fourbitmode, rs, rw, enable, seq![d0, d1, d2, d3, d4, d5, d6, d7]),
            wf(r@),
    {
        let mut data_pins: Vec<u8> = Vec::new();
        data_pins.push(d0);
        data_pins.push(d1);
        data_pins.push(d2);
        data_pins.push(d3);
        if fourbitmode == 0 {
            data_pins.push(d4);
            data_pins.push(d5);
            data_pins.push(d6);
            data_pins.push(d7);
        }
        let mut row_offsets: Vec<u8> = Vec::new();
        row_offsets.push(0);
        row_offsets.push(0);
        row_offsets.push(0);
        row_offsets.push(0);
        let r = LiquidCrystal {
            rs_pin: rs,
            rw_pin: if rw == NO_PIN {
                None
            } else {
                Some(rw)
            },
            enable_pin: enable,
            data_pins,
            eight_bit: fourbitmode == 0,
            two_lines: false,
            tall_font: false,
            display_on: false,
            cursor_on: false,
            blink_on: false,
            left_to_right: false,
            autoscroll_on: false,
            initialized: false,
            numlines: 0,
            row_offsets,
            ops: Vec::new(),
        };
        assert(r@ == unconfigured(fourbitmode, rs, rw, enable, seq![d0, d1, d2, d3, d4, d5, d6, d7])) by {
            assert(r@.row_offsets =~= seq![0u8, 0u8, 0u8, 0u8]);
            assert(r@.ops =~= Seq::<BusOp>::empty());
            if fourbitmode > 0 {
                assert(r@.data_pins =~= seq![d0, d1, d2, d3, d4, d5, d6, d7].take(4));
            } else {
                assert(r@.data_pins =~= seq![d0, d1, d2, d3, d4, d5, d6, d7]);
            }
        }
        r
    }

    /// 8-bit bus, read/write line tied low.
    pub fn liquid_crystal_4(
        rs: u8,
        enable: u8,
        d0: u8,
        d1: u8,
        d2: u8,
        d3: u8,
        d4: u8,
        d5: u8,
        d6: u8,
        d7: u8,
    ) -> (r: LiquidCrystal)
        ensures
            r@ == unconfigured(0, rs, NO_PIN, enable, seq![d0, d1, d2, d3, d4, d5, d6, d7]),
            wf(r@),
    {
        Self::wired(0, rs, NO_PIN, enable, d0, d1, d2, d3, d4, d5, d6, d7)
    }

    /// 8-bit bus with a read/write line.
    pub fn liquid_crystal_3(
        rs: u8,
        rw: u8,
        enable: u8,
        d0: u8,
        d1: u8,
        d2: u8,
        d3: u8,
        d4: u8,
        d5: u8,
        d6: u8,
        d7: u8,
    ) -> (r: LiquidCrystal)
        ensures
            r@ == unconfigured(0, rs, rw, enable, seq![d0, d1, d2, d3, d4, d5, d6, d7]),
            wf(r@),
    {
        Self::wired(0, rs, rw, enable, d0, d1, d2, d3, d4, d5, d6, d7)
    }

    /// 4-bit bus with a read/write line.
    pub fn liquid_crystal_2(rs: u8, rw: u8, enable: u8, d0: u8, d1: u8, d2: u8, d3: u8) -> (r:
        LiquidCrystal)
        ensures
            r@ == unconfigured(1, rs, rw, enable, seq![d0, d1, d2, d3, 0, 0, 0, 0]),
            wf(r@),
    {
        Self::wired(1, rs, rw, enable, d0, d1, d2, d3, 0, 0, 0, 0)
    }

    /// 4-bit bus, read/write line tied low.
    pub fn liquid_crystal_1(rs: u8, enable: u8, d0: u8, d1: u8, d2: u8, d3: u8) -> (r:
        LiquidCrystal)
        ensures
            r@ == unconfigured(1, rs, NO_PIN, enable, seq![d0, d1, d2, d3, 0, 0, 0, 0]),
            wf(r@),
    {
        Self::wired(1, rs, NO_PIN, enable, d0, d1, d2, d3, 0, 0, 0, 0)
    }

    /// Hands over the bus steps issued so far, in order, and forgets them.
    pub fn take_ops(&mut self) -> (r: Vec<BusOp>)
        ensures
            r@ == old(self)@.ops,
            final(self)@ == (LcdView { ops: seq![], ..old(self)@ }),
    {
        let mut r: Vec<BusOp> = Vec::new();
        std::mem::swap(&mut r, &mut self.ops);
        assert(self@.ops =~= Seq::<BusOp>::empty());
        r
    }

    pub fn is_initialized(&self) -> (r: bool)
        ensures
            r == self@.initialized,
    {
        self.initialized
    }

    pub fn num_lines(&self) -> (r: u8)
        ensures
            r == self@.numlines,
    {
        self.numlines
    }

    /// Base DDRAM address of row `row`.
    pub fn row_offset(&self, row: usize) -> (r: u8)
        requires
            wf(self@),
            row < 4,
        ensures
            r == self@.row_offsets[row as int],
    {
        self.row_offsets[row]
    }
}

impl Default for LiquidCrystal {
    /// A 4-bit controller with every pin and flag zero.
    fn default() -> (r: Self)
        ensures
            r@ == unconfigured(1, 0, 0, 0, seq![0u8, 0u8, 0u8, 0u8, 0u8, 0u8, 0u8, 0u8]),
            wf(r@),
    {
        Self::wired(1, 0, 0, 0, 0, 0, 0, 0, 0, 0, 0, 0)
    }
}

} // verus!
