//! Properties of the controller that relate several operations or hold of
//! every input, stated over the transitions the operations are specified by.
use vstd::prelude::*;
use crate::bus::{BusOp, Level, latch_ops, lines_ops, pulse_ops, rising_edges};
use crate::liquid_crystal::{
    LCD_BLINKOFF, LCD_BLINKON, LCD_CLEARDISPLAY, LCD_CURSOROFF, LCD_CURSORON, LCD_DISPLAYCONTROL,
    LCD_DISPLAYON, LCD_ENTRYLEFT, LCD_ENTRYMODESET, LCD_ENTRYSHIFTDECREMENT, LCD_FUNCTIONSET, LCD_RETURNHOME, LCD_SETCGRAMADDR,
    LCD_SETDDRAMADDR, COMMAND_WAIT_US, SLOW_COMMAND_WAIT_US, LcdView, after_command,
    after_create_char, after_set_cursor, after_write, begin_ops, begun, command_ops, command_wait,
    configured, data_setup_ops,
    control_bits, cursor_address, data_ops, entry_bits, function_bits, nibble_ops, rows_ops, lemma_transfer_same_bus, rw_low_ops,
    send_ops, with_control, wf,
};

verus! {

/// Beginning a display with `cols` columns lays its rows out at 0x00, 0x40,
/// `cols` and 0x40 + `cols`, whatever its line count and font.
pub proof fn lemma_row_offsets(v: LcdView, cols: u8, lines: u8, dotsize: Option<u8>)
    requires
        wf(v),
        1 <= lines <= 4,
        cols + 0x40 <= 0xff,
    ensures
        begun(v, cols, lines, dotsize).row_offsets == seq![0x00u8, 0x40u8, cols, (0x40 + cols) as u8],
{
    assert(begun(v, cols, lines, dotsize).row_offsets =~= seq![0x00u8, 0x40u8, cols, (0x40 + cols) as u8]);
}

/// Whatever state a controller was in, after `begin` the display is on with
/// cursor and blink off, and text runs left to right without shifting.
pub proof fn lemma_begin_defaults(v: LcdView, cols: u8, lines: u8, dotsize: Option<u8>)
    requires
        wf(v),
        1 <= lines <= 4,
    ensures
        begun(v, cols, lines, dotsize).initialized,
        control_bits(begun(v, cols, lines, dotsize)) == LCD_DISPLAYON | LCD_CURSOROFF | LCD_BLINKOFF,
        entry_bits(begun(v, cols, lines, dotsize)) == LCD_ENTRYLEFT | LCD_ENTRYSHIFTDECREMENT,
{
}

proof fn lemma_begin_ops_same_config(x: LcdView, y: LcdView)
    requires
        x.rs_pin == y.rs_pin,
        x.rw_pin == y.rw_pin,
        x.enable_pin == y.enable_pin,
        x.data_pins == y.data_pins,
        x.eight_bit == y.eight_bit,
        x.two_lines == y.two_lines,
        x.tall_font == y.tall_font,
    ensures
        begin_ops(x) == begin_ops(y),
{
    assert(data_setup_ops(x) =~= data_setup_ops(y));
    let fs = LCD_FUNCTIONSET | function_bits(x);
    let dc = LCD_DISPLAYCONTROL | (LCD_DISPLAYON | LCD_CURSOROFF | LCD_BLINKOFF);
    let em = LCD_ENTRYMODESET | (LCD_ENTRYLEFT | LCD_ENTRYSHIFTDECREMENT);
    lemma_transfer_same_bus(x, y, fs, Level::Low, command_wait(fs));
    lemma_transfer_same_bus(x, y, dc, Level::Low, command_wait(dc));
    lemma_transfer_same_bus(x, y, LCD_CLEARDISPLAY, Level::Low, command_wait(LCD_CLEARDISPLAY));
    lemma_transfer_same_bus(x, y, em, Level::Low, command_wait(em));
}

/// What `begin` leaves and issues depends on the wiring, the bus width and
/// its arguments alone: two controllers wired alike end in the same state
/// and issue the same bus steps, whatever flags, line count, row table or
/// readiness they had before.
pub proof fn lemma_begin_independent(a: LcdView, b: LcdView, cols: u8, lines: u8, dotsize: Option<u8>)
    requires
        wf(a),
        wf(b),
        1 <= lines <= 4,
        a.rs_pin == b.rs_pin,
        a.rw_pin == b.rw_pin,
        a.enable_pin == b.enable_pin,
        a.data_pins == b.data_pins,
        a.eight_bit == b.eight_bit,
    ensures
        (LcdView { ops: seq![], ..begun(a, cols, lines, dotsize) }) == (LcdView {
            ops: seq![],
            ..begun(b, cols, lines, dotsize)
        }),
        begun(a, cols, lines, dotsize).ops.skip(a.ops.len() as int) == begun(
            b,
            cols,
            lines,
            dotsize,
        ).ops.skip(b.ops.len() as int),
{
    let ca = configured(a, cols, lines, dotsize);
    let cb = configured(b, cols, lines, dotsize);
    lemma_begin_ops_same_config(ca, cb);
    assert((a.ops + begin_ops(ca)).skip(a.ops.len() as int) =~= begin_ops(ca));
    assert((b.ops + begin_ops(cb)).skip(b.ops.len() as int) =~= begin_ops(cb));
}

/// Before `begin` has completed, instructions and characters are refused:
/// nothing changes and nothing is issued.
pub proof fn lemma_refused_before_begin(v: LcdView, value: u8)
    requires
        !v.initialized,
    ensures
        after_command(v, value) == v,
        after_write(v, value) == v,
{
}

proof fn lemma_edges_concat(a: Seq<BusOp>, b: Seq<BusOp>, pin: u8)
    ensures
        rising_edges(a + b, pin) == rising_edges(a, pin) + rising_edges(b, pin),
    decreases b.len(),
{
    if b.len() == 0 {
        assert(a + b =~= a);
    } else {
        lemma_edges_concat(a, b.drop_last(), pin);
        assert((a + b).drop_last() =~= a + b.drop_last());
    }
}

proof fn lemma_lines_no_edge(pins: Seq<u8>, value: u8, width: nat, pin: u8)
    requires
        width <= pins.len(),
        forall|i: int| 0 <= i < width ==> pins[i] != pin,
    ensures
        rising_edges(lines_ops(pins, value, width), pin) == 0,
    decreases width,
{
    if width > 0 {
        lemma_lines_no_edge(pins, value, (width - 1) as nat, pin);
        assert(lines_ops(pins, value, width).drop_last() =~= lines_ops(pins, value, (width - 1) as nat));
    }
}

proof fn lemma_one_edge_per_latch(pins: Seq<u8>, enable: u8, value: u8, width: nat)
    requires
        width <= pins.len(),
        forall|i: int| 0 <= i < width ==> pins[i] != enable,
    ensures
        rising_edges(latch_ops(pins, enable, value, width), enable) == 1,
{
    lemma_lines_no_edge(pins, value, width, enable);
    lemma_edges_concat(lines_ops(pins, value, width), pulse_ops(enable), enable);
    let p = pulse_ops(enable);
    assert(p.drop_last().drop_last().drop_last().drop_last().drop_last().drop_last() =~= Seq::<
        BusOp,
    >::empty());
    reveal_with_fuel(rising_edges, 7);
}

/// On a 4-bit bus a byte goes out as its high nibble and then its low
/// nibble, each latched by exactly one enable pulse, provided the enable
/// line is not also a data line.
pub proof fn lemma_nibble_order(v: LcdView, value: u8, mode: Level)
    requires
        wf(v),
        !v.eight_bit,
        !v.data_pins.contains(v.enable_pin),
    ensures
        send_ops(v, value, mode) == seq![BusOp::Write { pin: v.rs_pin, level: mode }] + rw_low_ops(v)
            + nibble_ops(v, value >> 4u8) + nibble_ops(v, value & 0x0fu8),
        rising_edges(nibble_ops(v, value >> 4u8), v.enable_pin) == 1,
        rising_edges(nibble_ops(v, value & 0x0fu8), v.enable_pin) == 1,
{
    assert forall|i: int| 0 <= i < 4 implies v.data_pins[i] != v.enable_pin by {
        if v.data_pins[i] == v.enable_pin {
            assert(v.data_pins.contains(v.enable_pin));
        }
    }
    lemma_send_four_bit(v, value, mode);
    lemma_one_edge_per_latch(v.data_pins, v.enable_pin, value >> 4u8, 4);
    lemma_one_edge_per_latch(v.data_pins, v.enable_pin, value & 0x0fu8, 4);
}

proof fn lemma_send_four_bit(v: LcdView, value: u8, mode: Level)
    requires
        !v.eight_bit,
    ensures
        send_ops(v, value, mode) == seq![BusOp::Write { pin: v.rs_pin, level: mode }] + rw_low_ops(v)
            + nibble_ops(v, value >> 4u8) + nibble_ops(v, value & 0x0fu8),
{
    assert(send_ops(v, value, mode) =~= seq![BusOp::Write { pin: v.rs_pin, level: mode }] + rw_low_ops(v)
        + nibble_ops(v, value >> 4u8) + nibble_ops(v, value & 0x0fu8));
}

/// Clear and return-home, whether sent as such or as plain instructions,
/// end with a wait of at least 1520 µs before anything else can be issued;
/// every other instruction and every character ends with a wait of at
/// least 37 µs.
pub proof fn lemma_execution_waits(v: LcdView, value: u8)
    requires
        wf(v),
        v.initialized,
    ensures
        after_command(v, LCD_CLEARDISPLAY).ops.last() == (BusOp::Delay { us: SLOW_COMMAND_WAIT_US }),
        after_command(v, LCD_RETURNHOME).ops.last() == (BusOp::Delay { us: SLOW_COMMAND_WAIT_US }),
        SLOW_COMMAND_WAIT_US >= 1520,
        value != LCD_CLEARDISPLAY && value != LCD_RETURNHOME ==> after_command(v, value).ops.last()
            == (BusOp::Delay { us: COMMAND_WAIT_US }),
        after_write(v, value).ops.last() == (BusOp::Delay { us: COMMAND_WAIT_US }),
        COMMAND_WAIT_US >= 37,
{
}

/// Defining glyph `slot` issues the CGRAM address of the slot and then one
/// character write for each of the first eight rows; a following cursor move issues a
/// DDRAM address again, so the controller leaves CGRAM mode.
pub proof fn lemma_glyph_then_cursor(v: LcdView, slot: u8, bitmap: Seq<u8>, col: u8, row: u8)
    requires
        wf(v),
        v.initialized,
        slot < 8,
        bitmap.len() >= 8,
    ensures
        after_create_char(v, slot, bitmap).ops == v.ops + (command_ops(
            v,
            LCD_SETCGRAMADDR | (slot << 3u8),
        ) + rows_ops(v, bitmap.take(8))),
        rows_ops(v, bitmap.take(8)) == data_ops(v, bitmap[0]) + data_ops(v, bitmap[1]) + data_ops(v, bitmap[2])
            + data_ops(v, bitmap[3]) + data_ops(v, bitmap[4]) + data_ops(v, bitmap[5]) + data_ops(
            v,
            bitmap[6],
        ) + data_ops(v, bitmap[7]),
        ({
            let g = after_create_char(v, slot, bitmap);
            &&& after_set_cursor(g, col, row).ops == g.ops + command_ops(
                g,
                LCD_SETDDRAMADDR | cursor_address(g, col, row),
            )
            &&& (LCD_SETDDRAMADDR | cursor_address(g, col, row)) & 0x80u8 == 0x80u8
        }),
{
    reveal_with_fuel(rows_ops, 9);
    assert(bitmap.take(8).drop_last() =~= bitmap.take(7));
    assert(bitmap.take(7).drop_last() =~= bitmap.take(6));
    assert(bitmap.take(6).drop_last() =~= bitmap.take(5));
    assert(bitmap.take(5).drop_last() =~= bitmap.take(4));
    assert(bitmap.take(4).drop_last() =~= bitmap.take(3));
    assert(bitmap.take(3).drop_last() =~= bitmap.take(2));
    assert(bitmap.take(2).drop_last() =~= bitmap.take(1));
    assert(bitmap.take(1).drop_last() =~= bitmap.take(0));
    assert(bitmap.take(0) =~= Seq::<u8>::empty());
    let g = after_create_char(v, slot, bitmap);
    let a = cursor_address(g, col, row);
    assert((LCD_SETDDRAMADDR | a) & 0x80u8 == 0x80u8) by (bit_vector)
        requires
            LCD_SETDDRAMADDR == 0x80u8,
    ;
}

/// Display, cursor and blink are independent: turning the cursor on after
/// turning blink on re-sends the display-control flags with both bits set
/// and the display bit as it was.
pub proof fn lemma_control_flags_additive(v: LcdView)
    requires
        wf(v),
        v.initialized,
    ensures
        ({
            let b = with_control(v, v.display_on, v.cursor_on, true);
            let c = with_control(b, b.display_on, true, b.blink_on);
            &&& c.ops == b.ops + command_ops(b, LCD_DISPLAYCONTROL | control_bits(c))
            &&& control_bits(c) & LCD_BLINKON == LCD_BLINKON
            &&& control_bits(c) & LCD_CURSORON == LCD_CURSORON
            &&& c.display_on == v.display_on
        }),
{
    let b = with_control(v, v.display_on, v.cursor_on, true);
    let c = with_control(b, b.display_on, true, b.blink_on);
    let d: u8 = if v.display_on {
        LCD_DISPLAYON
    } else {
        0x00u8
    };
    assert((d | 0x02u8 | 0x01u8) & 0x01u8 == 0x01u8 && (d | 0x02u8 | 0x01u8) & 0x02u8 == 0x02u8)
        by (bit_vector);
    lemma_transfer_same_bus(b, c, LCD_DISPLAYCONTROL | control_bits(c), Level::Low, COMMAND_WAIT_US);
}

} // verus!
