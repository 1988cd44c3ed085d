//! The HD44780 16x2 character display behind a PCF8574 I2C expander,
//! driven in 4-bit mode. Each operation here yields the bytes to write to
//! the expander, with the pauses between them, for the caller to carry out.

use vstd::prelude::*;

verus! {

pub const LCD_CLEARDISPLAY: u8 = 0x01;
pub const LCD_ENTRYMODESET: u8 = 0x04;
pub const LCD_DISPLAYCONTROL: u8 = 0x08;
pub const LCD_FUNCTIONSET: u8 = 0x20;
pub const LCD_SETDDRAMADDR: u8 = 0x80;
pub const LCD_DISPLAYON: u8 = 0x04;
pub const LCD_CURSOROFF: u8 = 0x00;
pub const LCD_BLINKOFF: u8 = 0x00;
pub const LCD_ENTRYLEFT: u8 = 0x02;
pub const LCD_ENTRYSHIFTDECREMENT: u8 = 0x00;
pub const LCD_4BITMODE: u8 = 0x00;
pub const LCD_2LINE: u8 = 0x08;
pub const LCD_BACKLIGHT: u8 = 0x08;
pub const LCD_ENABLE: u8 = 0x04;
pub const LCD_RS: u8 = 0x01;

/// One step of talking to the display.
#[derive(Clone, Copy, Debug, PartialEq, Eq, Structural)]
pub enum LcdOp {
    /// Write this byte to the expander.
    Write(u8),
    /// Wait this many microseconds.
    Pause(u64),
}

/// The I2C addresses at which the expander is looked for, in order.
pub open spec fn lcd_addresses() -> Seq<u16> {
    seq![0x27u16, 0x3fu16, 0x20u16, 0x38u16]
}

/// The I2C addresses at which the expander is looked for, in order.
pub fn candidate_addresses() -> (a: Vec<u16>)
    ensures
        a@ == lcd_addresses(),
{
    let a: Vec<u16> = vec![0x27, 0x3f, 0x20, 0x38];
    assert(a@ =~= lcd_addresses());
    a
}

/// The next step of looking for the display, after `tried` addresses have
/// been probed.
#[derive(Clone, Copy, Debug, PartialEq, Eq, Structural)]
pub enum ProbeStep {
    /// Probe this address: select it and write a zero byte.
    Try(u16),
    /// The display answered at this address; probe nothing more.
    Found(u16),
    /// No address answered.
    NotFound,
}

/// The next step of the search, given how many addresses have been probed
/// and whether the last one answered: stop at the first address that
/// answers, else try the next in order, else give up.
pub fn probe_step(tried: usize, last_answered: bool) -> (s: ProbeStep)
    requires
        tried <= 4,
    ensures
        (tried > 0 && last_answered) ==> s == ProbeStep::Found(lcd_addresses()[tried - 1]),
        !(tried > 0 && last_answered) && tried < 4 ==> s == ProbeStep::Try(
            lcd_addresses()[tried as int],
        ),
        !(tried > 0 && last_answered) && tried == 4 ==> s == ProbeStep::NotFound,
        s == next_probe(tried as nat, last_answered),
{
    let addresses = candidate_addresses();
    if tried > 0 && last_answered {
        ProbeStep::Found(addresses[tried - 1])
    } else if tried < 4 {
        ProbeStep::Try(addresses[tried])
    } else {
        ProbeStep::NotFound
    }
}

/// The step that follows `tried` probes, the last of which answered or not.
pub open spec fn next_probe(tried: nat, last_answered: bool) -> ProbeStep {
    if tried > 0 && last_answered && tried <= 4 {
        ProbeStep::Found(lcd_addresses()[tried - 1])
    } else if tried < 4 {
        ProbeStep::Try(lcd_addresses()[tried as int])
    } else {
        ProbeStep::NotFound
    }
}

/// Running the search to its end when the address probed `j`-th answers
/// exactly when `answers[j]`: the outcome and the number of probes made.
pub open spec fn probe_run(answers: Seq<bool>, tried: nat, last_answered: bool) -> (ProbeStep, nat)
    decreases 4 - tried,
{
    match next_probe(tried, last_answered) {
        ProbeStep::Try(_) => {
            if tried < 4 {
                let (outcome, n) = probe_run(answers, tried + 1, answers[tried as int]);
                (outcome, n + 1)
            } else {
                (ProbeStep::NotFound, 0)
            }
        },
        s => (s, 0),
    }
}

proof fn lemma_probe_from(answers: Seq<bool>, t: nat, last: bool, k: int)
    requires
        answers.len() == 4,
        0 <= k < 4,
        t <= k,
        t > 0 ==> last == answers[t - 1] && !last,
        answers[k],
        forall|j: int| 0 <= j < k ==> !answers[j],
    ensures
        probe_run(answers, t, last) == (ProbeStep::Found(lcd_addresses()[k]), (k + 1 - t) as nat),
    decreases k + 1 - t,
{
    if t < k {
        lemma_probe_from(answers, t + 1, answers[t as int], k);
    } else {
        assert(probe_run(answers, t + 1, answers[t as int]) == (ProbeStep::Found(lcd_addresses()[k]), 0nat));
    }
}

/// Searching from the start stops at the first address that answers and
/// gives it, after probing exactly that address and the ones before it.
pub proof fn lemma_probe_first_answer(answers: Seq<bool>, k: int)
    requires
        answers.len() == 4,
        0 <= k < 4,
        answers[k],
        forall|j: int| 0 <= j < k ==> !answers[j],
    ensures
        probe_run(answers, 0, false) == (ProbeStep::Found(lcd_addresses()[k]), (k + 1) as nat),
{
    lemma_probe_from(answers, 0, false, k);
}

/// When no address answers, all four are probed and the search fails.
pub proof fn lemma_probe_none(answers: Seq<bool>)
    requires
        answers.len() == 4,
        forall|j: int| 0 <= j < 4 ==> !answers[j],
    ensures
        probe_run(answers, 0, false) == (ProbeStep::NotFound, 4nat),
{
    reveal_with_fuel(probe_run, 6);
    assert(!answers[0] && !answers[1] && !answers[2] && !answers[3]);
}

/// The data byte with the backlight bit set when the backlight is on.
pub open spec fn with_backlight(data: u8, backlight: bool) -> u8 {
    if backlight {
        data | LCD_BACKLIGHT
    } else {
        data
    }
}

/// One nibble clocked in: the byte with enable high, a pause, the byte with
/// enable low, a pause.
pub open spec fn nibble_ops(data: u8, backlight: bool) -> Seq<LcdOp> {
    let value = with_backlight(data, backlight);
    seq![
        LcdOp::Write(value | LCD_ENABLE),
        LcdOp::Pause(1),
        LcdOp::Write(value & !LCD_ENABLE),
        LcdOp::Pause(50),
    ]
}

/// A byte sent as its high nibble then its low nibble, with `mode` in the
/// low bits (register select).
pub open spec fn send_ops(data: u8, mode: u8, backlight: bool) -> Seq<LcdOp> {
    nibble_ops(mode | (data & 0xf0), backlight) + nibble_ops(mode | ((data << 4u8) & 0xf0), backlight)
}

/// A command byte.
pub open spec fn command_ops(cmd: u8, backlight: bool) -> Seq<LcdOp> {
    send_ops(cmd, 0, backlight)
}

/// Clearing the display: the command, then 2 ms for it to finish.
pub open spec fn clear_ops(backlight: bool) -> Seq<LcdOp> {
    command_ops(LCD_CLEARDISPLAY, backlight).push(LcdOp::Pause(2000))
}

/// The display's memory offset of the start of each row.
pub open spec fn row_offset(row: u8) -> u8 {
    if row == 0 {
        0x00
    } else if row == 1 {
        0x40
    } else if row == 2 {
        0x14
    } else {
        0x54
    }
}

/// Moving the cursor: rows past the fourth go to the fourth.
pub open spec fn cursor_ops(col: u8, row: u8, backlight: bool) -> Seq<LcdOp> {
    command_ops(LCD_SETDDRAMADDR | ((col + row_offset(row)) as u8), backlight)
}

/// The byte a character is sent as: its code truncated to eight bits.
pub open spec fn char_byte(c: char) -> u8 {
    ((c as u32) % 256) as u8
}

/// Writing a character.
pub open spec fn char_ops(c: char, backlight: bool) -> Seq<LcdOp> {
    send_ops(char_byte(c), LCD_RS, backlight)
}

/// Writing each character of `s` in turn.
pub open spec fn str_ops(s: Seq<char>, backlight: bool) -> Seq<LcdOp>
    decreases s.len(),
{
    if s.len() == 0 {
        Seq::empty()
    } else {
        str_ops(s.drop_last(), backlight) + char_ops(s.last(), backlight)
    }
}

/// The display at one I2C address, with its backlight setting.
#[derive(Clone, Copy, Debug, PartialEq, Eq, Structural)]
pub struct Lcd1602 {
    pub addr: u16,
    pub backlight: bool,
}

impl Lcd1602 {
    /// The display found at `addr`, backlight on.
    pub fn new(addr: u16) -> (lcd: Lcd1602)
        ensures
            lcd.addr == addr,
            lcd.backlight,
    {
        Lcd1602 { addr, backlight: true }
    }

    /// One nibble clocked in.
    pub fn write_4bits(&self, data: u8) -> (ops: Vec<LcdOp>)
        ensures
            ops@ == nibble_ops(data, self.backlight),
    {
        let mut value = data;
        if self.backlight {
            value = value | LCD_BACKLIGHT;
        }
        let ops = vec![
            LcdOp::Write(value | LCD_ENABLE),
            LcdOp::Pause(1),
            LcdOp::Write(value & !LCD_ENABLE),
            LcdOp::Pause(50),
        ];
        assert(ops@ =~= nibble_ops(data, self.backlight));
        ops
    }

    /// A byte sent in two nibbles.
    pub fn send(&self, data: u8, mode: u8) -> (ops: Vec<LcdOp>)
        ensures
            ops@ == send_ops(data, mode, self.backlight),
    {
        let high = mode | (data & 0xf0);
        let low = mode | ((data << 4u8) & 0xf0);
        let mut ops = self.write_4bits(high);
        let mut rest = self.write_4bits(low);
        ops.append(&mut rest);
        ops
    }

    /// A command byte.
    pub fn command(&self, cmd: u8) -> (ops: Vec<LcdOp>)
        ensures
            ops@ == command_ops(cmd, self.backlight),
    {
        self.send(cmd, 0)
    }

    /// Clearing the display.
    pub fn clear(&self) -> (ops: Vec<LcdOp>)
        ensures
            ops@ == clear_ops(self.backlight),
    {
        let mut ops = self.command(LCD_CLEARDISPLAY);
        ops.push(LcdOp::Pause(2000));
        ops
    }

    /// Moving the cursor to column `col` of row `row`.
    pub fn set_cursor(&self, col: u8, row: u8) -> (ops: Vec<LcdOp>)
        requires
            col + row_offset(row) <= u8::MAX,
        ensures
            ops@ == cursor_ops(col, row, self.backlight),
    {
        let row = if row > 3 { 3 } else { row };
        let offset: u8 = if row == 0 {
            0x00
        } else if row == 1 {
            0x40
        } else if row == 2 {
            0x14
        } else {
            0x54
        };
        self.command(LCD_SETDDRAMADDR | (col + offset))
    }

    /// Writing one character.
    pub fn write_char(&self, c: char) -> (ops: Vec<LcdOp>)
        ensures
            ops@ == char_ops(c, self.backlight),
    {
        let b: u8 = ((c as u32) % 256) as u8;
        self.send(b, LCD_RS)
    }

    /// Writing a string, character by character.
    pub fn write_str(&self, s: &str) -> (ops: Vec<LcdOp>)
        ensures
            ops@ == str_ops(s@, self.backlight),
    {
        let cs = crate::text::chars_of(s);
        let mut ops: Vec<LcdOp> = Vec::new();
        let mut i: usize = 0;
        while i < cs.len()
            invariant
                i <= cs.len(),
                cs@ == s@,
                ops@ == str_ops(cs@.take(i as int), self.backlight),
            decreases cs.len() - i,
        {
            let mut more = self.write_char(cs[i]);
            ops.append(&mut more);
            proof {
                assert(cs@.take(i + 1).drop_last() =~= cs@.take(i as int));
            }
            i = i + 1;
        }
        assert(cs@.take(cs.len() as int) =~= cs@);
        ops
    }

    /// Turning the backlight on or off (takes effect with the next write).
    pub fn set_backlight(&mut self, state: bool)
        ensures
            final(self).backlight == state,
            final(self).addr == old(self).addr,
    {
        self.backlight = state;
    }

    /// Setting the display up after power-on: three times the 8-bit wake-up
    /// nibble, the switch to 4-bit mode, two lines, display on without
    /// cursor, clear, left-to-right entry.
    pub fn init(&self) -> (ops: Vec<LcdOp>)
        ensures
            ops@ == init_ops(self.backlight),
    {
        assert(0x03u8 << 4u8 == 0x30u8) by (bit_vector);
        assert(0x02u8 << 4u8 == 0x20u8) by (bit_vector);
        assert(LCD_FUNCTIONSET | LCD_2LINE | LCD_4BITMODE == 0x28u8) by (bit_vector);
        assert(LCD_DISPLAYCONTROL | LCD_DISPLAYON | LCD_CURSOROFF | LCD_BLINKOFF == 0x0cu8) by (bit_vector);
        assert(LCD_ENTRYMODESET | LCD_ENTRYLEFT | LCD_ENTRYSHIFTDECREMENT == 0x06u8) by (bit_vector);
        let mut ops: Vec<LcdOp> = vec![LcdOp::Pause(50000)];
        ops.append(&mut self.write_4bits(0x03 << 4u8));
        ops.push(LcdOp::Pause(4500));
        ops.append(&mut self.write_4bits(0x03 << 4u8));
        ops.push(LcdOp::Pause(4500));
        ops.append(&mut self.write_4bits(0x03 << 4u8));
        ops.push(LcdOp::Pause(150));
        ops.append(&mut self.write_4bits(0x02 << 4u8));
        ops.append(&mut self.command(LCD_FUNCTIONSET | LCD_2LINE | LCD_4BITMODE));
        ops.append(&mut self.command(LCD_DISPLAYCONTROL | LCD_DISPLAYON | LCD_CURSOROFF | LCD_BLINKOFF));
        ops.append(&mut self.clear());
        ops.append(&mut self.command(LCD_ENTRYMODESET | LCD_ENTRYLEFT | LCD_ENTRYSHIFTDECREMENT));
        ops.push(LcdOp::Pause(100000));
        assert(ops@ =~= init_ops(self.backlight));
        ops
    }

    /// Showing two lines without clearing: each written from the start of
    /// its row.
    pub fn show_lines(&self, line1: &str, line2: &str) -> (ops: Vec<LcdOp>)
        ensures
            ops@ == show_ops(line1@, line2@, self.backlight),
    {
        let mut ops = self.set_cursor(0, 0);
        ops.append(&mut self.write_str(line1));
        ops.append(&mut self.set_cursor(0, 1));
        ops.append(&mut self.write_str(line2));
        ops
    }

    /// Shutting the display down: clear it, turn the backlight off and send
    /// display-off. The groups run in turn; a group stops at its first failed
    /// write, and the next group runs anyway.
    pub fn shutdown(&mut self) -> (groups: Vec<Vec<LcdOp>>)
        ensures
            final(self).backlight == false,
            final(self).addr == old(self).addr,
            groups@.map_values(|g: Vec<LcdOp>| g@) == shutdown_groups(old(self).backlight),
    {
        let first = self.clear();
        self.set_backlight(false);
        let groups: Vec<Vec<LcdOp>> = vec![
            first,
            vec![LcdOp::Pause(100000), LcdOp::Pause(100000)],
            self.command(0x08),
            vec![LcdOp::Pause(200000)],
        ];
        assert(groups@[0]@ == clear_ops(old(self).backlight));
        assert(groups@[1]@ =~= seq![LcdOp::Pause(100000), LcdOp::Pause(100000)]);
        assert(groups@[2]@ == command_ops(0x08, false));
        assert(groups@[3]@ =~= seq![LcdOp::Pause(200000)]);
        assert(groups@.map_values(|g: Vec<LcdOp>| g@) =~= shutdown_groups(old(self).backlight));
        groups
    }
}

/// What `init` sends: a 50 ms wait, the wake-up nibbles with their waits,
/// the 4-bit switch, the set-up commands and a final 100 ms wait.
pub open spec fn init_ops(backlight: bool) -> Seq<LcdOp> {
    seq![LcdOp::Pause(50000)] + nibble_ops(0x30, backlight) + seq![LcdOp::Pause(4500)]
        + nibble_ops(0x30, backlight) + seq![LcdOp::Pause(4500)] + nibble_ops(0x30, backlight)
        + seq![LcdOp::Pause(150)] + nibble_ops(0x20, backlight) + command_ops(0x28, backlight)
        + command_ops(0x0c, backlight) + clear_ops(backlight) + command_ops(0x06, backlight)
        + seq![LcdOp::Pause(100000)]
}

/// What `show_lines` sends.
pub open spec fn show_ops(line1: Seq<char>, line2: Seq<char>, backlight: bool) -> Seq<LcdOp> {
    cursor_ops(0, 0, backlight) + str_ops(line1, backlight) + cursor_ops(0, 1, backlight) + str_ops(
        line2,
        backlight,
    )
}

/// What `shutdown` sends, group by group.
pub open spec fn shutdown_groups(backlight: bool) -> Seq<Seq<LcdOp>> {
    seq![
        clear_ops(backlight),
        seq![LcdOp::Pause(100000), LcdOp::Pause(100000)],
        command_ops(0x08, false),
        seq![LcdOp::Pause(200000)],
    ]
}


/// The byte written to the expander at position `i` of `ops`.
pub open spec fn written(ops: Seq<LcdOp>, i: int) -> u8 {
    match ops[i] {
        LcdOp::Write(b) => b,
        LcdOp::Pause(_) => 0,
    }
}

/// Each nibble is clocked in by a pulse on the enable line: the first
/// write has enable high, the second the same byte with enable low.
pub proof fn lemma_nibble_pulse(data: u8, backlight: bool)
    ensures
        nibble_ops(data, backlight)[0] is Write,
        nibble_ops(data, backlight)[2] is Write,
        written(nibble_ops(data, backlight), 0) & LCD_ENABLE == LCD_ENABLE,
        written(nibble_ops(data, backlight), 2) & LCD_ENABLE == 0,
        written(nibble_ops(data, backlight), 0) & !LCD_ENABLE == written(nibble_ops(data, backlight), 2),
{
    let v = with_backlight(data, backlight);
    assert((v | 4u8) & 4u8 == 4u8) by (bit_vector);
    assert((v & !4u8) & 4u8 == 0u8) by (bit_vector);
    assert((v | 4u8) & !4u8 == v & !4u8) by (bit_vector);
}

/// What `send` writes carries the byte: the high nibble of the first
/// pulse and the high nibble of the second make up `data`, the register
/// select bit is `mode`, and the backlight bit of every write follows the
/// backlight.
pub proof fn lemma_send_carries_byte(data: u8, mode: u8, backlight: bool)
    requires
        mode == 0 || mode == LCD_RS,
    ensures
        send_ops(data, mode, backlight).len() == 8,
        (written(send_ops(data, mode, backlight), 0) & 0xf0) | ((written(send_ops(data, mode, backlight), 4) & 0xf0) >> 4u8) == data,
        written(send_ops(data, mode, backlight), 0) & LCD_RS == mode,
        written(send_ops(data, mode, backlight), 4) & LCD_RS == mode,
        forall|i: int| #![trigger send_ops(data, mode, backlight)[i]]
            0 <= i < 8 && send_ops(data, mode, backlight)[i] is Write ==>
                (written(send_ops(data, mode, backlight), i) & LCD_BACKLIGHT != 0) == backlight,
{
    let hi = mode | (data & 0xf0);
    let lo = mode | ((data << 4u8) & 0xf0);
    let ops = send_ops(data, mode, backlight);
    let h = with_backlight(hi, backlight);
    let l = with_backlight(lo, backlight);
    assert(ops[0] == LcdOp::Write(h | LCD_ENABLE));
    assert(ops[2] == LcdOp::Write(h & !LCD_ENABLE));
    assert(ops[4] == LcdOp::Write(l | LCD_ENABLE));
    assert(ops[6] == LcdOp::Write(l & !LCD_ENABLE));
    assert(ops[1] is Pause && ops[3] is Pause && ops[5] is Pause && ops[7] is Pause);
    if backlight {
        assert(h == hi | 8u8);
        assert(l == lo | 8u8);
        assert((mode == 0u8 || mode == 1u8) ==> ((((mode | (data & 0xf0)) | 8u8) | 4u8) & 0xf0) | (((((mode | ((data << 4u8) & 0xf0)) | 8u8) | 4u8) & 0xf0) >> 4u8) == data) by (bit_vector);
        assert((mode == 0u8 || mode == 1u8) ==> (((mode | (data & 0xf0)) | 8u8) | 4u8) & 1u8 == mode) by (bit_vector);
        assert((mode == 0u8 || mode == 1u8) ==> (((mode | ((data << 4u8) & 0xf0)) | 8u8) | 4u8) & 1u8 == mode) by (bit_vector);
        assert((((mode | (data & 0xf0)) | 8u8) | 4u8) & 8u8 != 0u8) by (bit_vector);
        assert((((mode | (data & 0xf0)) | 8u8) & !4u8) & 8u8 != 0u8) by (bit_vector);
        assert((((mode | ((data << 4u8) & 0xf0)) | 8u8) | 4u8) & 8u8 != 0u8) by (bit_vector);
        assert((((mode | ((data << 4u8) & 0xf0)) | 8u8) & !4u8) & 8u8 != 0u8) by (bit_vector);
    } else {
        assert(h == hi);
        assert(l == lo);
        assert((mode == 0u8 || mode == 1u8) ==> (((mode | (data & 0xf0)) | 4u8) & 0xf0) | ((((mode | ((data << 4u8) & 0xf0)) | 4u8) & 0xf0) >> 4u8) == data) by (bit_vector);
        assert((mode == 0u8 || mode == 1u8) ==> ((mode | (data & 0xf0)) | 4u8) & 1u8 == mode) by (bit_vector);
        assert((mode == 0u8 || mode == 1u8) ==> ((mode | ((data << 4u8) & 0xf0)) | 4u8) & 1u8 == mode) by (bit_vector);
        assert((mode == 0u8 || mode == 1u8) ==> ((mode | (data & 0xf0)) | 4u8) & 8u8 == 0u8) by (bit_vector);
        assert((mode == 0u8 || mode == 1u8) ==> ((mode | (data & 0xf0)) & !4u8) & 8u8 == 0u8) by (bit_vector);
        assert((mode == 0u8 || mode == 1u8) ==> ((mode | ((data << 4u8) & 0xf0)) | 4u8) & 8u8 == 0u8) by (bit_vector);
        assert((mode == 0u8 || mode == 1u8) ==> ((mode | ((data << 4u8) & 0xf0)) & !4u8) & 8u8 == 0u8) by (bit_vector);
    }
}

/// The cursor command carries the display memory address of the column in
/// the row: rows start at 0x00, 0x40, 0x14 and 0x54, and rows past the
/// fourth go to the fourth.
pub proof fn lemma_cursor_address(col: u8, row: u8, backlight: bool)
    ensures
        cursor_ops(col, row, backlight) == command_ops(
            LCD_SETDDRAMADDR | ((col + seq![0x00u8, 0x40u8, 0x14u8, 0x54u8][if row > 3 {
                3int
            } else {
                row as int
            }]) as u8),
            backlight,
        ),
        cursor_ops(0, 0, backlight) == command_ops(LCD_SETDDRAMADDR, backlight),
        cursor_ops(0, 1, backlight) == command_ops(0xc0, backlight),
{
    assert(LCD_SETDDRAMADDR | 0u8 == LCD_SETDDRAMADDR) by (bit_vector);
    assert(LCD_SETDDRAMADDR | 0x40u8 == 0xc0u8) by (bit_vector);
}

/// Different rows below the fifth start at different addresses, all within
/// the display memory (below 0x80), so setting the cursor on one row never
/// writes on another.
pub proof fn lemma_rows_distinct(r1: u8, r2: u8)
    requires
        r1 < 4,
        r2 < 4,
        r1 != r2,
    ensures
        row_offset(r1) != row_offset(r2),
        row_offset(r1) < 0x80,
        row_offset(r1) == seq![0x00u8, 0x40u8, 0x14u8, 0x54u8][r1 as int],
{
}

/// Writing a string sends eight steps (four bytes) per character.
pub proof fn lemma_str_ops_len(s: Seq<char>, backlight: bool)
    ensures
        str_ops(s, backlight).len() == 8 * s.len(),
    decreases s.len(),
{
    if s.len() > 0 {
        lemma_str_ops_len(s.drop_last(), backlight);
    }
}

} // verus!
