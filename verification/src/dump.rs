//! A textual dump of the machine state, for diagnostics.
//!
//! The dump has ten lines: the program counter, four lines of registers, the
//! stack pointer, and four lines of stack slots. Registers and stack slots
//! are laid out in four columns, so that line `r` of a block shows entries
//! `r`, `r + 4`, `r + 8` and `r + 12`. Producing the dump changes nothing.

use vstd::prelude::*;
use crate::cpu::Cpu;
use crate::machine::Machine;

verus! {

/// The upper-case hexadecimal digit for a value below 16.
pub open spec fn hex_digit_spec(n: int) -> char {
    seq!['0', '1', '2', '3', '4', '5', '6', '7', '8', '9', 'A', 'B', 'C', 'D', 'E', 'F'][n]
}

/// A byte as two hexadecimal digits.
pub open spec fn hex2(value: u8) -> Seq<char> {
    seq![hex_digit_spec(value as int / 16), hex_digit_spec(value as int % 16)]
}

/// A word as four hexadecimal digits.
pub open spec fn hex4(value: u16) -> Seq<char> {
    seq![
        hex_digit_spec(value as int / 4096),
        hex_digit_spec((value as int / 256) % 16),
        hex_digit_spec((value as int / 16) % 16),
        hex_digit_spec(value as int % 16),
    ]
}

/// A byte in hexadecimal without leading zeros.
pub open spec fn hex_short(value: u8) -> Seq<char> {
    if value < 16 {
        seq![hex_digit_spec(value as int)]
    } else {
        hex2(value)
    }
}

/// The label in front of entry `index`: `V`, the index as two decimal
/// digits, a colon and a space.
pub open spec fn label(index: int) -> Seq<char> {
    seq!['V', hex_digit_spec(index / 10), hex_digit_spec(index % 10), ':', ' ']
}

/// `count` spaces.
pub open spec fn spaces(count: int) -> Seq<char> {
    Seq::new(count as nat, |k: int| ' ')
}

/// The line that shows the program counter.
pub open spec fn pc_line(m: Machine) -> Seq<char> {
    seq!['P', 'C', ' '] + hex4(m.pc)
}

/// The line that shows the stack pointer.
pub open spec fn sp_line(m: Machine) -> Seq<char> {
    seq!['S', 'P', ' '] + hex_short(m.sp)
}

/// Line `row` of the register block.
pub open spec fn register_line(m: Machine, row: int) -> Seq<char> {
    label(row) + hex2(m.v[row]) + spaces(6) + label(row + 4) + hex2(m.v[row + 4]) + spaces(6)
        + label(row + 8) + hex2(m.v[row + 8]) + spaces(6) + label(row + 12) + hex2(m.v[row + 12])
}

/// Line `row` of the stack block.
pub open spec fn stack_line(m: Machine, row: int) -> Seq<char> {
    label(row) + hex4(m.stack[row]) + spaces(4) + label(row + 4) + hex4(m.stack[row + 4]) + spaces(
        4,
    ) + label(row + 8) + hex4(m.stack[row + 8]) + spaces(4) + label(row + 12) + hex4(
        m.stack[row + 12],
    )
}

/// Line `k` of the dump.
pub open spec fn dump_line(m: Machine, k: int) -> Seq<char> {
    if k == 0 {
        pc_line(m)
    } else if k <= 4 {
        register_line(m, k - 1)
    } else if k == 5 {
        sp_line(m)
    } else {
        stack_line(m, k - 6)
    }
}

/// The upper-case hexadecimal digit for `n`.
pub fn hex_digit(n: u8) -> (c: char)
    requires
        n < 16,
    ensures
        c == hex_digit_spec(n as int),
{
    let digits: [char; 16] = [
        '0',
        '1',
        '2',
        '3',
        '4',
        '5',
        '6',
        '7',
        '8',
        '9',
        'A',
        'B',
        'C',
        'D',
        'E',
        'F',
    ];
    digits[n as usize]
}

fn push_hex2(out: &mut Vec<char>, value: u8)
    ensures
        final(out)@ == old(out)@ + hex2(value),
{
    out.push(hex_digit(value / 16));
    out.push(hex_digit(value % 16));
    assert(out@ =~= old(out)@ + hex2(value));
}

fn push_hex4(out: &mut Vec<char>, value: u16)
    ensures
        final(out)@ == old(out)@ + hex4(value),
{
    out.push(hex_digit((value / 4096) as u8));
    out.push(hex_digit(((value / 256) % 16) as u8));
    out.push(hex_digit(((value / 16) % 16) as u8));
    out.push(hex_digit((value % 16) as u8));
    assert(out@ =~= old(out)@ + hex4(value));
}

fn push_label(out: &mut Vec<char>, index: usize)
    requires
        index < 16,
    ensures
        final(out)@ == old(out)@ + label(index as int),
{
    out.push('V');
    out.push(hex_digit((index / 10) as u8));
    out.push(hex_digit((index % 10) as u8));
    out.push(':');
    out.push(' ');
    assert(out@ =~= old(out)@ + label(index as int));
}

fn push_spaces(out: &mut Vec<char>, count: usize)
    ensures
        final(out)@ == old(out)@ + spaces(count as int),
{
    let mut k: usize = 0;
    assert(out@ =~= old(out)@ + spaces(0));
    while k < count
        invariant
            k <= count,
            out@ == old(out)@ + spaces(k as int),
        decreases count - k,
    {
        out.push(' ');
        k += 1;
        assert(out@ =~= old(out)@ + spaces(k as int));
    }
}

impl Cpu {
    fn register_text(&self, row: usize) -> (text: Vec<char>)
        requires
            row < 4,
        ensures
            text@ == register_line(self@, row as int),
    {
        let mut text: Vec<char> = Vec::new();
        let mut column: usize = 0;
        while column < 4
            invariant
                column <= 4,
                row < 4,
                column == 0 ==> text@ == Seq::<char>::empty(),
                column == 1 ==> text@ == label(row as int) + hex2(self@.v[row as int]),
                column == 2 ==> text@ == label(row as int) + hex2(self@.v[row as int]) + spaces(6)
                    + label(row + 4) + hex2(self@.v[row + 4]),
                column == 3 ==> text@ == label(row as int) + hex2(self@.v[row as int]) + spaces(6)
                    + label(row + 4) + hex2(self@.v[row + 4]) + spaces(6) + label(row + 8) + hex2(
                    self@.v[row + 8],
                ),
                column == 4 ==> text@ == register_line(self@, row as int),
            decreases 4 - column,
        {
            if column > 0 {
                push_spaces(&mut text, 6);
            }
            let entry: usize = row + 4 * column;
            push_label(&mut text, entry);
            push_hex2(&mut text, self.v[entry]);
            proof {
                if column == 0 {
                    assert(text@ =~= label(row as int) + hex2(self@.v[row as int]));
                }
            }
            column += 1;
        }
        text
    }

    fn stack_text(&self, row: usize) -> (text: Vec<char>)
        requires
            row < 4,
        ensures
            text@ == stack_line(self@, row as int),
    {
        let mut text: Vec<char> = Vec::new();
        let mut column: usize = 0;
        while column < 4
            invariant
                column <= 4,
                row < 4,
                column == 0 ==> text@ == Seq::<char>::empty(),
                column == 1 ==> text@ == label(row as int) + hex4(self@.stack[row as int]),
                column == 2 ==> text@ == label(row as int) + hex4(self@.stack[row as int])
                    + spaces(4) + label(row + 4) + hex4(self@.stack[row + 4]),
                column == 3 ==> text@ == label(row as int) + hex4(self@.stack[row as int])
                    + spaces(4) + label(row + 4) + hex4(self@.stack[row + 4]) + spaces(4) + label(
                    row + 8,
                ) + hex4(self@.stack[row + 8]),
                column == 4 ==> text@ == stack_line(self@, row as int),
            decreases 4 - column,
        {
            if column > 0 {
                push_spaces(&mut text, 4);
            }
            let entry: usize = row + 4 * column;
            push_label(&mut text, entry);
            push_hex4(&mut text, self.stack[entry]);
            proof {
                if column == 0 {
                    assert(text@ =~= label(row as int) + hex4(self@.stack[row as int]));
                }
            }
            column += 1;
        }
        text
    }

    /// The state dump, line by line.
    pub fn state_dump(&self) -> (lines: Vec<Vec<char>>)
        ensures
            lines@.len() == 10,
            forall|k: int| 0 <= k < 10 ==> (#[trigger] lines@[k])@ == dump_line(self@, k),
    {
        let mut lines: Vec<Vec<char>> = Vec::new();
        let mut first: Vec<char> = Vec::new();
        first.push('P');
        first.push('C');
        first.push(' ');
        push_hex4(&mut first, self.pc);
        assert(first@ =~= pc_line(self@));
        lines.push(first);
        let mut row: usize = 0;
        while row < 4
            invariant
                row <= 4,
                lines@.len() == 1 + row,
                forall|k: int| 0 <= k < 1 + row ==> (#[trigger] lines@[k])@ == dump_line(self@, k),
            decreases 4 - row,
        {
            let text = self.register_text(row);
            lines.push(text);
            row += 1;
        }
        let mut pointer: Vec<char> = Vec::new();
        pointer.push('S');
        pointer.push('P');
        pointer.push(' ');
        if self.sp >= 16 {
            push_hex2(&mut pointer, self.sp);
        } else {
            pointer.push(hex_digit(self.sp));
        }
        assert(pointer@ =~= sp_line(self@));
        lines.push(pointer);
        let mut row: usize = 0;
        while row < 4
            invariant
                row <= 4,
                lines@.len() == 6 + row,
                forall|k: int| 0 <= k < 6 + row ==> (#[trigger] lines@[k])@ == dump_line(self@, k),
            decreases 4 - row,
        {
            let text = self.stack_text(row);
            lines.push(text);
            row += 1;
        }
        lines
    }
}

} // verus!
