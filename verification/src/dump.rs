//! Text for the developer: a one-line trace of the next instruction and
//! a dump of the engine's state.

use vstd::prelude::*;
use vstd::string::StringExecFns;
use vstd::string::StrSliceExecFns;
use crate::cpu::Intel8080;
use crate::hex::{hex_byte, hex_word, push_hex_byte, push_hex_word};
use crate::io::device::IoDevice;
use crate::machine::Machine;
use crate::registers::{FLAG_AUX_CARRY, FLAG_CARRY, FLAG_PARITY, FLAG_SIGN, FLAG_ZERO};

verus! {

/// Width of the mnemonic column of a trace line.
pub const MNEMONIC_WIDTH: usize = 12;

/// `letter` if the flag bit `mask` is set in `flags`, a dash if not.
pub open spec fn flag_letter(flags: u8, mask: u8, letter: char) -> char {
    if flags & mask != 0 {
        letter
    } else {
        '-'
    }
}

/// The five flags as letters, `S Z A P C`, a dash for a flag that is
/// clear.
pub open spec fn flag_letters(flags: u8) -> Seq<char> {
    seq![
        flag_letter(flags, FLAG_SIGN, 'S'),
        flag_letter(flags, FLAG_ZERO, 'Z'),
        flag_letter(flags, FLAG_AUX_CARRY, 'A'),
        flag_letter(flags, FLAG_PARITY, 'P'),
        flag_letter(flags, FLAG_CARRY, 'C'),
    ]
}

/// `count` spaces.
pub open spec fn spaces(count: nat) -> Seq<char> {
    Seq::new(count, |i: int| ' ')
}

/// `text` followed by spaces up to `width` characters; a longer text
/// stays as it is.
pub open spec fn padded(text: Seq<char>, width: nat) -> Seq<char> {
    if text.len() >= width {
        text
    } else {
        text + spaces((width - text.len()) as nat)
    }
}

/// The character shown for a byte of memory: the byte itself where it is
/// printable ASCII, a dot where it is not.
pub open spec fn printable(byte: u8) -> char {
    if 0x20 <= byte <= 0x7E {
        byte as char
    } else {
        '.'
    }
}

impl Machine {
    /// The bytes at `count` addresses from `addr` on, each as two
    /// hexadecimal digits and a space.
    pub open spec fn hex_run(self, addr: u16, count: nat) -> Seq<char>
        decreases count,
    {
        if count == 0 {
            Seq::empty()
        } else {
            self.hex_run(addr, (count - 1) as nat) + hex_byte(
                self.byte_at(((addr + count - 1) % 0x1_0000) as u16),
            ) + " "@
        }
    }

    /// The bytes at `count` addresses from `addr` on, each as the
    /// character it is shown by.
    pub open spec fn text_run(self, addr: u16, count: nat) -> Seq<char>
        decreases count,
    {
        if count == 0 {
            Seq::empty()
        } else {
            self.text_run(addr, (count - 1) as nat).push(
                printable(self.byte_at(((addr + count - 1) % 0x1_0000) as u16)),
            )
        }
    }

    /// One row of the memory dump: the address, eight bytes in
    /// hexadecimal, and the same bytes as characters.
    pub open spec fn memory_row(self, addr: u16) -> Seq<char> {
        "  "@ + hex_word(addr) + ": "@ + self.hex_run(addr, 8) + " |"@ + self.text_run(addr, 8) + "|\n"@
    }

    /// One row of the stack preview: the address and the word there.
    pub open spec fn stack_row(self, addr: u16) -> Seq<char> {
        "  ["@ + hex_word(addr) + "] = "@ + hex_word(self.word_at(addr)) + "\n"@
    }

    /// The stack preview: the three words on top of the stack, shown
    /// while the stack pointer lies between `0x0001` and `0xFFFB`, the
    /// third word only below `0xFFFA`.
    pub open spec fn stack_text(self) -> Seq<char> {
        if 0 < self.sp < 0xFFFC {
            let two = "\nStack (top 3 words):\n"@ + self.stack_row(self.sp) + self.stack_row(
                (self.sp + 2) as u16,
            );
            if self.sp < 0xFFFA {
                two + self.stack_row((self.sp + 4) as u16)
            } else {
                two
            }
        } else {
            Seq::empty()
        }
    }

    /// The flags in hexadecimal and as letters.
    pub open spec fn flags_text(self) -> Seq<char> {
        "["@ + flag_letters(self.flags) + "]"@
    }

    /// The trace line: the program counter, the instruction there, the
    /// accumulator, the register pairs, the stack pointer and the flags.
    pub open spec fn trace_text(self) -> Seq<char> {
        hex_word(self.pc) + ": "@ + padded(self.disassembly(self.pc).0, MNEMONIC_WIDTH as nat) + " | A="@
            + hex_byte(self.a) + " BC="@ + hex_word(self.bc()) + " DE="@ + hex_word(self.de())
            + " HL="@ + hex_word(self.hl()) + " SP="@ + hex_word(self.sp) + " "@ + self.flags_text()
    }

    /// The registers of the state dump, three lines.
    pub open spec fn registers_text(self) -> Seq<char> {
        "A:"@ + hex_byte(self.a) + "  B:"@ + hex_byte(self.b) + "  C:"@ + hex_byte(self.c) + "  D:"@
            + hex_byte(self.d) + "  E:"@ + hex_byte(self.e) + "  H:"@ + hex_byte(self.h) + "  L:"@
            + hex_byte(self.l) + "\nBC:"@ + hex_word(self.bc()) + "  DE:"@ + hex_word(self.de())
            + "  HL:"@ + hex_word(self.hl()) + "  SP:"@ + hex_word(self.sp) + "  PC:"@ + hex_word(
            self.pc,
        ) + "\nFLAGS:"@ + hex_byte(self.flags) + " "@ + self.flags_text() + "\n"@
    }

    /// The state dump: the registers, the next instruction, sixteen
    /// bytes of memory from the program counter on, and the stack
    /// preview.
    pub open spec fn dump_text(self) -> Seq<char> {
        "\n========== CPU STATE ==========\n"@ + self.registers_text() + "\nNext: ["@ + hex_word(
            self.pc,
        ) + "] "@ + self.disassembly(self.pc).0 + "\n\nMemory at PC:\n"@ + self.memory_row(self.pc)
            + self.memory_row(self.pc.wrapping_add(8)) + self.stack_text()
            + "==============================\n"@
    }
}

/// `piece` followed by spaces up to `width` characters.
fn pad(piece: &str, width: usize) -> (text: String)
    ensures
        text@ == padded(piece@, width as nat),
{
    let mut text = String::from_str(piece);
    let length = piece.unicode_len();
    if length >= width {
        return text;
    }
    let mut count: usize = length;
    while count < width
        invariant
            length == piece@.len(),
            length <= count <= width,
            text@ == piece@ + spaces((count - length) as nat),
        decreases width - count,
    {
        text.push(' ');
        count = count + 1;
        assert(text@ =~= piece@ + spaces((count - length) as nat));
    }
    text
}

/// The five flags as letters between brackets.
fn flags_text(flags: u8) -> (text: String)
    ensures
        text@ == "["@ + flag_letters(flags) + "]"@,
{
    let mut letters = String::new();
    letters.push(if flags & FLAG_SIGN != 0 { 'S' } else { '-' });
    letters.push(if flags & FLAG_ZERO != 0 { 'Z' } else { '-' });
    letters.push(if flags & FLAG_AUX_CARRY != 0 { 'A' } else { '-' });
    letters.push(if flags & FLAG_PARITY != 0 { 'P' } else { '-' });
    letters.push(if flags & FLAG_CARRY != 0 { 'C' } else { '-' });
    assert(letters@ =~= flag_letters(flags));
    let mut text = String::from_str("[");
    text.append(letters.as_str());
    text.append("]");
    text
}

/// Appends a label and a byte in hexadecimal.
fn push_byte_field(text: &mut String, label: &str, value: u8)
    ensures
        final(text)@ == old(text)@ + label@ + hex_byte(value),
{
    text.append(label);
    push_hex_byte(text, value);
}

/// Appends a label and a word in hexadecimal.
fn push_word_field(text: &mut String, label: &str, value: u16)
    ensures
        final(text)@ == old(text)@ + label@ + hex_word(value),
{
    text.append(label);
    push_hex_word(text, value);
}

/// The four hexadecimal digits of a word.
fn word_text(value: u16) -> (text: String)
    ensures
        text@ == hex_word(value),
{
    let mut text = String::new();
    push_hex_word(&mut text, value);
    assert(text@ =~= hex_word(value));
    text
}

impl<D: IoDevice> Intel8080<D> {
    /// One line that traces the next instruction: the program counter,
    /// the instruction there, and the registers.
    pub fn trace_line(&mut self) -> (line: String)
        ensures
            line@ == old(self)@.trace_text(),
            final(self)@ == old(self)@,
            final(self).bus() == old(self).bus(),
    {
        let pc = self.get_pc();
        let listing = self.disassemble_at(pc);
        let mut line = word_text(pc);
        line.append(": ");
        line.append(pad(listing.0.as_str(), MNEMONIC_WIDTH).as_str());
        push_byte_field(&mut line, " | A=", self.get_a());
        push_word_field(&mut line, " BC=", self.get_bc());
        push_word_field(&mut line, " DE=", self.get_de());
        push_word_field(&mut line, " HL=", self.get_hl());
        push_word_field(&mut line, " SP=", self.get_sp());
        line.append(" ");
        line.append(flags_text(self.get_flags()).as_str());
        line
    }

    /// Eight bytes from `addr` on in hexadecimal.
    fn hex_run(&mut self, addr: u16) -> (text: String)
        ensures
            text@ == old(self)@.hex_run(addr, 8),
            final(self)@ == old(self)@,
            final(self).bus() == old(self).bus(),
    {
        let mut text = String::new();
        let mut index: u16 = 0;
        while index < 8
            invariant
                index <= 8,
                self@ == old(self)@,
                self.bus() == old(self).bus(),
                text@ == old(self)@.hex_run(addr, index as nat),
            decreases 8 - index,
        {
            let byte = self.read_byte(addr.wrapping_add(index));
            push_hex_byte(&mut text, byte);
            text.append(" ");
            index = index + 1;
        }
        text
    }

    /// Eight bytes from `addr` on as characters.
    fn text_run(&mut self, addr: u16) -> (text: String)
        ensures
            text@ == old(self)@.text_run(addr, 8),
            final(self)@ == old(self)@,
            final(self).bus() == old(self).bus(),
    {
        let mut text = String::new();
        let mut index: u16 = 0;
        while index < 8
            invariant
                index <= 8,
                self@ == old(self)@,
                self.bus() == old(self).bus(),
                text@ == old(self)@.text_run(addr, index as nat),
            decreases 8 - index,
        {
            let byte = self.read_byte(addr.wrapping_add(index));
            let shown: char = if byte >= 0x20 && byte <= 0x7E { byte as char } else { '.' };
            text.push(shown);
            index = index + 1;
        }
        text
    }

    /// One row of the memory dump.
    fn memory_row(&mut self, addr: u16) -> (text: String)
        ensures
            text@ == old(self)@.memory_row(addr),
            final(self)@ == old(self)@,
            final(self).bus() == old(self).bus(),
    {
        let mut text = String::from_str("  ");
        push_hex_word(&mut text, addr);
        text.append(": ");
        text.append(self.hex_run(addr).as_str());
        text.append(" |");
        text.append(self.text_run(addr).as_str());
        text.append("|\n");
        text
    }

    /// One row of the stack preview.
    fn stack_row(&mut self, addr: u16) -> (text: String)
        ensures
            text@ == old(self)@.stack_row(addr),
            final(self)@ == old(self)@,
            final(self).bus() == old(self).bus(),
    {
        let word = self.read_word(addr);
        let mut text = String::from_str("  [");
        push_hex_word(&mut text, addr);
        text.append("] = ");
        push_hex_word(&mut text, word);
        text.append("\n");
        text
    }

    /// The stack preview.
    fn stack_text(&mut self) -> (text: String)
        ensures
            text@ == old(self)@.stack_text(),
            final(self)@ == old(self)@,
            final(self).bus() == old(self).bus(),
    {
        let sp = self.get_sp();
        if sp < 0xFFFC && sp > 0 {
            let mut text = String::from_str("\nStack (top 3 words):\n");
            text.append(self.stack_row(sp).as_str());
            text.append(self.stack_row(sp + 2).as_str());
            if sp + 4 < 0xFFFE {
                text.append(self.stack_row(sp + 4).as_str());
            }
            text
        } else {
            String::new()
        }
    }

    /// The register lines of the state dump.
    fn registers_text(&self) -> (text: String)
        ensures
            text@ == self@.registers_text(),
    {
        let mut text = String::from_str("A:");
        push_hex_byte(&mut text, self.get_a());
        push_byte_field(&mut text, "  B:", self.get_b());
        push_byte_field(&mut text, "  C:", self.get_c());
        push_byte_field(&mut text, "  D:", self.get_d());
        push_byte_field(&mut text, "  E:", self.get_e());
        push_byte_field(&mut text, "  H:", self.get_h());
        push_byte_field(&mut text, "  L:", self.get_l());
        push_word_field(&mut text, "\nBC:", self.get_bc());
        push_word_field(&mut text, "  DE:", self.get_de());
        push_word_field(&mut text, "  HL:", self.get_hl());
        push_word_field(&mut text, "  SP:", self.get_sp());
        push_word_field(&mut text, "  PC:", self.get_pc());
        push_byte_field(&mut text, "\nFLAGS:", self.get_flags());
        text.append(" ");
        text.append(flags_text(self.get_flags()).as_str());
        text.append("\n");
        text
    }

    /// The state of the engine as text: the registers, the next
    /// instruction, sixteen bytes of memory from the program counter on,
    /// and the top of the stack.
    pub fn state_dump(&mut self) -> (dump: String)
        ensures
            dump@ == old(self)@.dump_text(),
            final(self)@ == old(self)@,
            final(self).bus() == old(self).bus(),
    {
        let pc = self.get_pc();
        let listing = self.disassemble_at(pc);
        let mut dump = String::from_str("\n========== CPU STATE ==========\n");
        dump.append(self.registers_text().as_str());
        push_word_field(&mut dump, "\nNext: [", pc);
        dump.append("] ");
        dump.append(listing.0.as_str());
        dump.append("\n\nMemory at PC:\n");
        dump.append(self.memory_row(pc).as_str());
        dump.append(self.memory_row(pc.wrapping_add(8)).as_str());
        dump.append(self.stack_text().as_str());
        dump.append("==============================\n");
        dump
    }
}

} // verus!
