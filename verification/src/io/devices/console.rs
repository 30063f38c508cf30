//! The console's input side: the buffer of bytes typed and the mapping
//! from key presses to bytes. Reading the keyboard and writing to the
//! terminal are left to the program that owns the terminal.
//!
//! Port `0x01`: a read takes the next byte typed, or zero if there is
//! none.
//! Port `0x02`: status on read, bit 0 for input ready and bit 1 for output
//! ready (always).

use vstd::prelude::*;
use std::collections::VecDeque;
use crate::io::devices::test_console::{
    console_status, CONSOLE_PORT_IN, CONSOLE_PORT_STATUS, CONSOLE_RX_READY, CONSOLE_TX_READY,
};

verus! {

/// Byte that the Enter key types: carriage return.
pub const KEY_ENTER: u8 = 0x0D;

/// Byte that the Backspace key types.
pub const KEY_BACKSPACE: u8 = 0x08;

/// A key of the keyboard, as far as the console tells keys apart.
#[derive(Debug, Clone, Copy, PartialEq, Eq, Structural)]
pub enum Key {
    /// A key that types a character.
    Char(char),
    Enter,
    Backspace,
    /// Any other key.
    Other,
}

/// A keyboard event.
#[derive(Debug, Clone, Copy, PartialEq, Eq, Structural)]
pub struct KeyPress {
    pub key: Key,
    /// Whether the Control key was held.
    pub control: bool,
    /// Whether the key went down; a release or a repeat is no press.
    pub pressed: bool,
}

/// What the console does on a keyboard event.
#[derive(Debug, Clone, Copy, PartialEq, Eq, Structural)]
pub enum KeyAction {
    /// Control-C: the emulator is to stop.
    Quit,
    /// The key types this byte.
    Input(u8),
    /// The event types nothing.
    Ignore,
}

/// What the console does on a keyboard event. Only presses count.
/// Control-C quits; any other character types the low eight bits of its
/// code point, Enter a carriage return and Backspace `0x08`; other keys
/// type nothing.
pub open spec fn action_of(press: KeyPress) -> KeyAction {
    if !press.pressed {
        KeyAction::Ignore
    } else {
        match press.key {
            Key::Char(c) => if c == 'c' && press.control {
                KeyAction::Quit
            } else {
                KeyAction::Input(c as u8)
            },
            Key::Enter => KeyAction::Input(KEY_ENTER),
            Key::Backspace => KeyAction::Input(KEY_BACKSPACE),
            Key::Other => KeyAction::Ignore,
        }
    }
}

/// Decides what a keyboard event does.
pub fn key_action(press: KeyPress) -> (action: KeyAction)
    ensures
        action == action_of(press),
{
    if !press.pressed {
        return KeyAction::Ignore;
    }
    match press.key {
        Key::Char(c) => {
            if c == 'c' && press.control {
                KeyAction::Quit
            } else {
                KeyAction::Input(c as u8)
            }
        },
        Key::Enter => KeyAction::Input(KEY_ENTER),
        Key::Backspace => KeyAction::Input(KEY_BACKSPACE),
        Key::Other => KeyAction::Ignore,
    }
}

/// The bytes typed and not yet read.
pub struct Console {
    input_buffer: VecDeque<u8>,
}

impl View for Console {
    type V = Seq<u8>;

    /// The bytes waiting, the oldest first.
    closed spec fn view(&self) -> Seq<u8> {
        self.input_buffer@
    }
}

impl Console {
    /// A console with no input waiting.
    pub fn new() -> (console: Self)
        ensures
            console@ == Seq::<u8>::empty(),
    {
        Console { input_buffer: VecDeque::new() }
    }

    /// Queues a byte as if it had been typed.
    pub fn queue_input(&mut self, c: u8)
        ensures
            final(self)@ == old(self)@.push(c),
    {
        self.input_buffer.push_back(c);
    }

    /// Whether input is waiting.
    pub fn has_input(&self) -> (waiting: bool)
        ensures
            waiting == (self@.len() > 0),
    {
        self.input_buffer.len() > 0
    }

    /// Takes a keyboard event: a byte typed is queued. Returns the
    /// action, so that the caller can stop on [`KeyAction::Quit`].
    pub fn accept(&mut self, press: KeyPress) -> (action: KeyAction)
        ensures
            action == action_of(press),
            final(self)@ == (match action_of(press) {
                KeyAction::Input(byte) => old(self)@.push(byte),
                _ => old(self)@,
            }),
    {
        let action = key_action(press);
        if let KeyAction::Input(byte) = action {
            self.queue_input(byte);
        }
        action
    }

    /// Reads the data port: the oldest byte waiting, or zero if there is
    /// none.
    pub fn take_input(&mut self) -> (byte: u8)
        ensures
            byte == (if old(self)@.len() > 0 { old(self)@[0] } else { 0 }),
            final(self)@ == (if old(self)@.len() > 0 {
                old(self)@.subrange(1, old(self)@.len() as int)
            } else {
                old(self)@
            }),
    {
        match self.input_buffer.pop_front() {
            Some(byte) => byte,
            None => 0,
        }
    }

    /// Reads the status port: output is always ready, input is ready
    /// when a byte waits.
    pub fn status(&self) -> (status: u8)
        ensures
            status == console_status(self@),
    {
        if self.has_input() {
            CONSOLE_TX_READY + CONSOLE_RX_READY
        } else {
            CONSOLE_TX_READY
        }
    }

    /// Reads `port`: the data port takes a byte, the status port reports,
    /// any other port reads as `0xFF`.
    pub fn read_port(&mut self, port: u8) -> (value: u8)
        ensures
            port == CONSOLE_PORT_IN ==> value == (if old(self)@.len() > 0 { old(self)@[0] } else { 0 })
                && final(self)@ == (if old(self)@.len() > 0 {
                old(self)@.subrange(1, old(self)@.len() as int)
            } else {
                old(self)@
            }),
            port == CONSOLE_PORT_STATUS ==> value == console_status(old(self)@) && final(self)@ == old(
                self,
            )@,
            port != CONSOLE_PORT_IN && port != CONSOLE_PORT_STATUS ==> value == 0xFF && final(self)@
                == old(self)@,
    {
        if port == CONSOLE_PORT_IN {
            self.take_input()
        } else if port == CONSOLE_PORT_STATUS {
            self.status()
        } else {
            0xFF
        }
    }
}

} // verus!
