//! A scripted console: input is prepared beforehand and output is kept
//! for inspection.
//!
//! Port `0x00`: a write appends the byte to the output.
//! Port `0x01`: a read takes the next input byte, or zero if there is
//! none.
//! Port `0x02`: status on read, bit 0 for input ready and bit 1 for output
//! ready (always).

use vstd::prelude::*;
use std::collections::VecDeque;
use vstd::string::StringSliceAdditionalSpecFns;
use crate::io::device::IoDevice;

verus! {

/// Port that output is written to.
pub const CONSOLE_PORT_OUT: u8 = 0x00;

/// Port that input is read from.
pub const CONSOLE_PORT_IN: u8 = 0x01;

/// Port of the status register.
pub const CONSOLE_PORT_STATUS: u8 = 0x02;

/// Status bit: an input byte is waiting.
pub const CONSOLE_RX_READY: u8 = 0x01;

/// Status bit: the console takes output.
pub const CONSOLE_TX_READY: u8 = 0x02;

/// A console fed from a script.
pub struct TestConsole {
    input: VecDeque<u8>,
    output: Vec<u8>,
}

/// What a [`TestConsole`] holds: the input not yet read and the output
/// written so far.
pub struct ConsoleState {
    pub input: Seq<u8>,
    pub output: Seq<u8>,
}

/// The status byte of a console with the given input waiting: output is
/// always ready, input is ready when a byte waits.
pub open spec fn console_status(input: Seq<u8>) -> u8 {
    if input.len() > 0 {
        (CONSOLE_TX_READY + CONSOLE_RX_READY) as u8
    } else {
        CONSOLE_TX_READY
    }
}

impl ConsoleState {
    /// The byte a read of `port` returns.
    pub open spec fn port_value(self, port: u8) -> u8 {
        if port == CONSOLE_PORT_IN {
            if self.input.len() > 0 {
                self.input[0]
            } else {
                0
            }
        } else if port == CONSOLE_PORT_STATUS {
            console_status(self.input)
        } else {
            0xFF
        }
    }

    /// The console after a read of `port`: a read of the input port
    /// takes the first input byte away.
    pub open spec fn after_read(self, port: u8) -> ConsoleState {
        if port == CONSOLE_PORT_IN && self.input.len() > 0 {
            ConsoleState { input: self.input.subrange(1, self.input.len() as int), ..self }
        } else {
            self
        }
    }

    /// The console after a write of `value` to `port`: a write to the
    /// output port appends the byte to the output.
    pub open spec fn after_write(self, port: u8, value: u8) -> ConsoleState {
        if port == CONSOLE_PORT_OUT {
            ConsoleState { output: self.output.push(value), ..self }
        } else {
            self
        }
    }
}

impl View for TestConsole {
    type V = ConsoleState;

    /// The input waiting and the output written.
    closed spec fn view(&self) -> ConsoleState {
        ConsoleState { input: self.input@, output: self.output@ }
    }
}

/// The text that `String::from_utf8_lossy` makes of a byte string.
pub uninterp spec fn utf8_lossy_text(bytes: Seq<u8>) -> Seq<char>;

/// `String::from_utf8_lossy` of std, made into an owned string: the bytes
/// decoded as UTF-8, every invalid sequence replaced by U+FFFD. The
/// contract gives the result its name and claims nothing else of it.
#[verifier::external_body]
fn lossy_text(bytes: &Vec<u8>) -> (text: String)
    ensures
        text@ == utf8_lossy_text(bytes@),
{
    String::from_utf8_lossy(bytes).to_string()
}

/// Appends the bytes of `text` to `queue`.
fn queue_bytes(queue: &mut VecDeque<u8>, text: &str)
    ensures
        final(queue)@ == old(queue)@ + text.spec_bytes(),
{
    let bytes = text.as_bytes();
    let mut index: usize = 0;
    while index < bytes.len()
        invariant
            index <= bytes.len(),
            bytes@ == text.spec_bytes(),
            queue@ == old(queue)@ + bytes@.subrange(0, index as int),
        decreases bytes.len() - index,
    {
        queue.push_back(bytes[index]);
        index = index + 1;
        assert(queue@ =~= old(queue)@ + bytes@.subrange(0, index as int));
    }
    assert(bytes@.subrange(0, index as int) =~= bytes@);
}

impl TestConsole {
    /// A console whose input is the bytes of `input` and whose output is
    /// empty.
    pub fn new(input: &str) -> (console: Self)
        ensures
            console@ == (ConsoleState { input: input.spec_bytes(), output: Seq::empty() }),
    {
        let mut queue: VecDeque<u8> = VecDeque::new();
        queue_bytes(&mut queue, input);
        let console = TestConsole { input: queue, output: Vec::new() };
        assert(console@.input =~= input.spec_bytes());
        console
    }

    /// The output written so far as text, invalid UTF-8 replaced.
    pub fn get_output(&self) -> (text: String)
        ensures
            text@ == utf8_lossy_text(self@.output),
    {
        lossy_text(&self.output)
    }

    /// The output written so far.
    pub fn output_bytes(&self) -> (bytes: &[u8])
        ensures
            bytes@ == self@.output,
    {
        self.output.as_slice()
    }

    /// Forgets the output written so far.
    pub fn clear_output(&mut self)
        ensures
            final(self)@ == (ConsoleState { output: Seq::empty(), ..old(self)@ }),
    {
        self.output.clear();
    }

    /// Appends the bytes of `input` to the input waiting.
    pub fn add_input(&mut self, input: &str)
        ensures
            final(self)@ == (ConsoleState { input: old(self)@.input + input.spec_bytes(), ..old(self)@ }),
    {
        queue_bytes(&mut self.input, input);
    }
}

impl IoDevice for TestConsole {
    /// A read returns what the port holds and takes a byte read from the
    /// input away.
    open spec fn reads(&self, port: u8, value: u8, next: &Self) -> bool {
        value == self@.port_value(port) && next@ == self@.after_read(port)
    }

    /// A write to the output port appends to the output.
    open spec fn writes(&self, port: u8, value: u8, next: &Self) -> bool {
        next@ == self@.after_write(port, value)
    }

    fn read(&mut self, port: u8) -> (value: u8) {
        if port == CONSOLE_PORT_IN {
            match self.input.pop_front() {
                Some(byte) => byte,
                None => 0,
            }
        } else if port == CONSOLE_PORT_STATUS {
            if self.input.len() > 0 {
                CONSOLE_TX_READY + CONSOLE_RX_READY
            } else {
                CONSOLE_TX_READY
            }
        } else {
            0xFF
        }
    }

    fn write(&mut self, port: u8, value: u8) {
        if port == CONSOLE_PORT_OUT {
            self.output.push(value);
        }
    }
}

} // verus!
