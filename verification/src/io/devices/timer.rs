//! The interval timer.
//!
//! Port `0x30`: counter low byte on read, reload low byte on write.
//! Port `0x31`: counter high byte on read; a write sets the reload high
//! byte and loads the counter from the reload value.
//! Port `0x32`: status on read (bit 0 enabled, bit 1 interrupt pending);
//! on write bit 0 enables or disables and bit 1 acknowledges the
//! interrupt.

use vstd::prelude::*;
use crate::bits::lemma_word_fields;
use crate::io::device::IoDevice;

verus! {

/// Port of the counter's low byte.
pub const TIMER_PORT_LOW: u8 = 0x30;

/// Port of the counter's high byte.
pub const TIMER_PORT_HIGH: u8 = 0x31;

/// Port of the status and control register.
pub const TIMER_PORT_CONTROL: u8 = 0x32;

/// A 16-bit down-counter that raises an interrupt request when it
/// expires.
pub struct Timer {
    counter: u16,
    reload_value: u16,
    enabled: bool,
    /// Set when the counter expires, cleared by an acknowledge.
    pub interrupt_pending: bool,
}

/// The registers of a [`Timer`].
pub struct TimerState {
    pub counter: u16,
    pub reload_value: u16,
    pub enabled: bool,
    pub interrupt_pending: bool,
}

impl TimerState {
    /// The timer after `cycles` clock cycles. A disabled timer, or one
    /// with a reload value of zero, stands still. Otherwise the counter
    /// goes down by `cycles`; when `cycles` reaches or passes the counter,
    /// the counter starts again from the reload value and the interrupt
    /// request is raised, the excess cycles being dropped.
    pub open spec fn tick(self, cycles: u64) -> TimerState {
        if !self.enabled || self.reload_value == 0 {
            self
        } else if cycles >= self.counter {
            TimerState { counter: self.reload_value, interrupt_pending: true, ..self }
        } else {
            TimerState { counter: (self.counter - cycles) as u16, ..self }
        }
    }

    /// The status byte: bit 0 enabled, bit 1 interrupt pending.
    pub open spec fn status(self) -> u8 {
        ((if self.enabled { 1int } else { 0int }) + (if self.interrupt_pending { 2int } else { 0int })) as u8
    }

    /// The byte a read of `port` returns; ports other than the timer's
    /// three read as `0xFF`.
    pub open spec fn port_value(self, port: u8) -> u8 {
        if port == TIMER_PORT_LOW {
            (self.counter % 256) as u8
        } else if port == TIMER_PORT_HIGH {
            (self.counter / 256) as u8
        } else if port == TIMER_PORT_CONTROL {
            self.status()
        } else {
            0xFF
        }
    }

    /// The timer after a write of `value` to `port`; writes to ports
    /// other than the timer's three change nothing.
    pub open spec fn port_write(self, port: u8, value: u8) -> TimerState {
        if port == TIMER_PORT_LOW {
            TimerState { reload_value: ((self.reload_value / 256) * 256 + value) as u16, ..self }
        } else if port == TIMER_PORT_HIGH {
            let reload = (value * 256 + self.reload_value % 256) as u16;
            TimerState { reload_value: reload, counter: reload, ..self }
        } else if port == TIMER_PORT_CONTROL {
            TimerState {
                enabled: value % 2 == 1,
                interrupt_pending: self.interrupt_pending && (value / 2) % 2 == 0,
                ..self
            }
        } else {
            self
        }
    }

    /// The timer with the interrupt request cleared.
    pub open spec fn acknowledged(self) -> TimerState {
        TimerState { interrupt_pending: false, ..self }
    }
}

impl View for Timer {
    type V = TimerState;

    /// The registers of the timer.
    closed spec fn view(&self) -> TimerState {
        TimerState {
            counter: self.counter,
            reload_value: self.reload_value,
            enabled: self.enabled,
            interrupt_pending: self.interrupt_pending,
        }
    }
}

/// Bits 0 and 1 of a control byte, as arithmetic.
proof fn lemma_control_bits(value: u8)
    by (bit_vector)
    ensures
        (value & 0x01 != 0) == (value % 2 == 1),
        (value & 0x02 != 0) == ((value / 2) % 2 == 1),
{
}

/// The two status bits joined with OR are their sum.
proof fn lemma_status_bits(enabled: bool, pending: bool)
    by (bit_vector)
    ensures
        (if enabled { 1u8 } else { 0u8 }) | (if pending { 2u8 } else { 0u8 }) == (if enabled { 1u8 } else { 0u8 }) + (if pending { 2u8 } else { 0u8 }),
{
}

impl Timer {
    /// An idle timer: counter and reload value zero, disabled, no
    /// interrupt pending.
    pub fn new() -> (timer: Self)
        ensures
            timer@ == (TimerState { counter: 0, reload_value: 0, enabled: false, interrupt_pending: false }),
    {
        Timer { counter: 0, reload_value: 0, enabled: false, interrupt_pending: false }
    }

    /// Whether an interrupt request is pending.
    pub fn interrupt_requested(&self) -> (pending: bool)
        ensures
            pending == self@.interrupt_pending,
    {
        self.interrupt_pending
    }

    /// Raises or clears the interrupt request.
    pub fn set_interrupt_pending(&mut self, pending: bool)
        ensures
            final(self)@ == (TimerState { interrupt_pending: pending, ..old(self)@ }),
    {
        self.interrupt_pending = pending;
    }

    /// Advances the timer by the cycles an instruction took.
    pub fn tick(&mut self, cycles: u64)
        ensures
            final(self)@ == old(self)@.tick(cycles),
    {
        if !self.enabled || self.reload_value == 0 {
            return ;
        }
        if cycles >= self.counter as u64 {
            self.counter = self.reload_value;
            self.interrupt_pending = true;
        } else {
            self.counter = self.counter - cycles as u16;
        }
    }

    /// Reports whether an interrupt is pending and clears the request.
    pub fn check_interrupt(&mut self) -> (pending: bool)
        ensures
            pending == old(self)@.interrupt_pending,
            final(self)@ == old(self)@.acknowledged(),
    {
        if self.interrupt_pending {
            self.interrupt_pending = false;
            true
        } else {
            false
        }
    }
}

impl IoDevice for Timer {
    /// A read returns the addressed register and changes nothing.
    open spec fn reads(&self, port: u8, value: u8, next: &Self) -> bool {
        value == self@.port_value(port) && next@ == self@
    }

    /// A write updates the addressed register.
    open spec fn writes(&self, port: u8, value: u8, next: &Self) -> bool {
        next@ == self@.port_write(port, value)
    }

    fn read(&mut self, port: u8) -> (value: u8) {
        proof {
            lemma_word_fields(self.counter, 0, 0);
            lemma_status_bits(self.enabled, self.interrupt_pending);
        }
        if port == TIMER_PORT_LOW {
            (self.counter & 0xFF) as u8
        } else if port == TIMER_PORT_HIGH {
            (self.counter >> 8) as u8
        } else if port == TIMER_PORT_CONTROL {
            let enabled_bit: u8 = if self.enabled { 0x01 } else { 0 };
            let pending_bit: u8 = if self.interrupt_pending { 0x02 } else { 0 };
            enabled_bit | pending_bit
        } else {
            0xFF
        }
    }

    fn write(&mut self, port: u8, value: u8) {
        proof {
            lemma_word_fields(self.reload_value, value, value);
            lemma_control_bits(value);
        }
        if port == TIMER_PORT_LOW {
            self.reload_value = (self.reload_value & 0xFF00) | (value as u16);
        } else if port == TIMER_PORT_HIGH {
            self.reload_value = (self.reload_value & 0x00FF) | ((value as u16) << 8);
            self.counter = self.reload_value;
        } else if port == TIMER_PORT_CONTROL {
            self.enabled = (value & 0x01) != 0;
            if value & 0x02 != 0 {
                self.interrupt_pending = false;
            }
        }
    }
}

} // verus!
