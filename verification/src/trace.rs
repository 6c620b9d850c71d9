//! Events traced from the running guest.

use crate::text::{decimal, decimal_string, hex_string, hex_word};
use vstd::prelude::*;
use vstd::string::StringExecFns;

verus! {

/// An event traced from the running VM.
#[non_exhaustive]
#[derive(Clone, Copy, Debug, PartialEq, Eq, Structural)]
pub enum TraceEvent {
    /// An instruction has started at the given program counter
    InstructionStart {
        /// Cycle number since startup
        cycle: u32,
        /// Program counter of the instruction being executed
        pc: u32,
    },
    /// A register has been set
    RegisterSet {
        /// Register ID (0-16)
        reg: usize,
        /// New value in the register
        value: u32,
    },
    /// A memory location has been written
    MemorySet {
        /// Address of word that's been written
        addr: u32,
        /// Value of word that's been written
        value: u32,
    },
}

impl TraceEvent {
    /// The event as one line of text: its kind, then in brackets its two
    /// values, counters in decimal and machine words in hexadecimal.
    pub open spec fn text(self) -> Seq<char> {
        match self {
            TraceEvent::InstructionStart { cycle, pc } => "InstructionStart("@ + decimal(
                cycle as nat,
            ) + ", "@ + hex_word(pc) + ")"@,
            TraceEvent::RegisterSet { reg, value } => "RegisterSet("@ + decimal(reg as nat) + ", "@
                + hex_word(value) + ")"@,
            TraceEvent::MemorySet { addr, value } => "MemorySet("@ + hex_word(addr) + ", "@
                + hex_word(value) + ")"@,
        }
    }

    /// Writes the event as one line of text.
    pub fn describe(&self) -> (r: String)
        ensures
            r@ == self.text(),
    {
        let (mut s, first, second) = match *self {
            TraceEvent::InstructionStart { cycle, pc } => (
                "InstructionStart(".to_owned(),
                decimal_string(cycle as u64),
                pc,
            ),
            TraceEvent::RegisterSet { reg, value } => (
                "RegisterSet(".to_owned(),
                decimal_string(reg as u64),
                value,
            ),
            TraceEvent::MemorySet { addr, value } => (
                "MemorySet(".to_owned(),
                hex_string(addr),
                value,
            ),
        };
        s.append(first.as_str());
        s.append(", ");
        s.append(hex_string(second).as_str());
        s.append(")");
        s
    }
}

} // verus!
