//! The faults that end a run of the machine.

use vstd::prelude::*;

verus! {

/// The reasons for which the machine refuses to go on.
///
/// None of them is recoverable inside the core: the driver that receives one
/// decides whether to restart, log or stop.
#[derive(Clone, Copy, Debug, PartialEq, Eq, Structural)]
pub enum Fault {
    /// An access to an address that no memory block covers.
    Unmapped,
    /// A write to an address inside a read-only block.
    ReadOnly,
    /// A block of length zero, one whose buffer does not fill it, or one that
    /// would reach past the end of the address type.
    IllegalBlock,
    /// A block whose address range meets that of a block already on the bus.
    Overlap,
    /// An opcode to which the instruction table assigns no operation.
    NotImplemented,
}

impl Fault {
    /// The text of [`Fault::message`], fault by fault.
    pub open spec fn message_text(self) -> Seq<char> {
        match self {
            Fault::Unmapped => "Error, block not found."@,
            Fault::ReadOnly => "Error, attempted to write to readonly memory."@,
            Fault::IllegalBlock => "Error, tried to initialize illegal memory block."@,
            Fault::Overlap => "Error, add memory overlap error."@,
            Fault::NotImplemented => "Error, this op is not implemented."@,
        }
    }

    /// A one-line description of the fault, for the driver to report.
    pub fn message(&self) -> (text: &'static str)
        ensures
            text@ == self.message_text(),
    {
        match self {
            Fault::Unmapped => "Error, block not found.",
            Fault::ReadOnly => "Error, attempted to write to readonly memory.",
            Fault::IllegalBlock => "Error, tried to initialize illegal memory block.",
            Fault::Overlap => "Error, add memory overlap error.",
            Fault::NotImplemented => "Error, this op is not implemented.",
        }
    }
}

} // verus!
