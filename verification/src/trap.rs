//! The traps this system handles: where each one sits in the table, which
//! stack it runs on, and what its stub does once the processor enters it.

use vstd::prelude::*;

use crate::idt::ExceptionStackFrame;

verus! {

/// A trap that has a stub of its own.
#[derive(Debug, Clone, Copy, PartialEq, Eq, Structural)]
pub enum Trap {
    /// Delivering another trap failed. Not recoverable.
    DoubleFault,
    /// A segment was loaded whose descriptor is not present.
    SegmentNotPresent,
    /// A stack segment limit or presence violation.
    StackFault,
    /// A protection check failed that no other trap covers.
    GeneralProtectionFault,
    /// An access to a page was refused or found no mapping.
    PageFault,
    /// The one vector this system raises for its own purposes.
    Application,
}

/// Entry point addresses of the stubs, one per [`Trap`].
#[derive(Debug, Clone, Copy, PartialEq, Eq, Structural)]
pub struct Handlers {
    pub double_fault: usize,
    pub segment_not_present: usize,
    pub stack_fault: usize,
    pub general_protection_fault: usize,
    pub page_fault: usize,
    pub application: usize,
}

/// What happens to the interrupted context once a stub has run.
#[derive(Debug, Clone, Copy, PartialEq, Eq, Structural)]
pub enum Outcome {
    /// Return through the processor's trap-return mechanism.
    Resume,
    /// Stop for good; control never goes back.
    Halt,
}

/// What a stub writes to the log: always the trap's name, and for the stubs
/// that log in detail the frame and whatever error code came with it.
#[derive(Debug, Clone, Copy, PartialEq, Eq, Structural)]
pub struct Diagnostic {
    pub trap: Trap,
    pub frame: Option<ExceptionStackFrame>,
    pub error_code: Option<u64>,
}

/// Everything a stub does, in order: log, then resume or halt.
#[derive(Debug, Clone, Copy, PartialEq, Eq, Structural)]
pub struct Reaction {
    pub diagnostic: Diagnostic,
    pub outcome: Outcome,
}

impl Trap {
    /// The trap's slot in the descriptor table.
    pub open spec fn spec_vector(self) -> u8 {
        match self {
            Trap::DoubleFault => 8,
            Trap::SegmentNotPresent => 11,
            Trap::StackFault => 12,
            Trap::GeneralProtectionFault => 13,
            Trap::PageFault => 14,
            Trap::Application => 33,
        }
    }

    /// The trap's slot in the descriptor table.
    #[verifier::when_used_as_spec(spec_vector)]
    pub fn vector(self) -> (vector: u8)
        ensures
            vector == self.spec_vector(),
    {
        match self {
            Trap::DoubleFault => 8,
            Trap::SegmentNotPresent => 11,
            Trap::StackFault => 12,
            Trap::GeneralProtectionFault => 13,
            Trap::PageFault => 14,
            Trap::Application => 33,
        }
    }

    /// The alternate stack the trap's stub runs on, 0 for none. Only the
    /// double fault switches: the stack it interrupts may already be unusable.
    pub open spec fn spec_stack_index(self) -> u8 {
        if self == Trap::DoubleFault {
            1
        } else {
            0
        }
    }

    /// The alternate stack the trap's stub runs on, 0 for none.
    #[verifier::when_used_as_spec(spec_stack_index)]
    pub fn stack_index(self) -> (index: u8)
        ensures
            index == self.spec_stack_index(),
    {
        match self {
            Trap::DoubleFault => 1,
            _ => 0,
        }
    }

    /// The trap that owns slot `vector`, if any does.
    pub open spec fn spec_from_vector(vector: u8) -> Option<Trap> {
        if vector == 8 {
            Some(Trap::DoubleFault)
        } else if vector == 11 {
            Some(Trap::SegmentNotPresent)
        } else if vector == 12 {
            Some(Trap::StackFault)
        } else if vector == 13 {
            Some(Trap::GeneralProtectionFault)
        } else if vector == 14 {
            Some(Trap::PageFault)
        } else if vector == 33 {
            Some(Trap::Application)
        } else {
            None
        }
    }

    /// The trap that owns slot `vector`, if any does.
    #[verifier::when_used_as_spec(spec_from_vector)]
    pub fn from_vector(vector: u8) -> (trap: Option<Trap>)
        ensures
            trap == Trap::spec_from_vector(vector),
            trap matches Some(t) ==> t.vector() == vector,
            trap is None ==> forall|t: Trap| t.vector() != vector,
    {
        match vector {
            8 => Some(Trap::DoubleFault),
            11 => Some(Trap::SegmentNotPresent),
            12 => Some(Trap::StackFault),
            13 => Some(Trap::GeneralProtectionFault),
            14 => Some(Trap::PageFault),
            33 => Some(Trap::Application),
            _ => None,
        }
    }

    /// Whether the stub logs the frame and error code, not just the name.
    pub open spec fn spec_logs_frame(self) -> bool {
        self == Trap::GeneralProtectionFault || self == Trap::DoubleFault
    }

    /// Whether the stub logs the frame and error code, not just the name.
    #[verifier::when_used_as_spec(spec_logs_frame)]
    pub fn logs_frame(self) -> (detailed: bool)
        ensures
            detailed == self.spec_logs_frame(),
    {
        match self {
            Trap::GeneralProtectionFault | Trap::DoubleFault => true,
            _ => false,
        }
    }

    /// What the stub of this trap does when the processor enters it with
    /// `frame` and, where the processor pushed one, `error_code`.
    pub open spec fn reaction(self, frame: ExceptionStackFrame, error_code: Option<u64>) -> Reaction {
        Reaction {
            diagnostic: if self.logs_frame() {
                Diagnostic { trap: self, frame: Some(frame), error_code }
            } else {
                Diagnostic { trap: self, frame: None, error_code: None }
            },
            outcome: if self == Trap::DoubleFault {
                Outcome::Halt
            } else {
                Outcome::Resume
            },
        }
    }

    /// Decides what the stub of this trap does: what it logs, and whether the
    /// interrupted context resumes afterwards. Only a double fault halts.
    pub fn react(self, frame: ExceptionStackFrame, error_code: Option<u64>) -> (reaction: Reaction)
        ensures
            reaction == self.reaction(frame, error_code),
    {
        let diagnostic = if self.logs_frame() {
            Diagnostic { trap: self, frame: Some(frame), error_code }
        } else {
            Diagnostic { trap: self, frame: None, error_code: None }
        };
        let outcome = match self {
            Trap::DoubleFault => Outcome::Halt,
            _ => Outcome::Resume,
        };
        Reaction { diagnostic, outcome }
    }
}

impl Handlers {
    /// The stub address for `trap`.
    pub open spec fn spec_entry(&self, trap: Trap) -> usize {
        match trap {
            Trap::DoubleFault => self.double_fault,
            Trap::SegmentNotPresent => self.segment_not_present,
            Trap::StackFault => self.stack_fault,
            Trap::GeneralProtectionFault => self.general_protection_fault,
            Trap::PageFault => self.page_fault,
            Trap::Application => self.application,
        }
    }

    /// The stub address for `trap`.
    #[verifier::when_used_as_spec(spec_entry)]
    pub fn entry(&self, trap: Trap) -> (address: usize)
        ensures
            address == self.spec_entry(trap),
    {
        match trap {
            Trap::DoubleFault => self.double_fault,
            Trap::SegmentNotPresent => self.segment_not_present,
            Trap::StackFault => self.stack_fault,
            Trap::GeneralProtectionFault => self.general_protection_fault,
            Trap::PageFault => self.page_fault,
            Trap::Application => self.application,
        }
    }
}

/// Each handled trap has a slot of its own, and looking a slot up gives back
/// the trap that owns it.
pub proof fn lemma_vectors_are_distinct(a: Trap, b: Trap)
    ensures
        Trap::from_vector(a.vector()) == Some(a),
        a.vector() == b.vector() ==> a == b,
{
}

/// A stub halts if and only if its trap is the double fault, and it never
/// halts without logging the frame first.
pub proof fn lemma_only_double_fault_halts(
    trap: Trap,
    frame: ExceptionStackFrame,
    error_code: Option<u64>,
)
    ensures
        trap.reaction(frame, error_code).outcome == Outcome::Halt <==> trap == Trap::DoubleFault,
        trap.reaction(frame, error_code).outcome == Outcome::Halt ==> trap.reaction(
            frame,
            error_code,
        ).diagnostic == (Diagnostic { trap, frame: Some(frame), error_code }),
{
}

} // verus!
