use interrupts::idt::ExceptionStackFrame;
use interrupts::trap::{Diagnostic, Handlers, Outcome, Reaction, Trap};

const TRAPS: [Trap; 6] = [
    Trap::DoubleFault,
    Trap::SegmentNotPresent,
    Trap::StackFault,
    Trap::GeneralProtectionFault,
    Trap::PageFault,
    Trap::Application,
];

fn frame() -> ExceptionStackFrame {
    ExceptionStackFrame {
        ip: 0xFFFF_8000_0000_1234,
        cs: 0x08,
        flags: 0x0000_0000_0001_0002,
        sp: 0xFFFF_8000_00FF_FFF0,
        ss: 0x10,
    }
}

#[test]
fn traps_sit_in_their_slots() {
    assert_eq!(Trap::DoubleFault.vector(), 8);
    assert_eq!(Trap::SegmentNotPresent.vector(), 11);
    assert_eq!(Trap::StackFault.vector(), 12);
    assert_eq!(Trap::GeneralProtectionFault.vector(), 13);
    assert_eq!(Trap::PageFault.vector(), 14);
    assert_eq!(Trap::Application.vector(), 33);
}

#[test]
fn slots_lead_back_to_their_traps() {
    for trap in TRAPS {
        assert_eq!(Trap::from_vector(trap.vector()), Some(trap));
    }
    let mut free = 0;
    for vector in 0..=255u8 {
        if Trap::from_vector(vector).is_none() {
            free += 1;
        }
    }
    assert_eq!(free, 250);
    assert_eq!(Trap::from_vector(0), None);
    assert_eq!(Trap::from_vector(9), None);
    assert_eq!(Trap::from_vector(32), None);
    assert_eq!(Trap::from_vector(255), None);
}

#[test]
fn only_the_double_fault_has_a_stack_of_its_own() {
    for trap in TRAPS {
        assert_eq!(trap.stack_index() != 0, trap == Trap::DoubleFault);
    }
    assert_eq!(Trap::DoubleFault.stack_index(), 1);
}

#[test]
fn handlers_give_each_trap_its_stub() {
    let handlers = Handlers {
        double_fault: 1,
        segment_not_present: 2,
        stack_fault: 3,
        general_protection_fault: 4,
        page_fault: 5,
        application: 6,
    };
    assert_eq!(handlers.entry(Trap::DoubleFault), 1);
    assert_eq!(handlers.entry(Trap::SegmentNotPresent), 2);
    assert_eq!(handlers.entry(Trap::StackFault), 3);
    assert_eq!(handlers.entry(Trap::GeneralProtectionFault), 4);
    assert_eq!(handlers.entry(Trap::PageFault), 5);
    assert_eq!(handlers.entry(Trap::Application), 6);
}

#[test]
fn double_fault_logs_then_halts() {
    let reaction = Trap::DoubleFault.react(frame(), Some(0));
    assert_eq!(
        reaction,
        Reaction {
            diagnostic: Diagnostic {
                trap: Trap::DoubleFault,
                frame: Some(frame()),
                error_code: Some(0),
            },
            outcome: Outcome::Halt,
        }
    );
}

#[test]
fn general_protection_fault_logs_frame_and_code_then_resumes() {
    let reaction = Trap::GeneralProtectionFault.react(frame(), Some(0x18));
    assert_eq!(reaction.outcome, Outcome::Resume);
    assert_eq!(reaction.diagnostic.trap, Trap::GeneralProtectionFault);
    assert_eq!(reaction.diagnostic.frame, Some(frame()));
    assert_eq!(reaction.diagnostic.error_code, Some(0x18));
}

#[test]
fn other_stubs_log_the_name_and_resume() {
    for (trap, error_code) in [
        (Trap::SegmentNotPresent, None),
        (Trap::StackFault, None),
        (Trap::PageFault, Some(0b110)),
        (Trap::Application, None),
    ] {
        let reaction = trap.react(frame(), error_code);
        assert_eq!(
            reaction,
            Reaction {
                diagnostic: Diagnostic { trap, frame: None, error_code: None },
                outcome: Outcome::Resume,
            }
        );
    }
}

#[test]
fn only_the_double_fault_halts() {
    for trap in TRAPS {
        let reaction = trap.react(frame(), Some(7));
        assert_eq!(reaction.outcome == Outcome::Halt, trap == Trap::DoubleFault);
        assert_eq!(reaction.diagnostic.trap, trap);
    }
}

#[test]
fn detailed_stubs_are_the_two_protection_failures() {
    for trap in TRAPS {
        assert_eq!(
            trap.logs_frame(),
            trap == Trap::GeneralProtectionFault || trap == Trap::DoubleFault
        );
    }
}

#[test]
fn a_detailed_stub_without_error_code_still_logs_the_frame() {
    let reaction = Trap::DoubleFault.react(frame(), None);
    assert_eq!(reaction.diagnostic.frame, Some(frame()));
    assert_eq!(reaction.diagnostic.error_code, None);
    assert_eq!(reaction.outcome, Outcome::Halt);
}
