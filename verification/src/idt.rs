//! Interrupt gate descriptors and the table that holds them.

use vstd::prelude::*;

use crate::register::DescriptorTableRegister;
use crate::trap::{Handlers, Trap};
use crate::KERNEL_CS;

verus! {

/// Gate type of a 64-bit interrupt gate (bits 0..3 of the attribute byte).
pub const INTERRUPT_GATE: u8 = 0x0E;

/// Descriptor privilege level 0 (bits 5..6 of the attribute byte).
pub const RING_0: u8 = 0x00;

/// Descriptor privilege level 3 (bits 5..6 of the attribute byte).
pub const RING_3: u8 = 0x60;

/// Present bit (bit 7 of the attribute byte).
pub const PRESENT: u8 = 0x80;

/// Number of slots in the descriptor table, one per trap number.
pub const NB_ENTRIES: usize = 256;

/// Size of one descriptor in bytes.
pub const DESCRIPTOR_SIZE: usize = 16;

/// Size of the whole table in bytes.
pub const TABLE_SIZE: usize = NB_ENTRIES * DESCRIPTOR_SIZE;

/// Attribute byte of every gate built by [`IdtDescriptor::new`]:
/// present, ring 0, 64-bit interrupt gate.
pub const KERNEL_GATE: u8 = 0x8E;

/// What a descriptor means to the processor.
pub struct Gate {
    /// Address the processor jumps to.
    pub handler: nat,
    /// Code segment selector loaded on entry.
    pub selector: u16,
    /// Byte whose low three bits select an alternate stack.
    pub ist: u8,
    /// Gate type, privilege level and present bit.
    pub attributes: u8,
}

impl Gate {
    /// Index into the stack-switch table; 0 means "stay on the current stack".
    pub open spec fn stack_index(self) -> nat {
        (self.ist % 8) as nat
    }

    /// Whether the processor may dispatch through this gate.
    pub open spec fn present(self) -> bool {
        self.attributes >= 0x80
    }

    /// Least privileged ring that may enter through this gate by software
    /// interrupt.
    pub open spec fn ring(self) -> nat {
        ((self.attributes / 0x20) % 4) as nat
    }

    /// The type field, including the bit that must be zero.
    pub open spec fn gate_type(self) -> nat {
        (self.attributes % 0x20) as nat
    }

    /// What [`IdtDescriptor::new`] encodes: a present ring-0 interrupt gate
    /// into the kernel code segment.
    pub open spec fn kernel(handler: nat, ist: u8) -> Gate {
        Gate { handler, selector: KERNEL_CS, ist, attributes: KERNEL_GATE }
    }

    /// What a slot without a handler holds: every field zero.
    pub open spec fn missing() -> Gate {
        Gate { handler: 0, selector: 0, ist: 0, attributes: 0 }
    }

    /// The 16 bytes the processor reads for this gate, lowest address first:
    /// handler bits 0..15, selector, stack byte, attribute byte, handler
    /// bits 16..31, handler bits 32..63, and four reserved bytes, all
    /// multi-byte fields little-endian.
    pub open spec fn layout(self) -> Seq<u8> {
        seq![
            (self.handler % 0x100) as u8,
            (self.handler / 0x100 % 0x100) as u8,
            (self.selector % 0x100) as u8,
            (self.selector / 0x100) as u8,
            self.ist,
            self.attributes,
            (self.handler / 0x1_0000 % 0x100) as u8,
            (self.handler / 0x100_0000 % 0x100) as u8,
            (self.handler / 0x1_0000_0000 % 0x100) as u8,
            (self.handler / 0x100_0000_0000 % 0x100) as u8,
            (self.handler / 0x1_0000_0000_0000 % 0x100) as u8,
            (self.handler / 0x100_0000_0000_0000 % 0x100) as u8,
            0u8,
            0u8,
            0u8,
            0u8,
        ]
    }
}

/// What the processor pushes before it enters a handler. Handlers only read
/// it.
#[derive(Debug, Clone, Copy, PartialEq, Eq, Structural)]
pub struct ExceptionStackFrame {
    pub ip: u64,
    pub cs: u64,
    pub flags: u64,
    pub sp: u64,
    pub ss: u64,
}

/// One 16-byte entry of the descriptor table.
#[derive(Debug, Clone, Copy, PartialEq, Eq, Structural)]
pub struct IdtDescriptor {
    offset_15_0: u16,
    segment_selector: u16,
    /// Bits 0..2: stack-switch index, rest is 0.
    pub ist: u8,
    attributes: u8,
    offset_31_16: u16,
    offset_63_32: u32,
}

impl View for IdtDescriptor {
    type V = Gate;

    closed spec fn view(&self) -> Gate {
        Gate {
            handler: (self.offset_15_0 + self.offset_31_16 * 0x1_0000 + self.offset_63_32
                * 0x1_0000_0000) as nat,
            selector: self.segment_selector,
            ist: self.ist,
            attributes: self.attributes,
        }
    }
}

/// The bytes of an address, read off the three parts a descriptor stores.
proof fn lemma_split_bytes(low: u16, mid: u16, high: u32)
    ensures
        ({
            let handler: int = low + mid * 0x1_0000 + high * 0x1_0000_0000;
            &&& handler % 0x100 == low as u8
            &&& handler / 0x100 % 0x100 == low >> 8
            &&& handler / 0x1_0000 % 0x100 == mid as u8
            &&& handler / 0x100_0000 % 0x100 == mid >> 8
            &&& handler / 0x1_0000_0000 % 0x100 == high as u8
            &&& handler / 0x100_0000_0000 % 0x100 == (high >> 8) as u8
            &&& handler / 0x1_0000_0000_0000 % 0x100 == (high >> 16) as u8
            &&& handler / 0x100_0000_0000_0000 % 0x100 == high >> 24
        }),
{
    let l: u64 = low as u64;
    let m: u64 = mid as u64;
    let h: u64 = high as u64;
    let handler: u64 = (l + m * 0x1_0000 + h * 0x1_0000_0000) as u64;
    assert(low as u8 == l % 0x100 && low >> 8 == l / 0x100 && l < 0x1_0000) by (bit_vector)
        requires
            l == low as u64,
    ;
    assert(mid as u8 == m % 0x100 && mid >> 8 == m / 0x100 && m < 0x1_0000) by (bit_vector)
        requires
            m == mid as u64,
    ;
    assert(high as u8 == h % 0x100 && (high >> 8) as u8 == h / 0x100 % 0x100 && (high >> 16) as u8
        == h / 0x1_0000 % 0x100 && high >> 24 == h / 0x100_0000 && h < 0x1_0000_0000)
        by (bit_vector)
        requires
            h == high as u64,
    ;
    assert(handler % 0x100 == l % 0x100 && handler / 0x100 % 0x100 == l / 0x100 && handler
        / 0x1_0000 % 0x100 == m % 0x100 && handler / 0x100_0000 % 0x100 == m / 0x100 && handler
        / 0x1_0000_0000 % 0x100 == h % 0x100 && handler / 0x100_0000_0000 % 0x100 == h / 0x100
        % 0x100 && handler / 0x1_0000_0000_0000 % 0x100 == h / 0x1_0000 % 0x100 && handler
        / 0x100_0000_0000_0000 % 0x100 == h / 0x100_0000) by (bit_vector)
        requires
            l < 0x1_0000,
            m < 0x1_0000,
            h < 0x1_0000_0000,
            handler == l + m * 0x1_0000 + h * 0x1_0000_0000,
    ;
}

impl IdtDescriptor {
    /// The descriptor [`IdtDescriptor::new`] returns, as stored: the address
    /// cut into its low 16, middle 16 and high 32 bits.
    pub closed spec fn spec_new(handler: usize, ist: u8) -> IdtDescriptor {
        let address: nat = handler as nat;
        IdtDescriptor {
            offset_15_0: (address % 0x1_0000) as u16,
            offset_31_16: (address / 0x1_0000 % 0x1_0000) as u16,
            offset_63_32: (address / 0x1_0000_0000) as u32,
            segment_selector: KERNEL_CS,
            ist,
            attributes: KERNEL_GATE,
        }
    }

    /// Encodes a present ring-0 interrupt gate that enters `handler` through
    /// the kernel code segment, on alternate stack `ist` (0: no switch).
    #[verifier::when_used_as_spec(spec_new)]
    pub fn new(handler: usize, ist: u8) -> (d: Self)
        requires
            ist <= 7,
        ensures
            d == Self::spec_new(handler, ist),
            d@ == Gate::kernel(handler as nat, ist),
    {
        let addr: u64 = handler as u64;
        let low: u16 = #[verifier::truncate] (addr as u16);
        let mid: u16 = #[verifier::truncate] ((addr >> 16) as u16);
        let high: u32 = (addr >> 32) as u32;
        proof {
            assert(addr as u16 == addr % 0x1_0000) by (bit_vector);
            assert((addr >> 16) as u16 == (addr / 0x1_0000) % 0x1_0000) by (bit_vector);
            assert(addr >> 32 == addr / 0x1_0000_0000) by (bit_vector);
            assert(INTERRUPT_GATE | PRESENT | RING_0 == KERNEL_GATE) by (bit_vector);
        }
        Self {
            offset_15_0: low,
            offset_31_16: mid,
            offset_63_32: high,
            segment_selector: KERNEL_CS,
            ist,
            attributes: INTERRUPT_GATE | PRESENT | RING_0,
        }
    }

    /// The descriptor of a slot that holds no handler. The processor refuses
    /// to dispatch through it.
    pub fn missing() -> (d: Self)
        ensures
            d@ == Gate::missing(),
            !d@.present(),
    {
        Self {
            offset_15_0: 0,
            offset_31_16: 0,
            offset_63_32: 0,
            segment_selector: 0,
            ist: 0,
            attributes: 0,
        }
    }

    /// Reassembles the handler address from its three stored parts.
    pub fn handler_address(&self) -> (addr: u64)
        ensures
            addr == self@.handler,
    {
        let low: u64 = self.offset_15_0 as u64;
        let mid: u64 = self.offset_31_16 as u64;
        let high: u64 = self.offset_63_32 as u64;
        proof {
            assert((high << 32) | (mid << 16) | low == low + mid * 0x1_0000 + high * 0x1_0000_0000)
                by (bit_vector)
                requires
                    low < 0x1_0000,
                    mid < 0x1_0000,
                    high < 0x1_0000_0000,
            ;
        }
        (high << 32) | (mid << 16) | low
    }

    /// The code segment selector loaded on entry.
    pub fn segment_selector(&self) -> (selector: u16)
        ensures
            selector == self@.selector,
    {
        self.segment_selector
    }

    /// The attribute byte as stored.
    pub fn attributes(&self) -> (attributes: u8)
        ensures
            attributes == self@.attributes,
    {
        self.attributes
    }

    /// The stack-switch index held in the low three bits of `ist`.
    pub fn stack_index(&self) -> (index: u8)
        ensures
            index == self@.stack_index(),
    {
        let ist: u8 = self.ist;
        proof {
            assert(ist & 7 == ist % 8) by (bit_vector);
        }
        ist & 7
    }

    /// Whether the present bit is set.
    pub fn is_present(&self) -> (present: bool)
        ensures
            present == self@.present(),
    {
        let attributes: u8 = self.attributes;
        proof {
            assert((attributes & 0x80 != 0) == (attributes >= 0x80)) by (bit_vector);
        }
        attributes & PRESENT != 0
    }

    /// The descriptor privilege level, 0 to 3.
    pub fn privilege_level(&self) -> (ring: u8)
        ensures
            ring == self@.ring(),
    {
        let attributes: u8 = self.attributes;
        proof {
            assert((attributes >> 5) & 3 == (attributes / 0x20) % 4) by (bit_vector);
        }
        (attributes >> 5) & 3
    }

    /// The type field, bits 0..4 of the attribute byte.
    pub fn gate_type(&self) -> (gate_type: u8)
        ensures
            gate_type == self@.gate_type(),
    {
        let attributes: u8 = self.attributes;
        proof {
            assert(attributes & 0x1F == attributes % 0x20) by (bit_vector);
        }
        attributes & 0x1F
    }

    /// The descriptor as the processor reads it from memory.
    pub fn to_bytes(&self) -> (bytes: [u8; 16])
        ensures
            bytes@ == self@.layout(),
    {
        let low: u16 = self.offset_15_0;
        let mid: u16 = self.offset_31_16;
        let high: u32 = self.offset_63_32;
        let selector: u16 = self.segment_selector;
        let bytes: [u8; 16] = [
            #[verifier::truncate] (low as u8),
            (low >> 8) as u8,
            #[verifier::truncate] (selector as u8),
            (selector >> 8) as u8,
            self.ist,
            self.attributes,
            #[verifier::truncate] (mid as u8),
            (mid >> 8) as u8,
            #[verifier::truncate] (high as u8),
            #[verifier::truncate] ((high >> 8) as u8),
            #[verifier::truncate] ((high >> 16) as u8),
            (high >> 24) as u8,
            0u8,
            0u8,
            0u8,
            0u8,
        ];
        proof {
            lemma_split_bytes(low, mid, high);
            assert(selector as u8 == selector % 0x100 && selector >> 8 == selector / 0x100)
                by (bit_vector);
            assert(bytes@ =~= self@.layout());
        }
        bytes
    }
}

/// The descriptor table: one slot per trap number, 0 to 255.
#[derive(Debug, Clone, Copy, PartialEq, Eq)]
pub struct Idt {
    pub entries: [IdtDescriptor; NB_ENTRIES],
}

impl View for Idt {
    type V = Seq<Gate>;

    open spec fn view(&self) -> Seq<Gate> {
        Seq::new(NB_ENTRIES as nat, |i: int| self.entries[i]@)
    }
}

/// The table after the six handled traps have been given their gates: each
/// of their slots holds a kernel gate to the trap's stub, on the trap's
/// stack; every other slot is as it was.
pub open spec fn populated(before: Seq<Gate>, handlers: Handlers) -> Seq<Gate> {
    Seq::new(
        before.len(),
        |i: int|
            match Trap::from_vector(i as u8) {
                Some(trap) => Gate::kernel(handlers.entry(trap) as nat, trap.stack_index()),
                None => before[i],
            },
    )
}

/// The bytes of a whole table: the slots' layouts one after the other.
pub open spec fn table_layout(gates: Seq<Gate>) -> Seq<u8> {
    Seq::new(gates.len() * 16, |k: int| gates[k / 16].layout()[k % 16])
}

impl Idt {
    /// A table in which no slot holds a handler.
    pub fn new() -> (table: Self)
        ensures
            table@ == Seq::new(NB_ENTRIES as nat, |i: int| Gate::missing()),
    {
        let table = Idt { entries: [IdtDescriptor::missing();NB_ENTRIES] };
        assert(table@ =~= Seq::new(NB_ENTRIES as nat, |i: int| Gate::missing()));
        table
    }

    /// The descriptor in slot `vector`.
    pub fn get(&self, vector: u8) -> (descriptor: IdtDescriptor)
        ensures
            descriptor@ == self@[vector as int],
    {
        self.entries[vector as usize]
    }

    /// Puts `descriptor` into slot `vector` and leaves the other slots alone.
    pub fn set(&mut self, vector: u8, descriptor: IdtDescriptor)
        ensures
            final(self)@ == old(self)@.update(vector as int, descriptor@),
    {
        self.entries[vector as usize] = descriptor;
        assert(self@ =~= old(self)@.update(vector as int, descriptor@));
    }

    /// Gives each handled trap its gate: the double fault on its dedicated
    /// stack, the others without a stack switch. Slots of other trap numbers
    /// keep what they held.
    pub fn populate(&mut self, handlers: &Handlers)
        ensures
            final(self)@ == populated(old(self)@, *handlers),
    {
        self.set(8, IdtDescriptor::new(handlers.double_fault, 1));
        self.set(11, IdtDescriptor::new(handlers.segment_not_present, 0));
        self.set(12, IdtDescriptor::new(handlers.stack_fault, 0));
        self.set(13, IdtDescriptor::new(handlers.general_protection_fault, 0));
        self.set(14, IdtDescriptor::new(handlers.page_fault, 0));
        self.set(33, IdtDescriptor::new(handlers.application, 0));
        assert(self@ =~= populated(old(self)@, *handlers));
    }

    /// Offset of the table's last byte, as the table register wants it.
    pub fn limit() -> (limit: u16)
        ensures
            limit == NB_ENTRIES * DESCRIPTOR_SIZE - 1,
            limit == 4095,
    {
        (TABLE_SIZE - 1) as u16
    }

    /// The register value that installs a table lying at address `base`.
    pub fn register(base: u64) -> (register: DescriptorTableRegister)
        ensures
            register == (DescriptorTableRegister { limit: 4095, base }),
    {
        DescriptorTableRegister { limit: Self::limit(), base }
    }

    /// The table as the processor reads it from memory.
    pub fn to_bytes(&self) -> (bytes: [u8; TABLE_SIZE])
        ensures
            bytes@ == table_layout(self@),
    {
        let mut bytes = [0u8;TABLE_SIZE];
        let mut slot: usize = 0;
        while slot < NB_ENTRIES
            invariant
                slot <= NB_ENTRIES,
                forall|k: int| 0 <= k < slot * 16 ==> bytes@[k] == self@[k / 16].layout()[k % 16],
            decreases NB_ENTRIES - slot,
        {
            let descriptor = self.entries[slot].to_bytes();
            let mut offset: usize = 0;
            while offset < DESCRIPTOR_SIZE
                invariant
                    slot < NB_ENTRIES,
                    offset <= DESCRIPTOR_SIZE,
                    descriptor@ == self@[slot as int].layout(),
                    forall|k: int|
                        0 <= k < slot * 16 + offset ==> bytes@[k] == self@[k / 16].layout()[k % 16],
                decreases DESCRIPTOR_SIZE - offset,
            {
                bytes[slot * DESCRIPTOR_SIZE + offset] = descriptor[offset];
                offset += 1;
            }
            slot += 1;
        }
        assert(bytes@ =~= table_layout(self@));
        bytes
    }
}

/// Prepares `table` for activation at address `base`: gives each handled trap
/// its gate, as [`Idt::populate`] does, and returns the register value that
/// makes the table the active one.
pub fn load(table: &mut Idt, handlers: &Handlers, base: u64) -> (register: DescriptorTableRegister)
    ensures
        final(table)@ == populated(old(table)@, *handlers),
        register == (DescriptorTableRegister { limit: 4095, base }),
{
    table.populate(handlers);
    Idt::register(base)
}

/// Encoding then decoding gives back what went in: the handler address and
/// the stack index come out unchanged, the selector is the kernel code
/// segment, and the attribute byte is exactly present, ring 0 and interrupt
/// gate with no other bit set.
pub proof fn lemma_new_round_trips(handler: usize, ist: u8)
    requires
        ist <= 7,
    ensures
        IdtDescriptor::new(handler, ist)@ == Gate::kernel(handler as nat, ist),
        IdtDescriptor::new(handler, ist)@.handler == handler,
        IdtDescriptor::new(handler, ist)@.selector == KERNEL_CS,
        IdtDescriptor::new(handler, ist)@.stack_index() == ist,
        IdtDescriptor::new(handler, ist)@.attributes == INTERRUPT_GATE | PRESENT | RING_0,
        IdtDescriptor::new(handler, ist)@.present(),
        IdtDescriptor::new(handler, ist)@.ring() == 0,
        IdtDescriptor::new(handler, ist)@.gate_type() == INTERRUPT_GATE,
{
    assert(INTERRUPT_GATE | PRESENT | RING_0 == KERNEL_GATE) by (bit_vector);
}

/// Choosing another stack index changes the stack byte and nothing else,
/// neither in the decoded fields nor in the sixteen bytes.
pub proof fn lemma_stack_index_moves_one_byte(handler: usize, ist: u8, other: u8)
    requires
        ist <= 7,
        other <= 7,
    ensures
        IdtDescriptor::new(handler, ist)@.stack_index() == ist,
        IdtDescriptor::new(handler, ist)@ == (Gate { ist, ..IdtDescriptor::new(handler, other)@ }),
        IdtDescriptor::new(handler, ist)@.layout()[4] == ist,
        forall|k: int|
            0 <= k < 16 && k != 4 ==> IdtDescriptor::new(handler, ist)@.layout()[k]
                == IdtDescriptor::new(handler, other)@.layout()[k],
{
    lemma_new_round_trips(handler, ist);
    lemma_new_round_trips(handler, other);
}

/// The sixteen bytes lose nothing: two gates with 64-bit handler addresses
/// that lay out to the same bytes are the same gate.
pub proof fn lemma_layout_determines_gate(a: Gate, b: Gate)
    requires
        a.handler <= u64::MAX,
        b.handler <= u64::MAX,
        a.layout() == b.layout(),
    ensures
        a == b,
{
    let x: u64 = a.handler as u64;
    let y: u64 = b.handler as u64;
    let s: u16 = a.selector;
    let t: u16 = b.selector;
    assert(a.layout()[0] == b.layout()[0] && a.layout()[1] == b.layout()[1]);
    assert(a.layout()[2] == b.layout()[2] && a.layout()[3] == b.layout()[3]);
    assert(a.layout()[4] == b.layout()[4] && a.layout()[5] == b.layout()[5]);
    assert(a.layout()[6] == b.layout()[6] && a.layout()[7] == b.layout()[7]);
    assert(a.layout()[8] == b.layout()[8] && a.layout()[9] == b.layout()[9]);
    assert(a.layout()[10] == b.layout()[10] && a.layout()[11] == b.layout()[11]);
    assert(s == t) by (bit_vector)
        requires
            s % 0x100 == t % 0x100,
            s / 0x100 == t / 0x100,
    ;
    assert(x == y) by (bit_vector)
        requires
            x % 0x100 == y % 0x100,
            x / 0x100 % 0x100 == y / 0x100 % 0x100,
            x / 0x1_0000 % 0x100 == y / 0x1_0000 % 0x100,
            x / 0x100_0000 % 0x100 == y / 0x100_0000 % 0x100,
            x / 0x1_0000_0000 % 0x100 == y / 0x1_0000_0000 % 0x100,
            x / 0x100_0000_0000 % 0x100 == y / 0x100_0000_0000 % 0x100,
            x / 0x1_0000_0000_0000 % 0x100 == y / 0x1_0000_0000_0000 % 0x100,
            x / 0x100_0000_0000_0000 % 0x100 == y / 0x100_0000_0000_0000 % 0x100,
    ;
}

/// After population every handled trap's slot is present and leads to that
/// trap's stub.
pub proof fn lemma_populated_dispatches(before: Seq<Gate>, handlers: Handlers, trap: Trap)
    requires
        before.len() == NB_ENTRIES,
    ensures
        populated(before, handlers)[trap.vector() as int].present(),
        populated(before, handlers)[trap.vector() as int].handler == handlers.entry(trap),
        populated(before, handlers)[trap.vector() as int] == Gate::kernel(
            handlers.entry(trap) as nat,
            trap.stack_index(),
        ),
{
}

/// Among the populated slots the double fault's is the only one that
/// switches stacks.
pub proof fn lemma_only_double_fault_switches_stack(
    before: Seq<Gate>,
    handlers: Handlers,
    trap: Trap,
)
    requires
        before.len() == NB_ENTRIES,
    ensures
        populated(before, handlers)[trap.vector() as int].stack_index() != 0 <==> trap
            == Trap::DoubleFault,
{
}

/// Population leaves every slot that belongs to no handled trap as it was.
pub proof fn lemma_populated_keeps_other_slots(before: Seq<Gate>, handlers: Handlers, vector: u8)
    requires
        before.len() == NB_ENTRIES,
        Trap::from_vector(vector) is None,
    ensures
        populated(before, handlers)[vector as int] == before[vector as int],
{
}

/// In a table populated from scratch, the processor can dispatch exactly the
/// handled traps.
pub proof fn lemma_fresh_table_dispatches_handled_traps(handlers: Handlers, vector: u8)
    ensures
        populated(Seq::new(NB_ENTRIES as nat, |i: int| Gate::missing()), handlers)[vector as int].present()
            <==> Trap::from_vector(vector) is Some,
{
}

} // verus!
