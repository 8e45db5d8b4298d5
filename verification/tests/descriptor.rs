use interrupts::idt::{
    IdtDescriptor, DESCRIPTOR_SIZE, INTERRUPT_GATE, KERNEL_GATE, PRESENT, RING_0, RING_3,
};
use interrupts::KERNEL_CS;

const ADDRESSES: [u64; 10] = [
    0,
    1,
    0xFFFF,
    0x1_0000,
    0xFFFF_FFFF,
    0x1_0000_0000,
    0x0000_7FFF_FFFF_F000,
    0xFFFF_8000_0010_2030,
    0xDEAD_BEEF_CAFE_F00D,
    u64::MAX,
];

#[test]
fn encode_0x1000_on_stack_1() {
    let d = IdtDescriptor::new(0x1000, 1);
    assert_eq!(d.handler_address(), 0x1000);
    assert_eq!(d.attributes(), 0x8E);
    assert_eq!(d.attributes(), INTERRUPT_GATE | PRESENT | RING_0);
    assert_eq!(d.stack_index(), 1);
    assert_eq!(d.ist, 1);
}

#[test]
fn handler_address_round_trips() {
    for &address in ADDRESSES.iter() {
        for ist in 0..=7u8 {
            let d = IdtDescriptor::new(address as usize, ist);
            assert_eq!(d.handler_address(), address);
            assert_eq!(d.attributes(), KERNEL_GATE);
        }
    }
}

#[test]
fn stack_index_round_trips() {
    for ist in 0..=7u8 {
        let d = IdtDescriptor::new(0xFFFF_8000_0010_2030, ist);
        assert_eq!(d.stack_index(), ist);
        assert_eq!(d.ist, ist);
    }
}

#[test]
fn stack_index_perturbs_no_other_field() {
    for &address in ADDRESSES.iter() {
        let reference = IdtDescriptor::new(address as usize, 0);
        for ist in 0..=7u8 {
            let d = IdtDescriptor::new(address as usize, ist);
            assert_eq!(d.handler_address(), reference.handler_address());
            assert_eq!(d.segment_selector(), reference.segment_selector());
            assert_eq!(d.attributes(), reference.attributes());
            let mut expected = reference.to_bytes();
            expected[4] = ist;
            assert_eq!(d.to_bytes(), expected);
            let mut same = reference;
            same.ist = ist;
            assert_eq!(d, same);
        }
    }
}

#[test]
fn kernel_gate_is_present_ring_0_interrupt_gate() {
    let d = IdtDescriptor::new(0x1234_5678, 0);
    assert!(d.is_present());
    assert_eq!(d.privilege_level(), 0);
    assert_eq!(d.gate_type(), INTERRUPT_GATE);
    assert_eq!(d.gate_type(), 0b1110);
    assert_eq!(d.segment_selector(), KERNEL_CS);
}

#[test]
fn attribute_constants_have_their_bits() {
    assert_eq!(INTERRUPT_GATE, 0b1110);
    assert_eq!(RING_0, 0 << 5);
    assert_eq!(RING_3, 3 << 5);
    assert_eq!(PRESENT, 1 << 7);
    assert_eq!(KERNEL_GATE, 0b1000_1110);
    assert_eq!(KERNEL_GATE & RING_3, 0);
}

#[test]
fn descriptor_bytes_follow_the_hardware_layout() {
    let d = IdtDescriptor::new(0x1122_3344_5566_7788, 3);
    let selector = KERNEL_CS.to_le_bytes();
    assert_eq!(
        d.to_bytes(),
        [
            0x88, 0x77, selector[0], selector[1], 0x03, 0x8E, 0x66, 0x55, 0x44, 0x33, 0x22, 0x11,
            0, 0, 0, 0
        ]
    );
}

#[test]
fn descriptor_bytes_of_0x1000_on_stack_1() {
    let d = IdtDescriptor::new(0x1000, 1);
    assert_eq!(d.to_bytes(), [0x00, 0x10, 0x08, 0x00, 0x01, 0x8E, 0, 0, 0, 0, 0, 0, 0, 0, 0, 0]);
}

#[test]
fn descriptor_occupies_sixteen_bytes() {
    assert_eq!(DESCRIPTOR_SIZE, 16);
    assert_eq!(IdtDescriptor::new(0x1000, 1).to_bytes().len(), DESCRIPTOR_SIZE);
    assert_eq!(IdtDescriptor::missing().to_bytes().len(), DESCRIPTOR_SIZE);
}

#[test]
fn descriptor_bytes_decode_back_to_the_address() {
    for &address in ADDRESSES.iter() {
        let bytes = IdtDescriptor::new(address as usize, 5).to_bytes();
        let low = u16::from_le_bytes([bytes[0], bytes[1]]) as u64;
        let mid = u16::from_le_bytes([bytes[6], bytes[7]]) as u64;
        let high = u32::from_le_bytes([bytes[8], bytes[9], bytes[10], bytes[11]]) as u64;
        assert_eq!((high << 32) | (mid << 16) | low, address);
        assert_eq!(u16::from_le_bytes([bytes[2], bytes[3]]), KERNEL_CS);
        assert_eq!(bytes[4], 5);
        assert_eq!(bytes[5], 0x8E);
        assert_eq!(&bytes[12..], &[0, 0, 0, 0]);
    }
}

#[test]
fn missing_descriptor_is_all_zero_and_absent() {
    let d = IdtDescriptor::missing();
    assert!(!d.is_present());
    assert_eq!(d.handler_address(), 0);
    assert_eq!(d.segment_selector(), 0);
    assert_eq!(d.stack_index(), 0);
    assert_eq!(d.attributes(), 0);
    assert_eq!(d.to_bytes(), [0u8; 16]);
}

#[test]
fn highest_stack_index_fits_its_three_bits() {
    let d = IdtDescriptor::new(0x2000, 7);
    assert_eq!(d.stack_index(), 7);
    assert_eq!(d.to_bytes()[4], 0b0000_0111);
}

#[test]
fn stack_index_reads_the_low_three_bits_only() {
    let mut d = IdtDescriptor::new(0x2000, 2);
    d.ist = 0b1111_1010;
    assert_eq!(d.stack_index(), 2);
    assert_eq!(d.handler_address(), 0x2000);
}

#[test]
fn different_descriptors_have_different_bytes() {
    let reference = IdtDescriptor::new(0x0123_4567_89AB_CDEF, 2);
    let others = [
        IdtDescriptor::new(0x0123_4567_89AB_CDEE, 2),
        IdtDescriptor::new(0x0123_4567_89AA_CDEF, 2),
        IdtDescriptor::new(0x0123_4566_89AB_CDEF, 2),
        IdtDescriptor::new(0x8123_4567_89AB_CDEF, 2),
        IdtDescriptor::new(0x0123_4567_89AB_CDEF, 3),
        IdtDescriptor::missing(),
    ];
    for other in others.iter() {
        assert_ne!(*other, reference);
        assert_ne!(other.to_bytes(), reference.to_bytes());
    }
}
