use luau_lifter::decoder::inst::{encode, split_d, split_e, Inst};
use luau_lifter::decoder::opcode::{DecodeError, OpName, Opcode, OPCODE_COUNT};

#[test]
fn accessors_recover_what_was_encoded_for_every_opcode() {
    let samples: [(u8, u8, u8, i32); 5] = [
        (0, 0, 0, 0),
        (1, 2, 3, 4),
        (255, 255, 255, -1),
        (0x12, 0x34, 0x80, i32::MIN),
        (200, 0xff, 0x7f, i32::MAX),
    ];
    for byte in 0..OPCODE_COUNT {
        let op = Opcode::try_from(byte).unwrap();
        for (a, b, c, x) in samples {
            let mut window = vec![byte, a, b, c];
            window.extend_from_slice(&x.to_le_bytes());
            let inst = Inst::try_from(&window[..]).expect("a whole instruction");
            assert_eq!(inst.op(), op);
            assert_eq!(inst.a(), a);
            assert_eq!(inst.b(), b);
            assert_eq!(inst.c(), c);
            assert_eq!(inst.d(), i16::from_le_bytes([b, c]));
            assert_eq!(inst.e(), i32::from_le_bytes([0, a, b, c]) >> 8);
            assert_eq!(inst.adjacent(), x);
            assert_eq!(inst.with_name(OpName::A), a as i32);
            assert_eq!(inst.with_name(OpName::B), b as i32);
            assert_eq!(inst.with_name(OpName::C), c as i32);
            assert_eq!(inst.with_name(OpName::D), i16::from_le_bytes([b, c]) as i32);
            assert_eq!(inst.with_name(OpName::E), inst.e());
            assert_eq!(inst.with_name(OpName::X), x);
        }
    }
}

#[test]
fn operand_d_is_signed() {
    let inst = Inst::try_from(&[23u8, 0, 0xfe, 0xff][..]).unwrap();
    assert_eq!(inst.d(), -2);
    let inst = Inst::try_from(&[23u8, 0, 0xff, 0x7f][..]).unwrap();
    assert_eq!(inst.d(), 32767);
    let inst = Inst::try_from(&[23u8, 0, 0x00, 0x80][..]).unwrap();
    assert_eq!(inst.d(), -32768);
}

#[test]
fn operand_e_is_a_signed_24_bit_value() {
    let inst = Inst::try_from(&[67u8, 5, 0, 0][..]).unwrap();
    assert_eq!(inst.e(), 5);
    let inst = Inst::try_from(&[67u8, 0xff, 0xff, 0xff][..]).unwrap();
    assert_eq!(inst.e(), -1);
    let inst = Inst::try_from(&[67u8, 0xff, 0xff, 0x7f][..]).unwrap();
    assert_eq!(inst.e(), 0x7f_ffff);
    let inst = Inst::try_from(&[67u8, 0x00, 0x00, 0x80][..]).unwrap();
    assert_eq!(inst.e(), -0x80_0000);
}

#[test]
fn encode_writes_opcode_operands_and_auxiliary_word() {
    assert_eq!(encode(Opcode::Move, 1, 2, 3, 99), vec![6, 1, 2, 3]);
    assert_eq!(encode(Opcode::GetGlobal, 1, 2, 3, 0x0403_0201), vec![7, 1, 2, 3, 1, 2, 3, 4]);
    assert_eq!(
        encode(Opcode::LoadConstantEx, 9, 0, 0, -2),
        vec![66, 9, 0, 0, 0xfe, 0xff, 0xff, 0xff]
    );
}

#[test]
fn encode_then_decode_is_identity() {
    for byte in 0..OPCODE_COUNT {
        let op = Opcode::try_from(byte).unwrap();
        for x in [0, 1, -1, i32::MIN, i32::MAX, 0x1234_5678] {
            let bytes = encode(op, 7, 8, 9, x);
            assert_eq!(bytes.len(), op.len());
            let inst = Inst::try_from(&bytes[..]).unwrap();
            assert_eq!((inst.op(), inst.a(), inst.b(), inst.c()), (op, 7, 8, 9));
            if op.len() == 8 {
                assert_eq!(inst.adjacent(), x);
            }
        }
    }
}

#[test]
fn split_d_gives_the_bytes_of_the_operand() {
    assert_eq!(split_d(0), (0, 0));
    assert_eq!(split_d(-1), (0xff, 0xff));
    assert_eq!(split_d(0x1234), (0x34, 0x12));
    assert_eq!(split_d(i16::MIN), (0x00, 0x80));
    for d in [i16::MIN, -300, -1, 0, 1, 255, 256, i16::MAX] {
        let (b, c) = split_d(d);
        let bytes = encode(Opcode::Jump, 0, b, c, 0);
        assert_eq!(Inst::try_from(&bytes[..]).unwrap().d(), d);
    }
}

#[test]
fn split_e_gives_the_bytes_of_the_operand() {
    assert_eq!(split_e(0), (0, 0, 0));
    assert_eq!(split_e(-1), (0xff, 0xff, 0xff));
    assert_eq!(split_e(0x12_3456), (0x56, 0x34, 0x12));
    for e in [-0x80_0000, -70000, -1, 0, 1, 65536, 0x7f_ffff] {
        let (a, b, c) = split_e(e);
        let bytes = encode(Opcode::JumpEx, a, b, c, 0);
        assert_eq!(Inst::try_from(&bytes[..]).unwrap().e(), e);
    }
}

#[test]
fn empty_window_is_truncated() {
    assert!(matches!(Inst::try_from(&[][..]), Err(DecodeError::Truncated)));
}

#[test]
fn short_window_is_truncated() {
    assert!(matches!(Inst::try_from(&[0u8, 0, 0][..]), Err(DecodeError::Truncated)));
    assert!(matches!(Inst::try_from(&[7u8, 0, 0, 0, 0, 0, 0][..]), Err(DecodeError::Truncated)));
    assert!(Inst::try_from(&[7u8, 0, 0, 0, 0, 0, 0, 0][..]).is_ok());
}

#[test]
fn unknown_opcode_is_rejected() {
    assert!(matches!(
        Inst::try_from(&[81u8, 0, 0, 0, 0, 0, 0, 0][..]),
        Err(DecodeError::UnknownOpcode)
    ));
    assert!(matches!(Inst::try_from(&[255u8][..]), Err(DecodeError::UnknownOpcode)));
}

#[test]
fn window_may_be_longer_than_the_instruction() {
    let window = [0u8, 1, 2, 3, 4, 5, 6, 7, 8, 9];
    let inst = Inst::try_from(&window[..]).unwrap();
    assert_eq!(inst.op(), Opcode::Nop);
    assert_eq!(inst.bytes(), &window[..]);
    assert_eq!(inst.adjacent(), 0x0706_0504);
}
