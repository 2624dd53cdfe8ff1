use super::opcode::{DecodeError, OpName, Opcode};
use vstd::prelude::*;

verus! {

/// Whether a byte window starts with a whole instruction: a known opcode
/// followed by at least as many bytes as that opcode's encoded length.
pub open spec fn decodes(bytes: Seq<u8>) -> bool {
    &&& bytes.len() > 0
    &&& Opcode::from_id(bytes[0]) matches Some(op) && op.spec_len() <= bytes.len()
}

/// The opcode of a window that `decodes`.
pub open spec fn field_op(bytes: Seq<u8>) -> Opcode {
    Opcode::from_id(bytes[0]).unwrap()
}

/// The signed 16-bit value whose little-endian bytes are `low`, `high`.
pub open spec fn signed16(low: u8, high: u8) -> i16 {
    let raw = low + 0x100 * high;
    if raw < 0x8000 {
        raw as i16
    } else {
        (raw - 0x1_0000) as i16
    }
}

/// The signed 24-bit value whose little-endian bytes are `low`, `mid`, `high`.
pub open spec fn signed24(low: u8, mid: u8, high: u8) -> i32 {
    let raw = low + 0x100 * mid + 0x1_0000 * high;
    if raw < 0x80_0000 {
        raw as i32
    } else {
        (raw - 0x100_0000) as i32
    }
}

/// The signed 32-bit value whose little-endian bytes are `b0` to `b3`.
pub open spec fn signed32(b0: u8, b1: u8, b2: u8, b3: u8) -> i32 {
    let raw = b0 + 0x100 * b1 + 0x1_0000 * b2 + 0x100_0000 * b3;
    if raw < 0x8000_0000 {
        raw as i32
    } else {
        (raw - 0x1_0000_0000) as i32
    }
}

pub open spec fn field_a(bytes: Seq<u8>) -> u8 {
    bytes[1]
}

pub open spec fn field_b(bytes: Seq<u8>) -> u8 {
    bytes[2]
}

pub open spec fn field_c(bytes: Seq<u8>) -> u8 {
    bytes[3]
}

pub open spec fn field_d(bytes: Seq<u8>) -> i16 {
    signed16(bytes[2], bytes[3])
}

pub open spec fn field_e(bytes: Seq<u8>) -> i32 {
    signed24(bytes[1], bytes[2], bytes[3])
}

/// The auxiliary word; it means something only where the window has 8 bytes.
pub open spec fn field_x(bytes: Seq<u8>) -> i32 {
    signed32(bytes[4], bytes[5], bytes[6], bytes[7])
}

/// The raw value of the field `name`, widened to 32 bits.
pub open spec fn field(bytes: Seq<u8>, name: OpName) -> i32 {
    match name {
        OpName::A => field_a(bytes) as i32,
        OpName::B => field_b(bytes) as i32,
        OpName::C => field_c(bytes) as i32,
        OpName::D => field_d(bytes) as i32,
        OpName::E => field_e(bytes),
        OpName::X => field_x(bytes),
    }
}

/// Where a jump of `offset` words lands, seen from an instruction at `start`:
/// offset 0 is the word after it. Addresses wrap around at 64 bits.
pub open spec fn jump_target(start: u64, offset: i64) -> u64 {
    ((start + offset * 4 + 4) % 0x1_0000_0000_0000_0000) as u64
}

/// The bytes `b`, `c` of an instruction whose operand `d` is the given value:
/// its two's complement, low byte first.
pub open spec fn d_bytes(d: i16) -> (u8, u8) {
    let raw = if d < 0 {
        d + 0x1_0000
    } else {
        d as int
    };
    ((raw % 0x100) as u8, (raw / 0x100) as u8)
}

/// The bytes `a`, `b`, `c` of an instruction whose operand `e` is the given
/// value: the low three bytes of its two's complement, low byte first. A
/// value of more than 24 bits loses the rest.
pub open spec fn e_bytes(e: i32) -> (u8, u8, u8) {
    let raw = e % 0x100_0000;
    ((raw % 0x100) as u8, ((raw / 0x100) % 0x100) as u8, (raw / 0x1_0000) as u8)
}

/// The auxiliary word that holds `x`.
pub open spec fn aux_bytes(x: i32) -> Seq<u8> {
    let raw = if x < 0 {
        x + 0x1_0000_0000
    } else {
        x as int
    };
    seq![
        (raw % 0x100) as u8,
        ((raw / 0x100) % 0x100) as u8,
        ((raw / 0x1_0000) % 0x100) as u8,
        (raw / 0x100_0000) as u8,
    ]
}

/// The encoding of an instruction: the opcode byte and the three operand
/// bytes, then the auxiliary word where the opcode has one.
pub open spec fn assemble(op: Opcode, a: u8, b: u8, c: u8, aux: i32) -> Seq<u8> {
    if op.has_aux() {
        seq![op.id(), a, b, c] + aux_bytes(aux)
    } else {
        seq![op.id(), a, b, c]
    }
}

/// A validated view of one encoded instruction. The window may extend past
/// the instruction; only its first `op().len()` bytes belong to it.
#[derive(Clone, Copy)]
pub struct Inst<'a>(&'a [u8]);

impl<'a> Inst<'a> {
    #[verifier::type_invariant]
    pub open spec fn inv(self) -> bool {
        decodes(self@)
    }

    /// The bytes of the window.
    pub closed spec fn view(&self) -> Seq<u8> {
        self.0@
    }

    /// Accepts `data` if it starts with a whole instruction.
    pub fn try_from(data: &'a [u8]) -> (r: Result<Inst<'a>, DecodeError>)
        ensures
            match r {
                Ok(inst) => inst@ == data@ && decodes(data@),
                Err(DecodeError::UnknownOpcode) => data@.len() > 0 && Opcode::from_id(data@[0])
                    is None,
                Err(DecodeError::Truncated) => data@.len() == 0 || (Opcode::from_id(
                    data@[0],
                ) matches Some(op) && data@.len() < op.spec_len()),
            },
    {
        if data.len() == 0 {
            return Err(DecodeError::Truncated);
        }
        match Opcode::try_from(data[0]) {
            Ok(op) => {
                if data.len() < op.len() {
                    Err(DecodeError::Truncated)
                } else {
                    Ok(Inst(data))
                }
            },
            Err(_) => Err(DecodeError::UnknownOpcode),
        }
    }

    /// The bytes of the window.
    pub fn bytes(&self) -> (data: &'a [u8])
        ensures
            data@ == self@,
            decodes(self@),
    {
        proof {
            use_type_invariant(self);
        }
        self.0
    }

    pub fn op(&self) -> (op: Opcode)
        ensures
            decodes(self@),
            op == field_op(self@),
    {
        proof {
            use_type_invariant(self);
        }
        match Opcode::try_from(self.0[0]) {
            Ok(op) => op,
            Err(_) => {
                assert(false);
                Opcode::Nop
            },
        }
    }

    pub fn a(&self) -> (a: u8)
        ensures
            a == field_a(self@),
    {
        proof {
            use_type_invariant(self);
        }
        self.0[1]
    }

    pub fn b(&self) -> (b: u8)
        ensures
            b == field_b(self@),
    {
        proof {
            use_type_invariant(self);
        }
        self.0[2]
    }

    pub fn c(&self) -> (c: u8)
        ensures
            c == field_c(self@),
    {
        proof {
            use_type_invariant(self);
        }
        self.0[3]
    }

    pub fn d(&self) -> (d: i16)
        ensures
            d == field_d(self@),
    {
        let b = self.b();
        let c = self.c();
        le_i16(b, c)
    }

    pub fn e(&self) -> (e: i32)
        ensures
            e == field_e(self@),
            -0x80_0000 <= e < 0x80_0000,
    {
        let a = self.a();
        let b = self.b();
        let c = self.c();
        le_i24(a, b, c)
    }

    /// The auxiliary word. Only a window of 8 bytes or more has one; every
    /// instruction whose opcode `has_aux` does.
    pub fn adjacent(&self) -> (x: i32)
        requires
            self@.len() >= 8,
        ensures
            x == field_x(self@),
    {
        le_i32(self.0[4], self.0[5], self.0[6], self.0[7])
    }

    pub fn with_name(&self, name: OpName) -> (value: i32)
        requires
            name == OpName::X ==> self@.len() >= 8,
        ensures
            value == field(self@, name),
    {
        match name {
            OpName::A => self.a() as i32,
            OpName::B => self.b() as i32,
            OpName::C => self.c() as i32,
            OpName::D => self.d() as i32,
            OpName::E => self.e(),
            OpName::X => self.adjacent(),
        }
    }

    pub fn get_jump_target(start: u64, offset: i64) -> (target: u64)
        ensures
            target == jump_target(start, offset),
    {
        start.wrapping_add_signed(offset.wrapping_mul(4)).wrapping_add(4)
    }
}

fn le_i16(low: u8, high: u8) -> (value: i16)
    ensures
        value == signed16(low, high),
{
    let raw: i32 = low as i32 + 0x100 * (high as i32);
    if raw < 0x8000 {
        raw as i16
    } else {
        (raw - 0x1_0000) as i16
    }
}

fn le_i24(low: u8, mid: u8, high: u8) -> (value: i32)
    ensures
        value == signed24(low, mid, high),
{
    let raw: i32 = low as i32 + 0x100 * (mid as i32) + 0x1_0000 * (high as i32);
    if raw < 0x80_0000 {
        raw
    } else {
        raw - 0x100_0000
    }
}

fn le_i32(b0: u8, b1: u8, b2: u8, b3: u8) -> (value: i32)
    ensures
        value == signed32(b0, b1, b2, b3),
{
    let raw: i64 = b0 as i64 + 0x100 * (b1 as i64) + 0x1_0000 * (b2 as i64) + 0x100_0000 * (
    b3 as i64);
    if raw < 0x8000_0000 {
        raw as i32
    } else {
        (raw - 0x1_0000_0000) as i32
    }
}

/// The bytes `b`, `c` that make an instruction's operand `d` equal `d`.
pub fn split_d(d: i16) -> (bytes: (u8, u8))
    ensures
        bytes == d_bytes(d),
        signed16(bytes.0, bytes.1) == d,
{
    let raw: u32 = if d < 0 {
        (d as i32 + 0x1_0000) as u32
    } else {
        d as u32
    };
    ((raw % 0x100) as u8, (raw / 0x100) as u8)
}

/// The bytes `a`, `b`, `c` that make an instruction's operand `e` equal `e`,
/// where `e` has 24 bits.
pub fn split_e(e: i32) -> (bytes: (u8, u8, u8))
    ensures
        bytes == e_bytes(e),
        -0x80_0000 <= e < 0x80_0000 ==> signed24(bytes.0, bytes.1, bytes.2) == e,
{
    let raw: u64 = (e as i64 + 0x1_0000_0000) as u64 % 0x100_0000;
    ((raw % 0x100) as u8, ((raw / 0x100) % 0x100) as u8, (raw / 0x1_0000) as u8)
}

fn split_aux(x: i32) -> (bytes: (u8, u8, u8, u8))
    ensures
        seq![bytes.0, bytes.1, bytes.2, bytes.3] == aux_bytes(x),
{
    let raw: u64 = if x < 0 {
        (x as i64 + 0x1_0000_0000) as u64
    } else {
        x as u64
    };
    let bytes = (
        (raw % 0x100) as u8,
        ((raw / 0x100) % 0x100) as u8,
        ((raw / 0x1_0000) % 0x100) as u8,
        (raw / 0x100_0000) as u8,
    );
    assert(seq![bytes.0, bytes.1, bytes.2, bytes.3] =~= aux_bytes(x));
    bytes
}

/// Encodes one instruction. `aux` is written only where the opcode has an
/// auxiliary word.
pub fn encode(op: Opcode, a: u8, b: u8, c: u8, aux: i32) -> (bytes: Vec<u8>)
    ensures
        bytes@ == assemble(op, a, b, c, aux),
        bytes@.len() == op.spec_len(),
        decodes(bytes@),
{
    let mut bytes: Vec<u8> = Vec::new();
    bytes.push(op.to_byte());
    bytes.push(a);
    bytes.push(b);
    bytes.push(c);
    assert(bytes@ =~= seq![op.id(), a, b, c]);
    if op.len() == 8 {
        let word = split_aux(aux);
        bytes.push(word.0);
        bytes.push(word.1);
        bytes.push(word.2);
        bytes.push(word.3);
        assert(bytes@ =~= seq![op.id(), a, b, c] + seq![word.0, word.1, word.2, word.3]);
    }
    proof {
        Opcode::lemma_id_from_id(op, op.id());
    }
    bytes
}

/// Decoding an encoded instruction gives back the opcode and every operand
/// that went in, whatever follows the instruction in the window.
pub proof fn lemma_decode_encoded(op: Opcode, a: u8, b: u8, c: u8, aux: i32, rest: Seq<u8>)
    ensures
        ({
            let window = assemble(op, a, b, c, aux) + rest;
            &&& decodes(window)
            &&& field_op(window) == op
            &&& field_a(window) == a
            &&& field_b(window) == b
            &&& field_c(window) == c
            &&& op.has_aux() ==> field_x(window) == aux
        }),
{
    Opcode::lemma_id_from_id(op, op.id());
}

/// The operand `d` of an instruction encoded with the bytes `d_bytes(d)` is
/// `d`.
pub proof fn lemma_decode_encoded_d(op: Opcode, a: u8, d: i16, aux: i32, rest: Seq<u8>)
    ensures
        field_d(assemble(op, a, d_bytes(d).0, d_bytes(d).1, aux) + rest) == d,
{
}

/// The operand `e` of an instruction encoded with the bytes `e_bytes(e)` is
/// `e`, for every `e` of 24 bits.
pub proof fn lemma_decode_encoded_e(op: Opcode, e: i32, aux: i32, rest: Seq<u8>)
    requires
        -0x80_0000 <= e < 0x80_0000,
    ensures
        field_e(assemble(op, e_bytes(e).0, e_bytes(e).1, e_bytes(e).2, aux) + rest) == e,
{
}

} // verus!
