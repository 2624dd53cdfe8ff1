use super::associated::Register;
use super::text_builder::{
    boolean_tokens, built_in_tokens, constant_tokens, function_tokens, import_tokens, operand,
    padding_width, TextBuilder, Token,
};
use crate::decoder::inst::{
    decodes, field, field_a, field_b, field_c, field_d, field_e, field_op, field_x, jump_target,
    Inst,
};
use crate::decoder::opcode::{OpName, OpType, Opcode};
use crate::file::data::{Module, ModuleView, Value};
use vstd::prelude::*;

verus! {

/// The size in bytes of a stack slot, of a register and of an address.
pub const NUM_SIZE: usize = 8;

/// The length in bytes of the longest instruction.
pub const MAX_INSTR_LEN: usize = 8;

/// A fixed value that stands for a runtime value that is not a number.
#[derive(Clone, Copy, PartialEq, Eq, Structural, Debug)]
pub enum Sentinel {
    Nil,
    False,
    True,
}

#[derive(Clone, Copy, PartialEq, Eq, Structural, Debug)]
pub enum UnaryOp {
    /// Bitwise complement.
    Not,
    /// Two's complement negation.
    Neg,
}

/// Operators on two 8-byte values. Arithmetic is that of signed 64-bit
/// integers, division and remainder included, though the runtime's numbers
/// are doubles: the lifted form stands in for the operation and does not
/// compute what the machine would.
#[derive(Clone, Copy, PartialEq, Eq, Structural, Debug)]
pub enum BinaryOp {
    Add,
    Sub,
    Mul,
    DivSigned,
    ModSigned,
    Equal,
    NotEqual,
    SignedLess,
    SignedLessEqual,
    SignedGreater,
    SignedGreaterEqual,
}

/// An 8-byte value of the lifted form.
#[derive(PartialEq, Eq, Debug)]
pub enum Expr {
    Register(Register),
    Sentinel(Sentinel),
    /// An integer, or the bit pattern of a double.
    Const(u64),
    /// An address in the file.
    Pointer(u64),
    /// `size` bytes of memory from `address` on.
    Load { size: usize, address: Box<Expr> },
    Unary { operator: UnaryOp, operand: Box<Expr> },
    Binary { operation: BinaryOp, left: Box<Expr>, right: Box<Expr> },
}

/// One step of the lifted form of an instruction.
#[derive(PartialEq, Eq, Debug)]
pub enum Operation {
    Nop,
    Breakpoint,
    /// Writes the 8 bytes of `value` to memory at `address`.
    Store { address: Expr, value: Expr },
    Goto { target: u64 },
    /// Goes to `on_true` where `condition` is not zero, else to `on_false`.
    If { condition: Expr, on_true: u64, on_false: u64 },
    Return { value: Expr },
    /// The instruction has no lifted form: its opcode has none, or an operand
    /// could not be resolved. Analysis must not look through it.
    Unimplemented,
}

/// The address of stack slot `index`.
pub open spec fn stack_offset(index: u8) -> Expr {
    Expr::Binary {
        operation: BinaryOp::Add,
        left: Box::new(Expr::Register(Register::Stack)),
        right: Box::new(Expr::Const((index * 8) as u64)),
    }
}

/// The value of stack slot `index`.
pub open spec fn variable(index: u8) -> Expr {
    Expr::Load { size: 8, address: Box::new(stack_offset(index)) }
}

/// Stack slot `index` takes `value`.
pub open spec fn assign(index: u8, value: Expr) -> Operation {
    Operation::Store { address: stack_offset(index), value }
}

pub open spec fn unary(op: UnaryOp, operand: Expr) -> Expr {
    Expr::Unary { operator: op, operand: Box::new(operand) }
}

pub open spec fn binary(op: BinaryOp, left: Expr, right: Expr) -> Expr {
    Expr::Binary { operation: op, left: Box::new(left), right: Box::new(right) }
}

/// The 64-bit two's complement of a signed value.
pub open spec fn sign_extended(value: int) -> u64 {
    if value < 0 {
        (value + 0x1_0000_0000_0000_0000) as u64
    } else {
        value as u64
    }
}

/// What a constant lowers to, if anything: a sentinel, the bit pattern of a
/// number, the address of a string (0 for no string) or of a function's
/// first instruction. Imports and tables have no lowering, nor has a
/// constant that names a string or a function that the module lacks.
pub open spec fn constant_expr(value: Value, module: ModuleView) -> Option<Expr> {
    match value {
        Value::Nil => Some(Expr::Sentinel(Sentinel::Nil)),
        Value::False => Some(Expr::Sentinel(Sentinel::False)),
        Value::True => Some(Expr::Sentinel(Sentinel::True)),
        Value::Number(bits) => Some(Expr::Const(bits)),
        Value::String(index) => if index == 0 {
            Some(Expr::Pointer(0))
        } else {
            match module.string(index) {
                Some(range) => Some(Expr::Pointer(range.start as u64)),
                None => None,
            }
        },
        Value::Closure(index) => if index < module.functions.len() {
            Some(Expr::Pointer(module.functions[index as int].code.start as u64))
        } else {
            None
        },
        Value::Import(_) => None,
        Value::Table => None,
    }
}

/// The constant with the given index in the function that holds `addr`.
pub open spec fn constant_at(module: ModuleView, addr: u64, index: int) -> Option<Value> {
    match module.by_address(addr) {
        Some(function) => if 0 <= index < function.constants.len() {
            Some(function.constants[index])
        } else {
            None
        },
        None => None,
    }
}

/// What the constant operand `index` of an instruction at `addr` lowers to.
pub open spec fn resolved_constant(module: ModuleView, addr: u64, index: int) -> Option<Expr> {
    match constant_at(module, addr, index) {
        Some(value) => constant_expr(value, module),
        None => None,
    }
}

/// The operator of an arithmetic opcode, in both its forms.
pub open spec fn arithmetic_operator(op: Opcode) -> Option<BinaryOp> {
    match op {
        Opcode::Add | Opcode::AddConstant => Some(BinaryOp::Add),
        Opcode::Sub | Opcode::SubConstant => Some(BinaryOp::Sub),
        Opcode::Mul | Opcode::MulConstant => Some(BinaryOp::Mul),
        Opcode::Div | Opcode::DivConstant => Some(BinaryOp::DivSigned),
        Opcode::Mod | Opcode::ModConstant => Some(BinaryOp::ModSigned),
        _ => None,
    }
}

/// The comparison that a conditional jump between two operands makes.
pub open spec fn comparison_operator(op: Opcode) -> Option<BinaryOp> {
    match op {
        Opcode::JumpIfEqual | Opcode::JumpIfConstant => Some(BinaryOp::Equal),
        Opcode::JumpIfNotEqual | Opcode::JumpIfNotConstant => Some(BinaryOp::NotEqual),
        Opcode::JumpIfLessThan => Some(BinaryOp::SignedLess),
        Opcode::JumpIfLessEqual => Some(BinaryOp::SignedLessEqual),
        Opcode::JumpIfMoreThan => Some(BinaryOp::SignedGreater),
        Opcode::JumpIfMoreEqual => Some(BinaryOp::SignedGreaterEqual),
        _ => None,
    }
}

/// The offset, in words, from an instruction to the one that follows it.
pub open spec fn next_offset(op: Opcode) -> i64 {
    (op.spec_len() / 4 - 1) as i64
}

/// The target of the offset to the next instruction is the address behind
/// the instruction, whatever its length.
pub proof fn lemma_next_is_behind(addr: u64, op: Opcode)
    ensures
        jump_target(addr, next_offset(op)) == (addr + op.spec_len()) % 0x1_0000_0000_0000_0000,
{
}

/// A conditional jump of the instruction `bytes` at `addr`: to the target of
/// operand `d` where `condition` holds, else to the next instruction.
pub open spec fn branch(bytes: Seq<u8>, addr: u64, condition: Expr) -> Operation {
    Operation::If {
        condition,
        on_true: jump_target(addr, field_d(bytes) as i64),
        on_false: jump_target(addr, next_offset(field_op(bytes))),
    }
}

/// The lifted form of the instruction `bytes` at `addr`, where its opcode
/// has one and its operands resolve.
pub open spec fn semantics(bytes: Seq<u8>, addr: u64, module: ModuleView) -> Option<
    Seq<Operation>,
> {
    let op = field_op(bytes);
    let a = field_a(bytes);
    let b = field_b(bytes);
    let c = field_c(bytes);
    let d = field_d(bytes);
    let x = field_x(bytes);
    match op {
        Opcode::Nop => Some(seq![Operation::Nop]),
        Opcode::Break => Some(seq![Operation::Breakpoint]),
        Opcode::LoadNil => Some(seq![assign(a, Expr::Sentinel(Sentinel::Nil))]),
        Opcode::LoadBoolean => Some(
            seq![
                assign(
                    a,
                    Expr::Sentinel(
                        if b == 0 {
                            Sentinel::False
                        } else {
                            Sentinel::True
                        },
                    ),
                ),
                Operation::Goto { target: jump_target(addr, c as i64) },
            ],
        ),
        Opcode::LoadInteger => Some(seq![assign(a, Expr::Const(sign_extended(d as int)))]),
        Opcode::LoadConstant => match resolved_constant(module, addr, d as int) {
            Some(value) => Some(seq![assign(a, value)]),
            None => None,
        },
        Opcode::LoadConstantEx => match resolved_constant(module, addr, x as int) {
            Some(value) => Some(seq![assign(a, value)]),
            None => None,
        },
        Opcode::Move => Some(seq![assign(a, variable(b))]),
        Opcode::Return => if b == 0 {
            None
        } else {
            Some(
                seq![
                    Operation::Return {
                        value: Expr::Load {
                            size: ((b - 1) * 8) as usize,
                            address: Box::new(stack_offset(a)),
                        },
                    },
                ],
            )
        },
        Opcode::Jump | Opcode::JumpSafe => Some(
            seq![Operation::Goto { target: jump_target(addr, d as i64) }],
        ),
        Opcode::JumpEx => Some(
            seq![Operation::Goto { target: jump_target(addr, field_e(bytes) as i64) }],
        ),
        Opcode::JumpIfTruthy => Some(seq![branch(bytes, addr, variable(a))]),
        Opcode::JumpIfFalsy => Some(seq![branch(bytes, addr, unary(UnaryOp::Not, variable(a)))]),
        Opcode::JumpIfEqual
        | Opcode::JumpIfNotEqual
        | Opcode::JumpIfLessThan
        | Opcode::JumpIfLessEqual
        | Opcode::JumpIfMoreThan
        | Opcode::JumpIfMoreEqual => if 0 <= x <= u8::MAX {
            Some(
                seq![
                    branch(
                        bytes,
                        addr,
                        binary(comparison_operator(op).unwrap(), variable(a), variable(x as u8)),
                    ),
                ],
            )
        } else {
            None
        },
        Opcode::JumpIfConstant | Opcode::JumpIfNotConstant => match resolved_constant(
            module,
            addr,
            x as int,
        ) {
            Some(value) => Some(
                seq![
                    branch(
                        bytes,
                        addr,
                        binary(comparison_operator(op).unwrap(), variable(a), value),
                    ),
                ],
            ),
            None => None,
        },
        Opcode::Add | Opcode::Sub | Opcode::Mul | Opcode::Div | Opcode::Mod => Some(
            seq![assign(a, binary(arithmetic_operator(op).unwrap(), variable(b), variable(c)))],
        ),
        Opcode::AddConstant
        | Opcode::SubConstant
        | Opcode::MulConstant
        | Opcode::DivConstant
        | Opcode::ModConstant => match resolved_constant(module, addr, c as int) {
            Some(value) => Some(
                seq![assign(a, binary(arithmetic_operator(op).unwrap(), variable(b), value))],
            ),
            None => None,
        },
        Opcode::Not => Some(seq![assign(a, unary(UnaryOp::Not, variable(b)))]),
        Opcode::Minus => Some(seq![assign(a, unary(UnaryOp::Neg, variable(b)))]),
        _ => None,
    }
}

/// The lifted form of the instruction `bytes` at `addr`: its semantics, or
/// the single marker `Unimplemented`. It depends on nothing but the
/// instruction, its address and the module.
pub open spec fn lifted(bytes: Seq<u8>, addr: u64, module: ModuleView) -> Seq<Operation> {
    match semantics(bytes, addr, module) {
        Some(operations) => operations,
        None => seq![Operation::Unimplemented],
    }
}

pub fn get_stack_offset(index: u8) -> (address: Expr)
    ensures
        address == stack_offset(index),
{
    let offset = index as usize * NUM_SIZE;
    Expr::Binary {
        operation: BinaryOp::Add,
        left: Box::new(Expr::Register(Register::Stack)),
        right: Box::new(Expr::Const(offset as u64)),
    }
}

pub fn get_variable(index: u8) -> (value: Expr)
    ensures
        value == variable(index),
{
    let address = get_stack_offset(index);
    Expr::Load { size: NUM_SIZE, address: Box::new(address) }
}

pub fn set_variable(index: u8, value: Expr) -> (operation: Operation)
    ensures
        operation == assign(index, value),
{
    let address = get_stack_offset(index);
    Operation::Store { address, value }
}

pub fn set_to_sentinel(index: u8, value: Sentinel) -> (operation: Operation)
    ensures
        operation == assign(index, Expr::Sentinel(value)),
{
    set_variable(index, Expr::Sentinel(value))
}

/// The values of two stack slots, where both operands name one.
pub fn get_two_var_operands(op_1: u8, op_2: i32) -> (operands: Option<(Expr, Expr)>)
    ensures
        operands == if 0 <= op_2 <= u8::MAX {
            Some((variable(op_1), variable(op_2 as u8)))
        } else {
            None
        },
{
    if 0 <= op_2 && op_2 <= 255 {
        Some((get_variable(op_1), get_variable(op_2 as u8)))
    } else {
        None
    }
}

pub fn add_if_condition(decoder: Inst, addr: u64, condition: Expr) -> (operation: Operation)
    ensures
        operation == branch(decoder@, addr, condition),
{
    let next = (decoder.op().len() / 4 - 1) as i64;
    let on_true = Inst::get_jump_target(addr, decoder.d() as i64);
    let on_false = Inst::get_jump_target(addr, next);
    Operation::If { condition, on_true, on_false }
}

/// The constant at `index` in the function that holds `addr`. A negative
/// index names none.
pub fn get_value(addr: u64, index: i32, parent: &Module) -> (value: Option<Value>)
    ensures
        value == constant_at(parent@, addr, index as int),
{
    if index < 0 {
        return None;
    }
    match parent.by_address(addr) {
        Some(function) => {
            let list = function.constant_list();
            if (index as usize) < list.data.len() {
                Some(list.data[index as usize])
            } else {
                None
            }
        },
        None => None,
    }
}

pub fn get_as_constant(value: Value, parent: &Module) -> (lowered: Option<Expr>)
    ensures
        lowered == constant_expr(value, parent@),
{
    match value {
        Value::Nil => Some(Expr::Sentinel(Sentinel::Nil)),
        Value::False => Some(Expr::Sentinel(Sentinel::False)),
        Value::True => Some(Expr::Sentinel(Sentinel::True)),
        Value::Number(bits) => Some(Expr::Const(bits)),
        Value::String(index) => {
            if index == 0 {
                Some(Expr::Pointer(0))
            } else {
                let list = parent.string_list();
                if index - 1 < list.data.len() {
                    Some(Expr::Pointer(list.data[index - 1].start as u64))
                } else {
                    None
                }
            }
        },
        Value::Closure(index) => {
            let list = parent.function_list();
            if index < list.data.len() {
                Some(Expr::Pointer(list.data[index].code().start as u64))
            } else {
                None
            }
        },
        Value::Import(_) => None,
        Value::Table => None,
    }
}

/// What the constant operand `index` of an instruction at `addr` lowers to.
pub fn get_constant_operand(addr: u64, index: i32, parent: &Module) -> (lowered: Option<Expr>)
    ensures
        lowered == resolved_constant(parent@, addr, index as int),
{
    match get_value(addr, index, parent) {
        Some(value) => get_as_constant(value, parent),
        None => None,
    }
}

fn lift_constant_load(decoder: Inst, addr: u64, index: i32, parent: &Module) -> (operations: Option<
    Vec<Operation>,
>)
    ensures
        operations matches Some(list) ==> resolved_constant(parent@, addr, index as int)
            matches Some(value) && list@ == seq![assign(field_a(decoder@), value)],
        operations is None ==> resolved_constant(parent@, addr, index as int) is None,
{
    match get_constant_operand(addr, index, parent) {
        Some(value) => Some(vec![set_variable(decoder.a(), value)]),
        None => None,
    }
}

fn lift_arithmetic(decoder: Inst, operation: BinaryOp, right: Expr) -> (operations: Vec<Operation>)
    ensures
        operations@ == seq![
            assign(field_a(decoder@), binary(operation, variable(field_b(decoder@)), right)),
        ],
{
    let left = get_variable(decoder.b());
    let result = Expr::Binary { operation, left: Box::new(left), right: Box::new(right) };
    vec![set_variable(decoder.a(), result)]
}

fn lift_comparison(decoder: Inst, addr: u64, operation: BinaryOp, left: Expr, right: Expr) -> (operations:
    Vec<Operation>)
    ensures
        operations@ == seq![branch(decoder@, addr, binary(operation, left, right))],
{
    let condition = Expr::Binary { operation, left: Box::new(left), right: Box::new(right) };
    vec![add_if_condition(decoder, addr, condition)]
}

fn sign_extend(value: i64) -> (bits: u64)
    ensures
        bits == sign_extended(value as int),
{
    if value >= 0 {
        value as u64
    } else {
        let magnitude: u64 = (-(value + 1)) as u64;
        u64::MAX - magnitude
    }
}

fn arithmetic_of(op: Opcode) -> (operation: Option<BinaryOp>)
    ensures
        operation == arithmetic_operator(op),
{
    match op {
        Opcode::Add | Opcode::AddConstant => Some(BinaryOp::Add),
        Opcode::Sub | Opcode::SubConstant => Some(BinaryOp::Sub),
        Opcode::Mul | Opcode::MulConstant => Some(BinaryOp::Mul),
        Opcode::Div | Opcode::DivConstant => Some(BinaryOp::DivSigned),
        Opcode::Mod | Opcode::ModConstant => Some(BinaryOp::ModSigned),
        _ => None,
    }
}

fn comparison_of(op: Opcode) -> (operation: Option<BinaryOp>)
    ensures
        operation == comparison_operator(op),
{
    match op {
        Opcode::JumpIfEqual | Opcode::JumpIfConstant => Some(BinaryOp::Equal),
        Opcode::JumpIfNotEqual | Opcode::JumpIfNotConstant => Some(BinaryOp::NotEqual),
        Opcode::JumpIfLessThan => Some(BinaryOp::SignedLess),
        Opcode::JumpIfLessEqual => Some(BinaryOp::SignedLessEqual),
        Opcode::JumpIfMoreThan => Some(BinaryOp::SignedGreater),
        Opcode::JumpIfMoreEqual => Some(BinaryOp::SignedGreaterEqual),
        _ => None,
    }
}

/// The lifted form of one instruction where its opcode has one and its
/// operands resolve.
pub fn lift_defined(decoder: Inst, addr: u64, parent: &Module) -> (operations: Option<
    Vec<Operation>,
>)
    ensures
        match operations {
            Some(list) => semantics(decoder@, addr, parent@) == Some(list@),
            None => semantics(decoder@, addr, parent@) is None,
        },
{
    let op = decoder.op();
    match op {
        Opcode::Nop => Some(vec![Operation::Nop]),
        Opcode::Break => Some(vec![Operation::Breakpoint]),
        Opcode::LoadNil => Some(vec![set_to_sentinel(decoder.a(), Sentinel::Nil)]),
        Opcode::LoadBoolean => {
            let target = Inst::get_jump_target(addr, decoder.c() as i64);
            let value = if decoder.b() == 0 {
                Sentinel::False
            } else {
                Sentinel::True
            };
            Some(vec![set_to_sentinel(decoder.a(), value), Operation::Goto { target }])
        },
        Opcode::LoadInteger => {
            let value = sign_extend(decoder.d() as i64);
            Some(vec![set_variable(decoder.a(), Expr::Const(value))])
        },
        Opcode::LoadConstant => lift_constant_load(decoder, addr, decoder.d() as i32, parent),
        Opcode::LoadConstantEx => lift_constant_load(decoder, addr, decoder.adjacent(), parent),
        Opcode::Move => {
            let value = get_variable(decoder.b());
            Some(vec![set_variable(decoder.a(), value)])
        },
        Opcode::Return => {
            if decoder.b() == 0 {
                None
            } else {
                let start = get_stack_offset(decoder.a());
                let count = decoder.b() as usize - 1;
                let value = Expr::Load { size: count * NUM_SIZE, address: Box::new(start) };
                Some(vec![Operation::Return { value }])
            }
        },
        Opcode::Jump | Opcode::JumpSafe => {
            let target = Inst::get_jump_target(addr, decoder.d() as i64);
            Some(vec![Operation::Goto { target }])
        },
        Opcode::JumpEx => {
            let target = Inst::get_jump_target(addr, decoder.e() as i64);
            Some(vec![Operation::Goto { target }])
        },
        Opcode::JumpIfTruthy => {
            let condition = get_variable(decoder.a());
            Some(vec![add_if_condition(decoder, addr, condition)])
        },
        Opcode::JumpIfFalsy => {
            let variable = get_variable(decoder.a());
            let condition = Expr::Unary { operator: UnaryOp::Not, operand: Box::new(variable) };
            Some(vec![add_if_condition(decoder, addr, condition)])
        },
        Opcode::JumpIfEqual
        | Opcode::JumpIfNotEqual
        | Opcode::JumpIfLessThan
        | Opcode::JumpIfLessEqual
        | Opcode::JumpIfMoreThan
        | Opcode::JumpIfMoreEqual => {
            match (comparison_of(op), get_two_var_operands(decoder.a(), decoder.adjacent())) {
                (Some(operation), Some((left, right))) => Some(
                    lift_comparison(decoder, addr, operation, left, right),
                ),
                _ => None,
            }
        },
        Opcode::JumpIfConstant | Opcode::JumpIfNotConstant => {
            match (comparison_of(op), get_constant_operand(addr, decoder.adjacent(), parent)) {
                (Some(operation), Some(right)) => Some(
                    lift_comparison(decoder, addr, operation, get_variable(decoder.a()), right),
                ),
                _ => None,
            }
        },
        Opcode::Add | Opcode::Sub | Opcode::Mul | Opcode::Div | Opcode::Mod => {
            match arithmetic_of(op) {
                Some(operation) => Some(
                    lift_arithmetic(decoder, operation, get_variable(decoder.c())),
                ),
                None => None,
            }
        },
        Opcode::AddConstant
        | Opcode::SubConstant
        | Opcode::MulConstant
        | Opcode::DivConstant
        | Opcode::ModConstant => {
            match (arithmetic_of(op), get_constant_operand(addr, decoder.c() as i32, parent)) {
                (Some(operation), Some(right)) => Some(lift_arithmetic(decoder, operation, right)),
                _ => None,
            }
        },
        Opcode::Not => {
            let operand = get_variable(decoder.b());
            let result = Expr::Unary { operator: UnaryOp::Not, operand: Box::new(operand) };
            Some(vec![set_variable(decoder.a(), result)])
        },
        Opcode::Minus => {
            let operand = get_variable(decoder.b());
            let result = Expr::Unary { operator: UnaryOp::Neg, operand: Box::new(operand) };
            Some(vec![set_variable(decoder.a(), result)])
        },
        _ => None,
    }
}

/// Lifts one instruction. A gap, be it an opcode without semantics or an
/// operand that does not resolve, gives the single marker `Unimplemented`
/// and never fails the call.
pub fn lift(decoder: Inst, addr: u64, parent: &Module) -> (operations: Vec<Operation>)
    ensures
        operations@ == lifted(decoder@, addr, parent@),
{
    match lift_defined(decoder, addr, parent) {
        Some(operations) => operations,
        None => vec![Operation::Unimplemented],
    }
}

/// Decodes the instruction at the start of `data` and lifts it: its length
/// and its lifted form, or `None` where `data` does not start with an
/// instruction.
pub fn instruction_llil(data: &[u8], addr: u64, parent: &Module) -> (lifted_form: Option<
    (usize, Vec<Operation>),
>)
    ensures
        match lifted_form {
            Some((len, operations)) => {
                &&& decodes(data@)
                &&& len == field_op(data@).spec_len()
                &&& operations@ == lifted(data@, addr, parent@)
            },
            None => !decodes(data@),
        },
{
    match Inst::try_from(data) {
        Ok(decoder) => {
            let operations = lift(decoder, addr, parent);
            Some((decoder.op().len(), operations))
        },
        Err(_) => None,
    }
}

/// A way control may leave an instruction.
#[derive(Clone, Copy, PartialEq, Eq, Structural, Debug)]
pub enum BranchInfo {
    Unconditional(u64),
    ConditionalTrue(u64),
    ConditionalFalse(u64),
    /// A call whose target is not known from the instruction.
    Indirect,
    FunctionReturn,
}

/// The length of an instruction and the edges that leave it.
#[derive(PartialEq, Eq, Debug)]
pub struct InstructionInfo {
    pub length: usize,
    pub branches: Vec<BranchInfo>,
}

/// Whether the opcode jumps by its operand `d` or falls through.
pub open spec fn is_conditional(op: Opcode) -> bool {
    match op {
        Opcode::JumpIfTruthy
        | Opcode::JumpIfFalsy
        | Opcode::JumpIfEqual
        | Opcode::JumpIfNotEqual
        | Opcode::JumpIfLessThan
        | Opcode::JumpIfLessEqual
        | Opcode::JumpIfMoreThan
        | Opcode::JumpIfMoreEqual
        | Opcode::ForNumericPrep
        | Opcode::ForNumericLoop
        | Opcode::ForGenericLoop
        | Opcode::ForGenericPrepINext
        | Opcode::ForGenericLoopINext
        | Opcode::ForGenericPrepNext
        | Opcode::ForGenericLoopNext
        | Opcode::JumpIfConstant
        | Opcode::JumpIfNotConstant
        | Opcode::ForGenericPrep => true,
        _ => false,
    }
}

/// Whether the opcode tests the type of a value; the sign of its auxiliary
/// word then says which way the test goes.
pub open spec fn is_type_test(op: Opcode) -> bool {
    match op {
        Opcode::JumpIfNil | Opcode::JumpIfBoolean | Opcode::JumpIfNumber | Opcode::JumpIfString =>
            true,
        _ => false,
    }
}

pub open spec fn is_fast_call(op: Opcode) -> bool {
    match op {
        Opcode::FastCall | Opcode::FastCall1 | Opcode::FastCall2 | Opcode::FastCall2K => true,
        _ => false,
    }
}

/// The false edge and the true edge of a two-way instruction.
pub open spec fn two_way(on_false: u64, on_true: u64) -> Seq<BranchInfo> {
    seq![BranchInfo::ConditionalFalse(on_false), BranchInfo::ConditionalTrue(on_true)]
}

/// The edges that leave the instruction `bytes` at `addr`, in the order in
/// which they are reported. An instruction without an entry goes on to the
/// next one and nowhere else.
pub open spec fn branches(bytes: Seq<u8>, addr: u64) -> Seq<BranchInfo> {
    let op = field_op(bytes);
    let next = jump_target(addr, next_offset(op));
    let by_d = jump_target(addr, field_d(bytes) as i64);
    if op == Opcode::LoadBoolean {
        seq![BranchInfo::Unconditional(jump_target(addr, field_c(bytes) as i64))]
    } else if op == Opcode::Return {
        seq![BranchInfo::FunctionReturn]
    } else if op == Opcode::Jump || op == Opcode::JumpSafe {
        seq![BranchInfo::Unconditional(by_d)]
    } else if op == Opcode::JumpEx {
        seq![BranchInfo::Unconditional(jump_target(addr, field_e(bytes) as i64))]
    } else if is_conditional(op) {
        two_way(next, by_d)
    } else if is_type_test(op) {
        if field_x(bytes) < 0 {
            two_way(by_d, next)
        } else {
            two_way(next, by_d)
        }
    } else if is_fast_call(op) {
        seq![BranchInfo::Indirect] + two_way(next, jump_target(addr, (field_c(bytes) + 1) as i64))
    } else {
        Seq::empty()
    }
}

fn two_way_branches(on_false: u64, on_true: u64) -> (list: Vec<BranchInfo>)
    ensures
        list@ == two_way(on_false, on_true),
{
    vec![BranchInfo::ConditionalFalse(on_false), BranchInfo::ConditionalTrue(on_true)]
}

pub fn get_opt_instruction_info(decoder: Inst, addr: u64) -> (info: InstructionInfo)
    ensures
        info.length == field_op(decoder@).spec_len(),
        info.branches@ == branches(decoder@, addr),
{
    let op = decoder.op();
    let next = (op.len() / 4 - 1) as i64;
    let branches = match op {
        Opcode::LoadBoolean => {
            let target = Inst::get_jump_target(addr, decoder.c() as i64);
            vec![BranchInfo::Unconditional(target)]
        },
        Opcode::Return => vec![BranchInfo::FunctionReturn],
        Opcode::Jump | Opcode::JumpSafe => {
            let target = Inst::get_jump_target(addr, decoder.d() as i64);
            vec![BranchInfo::Unconditional(target)]
        },
        Opcode::JumpEx => {
            let target = Inst::get_jump_target(addr, decoder.e() as i64);
            vec![BranchInfo::Unconditional(target)]
        },
        Opcode::JumpIfTruthy
        | Opcode::JumpIfFalsy
        | Opcode::JumpIfEqual
        | Opcode::JumpIfNotEqual
        | Opcode::JumpIfLessThan
        | Opcode::JumpIfLessEqual
        | Opcode::JumpIfMoreThan
        | Opcode::JumpIfMoreEqual
        | Opcode::ForNumericPrep
        | Opcode::ForNumericLoop
        | Opcode::ForGenericLoop
        | Opcode::ForGenericPrepINext
        | Opcode::ForGenericLoopINext
        | Opcode::ForGenericPrepNext
        | Opcode::ForGenericLoopNext
        | Opcode::JumpIfConstant
        | Opcode::JumpIfNotConstant
        | Opcode::ForGenericPrep => {
            let on_false = Inst::get_jump_target(addr, next);
            let on_true = Inst::get_jump_target(addr, decoder.d() as i64);
            two_way_branches(on_false, on_true)
        },
        Opcode::JumpIfNil | Opcode::JumpIfBoolean | Opcode::JumpIfNumber | Opcode::JumpIfString => {
            let on_false = Inst::get_jump_target(addr, next);
            let on_true = Inst::get_jump_target(addr, decoder.d() as i64);
            if decoder.adjacent() < 0 {
                two_way_branches(on_true, on_false)
            } else {
                two_way_branches(on_false, on_true)
            }
        },
        Opcode::FastCall | Opcode::FastCall1 | Opcode::FastCall2 | Opcode::FastCall2K => {
            let on_false = Inst::get_jump_target(addr, next);
            let on_true = Inst::get_jump_target(addr, decoder.c() as i64 + 1);
            let list = vec![
                BranchInfo::Indirect,
                BranchInfo::ConditionalFalse(on_false),
                BranchInfo::ConditionalTrue(on_true),
            ];
            assert(list@ =~= seq![BranchInfo::Indirect] + two_way(on_false, on_true));
            list
        },
        _ => Vec::new(),
    };
    assert(branches@ =~= self::branches(decoder@, addr));
    InstructionInfo { length: op.len(), branches }
}

/// The length and the outgoing edges of the instruction at the start of
/// `data`, or `None` where `data` does not start with an instruction.
pub fn instruction_info(data: &[u8], addr: u64) -> (info: Option<InstructionInfo>)
    ensures
        match info {
            Some(info) => {
                &&& decodes(data@)
                &&& info.length == field_op(data@).spec_len()
                &&& info.branches@ == branches(data@, addr)
            },
            None => !decodes(data@),
        },
{
    match Inst::try_from(data) {
        Ok(decoder) => Some(get_opt_instruction_info(decoder, addr)),
        Err(_) => None,
    }
}

/// The 32 bits of a signed value, read as unsigned.
pub open spec fn reinterpreted(raw: i32) -> u32 {
    if raw < 0 {
        (raw + 0x1_0000_0000) as u32
    } else {
        raw as u32
    }
}

/// The text of one operand of the instruction `bytes` at `addr`: the raw
/// value of its field, shown as its type says. An operand has no text
/// where its value does not fit its type, or names what the module does
/// not hold.
pub open spec fn operand_tokens(
    bytes: Seq<u8>,
    addr: u64,
    parent: ModuleView,
    name: OpName,
    typ: OpType,
) -> Option<Seq<Token>> {
    let raw = field(bytes, name);
    match typ {
        OpType::Location => Some(
            operand(Token::Location { offset: raw as i64, target: jump_target(addr, raw as i64) }),
        ),
        OpType::Register => if 0 <= raw <= u8::MAX {
            Some(operand(Token::Register(raw as u8)))
        } else {
            None
        },
        OpType::UpValue => if 0 <= raw <= u8::MAX {
            Some(operand(Token::UpValue(raw as u8)))
        } else {
            None
        },
        OpType::Boolean => Some(boolean_tokens(raw != 0)),
        OpType::Integer => Some(operand(Token::Integer(raw))),
        OpType::Constant => match parent.by_address(addr) {
            Some(func) => if 0 <= raw < func.constants.len() {
                constant_tokens(func.constants[raw as int], func, parent)
            } else {
                None
            },
            None => None,
        },
        OpType::Function => match parent.by_address(addr) {
            Some(func) => if 0 <= raw < func.references.len() {
                function_tokens(func.references[raw as int], parent.functions)
            } else {
                None
            },
            None => None,
        },
        OpType::Import => match parent.by_address(addr) {
            Some(func) => import_tokens(reinterpreted(raw), func, parent),
            None => None,
        },
        OpType::BuiltIn => if 0 <= raw <= u8::MAX {
            built_in_tokens(raw as u8)
        } else {
            None
        },
    }
}

/// The text of the first `count` operands of a schema, one after the
/// other. An operand without text leaves the whole without text.
pub open spec fn operands_tokens(
    bytes: Seq<u8>,
    addr: u64,
    parent: ModuleView,
    operands: Seq<(OpName, OpType)>,
    count: nat,
) -> Option<Seq<Token>>
    decreases count,
{
    if count == 0 {
        Some(Seq::empty())
    } else {
        match operands_tokens(bytes, addr, parent, operands, (count - 1) as nat) {
            Some(front) => match operand_tokens(
                bytes,
                addr,
                parent,
                operands[count - 1].0,
                operands[count - 1].1,
            ) {
                Some(last) => Some(front + last),
                None => None,
            },
            None => None,
        }
    }
}

/// The mnemonic of an opcode and the spaces behind it.
pub open spec fn mnemonic_tokens(op: Opcode) -> Seq<Token> {
    seq![Token::Mnemonic(op), Token::Padding(padding_width(op.spec_mnemonic().len()))]
}

/// What the builder holds for the instruction `bytes` at `addr`: the
/// mnemonic, the padding, and every operand with a separator behind it.
pub open spec fn built_text(bytes: Seq<u8>, addr: u64, parent: ModuleView) -> Option<Seq<Token>> {
    let op = field_op(bytes);
    match operands_tokens(bytes, addr, parent, op.operands(), op.operands().len()) {
        Some(tokens) => Some(mnemonic_tokens(op) + tokens),
        None => None,
    }
}

/// The text of the instruction `bytes` at `addr`: what the builder holds
/// without its last token, which is the last separator or, where there is
/// no operand, the padding.
pub open spec fn text(bytes: Seq<u8>, addr: u64, parent: ModuleView) -> Option<Seq<Token>> {
    match built_text(bytes, addr, parent) {
        Some(tokens) => Some(tokens.drop_last()),
        None => None,
    }
}

proof fn lemma_operands_fail(
    bytes: Seq<u8>,
    addr: u64,
    parent: ModuleView,
    operands: Seq<(OpName, OpType)>,
    failed: nat,
    count: nat,
)
    requires
        failed <= count,
        operands_tokens(bytes, addr, parent, operands, failed) is None,
    ensures
        operands_tokens(bytes, addr, parent, operands, count) is None,
    decreases count,
{
    if failed < count {
        lemma_operands_fail(bytes, addr, parent, operands, failed, (count - 1) as nat);
    }
}

fn reinterpret(raw: i32) -> (bits: u32)
    ensures
        bits == reinterpreted(raw),
{
    if raw < 0 {
        (raw as i64 + 0x1_0000_0000) as u32
    } else {
        raw as u32
    }
}

fn byte_of(raw: i32) -> (byte: Option<u8>)
    ensures
        byte == if 0 <= raw <= u8::MAX {
            Some(raw as u8)
        } else {
            None
        },
{
    if 0 <= raw && raw <= 255 {
        Some(raw as u8)
    } else {
        None
    }
}

fn add_operand_text(
    builder: &mut TextBuilder,
    decoder: Inst,
    addr: u64,
    parent: &Module,
    name: OpName,
    typ: OpType,
) -> (outcome: Option<()>)
    requires
        name == OpName::X ==> decoder@.len() >= 8,
    ensures
        match operand_tokens(decoder@, addr, parent@, name, typ) {
            Some(tokens) => outcome is Some && final(builder)@ == old(builder)@ + tokens,
            None => outcome is None,
        },
{
    let raw = decoder.with_name(name);
    match typ {
        OpType::Location => {
            builder.add_location(addr, raw as i64);
            Some(())
        },
        OpType::Register => {
            builder.add_register(byte_of(raw)?);
            Some(())
        },
        OpType::UpValue => {
            builder.add_upvalue(byte_of(raw)?);
            Some(())
        },
        OpType::Boolean => {
            builder.add_boolean(raw != 0);
            Some(())
        },
        OpType::Integer => {
            builder.add_integer(raw);
            Some(())
        },
        OpType::Constant => {
            let func = parent.by_address(addr)?;
            let list = &func.constant_list().data;
            if raw < 0 || raw as usize >= list.len() {
                return None;
            }
            builder.add_constant(&list[raw as usize], func, parent)
        },
        OpType::Function => {
            let func = parent.by_address(addr)?;
            let list = &func.reference_list().data;
            if raw < 0 || raw as usize >= list.len() {
                return None;
            }
            builder.add_function(list[raw as usize], parent)
        },
        OpType::Import => {
            let func = parent.by_address(addr)?;
            builder.add_import(reinterpret(raw), func, parent)
        },
        OpType::BuiltIn => builder.add_built_in(byte_of(raw)?),
    }
}

pub fn get_opt_instruction_text(decoder: Inst, addr: u64, parent: &Module) -> (built: Option<
    TextBuilder,
>)
    ensures
        match built {
            Some(builder) => built_text(decoder@, addr, parent@) == Some(builder@),
            None => built_text(decoder@, addr, parent@) is None,
        },
{
    let opcode = decoder.op();
    let mut builder = TextBuilder::with_mnemonic(opcode);
    let operands = opcode.iter_operands();
    let mut done: usize = 0;
    proof {
        Opcode::lemma_aux_operand(opcode);
        assert(builder@ =~= mnemonic_tokens(opcode) + Seq::<Token>::empty());
    }
    while done < operands.len()
        invariant
            done <= operands.len(),
            operands@ == opcode.operands(),
            opcode == field_op(decoder@),
            decodes(decoder@),
            opcode.has_aux() <==> exists|i: int|
                0 <= i < opcode.operands().len() && (#[trigger] opcode.operands()[i]).0
                    == OpName::X,
            operands_tokens(decoder@, addr, parent@, operands@, done as nat) matches Some(tokens)
                && builder@ == mnemonic_tokens(opcode) + tokens,
        decreases operands.len() - done,
    {
        let (name, typ) = operands[done];
        let ghost front = operands_tokens(decoder@, addr, parent@, operands@, done as nat).unwrap();
        proof {
            if name == OpName::X {
                assert(opcode.operands()[done as int].0 == OpName::X);
            }
        }
        match add_operand_text(&mut builder, decoder, addr, parent, name, typ) {
            Some(_) => {
                proof {
                    let last = operand_tokens(decoder@, addr, parent@, name, typ).unwrap();
                    assert(builder@ =~= mnemonic_tokens(opcode) + (front + last));
                }
            },
            None => {
                proof {
                    assert(operands_tokens(decoder@, addr, parent@, operands@, (done + 1) as nat)
                        is None);
                    lemma_operands_fail(
                        decoder@,
                        addr,
                        parent@,
                        operands@,
                        (done + 1) as nat,
                        operands@.len(),
                    );
                }
                return None;
            },
        }
        done = done + 1;
    }
    Some(builder)
}

/// The length and the text of the instruction at the start of `data`, or
/// `None` where `data` does not start with an instruction or an operand
/// has no text.
pub fn instruction_text(data: &[u8], addr: u64, parent: &Module) -> (shown: Option<
    (usize, Vec<Token>),
>)
    ensures
        match shown {
            Some((len, tokens)) => {
                &&& decodes(data@)
                &&& len == field_op(data@).spec_len()
                &&& text(data@, addr, parent@) == Some(tokens@)
            },
            None => !decodes(data@) || text(data@, addr, parent@) is None,
        },
{
    let decoder = match Inst::try_from(data) {
        Ok(decoder) => decoder,
        Err(_) => {
            return None;
        },
    };
    let builder = get_opt_instruction_text(decoder, addr, parent)?;
    Some((decoder.op().len(), builder.into_tokens()))
}

/// An instruction whose constant operand names no constant of its function,
/// or that lies in no function, lifts to the marker alone. Nothing else
/// comes of it: what the lifted form of an instruction is depends on that
/// instruction, its address and the module, and on no instruction before
/// it.
pub proof fn lemma_unresolved_constant_is_unimplemented(
    bytes: Seq<u8>,
    addr: u64,
    parent: ModuleView,
)
    requires
        decodes(bytes),
        constant_operand(bytes) matches Some(index) && (parent.by_address(addr) matches Some(
            function,
        ) ==> !(0 <= index < function.constants.len())),
    ensures
        lifted(bytes, addr, parent) == seq![Operation::Unimplemented],
{
}

/// The constant index that an instruction carries, and in which field:
/// `d` for a load, `c` for arithmetic with a constant, the auxiliary word
/// for the rest. `None` for an opcode that is not lifted with a constant.
pub open spec fn constant_operand(bytes: Seq<u8>) -> Option<int> {
    match field_op(bytes) {
        Opcode::LoadConstant => Some(field_d(bytes) as int),
        Opcode::AddConstant
        | Opcode::SubConstant
        | Opcode::MulConstant
        | Opcode::DivConstant
        | Opcode::ModConstant => Some(field_c(bytes) as int),
        Opcode::LoadConstantEx | Opcode::JumpIfConstant | Opcode::JumpIfNotConstant => Some(
            field_x(bytes) as int,
        ),
        _ => None,
    }
}

/// Every register of the machine.
pub fn registers_all() -> (registers: Vec<Register>)
    ensures
        registers@ == seq![Register::Stack, Register::Return],
{
    vec![Register::Stack, Register::Return]
}

/// The registers that are not part of another: all of them.
pub fn registers_full_width() -> (registers: Vec<Register>)
    ensures
        registers@ == seq![Register::Stack, Register::Return],
{
    registers_all()
}

pub fn stack_pointer_reg() -> (register: Option<Register>)
    ensures
        register == Some(Register::Stack),
{
    Some(Register::Stack)
}

pub fn link_reg() -> (register: Option<Register>)
    ensures
        register == Some(Register::Return),
{
    Some(Register::Return)
}

/// The register with the given id, if there is one.
pub fn register_from_id(id: u32) -> (register: Option<Register>)
    ensures
        match register {
            Some(register) => register.spec_id() == id,
            None => id != Register::Stack.spec_id() && id != Register::Return.spec_id(),
        },
{
    if id > 255 {
        return None;
    }
    match Register::try_from(id as u8) {
        Ok(register) => Some(register),
        Err(_) => None,
    }
}

pub fn address_size() -> (size: usize)
    ensures
        size == NUM_SIZE,
{
    NUM_SIZE
}

pub fn default_integer_size() -> (size: usize)
    ensures
        size == NUM_SIZE,
{
    NUM_SIZE
}

/// Instructions are looked for at every byte.
pub fn instruction_alignment() -> (alignment: usize)
    ensures
        alignment == 1,
{
    1
}

/// No instruction is longer than this.
pub fn max_instr_len() -> (len: usize)
    ensures
        len == MAX_INSTR_LEN,
        forall|op: Opcode| op.spec_len() <= len,
{
    MAX_INSTR_LEN
}

pub fn opcode_display_len() -> (len: usize)
    ensures
        len == MAX_INSTR_LEN,
{
    max_instr_len()
}

/// How functions pass values: all on the stack of slots, none in
/// registers.
#[derive(Clone, Copy, PartialEq, Eq, Structural, Debug)]
pub struct CallingConvention;

impl CallingConvention {
    pub fn caller_saved_registers(&self) -> (registers: Vec<Register>)
        ensures
            registers@.len() == 0,
    {
        Vec::new()
    }

    pub fn callee_saved_registers(&self) -> (registers: Vec<Register>)
        ensures
            registers@.len() == 0,
    {
        Vec::new()
    }

    pub fn int_arg_registers(&self) -> (registers: Vec<Register>)
        ensures
            registers@.len() == 0,
    {
        Vec::new()
    }

    pub fn float_arg_registers(&self) -> (registers: Vec<Register>)
        ensures
            registers@.len() == 0,
    {
        Vec::new()
    }

    pub fn arg_registers_shared_index(&self) -> (shared: bool)
        ensures
            !shared,
    {
        false
    }

    pub fn reserved_stack_space_for_arg_registers(&self) -> (reserved: bool)
        ensures
            !reserved,
    {
        false
    }

    pub fn stack_adjusted_on_return(&self) -> (adjusted: bool)
        ensures
            !adjusted,
    {
        false
    }

    pub fn is_eligible_for_heuristics(&self) -> (eligible: bool)
        ensures
            eligible,
    {
        true
    }

    pub fn return_int_reg(&self) -> (register: Option<Register>)
        ensures
            register is None,
    {
        None
    }

    pub fn return_hi_int_reg(&self) -> (register: Option<Register>)
        ensures
            register is None,
    {
        None
    }

    pub fn return_float_reg(&self) -> (register: Option<Register>)
        ensures
            register is None,
    {
        None
    }

    pub fn global_pointer_reg(&self) -> (register: Option<Register>)
        ensures
            register is None,
    {
        None
    }

    pub fn implicitly_defined_registers(&self) -> (registers: Vec<Register>)
        ensures
            registers@.len() == 0,
    {
        Vec::new()
    }

    pub fn are_argument_registers_used_for_var_args(&self) -> (used: bool)
        ensures
            !used,
    {
        false
    }
}

} // verus!
