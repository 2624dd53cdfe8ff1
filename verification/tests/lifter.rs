use luau_lifter::backend::architecture::{
    get_as_constant, get_constant_operand, get_stack_offset, get_two_var_operands, get_value,
    get_variable, instruction_llil, lift, lift_defined, set_to_sentinel, set_variable, BinaryOp,
    Expr, Operation, Sentinel, UnaryOp,
};
use luau_lifter::backend::associated::Register;
use luau_lifter::decoder::inst::{encode, split_d, Inst};
use luau_lifter::decoder::opcode::{Opcode, OPCODE_COUNT};
use luau_lifter::file::data::{Module, Value};
use luau_lifter::file::parser::{encode_any_size, parse};

fn function_bytes(code: &[u8], constants: &[Vec<u8>]) -> Vec<u8> {
    let mut out = vec![0, 0, 0, 0];
    out.extend(encode_any_size(code.len() / 4));
    out.extend_from_slice(code);
    out.extend(encode_any_size(constants.len()));
    for constant in constants {
        out.extend_from_slice(constant);
    }
    out.extend_from_slice(&[0, 0, 0, 0, 0]);
    out
}

fn module_bytes(strings: &[&[u8]], functions: &[Vec<u8>]) -> Vec<u8> {
    let mut out = vec![3];
    out.extend(encode_any_size(strings.len()));
    for string in strings {
        out.extend(encode_any_size(string.len()));
        out.extend_from_slice(string);
    }
    out.extend(encode_any_size(functions.len()));
    for function in functions {
        out.extend_from_slice(function);
    }
    out.push(0);
    out
}

fn number(value: f64) -> Vec<u8> {
    let mut out = vec![2];
    out.extend_from_slice(&value.to_bits().to_le_bytes());
    out
}

/// A module of one function whose code is `code`, two strings and the
/// constants nil, false, true, 2.5, "ab", no string, closure 0, an import,
/// a table, a string and a closure that the module lacks.
fn sample(code: &[u8]) -> (Vec<u8>, Module) {
    let constants = vec![
        vec![0],
        vec![1, 0],
        vec![1, 1],
        number(2.5),
        vec![3, 2],
        vec![3, 0],
        vec![6, 0],
        vec![4, 1, 0, 0, 0x40],
        vec![5, 0],
        vec![3, 3],
        vec![6, 1],
    ];
    let bytes = module_bytes(&[b"x", b"ab"], &[function_bytes(code, &constants)]);
    let module = parse(&bytes).expect("a module");
    (bytes, module)
}

fn slot_address(index: u8) -> Expr {
    Expr::Binary {
        operation: BinaryOp::Add,
        left: Box::new(Expr::Register(Register::Stack)),
        right: Box::new(Expr::Const(8 * index as u64)),
    }
}

fn slot(index: u8) -> Expr {
    Expr::Load { size: 8, address: Box::new(slot_address(index)) }
}

fn store(index: u8, value: Expr) -> Operation {
    Operation::Store { address: slot_address(index), value }
}

fn binary(operation: BinaryOp, left: Expr, right: Expr) -> Expr {
    Expr::Binary { operation, left: Box::new(left), right: Box::new(right) }
}

fn lift_at(module: &Module, addr: u64, window: &[u8]) -> Vec<Operation> {
    let (len, operations) = instruction_llil(window, addr, module).expect("an instruction");
    assert_eq!(len, Inst::try_from(window).unwrap().op().len());
    operations
}

fn lift_one(op: Opcode, a: u8, b: u8, c: u8, aux: i32) -> Vec<Operation> {
    let (_, module) = sample(&[0, 0, 0, 0]);
    let addr = module.function_list().data[0].code().start as u64;
    lift_at(&module, addr, &encode(op, a, b, c, aux))
}

#[test]
fn helpers_build_slots() {
    assert_eq!(get_stack_offset(0), slot_address(0));
    assert_eq!(get_stack_offset(255), slot_address(255));
    assert_eq!(
        get_stack_offset(3),
        Expr::Binary {
            operation: BinaryOp::Add,
            left: Box::new(Expr::Register(Register::Stack)),
            right: Box::new(Expr::Const(24)),
        }
    );
    assert_eq!(get_variable(7), Expr::Load { size: 8, address: Box::new(slot_address(7)) });
    assert_eq!(
        set_variable(2, Expr::Const(9)),
        Operation::Store { address: slot_address(2), value: Expr::Const(9) }
    );
    assert_eq!(set_to_sentinel(1, Sentinel::True), store(1, Expr::Sentinel(Sentinel::True)));
    assert_eq!(get_two_var_operands(1, 2), Some((slot(1), slot(2))));
    assert_eq!(get_two_var_operands(1, 255), Some((slot(1), slot(255))));
    assert_eq!(get_two_var_operands(1, 256), None);
    assert_eq!(get_two_var_operands(1, -1), None);
}

#[test]
fn nop_and_break() {
    assert_eq!(lift_one(Opcode::Nop, 0, 0, 0, 0), vec![Operation::Nop]);
    assert_eq!(lift_one(Opcode::Break, 0, 0, 0, 0), vec![Operation::Breakpoint]);
}

#[test]
fn loads_of_sentinels_and_integers() {
    assert_eq!(lift_one(Opcode::LoadNil, 4, 0, 0, 0), vec![store(4, Expr::Sentinel(Sentinel::Nil))]);
    assert_eq!(
        lift_one(Opcode::LoadInteger, 1, 0x34, 0x12, 0),
        vec![store(1, Expr::Const(0x1234))]
    );
    assert_eq!(
        lift_one(Opcode::LoadInteger, 1, 0xfe, 0xff, 0),
        vec![store(1, Expr::Const(0xffff_ffff_ffff_fffe))]
    );
    assert_eq!(
        lift_one(Opcode::LoadInteger, 1, 0x00, 0x80, 0),
        vec![store(1, Expr::Const(0xffff_ffff_ffff_8000))]
    );
}

#[test]
fn load_boolean_stores_and_jumps() {
    let (_, module) = sample(&[0, 0, 0, 0]);
    assert_eq!(
        lift_at(&module, 100, &encode(Opcode::LoadBoolean, 2, 0, 0, 0)),
        vec![store(2, Expr::Sentinel(Sentinel::False)), Operation::Goto { target: 104 }]
    );
    assert_eq!(
        lift_at(&module, 100, &encode(Opcode::LoadBoolean, 2, 1, 3, 0)),
        vec![store(2, Expr::Sentinel(Sentinel::True)), Operation::Goto { target: 116 }]
    );
    assert_eq!(
        lift_at(&module, 100, &encode(Opcode::LoadBoolean, 2, 77, 255, 0)),
        vec![store(2, Expr::Sentinel(Sentinel::True)), Operation::Goto { target: 100 + 255 * 4 + 4 }]
    );
}

#[test]
fn move_copies_a_slot() {
    assert_eq!(lift_one(Opcode::Move, 1, 2, 0, 0), vec![store(1, slot(2))]);
}

#[test]
fn constants_resolve() {
    let (_, module) = sample(&[0, 0, 0, 0]);
    let strings = &module.string_list().data;
    let code_start = module.function_list().data[0].code().start as u64;
    assert_eq!(get_as_constant(Value::Nil, &module), Some(Expr::Sentinel(Sentinel::Nil)));
    assert_eq!(get_as_constant(Value::False, &module), Some(Expr::Sentinel(Sentinel::False)));
    assert_eq!(get_as_constant(Value::True, &module), Some(Expr::Sentinel(Sentinel::True)));
    assert_eq!(
        get_as_constant(Value::Number(2.5f64.to_bits()), &module),
        Some(Expr::Const(0x4004_0000_0000_0000))
    );
    assert_eq!(get_as_constant(Value::String(0), &module), Some(Expr::Pointer(0)));
    assert_eq!(
        get_as_constant(Value::String(1), &module),
        Some(Expr::Pointer(strings[0].start as u64))
    );
    assert_eq!(
        get_as_constant(Value::String(2), &module),
        Some(Expr::Pointer(strings[1].start as u64))
    );
    assert_eq!(get_as_constant(Value::String(3), &module), None);
    assert_eq!(get_as_constant(Value::String(usize::MAX), &module), None);
    assert_eq!(get_as_constant(Value::Closure(0), &module), Some(Expr::Pointer(code_start)));
    assert_eq!(get_as_constant(Value::Closure(1), &module), None);
    assert_eq!(get_as_constant(Value::Import(0), &module), None);
    assert_eq!(get_as_constant(Value::Table, &module), None);
}

#[test]
fn constants_are_found_by_address_and_index() {
    let (_, module) = sample(&[0, 0, 0, 0]);
    let position = module.function_list().data[0].position();
    let inside = position.start as u64;
    assert_eq!(get_value(inside, 0, &module), Some(Value::Nil));
    assert_eq!(get_value(inside, 3, &module), Some(Value::Number(2.5f64.to_bits())));
    assert_eq!(get_value(position.end as u64 - 1, 10, &module), Some(Value::Closure(1)));
    assert_eq!(get_value(inside, 11, &module), None);
    assert_eq!(get_value(inside, -1, &module), None);
    assert_eq!(get_value(position.end as u64, 0, &module), None);
    assert_eq!(get_value(0, 0, &module), None);
    assert_eq!(get_constant_operand(inside, 2, &module), Some(Expr::Sentinel(Sentinel::True)));
    assert_eq!(get_constant_operand(inside, 7, &module), None);
    assert_eq!(get_constant_operand(inside, 11, &module), None);
}

#[test]
fn load_constant_of_every_kind() {
    let (_, module) = sample(&[0, 0, 0, 0]);
    let addr = module.function_list().data[0].code().start as u64;
    let strings = &module.string_list().data;
    let load = |index: u8| lift_at(&module, addr, &encode(Opcode::LoadConstant, 9, index, 0, 0));
    assert_eq!(load(0), vec![store(9, Expr::Sentinel(Sentinel::Nil))]);
    assert_eq!(load(1), vec![store(9, Expr::Sentinel(Sentinel::False))]);
    assert_eq!(load(2), vec![store(9, Expr::Sentinel(Sentinel::True))]);
    assert_eq!(load(3), vec![store(9, Expr::Const(2.5f64.to_bits()))]);
    assert_eq!(load(4), vec![store(9, Expr::Pointer(strings[1].start as u64))]);
    assert_eq!(load(5), vec![store(9, Expr::Pointer(0))]);
    assert_eq!(load(6), vec![store(9, Expr::Pointer(addr))]);
    assert_eq!(load(7), vec![Operation::Unimplemented]);
    assert_eq!(load(8), vec![Operation::Unimplemented]);
    assert_eq!(load(9), vec![Operation::Unimplemented]);
    assert_eq!(load(10), vec![Operation::Unimplemented]);
    assert_eq!(load(11), vec![Operation::Unimplemented]);
}

#[test]
fn load_constant_with_a_negative_index_is_unimplemented() {
    let (b, c) = split_d(-1);
    assert_eq!(lift_one(Opcode::LoadConstant, 0, b, c, 0), vec![Operation::Unimplemented]);
}

#[test]
fn load_constant_outside_every_function_is_unimplemented() {
    let (_, module) = sample(&[0, 0, 0, 0]);
    let window = encode(Opcode::LoadConstant, 0, 0, 0, 0);
    assert_eq!(lift_at(&module, 0, &window), vec![Operation::Unimplemented]);
    assert_eq!(lift_at(&module, 1 << 40, &window), vec![Operation::Unimplemented]);
}

#[test]
fn load_constant_ex_takes_the_index_from_the_auxiliary_word() {
    assert_eq!(
        lift_one(Opcode::LoadConstantEx, 3, 0, 0, 2),
        vec![store(3, Expr::Sentinel(Sentinel::True))]
    );
    assert_eq!(lift_one(Opcode::LoadConstantEx, 3, 0, 0, 11), vec![Operation::Unimplemented]);
    assert_eq!(lift_one(Opcode::LoadConstantEx, 3, 0, 0, -1), vec![Operation::Unimplemented]);
    assert_eq!(lift_one(Opcode::LoadConstantEx, 3, 0, 0, i32::MIN), vec![Operation::Unimplemented]);
}

#[test]
fn return_of_unknown_count_is_unimplemented() {
    assert_eq!(lift_one(Opcode::Return, 5, 0, 0, 0), vec![Operation::Unimplemented]);
}

#[test]
fn return_gives_a_span_of_slots() {
    assert_eq!(
        lift_one(Opcode::Return, 5, 3, 0, 0),
        vec![Operation::Return {
            value: Expr::Load { size: 16, address: Box::new(slot_address(5)) }
        }]
    );
    assert_eq!(
        lift_one(Opcode::Return, 0, 1, 0, 0),
        vec![Operation::Return { value: Expr::Load { size: 0, address: Box::new(slot_address(0)) } }]
    );
    assert_eq!(
        lift_one(Opcode::Return, 1, 255, 0, 0),
        vec![Operation::Return {
            value: Expr::Load { size: 254 * 8, address: Box::new(slot_address(1)) }
        }]
    );
}

#[test]
fn unconditional_jumps() {
    let (_, module) = sample(&[0, 0, 0, 0]);
    let (b, c) = split_d(-3);
    assert_eq!(
        lift_at(&module, 1000, &encode(Opcode::Jump, 0, b, c, 0)),
        vec![Operation::Goto { target: 992 }]
    );
    assert_eq!(
        lift_at(&module, 1000, &encode(Opcode::JumpSafe, 0, 2, 0, 0)),
        vec![Operation::Goto { target: 1012 }]
    );
    // the 24-bit operand: -2 words
    assert_eq!(
        lift_at(&module, 1000, &encode(Opcode::JumpEx, 0xfe, 0xff, 0xff, 0)),
        vec![Operation::Goto { target: 996 }]
    );
    assert_eq!(
        lift_at(&module, 1000, &encode(Opcode::JumpEx, 0, 0, 1, 0)),
        vec![Operation::Goto { target: 1000 + 65536 * 4 + 4 }]
    );
}

#[test]
fn jumps_on_truthiness() {
    let (_, module) = sample(&[0, 0, 0, 0]);
    assert_eq!(
        lift_at(&module, 200, &encode(Opcode::JumpIfTruthy, 4, 5, 0, 0)),
        vec![Operation::If { condition: slot(4), on_true: 224, on_false: 204 }]
    );
    assert_eq!(
        lift_at(&module, 200, &encode(Opcode::JumpIfFalsy, 4, 0xff, 0xff, 0)),
        vec![Operation::If {
            condition: Expr::Unary { operator: UnaryOp::Not, operand: Box::new(slot(4)) },
            on_true: 200,
            on_false: 204,
        }]
    );
}

#[test]
fn jumps_on_comparison_fall_through_behind_the_auxiliary_word() {
    let (_, module) = sample(&[0, 0, 0, 0]);
    let cases = [
        (Opcode::JumpIfEqual, BinaryOp::Equal),
        (Opcode::JumpIfNotEqual, BinaryOp::NotEqual),
        (Opcode::JumpIfLessThan, BinaryOp::SignedLess),
        (Opcode::JumpIfLessEqual, BinaryOp::SignedLessEqual),
        (Opcode::JumpIfMoreThan, BinaryOp::SignedGreater),
        (Opcode::JumpIfMoreEqual, BinaryOp::SignedGreaterEqual),
    ];
    for (op, operation) in cases {
        assert_eq!(
            lift_at(&module, 400, &encode(op, 1, 10, 0, 2)),
            vec![Operation::If {
                condition: binary(operation, slot(1), slot(2)),
                on_true: 444,
                on_false: 408,
            }]
        );
        assert_eq!(lift_at(&module, 400, &encode(op, 1, 10, 0, 256)), vec![Operation::Unimplemented]);
        assert_eq!(lift_at(&module, 400, &encode(op, 1, 10, 0, -1)), vec![Operation::Unimplemented]);
    }
}

#[test]
fn jumps_on_comparison_with_a_constant() {
    let (_, module) = sample(&[0, 0, 0, 0]);
    let addr = module.function_list().data[0].code().start as u64;
    assert_eq!(
        lift_at(&module, addr, &encode(Opcode::JumpIfConstant, 1, 1, 0, 3)),
        vec![Operation::If {
            condition: binary(BinaryOp::Equal, slot(1), Expr::Const(2.5f64.to_bits())),
            on_true: addr + 8,
            on_false: addr + 8,
        }]
    );
    assert_eq!(
        lift_at(&module, addr, &encode(Opcode::JumpIfNotConstant, 1, 0, 0, 0)),
        vec![Operation::If {
            condition: binary(BinaryOp::NotEqual, slot(1), Expr::Sentinel(Sentinel::Nil)),
            on_true: addr + 4,
            on_false: addr + 8,
        }]
    );
    assert_eq!(
        lift_at(&module, addr, &encode(Opcode::JumpIfConstant, 1, 0, 0, 8)),
        vec![Operation::Unimplemented]
    );
    assert_eq!(
        lift_at(&module, addr, &encode(Opcode::JumpIfNotConstant, 1, 0, 0, 99)),
        vec![Operation::Unimplemented]
    );
}

#[test]
fn arithmetic_between_slots() {
    let cases = [
        (Opcode::Add, BinaryOp::Add),
        (Opcode::Sub, BinaryOp::Sub),
        (Opcode::Mul, BinaryOp::Mul),
        (Opcode::Div, BinaryOp::DivSigned),
        (Opcode::Mod, BinaryOp::ModSigned),
    ];
    for (op, operation) in cases {
        assert_eq!(
            lift_one(op, 1, 2, 3, 0),
            vec![store(1, binary(operation, slot(2), slot(3)))]
        );
    }
}

#[test]
fn arithmetic_with_a_constant() {
    let cases = [
        (Opcode::AddConstant, BinaryOp::Add),
        (Opcode::SubConstant, BinaryOp::Sub),
        (Opcode::MulConstant, BinaryOp::Mul),
        (Opcode::DivConstant, BinaryOp::DivSigned),
        (Opcode::ModConstant, BinaryOp::ModSigned),
    ];
    for (op, operation) in cases {
        assert_eq!(
            lift_one(op, 1, 2, 3, 0),
            vec![store(1, binary(operation, slot(2), Expr::Const(2.5f64.to_bits())))]
        );
        assert_eq!(lift_one(op, 1, 2, 8, 0), vec![Operation::Unimplemented]);
        assert_eq!(lift_one(op, 1, 2, 200, 0), vec![Operation::Unimplemented]);
    }
}

#[test]
fn unary_operations() {
    assert_eq!(
        lift_one(Opcode::Not, 1, 2, 0, 0),
        vec![store(1, Expr::Unary { operator: UnaryOp::Not, operand: Box::new(slot(2)) })]
    );
    assert_eq!(
        lift_one(Opcode::Minus, 1, 2, 0, 0),
        vec![store(1, Expr::Unary { operator: UnaryOp::Neg, operand: Box::new(slot(2)) })]
    );
}

#[test]
fn every_other_opcode_is_unimplemented() {
    let lifted = [
        Opcode::Nop,
        Opcode::Break,
        Opcode::LoadNil,
        Opcode::LoadBoolean,
        Opcode::LoadInteger,
        Opcode::LoadConstant,
        Opcode::Move,
        Opcode::Return,
        Opcode::Jump,
        Opcode::JumpSafe,
        Opcode::JumpIfTruthy,
        Opcode::JumpIfFalsy,
        Opcode::JumpIfEqual,
        Opcode::JumpIfLessEqual,
        Opcode::JumpIfLessThan,
        Opcode::JumpIfNotEqual,
        Opcode::JumpIfMoreThan,
        Opcode::JumpIfMoreEqual,
        Opcode::Add,
        Opcode::Sub,
        Opcode::Mul,
        Opcode::Div,
        Opcode::Mod,
        Opcode::AddConstant,
        Opcode::SubConstant,
        Opcode::MulConstant,
        Opcode::DivConstant,
        Opcode::ModConstant,
        Opcode::Not,
        Opcode::Minus,
        Opcode::LoadConstantEx,
        Opcode::JumpEx,
        Opcode::JumpIfConstant,
        Opcode::JumpIfNotConstant,
    ];
    let (_, module) = sample(&[0, 0, 0, 0]);
    let addr = module.function_list().data[0].code().start as u64;
    for byte in 0..OPCODE_COUNT {
        let op = Opcode::try_from(byte).unwrap();
        let window = encode(op, 1, 1, 0, 1);
        let decoder = Inst::try_from(&window[..]).unwrap();
        let operations = lift(decoder, addr, &module);
        if lifted.contains(&op) {
            assert_ne!(operations, vec![Operation::Unimplemented], "{:?}", op);
            assert_eq!(lift_defined(decoder, addr, &module), Some(operations));
        } else {
            assert_eq!(operations, vec![Operation::Unimplemented], "{:?}", op);
            assert_eq!(lift_defined(decoder, addr, &module), None);
        }
    }
}

#[test]
fn window_that_is_no_instruction_is_not_lifted() {
    let (_, module) = sample(&[0, 0, 0, 0]);
    assert_eq!(instruction_llil(&[], 0, &module), None);
    assert_eq!(instruction_llil(&[6, 0, 0], 0, &module), None);
    assert_eq!(instruction_llil(&[7, 0, 0, 0], 0, &module), None);
    assert_eq!(instruction_llil(&[200, 0, 0, 0], 0, &module), None);
    assert_eq!(instruction_llil(&[0, 0, 0, 0], 0, &module), Some((4, vec![Operation::Nop])));
    assert_eq!(
        instruction_llil(&[7, 0, 0, 0, 0, 0, 0, 0], 0, &module),
        Some((8, vec![Operation::Unimplemented]))
    );
}

#[test]
fn out_of_range_constant_is_unimplemented_and_the_next_instruction_lifts() {
    let mut code = encode(Opcode::LoadConstant, 1, 200, 0, 0);
    code.extend(encode(Opcode::LoadConstant, 2, 2, 0, 0));
    code.extend(encode(Opcode::Move, 3, 2, 0, 0));
    let (bytes, module) = sample(&code);
    let range = module.function_list().data[0].code();
    assert_eq!(&bytes[range.start..range.end], &code[..]);
    let mut addr = range.start;
    let mut lifted = Vec::new();
    while addr < range.end {
        let (len, operations) =
            instruction_llil(&bytes[addr..range.end], addr as u64, &module).unwrap();
        lifted.push(operations);
        addr += len;
    }
    assert_eq!(
        lifted,
        vec![
            vec![Operation::Unimplemented],
            vec![store(2, Expr::Sentinel(Sentinel::True))],
            vec![store(3, slot(2))],
        ]
    );
}

#[test]
fn closure_constant_lifts_to_the_code_start_of_the_function_it_names() {
    let first = function_bytes(&encode(Opcode::LoadConstant, 0, 0, 0, 0), &[vec![6, 1]]);
    let mut second_code = encode(Opcode::LoadNil, 0, 0, 0, 0);
    second_code.extend(encode(Opcode::Return, 0, 2, 0, 0));
    let second = function_bytes(&second_code, &[]);
    let bytes = module_bytes(&[], &[first, second]);
    let module = parse(&bytes).unwrap();
    let functions = &module.function_list().data;
    assert_eq!(functions.len(), 2);
    let code = functions[0].code();
    let target = functions[1].code().start as u64;
    assert_ne!(target, functions[1].position().start as u64);
    assert_eq!(&bytes[target as usize..target as usize + 4], &[2, 0, 0, 0]);
    let lifted = instruction_llil(&bytes[code.start..code.end], code.start as u64, &module);
    assert_eq!(lifted, Some((4, vec![store(0, Expr::Pointer(target))])));
}
