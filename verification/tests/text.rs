use luau_lifter::backend::architecture::{get_opt_instruction_text, instruction_text};
use luau_lifter::backend::text_builder::{
    new_padding_for, padding_width_for, Delimiter, Keyword, TextBuilder, Token,
};
use luau_lifter::decoder::import::pack;
use luau_lifter::decoder::inst::{encode, split_d, Inst};
use luau_lifter::decoder::opcode::Opcode;
use luau_lifter::file::data::{Module, Range, Value};
use luau_lifter::file::parser::{encode_any_size, parse};
use luau_lifter::instruction::builtin::BuiltIn;

fn function_bytes(code: &[u8], constants: &[Vec<u8>], references: &[usize]) -> Vec<u8> {
    let mut out = vec![0, 0, 0, 0];
    out.extend(encode_any_size(code.len() / 4));
    out.extend_from_slice(code);
    out.extend(encode_any_size(constants.len()));
    for constant in constants {
        out.extend_from_slice(constant);
    }
    out.extend(encode_any_size(references.len()));
    for reference in references {
        out.extend(encode_any_size(*reference));
    }
    out.extend_from_slice(&[0, 0, 0, 0]);
    out
}

fn import(indices: &[usize]) -> Vec<u8> {
    let mut out = vec![4];
    out.extend_from_slice(&pack(indices).unwrap().to_le_bytes());
    out
}

/// One function with the constants: "game", "Workspace", the import of
/// both, nil, a table, an import of itself, an import of the import
/// before the nil, an import of a constant that is not there.
fn sample() -> Module {
    let constants = vec![
        vec![3, 1],
        vec![3, 2],
        import(&[0, 1]),
        vec![0],
        vec![5, 0],
        import(&[5]),
        import(&[2, 3]),
        import(&[0, 9]),
    ];
    let function = function_bytes(&[0; 8], &constants, &[1, 0, 7]);
    let other = function_bytes(&[0; 4], &[], &[]);
    let mut bytes = vec![3, 2, 4];
    bytes.extend_from_slice(b"game");
    bytes.push(9);
    bytes.extend_from_slice(b"Workspace");
    bytes.push(2);
    bytes.extend(function);
    bytes.extend(other);
    bytes.push(0);
    parse(&bytes).expect("a module")
}

fn string_tokens(index: usize, address: u64) -> Vec<Token> {
    vec![
        Token::Begin(Delimiter::Bracket),
        Token::String { index, address },
        Token::End(Delimiter::Bracket),
        Token::Separator,
    ]
}

fn function_tokens(index: usize, address: u64) -> Vec<Token> {
    vec![
        Token::Begin(Delimiter::Bracket),
        Token::Function { index, address },
        Token::End(Delimiter::Bracket),
        Token::Separator,
    ]
}

fn text_of(module: &Module, addr: u64, window: &[u8]) -> Option<Vec<Token>> {
    let (len, tokens) = instruction_text(window, addr, module)?;
    assert_eq!(len, Inst::try_from(window).unwrap().op().len());
    Some(tokens)
}

#[test]
fn padding_lines_mnemonics_up() {
    assert_eq!(padding_width_for("nop"), 11);
    assert_eq!(padding_width_for("prep_variadic"), 1);
    assert_eq!(padding_width_for("load_constant"), 1);
    assert_eq!(padding_width_for("get_table_index"), 1);
    assert_eq!(padding_width_for("for_generic_prep_i_next"), 1);
    assert_eq!(padding_width_for(""), 14);
    assert_eq!(new_padding_for("nop"), "           ");
    assert_eq!(new_padding_for("move"), " ".repeat(10));
    assert_eq!(new_padding_for("prep_variadic"), " ");
    assert_eq!(new_padding_for("jump_if_not_constant"), " ");
}

#[test]
fn builder_starts_with_mnemonic_and_padding() {
    let builder = TextBuilder::with_mnemonic(Opcode::Move);
    assert_eq!(builder.into_tokens(), vec![Token::Mnemonic(Opcode::Move)]);
    let mut builder = TextBuilder::with_mnemonic(Opcode::Move);
    builder.add_separator();
    assert_eq!(builder.into_tokens(), vec![Token::Mnemonic(Opcode::Move), Token::Padding(10)]);
}

#[test]
fn builder_adds_plain_operands() {
    let mut builder = TextBuilder::with_mnemonic(Opcode::Nop);
    builder.add_location(100, -1);
    builder.add_register(3);
    builder.add_upvalue(4);
    builder.add_boolean(true);
    builder.add_boolean(false);
    builder.add_integer(-7);
    builder.add_number(1.0f64.to_bits());
    assert_eq!(
        builder.into_tokens(),
        vec![
            Token::Mnemonic(Opcode::Nop),
            Token::Padding(11),
            Token::Location { offset: -1, target: 100 },
            Token::Separator,
            Token::Register(3),
            Token::Separator,
            Token::UpValue(4),
            Token::Separator,
            Token::Keyword(Keyword::True),
            Token::Separator,
            Token::Keyword(Keyword::False),
            Token::Separator,
            Token::Integer(-7),
            Token::Separator,
            Token::Number(0x3ff0_0000_0000_0000),
        ]
    );
}

#[test]
fn builder_adds_strings() {
    let strings = vec![Range { start: 10, end: 12 }, Range { start: 13, end: 20 }];
    let mut builder = TextBuilder::with_mnemonic(Opcode::Nop);
    assert_eq!(builder.add_string(0, &strings), Some(()));
    assert_eq!(builder.add_string(2, &strings), Some(()));
    assert_eq!(builder.add_string(3, &strings), None);
    assert_eq!(builder.add_string(1, &strings), Some(()));
    let mut expected = vec![
        Token::Mnemonic(Opcode::Nop),
        Token::Padding(11),
        Token::Keyword(Keyword::NoString),
        Token::Separator,
    ];
    expected.extend(string_tokens(1, 13));
    expected.extend(string_tokens(0, 10));
    expected.pop();
    assert_eq!(builder.into_tokens(), expected);
}

#[test]
fn builder_adds_built_ins_and_functions() {
    let module = sample();
    let functions = &module.function_list().data;
    let mut builder = TextBuilder::with_mnemonic(Opcode::Nop);
    assert_eq!(builder.add_built_in(0), None);
    assert_eq!(builder.add_built_in(58), None);
    assert_eq!(builder.add_built_in(2), Some(()));
    assert_eq!(builder.add_function(2, &module), None);
    assert_eq!(builder.add_function(1, &module), Some(()));
    let mut expected = vec![
        Token::Mnemonic(Opcode::Nop),
        Token::Padding(11),
        Token::Begin(Delimiter::Quote),
        Token::BuiltIn(BuiltIn::Abs),
        Token::End(Delimiter::Quote),
        Token::Separator,
    ];
    expected.extend(function_tokens(1, functions[1].code().start as u64));
    expected.pop();
    assert_eq!(builder.into_tokens(), expected);
}

#[test]
fn builder_adds_constants() {
    let module = sample();
    let function = &module.function_list().data[0];
    let strings = &module.string_list().data;
    let game = string_tokens(0, strings[0].start as u64);
    let workspace = string_tokens(1, strings[1].start as u64);
    let text = |value: Value| {
        let mut builder = TextBuilder::with_mnemonic(Opcode::Nop);
        let outcome = builder.add_constant(&value, function, &module);
        let mut tokens = builder.into_tokens();
        if outcome.is_some() {
            tokens.push(Token::Separator);
            Some(tokens.split_off(2))
        } else {
            assert_eq!(tokens, vec![Token::Mnemonic(Opcode::Nop)]);
            None
        }
    };
    assert_eq!(text(Value::Nil), Some(vec![Token::Keyword(Keyword::Nil), Token::Separator]));
    assert_eq!(text(Value::True), Some(vec![Token::Keyword(Keyword::True), Token::Separator]));
    assert_eq!(text(Value::False), Some(vec![Token::Keyword(Keyword::False), Token::Separator]));
    assert_eq!(text(Value::Table), Some(vec![Token::Keyword(Keyword::AnyTable), Token::Separator]));
    assert_eq!(text(Value::Number(7)), Some(vec![Token::Number(7), Token::Separator]));
    assert_eq!(text(Value::String(1)), Some(game.clone()));
    assert_eq!(text(Value::String(3)), None);
    assert_eq!(
        text(Value::Closure(0)),
        Some(function_tokens(0, function.code().start as u64))
    );
    assert_eq!(text(Value::Closure(2)), None);
    let both: Vec<Token> = game.iter().chain(workspace.iter()).copied().collect();
    assert_eq!(text(Value::Import(pack(&[0, 1]).unwrap())), Some(both.clone()));
    assert_eq!(text(Value::Import(pack(&[]).unwrap())), Some(vec![]));
    // an import of an import shows what the inner one shows
    let mut nested = both.clone();
    nested.extend([Token::Keyword(Keyword::Nil), Token::Separator]);
    assert_eq!(text(Value::Import(pack(&[6]).unwrap())), Some(nested));
    // an index without a constant
    assert_eq!(text(Value::Import(pack(&[0, 9]).unwrap())), None);
    assert_eq!(text(Value::Import(pack(&[7]).unwrap())), None);
    // an import that names itself has no end
    assert_eq!(text(Value::Import(pack(&[5]).unwrap())), None);
}

#[test]
fn builder_adds_imports() {
    let module = sample();
    let function = &module.function_list().data[0];
    let strings = &module.string_list().data;
    let mut builder = TextBuilder::with_mnemonic(Opcode::GetImport);
    assert_eq!(builder.add_import(pack(&[1, 3, 4]).unwrap(), function, &module), Some(()));
    assert_eq!(builder.add_import(pack(&[5]).unwrap(), function, &module), None);
    assert_eq!(builder.add_import(pack(&[8]).unwrap(), function, &module), None);
    let mut expected = vec![Token::Mnemonic(Opcode::GetImport), Token::Padding(4)];
    expected.extend(string_tokens(1, strings[1].start as u64));
    expected.extend([
        Token::Keyword(Keyword::Nil),
        Token::Separator,
        Token::Keyword(Keyword::AnyTable),
    ]);
    assert_eq!(builder.into_tokens(), expected);
}

#[test]
fn text_of_instructions_without_operands() {
    let module = sample();
    assert_eq!(text_of(&module, 0, &[0, 0, 0, 0]), Some(vec![Token::Mnemonic(Opcode::Nop)]));
    assert_eq!(
        text_of(&module, 0, &encode(Opcode::Capture, 1, 2, 3, 0)),
        Some(vec![Token::Mnemonic(Opcode::Capture)])
    );
}

#[test]
fn text_of_registers_booleans_and_locations() {
    let module = sample();
    assert_eq!(
        text_of(&module, 100, &encode(Opcode::LoadBoolean, 1, 0, 2, 0)),
        Some(vec![
            Token::Mnemonic(Opcode::LoadBoolean),
            Token::Padding(2),
            Token::Register(1),
            Token::Separator,
            Token::Keyword(Keyword::False),
            Token::Separator,
            Token::Location { offset: 2, target: 112 },
        ])
    );
    let (b, c) = split_d(-5);
    assert_eq!(
        text_of(&module, 100, &encode(Opcode::JumpIfTruthy, 9, b, c, 0)),
        Some(vec![
            Token::Mnemonic(Opcode::JumpIfTruthy),
            Token::Padding(1),
            Token::Register(9),
            Token::Separator,
            Token::Location { offset: -5, target: 84 },
        ])
    );
    assert_eq!(
        text_of(&module, 100, &encode(Opcode::JumpEx, 0xff, 0xff, 0xff, 0)),
        Some(vec![
            Token::Mnemonic(Opcode::JumpEx),
            Token::Padding(7),
            Token::Location { offset: -1, target: 100 },
        ])
    );
    assert_eq!(
        text_of(&module, 100, &encode(Opcode::GetUpValue, 1, 2, 0, 0)),
        Some(vec![
            Token::Mnemonic(Opcode::GetUpValue),
            Token::Padding(3),
            Token::Register(1),
            Token::Separator,
            Token::UpValue(2),
        ])
    );
}

#[test]
fn text_of_operands_in_schema_order() {
    let module = sample();
    assert_eq!(
        text_of(&module, 100, &encode(Opcode::JumpIfEqual, 1, 3, 0, 2)),
        Some(vec![
            Token::Mnemonic(Opcode::JumpIfEqual),
            Token::Padding(1),
            Token::Register(1),
            Token::Separator,
            Token::Register(2),
            Token::Separator,
            Token::Location { offset: 3, target: 116 },
        ])
    );
    // a register in the auxiliary word that is no byte
    assert_eq!(text_of(&module, 100, &encode(Opcode::JumpIfEqual, 1, 3, 0, 256)), None);
    assert_eq!(text_of(&module, 100, &encode(Opcode::JumpIfEqual, 1, 3, 0, -1)), None);
    assert_eq!(
        text_of(&module, 100, &encode(Opcode::SetList, 1, 2, 3, -4)),
        Some(vec![
            Token::Mnemonic(Opcode::SetList),
            Token::Padding(6),
            Token::Register(1),
            Token::Separator,
            Token::Register(2),
            Token::Separator,
            Token::Integer(3),
            Token::Separator,
            Token::Integer(-4),
        ])
    );
}

#[test]
fn text_of_constants_needs_the_function() {
    let module = sample();
    let function = &module.function_list().data[0];
    let addr = function.code().start as u64;
    let strings = &module.string_list().data;
    let mut expected = vec![
        Token::Mnemonic(Opcode::LoadConstant),
        Token::Padding(1),
        Token::Register(4),
        Token::Separator,
    ];
    expected.extend(string_tokens(1, strings[1].start as u64));
    expected.pop();
    assert_eq!(text_of(&module, addr, &encode(Opcode::LoadConstant, 4, 1, 0, 0)), Some(expected));
    assert_eq!(text_of(&module, addr, &encode(Opcode::LoadConstant, 4, 8, 0, 0)), None);
    assert_eq!(text_of(&module, 0, &encode(Opcode::LoadConstant, 4, 1, 0, 0)), None);
    // the second function has no constant
    let other = module.function_list().data[1].code().start as u64;
    assert_eq!(text_of(&module, other, &encode(Opcode::LoadConstant, 4, 0, 0, 0)), None);
    assert_eq!(text_of(&module, addr, &encode(Opcode::GetGlobal, 4, 0, 0, -1)), None);
}

#[test]
fn text_of_functions_goes_through_the_reference_list() {
    let module = sample();
    let functions = &module.function_list().data;
    let addr = functions[0].code().start as u64;
    let mut expected = vec![
        Token::Mnemonic(Opcode::NewClosure),
        Token::Padding(3),
        Token::Register(0),
        Token::Separator,
    ];
    expected.extend(function_tokens(1, functions[1].code().start as u64));
    expected.pop();
    assert_eq!(text_of(&module, addr, &encode(Opcode::NewClosure, 0, 0, 0, 0)), Some(expected));
    // reference 2 names function 7, which the module lacks
    assert_eq!(text_of(&module, addr, &encode(Opcode::NewClosure, 0, 2, 0, 0)), None);
    assert_eq!(text_of(&module, addr, &encode(Opcode::NewClosure, 0, 3, 0, 0)), None);
    assert_eq!(text_of(&module, addr, &encode(Opcode::NewClosure, 0, 0xff, 0xff, 0)), None);
}

#[test]
fn text_of_imports_and_built_ins() {
    let module = sample();
    let function = &module.function_list().data[0];
    let addr = function.code().start as u64;
    let strings = &module.string_list().data;
    let word = pack(&[0, 1]).unwrap();
    let mut expected = vec![
        Token::Mnemonic(Opcode::GetImport),
        Token::Padding(4),
        Token::Register(2),
        Token::Separator,
        Token::Keyword(Keyword::Nil),
        Token::Separator,
    ];
    expected.extend(string_tokens(0, strings[0].start as u64));
    expected.extend(string_tokens(1, strings[1].start as u64));
    expected.pop();
    assert_eq!(
        text_of(&module, addr, &encode(Opcode::GetImport, 2, 3, 0, word as i32)),
        Some(expected)
    );
    assert_eq!(
        text_of(&module, 100, &encode(Opcode::FastCall, 57, 0, 1, 0)),
        Some(vec![
            Token::Mnemonic(Opcode::FastCall),
            Token::Padding(5),
            Token::Begin(Delimiter::Quote),
            Token::BuiltIn(BuiltIn::Select),
            Token::End(Delimiter::Quote),
            Token::Separator,
            Token::Location { offset: 1, target: 108 },
        ])
    );
    assert_eq!(text_of(&module, 100, &encode(Opcode::FastCall, 58, 0, 1, 0)), None);
    assert_eq!(text_of(&module, 100, &encode(Opcode::FastCall, 0, 0, 1, 0)), None);
}

#[test]
fn no_instruction_no_text() {
    let module = sample();
    assert_eq!(instruction_text(&[], 0, &module), None);
    assert_eq!(instruction_text(&[6, 0, 0], 0, &module), None);
    assert_eq!(instruction_text(&[99, 0, 0, 0], 0, &module), None);
    let window = encode(Opcode::Move, 1, 2, 0, 0);
    let builder = get_opt_instruction_text(Inst::try_from(&window[..]).unwrap(), 0, &module);
    assert_eq!(
        builder.map(|b| b.into_tokens()),
        Some(vec![
            Token::Mnemonic(Opcode::Move),
            Token::Padding(10),
            Token::Register(1),
            Token::Separator,
            Token::Register(2),
        ])
    );
}
