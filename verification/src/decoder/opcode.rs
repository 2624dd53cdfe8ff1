use vstd::prelude::*;

verus! {

/// The field of an instruction word that an operand is read from.
#[derive(Clone, Copy, PartialEq, Eq, Structural, Debug)]
pub enum OpName {
    A,
    B,
    C,
    D,
    E,
    X,
}

/// What the raw value of an operand stands for.
#[derive(Clone, Copy, PartialEq, Eq, Structural, Debug)]
pub enum OpType {
    /// A signed offset, in words, relative to the instruction.
    Location,
    /// A stack slot.
    Register,
    UpValue,
    Boolean,
    Integer,
    /// An index into the constant list of the owning function.
    Constant,
    /// An index into the reference list of the owning function.
    Function,
    /// A packed chain of constant indices.
    Import,
    /// The id of a known runtime function.
    BuiltIn,
}

/// Why a byte window does not hold an instruction.
#[derive(Clone, Copy, PartialEq, Eq, Structural, Debug)]
pub enum DecodeError {
    /// The first byte names no opcode.
    UnknownOpcode,
    /// The window is shorter than the opcode's encoded length.
    Truncated,
}

#[derive(Clone, Copy, PartialEq, Eq, Structural, Debug)]
pub enum Opcode {
    Nop,
    Break,
    LoadNil,
    LoadBoolean,
    LoadInteger,
    LoadConstant,
    Move,
    GetGlobal,
    SetGlobal,
    GetUpValue,
    SetUpValue,
    CloseUpValues,
    GetImport,
    GetTable,
    SetTable,
    GetTableKey,
    SetTableKey,
    GetTableIndex,
    SetTableIndex,
    NewClosure,
    NameCall,
    Call,
    Return,
    Jump,
    JumpSafe,
    JumpIfTruthy,
    JumpIfFalsy,
    JumpIfEqual,
    JumpIfLessEqual,
    JumpIfLessThan,
    JumpIfNotEqual,
    JumpIfMoreThan,
    JumpIfMoreEqual,
    Add,
    Sub,
    Mul,
    Div,
    Mod,
    Pow,
    AddConstant,
    SubConstant,
    MulConstant,
    DivConstant,
    ModConstant,
    PowConstant,
    And,
    Or,
    AndConstant,
    OrConstant,
    Concat,
    Not,
    Minus,
    Length,
    NewTable,
    DupTable,
    SetList,
    ForNumericPrep,
    ForNumericLoop,
    ForGenericLoop,
    ForGenericPrepINext,
    ForGenericLoopINext,
    ForGenericPrepNext,
    ForGenericLoopNext,
    GetVariadic,
    DupClosure,
    PrepVariadic,
    LoadConstantEx,
    JumpEx,
    FastCall,
    Coverage,
    Capture,
    JumpIfConstant,
    JumpIfNotConstant,
    FastCall1,
    FastCall2,
    FastCall2K,
    ForGenericPrep,
    JumpIfNil,
    JumpIfBoolean,
    JumpIfNumber,
    JumpIfString,
}

/// The number of opcodes; their ids are `0 .. OPCODE_COUNT`.
pub const OPCODE_COUNT: u8 = 81;

impl Opcode {
    /// The byte that encodes this opcode.
    pub open spec fn id(self) -> u8 {
        match self {
            Opcode::Nop => 0,
            Opcode::Break => 1,
            Opcode::LoadNil => 2,
            Opcode::LoadBoolean => 3,
            Opcode::LoadInteger => 4,
            Opcode::LoadConstant => 5,
            Opcode::Move => 6,
            Opcode::GetGlobal => 7,
            Opcode::SetGlobal => 8,
            Opcode::GetUpValue => 9,
            Opcode::SetUpValue => 10,
            Opcode::CloseUpValues => 11,
            Opcode::GetImport => 12,
            Opcode::GetTable => 13,
            Opcode::SetTable => 14,
            Opcode::GetTableKey => 15,
            Opcode::SetTableKey => 16,
            Opcode::GetTableIndex => 17,
            Opcode::SetTableIndex => 18,
            Opcode::NewClosure => 19,
            Opcode::NameCall => 20,
            Opcode::Call => 21,
            Opcode::Return => 22,
            Opcode::Jump => 23,
            Opcode::JumpSafe => 24,
            Opcode::JumpIfTruthy => 25,
            Opcode::JumpIfFalsy => 26,
            Opcode::JumpIfEqual => 27,
            Opcode::JumpIfLessEqual => 28,
            Opcode::JumpIfLessThan => 29,
            Opcode::JumpIfNotEqual => 30,
            Opcode::JumpIfMoreThan => 31,
            Opcode::JumpIfMoreEqual => 32,
            Opcode::Add => 33,
            Opcode::Sub => 34,
            Opcode::Mul => 35,
            Opcode::Div => 36,
            Opcode::Mod => 37,
            Opcode::Pow => 38,
            Opcode::AddConstant => 39,
            Opcode::SubConstant => 40,
            Opcode::MulConstant => 41,
            Opcode::DivConstant => 42,
            Opcode::ModConstant => 43,
            Opcode::PowConstant => 44,
            Opcode::And => 45,
            Opcode::Or => 46,
            Opcode::AndConstant => 47,
            Opcode::OrConstant => 48,
            Opcode::Concat => 49,
            Opcode::Not => 50,
            Opcode::Minus => 51,
            Opcode::Length => 52,
            Opcode::NewTable => 53,
            Opcode::DupTable => 54,
            Opcode::SetList => 55,
            Opcode::ForNumericPrep => 56,
            Opcode::ForNumericLoop => 57,
            Opcode::ForGenericLoop => 58,
            Opcode::ForGenericPrepINext => 59,
            Opcode::ForGenericLoopINext => 60,
            Opcode::ForGenericPrepNext => 61,
            Opcode::ForGenericLoopNext => 62,
            Opcode::GetVariadic => 63,
            Opcode::DupClosure => 64,
            Opcode::PrepVariadic => 65,
            Opcode::LoadConstantEx => 66,
            Opcode::JumpEx => 67,
            Opcode::FastCall => 68,
            Opcode::Coverage => 69,
            Opcode::Capture => 70,
            Opcode::JumpIfConstant => 71,
            Opcode::JumpIfNotConstant => 72,
            Opcode::FastCall1 => 73,
            Opcode::FastCall2 => 74,
            Opcode::FastCall2K => 75,
            Opcode::ForGenericPrep => 76,
            Opcode::JumpIfNil => 77,
            Opcode::JumpIfBoolean => 78,
            Opcode::JumpIfNumber => 79,
            Opcode::JumpIfString => 80,
        }
    }

    /// The opcode that `byte` encodes, if any.
    pub open spec fn from_id(byte: u8) -> Option<Opcode> {
        match byte {
            0 => Some(Opcode::Nop),
            1 => Some(Opcode::Break),
            2 => Some(Opcode::LoadNil),
            3 => Some(Opcode::LoadBoolean),
            4 => Some(Opcode::LoadInteger),
            5 => Some(Opcode::LoadConstant),
            6 => Some(Opcode::Move),
            7 => Some(Opcode::GetGlobal),
            8 => Some(Opcode::SetGlobal),
            9 => Some(Opcode::GetUpValue),
            10 => Some(Opcode::SetUpValue),
            11 => Some(Opcode::CloseUpValues),
            12 => Some(Opcode::GetImport),
            13 => Some(Opcode::GetTable),
            14 => Some(Opcode::SetTable),
            15 => Some(Opcode::GetTableKey),
            16 => Some(Opcode::SetTableKey),
            17 => Some(Opcode::GetTableIndex),
            18 => Some(Opcode::SetTableIndex),
            19 => Some(Opcode::NewClosure),
            20 => Some(Opcode::NameCall),
            21 => Some(Opcode::Call),
            22 => Some(Opcode::Return),
            23 => Some(Opcode::Jump),
            24 => Some(Opcode::JumpSafe),
            25 => Some(Opcode::JumpIfTruthy),
            26 => Some(Opcode::JumpIfFalsy),
            27 => Some(Opcode::JumpIfEqual),
            28 => Some(Opcode::JumpIfLessEqual),
            29 => Some(Opcode::JumpIfLessThan),
            30 => Some(Opcode::JumpIfNotEqual),
            31 => Some(Opcode::JumpIfMoreThan),
            32 => Some(Opcode::JumpIfMoreEqual),
            33 => Some(Opcode::Add),
            34 => Some(Opcode::Sub),
            35 => Some(Opcode::Mul),
            36 => Some(Opcode::Div),
            37 => Some(Opcode::Mod),
            38 => Some(Opcode::Pow),
            39 => Some(Opcode::AddConstant),
            40 => Some(Opcode::SubConstant),
            41 => Some(Opcode::MulConstant),
            42 => Some(Opcode::DivConstant),
            43 => Some(Opcode::ModConstant),
            44 => Some(Opcode::PowConstant),
            45 => Some(Opcode::And),
            46 => Some(Opcode::Or),
            47 => Some(Opcode::AndConstant),
            48 => Some(Opcode::OrConstant),
            49 => Some(Opcode::Concat),
            50 => Some(Opcode::Not),
            51 => Some(Opcode::Minus),
            52 => Some(Opcode::Length),
            53 => Some(Opcode::NewTable),
            54 => Some(Opcode::DupTable),
            55 => Some(Opcode::SetList),
            56 => Some(Opcode::ForNumericPrep),
            57 => Some(Opcode::ForNumericLoop),
            58 => Some(Opcode::ForGenericLoop),
            59 => Some(Opcode::ForGenericPrepINext),
            60 => Some(Opcode::ForGenericLoopINext),
            61 => Some(Opcode::ForGenericPrepNext),
            62 => Some(Opcode::ForGenericLoopNext),
            63 => Some(Opcode::GetVariadic),
            64 => Some(Opcode::DupClosure),
            65 => Some(Opcode::PrepVariadic),
            66 => Some(Opcode::LoadConstantEx),
            67 => Some(Opcode::JumpEx),
            68 => Some(Opcode::FastCall),
            69 => Some(Opcode::Coverage),
            70 => Some(Opcode::Capture),
            71 => Some(Opcode::JumpIfConstant),
            72 => Some(Opcode::JumpIfNotConstant),
            73 => Some(Opcode::FastCall1),
            74 => Some(Opcode::FastCall2),
            75 => Some(Opcode::FastCall2K),
            76 => Some(Opcode::ForGenericPrep),
            77 => Some(Opcode::JumpIfNil),
            78 => Some(Opcode::JumpIfBoolean),
            79 => Some(Opcode::JumpIfNumber),
            80 => Some(Opcode::JumpIfString),
            _ => None,
        }
    }

    /// Whether the instruction carries a second, auxiliary word.
    pub open spec fn has_aux(self) -> bool {
        match self {
            Opcode::GetGlobal
            | Opcode::SetGlobal
            | Opcode::GetImport
            | Opcode::GetTableKey
            | Opcode::SetTableKey
            | Opcode::NameCall
            | Opcode::JumpIfEqual
            | Opcode::JumpIfLessEqual
            | Opcode::JumpIfLessThan
            | Opcode::JumpIfNotEqual
            | Opcode::JumpIfMoreThan
            | Opcode::JumpIfMoreEqual
            | Opcode::NewTable
            | Opcode::SetList
            | Opcode::ForGenericLoop
            | Opcode::LoadConstantEx
            | Opcode::JumpIfConstant
            | Opcode::JumpIfNotConstant
            | Opcode::FastCall2
            | Opcode::FastCall2K
            | Opcode::JumpIfNil
            | Opcode::JumpIfBoolean
            | Opcode::JumpIfNumber
            | Opcode::JumpIfString => true,
            _ => false,
        }
    }

    /// The encoded length in bytes: two words with an auxiliary word, else one.
    pub open spec fn spec_len(self) -> usize {
        if self.has_aux() {
            8
        } else {
            4
        }
    }

    pub open spec fn spec_mnemonic(self) -> Seq<char> {
        match self {
            Opcode::Nop => "nop"@,
            Opcode::Break => "break"@,
            Opcode::LoadNil => "load_nil"@,
            Opcode::LoadBoolean => "load_boolean"@,
            Opcode::LoadInteger => "load_integer"@,
            Opcode::LoadConstant => "load_constant"@,
            Opcode::Move => "move"@,
            Opcode::GetGlobal => "get_global"@,
            Opcode::SetGlobal => "set_global"@,
            Opcode::GetUpValue => "get_upvalue"@,
            Opcode::SetUpValue => "set_upvalue"@,
            Opcode::CloseUpValues => "close_upvalues"@,
            Opcode::GetImport => "get_import"@,
            Opcode::GetTable => "get_table"@,
            Opcode::SetTable => "set_table"@,
            Opcode::GetTableKey => "get_table_key"@,
            Opcode::SetTableKey => "set_table_key"@,
            Opcode::GetTableIndex => "get_table_index"@,
            Opcode::SetTableIndex => "set_table_index"@,
            Opcode::NewClosure => "new_closure"@,
            Opcode::NameCall => "name_call"@,
            Opcode::Call => "call"@,
            Opcode::Return => "return"@,
            Opcode::Jump => "jump"@,
            Opcode::JumpSafe => "jump_safe"@,
            Opcode::JumpIfTruthy => "jump_if_truthy"@,
            Opcode::JumpIfFalsy => "jump_if_falsy"@,
            Opcode::JumpIfEqual => "jump_if_equal"@,
            Opcode::JumpIfLessEqual => "jump_if_less_equal"@,
            Opcode::JumpIfLessThan => "jump_if_less_than"@,
            Opcode::JumpIfNotEqual => "jump_if_not_equal"@,
            Opcode::JumpIfMoreThan => "jump_if_more_than"@,
            Opcode::JumpIfMoreEqual => "jump_if_more_equal"@,
            Opcode::Add => "add"@,
            Opcode::Sub => "sub"@,
            Opcode::Mul => "mul"@,
            Opcode::Div => "div"@,
            Opcode::Mod => "mod"@,
            Opcode::Pow => "pow"@,
            Opcode::AddConstant => "add_constant"@,
            Opcode::SubConstant => "sub_constant"@,
            Opcode::MulConstant => "mul_constant"@,
            Opcode::DivConstant => "div_constant"@,
            Opcode::ModConstant => "mod_constant"@,
            Opcode::PowConstant => "pow_constant"@,
            Opcode::And => "and"@,
            Opcode::Or => "or"@,
            Opcode::AndConstant => "and_constant"@,
            Opcode::OrConstant => "or_constant"@,
            Opcode::Concat => "concat"@,
            Opcode::Not => "not"@,
            Opcode::Minus => "minus"@,
            Opcode::Length => "length"@,
            Opcode::NewTable => "new_table"@,
            Opcode::DupTable => "dup_table"@,
            Opcode::SetList => "set_list"@,
            Opcode::ForNumericPrep => "for_numeric_prep"@,
            Opcode::ForNumericLoop => "for_numeric_loop"@,
            Opcode::ForGenericLoop => "for_generic_loop"@,
            Opcode::ForGenericPrepINext => "for_generic_prep_i_next"@,
            Opcode::ForGenericLoopINext => "for_generic_loop_i_next"@,
            Opcode::ForGenericPrepNext => "for_generic_prep_next"@,
            Opcode::ForGenericLoopNext => "for_generic_loop_next"@,
            Opcode::GetVariadic => "get_variadic"@,
            Opcode::DupClosure => "dup_closure"@,
            Opcode::PrepVariadic => "prep_variadic"@,
            Opcode::LoadConstantEx => "load_constant_ex"@,
            Opcode::JumpEx => "jump_ex"@,
            Opcode::FastCall => "fast_call"@,
            Opcode::Coverage => "coverage"@,
            Opcode::Capture => "capture"@,
            Opcode::JumpIfConstant => "jump_if_constant"@,
            Opcode::JumpIfNotConstant => "jump_if_not_constant"@,
            Opcode::FastCall1 => "fast_call1"@,
            Opcode::FastCall2 => "fast_call2"@,
            Opcode::FastCall2K => "fast_call2_k"@,
            Opcode::ForGenericPrep => "for_generic_prep"@,
            Opcode::JumpIfNil => "jump_if_nil"@,
            Opcode::JumpIfBoolean => "jump_if_boolean"@,
            Opcode::JumpIfNumber => "jump_if_number"@,
            Opcode::JumpIfString => "jump_if_string"@,
        }
    }

    /// The operand schema: for each operand in display order, the field it is
    /// read from and what its value stands for.
    pub open spec fn operands(self) -> Seq<(OpName, OpType)> {
        match self {
            Opcode::Nop => Seq::empty(),
            Opcode::Break => Seq::empty(),
            Opcode::LoadNil => seq![(OpName::A, OpType::Register)],
            Opcode::LoadBoolean => seq![(OpName::A, OpType::Register), (OpName::B, OpType::Boolean), (OpName::C, OpType::Location)],
            Opcode::LoadInteger => seq![(OpName::A, OpType::Register), (OpName::D, OpType::Integer)],
            Opcode::LoadConstant => seq![(OpName::A, OpType::Register), (OpName::B, OpType::Constant)],
            Opcode::Move => seq![(OpName::A, OpType::Register), (OpName::B, OpType::Register)],
            Opcode::GetGlobal => seq![(OpName::A, OpType::Register), (OpName::X, OpType::Constant)],
            Opcode::SetGlobal => seq![(OpName::A, OpType::Register), (OpName::X, OpType::Constant)],
            Opcode::GetUpValue => seq![(OpName::A, OpType::Register), (OpName::B, OpType::UpValue)],
            Opcode::SetUpValue => seq![(OpName::A, OpType::Register), (OpName::B, OpType::UpValue)],
            Opcode::CloseUpValues => seq![(OpName::A, OpType::Register)],
            Opcode::GetImport => seq![(OpName::A, OpType::Register), (OpName::D, OpType::Constant), (OpName::X, OpType::Import)],
            Opcode::GetTable => seq![(OpName::A, OpType::Register), (OpName::B, OpType::Register), (OpName::C, OpType::Register)],
            Opcode::SetTable => seq![(OpName::A, OpType::Register), (OpName::B, OpType::Register), (OpName::C, OpType::Register)],
            Opcode::GetTableKey => seq![(OpName::A, OpType::Register), (OpName::B, OpType::Register), (OpName::X, OpType::Constant)],
            Opcode::SetTableKey => seq![(OpName::A, OpType::Register), (OpName::B, OpType::Register), (OpName::X, OpType::Constant)],
            Opcode::GetTableIndex => seq![(OpName::A, OpType::Register), (OpName::B, OpType::Register), (OpName::C, OpType::Integer)],
            Opcode::SetTableIndex => seq![(OpName::A, OpType::Register), (OpName::B, OpType::Register), (OpName::C, OpType::Integer)],
            Opcode::NewClosure => seq![(OpName::A, OpType::Register), (OpName::D, OpType::Function)],
            Opcode::NameCall => seq![(OpName::A, OpType::Register), (OpName::B, OpType::Register), (OpName::X, OpType::Constant)],
            Opcode::Call => seq![(OpName::A, OpType::Register), (OpName::B, OpType::Integer), (OpName::C, OpType::Integer)],
            Opcode::Return => seq![(OpName::A, OpType::Register), (OpName::B, OpType::Integer)],
            Opcode::Jump => seq![(OpName::D, OpType::Location)],
            Opcode::JumpSafe => seq![(OpName::D, OpType::Location)],
            Opcode::JumpIfTruthy => seq![(OpName::A, OpType::Register), (OpName::D, OpType::Location)],
            Opcode::JumpIfFalsy => seq![(OpName::A, OpType::Register), (OpName::D, OpType::Location)],
            Opcode::JumpIfEqual => seq![(OpName::A, OpType::Register), (OpName::X, OpType::Register), (OpName::D, OpType::Location)],
            Opcode::JumpIfLessEqual => seq![(OpName::A, OpType::Register), (OpName::X, OpType::Register), (OpName::D, OpType::Location)],
            Opcode::JumpIfLessThan => seq![(OpName::A, OpType::Register), (OpName::X, OpType::Register), (OpName::D, OpType::Location)],
            Opcode::JumpIfNotEqual => seq![(OpName::A, OpType::Register), (OpName::X, OpType::Register), (OpName::D, OpType::Location)],
            Opcode::JumpIfMoreThan => seq![(OpName::A, OpType::Register), (OpName::X, OpType::Register), (OpName::D, OpType::Location)],
            Opcode::JumpIfMoreEqual => seq![(OpName::A, OpType::Register), (OpName::X, OpType::Register), (OpName::D, OpType::Location)],
            Opcode::Add => seq![(OpName::A, OpType::Register), (OpName::B, OpType::Register), (OpName::C, OpType::Register)],
            Opcode::Sub => seq![(OpName::A, OpType::Register), (OpName::B, OpType::Register), (OpName::C, OpType::Register)],
            Opcode::Mul => seq![(OpName::A, OpType::Register), (OpName::B, OpType::Register), (OpName::C, OpType::Register)],
            Opcode::Div => seq![(OpName::A, OpType::Register), (OpName::B, OpType::Register), (OpName::C, OpType::Register)],
            Opcode::Mod => seq![(OpName::A, OpType::Register), (OpName::B, OpType::Register), (OpName::C, OpType::Register)],
            Opcode::Pow => seq![(OpName::A, OpType::Register), (OpName::B, OpType::Register), (OpName::C, OpType::Register)],
            Opcode::AddConstant => seq![(OpName::A, OpType::Register), (OpName::B, OpType::Register), (OpName::C, OpType::Constant)],
            Opcode::SubConstant => seq![(OpName::A, OpType::Register), (OpName::B, OpType::Register), (OpName::C, OpType::Constant)],
            Opcode::MulConstant => seq![(OpName::A, OpType::Register), (OpName::B, OpType::Register), (OpName::C, OpType::Constant)],
            Opcode::DivConstant => seq![(OpName::A, OpType::Register), (OpName::B, OpType::Register), (OpName::C, OpType::Constant)],
            Opcode::ModConstant => seq![(OpName::A, OpType::Register), (OpName::B, OpType::Register), (OpName::C, OpType::Constant)],
            Opcode::PowConstant => seq![(OpName::A, OpType::Register), (OpName::B, OpType::Register), (OpName::C, OpType::Constant)],
            Opcode::And => seq![(OpName::A, OpType::Register), (OpName::B, OpType::Register), (OpName::C, OpType::Register)],
            Opcode::Or => seq![(OpName::A, OpType::Register), (OpName::B, OpType::Register), (OpName::C, OpType::Register)],
            Opcode::AndConstant => seq![(OpName::A, OpType::Register), (OpName::B, OpType::Register), (OpName::C, OpType::Constant)],
            Opcode::OrConstant => seq![(OpName::A, OpType::Register), (OpName::B, OpType::Register), (OpName::C, OpType::Constant)],
            Opcode::Concat => seq![(OpName::A, OpType::Register), (OpName::B, OpType::Register), (OpName::C, OpType::Register)],
            Opcode::Not => seq![(OpName::A, OpType::Register), (OpName::B, OpType::Register)],
            Opcode::Minus => seq![(OpName::A, OpType::Register), (OpName::B, OpType::Register)],
            Opcode::Length => seq![(OpName::A, OpType::Register), (OpName::B, OpType::Register)],
            Opcode::NewTable => seq![(OpName::A, OpType::Register), (OpName::B, OpType::Integer), (OpName::X, OpType::Integer)],
            Opcode::DupTable => seq![(OpName::A, OpType::Register), (OpName::D, OpType::Constant)],
            Opcode::SetList => seq![(OpName::A, OpType::Register), (OpName::B, OpType::Register), (OpName::C, OpType::Integer), (OpName::X, OpType::Integer)],
            Opcode::ForNumericPrep => seq![(OpName::A, OpType::Register), (OpName::D, OpType::Location)],
            Opcode::ForNumericLoop => seq![(OpName::A, OpType::Register), (OpName::D, OpType::Location)],
            Opcode::ForGenericLoop => seq![(OpName::A, OpType::Register), (OpName::X, OpType::Integer), (OpName::D, OpType::Location)],
            Opcode::ForGenericPrepINext => seq![(OpName::A, OpType::Register), (OpName::D, OpType::Location)],
            Opcode::ForGenericLoopINext => seq![(OpName::A, OpType::Register), (OpName::D, OpType::Location)],
            Opcode::ForGenericPrepNext => seq![(OpName::A, OpType::Register), (OpName::D, OpType::Location)],
            Opcode::ForGenericLoopNext => seq![(OpName::A, OpType::Register), (OpName::D, OpType::Location)],
            Opcode::GetVariadic => seq![(OpName::A, OpType::Register), (OpName::B, OpType::Integer)],
            Opcode::DupClosure => seq![(OpName::A, OpType::Register), (OpName::D, OpType::Constant)],
            Opcode::PrepVariadic => seq![(OpName::A, OpType::Integer)],
            Opcode::LoadConstantEx => seq![(OpName::A, OpType::Register), (OpName::X, OpType::Constant)],
            Opcode::JumpEx => seq![(OpName::E, OpType::Location)],
            Opcode::FastCall => seq![(OpName::A, OpType::BuiltIn), (OpName::C, OpType::Location)],
            Opcode::Coverage => seq![(OpName::E, OpType::Integer)],
            Opcode::Capture => Seq::empty(),
            Opcode::JumpIfConstant => seq![(OpName::A, OpType::Register), (OpName::X, OpType::Constant), (OpName::D, OpType::Location)],
            Opcode::JumpIfNotConstant => seq![(OpName::A, OpType::Register), (OpName::X, OpType::Constant), (OpName::D, OpType::Location)],
            Opcode::FastCall1 => seq![(OpName::A, OpType::BuiltIn), (OpName::B, OpType::Register), (OpName::C, OpType::Location)],
            Opcode::FastCall2 => seq![(OpName::A, OpType::BuiltIn), (OpName::B, OpType::Register), (OpName::X, OpType::Register), (OpName::C, OpType::Location)],
            Opcode::FastCall2K => seq![(OpName::A, OpType::BuiltIn), (OpName::B, OpType::Register), (OpName::X, OpType::Constant), (OpName::C, OpType::Location)],
            Opcode::ForGenericPrep => seq![(OpName::A, OpType::Register), (OpName::D, OpType::Location)],
            Opcode::JumpIfNil => seq![(OpName::A, OpType::Register), (OpName::D, OpType::Location), (OpName::X, OpType::Integer)],
            Opcode::JumpIfBoolean => seq![(OpName::A, OpType::Register), (OpName::D, OpType::Location), (OpName::X, OpType::Integer)],
            Opcode::JumpIfNumber => seq![(OpName::A, OpType::Register), (OpName::D, OpType::Location), (OpName::X, OpType::Integer)],
            Opcode::JumpIfString => seq![(OpName::A, OpType::Register), (OpName::D, OpType::Location), (OpName::X, OpType::Integer)],
        }
    }

    pub fn to_byte(self) -> (byte: u8)
        ensures
            byte == self.id(),
            byte < OPCODE_COUNT,
    {
        match self {
            Opcode::Nop => 0,
            Opcode::Break => 1,
            Opcode::LoadNil => 2,
            Opcode::LoadBoolean => 3,
            Opcode::LoadInteger => 4,
            Opcode::LoadConstant => 5,
            Opcode::Move => 6,
            Opcode::GetGlobal => 7,
            Opcode::SetGlobal => 8,
            Opcode::GetUpValue => 9,
            Opcode::SetUpValue => 10,
            Opcode::CloseUpValues => 11,
            Opcode::GetImport => 12,
            Opcode::GetTable => 13,
            Opcode::SetTable => 14,
            Opcode::GetTableKey => 15,
            Opcode::SetTableKey => 16,
            Opcode::GetTableIndex => 17,
            Opcode::SetTableIndex => 18,
            Opcode::NewClosure => 19,
            Opcode::NameCall => 20,
            Opcode::Call => 21,
            Opcode::Return => 22,
            Opcode::Jump => 23,
            Opcode::JumpSafe => 24,
            Opcode::JumpIfTruthy => 25,
            Opcode::JumpIfFalsy => 26,
            Opcode::JumpIfEqual => 27,
            Opcode::JumpIfLessEqual => 28,
            Opcode::JumpIfLessThan => 29,
            Opcode::JumpIfNotEqual => 30,
            Opcode::JumpIfMoreThan => 31,
            Opcode::JumpIfMoreEqual => 32,
            Opcode::Add => 33,
            Opcode::Sub => 34,
            Opcode::Mul => 35,
            Opcode::Div => 36,
            Opcode::Mod => 37,
            Opcode::Pow => 38,
            Opcode::AddConstant => 39,
            Opcode::SubConstant => 40,
            Opcode::MulConstant => 41,
            Opcode::DivConstant => 42,
            Opcode::ModConstant => 43,
            Opcode::PowConstant => 44,
            Opcode::And => 45,
            Opcode::Or => 46,
            Opcode::AndConstant => 47,
            Opcode::OrConstant => 48,
            Opcode::Concat => 49,
            Opcode::Not => 50,
            Opcode::Minus => 51,
            Opcode::Length => 52,
            Opcode::NewTable => 53,
            Opcode::DupTable => 54,
            Opcode::SetList => 55,
            Opcode::ForNumericPrep => 56,
            Opcode::ForNumericLoop => 57,
            Opcode::ForGenericLoop => 58,
            Opcode::ForGenericPrepINext => 59,
            Opcode::ForGenericLoopINext => 60,
            Opcode::ForGenericPrepNext => 61,
            Opcode::ForGenericLoopNext => 62,
            Opcode::GetVariadic => 63,
            Opcode::DupClosure => 64,
            Opcode::PrepVariadic => 65,
            Opcode::LoadConstantEx => 66,
            Opcode::JumpEx => 67,
            Opcode::FastCall => 68,
            Opcode::Coverage => 69,
            Opcode::Capture => 70,
            Opcode::JumpIfConstant => 71,
            Opcode::JumpIfNotConstant => 72,
            Opcode::FastCall1 => 73,
            Opcode::FastCall2 => 74,
            Opcode::FastCall2K => 75,
            Opcode::ForGenericPrep => 76,
            Opcode::JumpIfNil => 77,
            Opcode::JumpIfBoolean => 78,
            Opcode::JumpIfNumber => 79,
            Opcode::JumpIfString => 80,
        }
    }

    #[verifier::when_used_as_spec(spec_len)]
    pub fn len(self) -> (len: usize)
        ensures
            len == self.spec_len(),
            len == 4 || len == 8,
    {
        match self {
            Opcode::GetGlobal
            | Opcode::SetGlobal
            | Opcode::GetImport
            | Opcode::GetTableKey
            | Opcode::SetTableKey
            | Opcode::NameCall
            | Opcode::JumpIfEqual
            | Opcode::JumpIfLessEqual
            | Opcode::JumpIfLessThan
            | Opcode::JumpIfNotEqual
            | Opcode::JumpIfMoreThan
            | Opcode::JumpIfMoreEqual
            | Opcode::NewTable
            | Opcode::SetList
            | Opcode::ForGenericLoop
            | Opcode::LoadConstantEx
            | Opcode::JumpIfConstant
            | Opcode::JumpIfNotConstant
            | Opcode::FastCall2
            | Opcode::FastCall2K
            | Opcode::JumpIfNil
            | Opcode::JumpIfBoolean
            | Opcode::JumpIfNumber
            | Opcode::JumpIfString => 8,
            _ => 4,
        }
    }

    pub fn mnemonic(self) -> (name: &'static str)
        ensures
            name@ == self.spec_mnemonic(),
    {
        match self {
            Opcode::Nop => "nop",
            Opcode::Break => "break",
            Opcode::LoadNil => "load_nil",
            Opcode::LoadBoolean => "load_boolean",
            Opcode::LoadInteger => "load_integer",
            Opcode::LoadConstant => "load_constant",
            Opcode::Move => "move",
            Opcode::GetGlobal => "get_global",
            Opcode::SetGlobal => "set_global",
            Opcode::GetUpValue => "get_upvalue",
            Opcode::SetUpValue => "set_upvalue",
            Opcode::CloseUpValues => "close_upvalues",
            Opcode::GetImport => "get_import",
            Opcode::GetTable => "get_table",
            Opcode::SetTable => "set_table",
            Opcode::GetTableKey => "get_table_key",
            Opcode::SetTableKey => "set_table_key",
            Opcode::GetTableIndex => "get_table_index",
            Opcode::SetTableIndex => "set_table_index",
            Opcode::NewClosure => "new_closure",
            Opcode::NameCall => "name_call",
            Opcode::Call => "call",
            Opcode::Return => "return",
            Opcode::Jump => "jump",
            Opcode::JumpSafe => "jump_safe",
            Opcode::JumpIfTruthy => "jump_if_truthy",
            Opcode::JumpIfFalsy => "jump_if_falsy",
            Opcode::JumpIfEqual => "jump_if_equal",
            Opcode::JumpIfLessEqual => "jump_if_less_equal",
            Opcode::JumpIfLessThan => "jump_if_less_than",
            Opcode::JumpIfNotEqual => "jump_if_not_equal",
            Opcode::JumpIfMoreThan => "jump_if_more_than",
            Opcode::JumpIfMoreEqual => "jump_if_more_equal",
            Opcode::Add => "add",
            Opcode::Sub => "sub",
            Opcode::Mul => "mul",
            Opcode::Div => "div",
            Opcode::Mod => "mod",
            Opcode::Pow => "pow",
            Opcode::AddConstant => "add_constant",
            Opcode::SubConstant => "sub_constant",
            Opcode::MulConstant => "mul_constant",
            Opcode::DivConstant => "div_constant",
            Opcode::ModConstant => "mod_constant",
            Opcode::PowConstant => "pow_constant",
            Opcode::And => "and",
            Opcode::Or => "or",
            Opcode::AndConstant => "and_constant",
            Opcode::OrConstant => "or_constant",
            Opcode::Concat => "concat",
            Opcode::Not => "not",
            Opcode::Minus => "minus",
            Opcode::Length => "length",
            Opcode::NewTable => "new_table",
            Opcode::DupTable => "dup_table",
            Opcode::SetList => "set_list",
            Opcode::ForNumericPrep => "for_numeric_prep",
            Opcode::ForNumericLoop => "for_numeric_loop",
            Opcode::ForGenericLoop => "for_generic_loop",
            Opcode::ForGenericPrepINext => "for_generic_prep_i_next",
            Opcode::ForGenericLoopINext => "for_generic_loop_i_next",
            Opcode::ForGenericPrepNext => "for_generic_prep_next",
            Opcode::ForGenericLoopNext => "for_generic_loop_next",
            Opcode::GetVariadic => "get_variadic",
            Opcode::DupClosure => "dup_closure",
            Opcode::PrepVariadic => "prep_variadic",
            Opcode::LoadConstantEx => "load_constant_ex",
            Opcode::JumpEx => "jump_ex",
            Opcode::FastCall => "fast_call",
            Opcode::Coverage => "coverage",
            Opcode::Capture => "capture",
            Opcode::JumpIfConstant => "jump_if_constant",
            Opcode::JumpIfNotConstant => "jump_if_not_constant",
            Opcode::FastCall1 => "fast_call1",
            Opcode::FastCall2 => "fast_call2",
            Opcode::FastCall2K => "fast_call2_k",
            Opcode::ForGenericPrep => "for_generic_prep",
            Opcode::JumpIfNil => "jump_if_nil",
            Opcode::JumpIfBoolean => "jump_if_boolean",
            Opcode::JumpIfNumber => "jump_if_number",
            Opcode::JumpIfString => "jump_if_string",
        }
    }

    pub fn name_list(self) -> (names: Vec<OpName>)
        ensures
            names@ == self.operands().map_values(|p: (OpName, OpType)| p.0),
    {
        let names = match self {
            Opcode::Nop => Vec::new(),
            Opcode::Break => Vec::new(),
            Opcode::LoadNil => vec![OpName::A],
            Opcode::LoadBoolean => vec![OpName::A, OpName::B, OpName::C],
            Opcode::LoadInteger => vec![OpName::A, OpName::D],
            Opcode::LoadConstant => vec![OpName::A, OpName::B],
            Opcode::Move => vec![OpName::A, OpName::B],
            Opcode::GetGlobal => vec![OpName::A, OpName::X],
            Opcode::SetGlobal => vec![OpName::A, OpName::X],
            Opcode::GetUpValue => vec![OpName::A, OpName::B],
            Opcode::SetUpValue => vec![OpName::A, OpName::B],
            Opcode::CloseUpValues => vec![OpName::A],
            Opcode::GetImport => vec![OpName::A, OpName::D, OpName::X],
            Opcode::GetTable => vec![OpName::A, OpName::B, OpName::C],
            Opcode::SetTable => vec![OpName::A, OpName::B, OpName::C],
            Opcode::GetTableKey => vec![OpName::A, OpName::B, OpName::X],
            Opcode::SetTableKey => vec![OpName::A, OpName::B, OpName::X],
            Opcode::GetTableIndex => vec![OpName::A, OpName::B, OpName::C],
            Opcode::SetTableIndex => vec![OpName::A, OpName::B, OpName::C],
            Opcode::NewClosure => vec![OpName::A, OpName::D],
            Opcode::NameCall => vec![OpName::A, OpName::B, OpName::X],
            Opcode::Call => vec![OpName::A, OpName::B, OpName::C],
            Opcode::Return => vec![OpName::A, OpName::B],
            Opcode::Jump => vec![OpName::D],
            Opcode::JumpSafe => vec![OpName::D],
            Opcode::JumpIfTruthy => vec![OpName::A, OpName::D],
            Opcode::JumpIfFalsy => vec![OpName::A, OpName::D],
            Opcode::JumpIfEqual => vec![OpName::A, OpName::X, OpName::D],
            Opcode::JumpIfLessEqual => vec![OpName::A, OpName::X, OpName::D],
            Opcode::JumpIfLessThan => vec![OpName::A, OpName::X, OpName::D],
            Opcode::JumpIfNotEqual => vec![OpName::A, OpName::X, OpName::D],
            Opcode::JumpIfMoreThan => vec![OpName::A, OpName::X, OpName::D],
            Opcode::JumpIfMoreEqual => vec![OpName::A, OpName::X, OpName::D],
            Opcode::Add => vec![OpName::A, OpName::B, OpName::C],
            Opcode::Sub => vec![OpName::A, OpName::B, OpName::C],
            Opcode::Mul => vec![OpName::A, OpName::B, OpName::C],
            Opcode::Div => vec![OpName::A, OpName::B, OpName::C],
            Opcode::Mod => vec![OpName::A, OpName::B, OpName::C],
            Opcode::Pow => vec![OpName::A, OpName::B, OpName::C],
            Opcode::AddConstant => vec![OpName::A, OpName::B, OpName::C],
            Opcode::SubConstant => vec![OpName::A, OpName::B, OpName::C],
            Opcode::MulConstant => vec![OpName::A, OpName::B, OpName::C],
            Opcode::DivConstant => vec![OpName::A, OpName::B, OpName::C],
            Opcode::ModConstant => vec![OpName::A, OpName::B, OpName::C],
            Opcode::PowConstant => vec![OpName::A, OpName::B, OpName::C],
            Opcode::And => vec![OpName::A, OpName::B, OpName::C],
            Opcode::Or => vec![OpName::A, OpName::B, OpName::C],
            Opcode::AndConstant => vec![OpName::A, OpName::B, OpName::C],
            Opcode::OrConstant => vec![OpName::A, OpName::B, OpName::C],
            Opcode::Concat => vec![OpName::A, OpName::B, OpName::C],
            Opcode::Not => vec![OpName::A, OpName::B],
            Opcode::Minus => vec![OpName::A, OpName::B],
            Opcode::Length => vec![OpName::A, OpName::B],
            Opcode::NewTable => vec![OpName::A, OpName::B, OpName::X],
            Opcode::DupTable => vec![OpName::A, OpName::D],
            Opcode::SetList => vec![OpName::A, OpName::B, OpName::C, OpName::X],
            Opcode::ForNumericPrep => vec![OpName::A, OpName::D],
            Opcode::ForNumericLoop => vec![OpName::A, OpName::D],
            Opcode::ForGenericLoop => vec![OpName::A, OpName::X, OpName::D],
            Opcode::ForGenericPrepINext => vec![OpName::A, OpName::D],
            Opcode::ForGenericLoopINext => vec![OpName::A, OpName::D],
            Opcode::ForGenericPrepNext => vec![OpName::A, OpName::D],
            Opcode::ForGenericLoopNext => vec![OpName::A, OpName::D],
            Opcode::GetVariadic => vec![OpName::A, OpName::B],
            Opcode::DupClosure => vec![OpName::A, OpName::D],
            Opcode::PrepVariadic => vec![OpName::A],
            Opcode::LoadConstantEx => vec![OpName::A, OpName::X],
            Opcode::JumpEx => vec![OpName::E],
            Opcode::FastCall => vec![OpName::A, OpName::C],
            Opcode::Coverage => vec![OpName::E],
            Opcode::Capture => Vec::new(),
            Opcode::JumpIfConstant => vec![OpName::A, OpName::X, OpName::D],
            Opcode::JumpIfNotConstant => vec![OpName::A, OpName::X, OpName::D],
            Opcode::FastCall1 => vec![OpName::A, OpName::B, OpName::C],
            Opcode::FastCall2 => vec![OpName::A, OpName::B, OpName::X, OpName::C],
            Opcode::FastCall2K => vec![OpName::A, OpName::B, OpName::X, OpName::C],
            Opcode::ForGenericPrep => vec![OpName::A, OpName::D],
            Opcode::JumpIfNil => vec![OpName::A, OpName::D, OpName::X],
            Opcode::JumpIfBoolean => vec![OpName::A, OpName::D, OpName::X],
            Opcode::JumpIfNumber => vec![OpName::A, OpName::D, OpName::X],
            Opcode::JumpIfString => vec![OpName::A, OpName::D, OpName::X],
        };
        assert(names@ =~= self.operands().map_values(|p: (OpName, OpType)| p.0));
        names
    }

    pub fn type_list(self) -> (types: Vec<OpType>)
        ensures
            types@ == self.operands().map_values(|p: (OpName, OpType)| p.1),
    {
        let types = match self {
            Opcode::Nop => Vec::new(),
            Opcode::Break => Vec::new(),
            Opcode::LoadNil => vec![OpType::Register],
            Opcode::LoadBoolean => vec![OpType::Register, OpType::Boolean, OpType::Location],
            Opcode::LoadInteger => vec![OpType::Register, OpType::Integer],
            Opcode::LoadConstant => vec![OpType::Register, OpType::Constant],
            Opcode::Move => vec![OpType::Register, OpType::Register],
            Opcode::GetGlobal => vec![OpType::Register, OpType::Constant],
            Opcode::SetGlobal => vec![OpType::Register, OpType::Constant],
            Opcode::GetUpValue => vec![OpType::Register, OpType::UpValue],
            Opcode::SetUpValue => vec![OpType::Register, OpType::UpValue],
            Opcode::CloseUpValues => vec![OpType::Register],
            Opcode::GetImport => vec![OpType::Register, OpType::Constant, OpType::Import],
            Opcode::GetTable => vec![OpType::Register, OpType::Register, OpType::Register],
            Opcode::SetTable => vec![OpType::Register, OpType::Register, OpType::Register],
            Opcode::GetTableKey => vec![OpType::Register, OpType::Register, OpType::Constant],
            Opcode::SetTableKey => vec![OpType::Register, OpType::Register, OpType::Constant],
            Opcode::GetTableIndex => vec![OpType::Register, OpType::Register, OpType::Integer],
            Opcode::SetTableIndex => vec![OpType::Register, OpType::Register, OpType::Integer],
            Opcode::NewClosure => vec![OpType::Register, OpType::Function],
            Opcode::NameCall => vec![OpType::Register, OpType::Register, OpType::Constant],
            Opcode::Call => vec![OpType::Register, OpType::Integer, OpType::Integer],
            Opcode::Return => vec![OpType::Register, OpType::Integer],
            Opcode::Jump => vec![OpType::Location],
            Opcode::JumpSafe => vec![OpType::Location],
            Opcode::JumpIfTruthy => vec![OpType::Register, OpType::Location],
            Opcode::JumpIfFalsy => vec![OpType::Register, OpType::Location],
            Opcode::JumpIfEqual => vec![OpType::Register, OpType::Register, OpType::Location],
            Opcode::JumpIfLessEqual => vec![OpType::Register, OpType::Register, OpType::Location],
            Opcode::JumpIfLessThan => vec![OpType::Register, OpType::Register, OpType::Location],
            Opcode::JumpIfNotEqual => vec![OpType::Register, OpType::Register, OpType::Location],
            Opcode::JumpIfMoreThan => vec![OpType::Register, OpType::Register, OpType::Location],
            Opcode::JumpIfMoreEqual => vec![OpType::Register, OpType::Register, OpType::Location],
            Opcode::Add => vec![OpType::Register, OpType::Register, OpType::Register],
            Opcode::Sub => vec![OpType::Register, OpType::Register, OpType::Register],
            Opcode::Mul => vec![OpType::Register, OpType::Register, OpType::Register],
            Opcode::Div => vec![OpType::Register, OpType::Register, OpType::Register],
            Opcode::Mod => vec![OpType::Register, OpType::Register, OpType::Register],
            Opcode::Pow => vec![OpType::Register, OpType::Register, OpType::Register],
            Opcode::AddConstant => vec![OpType::Register, OpType::Register, OpType::Constant],
            Opcode::SubConstant => vec![OpType::Register, OpType::Register, OpType::Constant],
            Opcode::MulConstant => vec![OpType::Register, OpType::Register, OpType::Constant],
            Opcode::DivConstant => vec![OpType::Register, OpType::Register, OpType::Constant],
            Opcode::ModConstant => vec![OpType::Register, OpType::Register, OpType::Constant],
            Opcode::PowConstant => vec![OpType::Register, OpType::Register, OpType::Constant],
            Opcode::And => vec![OpType::Register, OpType::Register, OpType::Register],
            Opcode::Or => vec![OpType::Register, OpType::Register, OpType::Register],
            Opcode::AndConstant => vec![OpType::Register, OpType::Register, OpType::Constant],
            Opcode::OrConstant => vec![OpType::Register, OpType::Register, OpType::Constant],
            Opcode::Concat => vec![OpType::Register, OpType::Register, OpType::Register],
            Opcode::Not => vec![OpType::Register, OpType::Register],
            Opcode::Minus => vec![OpType::Register, OpType::Register],
            Opcode::Length => vec![OpType::Register, OpType::Register],
            Opcode::NewTable => vec![OpType::Register, OpType::Integer, OpType::Integer],
            Opcode::DupTable => vec![OpType::Register, OpType::Constant],
            Opcode::SetList => vec![OpType::Register, OpType::Register, OpType::Integer, OpType::Integer],
            Opcode::ForNumericPrep => vec![OpType::Register, OpType::Location],
            Opcode::ForNumericLoop => vec![OpType::Register, OpType::Location],
            Opcode::ForGenericLoop => vec![OpType::Register, OpType::Integer, OpType::Location],
            Opcode::ForGenericPrepINext => vec![OpType::Register, OpType::Location],
            Opcode::ForGenericLoopINext => vec![OpType::Register, OpType::Location],
            Opcode::ForGenericPrepNext => vec![OpType::Register, OpType::Location],
            Opcode::ForGenericLoopNext => vec![OpType::Register, OpType::Location],
            Opcode::GetVariadic => vec![OpType::Register, OpType::Integer],
            Opcode::DupClosure => vec![OpType::Register, OpType::Constant],
            Opcode::PrepVariadic => vec![OpType::Integer],
            Opcode::LoadConstantEx => vec![OpType::Register, OpType::Constant],
            Opcode::JumpEx => vec![OpType::Location],
            Opcode::FastCall => vec![OpType::BuiltIn, OpType::Location],
            Opcode::Coverage => vec![OpType::Integer],
            Opcode::Capture => Vec::new(),
            Opcode::JumpIfConstant => vec![OpType::Register, OpType::Constant, OpType::Location],
            Opcode::JumpIfNotConstant => vec![OpType::Register, OpType::Constant, OpType::Location],
            Opcode::FastCall1 => vec![OpType::BuiltIn, OpType::Register, OpType::Location],
            Opcode::FastCall2 => vec![OpType::BuiltIn, OpType::Register, OpType::Register, OpType::Location],
            Opcode::FastCall2K => vec![OpType::BuiltIn, OpType::Register, OpType::Constant, OpType::Location],
            Opcode::ForGenericPrep => vec![OpType::Register, OpType::Location],
            Opcode::JumpIfNil => vec![OpType::Register, OpType::Location, OpType::Integer],
            Opcode::JumpIfBoolean => vec![OpType::Register, OpType::Location, OpType::Integer],
            Opcode::JumpIfNumber => vec![OpType::Register, OpType::Location, OpType::Integer],
            Opcode::JumpIfString => vec![OpType::Register, OpType::Location, OpType::Integer],
        };
        assert(types@ =~= self.operands().map_values(|p: (OpName, OpType)| p.1));
        types
    }

    /// The operands in display order, each with its field and its type.
    pub fn iter_operands(self) -> (list: Vec<(OpName, OpType)>)
        ensures
            list@ == self.operands(),
    {
        let names = self.name_list();
        let types = self.type_list();
        let mut list: Vec<(OpName, OpType)> = Vec::new();
        let mut i: usize = 0;
        while i < names.len()
            invariant
                i <= names.len(),
                names.len() == types.len(),
                names.len() == self.operands().len(),
                names@ == self.operands().map_values(|p: (OpName, OpType)| p.0),
                types@ == self.operands().map_values(|p: (OpName, OpType)| p.1),
                list@ == self.operands().take(i as int),
            decreases names.len() - i,
        {
            list.push((names[i], types[i]));
            assert(list@ =~= self.operands().take(i + 1));
            i += 1;
        }
        assert(list@ =~= self.operands());
        list
    }

    /// The ids are exactly the bytes below `OPCODE_COUNT`: decoding the id of
    /// an opcode gives that opcode back, and a byte decodes to an opcode only
    /// if it is that opcode's id.
    pub proof fn lemma_id_from_id(op: Opcode, byte: u8)
        ensures
            op.id() < OPCODE_COUNT,
            Opcode::from_id(op.id()) == Some(op),
            Opcode::from_id(byte) is Some <==> byte < OPCODE_COUNT,
            Opcode::from_id(byte) == Some(op) <==> op.id() == byte,
    {
    }

    /// An operand is read from the auxiliary word exactly when the opcode has
    /// one, so every operand of an instruction lies inside its encoded length.
    pub proof fn lemma_aux_operand(op: Opcode)
        ensures
            op.has_aux() <==> exists|i: int|
                0 <= i < op.operands().len() && (#[trigger] op.operands()[i]).0 == OpName::X,
            op.operands().len() <= 4,
    {
        let ops = op.operands();
        if op.has_aux() {
            if ops[1].0 == OpName::X {
            } else if ops[2].0 == OpName::X {
            } else {
                assert(ops[3].0 == OpName::X);
            }
        }
    }
}

impl TryFrom<u8> for Opcode {
    type Error = DecodeError;

    fn try_from(byte: u8) -> (r: Result<Opcode, DecodeError>) {
        match byte {
            0 => Ok(Opcode::Nop),
            1 => Ok(Opcode::Break),
            2 => Ok(Opcode::LoadNil),
            3 => Ok(Opcode::LoadBoolean),
            4 => Ok(Opcode::LoadInteger),
            5 => Ok(Opcode::LoadConstant),
            6 => Ok(Opcode::Move),
            7 => Ok(Opcode::GetGlobal),
            8 => Ok(Opcode::SetGlobal),
            9 => Ok(Opcode::GetUpValue),
            10 => Ok(Opcode::SetUpValue),
            11 => Ok(Opcode::CloseUpValues),
            12 => Ok(Opcode::GetImport),
            13 => Ok(Opcode::GetTable),
            14 => Ok(Opcode::SetTable),
            15 => Ok(Opcode::GetTableKey),
            16 => Ok(Opcode::SetTableKey),
            17 => Ok(Opcode::GetTableIndex),
            18 => Ok(Opcode::SetTableIndex),
            19 => Ok(Opcode::NewClosure),
            20 => Ok(Opcode::NameCall),
            21 => Ok(Opcode::Call),
            22 => Ok(Opcode::Return),
            23 => Ok(Opcode::Jump),
            24 => Ok(Opcode::JumpSafe),
            25 => Ok(Opcode::JumpIfTruthy),
            26 => Ok(Opcode::JumpIfFalsy),
            27 => Ok(Opcode::JumpIfEqual),
            28 => Ok(Opcode::JumpIfLessEqual),
            29 => Ok(Opcode::JumpIfLessThan),
            30 => Ok(Opcode::JumpIfNotEqual),
            31 => Ok(Opcode::JumpIfMoreThan),
            32 => Ok(Opcode::JumpIfMoreEqual),
            33 => Ok(Opcode::Add),
            34 => Ok(Opcode::Sub),
            35 => Ok(Opcode::Mul),
            36 => Ok(Opcode::Div),
            37 => Ok(Opcode::Mod),
            38 => Ok(Opcode::Pow),
            39 => Ok(Opcode::AddConstant),
            40 => Ok(Opcode::SubConstant),
            41 => Ok(Opcode::MulConstant),
            42 => Ok(Opcode::DivConstant),
            43 => Ok(Opcode::ModConstant),
            44 => Ok(Opcode::PowConstant),
            45 => Ok(Opcode::And),
            46 => Ok(Opcode::Or),
            47 => Ok(Opcode::AndConstant),
            48 => Ok(Opcode::OrConstant),
            49 => Ok(Opcode::Concat),
            50 => Ok(Opcode::Not),
            51 => Ok(Opcode::Minus),
            52 => Ok(Opcode::Length),
            53 => Ok(Opcode::NewTable),
            54 => Ok(Opcode::DupTable),
            55 => Ok(Opcode::SetList),
            56 => Ok(Opcode::ForNumericPrep),
            57 => Ok(Opcode::ForNumericLoop),
            58 => Ok(Opcode::ForGenericLoop),
            59 => Ok(Opcode::ForGenericPrepINext),
            60 => Ok(Opcode::ForGenericLoopINext),
            61 => Ok(Opcode::ForGenericPrepNext),
            62 => Ok(Opcode::ForGenericLoopNext),
            63 => Ok(Opcode::GetVariadic),
            64 => Ok(Opcode::DupClosure),
            65 => Ok(Opcode::PrepVariadic),
            66 => Ok(Opcode::LoadConstantEx),
            67 => Ok(Opcode::JumpEx),
            68 => Ok(Opcode::FastCall),
            69 => Ok(Opcode::Coverage),
            70 => Ok(Opcode::Capture),
            71 => Ok(Opcode::JumpIfConstant),
            72 => Ok(Opcode::JumpIfNotConstant),
            73 => Ok(Opcode::FastCall1),
            74 => Ok(Opcode::FastCall2),
            75 => Ok(Opcode::FastCall2K),
            76 => Ok(Opcode::ForGenericPrep),
            77 => Ok(Opcode::JumpIfNil),
            78 => Ok(Opcode::JumpIfBoolean),
            79 => Ok(Opcode::JumpIfNumber),
            80 => Ok(Opcode::JumpIfString),
            _ => Err(DecodeError::UnknownOpcode),
        }
    }
}

impl vstd::std_specs::convert::TryFromSpecImpl<u8> for Opcode {
    open spec fn obeys_try_from_spec() -> bool {
        true
    }

    open spec fn try_from_spec(byte: u8) -> Result<Opcode, DecodeError> {
        match Opcode::from_id(byte) {
            Some(op) => Ok(op),
            None => Err(DecodeError::UnknownOpcode),
        }
    }
}

} // verus!
