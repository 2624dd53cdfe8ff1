use vstd::prelude::*;

verus! {

/// The id was not that of a known function.
#[derive(Clone, Copy, PartialEq, Eq, Structural, Debug)]
pub struct UnknownBuiltIn;

/// A function of the runtime that a fast call names by a number.
#[derive(Clone, Copy, PartialEq, Eq, Structural, Debug)]
pub enum BuiltIn {
    Assert,
    Abs,
    Acos,
    Asin,
    Atan2,
    Atan,
    Ceil,
    Cosh,
    Cos,
    Deg,
    Exp,
    Floor,
    Fmod,
    Frexp,
    Ldexp,
    Log10,
    Log,
    Max,
    Min,
    Modf,
    Pow,
    Rad,
    Sinh,
    Sin,
    Sqrt,
    Tanh,
    Tan,
    Arshift,
    Band,
    Bnot,
    Bor,
    Bxor,
    Btest,
    Extract,
    Lrotate,
    Lshift,
    Replace,
    Rrotate,
    Rshift,
    Type,
    Byte,
    Char,
    Len,
    Typeof,
    Sub,
    Clamp,
    Sign,
    Round,
    Rawset,
    Rawget,
    Rawequal,
    Tinsert,
    Tunpack,
    Vector,
    Countlz,
    Countrz,
    Select,
}

impl BuiltIn {
    /// The id of the function; ids start at 1.
    pub open spec fn id(self) -> u8 {
        match self {
            BuiltIn::Assert => 1,
            BuiltIn::Abs => 2,
            BuiltIn::Acos => 3,
            BuiltIn::Asin => 4,
            BuiltIn::Atan2 => 5,
            BuiltIn::Atan => 6,
            BuiltIn::Ceil => 7,
            BuiltIn::Cosh => 8,
            BuiltIn::Cos => 9,
            BuiltIn::Deg => 10,
            BuiltIn::Exp => 11,
            BuiltIn::Floor => 12,
            BuiltIn::Fmod => 13,
            BuiltIn::Frexp => 14,
            BuiltIn::Ldexp => 15,
            BuiltIn::Log10 => 16,
            BuiltIn::Log => 17,
            BuiltIn::Max => 18,
            BuiltIn::Min => 19,
            BuiltIn::Modf => 20,
            BuiltIn::Pow => 21,
            BuiltIn::Rad => 22,
            BuiltIn::Sinh => 23,
            BuiltIn::Sin => 24,
            BuiltIn::Sqrt => 25,
            BuiltIn::Tanh => 26,
            BuiltIn::Tan => 27,
            BuiltIn::Arshift => 28,
            BuiltIn::Band => 29,
            BuiltIn::Bnot => 30,
            BuiltIn::Bor => 31,
            BuiltIn::Bxor => 32,
            BuiltIn::Btest => 33,
            BuiltIn::Extract => 34,
            BuiltIn::Lrotate => 35,
            BuiltIn::Lshift => 36,
            BuiltIn::Replace => 37,
            BuiltIn::Rrotate => 38,
            BuiltIn::Rshift => 39,
            BuiltIn::Type => 40,
            BuiltIn::Byte => 41,
            BuiltIn::Char => 42,
            BuiltIn::Len => 43,
            BuiltIn::Typeof => 44,
            BuiltIn::Sub => 45,
            BuiltIn::Clamp => 46,
            BuiltIn::Sign => 47,
            BuiltIn::Round => 48,
            BuiltIn::Rawset => 49,
            BuiltIn::Rawget => 50,
            BuiltIn::Rawequal => 51,
            BuiltIn::Tinsert => 52,
            BuiltIn::Tunpack => 53,
            BuiltIn::Vector => 54,
            BuiltIn::Countlz => 55,
            BuiltIn::Countrz => 56,
            BuiltIn::Select => 57,
        }
    }

    /// The function with the given id, if any.
    pub open spec fn from_id(id: u8) -> Option<BuiltIn> {
        match id {
            1 => Some(BuiltIn::Assert),
            2 => Some(BuiltIn::Abs),
            3 => Some(BuiltIn::Acos),
            4 => Some(BuiltIn::Asin),
            5 => Some(BuiltIn::Atan2),
            6 => Some(BuiltIn::Atan),
            7 => Some(BuiltIn::Ceil),
            8 => Some(BuiltIn::Cosh),
            9 => Some(BuiltIn::Cos),
            10 => Some(BuiltIn::Deg),
            11 => Some(BuiltIn::Exp),
            12 => Some(BuiltIn::Floor),
            13 => Some(BuiltIn::Fmod),
            14 => Some(BuiltIn::Frexp),
            15 => Some(BuiltIn::Ldexp),
            16 => Some(BuiltIn::Log10),
            17 => Some(BuiltIn::Log),
            18 => Some(BuiltIn::Max),
            19 => Some(BuiltIn::Min),
            20 => Some(BuiltIn::Modf),
            21 => Some(BuiltIn::Pow),
            22 => Some(BuiltIn::Rad),
            23 => Some(BuiltIn::Sinh),
            24 => Some(BuiltIn::Sin),
            25 => Some(BuiltIn::Sqrt),
            26 => Some(BuiltIn::Tanh),
            27 => Some(BuiltIn::Tan),
            28 => Some(BuiltIn::Arshift),
            29 => Some(BuiltIn::Band),
            30 => Some(BuiltIn::Bnot),
            31 => Some(BuiltIn::Bor),
            32 => Some(BuiltIn::Bxor),
            33 => Some(BuiltIn::Btest),
            34 => Some(BuiltIn::Extract),
            35 => Some(BuiltIn::Lrotate),
            36 => Some(BuiltIn::Lshift),
            37 => Some(BuiltIn::Replace),
            38 => Some(BuiltIn::Rrotate),
            39 => Some(BuiltIn::Rshift),
            40 => Some(BuiltIn::Type),
            41 => Some(BuiltIn::Byte),
            42 => Some(BuiltIn::Char),
            43 => Some(BuiltIn::Len),
            44 => Some(BuiltIn::Typeof),
            45 => Some(BuiltIn::Sub),
            46 => Some(BuiltIn::Clamp),
            47 => Some(BuiltIn::Sign),
            48 => Some(BuiltIn::Round),
            49 => Some(BuiltIn::Rawset),
            50 => Some(BuiltIn::Rawget),
            51 => Some(BuiltIn::Rawequal),
            52 => Some(BuiltIn::Tinsert),
            53 => Some(BuiltIn::Tunpack),
            54 => Some(BuiltIn::Vector),
            55 => Some(BuiltIn::Countlz),
            56 => Some(BuiltIn::Countrz),
            57 => Some(BuiltIn::Select),
            _ => None,
        }
    }

    /// The name of the function as a program writes it.
    pub open spec fn spec_name(self) -> Seq<char> {
        match self {
            BuiltIn::Assert => "assert"@,
            BuiltIn::Abs => "math.abs"@,
            BuiltIn::Acos => "math.acos"@,
            BuiltIn::Asin => "math.asin"@,
            BuiltIn::Atan2 => "math.atan2"@,
            BuiltIn::Atan => "math.atan"@,
            BuiltIn::Ceil => "math.ceil"@,
            BuiltIn::Cosh => "math.cosh"@,
            BuiltIn::Cos => "math.cos"@,
            BuiltIn::Deg => "math.deg"@,
            BuiltIn::Exp => "math.exp"@,
            BuiltIn::Floor => "math.floor"@,
            BuiltIn::Fmod => "math.fmod"@,
            BuiltIn::Frexp => "math.frexp"@,
            BuiltIn::Ldexp => "math.ldexp"@,
            BuiltIn::Log10 => "math.log10"@,
            BuiltIn::Log => "math.log"@,
            BuiltIn::Max => "math.max"@,
            BuiltIn::Min => "math.min"@,
            BuiltIn::Modf => "math.modf"@,
            BuiltIn::Pow => "math.pow"@,
            BuiltIn::Rad => "math.rad"@,
            BuiltIn::Sinh => "math.sinh"@,
            BuiltIn::Sin => "math.sin"@,
            BuiltIn::Sqrt => "math.sqrt"@,
            BuiltIn::Tanh => "math.tanh"@,
            BuiltIn::Tan => "math.tan"@,
            BuiltIn::Arshift => "bit32.arshift"@,
            BuiltIn::Band => "bit32.band"@,
            BuiltIn::Bnot => "bit32.bnot"@,
            BuiltIn::Bor => "bit32.bor"@,
            BuiltIn::Bxor => "bit32.bxor"@,
            BuiltIn::Btest => "bit32.btest"@,
            BuiltIn::Extract => "bit32.extract"@,
            BuiltIn::Lrotate => "bit32.lrotate"@,
            BuiltIn::Lshift => "bit32.lshift"@,
            BuiltIn::Replace => "bit32.replace"@,
            BuiltIn::Rrotate => "bit32.rrotate"@,
            BuiltIn::Rshift => "bit32.rshift"@,
            BuiltIn::Type => "type"@,
            BuiltIn::Byte => "string.byte"@,
            BuiltIn::Char => "string.char"@,
            BuiltIn::Len => "string.len"@,
            BuiltIn::Typeof => "typeof"@,
            BuiltIn::Sub => "string.sub"@,
            BuiltIn::Clamp => "math.clamp"@,
            BuiltIn::Sign => "math.sign"@,
            BuiltIn::Round => "math.round"@,
            BuiltIn::Rawset => "rawset"@,
            BuiltIn::Rawget => "rawget"@,
            BuiltIn::Rawequal => "rawequal"@,
            BuiltIn::Tinsert => "table.insert"@,
            BuiltIn::Tunpack => "table.unpack"@,
            BuiltIn::Vector => "vector"@,
            BuiltIn::Countlz => "bit32.countlz"@,
            BuiltIn::Countrz => "bit32.countrz"@,
            BuiltIn::Select => "select"@,
        }
    }

    pub fn name(self) -> (name: &'static str)
        ensures
            name@ == self.spec_name(),
    {
        match self {
            BuiltIn::Assert => "assert",
            BuiltIn::Abs => "math.abs",
            BuiltIn::Acos => "math.acos",
            BuiltIn::Asin => "math.asin",
            BuiltIn::Atan2 => "math.atan2",
            BuiltIn::Atan => "math.atan",
            BuiltIn::Ceil => "math.ceil",
            BuiltIn::Cosh => "math.cosh",
            BuiltIn::Cos => "math.cos",
            BuiltIn::Deg => "math.deg",
            BuiltIn::Exp => "math.exp",
            BuiltIn::Floor => "math.floor",
            BuiltIn::Fmod => "math.fmod",
            BuiltIn::Frexp => "math.frexp",
            BuiltIn::Ldexp => "math.ldexp",
            BuiltIn::Log10 => "math.log10",
            BuiltIn::Log => "math.log",
            BuiltIn::Max => "math.max",
            BuiltIn::Min => "math.min",
            BuiltIn::Modf => "math.modf",
            BuiltIn::Pow => "math.pow",
            BuiltIn::Rad => "math.rad",
            BuiltIn::Sinh => "math.sinh",
            BuiltIn::Sin => "math.sin",
            BuiltIn::Sqrt => "math.sqrt",
            BuiltIn::Tanh => "math.tanh",
            BuiltIn::Tan => "math.tan",
            BuiltIn::Arshift => "bit32.arshift",
            BuiltIn::Band => "bit32.band",
            BuiltIn::Bnot => "bit32.bnot",
            BuiltIn::Bor => "bit32.bor",
            BuiltIn::Bxor => "bit32.bxor",
            BuiltIn::Btest => "bit32.btest",
            BuiltIn::Extract => "bit32.extract",
            BuiltIn::Lrotate => "bit32.lrotate",
            BuiltIn::Lshift => "bit32.lshift",
            BuiltIn::Replace => "bit32.replace",
            BuiltIn::Rrotate => "bit32.rrotate",
            BuiltIn::Rshift => "bit32.rshift",
            BuiltIn::Type => "type",
            BuiltIn::Byte => "string.byte",
            BuiltIn::Char => "string.char",
            BuiltIn::Len => "string.len",
            BuiltIn::Typeof => "typeof",
            BuiltIn::Sub => "string.sub",
            BuiltIn::Clamp => "math.clamp",
            BuiltIn::Sign => "math.sign",
            BuiltIn::Round => "math.round",
            BuiltIn::Rawset => "rawset",
            BuiltIn::Rawget => "rawget",
            BuiltIn::Rawequal => "rawequal",
            BuiltIn::Tinsert => "table.insert",
            BuiltIn::Tunpack => "table.unpack",
            BuiltIn::Vector => "vector",
            BuiltIn::Countlz => "bit32.countlz",
            BuiltIn::Countrz => "bit32.countrz",
            BuiltIn::Select => "select",
        }
    }

    /// The name as an owned string.
    pub fn to_string(self) -> (name: String)
        ensures
            name@ == self.spec_name(),
    {
        self.name().to_owned()
    }

    /// The ids are the numbers from 1 to 57, one for each function.
    pub proof fn lemma_id_from_id(known: BuiltIn, id: u8)
        ensures
            1 <= known.id() <= 57,
            BuiltIn::from_id(known.id()) == Some(known),
            BuiltIn::from_id(id) is Some <==> 1 <= id <= 57,
            BuiltIn::from_id(id) == Some(known) <==> known.id() == id,
    {
    }
}

impl TryFrom<u8> for BuiltIn {
    type Error = UnknownBuiltIn;

    fn try_from(other: u8) -> (r: Result<BuiltIn, UnknownBuiltIn>) {
        match other {
            1 => Ok(BuiltIn::Assert),
            2 => Ok(BuiltIn::Abs),
            3 => Ok(BuiltIn::Acos),
            4 => Ok(BuiltIn::Asin),
            5 => Ok(BuiltIn::Atan2),
            6 => Ok(BuiltIn::Atan),
            7 => Ok(BuiltIn::Ceil),
            8 => Ok(BuiltIn::Cosh),
            9 => Ok(BuiltIn::Cos),
            10 => Ok(BuiltIn::Deg),
            11 => Ok(BuiltIn::Exp),
            12 => Ok(BuiltIn::Floor),
            13 => Ok(BuiltIn::Fmod),
            14 => Ok(BuiltIn::Frexp),
            15 => Ok(BuiltIn::Ldexp),
            16 => Ok(BuiltIn::Log10),
            17 => Ok(BuiltIn::Log),
            18 => Ok(BuiltIn::Max),
            19 => Ok(BuiltIn::Min),
            20 => Ok(BuiltIn::Modf),
            21 => Ok(BuiltIn::Pow),
            22 => Ok(BuiltIn::Rad),
            23 => Ok(BuiltIn::Sinh),
            24 => Ok(BuiltIn::Sin),
            25 => Ok(BuiltIn::Sqrt),
            26 => Ok(BuiltIn::Tanh),
            27 => Ok(BuiltIn::Tan),
            28 => Ok(BuiltIn::Arshift),
            29 => Ok(BuiltIn::Band),
            30 => Ok(BuiltIn::Bnot),
            31 => Ok(BuiltIn::Bor),
            32 => Ok(BuiltIn::Bxor),
            33 => Ok(BuiltIn::Btest),
            34 => Ok(BuiltIn::Extract),
            35 => Ok(BuiltIn::Lrotate),
            36 => Ok(BuiltIn::Lshift),
            37 => Ok(BuiltIn::Replace),
            38 => Ok(BuiltIn::Rrotate),
            39 => Ok(BuiltIn::Rshift),
            40 => Ok(BuiltIn::Type),
            41 => Ok(BuiltIn::Byte),
            42 => Ok(BuiltIn::Char),
            43 => Ok(BuiltIn::Len),
            44 => Ok(BuiltIn::Typeof),
            45 => Ok(BuiltIn::Sub),
            46 => Ok(BuiltIn::Clamp),
            47 => Ok(BuiltIn::Sign),
            48 => Ok(BuiltIn::Round),
            49 => Ok(BuiltIn::Rawset),
            50 => Ok(BuiltIn::Rawget),
            51 => Ok(BuiltIn::Rawequal),
            52 => Ok(BuiltIn::Tinsert),
            53 => Ok(BuiltIn::Tunpack),
            54 => Ok(BuiltIn::Vector),
            55 => Ok(BuiltIn::Countlz),
            56 => Ok(BuiltIn::Countrz),
            57 => Ok(BuiltIn::Select),
            _ => Err(UnknownBuiltIn),
        }
    }
}

impl vstd::std_specs::convert::TryFromSpecImpl<u8> for BuiltIn {
    open spec fn obeys_try_from_spec() -> bool {
        true
    }

    open spec fn try_from_spec(other: u8) -> Result<BuiltIn, UnknownBuiltIn> {
        match BuiltIn::from_id(other) {
            Some(known) => Ok(known),
            None => Err(UnknownBuiltIn),
        }
    }
}

} // verus!
