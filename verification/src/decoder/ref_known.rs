use vstd::prelude::*;

verus! {

/// The id was not that of a known function.
#[derive(Clone, Copy, PartialEq, Eq, Structural, Debug)]
pub struct UnknownReference;

/// A function of the runtime that a reference can name by a number.
#[derive(Clone, Copy, PartialEq, Eq, Structural, Debug)]
pub enum RefKnown {
    Assert,
    Abs,
    Acos,
    Asin,
    Atan2,
    Atan,
    Ceil,
    Cosh,
    Cos,
    Deg,
    Exp,
    Floor,
    Fmod,
    Frexp,
    Ldexp,
    Log10,
    Log,
    Max,
    Min,
    Modf,
    Pow,
    Rad,
    Sinh,
    Sin,
    Sqrt,
    Tanh,
    Tan,
    Arshift,
    Band,
    Bnot,
    Bor,
    Bxor,
    Btest,
    Extract,
    Lrotate,
    Lshift,
    Replace,
    Rrotate,
    Rshift,
    Type,
    Byte,
    Char,
    Len,
    Typeof,
    Sub,
    Clamp,
    Sign,
    Round,
    Rawset,
    Rawget,
    Rawequal,
    Tinsert,
    Tunpack,
    Vector,
    Countlz,
    Countrz,
    Select,
}

impl RefKnown {
    /// The id of the function; ids start at 1.
    pub open spec fn id(self) -> u8 {
        match self {
            RefKnown::Assert => 1,
            RefKnown::Abs => 2,
            RefKnown::Acos => 3,
            RefKnown::Asin => 4,
            RefKnown::Atan2 => 5,
            RefKnown::Atan => 6,
            RefKnown::Ceil => 7,
            RefKnown::Cosh => 8,
            RefKnown::Cos => 9,
            RefKnown::Deg => 10,
            RefKnown::Exp => 11,
            RefKnown::Floor => 12,
            RefKnown::Fmod => 13,
            RefKnown::Frexp => 14,
            RefKnown::Ldexp => 15,
            RefKnown::Log10 => 16,
            RefKnown::Log => 17,
            RefKnown::Max => 18,
            RefKnown::Min => 19,
            RefKnown::Modf => 20,
            RefKnown::Pow => 21,
            RefKnown::Rad => 22,
            RefKnown::Sinh => 23,
            RefKnown::Sin => 24,
            RefKnown::Sqrt => 25,
            RefKnown::Tanh => 26,
            RefKnown::Tan => 27,
            RefKnown::Arshift => 28,
            RefKnown::Band => 29,
            RefKnown::Bnot => 30,
            RefKnown::Bor => 31,
            RefKnown::Bxor => 32,
            RefKnown::Btest => 33,
            RefKnown::Extract => 34,
            RefKnown::Lrotate => 35,
            RefKnown::Lshift => 36,
            RefKnown::Replace => 37,
            RefKnown::Rrotate => 38,
            RefKnown::Rshift => 39,
            RefKnown::Type => 40,
            RefKnown::Byte => 41,
            RefKnown::Char => 42,
            RefKnown::Len => 43,
            RefKnown::Typeof => 44,
            RefKnown::Sub => 45,
            RefKnown::Clamp => 46,
            RefKnown::Sign => 47,
            RefKnown::Round => 48,
            RefKnown::Rawset => 49,
            RefKnown::Rawget => 50,
            RefKnown::Rawequal => 51,
            RefKnown::Tinsert => 52,
            RefKnown::Tunpack => 53,
            RefKnown::Vector => 54,
            RefKnown::Countlz => 55,
            RefKnown::Countrz => 56,
            RefKnown::Select => 57,
        }
    }

    /// The function with the given id, if any.
    pub open spec fn from_id(id: u8) -> Option<RefKnown> {
        match id {
            1 => Some(RefKnown::Assert),
            2 => Some(RefKnown::Abs),
            3 => Some(RefKnown::Acos),
            4 => Some(RefKnown::Asin),
            5 => Some(RefKnown::Atan2),
            6 => Some(RefKnown::Atan),
            7 => Some(RefKnown::Ceil),
            8 => Some(RefKnown::Cosh),
            9 => Some(RefKnown::Cos),
            10 => Some(RefKnown::Deg),
            11 => Some(RefKnown::Exp),
            12 => Some(RefKnown::Floor),
            13 => Some(RefKnown::Fmod),
            14 => Some(RefKnown::Frexp),
            15 => Some(RefKnown::Ldexp),
            16 => Some(RefKnown::Log10),
            17 => Some(RefKnown::Log),
            18 => Some(RefKnown::Max),
            19 => Some(RefKnown::Min),
            20 => Some(RefKnown::Modf),
            21 => Some(RefKnown::Pow),
            22 => Some(RefKnown::Rad),
            23 => Some(RefKnown::Sinh),
            24 => Some(RefKnown::Sin),
            25 => Some(RefKnown::Sqrt),
            26 => Some(RefKnown::Tanh),
            27 => Some(RefKnown::Tan),
            28 => Some(RefKnown::Arshift),
            29 => Some(RefKnown::Band),
            30 => Some(RefKnown::Bnot),
            31 => Some(RefKnown::Bor),
            32 => Some(RefKnown::Bxor),
            33 => Some(RefKnown::Btest),
            34 => Some(RefKnown::Extract),
            35 => Some(RefKnown::Lrotate),
            36 => Some(RefKnown::Lshift),
            37 => Some(RefKnown::Replace),
            38 => Some(RefKnown::Rrotate),
            39 => Some(RefKnown::Rshift),
            40 => Some(RefKnown::Type),
            41 => Some(RefKnown::Byte),
            42 => Some(RefKnown::Char),
            43 => Some(RefKnown::Len),
            44 => Some(RefKnown::Typeof),
            45 => Some(RefKnown::Sub),
            46 => Some(RefKnown::Clamp),
            47 => Some(RefKnown::Sign),
            48 => Some(RefKnown::Round),
            49 => Some(RefKnown::Rawset),
            50 => Some(RefKnown::Rawget),
            51 => Some(RefKnown::Rawequal),
            52 => Some(RefKnown::Tinsert),
            53 => Some(RefKnown::Tunpack),
            54 => Some(RefKnown::Vector),
            55 => Some(RefKnown::Countlz),
            56 => Some(RefKnown::Countrz),
            57 => Some(RefKnown::Select),
            _ => None,
        }
    }

    /// The name of the function as a program writes it.
    pub open spec fn spec_name(self) -> Seq<char> {
        match self {
            RefKnown::Assert => "assert"@,
            RefKnown::Abs => "math.abs"@,
            RefKnown::Acos => "math.acos"@,
            RefKnown::Asin => "math.asin"@,
            RefKnown::Atan2 => "math.atan2"@,
            RefKnown::Atan => "math.atan"@,
            RefKnown::Ceil => "math.ceil"@,
            RefKnown::Cosh => "math.cosh"@,
            RefKnown::Cos => "math.cos"@,
            RefKnown::Deg => "math.deg"@,
            RefKnown::Exp => "math.exp"@,
            RefKnown::Floor => "math.floor"@,
            RefKnown::Fmod => "math.fmod"@,
            RefKnown::Frexp => "math.frexp"@,
            RefKnown::Ldexp => "math.ldexp"@,
            RefKnown::Log10 => "math.log10"@,
            RefKnown::Log => "math.log"@,
            RefKnown::Max => "math.max"@,
            RefKnown::Min => "math.min"@,
            RefKnown::Modf => "math.modf"@,
            RefKnown::Pow => "math.pow"@,
            RefKnown::Rad => "math.rad"@,
            RefKnown::Sinh => "math.sinh"@,
            RefKnown::Sin => "math.sin"@,
            RefKnown::Sqrt => "math.sqrt"@,
            RefKnown::Tanh => "math.tanh"@,
            RefKnown::Tan => "math.tan"@,
            RefKnown::Arshift => "bit32.arshift"@,
            RefKnown::Band => "bit32.band"@,
            RefKnown::Bnot => "bit32.bnot"@,
            RefKnown::Bor => "bit32.bor"@,
            RefKnown::Bxor => "bit32.bxor"@,
            RefKnown::Btest => "bit32.btest"@,
            RefKnown::Extract => "bit32.extract"@,
            RefKnown::Lrotate => "bit32.lrotate"@,
            RefKnown::Lshift => "bit32.lshift"@,
            RefKnown::Replace => "bit32.replace"@,
            RefKnown::Rrotate => "bit32.rrotate"@,
            RefKnown::Rshift => "bit32.rshift"@,
            RefKnown::Type => "type"@,
            RefKnown::Byte => "string.byte"@,
            RefKnown::Char => "string.char"@,
            RefKnown::Len => "string.len"@,
            RefKnown::Typeof => "typeof"@,
            RefKnown::Sub => "string.sub"@,
            RefKnown::Clamp => "math.clamp"@,
            RefKnown::Sign => "math.sign"@,
            RefKnown::Round => "math.round"@,
            RefKnown::Rawset => "rawset"@,
            RefKnown::Rawget => "rawget"@,
            RefKnown::Rawequal => "rawequal"@,
            RefKnown::Tinsert => "table.insert"@,
            RefKnown::Tunpack => "table.unpack"@,
            RefKnown::Vector => "vector"@,
            RefKnown::Countlz => "bit32.countlz"@,
            RefKnown::Countrz => "bit32.countrz"@,
            RefKnown::Select => "select"@,
        }
    }

    pub fn name(self) -> (name: &'static str)
        ensures
            name@ == self.spec_name(),
    {
        match self {
            RefKnown::Assert => "assert",
            RefKnown::Abs => "math.abs",
            RefKnown::Acos => "math.acos",
            RefKnown::Asin => "math.asin",
            RefKnown::Atan2 => "math.atan2",
            RefKnown::Atan => "math.atan",
            RefKnown::Ceil => "math.ceil",
            RefKnown::Cosh => "math.cosh",
            RefKnown::Cos => "math.cos",
            RefKnown::Deg => "math.deg",
            RefKnown::Exp => "math.exp",
            RefKnown::Floor => "math.floor",
            RefKnown::Fmod => "math.fmod",
            RefKnown::Frexp => "math.frexp",
            RefKnown::Ldexp => "math.ldexp",
            RefKnown::Log10 => "math.log10",
            RefKnown::Log => "math.log",
            RefKnown::Max => "math.max",
            RefKnown::Min => "math.min",
            RefKnown::Modf => "math.modf",
            RefKnown::Pow => "math.pow",
            RefKnown::Rad => "math.rad",
            RefKnown::Sinh => "math.sinh",
            RefKnown::Sin => "math.sin",
            RefKnown::Sqrt => "math.sqrt",
            RefKnown::Tanh => "math.tanh",
            RefKnown::Tan => "math.tan",
            RefKnown::Arshift => "bit32.arshift",
            RefKnown::Band => "bit32.band",
            RefKnown::Bnot => "bit32.bnot",
            RefKnown::Bor => "bit32.bor",
            RefKnown::Bxor => "bit32.bxor",
            RefKnown::Btest => "bit32.btest",
            RefKnown::Extract => "bit32.extract",
            RefKnown::Lrotate => "bit32.lrotate",
            RefKnown::Lshift => "bit32.lshift",
            RefKnown::Replace => "bit32.replace",
            RefKnown::Rrotate => "bit32.rrotate",
            RefKnown::Rshift => "bit32.rshift",
            RefKnown::Type => "type",
            RefKnown::Byte => "string.byte",
            RefKnown::Char => "string.char",
            RefKnown::Len => "string.len",
            RefKnown::Typeof => "typeof",
            RefKnown::Sub => "string.sub",
            RefKnown::Clamp => "math.clamp",
            RefKnown::Sign => "math.sign",
            RefKnown::Round => "math.round",
            RefKnown::Rawset => "rawset",
            RefKnown::Rawget => "rawget",
            RefKnown::Rawequal => "rawequal",
            RefKnown::Tinsert => "table.insert",
            RefKnown::Tunpack => "table.unpack",
            RefKnown::Vector => "vector",
            RefKnown::Countlz => "bit32.countlz",
            RefKnown::Countrz => "bit32.countrz",
            RefKnown::Select => "select",
        }
    }

    /// The name as an owned string.
    pub fn to_string(self) -> (name: String)
        ensures
            name@ == self.spec_name(),
    {
        self.name().to_owned()
    }

    /// The ids are the numbers from 1 to 57, one for each function.
    pub proof fn lemma_id_from_id(known: RefKnown, id: u8)
        ensures
            1 <= known.id() <= 57,
            RefKnown::from_id(known.id()) == Some(known),
            RefKnown::from_id(id) is Some <==> 1 <= id <= 57,
            RefKnown::from_id(id) == Some(known) <==> known.id() == id,
    {
    }
}

impl TryFrom<u8> for RefKnown {
    type Error = UnknownReference;

    fn try_from(other: u8) -> (r: Result<RefKnown, UnknownReference>) {
        match other {
            1 => Ok(RefKnown::Assert),
            2 => Ok(RefKnown::Abs),
            3 => Ok(RefKnown::Acos),
            4 => Ok(RefKnown::Asin),
            5 => Ok(RefKnown::Atan2),
            6 => Ok(RefKnown::Atan),
            7 => Ok(RefKnown::Ceil),
            8 => Ok(RefKnown::Cosh),
            9 => Ok(RefKnown::Cos),
            10 => Ok(RefKnown::Deg),
            11 => Ok(RefKnown::Exp),
            12 => Ok(RefKnown::Floor),
            13 => Ok(RefKnown::Fmod),
            14 => Ok(RefKnown::Frexp),
            15 => Ok(RefKnown::Ldexp),
            16 => Ok(RefKnown::Log10),
            17 => Ok(RefKnown::Log),
            18 => Ok(RefKnown::Max),
            19 => Ok(RefKnown::Min),
            20 => Ok(RefKnown::Modf),
            21 => Ok(RefKnown::Pow),
            22 => Ok(RefKnown::Rad),
            23 => Ok(RefKnown::Sinh),
            24 => Ok(RefKnown::Sin),
            25 => Ok(RefKnown::Sqrt),
            26 => Ok(RefKnown::Tanh),
            27 => Ok(RefKnown::Tan),
            28 => Ok(RefKnown::Arshift),
            29 => Ok(RefKnown::Band),
            30 => Ok(RefKnown::Bnot),
            31 => Ok(RefKnown::Bor),
            32 => Ok(RefKnown::Bxor),
            33 => Ok(RefKnown::Btest),
            34 => Ok(RefKnown::Extract),
            35 => Ok(RefKnown::Lrotate),
            36 => Ok(RefKnown::Lshift),
            37 => Ok(RefKnown::Replace),
            38 => Ok(RefKnown::Rrotate),
            39 => Ok(RefKnown::Rshift),
            40 => Ok(RefKnown::Type),
            41 => Ok(RefKnown::Byte),
            42 => Ok(RefKnown::Char),
            43 => Ok(RefKnown::Len),
            44 => Ok(RefKnown::Typeof),
            45 => Ok(RefKnown::Sub),
            46 => Ok(RefKnown::Clamp),
            47 => Ok(RefKnown::Sign),
            48 => Ok(RefKnown::Round),
            49 => Ok(RefKnown::Rawset),
            50 => Ok(RefKnown::Rawget),
            51 => Ok(RefKnown::Rawequal),
            52 => Ok(RefKnown::Tinsert),
            53 => Ok(RefKnown::Tunpack),
            54 => Ok(RefKnown::Vector),
            55 => Ok(RefKnown::Countlz),
            56 => Ok(RefKnown::Countrz),
            57 => Ok(RefKnown::Select),
            _ => Err(UnknownReference),
        }
    }
}

impl vstd::std_specs::convert::TryFromSpecImpl<u8> for RefKnown {
    open spec fn obeys_try_from_spec() -> bool {
        true
    }

    open spec fn try_from_spec(other: u8) -> Result<RefKnown, UnknownReference> {
        match RefKnown::from_id(other) {
            Some(known) => Ok(known),
            None => Err(UnknownReference),
        }
    }
}

} // verus!
