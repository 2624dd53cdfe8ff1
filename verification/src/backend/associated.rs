use vstd::prelude::*;

verus! {

/// How a write to part of a register treats the rest of it.
#[derive(Clone, Copy, PartialEq, Eq, Structural, Debug)]
pub enum ImplicitExtend {
    NoExtend,
    ZeroExtendToFullWidth,
    SignExtendToFullWidth,
}

/// The shape shared by the machine's registers: 8 bytes wide, not part of
/// another register.
#[derive(Clone, Copy, PartialEq, Eq, Structural, Debug)]
pub struct RegisterInfo;

impl RegisterInfo {
    pub fn parent(&self) -> (parent: Option<Register>)
        ensures
            parent is None,
    {
        None
    }

    pub fn size(&self) -> (size: usize)
        ensures
            size == 8,
    {
        8
    }

    pub fn offset(&self) -> (offset: usize)
        ensures
            offset == 0,
    {
        0
    }

    pub fn implicit_extend(&self) -> (extend: ImplicitExtend)
        ensures
            extend == ImplicitExtend::ZeroExtendToFullWidth,
    {
        ImplicitExtend::ZeroExtendToFullWidth
    }
}

/// The two registers of the abstract machine.
#[derive(Clone, Copy, PartialEq, Eq, Structural, Debug)]
pub enum Register {
    /// The base of the function's stack of 8-byte slots.
    Stack,
    /// Where the function returns to.
    Return,
}

impl Register {
    pub open spec fn spec_id(&self) -> u32 {
        match self {
            Register::Stack => 0,
            Register::Return => 1,
        }
    }

    pub open spec fn spec_name(&self) -> Seq<char> {
        match self {
            Register::Stack => "stack_pointer"@,
            Register::Return => "return_pointer"@,
        }
    }

    pub fn name(&self) -> (name: &'static str)
        ensures
            name@ == self.spec_name(),
    {
        match self {
            Register::Stack => "stack_pointer",
            Register::Return => "return_pointer",
        }
    }

    pub fn info(&self) -> (info: RegisterInfo)
        ensures
            info == RegisterInfo,
    {
        RegisterInfo
    }

    #[verifier::when_used_as_spec(spec_id)]
    pub fn id(&self) -> (id: u32)
        ensures
            id == self.spec_id(),
    {
        match self {
            Register::Stack => 0,
            Register::Return => 1,
        }
    }
}

/// The id was not that of a register.
#[derive(Clone, Copy, PartialEq, Eq, Structural, Debug)]
pub struct UnknownRegister;

impl TryFrom<u8> for Register {
    type Error = UnknownRegister;

    fn try_from(id: u8) -> (r: Result<Register, UnknownRegister>) {
        match id {
            0 => Ok(Register::Stack),
            1 => Ok(Register::Return),
            _ => Err(UnknownRegister),
        }
    }
}

impl vstd::std_specs::convert::TryFromSpecImpl<u8> for Register {
    open spec fn obeys_try_from_spec() -> bool {
        true
    }

    open spec fn try_from_spec(id: u8) -> Result<Register, UnknownRegister> {
        if id == Register::Stack.spec_id() {
            Ok(Register::Stack)
        } else if id == Register::Return.spec_id() {
            Ok(Register::Return)
        } else {
            Err(UnknownRegister)
        }
    }
}

} // verus!
