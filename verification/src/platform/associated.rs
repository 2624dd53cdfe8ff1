use crate::backend::associated::ImplicitExtend;
use vstd::prelude::*;

verus! {

/// The shape shared by the stack slots seen as registers: 8 bytes wide,
/// not part of another register.
#[derive(Clone, Copy, PartialEq, Eq, Structural, Debug)]
pub struct RegisterInfo;

impl RegisterInfo {
    pub fn parent(&self) -> (parent: Option<Register>)
        ensures
            parent is None,
    {
        None
    }

    pub fn size(&self) -> (size: usize)
        ensures
            size == 8,
    {
        8
    }

    pub fn offset(&self) -> (offset: usize)
        ensures
            offset == 0,
    {
        0
    }

    pub fn implicit_extend(&self) -> (extend: ImplicitExtend)
        ensures
            extend == ImplicitExtend::ZeroExtendToFullWidth,
    {
        ImplicitExtend::ZeroExtendToFullWidth
    }
}

/// A stack slot seen as a register, named by its number.
#[derive(Clone, Copy, PartialEq, Eq, Structural, Debug)]
pub struct Register {
    id: u32,
}

impl Register {
    pub closed spec fn spec_id(&self) -> u32 {
        self.id
    }

    pub fn new(id: u32) -> (register: Register)
        ensures
            register.spec_id() == id,
    {
        Register { id }
    }

    pub fn info(&self) -> (info: RegisterInfo)
        ensures
            info == RegisterInfo,
    {
        RegisterInfo
    }

    #[verifier::when_used_as_spec(spec_id)]
    pub fn id(&self) -> (id: u32)
        ensures
            id == self.spec_id(),
    {
        self.id
    }
}

} // verus!
