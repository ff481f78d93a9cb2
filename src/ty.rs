use vstd::prelude::*;
use crate::wrap::{Handle, Wrapper};

verus! {

/// Raw handle of a foreign type.
pub type TypeRef = Handle;

/// Any IR type.
#[derive(Clone, Copy, PartialEq, Eq, Structural, Debug)]
pub struct Type {
    r: TypeRef,
}

/// A function type.
#[derive(Clone, Copy, PartialEq, Eq, Structural, Debug)]
pub struct Function {
    r: TypeRef,
}

/// The typed wrappers that denote an IR type.
pub trait Ty: Wrapper<TypeRef> {
}

impl Wrapper<TypeRef> for Type {
    closed spec fn handle(&self) -> TypeRef {
        self.r
    }

    fn from_ref(r: TypeRef) -> (w: Type) {
        Type { r }
    }

    fn to_ref(&self) -> (r: TypeRef) {
        self.r
    }
}

impl Wrapper<TypeRef> for Function {
    closed spec fn handle(&self) -> TypeRef {
        self.r
    }

    fn from_ref(r: TypeRef) -> (w: Function) {
        Function { r }
    }

    fn to_ref(&self) -> (r: TypeRef) {
        self.r
    }
}

impl Ty for Type {
}

impl Ty for Function {
}

} // verus!
