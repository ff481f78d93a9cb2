use vstd::prelude::*;
use crate::wrap::{Handle, Wrapper};
use crate::ty::Ty;
use std::marker::PhantomData;

verus! {

/// Raw handle of a foreign value.
pub type ValueRef = Handle;

/// A metadata node or string.
#[derive(Clone, Copy, PartialEq, Eq, Structural, Debug)]
pub struct Metadata {
    r: ValueRef,
}

/// A function declared or defined in a module.
#[derive(Clone, Copy, PartialEq, Eq, Structural, Debug)]
pub struct Function {
    r: ValueRef,
}

/// A global variable whose element type is `T`.
pub struct Global<T: Ty> {
    r: ValueRef,
    ty: PhantomData<T>,
}

impl Wrapper<ValueRef> for Metadata {
    closed spec fn handle(&self) -> ValueRef {
        self.r
    }

    fn from_ref(r: ValueRef) -> (w: Metadata) {
        Metadata { r }
    }

    fn to_ref(&self) -> (r: ValueRef) {
        self.r
    }
}

impl Wrapper<ValueRef> for Function {
    closed spec fn handle(&self) -> ValueRef {
        self.r
    }

    fn from_ref(r: ValueRef) -> (w: Function) {
        Function { r }
    }

    fn to_ref(&self) -> (r: ValueRef) {
        self.r
    }
}

impl<T: Ty> Wrapper<ValueRef> for Global<T> {
    closed spec fn handle(&self) -> ValueRef {
        self.r
    }

    fn from_ref(r: ValueRef) -> (w: Global<T>) {
        Global { r, ty: PhantomData }
    }

    fn to_ref(&self) -> (r: ValueRef) {
        self.r
    }
}

} // verus!
