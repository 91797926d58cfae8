//! The records that describe a kind of object to the engine. They are plain
//! data: the engine reads them and calls the functions they name. Fields are
//! declared in the order in which the engine lays them out.
use vstd::prelude::*;
use crate::jsapi::{
    Hook, JSCheckAccessOp, JSConvertOp, JSEnumerateOp, JSFinalizeOp, JSHasInstanceOp, JSNative,
    JSPropertyOp, JSResolveOp, JSStrictPropertyOp, JSTraceOp,
};

verus! {

/// Hook that maps an object to another object.
pub type JSObjectOp = Hook;

/// What a kind of native-backed object is called and how it behaves.
///
/// The engine keeps reading a class for as long as any object of it exists,
/// so a class that has been registered must neither move nor change.
#[derive(Clone, Copy, PartialEq, Eq, Structural, Debug)]
pub struct Class {
    /// Address of the class's name, a NUL-terminated string that lives as
    /// long as the class.
    pub name: usize,
    /// Bit set made of the `JSCLASS_` constants.
    pub flags: u32,
    pub addProperty: JSPropertyOp,
    pub delProperty: JSPropertyOp,
    pub getProperty: JSPropertyOp,
    pub setProperty: JSStrictPropertyOp,
    pub enumerate: JSEnumerateOp,
    pub resolve: JSResolveOp,
    pub convert: JSConvertOp,
    pub finalize: JSFinalizeOp,
    pub checkAccess: JSCheckAccessOp,
    pub call: JSNative,
    pub hasInstance: JSHasInstanceOp,
    pub construct: JSNative,
    pub trace: JSTraceOp,
    /// Held in place, not referred to.
    pub ext: ClassExtension,
    /// Held in place, not referred to.
    pub ops: ObjectOps,
}

/// The rarely used part of a class. A field given as an address holds zero
/// where the class has nothing to say; `unused` always does.
#[derive(Clone, Copy, PartialEq, Eq, Structural, Debug)]
pub struct ClassExtension {
    pub equality: usize,
    pub outerObject: Option<JSObjectOp>,
    pub innerObject: Option<JSObjectOp>,
    pub iteratorObject: usize,
    pub unused: usize,
    pub isWrappedNative: usize,
}

/// Per-operation hooks of a class, each the address of a native function, or
/// zero to leave the operation to the engine.
#[derive(Clone, Copy, PartialEq, Eq, Structural, Debug)]
pub struct ObjectOps {
    pub lookupGeneric: usize,
    pub lookupProperty: usize,
    pub lookupElement: usize,
    pub lookupSpecial: usize,
    pub defineGeneric: usize,
    pub defineProperty: usize,
    pub defineElement: usize,
    pub defineSpecial: usize,
    pub getGeneric: usize,
    pub getProperty: usize,
    pub getElement: usize,
    pub getElementIfPresent: usize,
    pub getSpecial: usize,
    pub setGeneric: usize,
    pub setProperty: usize,
    pub setElement: usize,
    pub setSpecial: usize,
    pub getGenericAttributes: usize,
    pub getPropertyAttributes: usize,
    pub getElementAttributes: usize,
    pub getSpecialAttributes: usize,
    pub setGenericAttributes: usize,
    pub setPropertyAttributes: usize,
    pub setElementAttributes: usize,
    pub setSpecialAttributes: usize,
    pub deleteProperty: usize,
    pub deleteElement: usize,
    pub deleteSpecial: usize,
    pub enumerate: usize,
    pub typeOf: usize,
    pub thisObject: Option<JSObjectOp>,
    pub clear: usize,
}

} // verus!
