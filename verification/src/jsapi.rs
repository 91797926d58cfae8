//! Handles to what lives on the engine's side: contexts, objects and the
//! native functions that the engine calls back. A handle is an address and
//! nothing more; this crate never follows one.
use vstd::prelude::*;

verus! {

/// The engine's boolean: zero is false, anything else true.
pub type JSBool = i32;

/// An execution context of the engine. An accessor that needs the engine
/// hands its context on; none looks inside.
#[derive(Clone, Copy, PartialEq, Eq, Structural, Debug)]
pub struct JSContext {
    pub addr: usize,
}

/// An object in the engine's heap.
#[derive(Clone, Copy, PartialEq, Eq, Structural, Debug)]
pub struct JSObject {
    pub addr: usize,
}

/// A native function that the engine calls back.
#[derive(Clone, Copy, PartialEq, Eq, Structural, Debug)]
pub struct Hook {
    pub addr: usize,
}

/// Hook run when a property is added, deleted or read. `None` leaves the
/// operation to the engine, as it does in every optional hook below.
pub type JSPropertyOp = Option<Hook>;

/// Hook run when a property is written.
pub type JSStrictPropertyOp = Option<Hook>;

/// Hook that lists an object's properties.
pub type JSEnumerateOp = Option<Hook>;

/// Hook that defines a property on first use.
pub type JSResolveOp = Option<Hook>;

/// Hook that converts an object to a primitive value.
pub type JSConvertOp = Option<Hook>;

/// Hook run when an object is destroyed.
pub type JSFinalizeOp = Option<Hook>;

/// Hook that decides whether a property may be accessed.
pub type JSCheckAccessOp = Option<Hook>;

/// Hook run when an object is called, or constructed with.
pub type JSNative = Option<Hook>;

/// Hook behind `instanceof`.
pub type JSHasInstanceOp = Option<Hook>;

/// Hook that shows the collector what an object refers to.
pub type JSTraceOp = Option<Hook>;

} // verus!
