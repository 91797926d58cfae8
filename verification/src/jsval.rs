//! The engine's values, as far as the accessors read them.
use vstd::prelude::*;
use crate::jsapi::JSObject;

verus! {

/// The content of one slot.
#[derive(Clone, Copy, PartialEq, Eq, Structural, Debug)]
pub enum JSVal {
    /// Anything that is not an object: a number, a string, a boolean, null or
    /// undefined. The word is the value as the engine stores it.
    Primitive(u64),
    /// A reference to an object.
    Object(JSObject),
}

impl JSVal {
    pub open spec fn spec_is_primitive(&self) -> bool {
        *self is Primitive
    }

    /// Whether the value is anything but an object.
    #[verifier::when_used_as_spec(spec_is_primitive)]
    pub fn is_primitive(&self) -> (b: bool)
        ensures
            b == self.spec_is_primitive(),
    {
        match self {
            JSVal::Primitive(_) => true,
            JSVal::Object(_) => false,
        }
    }

    pub open spec fn spec_to_object_or_null(&self) -> Option<JSObject> {
        match *self {
            JSVal::Primitive(_) => None,
            JSVal::Object(obj) => Some(obj),
        }
    }

    /// The object that the value refers to; `None`, the null reference, for a
    /// value that refers to none.
    #[verifier::when_used_as_spec(spec_to_object_or_null)]
    pub fn to_object_or_null(&self) -> (obj: Option<JSObject>)
        ensures
            obj == self.spec_to_object_or_null(),
    {
        match self {
            JSVal::Primitive(_) => None,
            JSVal::Object(obj) => Some(*obj),
        }
    }
}

} // verus!
