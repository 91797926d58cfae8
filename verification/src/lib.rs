//! Verified model of the embedding surface of a JavaScript engine: the numbers
//! that the engine and its embedder agree on, the records that describe a kind
//! of object to the engine, and the accessors that decode the invocation frame
//! handed to a native callback.
#![allow(non_snake_case)]
#![allow(non_camel_case_types)]
#![allow(non_upper_case_globals)]

pub mod callargs;
pub mod class;
pub mod flags;
pub mod jsapi;
pub mod jsval;

pub use callargs::{JS_ARGV, JS_CALLEE, JS_SET_RVAL, JS_THIS_OBJECT};
pub use class::{Class, ClassExtension, JSObjectOp, ObjectOps};
pub use flags::{
    default_heapsize, default_stacksize, JSGCTraceKind, ERR, JSCLASS_GLOBAL_SLOT_COUNT,
    JSCLASS_HAS_RESERVED_SLOTS, JSCLASS_HIGH_FLAGS_SHIFT, JSCLASS_IS_DOMJSCLASS,
    JSCLASS_IS_GLOBAL, JSCLASS_RESERVED_SLOTS_MASK, JSCLASS_RESERVED_SLOTS_SHIFT,
    JSCLASS_RESERVED_SLOTS_WIDTH, JSCLASS_USERBIT1, JSFUN_CONSTRUCTOR,
    JSID_TYPE_DEFAULT_XML_NAMESPACE, JSID_TYPE_INT, JSID_TYPE_MASK, JSID_TYPE_OBJECT,
    JSID_TYPE_STRING, JSID_TYPE_VOID, JSID_VOID, JSOPTION_METHODJIT, JSOPTION_STRICT,
    JSOPTION_TYPE_INFERENCE, JSOPTION_VAROBJFIX, JSOPTION_WERROR, JSPROP_ENUMERATE,
    JSPROP_GETTER, JSPROP_NATIVE_ACCESSORS, JSPROP_PERMANENT, JSPROP_READONLY, JSPROP_SETTER,
    JSPROP_SHARED, JSRESOLVE_ASSIGNING, JSRESOLVE_DETECTING, JSRESOLVE_QUALIFIED,
    JSSLOT_PROXY_PRIVATE,
};
