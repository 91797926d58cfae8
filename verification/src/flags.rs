//! The numbers that the engine and its embedder agree on: option, property,
//! class and resolve flags, identifier tags, and the defaults for a new
//! runtime. Each has the value that the engine's own header gives it.
use vstd::prelude::*;
use crate::jsapi::JSBool;

verus! {

// Context options. The engine knows more than these.
pub const JSOPTION_STRICT: u32 = 0b00000000000001;

pub const JSOPTION_WERROR: u32 = 0b00000000000010;

pub const JSOPTION_VAROBJFIX: u32 = 0b00000000000100;

pub const JSOPTION_METHODJIT: u32 = 1 << 14;

pub const JSOPTION_TYPE_INFERENCE: u32 = 1 << 18;

/// Heap size, in bytes, to create a runtime with.
pub const default_heapsize: u32 = 32 * 1024 * 1024;

/// Stack size to create a context with.
pub const default_stacksize: usize = 8192;

/// The engine's boolean for "failed".
pub const ERR: JSBool = 0;

// Tags in the low bits of an identifier, which say what the rest of it holds.
pub const JSID_TYPE_STRING: i64 = 0;

pub const JSID_TYPE_INT: i64 = 1;

pub const JSID_TYPE_VOID: i64 = 2;

pub const JSID_TYPE_OBJECT: i64 = 4;

pub const JSID_TYPE_DEFAULT_XML_NAMESPACE: i64 = 6;

/// The bits of an identifier that hold its tag.
pub const JSID_TYPE_MASK: i64 = 7;

/// The identifier that names nothing: the void tag and no payload.
pub const JSID_VOID: i64 = JSID_TYPE_VOID;

/// Function flag: a native that can be called as a constructor.
pub const JSFUN_CONSTRUCTOR: u32 = 0x200;

// Property attributes.
pub const JSPROP_ENUMERATE: u32 = 0x01;

pub const JSPROP_READONLY: u32 = 0x02;

pub const JSPROP_PERMANENT: u32 = 0x04;

pub const JSPROP_GETTER: u32 = 0x10;

pub const JSPROP_SETTER: u32 = 0x20;

pub const JSPROP_SHARED: u32 = 0x40;

pub const JSPROP_NATIVE_ACCESSORS: u32 = 0x08;

/// Position of the reserved-slot count inside a class's `flags` word.
pub const JSCLASS_RESERVED_SLOTS_SHIFT: u32 = 8;

/// Number of bits that the reserved-slot count occupies.
pub const JSCLASS_RESERVED_SLOTS_WIDTH: u32 = 8;

/// All ones over the width of the reserved-slot count.
pub const JSCLASS_RESERVED_SLOTS_MASK: u32 = 0xff;

/// Position of the first class flag above the reserved-slot count.
pub const JSCLASS_HIGH_FLAGS_SHIFT: u32 = JSCLASS_RESERVED_SLOTS_SHIFT
    + JSCLASS_RESERVED_SLOTS_WIDTH;

/// Class flag: objects of the class are global objects.
pub const JSCLASS_IS_GLOBAL: u32 = 1 << (JSCLASS_HIGH_FLAGS_SHIFT + 1);

/// Class flag: the class belongs to a DOM binding.
pub const JSCLASS_IS_DOMJSCLASS: u32 = 1 << 4;

/// Class flag left to the embedder.
pub const JSCLASS_USERBIT1: u32 = 1 << 7;

/// Reserved slot in which a proxy keeps its private value.
pub const JSSLOT_PROXY_PRIVATE: u32 = 1;

// Flags handed to a resolve hook.
pub const JSRESOLVE_QUALIFIED: u32 = 0x01;

pub const JSRESOLVE_ASSIGNING: u32 = 0x02;

pub const JSRESOLVE_DETECTING: u32 = 0x04;

/// What kind of thing the collector is tracing.
#[derive(Clone, Copy, PartialEq, Eq, Structural, Debug)]
pub enum JSGCTraceKind {
    JSTRACE_OBJECT,
    JSTRACE_STRING,
    JSTRACE_SCRIPT,
}

/// The constants that are written as expressions have the numbers that the
/// engine's header publishes, and the reserved-slot mask is all ones over the
/// reserved-slot width.
pub proof fn lemma_flag_values()
    ensures
        JSOPTION_METHODJIT == 0x4000,
        JSOPTION_TYPE_INFERENCE == 0x40000,
        default_heapsize == 0x200_0000,
        JSCLASS_RESERVED_SLOTS_MASK == (1u32 << JSCLASS_RESERVED_SLOTS_WIDTH) - 1,
        JSCLASS_HIGH_FLAGS_SHIFT == 16,
        JSCLASS_IS_GLOBAL == 0x2_0000,
        JSCLASS_IS_DOMJSCLASS == 0x10,
        JSCLASS_USERBIT1 == 0x80,
{
    assert(JSOPTION_METHODJIT == 0x4000) by (bit_vector);
    assert(JSOPTION_TYPE_INFERENCE == 0x40000) by (bit_vector);
    assert(JSCLASS_RESERVED_SLOTS_MASK == (1u32 << JSCLASS_RESERVED_SLOTS_WIDTH) - 1)
        by (bit_vector);
    assert(JSCLASS_IS_GLOBAL == 0x2_0000) by (bit_vector);
    assert(JSCLASS_IS_DOMJSCLASS == 0x10) by (bit_vector);
    assert(JSCLASS_USERBIT1 == 0x80) by (bit_vector);
}

/// The flags word of a class that asks for `n` reserved slots and nothing
/// else: `n` reduced to the width of the count, at the position of the count.
pub open spec fn reserved_slots_field(n: u32) -> u32 {
    (n & JSCLASS_RESERVED_SLOTS_MASK) << JSCLASS_RESERVED_SLOTS_SHIFT
}

/// Flag bits that give a class `n` reserved slots. A count that does not fit
/// the field loses its high bits, without notice.
pub fn JSCLASS_HAS_RESERVED_SLOTS(n: u32) -> (bits: u32)
    ensures
        bits == reserved_slots_field(n),
        bits == (n % 256) * 256,
{
    assert(reserved_slots_field(n) == (n % 256) * 256) by (bit_vector);
    (n & JSCLASS_RESERVED_SLOTS_MASK) << JSCLASS_RESERVED_SLOTS_SHIFT
}

/// Number of reserved slots that a global object needs in an engine that has
/// `proto_limit` standard classes: three for each class, and twenty-four more.
/// The limit is the engine's, and differs from one release to the next.
pub fn JSCLASS_GLOBAL_SLOT_COUNT(proto_limit: u32) -> (count: u32)
    requires
        proto_limit * 3 + 24 <= u32::MAX,
    ensures
        count == proto_limit * 3 + 24,
{
    proto_limit * 3 + 24
}

/// A count that fits the field is stored whole: the flags are the count moved
/// to its position, they touch no bit outside the field, and the count can be
/// read back from them.
pub proof fn lemma_reserved_slots_in_width(n: u32)
    requires
        n <= JSCLASS_RESERVED_SLOTS_MASK,
    ensures
        reserved_slots_field(n) == n << JSCLASS_RESERVED_SLOTS_SHIFT,
        reserved_slots_field(n) == n * 256,
        reserved_slots_field(n) & !(JSCLASS_RESERVED_SLOTS_MASK << JSCLASS_RESERVED_SLOTS_SHIFT)
            == 0,
        (reserved_slots_field(n) >> JSCLASS_RESERVED_SLOTS_SHIFT) & JSCLASS_RESERVED_SLOTS_MASK
            == n,
{
    assert(reserved_slots_field(n) == n << JSCLASS_RESERVED_SLOTS_SHIFT) by (bit_vector)
        requires
            n <= JSCLASS_RESERVED_SLOTS_MASK,
    ;
    assert(reserved_slots_field(n) == n * 256) by (bit_vector)
        requires
            n <= JSCLASS_RESERVED_SLOTS_MASK,
    ;
    assert(reserved_slots_field(n) & !(JSCLASS_RESERVED_SLOTS_MASK
        << JSCLASS_RESERVED_SLOTS_SHIFT) == 0) by (bit_vector);
    assert((reserved_slots_field(n) >> JSCLASS_RESERVED_SLOTS_SHIFT)
        & JSCLASS_RESERVED_SLOTS_MASK == n) by (bit_vector)
        requires
            n <= JSCLASS_RESERVED_SLOTS_MASK,
    ;
}

/// A count of any size is cut down to the width of the field: it gives the
/// flags of its low bits, so two counts give the same flags exactly when they
/// agree on those bits.
pub proof fn lemma_reserved_slots_truncates(n: u32, m: u32)
    ensures
        reserved_slots_field(n) == reserved_slots_field(n & JSCLASS_RESERVED_SLOTS_MASK),
        reserved_slots_field(n) == reserved_slots_field(m) <==> n % 256 == m % 256,
{
    assert(reserved_slots_field(n) == reserved_slots_field(n & JSCLASS_RESERVED_SLOTS_MASK))
        by (bit_vector);
    assert(reserved_slots_field(n) == reserved_slots_field(m) <==> n % 256 == m % 256)
        by (bit_vector);
}

} // verus!
