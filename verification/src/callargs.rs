//! Accessors for the invocation frame that the engine hands to a native
//! callback: slot 0 holds the callee and later the return value, slot 1 the
//! receiver, and the arguments follow.
use vstd::prelude::*;
use vstd::slice::slice_subrange;
use crate::jsapi::{JSContext, JSObject};
use crate::jsval::JSVal;

verus! {

/// Slot of the function that is being called.
pub const CALLEE_SLOT: usize = 0;

/// Slot that the callback's result is written to. It is the callee's slot:
/// storing a result gives up the callee.
pub const RVAL_SLOT: usize = 0;

/// Slot of the receiver, the `this` of the call.
pub const THIS_SLOT: usize = 1;

/// Slot of the first argument.
pub const ARGV_SLOT: usize = 2;

/// The value being called.
pub open spec fn callee(frame: Seq<JSVal>) -> JSVal
    recommends
        frame.len() > CALLEE_SLOT,
{
    frame[CALLEE_SLOT as int]
}

/// The receiver as the caller passed it.
pub open spec fn receiver(frame: Seq<JSVal>) -> JSVal
    recommends
        frame.len() > THIS_SLOT,
{
    frame[THIS_SLOT as int]
}

/// The arguments of the call, in order.
pub open spec fn arguments(frame: Seq<JSVal>) -> Seq<JSVal>
    recommends
        frame.len() >= ARGV_SLOT,
{
    frame.skip(ARGV_SLOT as int)
}

/// The frame after `v` has been stored as the call's result.
pub open spec fn with_rval(frame: Seq<JSVal>, v: JSVal) -> Seq<JSVal>
    recommends
        frame.len() > RVAL_SLOT,
{
    frame.update(RVAL_SLOT as int, v)
}

/// The `this` object of a call, given what the engine's boxing of the
/// receiver yields: an object receiver is taken as it is, and only a primitive
/// one is replaced by its boxed form.
pub open spec fn this_object(frame: Seq<JSVal>, boxed: JSVal) -> Option<JSObject>
    recommends
        frame.len() > THIS_SLOT,
{
    if receiver(frame).is_primitive() {
        boxed.to_object_or_null()
    } else {
        receiver(frame).to_object_or_null()
    }
}

/// The argument vector: the part of the frame that starts at `ARGV_SLOT`.
pub fn JS_ARGV<'a>(_cx: JSContext, vp: &'a [JSVal]) -> (argv: &'a [JSVal])
    requires
        vp@.len() >= ARGV_SLOT,
    ensures
        argv@ == arguments(vp@),
        argv@.len() == vp@.len() - ARGV_SLOT,
        forall|i: int| 0 <= i < argv@.len() ==> argv@[i] == vp@[ARGV_SLOT + i],
{
    slice_subrange(vp, ARGV_SLOT, vp.len())
}

/// Stores `v` as the result of the call, whatever the slot held before.
pub fn JS_SET_RVAL(_cx: JSContext, vp: &mut [JSVal], v: JSVal)
    requires
        old(vp)@.len() > RVAL_SLOT,
    ensures
        final(vp)@ == with_rval(old(vp)@, v),
{
    vp[RVAL_SLOT] = v;
}

/// The `this` object of the call. An object receiver is returned as it is. A
/// primitive receiver is handed, with the whole frame, to `compute_this`, the
/// engine's boxing of the receiver, and the object of its answer is returned:
/// `None` where it answers with no object.
pub fn JS_THIS_OBJECT<F>(cx: JSContext, vp: &[JSVal], compute_this: F) -> (this: Option<JSObject>)
    where F: FnOnce(JSContext, &[JSVal]) -> JSVal
    requires
        vp@.len() > THIS_SLOT,
        receiver(vp@).is_primitive() ==> compute_this.requires((cx, vp)),
    ensures
        receiver(vp@) matches JSVal::Object(obj) ==> this == Some(obj),
        receiver(vp@).is_primitive() ==> exists|boxed: JSVal|
            compute_this.ensures((cx, vp), boxed) && this == this_object(vp@, boxed),
{
    let r = if vp[THIS_SLOT].is_primitive() {
        compute_this(cx, vp)
    } else {
        vp[THIS_SLOT]
    };
    let this = r.to_object_or_null();
    assert(receiver(vp@).is_primitive() ==> compute_this.ensures((cx, vp), r) && this
        == this_object(vp@, r));
    this
}

/// The value being called.
pub fn JS_CALLEE(_cx: JSContext, vp: &[JSVal]) -> (v: JSVal)
    requires
        vp@.len() > CALLEE_SLOT,
    ensures
        v == callee(vp@),
{
    vp[CALLEE_SLOT]
}

/// An object receiver is its own `this`, whatever boxing would give. The `this`
/// of a primitive receiver is the object of its boxed form. So there is no
/// `this` object exactly when the receiver is primitive and boxing gave no
/// object.
pub proof fn lemma_this_object(frame: Seq<JSVal>, boxed: JSVal)
    requires
        frame.len() > THIS_SLOT,
    ensures
        receiver(frame) matches JSVal::Object(obj) ==> this_object(frame, boxed) == Some(obj),
        receiver(frame).is_primitive() ==> this_object(frame, boxed) == boxed.to_object_or_null(),
        this_object(frame, boxed) is None <==> receiver(frame).is_primitive()
            && boxed.is_primitive(),
{
}

/// A result that has been stored is what the result slot then holds, whatever
/// it held before; a second result replaces the first; and storing a result
/// leaves the length of the frame, the receiver and the arguments as they were.
pub proof fn lemma_rval_round_trip(frame: Seq<JSVal>, v: JSVal, w: JSVal)
    requires
        frame.len() > RVAL_SLOT,
    ensures
        with_rval(frame, v)[RVAL_SLOT as int] == v,
        callee(with_rval(frame, v)) == v,
        with_rval(with_rval(frame, w), v) == with_rval(frame, v),
        with_rval(frame, v).len() == frame.len(),
        frame.len() > THIS_SLOT ==> receiver(with_rval(frame, v)) == receiver(frame),
        frame.len() >= ARGV_SLOT ==> arguments(with_rval(frame, v)) == arguments(frame),
{
}

} // verus!
