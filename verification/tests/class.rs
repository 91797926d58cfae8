use js::jsapi::Hook;
use js::{
    Class, ClassExtension, ObjectOps, JSCLASS_HAS_RESERVED_SLOTS, JSCLASS_IS_GLOBAL,
};

fn no_extension() -> ClassExtension {
    ClassExtension {
        equality: 0,
        outerObject: None,
        innerObject: None,
        iteratorObject: 0,
        unused: 0,
        isWrappedNative: 0,
    }
}

fn no_ops() -> ObjectOps {
    ObjectOps {
        lookupGeneric: 0,
        lookupProperty: 0,
        lookupElement: 0,
        lookupSpecial: 0,
        defineGeneric: 0,
        defineProperty: 0,
        defineElement: 0,
        defineSpecial: 0,
        getGeneric: 0,
        getProperty: 0,
        getElement: 0,
        getElementIfPresent: 0,
        getSpecial: 0,
        setGeneric: 0,
        setProperty: 0,
        setElement: 0,
        setSpecial: 0,
        getGenericAttributes: 0,
        getPropertyAttributes: 0,
        getElementAttributes: 0,
        getSpecialAttributes: 0,
        setGenericAttributes: 0,
        setPropertyAttributes: 0,
        setElementAttributes: 0,
        setSpecialAttributes: 0,
        deleteProperty: 0,
        deleteElement: 0,
        deleteSpecial: 0,
        enumerate: 0,
        typeOf: 0,
        thisObject: None,
        clear: 0,
    }
}

fn global_class() -> Class {
    Class {
        name: 0x8000,
        flags: JSCLASS_IS_GLOBAL | JSCLASS_HAS_RESERVED_SLOTS(2),
        addProperty: Some(Hook { addr: 0x10 }),
        delProperty: Some(Hook { addr: 0x10 }),
        getProperty: Some(Hook { addr: 0x10 }),
        setProperty: Some(Hook { addr: 0x20 }),
        enumerate: Some(Hook { addr: 0x30 }),
        resolve: Some(Hook { addr: 0x40 }),
        convert: Some(Hook { addr: 0x50 }),
        finalize: None,
        checkAccess: None,
        call: None,
        hasInstance: None,
        construct: None,
        trace: Some(Hook { addr: 0x60 }),
        ext: no_extension(),
        ops: no_ops(),
    }
}

#[test]
fn a_class_keeps_what_it_was_built_with() {
    let class = global_class();
    assert_eq!(class.name, 0x8000);
    assert_eq!(class.flags, 0x2_0200);
    assert_eq!(class.addProperty, Some(Hook { addr: 0x10 }));
    assert_eq!(class.setProperty, Some(Hook { addr: 0x20 }));
    assert_eq!(class.finalize, None);
    assert_eq!(class.trace, Some(Hook { addr: 0x60 }));
    assert_eq!(class.ext, no_extension());
    assert_eq!(class.ops, no_ops());
}

#[test]
fn extension_and_ops_are_held_by_value() {
    let mut class = global_class();
    let copy = class;
    class.ext.outerObject = Some(Hook { addr: 0x70 });
    class.ops.thisObject = Some(Hook { addr: 0x80 });
    class.ops.lookupGeneric = 0x90;
    assert_eq!(copy.ext.outerObject, None);
    assert_eq!(copy.ops.thisObject, None);
    assert_eq!(copy.ops.lookupGeneric, 0);
    assert_eq!(class.ext.outerObject, Some(Hook { addr: 0x70 }));
    assert_eq!(class.ops.thisObject, Some(Hook { addr: 0x80 }));
    assert_ne!(class, copy);
}

#[test]
fn an_absent_hook_differs_from_every_present_one() {
    let with = ClassExtension { innerObject: Some(Hook { addr: 0 }), ..no_extension() };
    assert_ne!(with, no_extension());
    assert_eq!(no_extension().unused, 0);
}
