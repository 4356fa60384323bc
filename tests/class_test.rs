use aardvark_jsi::{
    plan_class, ClassDefinition, ClassPropertyDefinition, ClassRegistry, FunctionTable, Native,
    ProtoEntry,
};
use std::cell::RefCell;
use std::rc::Rc;

type Method = Box<dyn Fn(Vec<f64>) -> f64>;
type Getter = Box<dyn Fn() -> f64>;
type Setter = Box<dyn Fn(f64)>;
type Finalizer = Box<dyn Fn()>;

#[test]
fn class_accessors_methods_and_finalizer() {
    let prop_value = Rc::new(RefCell::new(1.0));
    let finalized = Rc::new(RefCell::new(0));

    let get: Getter = {
        let prop_value = prop_value.clone();
        Box::new(move || *prop_value.borrow())
    };
    let set: Setter = {
        let prop_value = prop_value.clone();
        Box::new(move |v| {
            prop_value.replace(v);
        })
    };
    let method: Method = {
        let prop_value = prop_value.clone();
        Box::new(move |args| {
            prop_value.replace(args[0]);
            args[0]
        })
    };
    let finalizer: Finalizer = {
        let finalized = finalized.clone();
        Box::new(move || *finalized.borrow_mut() += 1)
    };

    let def = ClassDefinition {
        name: "TestClass".to_string(),
        methods: vec![("method".to_string(), method)],
        props: vec![(
            "prop".to_string(),
            ClassPropertyDefinition { get: Some(get), set: Some(set) },
        )],
        finalizer: Some(finalizer),
    };

    let mut registry: ClassRegistry<Finalizer> = ClassRegistry::new();
    let mut functions: FunctionTable<Native<Method, Getter, Setter>> = FunctionTable::new();
    let entries = plan_class(def, 7, &mut registry, &mut functions);
    assert_eq!(
        entries,
        vec![
            ProtoEntry::Accessor { name: "prop".to_string(), getter: Some(0), setter: Some(1) },
            ProtoEntry::Method { name: "method".to_string(), function: 2 },
        ]
    );
    assert_eq!(functions.len(), 3);

    // getter
    match functions.get(0) {
        Some(Native::Getter(g)) => assert_eq!(g(), 1.0),
        _ => panic!("slot 0 is not the getter"),
    }
    // setter
    match functions.get(1) {
        Some(Native::Setter(s)) => s(2.0),
        _ => panic!("slot 1 is not the setter"),
    }
    assert_eq!(*prop_value.borrow(), 2.0);
    match functions.get(0) {
        Some(Native::Getter(g)) => assert_eq!(g(), 2.0),
        _ => panic!("slot 0 is not the getter"),
    }
    // method
    match functions.get(2) {
        Some(Native::Function(m)) => assert_eq!(m(vec![3.0]), 3.0),
        _ => panic!("slot 2 is not the method"),
    }
    assert_eq!(*prop_value.borrow(), 3.0);

    // an instance, finalized once
    registry.add_instance(0xbeef, 7);
    if let Some(cls) = registry.finalize(0xbeef) {
        registry.finalizer(cls).unwrap()();
    }
    if let Some(cls) = registry.finalize(0xbeef) {
        registry.finalizer(cls).unwrap()();
    }
    assert_eq!(*finalized.borrow(), 1);
}

#[test]
fn class_with_partial_accessors() {
    let def: ClassDefinition<u8, &str, &str, ()> = ClassDefinition {
        name: "C".to_string(),
        methods: vec![("m1".to_string(), 1), ("m2".to_string(), 2)],
        props: vec![
            ("ro".to_string(), ClassPropertyDefinition { get: Some("g"), set: None }),
            ("wo".to_string(), ClassPropertyDefinition { get: None, set: Some("s") }),
            ("none".to_string(), ClassPropertyDefinition { get: None, set: None }),
        ],
        finalizer: None,
    };
    let mut registry: ClassRegistry<()> = ClassRegistry::new();
    let mut functions: FunctionTable<Native<u8, &str, &str>> = FunctionTable::new();
    functions.register(Native::Function(0));
    let entries = plan_class(def, 3, &mut registry, &mut functions);
    assert_eq!(
        entries,
        vec![
            ProtoEntry::Accessor { name: "ro".to_string(), getter: Some(1), setter: None },
            ProtoEntry::Accessor { name: "wo".to_string(), getter: None, setter: Some(2) },
            ProtoEntry::Accessor { name: "none".to_string(), getter: None, setter: None },
            ProtoEntry::Method { name: "m1".to_string(), function: 3 },
            ProtoEntry::Method { name: "m2".to_string(), function: 4 },
        ]
    );
    assert_eq!(functions.len(), 5);
    assert!(matches!(functions.get(4), Some(Native::Function(2))));
    assert!(registry.finalizer(3).is_none());
}
