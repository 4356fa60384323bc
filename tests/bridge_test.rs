use aardvark_jsi::{
    complete_call, complete_setter, incoming_values, setter_argument, Completion, FunctionTable,
};
use std::cell::RefCell;
use std::rc::Rc;

type Native = Box<dyn Fn(u64, Vec<u64>) -> Result<u64, u64>>;

#[test]
fn native_function_sees_this_and_args() {
    let calls = Rc::new(RefCell::new(0));
    let seen = Rc::new(RefCell::new(Vec::new()));
    let func: Native = {
        let calls = calls.clone();
        let seen = seen.clone();
        Box::new(move |this: u64, args: Vec<u64>| {
            *calls.borrow_mut() += 1;
            seen.borrow_mut().push(this);
            seen.borrow_mut().extend(args);
            Ok(1.0f64.to_bits())
        })
    };
    let mut table: FunctionTable<Native> = FunctionTable::new();
    let id = table.register(func);

    let handles = incoming_values(2.0f64.to_bits(), &vec![3.0f64.to_bits()]);
    assert_eq!(handles, vec![2.0f64.to_bits(), 3.0f64.to_bits()]);
    let f = table.get(id).unwrap();
    let res = f(handles[0], handles[1..].to_vec());
    match complete_call(res) {
        Completion::Return(v) => assert_eq!(f64::from_bits(v), 1.0),
        Completion::Throw(_) => panic!("unexpected throw"),
    }
    assert_eq!(*calls.borrow(), 1);
    let seen = seen.borrow();
    assert_eq!(seen.len(), 2);
    assert_eq!(f64::from_bits(seen[0]), 2.0);
    assert_eq!(f64::from_bits(seen[1]), 3.0);
}

#[test]
fn error_becomes_throw() {
    assert_eq!(complete_call::<u64>(Err(9)), Completion::Throw(9));
    assert_eq!(complete_call::<u64>(Ok(4)), Completion::Return(4));
}

#[test]
fn incoming_without_args() {
    assert_eq!(incoming_values(5u64, &vec![]), vec![5u64]);
}

#[test]
fn function_slot_freed_once() {
    let mut table: FunctionTable<&str> = FunctionTable::new();
    let a = table.register("a");
    let b = table.register("b");
    assert_eq!((a, b), (0, 1));
    assert_eq!(table.free(a), Some("a"));
    assert_eq!(table.get(a), None);
    assert_eq!(table.free(a), None);
    assert_eq!(table.get(b), Some(&"b"));
    assert_eq!(table.free(17), None);
}

#[test]
fn setter_outcomes() {
    assert_eq!(complete_setter::<u64>(Ok(()), 0), Completion::Return(0));
    assert_eq!(complete_setter::<u64>(Err(8), 0), Completion::Throw(8));
    assert_eq!(setter_argument(&vec![4u64, 5], 0), 4);
    assert_eq!(setter_argument::<u64>(&vec![], 0), 0);
}
