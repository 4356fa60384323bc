use aardvark_jsi::{
    CheckErrorParams, Checker, ObjectKind, TypeName, ValueSnapshot, ARRAY_CHECKER, BOOL_CHECKER,
    NUMBER_CHECKER, OBJECT_CHECKER, STRING_CHECKER,
};

fn err_params() -> CheckErrorParams {
    CheckErrorParams {
        kind: "kind".to_string(),
        name: "name".to_string(),
        target: "target".to_string(),
    }
}

fn require_result(checker: &Checker, val: &ValueSnapshot, res: bool) {
    let result = checker.check(val.type_label(), &err_params());
    if res {
        assert!(result.is_ok());
    } else {
        assert!(result.is_err());
    }
}

fn require_err(checker: &Checker, val: &ValueSnapshot) {
    require_result(checker, val, false);
}

fn require_ok(checker: &Checker, val: &ValueSnapshot) {
    require_result(checker, val, true);
}

#[test]
fn check_test_primitive() {
    require_ok(&NUMBER_CHECKER, &ValueSnapshot::Number(21.0f64.to_bits()));
    require_err(&NUMBER_CHECKER, &ValueSnapshot::Bool(true));
}

#[test]
fn objects() {
    let obj = ValueSnapshot::Object(ObjectKind::Plain);

    require_ok(&OBJECT_CHECKER, &obj);
    // object is not array
    require_err(&ARRAY_CHECKER, &obj);

    let arr = ValueSnapshot::Object(ObjectKind::Array);
    require_ok(&OBJECT_CHECKER, &arr);
    // but array is an object
    require_ok(&ARRAY_CHECKER, &arr);
    require_err(&NUMBER_CHECKER, &arr);
}

#[test]
fn object_checker_accepts_functions() {
    require_ok(&OBJECT_CHECKER, &ValueSnapshot::Object(ObjectKind::Function));
    require_err(&ARRAY_CHECKER, &ValueSnapshot::Object(ObjectKind::Function));
}

#[test]
fn array_checker_rejects_number() {
    require_err(&ARRAY_CHECKER, &ValueSnapshot::Number(1.0f64.to_bits()));
}

#[test]
fn other_checkers() {
    require_ok(&BOOL_CHECKER, &ValueSnapshot::Bool(false));
    require_err(&BOOL_CHECKER, &ValueSnapshot::Null);
    require_ok(&STRING_CHECKER, &ValueSnapshot::Str("x".to_string()));
    require_err(&STRING_CHECKER, &ValueSnapshot::Undefined);
    require_err(&OBJECT_CHECKER, &ValueSnapshot::Null);
    require_err(&NUMBER_CHECKER, &ValueSnapshot::Unknown);
}

#[test]
fn mismatch_message() {
    let res = NUMBER_CHECKER.check(ValueSnapshot::Bool(true).type_label(), &err_params());
    assert_eq!(
        res,
        Err("Invalid kind `name` of type `boolean` supplied to `target`, expected `number`."
            .to_string())
    );
    let res = ARRAY_CHECKER.check(TypeName::Object, &err_params());
    assert_eq!(
        res,
        Err("Invalid kind `name` of type `object` supplied to `target`, expected `array`."
            .to_string())
    );
}

#[test]
fn field_params_extend_name() {
    let p = err_params().for_field("num");
    assert_eq!(p.kind, "kind");
    assert_eq!(p.name, "name.num");
    assert_eq!(p.target, "target");
}
