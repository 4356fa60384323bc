use aardvark_jsi::{
    classify, get_type_name, object_kind, ObjectKind, TagQueries, TypeName, ValueSnapshot,
    ValueType,
};

fn queries() -> TagQueries {
    TagQueries {
        is_bool: false,
        is_number: false,
        is_null: false,
        is_undefined: false,
        is_string: false,
        is_object: false,
    }
}

#[test]
fn classify_each_tag() {
    assert_eq!(classify(queries()), ValueType::Unknown);
    assert_eq!(classify(TagQueries { is_bool: true, ..queries() }), ValueType::Bool);
    assert_eq!(classify(TagQueries { is_number: true, ..queries() }), ValueType::Number);
    assert_eq!(classify(TagQueries { is_null: true, ..queries() }), ValueType::Null);
    assert_eq!(
        classify(TagQueries { is_undefined: true, ..queries() }),
        ValueType::Undefined
    );
    assert_eq!(classify(TagQueries { is_string: true, ..queries() }), ValueType::String);
    assert_eq!(classify(TagQueries { is_object: true, ..queries() }), ValueType::Object);
}

#[test]
fn classify_first_query_decides() {
    let q = TagQueries { is_number: true, is_object: true, ..queries() };
    assert_eq!(classify(q), ValueType::Number);
}

#[test]
fn object_kind_prefers_array() {
    assert_eq!(object_kind(true, true), ObjectKind::Array);
    assert_eq!(object_kind(false, true), ObjectKind::Function);
    assert_eq!(object_kind(false, false), ObjectKind::Plain);
}

#[test]
fn type_names() {
    assert_eq!(get_type_name(ValueType::Bool, ObjectKind::Plain).text(), "boolean");
    assert_eq!(get_type_name(ValueType::Object, ObjectKind::Array), TypeName::Array);
    assert_eq!(get_type_name(ValueType::Object, ObjectKind::Function).text(), "function");
    assert_eq!(get_type_name(ValueType::Object, ObjectKind::Plain).text(), "object");
    // the object kind is ignored for other tags
    assert_eq!(get_type_name(ValueType::Number, ObjectKind::Array), TypeName::Number);
    assert_eq!(get_type_name(ValueType::Unknown, ObjectKind::Plain).text(), "unknown");
}

#[test]
fn snapshot_types() {
    assert_eq!(ValueSnapshot::Null.get_type(), ValueType::Null);
    assert_eq!(ValueSnapshot::Undefined.get_type(), ValueType::Undefined);
    assert_eq!(ValueSnapshot::Number(1.5f64.to_bits()).get_type(), ValueType::Number);
    assert_eq!(ValueSnapshot::Bool(true).get_type(), ValueType::Bool);
    assert_eq!(ValueSnapshot::Str("test".to_owned()).get_type(), ValueType::String);
    assert_eq!(
        ValueSnapshot::Object(ObjectKind::Function).get_type(),
        ValueType::Object
    );
    assert_eq!(ValueSnapshot::Str("test".to_owned()).type_label().text(), "string");
    assert_eq!(ValueSnapshot::Undefined.type_label().text(), "undefined");
    assert_eq!(ValueSnapshot::Null.type_label().text(), "null");
}

#[test]
fn snapshot_duplicate_is_equal() {
    let v = ValueSnapshot::Str("test".to_owned());
    assert_eq!(v.duplicate(), v);
    let n = ValueSnapshot::Number(1.5f64.to_bits());
    assert_eq!(n.duplicate(), n);
}
