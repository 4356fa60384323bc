use vstd::prelude::*;

verus! {

/// The type tag that the engine reports for a value. Objects, functions and
/// arrays all report `Object`; they differ only by capability queries.
#[derive(PartialEq, Eq, Structural, Debug, Clone, Copy)]
pub enum ValueType {
    Null,
    Undefined,
    Bool,
    Number,
    String,
    Object,
    Unknown,
}

/// What the engine answers about a value's tag, one query at a time.
#[derive(Clone, Copy)]
pub struct TagQueries {
    pub is_bool: bool,
    pub is_number: bool,
    pub is_null: bool,
    pub is_undefined: bool,
    pub is_string: bool,
    pub is_object: bool,
}

/// The tag of a value from the engine's predicates, asked in a fixed order:
/// the first predicate that holds decides.
pub open spec fn spec_classify(q: TagQueries) -> ValueType {
    if q.is_bool {
        ValueType::Bool
    } else if q.is_number {
        ValueType::Number
    } else if q.is_null {
        ValueType::Null
    } else if q.is_undefined {
        ValueType::Undefined
    } else if q.is_string {
        ValueType::String
    } else if q.is_object {
        ValueType::Object
    } else {
        ValueType::Unknown
    }
}

pub fn classify(q: TagQueries) -> (r: ValueType)
    ensures
        r == spec_classify(q),
{
    if q.is_bool {
        ValueType::Bool
    } else if q.is_number {
        ValueType::Number
    } else if q.is_null {
        ValueType::Null
    } else if q.is_undefined {
        ValueType::Undefined
    } else if q.is_string {
        ValueType::String
    } else if q.is_object {
        ValueType::Object
    } else {
        ValueType::Unknown
    }
}

/// The capability of an object value, as the checkers see it.
#[derive(PartialEq, Eq, Structural, Debug, Clone, Copy)]
pub enum ObjectKind {
    Plain,
    Array,
    Function,
}

/// An object that is an array counts as an array even when it is callable.
pub open spec fn spec_object_kind(is_array: bool, is_function: bool) -> ObjectKind {
    if is_array {
        ObjectKind::Array
    } else if is_function {
        ObjectKind::Function
    } else {
        ObjectKind::Plain
    }
}

pub fn object_kind(is_array: bool, is_function: bool) -> (r: ObjectKind)
    ensures
        r == spec_object_kind(is_array, is_function),
{
    if is_array {
        ObjectKind::Array
    } else if is_function {
        ObjectKind::Function
    } else {
        ObjectKind::Plain
    }
}

/// The type name used in diagnostics: the value's tag, with objects told
/// apart into arrays, functions and plain objects.
#[derive(PartialEq, Eq, Structural, Debug, Clone, Copy)]
pub enum TypeName {
    Null,
    Undefined,
    Boolean,
    Number,
    String,
    Array,
    Function,
    Object,
    Unknown,
}

impl TypeName {
    pub open spec fn spec_text(self) -> Seq<char> {
        match self {
            TypeName::Null => "null"@,
            TypeName::Undefined => "undefined"@,
            TypeName::Boolean => "boolean"@,
            TypeName::Number => "number"@,
            TypeName::String => "string"@,
            TypeName::Array => "array"@,
            TypeName::Function => "function"@,
            TypeName::Object => "object"@,
            TypeName::Unknown => "unknown"@,
        }
    }

    /// The name as it appears in messages.
    pub fn text(&self) -> (r: &'static str)
        ensures
            r@ == self.spec_text(),
    {
        match self {
            TypeName::Null => "null",
            TypeName::Undefined => "undefined",
            TypeName::Boolean => "boolean",
            TypeName::Number => "number",
            TypeName::String => "string",
            TypeName::Array => "array",
            TypeName::Function => "function",
            TypeName::Object => "object",
            TypeName::Unknown => "unknown",
        }
    }
}

pub open spec fn spec_type_name(ty: ValueType, kind: ObjectKind) -> TypeName {
    match ty {
        ValueType::Null => TypeName::Null,
        ValueType::Undefined => TypeName::Undefined,
        ValueType::Bool => TypeName::Boolean,
        ValueType::Number => TypeName::Number,
        ValueType::String => TypeName::String,
        ValueType::Object => match kind {
            ObjectKind::Array => TypeName::Array,
            ObjectKind::Function => TypeName::Function,
            ObjectKind::Plain => TypeName::Object,
        },
        ValueType::Unknown => TypeName::Unknown,
    }
}

/// The diagnostic type name of a value with tag `ty`; `kind` is read only
/// when the tag is `Object`.
pub fn get_type_name(ty: ValueType, kind: ObjectKind) -> (r: TypeName)
    ensures
        r == spec_type_name(ty, kind),
{
    match ty {
        ValueType::Null => TypeName::Null,
        ValueType::Undefined => TypeName::Undefined,
        ValueType::Bool => TypeName::Boolean,
        ValueType::Number => TypeName::Number,
        ValueType::String => TypeName::String,
        ValueType::Object => match kind {
            ObjectKind::Array => TypeName::Array,
            ObjectKind::Function => TypeName::Function,
            ObjectKind::Plain => TypeName::Object,
        },
        ValueType::Unknown => TypeName::Unknown,
    }
}

/// A host-side reading of a script value: its tag and, for primitives, its
/// payload. A number is held as the bit pattern of its IEEE-754 double.
#[derive(PartialEq, Eq, Debug)]
pub enum ValueSnapshot {
    Null,
    Undefined,
    Bool(bool),
    Number(u64),
    Str(String),
    Object(ObjectKind),
    Unknown,
}

impl ValueSnapshot {
    pub open spec fn spec_value_type(&self) -> ValueType {
        match self {
            ValueSnapshot::Null => ValueType::Null,
            ValueSnapshot::Undefined => ValueType::Undefined,
            ValueSnapshot::Bool(_) => ValueType::Bool,
            ValueSnapshot::Number(_) => ValueType::Number,
            ValueSnapshot::Str(_) => ValueType::String,
            ValueSnapshot::Object(_) => ValueType::Object,
            ValueSnapshot::Unknown => ValueType::Unknown,
        }
    }

    pub open spec fn spec_type_name(&self) -> TypeName {
        match self {
            ValueSnapshot::Object(k) => spec_type_name(ValueType::Object, *k),
            _ => spec_type_name(self.spec_value_type(), ObjectKind::Plain),
        }
    }

    pub fn get_type(&self) -> (r: ValueType)
        ensures
            r == self.spec_value_type(),
    {
        match self {
            ValueSnapshot::Null => ValueType::Null,
            ValueSnapshot::Undefined => ValueType::Undefined,
            ValueSnapshot::Bool(_) => ValueType::Bool,
            ValueSnapshot::Number(_) => ValueType::Number,
            ValueSnapshot::Str(_) => ValueType::String,
            ValueSnapshot::Object(_) => ValueType::Object,
            ValueSnapshot::Unknown => ValueType::Unknown,
        }
    }

    pub fn type_label(&self) -> (r: TypeName)
        ensures
            r == self.spec_type_name(),
    {
        match self {
            ValueSnapshot::Object(k) => get_type_name(ValueType::Object, *k),
            _ => get_type_name(self.get_type(), ObjectKind::Plain),
        }
    }

    /// A copy that is equal to the original.
    pub fn duplicate(&self) -> (r: ValueSnapshot)
        ensures
            r == *self,
    {
        match self {
            ValueSnapshot::Null => ValueSnapshot::Null,
            ValueSnapshot::Undefined => ValueSnapshot::Undefined,
            ValueSnapshot::Bool(b) => ValueSnapshot::Bool(*b),
            ValueSnapshot::Number(n) => ValueSnapshot::Number(*n),
            ValueSnapshot::Str(s) => ValueSnapshot::Str(s.clone()),
            ValueSnapshot::Object(k) => ValueSnapshot::Object(*k),
            ValueSnapshot::Unknown => ValueSnapshot::Unknown,
        }
    }
}

} // verus!
