//! Engine-independent core of a JavaScript embedding layer: value
//! classification, type checkers, value mappers, handle ownership
//! bookkeeping and the registries behind native functions and classes.
mod bridge;
mod check;
mod class;
mod handle;
pub mod map;
mod registry;
mod value;

pub use bridge::{
    complete_call, complete_setter, incoming_values, lemma_free_once, setter_argument, Completion,
    FunctionTable,
};
pub use check::{
    CheckErrorParams, Checker, ARRAY_CHECKER, BOOL_CHECKER, NUMBER_CHECKER, OBJECT_CHECKER,
    STRING_CHECKER,
};
pub use class::{plan_class, ClassDefinition, ClassPropertyDefinition, Native, ProtoEntry};
pub use handle::{lemma_clone_then_drop, lemma_finalizing_release_suppressed, RefLedger, Release};
pub use map::{
    lemma_primitive_round_trip, lemma_struct_round_trip, read_field, Field, FieldValue, Mapper,
    Property, StructMapper, INT_MAPPER, NUMBER_MAPPER, STRING_MAPPER,
};
pub use registry::{lemma_finalize_once, ClassRegistry, RuntimeTable};
pub use value::{
    classify, get_type_name, object_kind, ObjectKind, TagQueries, TypeName, ValueSnapshot,
    ValueType,
};
