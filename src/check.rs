use vstd::prelude::*;
use vstd::string::*;

use crate::value::TypeName;

verus! {

/// Where a checked value sits, for diagnostics only: what it is (`kind`),
/// its path (`name`) and what it was handed to (`target`).
pub struct CheckErrorParams {
    pub kind: String,
    pub name: String,
    pub target: String,
}

/// The message for a value of type `actual` where `expected` was required.
pub open spec fn check_message(
    kind: Seq<char>,
    name: Seq<char>,
    target: Seq<char>,
    actual: TypeName,
    expected: TypeName,
) -> Seq<char> {
    "Invalid "@ + kind + " `"@ + name + "` of type `"@ + actual.spec_text() + "` supplied to `"@
        + target + "`, expected `"@ + expected.spec_text() + "`."@
}

impl CheckErrorParams {
    pub open spec fn spec_message(&self, actual: TypeName, expected: TypeName) -> Seq<char> {
        check_message(self.kind@, self.name@, self.target@, actual, expected)
    }

    /// The parameters for the field `field` of the value these describe: the
    /// same kind and target, and the name extended by `.field`.
    pub fn for_field(&self, field: &str) -> (r: CheckErrorParams)
        ensures
            r.kind@ == self.kind@,
            r.name@ == self.name@ + "."@ + field@,
            r.target@ == self.target@,
    {
        let mut name = self.name.clone();
        name.append(".");
        name.append(field);
        CheckErrorParams { kind: self.kind.clone(), name, target: self.target.clone() }
    }
}

/// A checker that accepts the values of one type name. The object checker
/// also accepts arrays and functions.
#[derive(Clone, Copy, PartialEq, Eq, Structural, Debug)]
pub enum Checker {
    Bool,
    Number,
    String,
    Object,
    Array,
}

pub const BOOL_CHECKER: Checker = Checker::Bool;

pub const NUMBER_CHECKER: Checker = Checker::Number;

pub const STRING_CHECKER: Checker = Checker::String;

pub const OBJECT_CHECKER: Checker = Checker::Object;

pub const ARRAY_CHECKER: Checker = Checker::Array;

impl Checker {
    pub open spec fn spec_expected(self) -> TypeName {
        match self {
            Checker::Bool => TypeName::Boolean,
            Checker::Number => TypeName::Number,
            Checker::String => TypeName::String,
            Checker::Object => TypeName::Object,
            Checker::Array => TypeName::Array,
        }
    }

    /// The type name this checker requires.
    pub fn expected(&self) -> (r: TypeName)
        ensures
            r == self.spec_expected(),
    {
        match self {
            Checker::Bool => TypeName::Boolean,
            Checker::Number => TypeName::Number,
            Checker::String => TypeName::String,
            Checker::Object => TypeName::Object,
            Checker::Array => TypeName::Array,
        }
    }

    pub open spec fn accepts(self, actual: TypeName) -> bool {
        actual == self.spec_expected() || (self.spec_expected() == TypeName::Object && (actual
            == TypeName::Function || actual == TypeName::Array))
    }

    pub open spec fn spec_check(self, actual: TypeName, params: &CheckErrorParams) -> Result<
        (),
        Seq<char>,
    > {
        if self.accepts(actual) {
            Ok(())
        } else {
            Err(params.spec_message(actual, self.spec_expected()))
        }
    }

    /// Checks a value whose type name is `actual`; on a mismatch the error
    /// names the value's place, its type and the expected one.
    pub fn check(&self, actual: TypeName, params: &CheckErrorParams) -> (r: Result<(), String>)
        ensures
            r is Ok <==> self.accepts(actual),
            r matches Err(m) ==> m@ == params.spec_message(actual, self.spec_expected()),
    {
        let expected = self.expected();
        if actual == expected {
            return Ok(());
        }
        if expected == TypeName::Object && (actual == TypeName::Function || actual
            == TypeName::Array) {
            return Ok(());
        }
        let mut m = String::from_str("Invalid ");
        m.append(params.kind.as_str());
        m.append(" `");
        m.append(params.name.as_str());
        m.append("` of type `");
        m.append(actual.text());
        m.append("` supplied to `");
        m.append(params.target.as_str());
        m.append("`, expected `");
        m.append(expected.text());
        m.append("`.");
        Err(m)
    }
}

} // verus!
