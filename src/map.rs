use vstd::prelude::*;

use crate::check::{CheckErrorParams, Checker};
use crate::value::{ObjectKind, TypeName, ValueSnapshot};

verus! {

/// A host value that a primitive mapper produces or consumes. A number is
/// held as the bit pattern of its IEEE-754 double.
#[derive(PartialEq, Eq, Debug)]
pub enum FieldValue {
    Number(u64),
    Str(String),
}

/// A converter between a script value and a host primitive. `Int` reads a
/// number that the host truncates to an integer.
#[derive(Clone, Copy, PartialEq, Eq, Structural, Debug)]
pub enum Mapper {
    Number,
    Int,
    String,
}

pub const NUMBER_MAPPER: Mapper = Mapper::Number;

pub const INT_MAPPER: Mapper = Mapper::Int;

pub const STRING_MAPPER: Mapper = Mapper::String;

impl Mapper {
    pub open spec fn spec_checker(self) -> Checker {
        match self {
            Mapper::Number => Checker::Number,
            Mapper::Int => Checker::Number,
            Mapper::String => Checker::String,
        }
    }

    /// The checker that `try_from_js` runs before converting.
    pub fn checker(&self) -> (r: Checker)
        ensures
            r == self.spec_checker(),
    {
        match self {
            Mapper::Number => Checker::Number,
            Mapper::Int => Checker::Number,
            Mapper::String => Checker::String,
        }
    }

    /// Whether `v` is a host value of this mapper's type.
    pub open spec fn fits(self, v: FieldValue) -> bool {
        match self {
            Mapper::String => v is Str,
            _ => v is Number,
        }
    }

    pub fn fits_value(&self, v: &FieldValue) -> (r: bool)
        ensures
            r == self.fits(*v),
    {
        match self {
            Mapper::String => matches!(v, FieldValue::Str(_)),
            _ => matches!(v, FieldValue::Number(_)),
        }
    }

    pub open spec fn accepts(self, v: ValueSnapshot) -> bool {
        self.spec_checker().accepts(v.spec_type_name())
    }

    pub open spec fn spec_to_js(v: FieldValue) -> ValueSnapshot {
        match v {
            FieldValue::Number(n) => ValueSnapshot::Number(n),
            FieldValue::Str(s) => ValueSnapshot::Str(s),
        }
    }

    /// The host value of a script value that this mapper accepts.
    pub open spec fn spec_from_js(v: ValueSnapshot) -> FieldValue {
        match v {
            ValueSnapshot::Str(s) => FieldValue::Str(s),
            ValueSnapshot::Number(n) => FieldValue::Number(n),
            _ => FieldValue::Number(0),
        }
    }

    /// The script value of a host value.
    pub fn to_js(&self, v: &FieldValue) -> (r: ValueSnapshot)
        requires
            self.fits(*v),
        ensures
            r == Self::spec_to_js(*v),
    {
        match v {
            FieldValue::Number(n) => ValueSnapshot::Number(*n),
            FieldValue::Str(s) => ValueSnapshot::Str(s.clone()),
        }
    }

    /// The host value of a script value that has passed this mapper's
    /// checker.
    pub fn from_js(&self, v: &ValueSnapshot) -> (r: FieldValue)
        requires
            self.accepts(*v),
        ensures
            r == Self::spec_from_js(*v),
            self.fits(r),
    {
        match v {
            ValueSnapshot::Str(s) => FieldValue::Str(s.clone()),
            ValueSnapshot::Number(n) => FieldValue::Number(*n),
            _ => FieldValue::Number(0),
        }
    }

    pub open spec fn spec_try_from_js(self, v: ValueSnapshot, params: &CheckErrorParams) -> Result<
        FieldValue,
        Seq<char>,
    > {
        if self.accepts(v) {
            Ok(Self::spec_from_js(v))
        } else {
            Err(params.spec_message(v.spec_type_name(), self.spec_checker().spec_expected()))
        }
    }

    /// Checks `v` with this mapper's checker, then converts it.
    pub fn try_from_js(&self, v: &ValueSnapshot, params: &CheckErrorParams) -> (r: Result<
        FieldValue,
        String,
    >)
        ensures
            r is Ok <==> self.accepts(*v),
            r matches Ok(f) ==> f == Self::spec_from_js(*v),
            r matches Err(m) ==> self.spec_try_from_js(*v, params) == Err::<FieldValue, Seq<char>>(
                m@,
            ),
    {
        match self.checker().check(v.type_label(), params) {
            Ok(()) => Ok(self.from_js(v)),
            Err(m) => Err(m),
        }
    }
}

/// A named property of an object, as read or to be written.
#[derive(PartialEq, Eq, Debug)]
pub struct Property {
    pub name: String,
    pub value: ValueSnapshot,
}

/// The value of the last property named `name`, as later writes of a name
/// replace earlier ones.
pub open spec fn lookup(props: Seq<Property>, name: Seq<char>) -> Option<ValueSnapshot>
    decreases props.len(),
{
    if props.len() == 0 {
        None
    } else if props.last().name@ == name {
        Some(props.last().value)
    } else {
        lookup(props.drop_last(), name)
    }
}

/// What a field reads from an object: its property, or `undefined` when the
/// object has none of that name.
pub open spec fn field_input(props: Seq<Property>, name: Seq<char>) -> ValueSnapshot {
    match lookup(props, name) {
        Some(v) => v,
        None => ValueSnapshot::Undefined,
    }
}

/// The value that a field named `name` reads from `props`.
pub fn read_field(props: &Vec<Property>, name: &String) -> (r: ValueSnapshot)
    ensures
        r == field_input(props@, name@),
{
    let mut found = ValueSnapshot::Undefined;
    let mut i: usize = 0;
    while i < props.len()
        invariant
            i <= props@.len(),
            found == field_input(props@.take(i as int), name@),
        decreases props@.len() - i,
    {
        assert(props@.take(i as int + 1).drop_last() =~= props@.take(i as int));
        if props[i].name == *name {
            found = props[i].value.duplicate();
        }
        i = i + 1;
    }
    assert(props@.take(props@.len() as int) =~= props@);
    found
}

/// One field of a host record: its property name and its mapper.
pub struct Field {
    pub name: String,
    pub mapper: Mapper,
}

/// A two-way converter between a host record and a script object, built
/// from an ordered list of fields. A record is the sequence of its field
/// values, in the order of the fields.
pub struct StructMapper {
    pub fields: Vec<Field>,
}

/// The check parameters of a field: the parent's, with the name extended by
/// `.field`.
pub open spec fn field_message(
    params: &CheckErrorParams,
    field: Seq<char>,
    actual: TypeName,
    expected: TypeName,
) -> Seq<char> {
    crate::check::check_message(
        params.kind@,
        params.name@ + "."@ + field,
        params.target@,
        actual,
        expected,
    )
}

impl StructMapper {
    /// Field names are pairwise distinct, as those of a record type are.
    pub open spec fn wf(&self) -> bool {
        forall|i: int, j: int|
            0 <= i < j < self.fields@.len() ==> #[trigger] self.fields@[i].name@
                != #[trigger] self.fields@[j].name@
    }

    /// `rec` holds one value of the right type per field.
    pub open spec fn fits(&self, rec: Seq<FieldValue>) -> bool {
        &&& rec.len() == self.fields@.len()
        &&& forall|i: int| 0 <= i < rec.len() ==> #[trigger] self.fields@[i].mapper.fits(rec[i])
    }

    pub open spec fn spec_to_js(&self, rec: Seq<FieldValue>) -> Seq<Property> {
        Seq::new(
            self.fields@.len(),
            |i: int|
                Property { name: self.fields@[i].name, value: Mapper::spec_to_js(rec[i]) },
        )
    }

    /// Whether field `i` accepts what it reads from `props`.
    pub open spec fn field_ok(&self, props: Seq<Property>, i: int) -> bool {
        self.fields@[i].mapper.accepts(field_input(props, self.fields@[i].name@))
    }

    /// The first `n` fields read from `props`: their values, or the message
    /// of the first field that fails its check.
    pub open spec fn decode_prefix(
        &self,
        props: Seq<Property>,
        params: &CheckErrorParams,
        n: nat,
    ) -> Result<Seq<FieldValue>, Seq<char>>
        decreases n,
    {
        if n == 0 {
            Ok(Seq::empty())
        } else {
            match self.decode_prefix(props, params, (n - 1) as nat) {
                Err(e) => Err(e),
                Ok(s) => {
                    let f = self.fields@[n - 1];
                    let v = field_input(props, f.name@);
                    if f.mapper.accepts(v) {
                        Ok(s.push(Mapper::spec_from_js(v)))
                    } else {
                        Err(
                            field_message(
                                params,
                                f.name@,
                                v.spec_type_name(),
                                f.mapper.spec_checker().spec_expected(),
                            ),
                        )
                    }
                },
            }
        }
    }

    /// The result of `try_from_js` on a value `val` whose properties are
    /// `props`.
    pub open spec fn spec_try_from_js(
        &self,
        val: ValueSnapshot,
        props: Seq<Property>,
        params: &CheckErrorParams,
    ) -> Result<Seq<FieldValue>, Seq<char>> {
        if !Checker::Object.accepts(val.spec_type_name()) {
            Err(params.spec_message(val.spec_type_name(), TypeName::Object))
        } else {
            self.decode_prefix(props, params, self.fields@.len())
        }
    }

    /// A mapper with no fields.
    pub fn new() -> (r: StructMapper)
        ensures
            r.fields@.len() == 0,
            r.wf(),
    {
        StructMapper { fields: Vec::new() }
    }

    /// This mapper with one more field at the end.
    pub fn field(self, name: &str, mapper: Mapper) -> (r: StructMapper)
        ensures
            r.fields@.len() == self.fields@.len() + 1,
            forall|i: int| 0 <= i < self.fields@.len() ==> r.fields@[i] == self.fields@[i],
            r.fields@.last().name@ == name@,
            r.fields@.last().mapper == mapper,
    {
        let mut fields = self.fields;
        fields.push(Field { name: name.to_owned(), mapper });
        StructMapper { fields }
    }

    /// Whether `rec` holds one value of the right type per field.
    pub fn fits_record(&self, rec: &Vec<FieldValue>) -> (r: bool)
        ensures
            r == self.fits(rec@),
    {
        if rec.len() != self.fields.len() {
            return false;
        }
        let mut i: usize = 0;
        while i < rec.len()
            invariant
                i <= rec@.len(),
                rec@.len() == self.fields@.len(),
                forall|j: int| 0 <= j < i ==> #[trigger] self.fields@[j].mapper.fits(rec@[j]),
            decreases rec@.len() - i,
        {
            if !self.fields[i].mapper.fits_value(&rec[i]) {
                return false;
            }
            i = i + 1;
        }
        true
    }

    /// The properties of a fresh plain object for `rec`: one per field, in
    /// the order of the fields.
    pub fn to_js(&self, rec: &Vec<FieldValue>) -> (r: Vec<Property>)
        requires
            self.fits(rec@),
        ensures
            r@ == self.spec_to_js(rec@),
    {
        let mut out: Vec<Property> = Vec::new();
        let mut i: usize = 0;
        while i < self.fields.len()
            invariant
                i <= self.fields@.len(),
                self.fits(rec@),
                out@ =~= self.spec_to_js(rec@).take(i as int),
            decreases self.fields@.len() - i,
        {
            let f = &self.fields[i];
            let value = f.mapper.to_js(&rec[i]);
            out.push(Property { name: f.name.clone(), value });
            i = i + 1;
        }
        out
    }

    /// The values that the fields read from `props`, unchecked.
    pub open spec fn spec_from_js(&self, props: Seq<Property>) -> Seq<FieldValue> {
        Seq::new(
            self.fields@.len(),
            |i: int| Mapper::spec_from_js(field_input(props, self.fields@[i].name@)),
        )
    }

    /// Reads a record from an object that the caller has already checked:
    /// the value of each field, from its property.
    pub fn from_js(&self, props: &Vec<Property>) -> (r: Vec<FieldValue>)
        requires
            forall|i: int| 0 <= i < self.fields@.len() ==> self.field_ok(props@, i),
        ensures
            r@ == self.spec_from_js(props@),
            self.fits(r@),
    {
        let mut out: Vec<FieldValue> = Vec::new();
        let mut i: usize = 0;
        while i < self.fields.len()
            invariant
                i <= self.fields@.len(),
                forall|j: int| 0 <= j < self.fields@.len() ==> self.field_ok(props@, j),
                out@ =~= self.spec_from_js(props@).take(i as int),
                forall|j: int| 0 <= j < i ==> #[trigger] self.fields@[j].mapper.fits(out@[j]),
            decreases self.fields@.len() - i,
        {
            let f = &self.fields[i];
            let v = read_field(props, &f.name);
            assert(self.field_ok(props@, i as int));
            let x = f.mapper.from_js(&v);
            out.push(x);
            i = i + 1;
        }
        out
    }

    /// Checks that `val` is an object, then reads each field from `props`,
    /// the object's properties, with its mapper's check; the first failure
    /// ends the read, with a message that names the field as
    /// `name.field`.
    pub fn try_from_js(
        &self,
        val: &ValueSnapshot,
        props: &Vec<Property>,
        params: &CheckErrorParams,
    ) -> (r: Result<Vec<FieldValue>, String>)
        ensures
            match r {
                Ok(rec) => self.spec_try_from_js(*val, props@, params) == Ok::<
                    Seq<FieldValue>,
                    Seq<char>,
                >(rec@),
                Err(m) => self.spec_try_from_js(*val, props@, params) == Err::<
                    Seq<FieldValue>,
                    Seq<char>,
                >(m@),
            },
    {
        if let Err(m) = Checker::Object.check(val.type_label(), params) {
            return Err(m);
        }
        let mut out: Vec<FieldValue> = Vec::new();
        let mut i: usize = 0;
        while i < self.fields.len()
            invariant
                i <= self.fields@.len(),
                Checker::Object.accepts(val.spec_type_name()),
                self.decode_prefix(props@, params, i as nat) == Ok::<Seq<FieldValue>, Seq<char>>(
                    out@,
                ),
            decreases self.fields@.len() - i,
        {
            let f = &self.fields[i];
            let v = read_field(props, &f.name);
            let fp = params.for_field(f.name.as_str());
            match f.mapper.try_from_js(&v, &fp) {
                Ok(x) => {
                    out.push(x);
                },
                Err(m) => {
                    proof {
                        lemma_failure_stays(self, props@, params, (i + 1) as nat, self.fields@.len());
                    }
                    return Err(m);
                },
            }
            i = i + 1;
        }
        Ok(out)
    }
}

/// Once a prefix of the fields fails, every longer prefix fails with the
/// same message.
proof fn lemma_failure_stays(
    m: &StructMapper,
    props: Seq<Property>,
    params: &CheckErrorParams,
    n: nat,
    k: nat,
)
    requires
        n <= k,
        m.decode_prefix(props, params, n) is Err,
    ensures
        m.decode_prefix(props, params, k) == m.decode_prefix(props, params, n),
    decreases k - n,
{
    if n < k {
        lemma_failure_stays(m, props, params, n, (k - 1) as nat);
    }
}

/// In the properties that `to_js` writes, each field's name finds that
/// field's own value, when field names are distinct.
proof fn lemma_lookup_written(m: &StructMapper, rec: Seq<FieldValue>, j: int)
    requires
        m.wf(),
        m.fits(rec),
        0 <= j <= m.fields@.len(),
    ensures
        forall|k: int|
            0 <= k < j ==> lookup(m.spec_to_js(rec).take(j), #[trigger] m.fields@[k].name@) == Some(
                Mapper::spec_to_js(rec[k]),
            ),
    decreases j,
{
    let props = m.spec_to_js(rec);
    if j > 0 {
        lemma_lookup_written(m, rec, j - 1);
        assert(props.take(j).drop_last() =~= props.take(j - 1));
        assert forall|k: int| 0 <= k < j implies lookup(
            props.take(j),
            #[trigger] m.fields@[k].name@,
        ) == Some(Mapper::spec_to_js(rec[k])) by {
            if k < j - 1 {
                assert(m.fields@[k].name@ != m.fields@[j - 1].name@);
            }
        }
    }
}

proof fn lemma_decode_written(
    m: &StructMapper,
    rec: Seq<FieldValue>,
    params: &CheckErrorParams,
    n: nat,
)
    requires
        m.wf(),
        m.fits(rec),
        n <= m.fields@.len(),
    ensures
        m.decode_prefix(m.spec_to_js(rec), params, n) == Ok::<Seq<FieldValue>, Seq<char>>(
            rec.take(n as int),
        ),
    decreases n,
{
    if n > 0 {
        lemma_decode_written(m, rec, params, (n - 1) as nat);
        let props = m.spec_to_js(rec);
        lemma_lookup_written(m, rec, m.fields@.len() as int);
        assert(props.take(m.fields@.len() as int) =~= props);
        let k = n - 1;
        assert(m.fields@[k].mapper.fits(rec[k]));
        assert(lookup(props, m.fields@[k].name@) == Some(Mapper::spec_to_js(rec[k])));
        let v = field_input(props, m.fields@[k].name@);
        assert(v == Mapper::spec_to_js(rec[k]));
        assert(m.fields@[k].mapper.accepts(v));
        assert(Mapper::spec_from_js(v) == rec[k]);
        assert(rec.take(k).push(rec[k]) =~= rec.take(n as int));
    } else {
        assert(rec.take(0) =~= Seq::<FieldValue>::empty());
    }
}

/// Writing a record to a fresh object and reading it back with the checks
/// gives the same record, for a mapper whose field names are distinct and a
/// record that fits it.
pub proof fn lemma_struct_round_trip(
    m: &StructMapper,
    rec: Seq<FieldValue>,
    params: &CheckErrorParams,
)
    requires
        m.wf(),
        m.fits(rec),
    ensures
        m.spec_try_from_js(ValueSnapshot::Object(ObjectKind::Plain), m.spec_to_js(rec), params)
            == Ok::<Seq<FieldValue>, Seq<char>>(rec),
        m.spec_from_js(m.spec_to_js(rec)) == rec,
{
    lemma_decode_written(m, rec, params, m.fields@.len());
    assert(rec.take(rec.len() as int) =~= rec);
    lemma_lookup_written(m, rec, m.fields@.len() as int);
    assert(m.spec_to_js(rec).take(m.fields@.len() as int) =~= m.spec_to_js(rec));
    assert forall|i: int| 0 <= i < rec.len() implies #[trigger] m.spec_from_js(m.spec_to_js(rec))[i]
        == rec[i] by {
        assert(m.fields@[i].mapper.fits(rec[i]));
    }
    assert(m.spec_from_js(m.spec_to_js(rec)) =~= rec);
}

/// A primitive mapper reads back what it wrote: for a host value of its
/// type, `to_js` gives a script value that its checker accepts and that
/// `from_js` turns back into the same host value.
pub proof fn lemma_primitive_round_trip(m: Mapper, v: FieldValue, params: &CheckErrorParams)
    requires
        m.fits(v),
    ensures
        m.accepts(Mapper::spec_to_js(v)),
        Mapper::spec_from_js(Mapper::spec_to_js(v)) == v,
        m.spec_try_from_js(Mapper::spec_to_js(v), params) == Ok::<FieldValue, Seq<char>>(v),
{
}

/// Builds the mappers of a record with an integer field `num` and a string
/// field `str`, twice.
pub fn test() {
    let a = StructMapper::new().field("num", INT_MAPPER).field("str", STRING_MAPPER);
    let b = StructMapper::new().field("num", INT_MAPPER).field("str", STRING_MAPPER);
    assert(a.fields@.len() == 2 && b.fields@.len() == 2);
}

} // verus!
