use vstd::prelude::*;

use crate::bridge::FunctionTable;
use crate::registry::ClassRegistry;

verus! {

/// A property of a class: an optional getter and an optional setter.
pub struct ClassPropertyDefinition<G, S> {
    pub get: Option<G>,
    pub set: Option<S>,
}

/// What a class is made from: its name, its methods and its accessor
/// properties, each under a name and in the order given, and an optional
/// finalizer that runs when an instance is collected.
pub struct ClassDefinition<M, G, S, Z> {
    pub name: String,
    pub methods: Vec<(String, M)>,
    pub props: Vec<(String, ClassPropertyDefinition<G, S>)>,
    pub finalizer: Option<Z>,
}

/// A host closure behind a native function object: a plain function, or the
/// getter or setter of a class property, which reach the engine through the
/// same native call path.
pub enum Native<M, G, S> {
    Function(M),
    Getter(G),
    Setter(S),
}

/// One entry of a class's prototype object. Function indices are slots of
/// the function table.
#[derive(PartialEq, Eq, Debug)]
pub enum ProtoEntry {
    /// An accessor property; a missing getter or setter is left null.
    Accessor { name: String, getter: Option<usize>, setter: Option<usize> },
    /// An enumerable property that holds a method.
    Method { name: String, function: usize },
}

/// The entries and new function slots for the first `n` properties, when the
/// table had `base` slots before.
pub open spec fn plan_props<M, G, S>(
    props: Seq<(String, ClassPropertyDefinition<G, S>)>,
    n: nat,
    base: nat,
) -> (Seq<ProtoEntry>, Seq<Option<Native<M, G, S>>>)
    decreases n,
{
    if n == 0 {
        (Seq::empty(), Seq::empty())
    } else {
        let (es, slots) = plan_props::<M, G, S>(props, (n - 1) as nat, base);
        let p = props[n - 1];
        let (g, slots1) = match p.1.get {
            Some(g) => (
                Some((base + slots.len()) as usize),
                slots.push(Some(Native::<M, G, S>::Getter(g))),
            ),
            None => (None, slots),
        };
        let (s, slots2) = match p.1.set {
            Some(s) => (
                Some((base + slots1.len()) as usize),
                slots1.push(Some(Native::<M, G, S>::Setter(s))),
            ),
            None => (None, slots1),
        };
        (es.push(ProtoEntry::Accessor { name: p.0, getter: g, setter: s }), slots2)
    }
}

/// The entries and new function slots for the first `n` methods, when the
/// table had `base` slots before.
pub open spec fn plan_methods<M, G, S>(methods: Seq<(String, M)>, n: nat, base: nat) -> (
    Seq<ProtoEntry>,
    Seq<Option<Native<M, G, S>>>,
)
    decreases n,
{
    if n == 0 {
        (Seq::empty(), Seq::empty())
    } else {
        let (es, slots) = plan_methods::<M, G, S>(methods, (n - 1) as nat, base);
        let m = methods[n - 1];
        (
            es.push(ProtoEntry::Method { name: m.0, function: (base + slots.len()) as usize }),
            slots.push(Some(Native::<M, G, S>::Function(m.1))),
        )
    }
}

pub open spec fn props_plan<M, G, S>(
    props: Seq<(String, ClassPropertyDefinition<G, S>)>,
    base: nat,
) -> (Seq<ProtoEntry>, Seq<Option<Native<M, G, S>>>) {
    plan_props::<M, G, S>(props, props.len(), base)
}

pub open spec fn methods_plan<M, G, S>(methods: Seq<(String, M)>, base: nat) -> (
    Seq<ProtoEntry>,
    Seq<Option<Native<M, G, S>>>,
) {
    plan_methods::<M, G, S>(methods, methods.len(), base)
}

/// One entry per property, and at most two new slots for each.
proof fn lemma_plan_props_len<M, G, S>(
    props: Seq<(String, ClassPropertyDefinition<G, S>)>,
    n: nat,
    base: nat,
)
    requires
        n <= props.len(),
    ensures
        plan_props::<M, G, S>(props, n, base).0.len() == n,
        plan_props::<M, G, S>(props, n, base).1.len() <= 2 * n,
    decreases n,
{
    if n > 0 {
        lemma_plan_props_len::<M, G, S>(props, (n - 1) as nat, base);
    }
}

/// One entry and one new slot per method.
proof fn lemma_plan_methods_len<M, G, S>(methods: Seq<(String, M)>, n: nat, base: nat)
    requires
        n <= methods.len(),
    ensures
        plan_methods::<M, G, S>(methods, n, base).0.len() == n,
        plan_methods::<M, G, S>(methods, n, base).1.len() == n,
    decreases n,
{
    if n > 0 {
        lemma_plan_methods_len::<M, G, S>(methods, (n - 1) as nat, base);
    }
}

/// Registers a class's host side: its finalizer under `class_id`, and one
/// native function slot per getter, setter and method, in the order of the
/// properties and then of the methods. Returns the prototype entries, in
/// the same order, that the engine side defines on the class's prototype.
pub fn plan_class<M, G, S, Z>(
    def: ClassDefinition<M, G, S, Z>,
    class_id: u32,
    registry: &mut ClassRegistry<Z>,
    functions: &mut FunctionTable<Native<M, G, S>>,
) -> (r: Vec<ProtoEntry>)
    requires
        old(functions)@.len() + 2 * def.props@.len() + def.methods@.len() <= usize::MAX,
    ensures
        final(registry).instances() == old(registry).instances(),
        match def.finalizer {
            Some(f) => final(registry).finalizers() == old(registry).finalizers().insert(
                class_id,
                f,
            ),
            None => final(registry).finalizers() == old(registry).finalizers(),
        },
        ({
            let pp = props_plan::<M, G, S>(def.props@, old(functions)@.len() as nat);
            let mp = methods_plan::<M, G, S>(
                def.methods@,
                (old(functions)@.len() + pp.1.len()) as nat,
            );
            &&& r@ == pp.0 + mp.0
            &&& final(functions)@ == old(functions)@ + pp.1 + mp.1
        }),
{
    let ClassDefinition { name: _, methods, props, finalizer } = def;
    registry.define_class(class_id, finalizer);
    let ghost base = functions@.len() as nat;
    let ghost all_props = props@;
    let ghost all_methods = methods@;
    let ghost start = functions@;
    let mut props = props;
    let mut entries: Vec<ProtoEntry> = Vec::new();
    let mut i: usize = 0;
    let n = props.len();
    while i < n
        invariant
            n == all_props.len(),
            i <= n,
            props@ == all_props.skip(i as int),
            base == start.len(),
            base + 2 * all_props.len() + all_methods.len() <= usize::MAX,
            entries@ == plan_props::<M, G, S>(all_props, i as nat, base).0,
            functions@ == start + plan_props::<M, G, S>(all_props, i as nat, base).1,
        decreases n - i,
    {
        proof {
            lemma_plan_props_len::<M, G, S>(all_props, i as nat, base);
        }
        let (name, prop) = props.remove(0);
        assert(all_props[i as int] == (name, prop));
        let ClassPropertyDefinition { get, set } = prop;
        let getter = match get {
            Some(g) => Some(functions.register(Native::Getter(g))),
            None => None,
        };
        let setter = match set {
            Some(s) => Some(functions.register(Native::Setter(s))),
            None => None,
        };
        entries.push(ProtoEntry::Accessor { name, getter, setter });
        i = i + 1;
        proof {
            assert(props@ =~= all_props.skip(i as int));
            assert(functions@ =~= start + plan_props::<M, G, S>(all_props, i as nat, base).1);
        }
    }
    proof {
        lemma_plan_props_len::<M, G, S>(all_props, n as nat, base);
    }
    let ghost mbase = functions@.len() as nat;
    let ghost mid = functions@;
    let ghost pentries = entries@;
    let mut methods = methods;
    let mut j: usize = 0;
    let k = methods.len();
    while j < k
        invariant
            k == all_methods.len(),
            j <= k,
            methods@ == all_methods.skip(j as int),
            mbase == mid.len(),
            mbase + all_methods.len() <= usize::MAX,
            entries@ == pentries + plan_methods::<M, G, S>(all_methods, j as nat, mbase).0,
            functions@ == mid + plan_methods::<M, G, S>(all_methods, j as nat, mbase).1,
        decreases k - j,
    {
        proof {
            lemma_plan_methods_len::<M, G, S>(all_methods, j as nat, mbase);
        }
        let (name, m) = methods.remove(0);
        assert(all_methods[j as int] == (name, m));
        let function = functions.register(Native::Function(m));
        entries.push(ProtoEntry::Method { name, function });
        j = j + 1;
        proof {
            assert(methods@ =~= all_methods.skip(j as int));
            assert(entries@ =~= pentries + plan_methods::<M, G, S>(all_methods, j as nat, mbase).0);
            assert(functions@ =~= mid + plan_methods::<M, G, S>(all_methods, j as nat, mbase).1);
        }
    }
    entries
}

} // verus!
