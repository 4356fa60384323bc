use vstd::prelude::*;

verus! {

/// The host closures behind native function objects. Registering a closure
/// gives it a stable slot whose index the engine keeps in the function
/// object's private slot; the function object's finalizer frees the slot,
/// once.
pub struct FunctionTable<F> {
    slots: Vec<Option<F>>,
}

impl<F> View for FunctionTable<F> {
    type V = Seq<Option<F>>;

    closed spec fn view(&self) -> Seq<Option<F>> {
        self.slots@
    }
}

/// The table after the slot `id` is freed.
pub open spec fn after_free<F>(s: Seq<Option<F>>, id: usize) -> Seq<Option<F>> {
    if id < s.len() {
        s.update(id as int, None)
    } else {
        s
    }
}

/// What the slot `id` holds: nothing when it was freed or never given out.
pub open spec fn slot<F>(s: Seq<Option<F>>, id: usize) -> Option<F> {
    if id < s.len() {
        s[id as int]
    } else {
        None
    }
}

impl<F> FunctionTable<F> {
    pub fn new() -> (r: FunctionTable<F>)
        ensures
            r@ == Seq::<Option<F>>::empty(),
    {
        FunctionTable { slots: Vec::new() }
    }

    /// The number of slots given out so far, freed ones included.
    pub fn len(&self) -> (r: usize)
        ensures
            r == self@.len(),
    {
        self.slots.len()
    }

    /// Stores `f` in a new slot and returns its index.
    pub fn register(&mut self, f: F) -> (r: usize)
        ensures
            r == old(self)@.len(),
            final(self)@ == old(self)@.push(Some(f)),
    {
        let id = self.slots.len();
        self.slots.push(Some(f));
        id
    }

    /// The closure in slot `id`, if the slot is live.
    pub fn get(&self, id: usize) -> (r: Option<&F>)
        ensures
            match r {
                Some(f) => slot(self@, id) == Some(*f),
                None => slot(self@, id) is None,
            },
    {
        if id < self.slots.len() {
            match &self.slots[id] {
                Some(f) => Some(f),
                None => None,
            }
        } else {
            None
        }
    }

    /// Frees slot `id` and hands back the closure it held; a slot that was
    /// already freed, or never given out, gives nothing.
    pub fn free(&mut self, id: usize) -> (r: Option<F>)
        ensures
            r == slot(old(self)@, id),
            final(self)@ == after_free(old(self)@, id),
    {
        if id < self.slots.len() {
            let mut out: Option<F> = None;
            self.slots.set_and_swap(id, &mut out);
            out
        } else {
            None
        }
    }
}

/// A slot is freed at most once: after `free`, the slot is empty, so a
/// second `free` of it gives nothing and no call can reach its closure.
pub proof fn lemma_free_once<F>(s: Seq<Option<F>>, id: usize)
    ensures
        slot(after_free(s, id), id) is None,
        after_free(after_free(s, id), id) == after_free(s, id),
{
    if id < s.len() {
        assert(after_free(s, id).update(id as int, None) =~= after_free(s, id));
    }
}

/// What the trampoline hands back to the engine once the closure returned.
#[derive(PartialEq, Eq, Structural, Debug)]
pub enum Completion<V> {
    /// The call's result: one reference that the engine takes over.
    Return(V),
    /// A value to raise as the pending exception; the call then answers the
    /// engine's exception sentinel.
    Throw(V),
}

/// A closure's `Ok` value is returned to the engine; its `Err` value is
/// thrown as a script exception.
pub fn complete_call<V>(res: Result<V, V>) -> (r: Completion<V>)
    ensures
        match res {
            Ok(v) => r == Completion::Return(v),
            Err(e) => r == Completion::Throw(e),
        },
{
    match res {
        Ok(v) => Completion::Return(v),
        Err(e) => Completion::Throw(e),
    }
}

/// The values that a native call hands the closure as new handles, each
/// with a reference of its own: `this`, then the arguments in order.
pub fn incoming_values<V: Copy>(this: V, args: &Vec<V>) -> (r: Vec<V>)
    ensures
        r@ == seq![this] + args@,
{
    let mut out: Vec<V> = Vec::new();
    out.push(this);
    let mut i: usize = 0;
    while i < args.len()
        invariant
            i <= args@.len(),
            out@ =~= seq![this] + args@.take(i as int),
        decreases args@.len() - i,
    {
        out.push(args[i]);
        i = i + 1;
    }
    assert(args@.take(args@.len() as int) =~= args@);
    out
}

/// A setter's outcome as a call's: success answers `undefined`, a failure
/// is thrown.
pub fn complete_setter<V>(res: Result<(), V>, undefined: V) -> (r: Completion<V>)
    ensures
        match res {
            Ok(()) => r == Completion::Return(undefined),
            Err(e) => r == Completion::Throw(e),
        },
{
    match res {
        Ok(()) => Completion::Return(undefined),
        Err(e) => Completion::Throw(e),
    }
}

/// The value a setter receives: the call's first argument, or `undefined`
/// when the call has none.
pub fn setter_argument<V: Copy>(args: &Vec<V>, undefined: V) -> (r: V)
    ensures
        r == (if args@.len() > 0 {
            args@[0]
        } else {
            undefined
        }),
{
    if args.len() > 0 {
        args[0]
    } else {
        undefined
    }
}

} // verus!
