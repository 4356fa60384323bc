use std::collections::HashMap;
use vstd::prelude::*;
use vstd::std_specs::hash::group_hash_axioms;

verus! {

broadcast use group_hash_axioms;

/// The class behind each live class instance, and the finalizer registered
/// for each class. An instance is live from `add_instance` until the engine
/// finalizes it; `finalize` takes it out, and says which class's finalizer
/// to run, if any.
pub struct ClassRegistry<F> {
    finalizers: HashMap<u32, F>,
    instances: HashMap<u64, u32>,
}

impl<F> ClassRegistry<F> {
    /// Class id to finalizer.
    pub closed spec fn finalizers(&self) -> Map<u32, F> {
        self.finalizers@
    }

    /// Instance identity to class id, for the live instances.
    pub closed spec fn instances(&self) -> Map<u64, u32> {
        self.instances@
    }

    pub fn new() -> (r: ClassRegistry<F>)
        ensures
            r.finalizers() == Map::<u32, F>::empty(),
            r.instances() == Map::<u64, u32>::empty(),
    {
        ClassRegistry { finalizers: HashMap::new(), instances: HashMap::new() }
    }

    /// Records a new class and its finalizer, when it has one.
    pub fn define_class(&mut self, class_id: u32, finalizer: Option<F>)
        ensures
            final(self).instances() == old(self).instances(),
            match finalizer {
                Some(f) => final(self).finalizers() == old(self).finalizers().insert(class_id, f),
                None => final(self).finalizers() == old(self).finalizers(),
            },
    {
        if let Some(f) = finalizer {
            self.finalizers.insert(class_id, f);
        }
    }

    /// Records that the instance `ptr` of class `class_id` is live.
    pub fn add_instance(&mut self, ptr: u64, class_id: u32)
        ensures
            final(self).instances() == old(self).instances().insert(ptr, class_id),
            final(self).finalizers() == old(self).finalizers(),
    {
        self.instances.insert(ptr, class_id);
    }

    /// The class of a live instance.
    pub fn class_of(&self, ptr: u64) -> (r: Option<u32>)
        ensures
            r == (if self.instances().contains_key(ptr) {
                Some(self.instances()[ptr])
            } else {
                None
            }),
    {
        match self.instances.get(&ptr) {
            Some(c) => Some(*c),
            None => None,
        }
    }

    /// The finalizer of a class, if one was registered.
    pub fn finalizer(&self, class_id: u32) -> (r: Option<&F>)
        ensures
            match r {
                Some(f) => self.finalizers().contains_key(class_id) && self.finalizers()[class_id]
                    == *f,
                None => !self.finalizers().contains_key(class_id),
            },
    {
        self.finalizers.get(&class_id)
    }

    pub open spec fn spec_finalize_class(&self, ptr: u64) -> Option<u32> {
        if self.instances().contains_key(ptr) && self.finalizers().contains_key(
            self.instances()[ptr],
        ) {
            Some(self.instances()[ptr])
        } else {
            None
        }
    }

    /// The engine finalizes the instance `ptr`: it is no longer live. Returns
    /// its class when that class has a finalizer to run.
    pub fn finalize(&mut self, ptr: u64) -> (r: Option<u32>)
        ensures
            r == old(self).spec_finalize_class(ptr),
            final(self).instances() == old(self).instances().remove(ptr),
            final(self).finalizers() == old(self).finalizers(),
    {
        match self.instances.remove(&ptr) {
            Some(c) => {
                if self.finalizers.contains_key(&c) {
                    Some(c)
                } else {
                    None
                }
            },
            None => None,
        }
    }
}

/// An instance's finalizer runs at most once: once `finalize` has taken the
/// instance out, finalizing it again finds no class.
pub proof fn lemma_finalize_once<F>(before: ClassRegistry<F>, after: ClassRegistry<F>, ptr: u64)
    requires
        after.instances() == before.instances().remove(ptr),
        after.finalizers() == before.finalizers(),
    ensures
        !after.instances().contains_key(ptr),
        after.spec_finalize_class(ptr) is None,
{
}

/// Which execution context owns each engine runtime. Engine callbacks that
/// receive only the runtime find their context here.
pub struct RuntimeTable {
    contexts: HashMap<u64, u64>,
}

impl View for RuntimeTable {
    type V = Map<u64, u64>;

    closed spec fn view(&self) -> Map<u64, u64> {
        self.contexts@
    }
}

impl RuntimeTable {
    pub fn new() -> (r: RuntimeTable)
        ensures
            r@ == Map::<u64, u64>::empty(),
    {
        RuntimeTable { contexts: HashMap::new() }
    }

    /// Records that `context` owns `runtime`, when the context is created.
    pub fn register(&mut self, runtime: u64, context: u64)
        ensures
            final(self)@ == old(self)@.insert(runtime, context),
    {
        self.contexts.insert(runtime, context);
    }

    /// Forgets `runtime`, when its context is torn down.
    pub fn unregister(&mut self, runtime: u64)
        ensures
            final(self)@ == old(self)@.remove(runtime),
    {
        self.contexts.remove(&runtime);
    }

    /// The context that owns `runtime`.
    pub fn lookup(&self, runtime: u64) -> (r: Option<u64>)
        ensures
            r == (if self@.contains_key(runtime) {
                Some(self@[runtime])
            } else {
                None
            }),
    {
        match self.contexts.get(&runtime) {
            Some(c) => Some(*c),
            None => None,
        }
    }
}

} // verus!
