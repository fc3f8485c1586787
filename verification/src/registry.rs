//! The native type system: one class descriptor per registered type, each
//! holding a function table (vtable) with one slot per virtual operation
//! and a pointer to the parent class descriptor.
//!
//! A class descriptor is created once per registered type.  A subclass
//! starts with a copy of its parent's vtable — that copy is how ancestor
//! installations reach the new class — and its one-time class
//! initialisation then installs this layer's trampolines into the slots it
//! bridges.  After initialisation the vtable is read-only; dispatch and the
//! parent-call accessor both resolve slots through the live registry, never
//! through a cached descriptor.

use vstd::prelude::*;

verus! {

/// One vtable slot: what the native runtime would call through it.
#[derive(Clone, Copy, PartialEq, Eq, Structural, Debug)]
pub enum SlotEntry {
    /// No implementation installed.  Calling through such a slot is a
    /// contract violation of the binding, never a recoverable error.
    Missing,
    /// The native library's own implementation.
    Native,
    /// The trampoline installed by the named class layer, which dispatches
    /// into that layer's override trait.
    Trampoline(usize),
}

/// A class descriptor: the parent link and the function table.
pub struct ClassRecord {
    /// The parent class, if any; resolved live on every parent call.
    pub parent: Option<usize>,
    /// The vtable: one entry per virtual operation of the capability.
    pub slots: Vec<SlotEntry>,
}

/// The registry of class descriptors.  A class identifier is an index into
/// the registration order, so a parent always has a smaller identifier
/// than any of its subclasses.
pub struct TypeRegistry {
    pub classes: Vec<ClassRecord>,
}

impl TypeRegistry {
    /// The number of registered classes.
    pub open spec fn class_count(self) -> int {
        self.classes@.len() as int
    }

    /// The parent of a class.
    pub open spec fn parent_of(self, c: int) -> Option<usize> {
        self.classes@[c].parent
    }

    /// The number of vtable slots of a class.
    pub open spec fn slot_len(self, c: int) -> int {
        self.classes@[c].slots@.len() as int
    }

    /// The entry in one vtable slot of a class.
    pub open spec fn slot_of(self, c: int, op: int) -> SlotEntry {
        self.classes@[c].slots@[op]
    }

    /// Well-formedness of the registry: parents precede their subclasses,
    /// and no vtable entry points at a trampoline of a later layer.  The
    /// second clause is what rules out a parent call reaching back into the
    /// calling layer's own override.
    pub open spec fn wf(self) -> bool {
        &&& forall|c: int|
            0 <= c < self.class_count() ==> (#[trigger] self.parent_of(c) matches Some(p) ==> p
                < c)
        &&& forall|c: int, op: int|
            0 <= c < self.class_count() && 0 <= op < self.slot_len(c) ==> (
            #[trigger] self.slot_of(c, op) matches SlotEntry::Trampoline(t) ==> t <= c)
    }

    /// An empty registry.
    pub fn new() -> (reg: TypeRegistry)
        ensures
            reg.wf(),
            reg.class_count() == 0,
    {
        TypeRegistry { classes: Vec::new() }
    }

    /// Registers a native base class whose vtable the native library has
    /// fully populated with its own implementations.
    pub fn register_native_class(&mut self, n_ops: usize) -> (c: usize)
        requires
            old(self).wf(),
        ensures
            final(self).wf(),
            c == old(self).class_count(),
            final(self).class_count() == old(self).class_count() + 1,
            final(self).parent_of(c as int) is None,
            final(self).slot_len(c as int) == n_ops,
            forall|op: int| 0 <= op < n_ops ==> final(self).slot_of(c as int, op) == SlotEntry::Native,
            forall|k: int| 0 <= k < old(self).class_count() ==> class_unchanged(*old(self), *final(self), k),
    {
        let id = self.classes.len();
        let mut slots: Vec<SlotEntry> = Vec::new();
        let mut i: usize = 0;
        while i < n_ops
            invariant
                i <= n_ops,
                slots@.len() == i,
                forall|op: int| 0 <= op < i ==> slots@[op] == SlotEntry::Native,
            decreases n_ops - i,
        {
            slots.push(SlotEntry::Native);
            i += 1;
        }
        self.classes.push(ClassRecord { parent: None, slots });
        proof {
            lemma_wf_after_append(*old(self), *self);
        }
        id
    }

    /// Registers a subclass of an existing class.  The new class descriptor
    /// starts as a copy of the parent's vtable, so every slot an ancestor
    /// installed — native implementation or ancestor trampoline — carries
    /// over until this layer's class initialisation overwrites it.
    pub fn register_subclass(&mut self, parent: usize) -> (c: usize)
        requires
            old(self).wf(),
            parent < old(self).class_count(),
        ensures
            final(self).wf(),
            c == old(self).class_count(),
            final(self).class_count() == old(self).class_count() + 1,
            final(self).parent_of(c as int) == Some(parent),
            final(self).slot_len(c as int) == old(self).slot_len(parent as int),
            forall|op: int|
                0 <= op < old(self).slot_len(parent as int) ==> final(self).slot_of(c as int, op)
                    == old(self).slot_of(parent as int, op),
            forall|k: int| 0 <= k < old(self).class_count() ==> class_unchanged(*old(self), *final(self), k),
    {
        let id = self.classes.len();
        let n = self.classes[parent].slots.len();
        let mut slots: Vec<SlotEntry> = Vec::new();
        let mut i: usize = 0;
        while i < n
            invariant
                parent < self.classes@.len(),
                n == self.classes@[parent as int].slots@.len(),
                i <= n,
                slots@.len() == i,
                forall|op: int|
                    0 <= op < i ==> slots@[op] == self.classes@[parent as int].slots@[op],
            decreases n - i,
        {
            let e = self.classes[parent].slots[i];
            slots.push(e);
            i += 1;
        }
        self.classes.push(ClassRecord { parent: Some(parent), slots });
        proof {
            let pre = *old(self);
            let post = *self;
            assert forall|op2: int|
                0 <= op2 < post.slot_len(pre.class_count()) implies (#[trigger] post.slot_of(
                pre.class_count(),
                op2,
            ) matches SlotEntry::Trampoline(t) ==> t <= pre.class_count()) by {
                assert(post.slot_of(pre.class_count(), op2) == pre.slot_of(parent as int, op2));
                assert(pre.slot_of(parent as int, op2) matches SlotEntry::Trampoline(t) ==> t
                    <= parent as int);
            }
            lemma_wf_after_append(pre, post);
        }
        id
    }

    /// Installs this layer's trampoline into one vtable slot of its own
    /// class.  Writes exactly that slot: installing one operation never
    /// affects another slot or another class.
    pub fn install_trampoline(&mut self, c: usize, op: usize)
        requires
            old(self).wf(),
            c < old(self).class_count(),
            op < old(self).slot_len(c as int),
        ensures
            final(self).wf(),
            trampoline_installed(*old(self), *final(self), c as int, op as int),
    {
        let entry = SlotEntry::Trampoline(c);
        let record = &mut self.classes[c];
        record.slots.set(op, entry);
        proof {
            let pre = *old(self);
            let post = *self;
            assert forall|c2: int|
                0 <= c2 < post.class_count() implies (#[trigger] post.parent_of(c2) matches Some(
                p,
            ) ==> p < c2) by {
                assert(post.parent_of(c2) == pre.parent_of(c2));
                assert(pre.parent_of(c2) matches Some(p) ==> p < c2);
            }
            assert forall|c2: int, op2: int|
                0 <= c2 < post.class_count() && 0 <= op2 < post.slot_len(c2) implies (
            #[trigger] post.slot_of(c2, op2) matches SlotEntry::Trampoline(t) ==> t <= c2) by {
                if c2 == c as int && op2 == op as int {
                } else {
                    assert(post.slot_of(c2, op2) == pre.slot_of(c2, op2));
                    assert(pre.slot_of(c2, op2) matches SlotEntry::Trampoline(t) ==> t <= c2);
                }
            }
        }
    }

    /// Reads one vtable slot, as dispatch does on every call.
    pub fn slot(&self, c: usize, op: usize) -> (e: SlotEntry)
        requires
            c < self.class_count(),
            op < self.slot_len(c as int),
        ensures
            e == self.slot_of(c as int, op as int),
    {
        self.classes[c].slots[op]
    }

    /// Reads the parent link of a class from the live registry.
    pub fn parent(&self, c: usize) -> (p: Option<usize>)
        requires
            c < self.class_count(),
        ensures
            p == self.parent_of(c as int),
    {
        self.classes[c].parent
    }

    /// Resolves the slot a parent call targets: walks to the parent class
    /// through the live registry and fetches that class's entry, never the
    /// (possibly overridden) entry of the class itself.
    pub fn parent_slot(&self, c: usize, op: usize) -> (e: SlotEntry)
        requires
            self.wf(),
            c < self.class_count(),
            self.parent_of(c as int) is Some,
            op < self.slot_len(self.parent_of(c as int)->0 as int),
        ensures
            e == self.slot_of(self.parent_of(c as int)->0 as int, op as int),
    {
        let p = self.classes[c].parent;
        match p {
            Some(pc) => self.classes[pc].slots[op],
            None => vstd::pervasive::unreached(),
        }
    }
}

/// Nothing about class `k` changed between the two registry states.
pub open spec fn class_unchanged(pre: TypeRegistry, post: TypeRegistry, k: int) -> bool {
    &&& post.parent_of(k) == pre.parent_of(k)
    &&& post.slot_len(k) == pre.slot_len(k)
    &&& forall|op: int| 0 <= op < pre.slot_len(k) ==> post.slot_of(k, op) == pre.slot_of(k, op)
}

/// The effect of installing the trampoline of layer `c` into slot `op`:
/// that one slot now holds the layer's trampoline and every other slot of
/// every class is untouched.
pub open spec fn trampoline_installed(pre: TypeRegistry, post: TypeRegistry, c: int, op: int) -> bool {
    &&& post.class_count() == pre.class_count()
    &&& post.parent_of(c) == pre.parent_of(c)
    &&& post.slot_len(c) == pre.slot_len(c)
    &&& post.slot_of(c, op) == SlotEntry::Trampoline(c as usize)
    &&& forall|op2: int| 0 <= op2 < pre.slot_len(c) && op2 != op ==> post.slot_of(c, op2) == pre.slot_of(c, op2)
    &&& forall|k: int| 0 <= k < pre.class_count() && k != c ==> class_unchanged(pre, post, k)
}

/// Installing a trampoline is idempotent: running the installation a second
/// time leaves every class exactly as the first run left it.
pub proof fn lemma_install_idempotent(ts0: TypeRegistry, ts1: TypeRegistry, ts2: TypeRegistry, c: int, op: int)
    requires
        0 <= c < ts0.class_count(),
        0 <= op < ts0.slot_len(c),
        trampoline_installed(ts0, ts1, c, op),
        trampoline_installed(ts1, ts2, c, op),
    ensures
        ts2.class_count() == ts1.class_count(),
        forall|k: int| 0 <= k < ts1.class_count() ==> class_unchanged(ts1, ts2, k),
{
}

/// Installations into different slots are order-independent: the two orders
/// of installing distinct operations reach classes that agree on every
/// slot.  Each installation writes a disjoint slot, so overriding one
/// operation never silently affects another.
pub proof fn lemma_install_order_independent(
    ts0: TypeRegistry,
    ts1: TypeRegistry,
    ts2: TypeRegistry,
    us1: TypeRegistry,
    us2: TypeRegistry,
    c: int,
    op_a: int,
    op_b: int,
)
    requires
        0 <= c < ts0.class_count(),
        0 <= op_a < ts0.slot_len(c),
        0 <= op_b < ts0.slot_len(c),
        op_a != op_b,
        trampoline_installed(ts0, ts1, c, op_a),
        trampoline_installed(ts1, ts2, c, op_b),
        trampoline_installed(ts0, us1, c, op_b),
        trampoline_installed(us1, us2, c, op_a),
    ensures
        ts2.class_count() == us2.class_count(),
        forall|k: int| 0 <= k < ts0.class_count() ==> class_unchanged(ts2, us2, k),
{
    assert forall|k: int| 0 <= k < ts0.class_count() implies class_unchanged(ts2, us2, k) by {
        if k == c {
            assert(ts2.slot_len(k) == ts0.slot_len(k));
            assert(us2.slot_len(k) == ts0.slot_len(k));
            assert forall|op: int|
                0 <= op < ts2.slot_len(k) implies ts2.slot_of(k, op) == us2.slot_of(k, op) by {
                if op == op_a {
                    assert(ts2.slot_of(c, op_a) == ts1.slot_of(c, op_a));
                    assert(us2.slot_of(c, op_a) == SlotEntry::Trampoline(c as usize));
                } else if op == op_b {
                    assert(ts2.slot_of(c, op_b) == SlotEntry::Trampoline(c as usize));
                    assert(us2.slot_of(c, op_b) == us1.slot_of(c, op_b));
                } else {
                    assert(ts2.slot_of(c, op) == ts1.slot_of(c, op));
                    assert(ts1.slot_of(c, op) == ts0.slot_of(c, op));
                    assert(us2.slot_of(c, op) == us1.slot_of(c, op));
                    assert(us1.slot_of(c, op) == ts0.slot_of(c, op));
                }
            }
        } else {
            assert(class_unchanged(ts0, ts1, k));
            assert(class_unchanged(ts1, ts2, k));
            assert(class_unchanged(ts0, us1, k));
            assert(class_unchanged(us1, us2, k));
            assert(ts2.slot_len(k) == ts0.slot_len(k));
            assert(us2.slot_len(k) == ts0.slot_len(k));
            assert forall|op: int|
                0 <= op < ts2.slot_len(k) implies ts2.slot_of(k, op) == us2.slot_of(k, op) by {
                assert(ts2.slot_of(k, op) == ts1.slot_of(k, op));
                assert(ts1.slot_of(k, op) == ts0.slot_of(k, op));
                assert(us2.slot_of(k, op) == us1.slot_of(k, op));
                assert(us1.slot_of(k, op) == ts0.slot_of(k, op));
            }
        }
    }
}

/// The parent-call accessor can never reach the calling layer's own
/// trampoline: in a well-formed registry, the parent's vtable holds only
/// entries installed by the parent's own ancestry, all registered before
/// the subclass existed.  A parent call therefore always lands in ancestor
/// behaviour and can never recurse into the override it was called from.
pub proof fn lemma_parent_call_skips_own_layer(ts: TypeRegistry, c: usize, op: usize)
    requires
        ts.wf(),
        c < ts.class_count(),
        ts.parent_of(c as int) is Some,
        op < ts.slot_len(ts.parent_of(c as int)->0 as int),
    ensures
        ts.slot_of(ts.parent_of(c as int)->0 as int, op as int) != SlotEntry::Trampoline(c),
{
    let p = ts.parent_of(c as int)->0 as int;
    assert(ts.parent_of(c as int) matches Some(q) ==> q < c as int);
    assert(ts.slot_of(p, op as int) matches SlotEntry::Trampoline(t) ==> t <= p);
}

/// Appending one class whose parent link and vtable entries all point at
/// already-registered layers keeps the registry well formed.
proof fn lemma_wf_after_append(pre: TypeRegistry, post: TypeRegistry)
    requires
        pre.wf(),
        post.class_count() == pre.class_count() + 1,
        forall|k: int| 0 <= k < pre.class_count() ==> class_unchanged(pre, post, k),
        post.parent_of(pre.class_count()) matches Some(p) ==> p < pre.class_count(),
        forall|op: int|
            0 <= op < post.slot_len(pre.class_count()) ==> (#[trigger] post.slot_of(
                pre.class_count(),
                op,
            ) matches SlotEntry::Trampoline(t) ==> t <= pre.class_count()),
    ensures
        post.wf(),
{
    let n = pre.class_count();
    assert forall|c2: int|
        0 <= c2 < post.class_count() implies (#[trigger] post.parent_of(c2) matches Some(p) ==> p
        < c2) by {
        if c2 < n {
            assert(class_unchanged(pre, post, c2));
            assert(pre.parent_of(c2) matches Some(p) ==> p < c2);
        }
    }
    assert forall|c2: int, op2: int|
        0 <= c2 < post.class_count() && 0 <= op2 < post.slot_len(c2) implies (
    #[trigger] post.slot_of(c2, op2) matches SlotEntry::Trampoline(t) ==> t <= c2) by {
        if c2 < n {
            assert(class_unchanged(pre, post, c2));
            assert(pre.slot_of(c2, op2) matches SlotEntry::Trampoline(t) ==> t <= c2);
        }
    }
}

} // verus!
