//! The subclass bridge for file monitors: lets a type written here
//! override the cancel operation of the native monitor class.

use vstd::prelude::*;

use crate::registry::SlotEntry;
use crate::registry::TypeRegistry;
use crate::registry::class_unchanged;

verus! {

/// The vtable slot of the cancel operation.
pub const OP_CANCEL: usize = 0;

/// The number of virtual operations of the monitor capability.
pub const MONITOR_OPS: usize = 1;

/// The native base monitor instance embedded in every monitor object; its
/// state is whether monitoring has been cancelled.
pub struct NativeFileMonitor {
    pub cancelled: bool,
}

impl View for NativeFileMonitor {
    type V = bool;

    open spec fn view(&self) -> bool {
        self.cancelled
    }
}

/// What the native cancel implementation does: marks the monitor
/// cancelled and reports success.  Cancelling twice is benign.
pub open spec fn native_cancel_spec(pre: bool, r: bool, post: bool) -> bool {
    r == true && post == true
}

impl NativeFileMonitor {
    /// A fresh native monitor, actively monitoring.
    pub fn new() -> (m: NativeFileMonitor)
        ensures
            !m@,
    {
        NativeFileMonitor { cancelled: false }
    }

    /// The native cancel implementation.
    pub fn cancel(&mut self) -> (r: bool)
        ensures
            native_cancel_spec(old(self)@, r, final(self)@),
    {
        self.cancelled = true;
        true
    }
}

/// The context a bridged monitor subclass runs in: its class is
/// registered, it has a parent class, and the parent's vtable carries the
/// native implementation of the cancel operation.  An empty parent slot
/// would be a defect of the binding itself, fatal rather than
/// recoverable, so it is excluded here.
pub open spec fn monitor_subclass_ctx(ts: TypeRegistry, class: usize) -> bool {
    &&& ts.wf()
    &&& (class as int) < ts.class_count()
    &&& ts.parent_of(class as int) is Some
    &&& ts.slot_len(ts.parent_of(class as int)->0 as int) == MONITOR_OPS
    &&& ts.slot_of(ts.parent_of(class as int)->0 as int, OP_CANCEL as int) == SlotEntry::Native
}

/// The parent-call accessor of the monitor bridge: walks to the parent
/// class through the live registry, fetches the parent's cancel slot, and
/// invokes that implementation on the embedded parent instance — never
/// the calling layer's own override.
pub trait FileMonitorImplExt: Sized {
    /// Invokes the parent class's cancel implementation.
    fn parent_cancel(
        &self,
        ts: &TypeRegistry,
        class: usize,
        parent: &mut NativeFileMonitor,
    ) -> (r: bool)
        requires
            monitor_subclass_ctx(*ts, class),
        ensures
            native_cancel_spec(old(parent)@, r, final(parent)@),
    ;
}

impl<T> FileMonitorImplExt for T {
    fn parent_cancel(
        &self,
        ts: &TypeRegistry,
        class: usize,
        parent: &mut NativeFileMonitor,
    ) -> (r: bool) {
        let entry = ts.parent_slot(class, OP_CANCEL);
        match entry {
            SlotEntry::Native => parent.cancel(),
            SlotEntry::Trampoline(_) => vstd::pervasive::unreached(),
            SlotEntry::Missing => vstd::pervasive::unreached(),
        }
    }
}

/// The override trait of the monitor capability.  The contract of the
/// cancel override is the per-implementation relation beside it, whose
/// default states exact delegation to the parent class; an implementation
/// that does not mean to override keeps the default relation and writes
/// the one-line parent call as its body.
pub trait FileMonitorImpl: FileMonitorImplExt {
    /// The contract of the cancel override.  By default: exactly the
    /// parent class's behaviour, with the implementing value untouched.
    open spec fn cancel_ens(pre: Self, parent_pre: bool, r: bool, post: Self, parent_post: bool) -> bool {
        native_cancel_spec(parent_pre, r, parent_post) && post == pre
    }

    /// The cancel operation.
    fn cancel(
        &mut self,
        ts: &TypeRegistry,
        class: usize,
        parent: &mut NativeFileMonitor,
    ) -> (r: bool)
        requires
            monitor_subclass_ctx(*ts, class),
        ensures
            Self::cancel_ens(*old(self), old(parent)@, r, *final(self), final(parent)@),
    ;
}

/// A monitor subclass that overrides nothing: the cancel operation keeps
/// the default contract and delegates to the parent class.
pub struct PassthroughMonitor;

impl FileMonitorImpl for PassthroughMonitor {
    fn cancel(
        &mut self,
        ts: &TypeRegistry,
        class: usize,
        parent: &mut NativeFileMonitor,
    ) -> (r: bool) {
        self.parent_cancel(ts, class, parent)
    }
}

/// Parity of the delegating subclass: its cancel contract admits exactly
/// the native behaviours — invoking the operation on a subclass that
/// overrides nothing is observably identical to invoking it on a plain
/// native instance in the same state.
pub proof fn lemma_passthrough_cancel_parity(
    pre: PassthroughMonitor,
    parent_pre: bool,
    r: bool,
    post: PassthroughMonitor,
    parent_post: bool,
)
    ensures
        PassthroughMonitor::cancel_ens(pre, parent_pre, r, post, parent_post) <==>
            native_cancel_spec(parent_pre, r, parent_post),
{
}

/// A monitor subclass that overrides the cancel operation: it counts the
/// cancel requests it has seen and cancels the parent instance only on
/// the first one.
pub struct CountingMonitor {
    pub requests: u64,
}

impl FileMonitorImpl for CountingMonitor {
    open spec fn cancel_ens(pre: Self, parent_pre: bool, r: bool, post: Self, parent_post: bool) -> bool {
        &&& post.requests == (if pre.requests < u64::MAX { pre.requests + 1 } else {
            pre.requests as int
        })
        &&& if pre.requests == 0 {
            native_cancel_spec(parent_pre, r, parent_post)
        } else {
            r == false && parent_post == parent_pre
        }
    }

    fn cancel(
        &mut self,
        ts: &TypeRegistry,
        class: usize,
        parent: &mut NativeFileMonitor,
    ) -> (r: bool) {
        let first = self.requests == 0;
        if self.requests < u64::MAX {
            self.requests = self.requests + 1;
        }
        if first {
            self.parent_cancel(ts, class, parent)
        } else {
            false
        }
    }
}

/// A monitor object: the embedded native parent instance, the
/// implementing value of the bridged layer, and the dynamic class the
/// vtable dispatch goes through.
pub struct FileMonitor<T> {
    pub class: usize,
    pub parent_instance: NativeFileMonitor,
    pub imp: T,
}

/// Registers the native monitor base class, whose vtable the native
/// library populates with its own cancel implementation.
pub fn register_monitor_class(ts: &mut TypeRegistry) -> (c: usize)
    requires
        old(ts).wf(),
    ensures
        final(ts).wf(),
        c == old(ts).class_count(),
        final(ts).class_count() == old(ts).class_count() + 1,
        final(ts).parent_of(c as int) is None,
        final(ts).slot_len(c as int) == MONITOR_OPS,
        final(ts).slot_of(c as int, OP_CANCEL as int) == SlotEntry::Native,
        forall|k: int|
            0 <= k < old(ts).class_count() ==> class_unchanged(*old(ts), *final(ts), k),
{
    ts.register_native_class(MONITOR_OPS)
}

/// The class-initialisation hook of the monitor bridge, run once per
/// concrete subclass: installs this layer's trampoline into the cancel
/// slot, unconditionally.
pub fn monitor_class_init(ts: &mut TypeRegistry, class: usize)
    requires
        old(ts).wf(),
        class < old(ts).class_count(),
        old(ts).slot_len(class as int) == MONITOR_OPS,
    ensures
        final(ts).wf(),
        final(ts).class_count() == old(ts).class_count(),
        final(ts).parent_of(class as int) == old(ts).parent_of(class as int),
        final(ts).slot_len(class as int) == MONITOR_OPS,
        final(ts).slot_of(class as int, OP_CANCEL as int) == SlotEntry::Trampoline(class),
        forall|k: int|
            0 <= k < old(ts).class_count() && k != class ==> class_unchanged(
                *old(ts),
                *final(ts),
                k,
            ),
{
    ts.install_trampoline(class, OP_CANCEL);
}

/// Registers a monitor subclass: creates the class descriptor as a copy
/// of the parent's and runs the class-initialisation hook on it.
pub fn register_monitor_subclass(ts: &mut TypeRegistry, parent: usize) -> (c: usize)
    requires
        old(ts).wf(),
        parent < old(ts).class_count(),
        old(ts).slot_len(parent as int) == MONITOR_OPS,
    ensures
        final(ts).wf(),
        c == old(ts).class_count(),
        final(ts).class_count() == old(ts).class_count() + 1,
        final(ts).parent_of(c as int) == Some(parent),
        final(ts).slot_len(c as int) == MONITOR_OPS,
        final(ts).slot_of(c as int, OP_CANCEL as int) == SlotEntry::Trampoline(c),
        forall|k: int|
            0 <= k < old(ts).class_count() ==> class_unchanged(*old(ts), *final(ts), k),
{
    let c = ts.register_subclass(parent);
    let ghost mid = *ts;
    monitor_class_init(ts, c);
    proof {
        assert forall|k: int|
            0 <= k < old(ts).class_count() implies class_unchanged(*old(ts), *ts, k) by {
            assert(class_unchanged(*old(ts), mid, k));
            assert(class_unchanged(mid, *ts, k));
            assert forall|op: int|
                0 <= op < old(ts).slot_len(k) implies ts.slot_of(k, op) == old(ts).slot_of(
                k,
                op,
            ) by {
                assert(mid.slot_of(k, op) == old(ts).slot_of(k, op));
            }
        }
    }
    c
}

/// The native-callable trampoline of the cancel slot: recovers the
/// implementing value from the instance without touching its ownership,
/// invokes the override, and hands the raw boolean back.
pub fn cancel_trampoline<T: FileMonitorImpl>(ts: &TypeRegistry, obj: &mut FileMonitor<T>) -> (r:
    bool)
    requires
        monitor_subclass_ctx(*ts, old(obj).class),
    ensures
        final(obj).class == old(obj).class,
        T::cancel_ens(
            old(obj).imp,
            old(obj).parent_instance@,
            r,
            final(obj).imp,
            final(obj).parent_instance@,
        ),
{
    let class = obj.class;
    obj.imp.cancel(ts, class, &mut obj.parent_instance)
}

/// What a dispatch through the monitor vtable requires of the object's
/// class.
pub open spec fn monitor_dispatch_ctx(ts: TypeRegistry, class: usize, op: int) -> bool {
    &&& ts.wf()
    &&& (class as int) < ts.class_count()
    &&& ts.slot_len(class as int) == MONITOR_OPS
    &&& match ts.slot_of(class as int, op) {
        SlotEntry::Missing => false,
        SlotEntry::Native => true,
        SlotEntry::Trampoline(_) => monitor_subclass_ctx(ts, class),
    }
}

/// The native runtime's call through the cancel vtable slot of the
/// object's class.
pub fn dispatch_cancel<T: FileMonitorImpl>(ts: &TypeRegistry, obj: &mut FileMonitor<T>) -> (r:
    bool)
    requires
        monitor_dispatch_ctx(*ts, old(obj).class, OP_CANCEL as int),
    ensures
        final(obj).class == old(obj).class,
        match ts.slot_of(old(obj).class as int, OP_CANCEL as int) {
            SlotEntry::Missing => false,
            SlotEntry::Native => native_cancel_spec(
                old(obj).parent_instance@,
                r,
                final(obj).parent_instance@,
            ) && final(obj).imp == old(obj).imp,
            SlotEntry::Trampoline(_) => T::cancel_ens(
                old(obj).imp,
                old(obj).parent_instance@,
                r,
                final(obj).imp,
                final(obj).parent_instance@,
            ),
        },
{
    let entry = ts.slot(obj.class, OP_CANCEL);
    match entry {
        SlotEntry::Native => obj.parent_instance.cancel(),
        SlotEntry::Trampoline(_) => cancel_trampoline(ts, obj),
        SlotEntry::Missing => vstd::pervasive::unreached(),
    }
}

impl<T: FileMonitorImpl> FileMonitor<T> {
    /// A monitor object of the given dynamic class, embedding the
    /// implementing value of the bridged layer.
    pub fn new(class: usize, imp: T) -> (obj: FileMonitor<T>)
        ensures
            obj.class == class,
            !obj.parent_instance@,
            obj.imp == imp,
    {
        FileMonitor { class, parent_instance: NativeFileMonitor::new(), imp }
    }

    /// Cancels monitoring, as a caller of the binding sees it: the vtable
    /// dispatch on the object's class.
    pub fn cancel(&mut self, ts: &TypeRegistry) -> (r: bool)
        requires
            monitor_dispatch_ctx(*ts, old(self).class, OP_CANCEL as int),
        ensures
            final(self).class == old(self).class,
            match ts.slot_of(old(self).class as int, OP_CANCEL as int) {
                SlotEntry::Missing => false,
                SlotEntry::Native => native_cancel_spec(
                    old(self).parent_instance@,
                    r,
                    final(self).parent_instance@,
                ) && final(self).imp == old(self).imp,
                SlotEntry::Trampoline(_) => T::cancel_ens(
                    old(self).imp,
                    old(self).parent_instance@,
                    r,
                    final(self).imp,
                    final(self).parent_instance@,
                ),
            },
    {
        dispatch_cancel(ts, self)
    }
}

} // verus!
