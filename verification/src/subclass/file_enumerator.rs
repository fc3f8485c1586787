//! The subclass bridge for file enumerators: lets a type written here
//! override the next-entry and close operations of the native enumerator
//! class, with unimplemented operations delegating to the parent class.

use vstd::prelude::*;

use crate::boundary::BoolReturn;
use crate::boundary::ObjReturn;
use crate::boundary::encode_bool_result;
use crate::boundary::encode_obj_result;
use crate::cancellable::Cancellable;
use crate::cancellable::cancel_requested;
use crate::error::Error;
use crate::error::ErrorView;
use crate::error::cancelled_error;
use crate::error::closed_error;
use crate::error::not_supported_error;
use crate::file::FileInfo;
use crate::registry::SlotEntry;
use crate::registry::TypeRegistry;
use crate::registry::class_unchanged;

verus! {

/// The vtable slot of the next-entry operation.
pub const OP_NEXT_FILE: usize = 0;

/// The vtable slot of the close operation.
pub const OP_CLOSE_FN: usize = 1;

/// The number of virtual operations of the enumerator capability.
pub const ENUMERATOR_OPS: usize = 2;

/// The display names of a sequence of entries.
pub open spec fn infos_view(v: Seq<FileInfo>) -> Seq<Seq<char>> {
    v.map_values(|fi: FileInfo| fi@)
}

/// The mathematical state of a native enumerator: the entries it walks,
/// the position reached, and whether it has been closed.
#[verifier::ext_equal]
pub struct EnumeratorView {
    pub names: Seq<Seq<char>>,
    pub pos: int,
    pub closed: bool,
}

/// The native base enumerator instance embedded in every enumerator
/// object: it walks a fixed list of entries.
pub struct NativeEnumerator {
    pub entries: Vec<FileInfo>,
    pub pos: usize,
    pub closed: bool,
}

impl View for NativeEnumerator {
    type V = EnumeratorView;

    open spec fn view(&self) -> EnumeratorView {
        EnumeratorView { names: infos_view(self.entries@), pos: self.pos as int, closed: self.closed }
    }
}

/// The view of the result of a next-entry call.
pub open spec fn nf_view(r: Result<Option<FileInfo>, Error>) -> Result<Option<Seq<char>>, ErrorView> {
    match r {
        Ok(Some(info)) => Ok(Some(info@)),
        Ok(None) => Ok(None),
        Err(e) => Err(e@),
    }
}

/// The view of the result of a close call.
pub open spec fn close_view(r: Result<bool, Error>) -> Result<bool, ErrorView> {
    match r {
        Ok(b) => Ok(b),
        Err(e) => Err(e@),
    }
}

/// What the native next-entry implementation does: honour a triggered
/// cancellation token, fail on a closed enumerator, hand out the entry at
/// the current position and advance, or report the end of the sequence.
pub open spec fn native_next_file_spec(
    pre: EnumeratorView,
    cancelled: bool,
    r: Result<Option<Seq<char>>, ErrorView>,
    post: EnumeratorView,
) -> bool {
    if cancelled {
        (r matches Err(e) && e == cancelled_error()) && post == pre
    } else if pre.closed {
        (r matches Err(e) && e == closed_error()) && post == pre
    } else if pre.pos < pre.names.len() {
        r == Ok::<Option<Seq<char>>, ErrorView>(Some(pre.names[pre.pos])) && post == (EnumeratorView { pos: pre.pos + 1, ..pre })
    } else {
        r == Ok::<Option<Seq<char>>, ErrorView>(None) && post == pre
    }
}

/// What the native close implementation does: honour a triggered
/// cancellation token, otherwise mark the enumerator closed and report
/// success.  Closing twice is benign.
pub open spec fn native_close_spec(
    pre: EnumeratorView,
    cancelled: bool,
    r: Result<bool, ErrorView>,
    post: EnumeratorView,
) -> bool {
    if cancelled {
        (r matches Err(e) && e == cancelled_error()) && post == pre
    } else {
        r == Ok::<bool, ErrorView>(true) && post == (EnumeratorView { closed: true, ..pre })
    }
}

impl NativeEnumerator {
    /// A fresh native enumerator over the given entries.
    pub fn new(entries: Vec<FileInfo>) -> (e: NativeEnumerator)
        ensures
            e@ == (EnumeratorView { names: infos_view(entries@), pos: 0, closed: false }),
    {
        NativeEnumerator { entries, pos: 0, closed: false }
    }

    /// The native next-entry implementation.
    pub fn next_file(&mut self, cancellable: Option<&Cancellable>) -> (r: Result<
        Option<FileInfo>,
        Error,
    >)
        ensures
            native_next_file_spec(old(self)@, cancel_requested(cancellable), nf_view(r), final(self)@),
    {
        if let Some(c) = cancellable {
            if c.is_cancelled() {
                return Err(Error::new_cancelled());
            }
        }
        if self.closed {
            return Err(Error::new_closed());
        }
        if self.pos < self.entries.len() {
            let info = self.entries[self.pos].dup();
            self.pos = self.pos + 1;
            proof {
                assert(final(self)@ =~= (EnumeratorView { pos: old(self)@.pos + 1, ..old(self)@ }));
            }
            Ok(Some(info))
        } else {
            Ok(None)
        }
    }

    /// The native close implementation.
    pub fn close(&mut self, cancellable: Option<&Cancellable>) -> (r: Result<bool, Error>)
        ensures
            native_close_spec(old(self)@, cancel_requested(cancellable), close_view(r), final(self)@),
    {
        if let Some(c) = cancellable {
            if c.is_cancelled() {
                return Err(Error::new_cancelled());
            }
        }
        self.closed = true;
        proof {
            assert(final(self)@ =~= (EnumeratorView { closed: true, ..old(self)@ }));
        }
        Ok(true)
    }
}

/// The context a bridged enumerator subclass runs in: its class is
/// registered, it has a parent class, and the parent's vtable carries the
/// native implementations of both operations.  An empty parent slot would
/// be a defect of the binding itself, fatal rather than recoverable, so it
/// is excluded here.
pub open spec fn enumerator_subclass_ctx(ts: TypeRegistry, class: usize) -> bool {
    &&& ts.wf()
    &&& (class as int) < ts.class_count()
    &&& ts.parent_of(class as int) is Some
    &&& ts.slot_len(ts.parent_of(class as int)->0 as int) == ENUMERATOR_OPS
    &&& ts.slot_of(ts.parent_of(class as int)->0 as int, OP_NEXT_FILE as int) == SlotEntry::Native
    &&& ts.slot_of(ts.parent_of(class as int)->0 as int, OP_CLOSE_FN as int) == SlotEntry::Native
}

/// The parent-call accessors of the enumerator bridge.  Each one walks to
/// the parent class through the live registry, fetches the parent's slot
/// for the operation, and invokes that implementation on the embedded
/// parent instance — never the calling layer's own override.
pub trait FileEnumeratorImplExt: Sized {
    /// Invokes the parent class's next-entry implementation.
    fn parent_next_file(
        &self,
        ts: &TypeRegistry,
        class: usize,
        parent: &mut NativeEnumerator,
        cancellable: Option<&Cancellable>,
    ) -> (r: Result<Option<FileInfo>, Error>)
        requires
            enumerator_subclass_ctx(*ts, class),
        ensures
            native_next_file_spec(
                old(parent)@,
                cancel_requested(cancellable),
                nf_view(r),
                final(parent)@,
            ),
    ;

    /// Invokes the parent class's close implementation.
    fn parent_close(
        &self,
        ts: &TypeRegistry,
        class: usize,
        parent: &mut NativeEnumerator,
        cancellable: Option<&Cancellable>,
    ) -> (r: Result<bool, Error>)
        requires
            enumerator_subclass_ctx(*ts, class),
        ensures
            native_close_spec(
                old(parent)@,
                cancel_requested(cancellable),
                close_view(r),
                final(parent)@,
            ),
    ;
}

impl<T> FileEnumeratorImplExt for T {
    fn parent_next_file(
        &self,
        ts: &TypeRegistry,
        class: usize,
        parent: &mut NativeEnumerator,
        cancellable: Option<&Cancellable>,
    ) -> (r: Result<Option<FileInfo>, Error>) {
        let entry = ts.parent_slot(class, OP_NEXT_FILE);
        match entry {
            SlotEntry::Native => parent.next_file(cancellable),
            SlotEntry::Trampoline(_) => vstd::pervasive::unreached(),
            SlotEntry::Missing => vstd::pervasive::unreached(),
        }
    }

    fn parent_close(
        &self,
        ts: &TypeRegistry,
        class: usize,
        parent: &mut NativeEnumerator,
        cancellable: Option<&Cancellable>,
    ) -> (r: Result<bool, Error>) {
        let entry = ts.parent_slot(class, OP_CLOSE_FN);
        match entry {
            SlotEntry::Native => parent.close(cancellable),
            SlotEntry::Trampoline(_) => vstd::pervasive::unreached(),
            SlotEntry::Missing => vstd::pervasive::unreached(),
        }
    }
}

/// The override trait of the enumerator capability: one method per virtual
/// operation.  Each method's contract is the per-implementation relation
/// beside it; the relation's default body states exact delegation to the
/// parent class, so an implementation that does not mean to override an
/// operation keeps the default relation and writes the one-line parent
/// call as its body.  Overriding is opt-in per method, not per type.
pub trait FileEnumeratorImpl: FileEnumeratorImplExt {
    /// The contract of the next-entry override.  By default: exactly the
    /// parent class's behaviour, with the implementing value untouched.
    open spec fn next_file_ens(
        pre: Self,
        parent_pre: EnumeratorView,
        cancelled: bool,
        r: Result<Option<Seq<char>>, ErrorView>,
        post: Self,
        parent_post: EnumeratorView,
    ) -> bool {
        native_next_file_spec(parent_pre, cancelled, r, parent_post) && post == pre
    }

    /// The contract of the close override.  By default: exactly the parent
    /// class's behaviour, with the implementing value untouched.
    open spec fn close_ens(
        pre: Self,
        parent_pre: EnumeratorView,
        cancelled: bool,
        r: Result<bool, ErrorView>,
        post: Self,
        parent_post: EnumeratorView,
    ) -> bool {
        native_close_spec(parent_pre, cancelled, r, parent_post) && post == pre
    }

    /// The next-entry operation.
    fn next_file(
        &mut self,
        ts: &TypeRegistry,
        class: usize,
        parent: &mut NativeEnumerator,
        cancellable: Option<&Cancellable>,
    ) -> (r: Result<Option<FileInfo>, Error>)
        requires
            enumerator_subclass_ctx(*ts, class),
        ensures
            Self::next_file_ens(
                *old(self),
                old(parent)@,
                cancel_requested(cancellable),
                nf_view(r),
                *final(self),
                final(parent)@,
            ),
    ;

    /// The close operation.
    fn close(
        &mut self,
        ts: &TypeRegistry,
        class: usize,
        parent: &mut NativeEnumerator,
        cancellable: Option<&Cancellable>,
    ) -> (r: Result<bool, Error>)
        requires
            enumerator_subclass_ctx(*ts, class),
        ensures
            Self::close_ens(
                *old(self),
                old(parent)@,
                cancel_requested(cancellable),
                close_view(r),
                *final(self),
                final(parent)@,
            ),
    ;
}

/// An enumerator subclass that overrides nothing: every operation keeps
/// the default contract and delegates to the parent class.
pub struct PassthroughEnumerator;

impl FileEnumeratorImpl for PassthroughEnumerator {
    fn next_file(
        &mut self,
        ts: &TypeRegistry,
        class: usize,
        parent: &mut NativeEnumerator,
        cancellable: Option<&Cancellable>,
    ) -> (r: Result<Option<FileInfo>, Error>) {
        self.parent_next_file(ts, class, parent, cancellable)
    }

    fn close(
        &mut self,
        ts: &TypeRegistry,
        class: usize,
        parent: &mut NativeEnumerator,
        cancellable: Option<&Cancellable>,
    ) -> (r: Result<bool, Error>) {
        self.parent_close(ts, class, parent, cancellable)
    }
}

/// Parity of the delegating subclass: its next-entry contract admits
/// exactly the native behaviours — invoking the operation on a subclass
/// that overrides nothing is observably identical to invoking it on a
/// plain native instance in the same state.
pub proof fn lemma_passthrough_next_file_parity(
    pre: PassthroughEnumerator,
    parent_pre: EnumeratorView,
    cancelled: bool,
    r: Result<Option<Seq<char>>, ErrorView>,
    post: PassthroughEnumerator,
    parent_post: EnumeratorView,
)
    ensures
        PassthroughEnumerator::next_file_ens(pre, parent_pre, cancelled, r, post, parent_post)
            <==> native_next_file_spec(parent_pre, cancelled, r, parent_post),
{
}

/// Parity of the delegating subclass for the close operation.
pub proof fn lemma_passthrough_close_parity(
    pre: PassthroughEnumerator,
    parent_pre: EnumeratorView,
    cancelled: bool,
    r: Result<bool, ErrorView>,
    post: PassthroughEnumerator,
    parent_post: EnumeratorView,
)
    ensures
        PassthroughEnumerator::close_ens(pre, parent_pre, cancelled, r, post, parent_post) <==>
            native_close_spec(parent_pre, cancelled, r, parent_post),
{
}

/// An enumerator subclass that overrides only the next-entry operation: it
/// hands out a fixed list of synthetic entries and then reports the end of
/// the sequence, never touching the parent instance.  The close operation
/// keeps the default contract and delegates to the parent class.
pub struct FixedEnumerator {
    pub items: Vec<FileInfo>,
    pub cursor: usize,
}

impl FixedEnumerator {
    /// A fresh override state over the given synthetic entries.
    pub fn new(items: Vec<FileInfo>) -> (e: FixedEnumerator)
        ensures
            e.items == items,
            e.cursor == 0,
    {
        FixedEnumerator { items, cursor: 0 }
    }
}

impl FileEnumeratorImpl for FixedEnumerator {
    open spec fn next_file_ens(
        pre: Self,
        parent_pre: EnumeratorView,
        cancelled: bool,
        r: Result<Option<Seq<char>>, ErrorView>,
        post: Self,
        parent_post: EnumeratorView,
    ) -> bool {
        &&& parent_post == parent_pre
        &&& post.items == pre.items
        &&& if cancelled {
            (r matches Err(e) && e == cancelled_error()) && post.cursor == pre.cursor
        } else if pre.cursor < pre.items.len() {
            r == Ok::<Option<Seq<char>>, ErrorView>(Some(pre.items@[pre.cursor as int]@)) && post.cursor == pre.cursor + 1
        } else {
            r == Ok::<Option<Seq<char>>, ErrorView>(None) && post.cursor == pre.cursor
        }
    }

    fn next_file(
        &mut self,
        ts: &TypeRegistry,
        class: usize,
        parent: &mut NativeEnumerator,
        cancellable: Option<&Cancellable>,
    ) -> (r: Result<Option<FileInfo>, Error>) {
        if let Some(c) = cancellable {
            if c.is_cancelled() {
                return Err(Error::new_cancelled());
            }
        }
        if self.cursor < self.items.len() {
            let info = self.items[self.cursor].dup();
            self.cursor = self.cursor + 1;
            Ok(Some(info))
        } else {
            Ok(None)
        }
    }

    fn close(
        &mut self,
        ts: &TypeRegistry,
        class: usize,
        parent: &mut NativeEnumerator,
        cancellable: Option<&Cancellable>,
    ) -> (r: Result<bool, Error>) {
        self.parent_close(ts, class, parent, cancellable)
    }
}

/// An enumerator subclass for which closing is not meaningful: its close
/// override reports the domain failure with the not-supported code through
/// the error channel — a recoverable condition, unlike a missing vtable
/// entry.  The next-entry operation keeps the default contract and
/// delegates to the parent class.
pub struct UncloseableEnumerator;

impl FileEnumeratorImpl for UncloseableEnumerator {
    open spec fn close_ens(
        pre: Self,
        parent_pre: EnumeratorView,
        cancelled: bool,
        r: Result<bool, ErrorView>,
        post: Self,
        parent_post: EnumeratorView,
    ) -> bool {
        (r matches Err(e) && e == not_supported_error()) && parent_post == parent_pre && post
            == pre
    }

    fn next_file(
        &mut self,
        ts: &TypeRegistry,
        class: usize,
        parent: &mut NativeEnumerator,
        cancellable: Option<&Cancellable>,
    ) -> (r: Result<Option<FileInfo>, Error>) {
        self.parent_next_file(ts, class, parent, cancellable)
    }

    fn close(
        &mut self,
        ts: &TypeRegistry,
        class: usize,
        parent: &mut NativeEnumerator,
        cancellable: Option<&Cancellable>,
    ) -> (r: Result<bool, Error>) {
        Err(Error::new_not_supported())
    }
}

/// An enumerator object: the embedded native parent instance, the
/// implementing value of the bridged layer, and the dynamic class the
/// vtable dispatch goes through.
pub struct FileEnumerator<T> {
    pub class: usize,
    pub parent_instance: NativeEnumerator,
    pub imp: T,
}

/// Registers the native enumerator base class, whose vtable the native
/// library populates with its own implementations of both operations.
pub fn register_enumerator_class(ts: &mut TypeRegistry) -> (c: usize)
    requires
        old(ts).wf(),
    ensures
        final(ts).wf(),
        c == old(ts).class_count(),
        final(ts).class_count() == old(ts).class_count() + 1,
        final(ts).parent_of(c as int) is None,
        final(ts).slot_len(c as int) == ENUMERATOR_OPS,
        final(ts).slot_of(c as int, OP_NEXT_FILE as int) == SlotEntry::Native,
        final(ts).slot_of(c as int, OP_CLOSE_FN as int) == SlotEntry::Native,
        forall|k: int|
            0 <= k < old(ts).class_count() ==> class_unchanged(*old(ts), *final(ts), k),
{
    ts.register_native_class(ENUMERATOR_OPS)
}

/// The class-initialisation hook of the enumerator bridge, run once per
/// concrete subclass: installs this layer's trampoline into every slot of
/// the override trait, unconditionally — also where the concrete
/// implementation keeps the delegating default, so that each slot points
/// at something callable of this layer.
pub fn enumerator_class_init(ts: &mut TypeRegistry, class: usize)
    requires
        old(ts).wf(),
        class < old(ts).class_count(),
        old(ts).slot_len(class as int) == ENUMERATOR_OPS,
    ensures
        final(ts).wf(),
        final(ts).class_count() == old(ts).class_count(),
        final(ts).parent_of(class as int) == old(ts).parent_of(class as int),
        final(ts).slot_len(class as int) == ENUMERATOR_OPS,
        final(ts).slot_of(class as int, OP_NEXT_FILE as int) == SlotEntry::Trampoline(class),
        final(ts).slot_of(class as int, OP_CLOSE_FN as int) == SlotEntry::Trampoline(class),
        forall|k: int|
            0 <= k < old(ts).class_count() && k != class ==> class_unchanged(
                *old(ts),
                *final(ts),
                k,
            ),
{
    ts.install_trampoline(class, OP_NEXT_FILE);
    let ghost mid = *ts;
    ts.install_trampoline(class, OP_CLOSE_FN);
    proof {
        assert forall|k: int|
            0 <= k < old(ts).class_count() && k != class implies class_unchanged(
            *old(ts),
            *ts,
            k,
        ) by {
            assert(class_unchanged(*old(ts), mid, k));
            assert(class_unchanged(mid, *ts, k));
            assert forall|op: int|
                0 <= op < old(ts).slot_len(k) implies ts.slot_of(k, op) == old(ts).slot_of(
                k,
                op,
            ) by {
                assert(mid.slot_of(k, op) == old(ts).slot_of(k, op));
            }
        }
    }
}

/// Registers an enumerator subclass: creates the class descriptor as a
/// copy of the parent's and runs the class-initialisation hook on it.
pub fn register_enumerator_subclass(ts: &mut TypeRegistry, parent: usize) -> (c: usize)
    requires
        old(ts).wf(),
        parent < old(ts).class_count(),
        old(ts).slot_len(parent as int) == ENUMERATOR_OPS,
    ensures
        final(ts).wf(),
        c == old(ts).class_count(),
        final(ts).class_count() == old(ts).class_count() + 1,
        final(ts).parent_of(c as int) == Some(parent),
        final(ts).slot_len(c as int) == ENUMERATOR_OPS,
        final(ts).slot_of(c as int, OP_NEXT_FILE as int) == SlotEntry::Trampoline(c),
        final(ts).slot_of(c as int, OP_CLOSE_FN as int) == SlotEntry::Trampoline(c),
        forall|k: int|
            0 <= k < old(ts).class_count() ==> class_unchanged(*old(ts), *final(ts), k),
{
    let c = ts.register_subclass(parent);
    let ghost mid = *ts;
    enumerator_class_init(ts, c);
    proof {
        assert forall|k: int|
            0 <= k < old(ts).class_count() implies class_unchanged(*old(ts), *ts, k) by {
            assert(class_unchanged(*old(ts), mid, k));
            assert(class_unchanged(mid, *ts, k));
            assert forall|op: int|
                0 <= op < old(ts).slot_len(k) implies ts.slot_of(k, op) == old(ts).slot_of(
                k,
                op,
            ) by {
                assert(mid.slot_of(k, op) == old(ts).slot_of(k, op));
            }
        }
    }
    c
}

/// The native-callable trampoline of the next-entry slot: recovers the
/// implementing value from the instance without touching its ownership,
/// hands the borrowed cancellation token through, invokes the override,
/// and converts the result into the raw return shape, filling exactly one
/// of the two channels.
pub fn next_file_trampoline<T: FileEnumeratorImpl>(
    ts: &TypeRegistry,
    obj: &mut FileEnumerator<T>,
    cancellable: Option<&Cancellable>,
) -> (q: ObjReturn<FileInfo>)
    requires
        enumerator_subclass_ctx(*ts, old(obj).class),
    ensures
        q.wf(),
        final(obj).class == old(obj).class,
        T::next_file_ens(
            old(obj).imp,
            old(obj).parent_instance@,
            cancel_requested(cancellable),
            nf_view(q.as_result()),
            final(obj).imp,
            final(obj).parent_instance@,
        ),
{
    let class = obj.class;
    let r = obj.imp.next_file(ts, class, &mut obj.parent_instance, cancellable);
    encode_obj_result(r)
}

/// The native-callable trampoline of the close slot.
pub fn close_fn_trampoline<T: FileEnumeratorImpl>(
    ts: &TypeRegistry,
    obj: &mut FileEnumerator<T>,
    cancellable: Option<&Cancellable>,
) -> (q: BoolReturn)
    requires
        enumerator_subclass_ctx(*ts, old(obj).class),
    ensures
        q.wf(),
        final(obj).class == old(obj).class,
        T::close_ens(
            old(obj).imp,
            old(obj).parent_instance@,
            cancel_requested(cancellable),
            close_view(q.as_result()),
            final(obj).imp,
            final(obj).parent_instance@,
        ),
{
    let class = obj.class;
    let r = obj.imp.close(ts, class, &mut obj.parent_instance, cancellable);
    encode_bool_result(r)
}

/// What a dispatch through the enumerator vtable requires of the object's
/// class: the slots exist, the slot called through is not empty, and a
/// bridged class runs in a valid subclass context.
pub open spec fn enumerator_dispatch_ctx(ts: TypeRegistry, class: usize, op: int) -> bool {
    &&& ts.wf()
    &&& (class as int) < ts.class_count()
    &&& ts.slot_len(class as int) == ENUMERATOR_OPS
    &&& match ts.slot_of(class as int, op) {
        SlotEntry::Missing => false,
        SlotEntry::Native => true,
        SlotEntry::Trampoline(_) => enumerator_subclass_ctx(ts, class),
    }
}

/// The native runtime's call through the next-entry vtable slot of the
/// object's class: a native entry runs the native implementation on the
/// embedded parent instance, and a trampoline entry runs the override of
/// the bridged layer.  Either way the raw return fills exactly one of its
/// two channels.
pub fn dispatch_next_file<T: FileEnumeratorImpl>(
    ts: &TypeRegistry,
    obj: &mut FileEnumerator<T>,
    cancellable: Option<&Cancellable>,
) -> (q: ObjReturn<FileInfo>)
    requires
        enumerator_dispatch_ctx(*ts, old(obj).class, OP_NEXT_FILE as int),
    ensures
        q.wf(),
        final(obj).class == old(obj).class,
        match ts.slot_of(old(obj).class as int, OP_NEXT_FILE as int) {
            SlotEntry::Missing => false,
            SlotEntry::Native => native_next_file_spec(
                old(obj).parent_instance@,
                cancel_requested(cancellable),
                nf_view(q.as_result()),
                final(obj).parent_instance@,
            ) && final(obj).imp == old(obj).imp,
            SlotEntry::Trampoline(_) => T::next_file_ens(
                old(obj).imp,
                old(obj).parent_instance@,
                cancel_requested(cancellable),
                nf_view(q.as_result()),
                final(obj).imp,
                final(obj).parent_instance@,
            ),
        },
{
    let entry = ts.slot(obj.class, OP_NEXT_FILE);
    match entry {
        SlotEntry::Native => {
            let r = obj.parent_instance.next_file(cancellable);
            encode_obj_result(r)
        },
        SlotEntry::Trampoline(_) => next_file_trampoline(ts, obj, cancellable),
        SlotEntry::Missing => vstd::pervasive::unreached(),
    }
}

/// The native runtime's call through the close vtable slot of the
/// object's class.
pub fn dispatch_close<T: FileEnumeratorImpl>(
    ts: &TypeRegistry,
    obj: &mut FileEnumerator<T>,
    cancellable: Option<&Cancellable>,
) -> (q: BoolReturn)
    requires
        enumerator_dispatch_ctx(*ts, old(obj).class, OP_CLOSE_FN as int),
    ensures
        q.wf(),
        final(obj).class == old(obj).class,
        match ts.slot_of(old(obj).class as int, OP_CLOSE_FN as int) {
            SlotEntry::Missing => false,
            SlotEntry::Native => native_close_spec(
                old(obj).parent_instance@,
                cancel_requested(cancellable),
                close_view(q.as_result()),
                final(obj).parent_instance@,
            ) && final(obj).imp == old(obj).imp,
            SlotEntry::Trampoline(_) => T::close_ens(
                old(obj).imp,
                old(obj).parent_instance@,
                cancel_requested(cancellable),
                close_view(q.as_result()),
                final(obj).imp,
                final(obj).parent_instance@,
            ),
        },
{
    let entry = ts.slot(obj.class, OP_CLOSE_FN);
    match entry {
        SlotEntry::Native => {
            let r = obj.parent_instance.close(cancellable);
            encode_bool_result(r)
        },
        SlotEntry::Trampoline(_) => close_fn_trampoline(ts, obj, cancellable),
        SlotEntry::Missing => vstd::pervasive::unreached(),
    }
}

impl<T: FileEnumeratorImpl> FileEnumerator<T> {
    /// An enumerator object of the given dynamic class over the given
    /// entries, embedding the implementing value of the bridged layer.
    pub fn new(class: usize, entries: Vec<FileInfo>, imp: T) -> (obj: FileEnumerator<T>)
        ensures
            obj.class == class,
            obj.parent_instance@ == (EnumeratorView {
                names: infos_view(entries@),
                pos: 0,
                closed: false,
            }),
            obj.imp == imp,
    {
        FileEnumerator { class, parent_instance: NativeEnumerator::new(entries), imp }
    }

    /// The next entry, as a caller of the binding sees it: the vtable
    /// dispatch, with the raw return read back through the error channel.
    pub fn next_file(&mut self, ts: &TypeRegistry, cancellable: Option<&Cancellable>) -> (r:
        Result<Option<FileInfo>, Error>)
        requires
            enumerator_dispatch_ctx(*ts, old(self).class, OP_NEXT_FILE as int),
        ensures
            final(self).class == old(self).class,
            match ts.slot_of(old(self).class as int, OP_NEXT_FILE as int) {
                SlotEntry::Missing => false,
                SlotEntry::Native => native_next_file_spec(
                    old(self).parent_instance@,
                    cancel_requested(cancellable),
                    nf_view(r),
                    final(self).parent_instance@,
                ) && final(self).imp == old(self).imp,
                SlotEntry::Trampoline(_) => T::next_file_ens(
                    old(self).imp,
                    old(self).parent_instance@,
                    cancel_requested(cancellable),
                    nf_view(r),
                    final(self).imp,
                    final(self).parent_instance@,
                ),
            },
    {
        let q = dispatch_next_file(ts, self, cancellable);
        crate::boundary::decode_obj_result(q)
    }

    /// Closes the enumerator through the vtable dispatch.
    pub fn close(&mut self, ts: &TypeRegistry, cancellable: Option<&Cancellable>) -> (r: Result<
        bool,
        Error,
    >)
        requires
            enumerator_dispatch_ctx(*ts, old(self).class, OP_CLOSE_FN as int),
        ensures
            final(self).class == old(self).class,
            match ts.slot_of(old(self).class as int, OP_CLOSE_FN as int) {
                SlotEntry::Missing => false,
                SlotEntry::Native => native_close_spec(
                    old(self).parent_instance@,
                    cancel_requested(cancellable),
                    close_view(r),
                    final(self).parent_instance@,
                ) && final(self).imp == old(self).imp,
                SlotEntry::Trampoline(_) => T::close_ens(
                    old(self).imp,
                    old(self).parent_instance@,
                    cancel_requested(cancellable),
                    close_view(r),
                    final(self).imp,
                    final(self).parent_instance@,
                ),
            },
    {
        let q = dispatch_close(ts, self, cancellable);
        crate::boundary::decode_bool_result(q)
    }
}

} // verus!
