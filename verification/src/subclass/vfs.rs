//! The subclass bridge for virtual filesystems: lets a type written here
//! override the activity check, path and identifier resolution, the
//! supported-scheme listing, and parse-name resolution of the native local
//! virtual-filesystem class.

use vstd::prelude::*;

use crate::boundary::StrArray;
use crate::boundary::strings_from_native;
use crate::boundary::strings_to_native;
use crate::file::File;
use crate::file::LOCAL_FILE_TYPE;
use crate::file::canon_path;
use crate::file::is_abs_path;
use crate::registry::SlotEntry;
use crate::registry::TypeRegistry;
use crate::registry::class_unchanged;

verus! {

/// The vtable slot of the activity check.
pub const OP_IS_ACTIVE: usize = 0;

/// The vtable slot of path resolution.
pub const OP_GET_FILE_FOR_PATH: usize = 1;

/// The vtable slot of identifier resolution.
pub const OP_GET_FILE_FOR_URI: usize = 2;

/// The vtable slot of the supported-scheme listing.
pub const OP_GET_SUPPORTED_URI_SCHEMES: usize = 3;

/// The vtable slot of parse-name resolution.
pub const OP_PARSE_NAME: usize = 4;

/// The number of virtual operations of the virtual-filesystem capability.
pub const VFS_OPS: usize = 5;

/// A file identifier the local virtual filesystem accepts: the file scheme
/// marker followed by an absolute path.
pub open spec fn is_file_uri(u: Seq<char>) -> bool {
    &&& u.len() > 7
    &&& u.take(7) == "file://"@
    &&& u[7] == '/'
}

/// The native local virtual filesystem is always active.
pub open spec fn native_is_active_spec(r: bool) -> bool {
    r == true
}

/// What the native path resolution returns: a plain local file on the
/// canonical form of the path.
pub open spec fn native_file_for_path_spec(path: Seq<char>, f: File) -> bool {
    f.file_type == LOCAL_FILE_TYPE && f.path@ == canon_path(path)
}

/// What the native identifier resolution returns: a plain local file on
/// the canonical form of the path behind the scheme marker.
pub open spec fn native_file_for_uri_spec(uri: Seq<char>, f: File) -> bool {
    f.file_type == LOCAL_FILE_TYPE && f.path@ == canon_path(uri.skip(7))
}

/// The schemes the native local virtual filesystem supports.
pub open spec fn native_schemes_spec() -> Seq<Seq<char>> {
    seq!["file"@]
}

/// What the native parse-name resolution returns: an absolute path
/// resolves as a path, anything else as a file identifier.
pub open spec fn native_parse_name_spec(s: Seq<char>, f: File) -> bool {
    if s.len() > 0 && s[0] == '/' {
        native_file_for_path_spec(s, f)
    } else {
        native_file_for_uri_spec(s, f)
    }
}

/// The native base virtual-filesystem instance embedded in every
/// virtual-filesystem object.  The local implementation keeps no state of
/// its own.
pub struct NativeVfs {}

impl NativeVfs {
    /// A fresh native local virtual filesystem.
    pub fn new() -> (v: NativeVfs) {
        NativeVfs {  }
    }

    /// The native activity check.
    pub fn is_active(&self) -> (r: bool)
        ensures
            native_is_active_spec(r),
    {
        true
    }

    /// The native path resolution.
    pub fn get_file_for_path(&self, path: &str) -> (f: File)
        requires
            is_abs_path(path@),
        ensures
            native_file_for_path_spec(path@, f),
            f.wf(),
    {
        File::for_path(path)
    }

    /// The native identifier resolution.
    pub fn get_file_for_uri(&self, uri: &str) -> (f: File)
        requires
            is_file_uri(uri@),
        ensures
            native_file_for_uri_spec(uri@, f),
            f.wf(),
    {
        let n = uri.unicode_len();
        let rest = uri.substring_char(7, n);
        proof {
            assert(rest@ =~= uri@.skip(7));
        }
        File::for_path(rest)
    }

    /// The native supported-scheme listing.
    pub fn get_supported_uri_schemes(&self) -> (v: Vec<String>)
        ensures
            v.deep_view() == native_schemes_spec(),
    {
        let mut v: Vec<String> = Vec::new();
        v.push(String::from_str("file"));
        proof {
            assert(v.deep_view() =~= native_schemes_spec());
        }
        v
    }

    /// The native parse-name resolution.
    pub fn parse_name(&self, parse_name: &str) -> (f: File)
        requires
            is_abs_path(parse_name@) || is_file_uri(parse_name@),
        ensures
            native_parse_name_spec(parse_name@, f),
            f.wf(),
    {
        let c = parse_name.get_char(0);
        if c == '/' {
            File::for_path(parse_name)
        } else {
            self.get_file_for_uri(parse_name)
        }
    }
}

/// The context a bridged virtual-filesystem subclass runs in: its class is
/// registered, it has a parent class, and the parent's vtable carries the
/// native implementations of all five operations.  An empty parent slot
/// would be a defect of the binding itself, fatal rather than
/// recoverable, so it is excluded here.
pub open spec fn vfs_subclass_ctx(ts: TypeRegistry, class: usize) -> bool {
    &&& ts.wf()
    &&& (class as int) < ts.class_count()
    &&& ts.parent_of(class as int) is Some
    &&& ts.slot_len(ts.parent_of(class as int)->0 as int) == VFS_OPS
    &&& forall|op: int|
        0 <= op < VFS_OPS ==> ts.slot_of(ts.parent_of(class as int)->0 as int, op)
            == SlotEntry::Native
}

/// The parent-call accessors of the virtual-filesystem bridge.  Each one
/// walks to the parent class through the live registry, fetches the
/// parent's slot for the operation, and invokes that implementation on the
/// embedded parent instance — never the calling layer's own override.
pub trait VfsImplExt: Sized {
    /// Invokes the parent class's activity check.
    fn parent_is_active(&self, ts: &TypeRegistry, class: usize, parent: &NativeVfs) -> (r: bool)
        requires
            vfs_subclass_ctx(*ts, class),
        ensures
            native_is_active_spec(r),
    ;

    /// Invokes the parent class's path resolution.
    fn parent_get_file_for_path(
        &self,
        ts: &TypeRegistry,
        class: usize,
        parent: &NativeVfs,
        path: &str,
    ) -> (f: File)
        requires
            vfs_subclass_ctx(*ts, class),
            is_abs_path(path@),
        ensures
            native_file_for_path_spec(path@, f),
            f.wf(),
    ;

    /// Invokes the parent class's identifier resolution.
    fn parent_get_file_for_uri(
        &self,
        ts: &TypeRegistry,
        class: usize,
        parent: &NativeVfs,
        uri: &str,
    ) -> (f: File)
        requires
            vfs_subclass_ctx(*ts, class),
            is_file_uri(uri@),
        ensures
            native_file_for_uri_spec(uri@, f),
            f.wf(),
    ;

    /// Invokes the parent class's supported-scheme listing.
    fn parent_get_supported_uri_schemes(
        &self,
        ts: &TypeRegistry,
        class: usize,
        parent: &NativeVfs,
    ) -> (v: Vec<String>)
        requires
            vfs_subclass_ctx(*ts, class),
        ensures
            v.deep_view() == native_schemes_spec(),
    ;

    /// Invokes the parent class's parse-name resolution.
    fn parent_parse_name(
        &self,
        ts: &TypeRegistry,
        class: usize,
        parent: &NativeVfs,
        parse_name: &str,
    ) -> (f: File)
        requires
            vfs_subclass_ctx(*ts, class),
            is_abs_path(parse_name@) || is_file_uri(parse_name@),
        ensures
            native_parse_name_spec(parse_name@, f),
            f.wf(),
    ;
}

impl<T> VfsImplExt for T {
    fn parent_is_active(&self, ts: &TypeRegistry, class: usize, parent: &NativeVfs) -> (r: bool) {
        let entry = ts.parent_slot(class, OP_IS_ACTIVE);
        match entry {
            SlotEntry::Native => parent.is_active(),
            SlotEntry::Trampoline(_) => vstd::pervasive::unreached(),
            SlotEntry::Missing => vstd::pervasive::unreached(),
        }
    }

    fn parent_get_file_for_path(
        &self,
        ts: &TypeRegistry,
        class: usize,
        parent: &NativeVfs,
        path: &str,
    ) -> (f: File) {
        let entry = ts.parent_slot(class, OP_GET_FILE_FOR_PATH);
        match entry {
            SlotEntry::Native => parent.get_file_for_path(path),
            SlotEntry::Trampoline(_) => vstd::pervasive::unreached(),
            SlotEntry::Missing => vstd::pervasive::unreached(),
        }
    }

    fn parent_get_file_for_uri(
        &self,
        ts: &TypeRegistry,
        class: usize,
        parent: &NativeVfs,
        uri: &str,
    ) -> (f: File) {
        let entry = ts.parent_slot(class, OP_GET_FILE_FOR_URI);
        match entry {
            SlotEntry::Native => parent.get_file_for_uri(uri),
            SlotEntry::Trampoline(_) => vstd::pervasive::unreached(),
            SlotEntry::Missing => vstd::pervasive::unreached(),
        }
    }

    fn parent_get_supported_uri_schemes(
        &self,
        ts: &TypeRegistry,
        class: usize,
        parent: &NativeVfs,
    ) -> (v: Vec<String>) {
        let entry = ts.parent_slot(class, OP_GET_SUPPORTED_URI_SCHEMES);
        match entry {
            SlotEntry::Native => parent.get_supported_uri_schemes(),
            SlotEntry::Trampoline(_) => vstd::pervasive::unreached(),
            SlotEntry::Missing => vstd::pervasive::unreached(),
        }
    }

    fn parent_parse_name(
        &self,
        ts: &TypeRegistry,
        class: usize,
        parent: &NativeVfs,
        parse_name: &str,
    ) -> (f: File) {
        let entry = ts.parent_slot(class, OP_PARSE_NAME);
        match entry {
            SlotEntry::Native => parent.parse_name(parse_name),
            SlotEntry::Trampoline(_) => vstd::pervasive::unreached(),
            SlotEntry::Missing => vstd::pervasive::unreached(),
        }
    }
}

/// The override trait of the virtual-filesystem capability: one method per
/// virtual operation.  Each method's contract is the per-implementation
/// relation beside it, and each fallible argument shape has a
/// per-implementation admission predicate; the defaults state exact
/// delegation to the parent class, so an implementation that does not mean
/// to override an operation keeps the default relations and writes the
/// one-line parent call as its body.  Overriding is opt-in per method, not
/// per type.
pub trait VfsImpl: VfsImplExt {
    /// The contract of the activity-check override.
    open spec fn is_active_ens(s: Self, r: bool) -> bool {
        native_is_active_spec(r)
    }

    /// The arguments the path-resolution override admits.
    open spec fn get_file_for_path_req(s: Self, path: Seq<char>) -> bool {
        is_abs_path(path)
    }

    /// The contract of the path-resolution override.
    open spec fn get_file_for_path_ens(s: Self, path: Seq<char>, f: File) -> bool {
        native_file_for_path_spec(path, f) && f.wf()
    }

    /// The arguments the identifier-resolution override admits.
    open spec fn get_file_for_uri_req(s: Self, uri: Seq<char>) -> bool {
        is_file_uri(uri)
    }

    /// The contract of the identifier-resolution override.
    open spec fn get_file_for_uri_ens(s: Self, uri: Seq<char>, f: File) -> bool {
        native_file_for_uri_spec(uri, f) && f.wf()
    }

    /// The contract of the supported-scheme listing override.
    open spec fn get_supported_uri_schemes_ens(s: Self, v: Seq<Seq<char>>) -> bool {
        v == native_schemes_spec()
    }

    /// The arguments the parse-name override admits.
    open spec fn parse_name_req(s: Self, parse_name: Seq<char>) -> bool {
        is_abs_path(parse_name) || is_file_uri(parse_name)
    }

    /// The contract of the parse-name override.
    open spec fn parse_name_ens(s: Self, parse_name: Seq<char>, f: File) -> bool {
        native_parse_name_spec(parse_name, f) && f.wf()
    }

    /// The activity check.
    fn is_active(&self, ts: &TypeRegistry, class: usize, parent: &NativeVfs) -> (r: bool)
        requires
            vfs_subclass_ctx(*ts, class),
        ensures
            Self::is_active_ens(*self, r),
    ;

    /// Path resolution.
    fn get_file_for_path(
        &self,
        ts: &TypeRegistry,
        class: usize,
        parent: &NativeVfs,
        path: &str,
    ) -> (f: File)
        requires
            vfs_subclass_ctx(*ts, class),
            Self::get_file_for_path_req(*self, path@),
        ensures
            Self::get_file_for_path_ens(*self, path@, f),
    ;

    /// Identifier resolution.
    fn get_file_for_uri(
        &self,
        ts: &TypeRegistry,
        class: usize,
        parent: &NativeVfs,
        uri: &str,
    ) -> (f: File)
        requires
            vfs_subclass_ctx(*ts, class),
            Self::get_file_for_uri_req(*self, uri@),
        ensures
            Self::get_file_for_uri_ens(*self, uri@, f),
    ;

    /// The supported-scheme listing.
    fn get_supported_uri_schemes(
        &self,
        ts: &TypeRegistry,
        class: usize,
        parent: &NativeVfs,
    ) -> (v: Vec<String>)
        requires
            vfs_subclass_ctx(*ts, class),
        ensures
            Self::get_supported_uri_schemes_ens(*self, v.deep_view()),
    ;

    /// Parse-name resolution.
    fn parse_name(
        &self,
        ts: &TypeRegistry,
        class: usize,
        parent: &NativeVfs,
        parse_name: &str,
    ) -> (f: File)
        requires
            vfs_subclass_ctx(*ts, class),
            Self::parse_name_req(*self, parse_name@),
        ensures
            Self::parse_name_ens(*self, parse_name@, f),
    ;
}

/// A virtual-filesystem subclass that overrides nothing: every operation
/// keeps the default contract and delegates to the parent class.
pub struct PassthroughVfs;

impl VfsImpl for PassthroughVfs {
    fn is_active(&self, ts: &TypeRegistry, class: usize, parent: &NativeVfs) -> (r: bool) {
        self.parent_is_active(ts, class, parent)
    }

    fn get_file_for_path(
        &self,
        ts: &TypeRegistry,
        class: usize,
        parent: &NativeVfs,
        path: &str,
    ) -> (f: File) {
        self.parent_get_file_for_path(ts, class, parent, path)
    }

    fn get_file_for_uri(
        &self,
        ts: &TypeRegistry,
        class: usize,
        parent: &NativeVfs,
        uri: &str,
    ) -> (f: File) {
        self.parent_get_file_for_uri(ts, class, parent, uri)
    }

    fn get_supported_uri_schemes(
        &self,
        ts: &TypeRegistry,
        class: usize,
        parent: &NativeVfs,
    ) -> (v: Vec<String>) {
        self.parent_get_supported_uri_schemes(ts, class, parent)
    }

    fn parse_name(
        &self,
        ts: &TypeRegistry,
        class: usize,
        parent: &NativeVfs,
        parse_name: &str,
    ) -> (f: File) {
        self.parent_parse_name(ts, class, parent, parse_name)
    }
}

/// Parity of the delegating subclass for path resolution: its contract
/// admits exactly the native behaviours — invoking the operation on a
/// subclass that overrides nothing is observably identical to invoking it
/// on a plain native instance with the same argument.
pub proof fn lemma_passthrough_file_for_path_parity(s: PassthroughVfs, path: Seq<char>, f: File)
    ensures
        PassthroughVfs::get_file_for_path_ens(s, path, f) <==> (native_file_for_path_spec(path, f)
            && f.wf()),
{
}

/// Parity of the delegating subclass for the remaining operations: each
/// contract coincides with the native behaviour.
pub proof fn lemma_passthrough_vfs_parity(
    s: PassthroughVfs,
    r: bool,
    uri: Seq<char>,
    pn: Seq<char>,
    f: File,
    v: Seq<Seq<char>>,
)
    ensures
        PassthroughVfs::is_active_ens(s, r) <==> native_is_active_spec(r),
        PassthroughVfs::get_file_for_uri_ens(s, uri, f) <==> (native_file_for_uri_spec(uri, f)
            && f.wf()),
        PassthroughVfs::get_supported_uri_schemes_ens(s, v) <==> v == native_schemes_spec(),
        PassthroughVfs::parse_name_ens(s, pn, f) <==> (native_parse_name_spec(pn, f) && f.wf()),
{
}

/// A virtual-filesystem subclass that overrides only the supported-scheme
/// listing: its override body first invokes the parent implementation and
/// then appends one scheme of its own.  Every other operation keeps the
/// default contract and delegates to the parent class.
pub struct ExtraSchemeVfs {
    pub extra: String,
}

impl VfsImpl for ExtraSchemeVfs {
    open spec fn get_supported_uri_schemes_ens(s: Self, v: Seq<Seq<char>>) -> bool {
        v == native_schemes_spec().push(s.extra@)
    }

    fn is_active(&self, ts: &TypeRegistry, class: usize, parent: &NativeVfs) -> (r: bool) {
        self.parent_is_active(ts, class, parent)
    }

    fn get_file_for_path(
        &self,
        ts: &TypeRegistry,
        class: usize,
        parent: &NativeVfs,
        path: &str,
    ) -> (f: File) {
        self.parent_get_file_for_path(ts, class, parent, path)
    }

    fn get_file_for_uri(
        &self,
        ts: &TypeRegistry,
        class: usize,
        parent: &NativeVfs,
        uri: &str,
    ) -> (f: File) {
        self.parent_get_file_for_uri(ts, class, parent, uri)
    }

    fn get_supported_uri_schemes(
        &self,
        ts: &TypeRegistry,
        class: usize,
        parent: &NativeVfs,
    ) -> (v: Vec<String>) {
        let mut v = self.parent_get_supported_uri_schemes(ts, class, parent);
        v.push(self.extra.clone());
        proof {
            assert(v.deep_view() =~= native_schemes_spec().push(self.extra@));
        }
        v
    }

    fn parse_name(
        &self,
        ts: &TypeRegistry,
        class: usize,
        parent: &NativeVfs,
        parse_name: &str,
    ) -> (f: File) {
        self.parent_parse_name(ts, class, parent, parse_name)
    }
}

/// A virtual-filesystem object: the embedded native parent instance, the
/// implementing value of the bridged layer, and the dynamic class the
/// vtable dispatch goes through.
pub struct Vfs<T> {
    pub class: usize,
    pub parent_instance: NativeVfs,
    pub imp: T,
}

/// Registers the native local virtual-filesystem base class, whose vtable
/// the native library populates with its own implementations of all five
/// operations.
pub fn register_vfs_class(ts: &mut TypeRegistry) -> (c: usize)
    requires
        old(ts).wf(),
    ensures
        final(ts).wf(),
        c == old(ts).class_count(),
        final(ts).class_count() == old(ts).class_count() + 1,
        final(ts).parent_of(c as int) is None,
        final(ts).slot_len(c as int) == VFS_OPS,
        forall|op: int| 0 <= op < VFS_OPS ==> final(ts).slot_of(c as int, op) == SlotEntry::Native,
        forall|k: int|
            0 <= k < old(ts).class_count() ==> class_unchanged(*old(ts), *final(ts), k),
{
    ts.register_native_class(VFS_OPS)
}

/// The class-initialisation hook of the virtual-filesystem bridge, run
/// once per concrete subclass: installs this layer's trampoline into every
/// slot of the override trait, unconditionally — also where the concrete
/// implementation keeps the delegating default, so that each slot points
/// at something callable of this layer.
pub fn vfs_class_init(ts: &mut TypeRegistry, class: usize)
    requires
        old(ts).wf(),
        class < old(ts).class_count(),
        old(ts).slot_len(class as int) == VFS_OPS,
    ensures
        final(ts).wf(),
        final(ts).class_count() == old(ts).class_count(),
        final(ts).parent_of(class as int) == old(ts).parent_of(class as int),
        final(ts).slot_len(class as int) == VFS_OPS,
        forall|op: int|
            0 <= op < VFS_OPS ==> final(ts).slot_of(class as int, op) == SlotEntry::Trampoline(
                class,
            ),
        forall|k: int|
            0 <= k < old(ts).class_count() && k != class ==> class_unchanged(
                *old(ts),
                *final(ts),
                k,
            ),
{
    let mut op: usize = 0;
    while op < VFS_OPS
        invariant
            op <= VFS_OPS,
            ts.wf(),
            ts.class_count() == old(ts).class_count(),
            (class as int) < ts.class_count(),
            ts.parent_of(class as int) == old(ts).parent_of(class as int),
            ts.slot_len(class as int) == VFS_OPS,
            forall|o: int|
                0 <= o < op ==> ts.slot_of(class as int, o) == SlotEntry::Trampoline(class),
            forall|o: int|
                op <= o < VFS_OPS ==> ts.slot_of(class as int, o) == old(ts).slot_of(
                    class as int,
                    o,
                ),
            forall|k: int|
                0 <= k < old(ts).class_count() && k != class ==> class_unchanged(
                    *old(ts),
                    *ts,
                    k,
                ),
        decreases VFS_OPS - op,
    {
        let ghost mid = *ts;
        ts.install_trampoline(class, op);
        proof {
            assert forall|k: int|
                0 <= k < old(ts).class_count() && k != class implies class_unchanged(
                *old(ts),
                *ts,
                k,
            ) by {
                assert(class_unchanged(*old(ts), mid, k));
                assert(class_unchanged(mid, *ts, k));
                assert forall|o: int|
                    0 <= o < old(ts).slot_len(k) implies ts.slot_of(k, o) == old(ts).slot_of(
                    k,
                    o,
                ) by {
                    assert(mid.slot_of(k, o) == old(ts).slot_of(k, o));
                }
            }
        }
        op += 1;
    }
}

/// Registers a virtual-filesystem subclass: creates the class descriptor
/// as a copy of the parent's and runs the class-initialisation hook on it.
pub fn register_vfs_subclass(ts: &mut TypeRegistry, parent: usize) -> (c: usize)
    requires
        old(ts).wf(),
        parent < old(ts).class_count(),
        old(ts).slot_len(parent as int) == VFS_OPS,
    ensures
        final(ts).wf(),
        c == old(ts).class_count(),
        final(ts).class_count() == old(ts).class_count() + 1,
        final(ts).parent_of(c as int) == Some(parent),
        final(ts).slot_len(c as int) == VFS_OPS,
        forall|op: int|
            0 <= op < VFS_OPS ==> final(ts).slot_of(c as int, op) == SlotEntry::Trampoline(c),
        forall|k: int|
            0 <= k < old(ts).class_count() ==> class_unchanged(*old(ts), *final(ts), k),
{
    let c = ts.register_subclass(parent);
    let ghost mid = *ts;
    vfs_class_init(ts, c);
    proof {
        assert forall|k: int|
            0 <= k < old(ts).class_count() implies class_unchanged(*old(ts), *ts, k) by {
            assert(class_unchanged(*old(ts), mid, k));
            assert(class_unchanged(mid, *ts, k));
            assert forall|op: int|
                0 <= op < old(ts).slot_len(k) implies ts.slot_of(k, op) == old(ts).slot_of(
                k,
                op,
            ) by {
                assert(mid.slot_of(k, op) == old(ts).slot_of(k, op));
            }
        }
    }
    c
}

/// What a dispatch through the virtual-filesystem vtable requires of the
/// object's class.
pub open spec fn vfs_dispatch_ctx(ts: TypeRegistry, class: usize, op: int) -> bool {
    &&& ts.wf()
    &&& (class as int) < ts.class_count()
    &&& ts.slot_len(class as int) == VFS_OPS
    &&& match ts.slot_of(class as int, op) {
        SlotEntry::Missing => false,
        SlotEntry::Native => true,
        SlotEntry::Trampoline(_) => vfs_subclass_ctx(ts, class),
    }
}

impl<T: VfsImpl> Vfs<T> {
    /// A virtual-filesystem object of the given dynamic class, embedding
    /// the implementing value of the bridged layer.
    pub fn new(class: usize, imp: T) -> (obj: Vfs<T>)
        ensures
            obj.class == class,
            obj.imp == imp,
    {
        Vfs { class, parent_instance: NativeVfs::new(), imp }
    }

    /// The native runtime's call through the activity-check slot of the
    /// object's class.
    pub fn is_active(&self, ts: &TypeRegistry) -> (r: bool)
        requires
            vfs_dispatch_ctx(*ts, self.class, OP_IS_ACTIVE as int),
        ensures
            match ts.slot_of(self.class as int, OP_IS_ACTIVE as int) {
                SlotEntry::Missing => false,
                SlotEntry::Native => native_is_active_spec(r),
                SlotEntry::Trampoline(_) => T::is_active_ens(self.imp, r),
            },
    {
        let entry = ts.slot(self.class, OP_IS_ACTIVE);
        match entry {
            SlotEntry::Native => self.parent_instance.is_active(),
            SlotEntry::Trampoline(_) => is_active_trampoline(
                ts,
                self.class,
                &self.imp,
                &self.parent_instance,
            ),
            SlotEntry::Missing => vstd::pervasive::unreached(),
        }
    }

    /// The native runtime's call through the path-resolution slot of the
    /// object's class.  The resulting file's ownership transfers fully to
    /// the caller.
    pub fn file_for_path(&self, ts: &TypeRegistry, path: &str) -> (f: File)
        requires
            vfs_dispatch_ctx(*ts, self.class, OP_GET_FILE_FOR_PATH as int),
            match ts.slot_of(self.class as int, OP_GET_FILE_FOR_PATH as int) {
                SlotEntry::Missing => false,
                SlotEntry::Native => is_abs_path(path@),
                SlotEntry::Trampoline(_) => T::get_file_for_path_req(self.imp, path@),
            },
        ensures
            match ts.slot_of(self.class as int, OP_GET_FILE_FOR_PATH as int) {
                SlotEntry::Missing => false,
                SlotEntry::Native => native_file_for_path_spec(path@, f) && f.wf(),
                SlotEntry::Trampoline(_) => T::get_file_for_path_ens(self.imp, path@, f),
            },
    {
        let entry = ts.slot(self.class, OP_GET_FILE_FOR_PATH);
        match entry {
            SlotEntry::Native => self.parent_instance.get_file_for_path(path),
            SlotEntry::Trampoline(_) => get_file_for_path_trampoline(
                ts,
                self.class,
                &self.imp,
                &self.parent_instance,
                path,
            ),
            SlotEntry::Missing => vstd::pervasive::unreached(),
        }
    }

    /// The native runtime's call through the identifier-resolution slot of
    /// the object's class.
    pub fn file_for_uri(&self, ts: &TypeRegistry, uri: &str) -> (f: File)
        requires
            vfs_dispatch_ctx(*ts, self.class, OP_GET_FILE_FOR_URI as int),
            match ts.slot_of(self.class as int, OP_GET_FILE_FOR_URI as int) {
                SlotEntry::Missing => false,
                SlotEntry::Native => is_file_uri(uri@),
                SlotEntry::Trampoline(_) => T::get_file_for_uri_req(self.imp, uri@),
            },
        ensures
            match ts.slot_of(self.class as int, OP_GET_FILE_FOR_URI as int) {
                SlotEntry::Missing => false,
                SlotEntry::Native => native_file_for_uri_spec(uri@, f) && f.wf(),
                SlotEntry::Trampoline(_) => T::get_file_for_uri_ens(self.imp, uri@, f),
            },
    {
        let entry = ts.slot(self.class, OP_GET_FILE_FOR_URI);
        match entry {
            SlotEntry::Native => self.parent_instance.get_file_for_uri(uri),
            SlotEntry::Trampoline(_) => get_file_for_uri_trampoline(
                ts,
                self.class,
                &self.imp,
                &self.parent_instance,
                uri,
            ),
            SlotEntry::Missing => vstd::pervasive::unreached(),
        }
    }

    /// The native runtime's call through the supported-scheme slot of the
    /// object's class: the listing crosses the boundary as a container of
    /// owned strings with full transfer of ownership, and is taken back on
    /// this side — the round trip that must neither leak nor double-free.
    pub fn supported_uri_schemes(&self, ts: &TypeRegistry) -> (v: Vec<String>)
        requires
            vfs_dispatch_ctx(*ts, self.class, OP_GET_SUPPORTED_URI_SCHEMES as int),
        ensures
            match ts.slot_of(self.class as int, OP_GET_SUPPORTED_URI_SCHEMES as int) {
                SlotEntry::Missing => false,
                SlotEntry::Native => v.deep_view() == native_schemes_spec(),
                SlotEntry::Trampoline(_) => T::get_supported_uri_schemes_ens(
                    self.imp,
                    v.deep_view(),
                ),
            },
    {
        let entry = ts.slot(self.class, OP_GET_SUPPORTED_URI_SCHEMES);
        let raw: StrArray = match entry {
            SlotEntry::Native => strings_to_native(
                self.parent_instance.get_supported_uri_schemes(),
            ),
            SlotEntry::Trampoline(_) => get_supported_uri_schemes_trampoline(
                ts,
                self.class,
                &self.imp,
                &self.parent_instance,
            ),
            SlotEntry::Missing => vstd::pervasive::unreached(),
        };
        strings_from_native(raw)
    }

    /// The native runtime's call through the parse-name slot of the
    /// object's class.
    pub fn parse_name(&self, ts: &TypeRegistry, parse_name: &str) -> (f: File)
        requires
            vfs_dispatch_ctx(*ts, self.class, OP_PARSE_NAME as int),
            match ts.slot_of(self.class as int, OP_PARSE_NAME as int) {
                SlotEntry::Missing => false,
                SlotEntry::Native => is_abs_path(parse_name@) || is_file_uri(parse_name@),
                SlotEntry::Trampoline(_) => T::parse_name_req(self.imp, parse_name@),
            },
        ensures
            match ts.slot_of(self.class as int, OP_PARSE_NAME as int) {
                SlotEntry::Missing => false,
                SlotEntry::Native => native_parse_name_spec(parse_name@, f) && f.wf(),
                SlotEntry::Trampoline(_) => T::parse_name_ens(self.imp, parse_name@, f),
            },
    {
        let entry = ts.slot(self.class, OP_PARSE_NAME);
        match entry {
            SlotEntry::Native => self.parent_instance.parse_name(parse_name),
            SlotEntry::Trampoline(_) => parse_name_trampoline(
                ts,
                self.class,
                &self.imp,
                &self.parent_instance,
                parse_name,
            ),
            SlotEntry::Missing => vstd::pervasive::unreached(),
        }
    }
}


/// The native-callable trampoline of the activity-check slot: recovers the
/// implementing value from the instance without touching its ownership,
/// invokes the override, and hands the raw boolean back.
pub fn is_active_trampoline<T: VfsImpl>(
    ts: &TypeRegistry,
    class: usize,
    imp: &T,
    parent: &NativeVfs,
) -> (r: bool)
    requires
        vfs_subclass_ctx(*ts, class),
    ensures
        T::is_active_ens(*imp, r),
{
    imp.is_active(ts, class, parent)
}

/// The native-callable trampoline of the path-resolution slot: invokes the
/// override and transfers ownership of the resulting file to the caller.
pub fn get_file_for_path_trampoline<T: VfsImpl>(
    ts: &TypeRegistry,
    class: usize,
    imp: &T,
    parent: &NativeVfs,
    path: &str,
) -> (f: File)
    requires
        vfs_subclass_ctx(*ts, class),
        T::get_file_for_path_req(*imp, path@),
    ensures
        T::get_file_for_path_ens(*imp, path@, f),
{
    imp.get_file_for_path(ts, class, parent, path)
}

/// The native-callable trampoline of the identifier-resolution slot.
pub fn get_file_for_uri_trampoline<T: VfsImpl>(
    ts: &TypeRegistry,
    class: usize,
    imp: &T,
    parent: &NativeVfs,
    uri: &str,
) -> (f: File)
    requires
        vfs_subclass_ctx(*ts, class),
        T::get_file_for_uri_req(*imp, uri@),
    ensures
        T::get_file_for_uri_ens(*imp, uri@, f),
{
    imp.get_file_for_uri(ts, class, parent, uri)
}

/// The native-callable trampoline of the parse-name slot.
pub fn parse_name_trampoline<T: VfsImpl>(
    ts: &TypeRegistry,
    class: usize,
    imp: &T,
    parent: &NativeVfs,
    parse_name: &str,
) -> (f: File)
    requires
        vfs_subclass_ctx(*ts, class),
        T::parse_name_req(*imp, parse_name@),
    ensures
        T::parse_name_ens(*imp, parse_name@, f),
{
    imp.parse_name(ts, class, parent, parse_name)
}

/// The native-callable trampoline of the supported-scheme slot: invokes
/// the override and hands the listing across the boundary as a container
/// of owned strings, transferring ownership of the container and of every
/// element to the caller.
pub fn get_supported_uri_schemes_trampoline<T: VfsImpl>(
    ts: &TypeRegistry,
    class: usize,
    imp: &T,
    parent: &NativeVfs,
) -> (a: StrArray)
    requires
        vfs_subclass_ctx(*ts, class),
    ensures
        T::get_supported_uri_schemes_ens(*imp, a@),
{
    let v = imp.get_supported_uri_schemes(ts, class, parent);
    strings_to_native(v)
}

} // verus!
