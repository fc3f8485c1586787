//! The native local-file collaborator: a file handle identified by its
//! dynamic type and an absolute, canonical path.  The path operations
//! model what the native library's local-file implementation computes, so
//! that the bridged classes have concrete parent behaviour to delegate to.
//!
//! Construction canonicalises the path the way the native implementation
//! does: runs of separators collapse to one, and a trailing separator is
//! dropped unless the path is the root.  Every operation that derives a
//! new file hands back a plain local file, whatever the dynamic type of
//! the receiver; equality first compares dynamic types and only then the
//! paths.

use vstd::prelude::*;

use crate::error::Error;
use crate::error::invalid_filename_error;

verus! {

/// The dynamic type tag of plain local files, the native base type.  A
/// registered subclass uses its own tag.
pub const LOCAL_FILE_TYPE: u64 = 0;

/// An absolute path: non-empty and rooted at the separator.
pub open spec fn is_abs_path(s: Seq<char>) -> bool {
    s.len() > 0 && s[0] == '/'
}

/// No two adjacent separators anywhere in the path.
pub open spec fn no_dup_slash(s: Seq<char>) -> bool {
    forall|i: int| 0 <= i && i + 1 < s.len() ==> !((#[trigger] s[i]) == '/' && s[i + 1] == '/')
}

/// A canonical path: absolute, without duplicate separators, and without a
/// trailing separator unless it is the root itself.
pub open spec fn is_canonical_path(s: Seq<char>) -> bool {
    &&& is_abs_path(s)
    &&& no_dup_slash(s)
    &&& (s.len() == 1 || s[s.len() - 1] != '/')
}

/// Collapses every run of separators to a single separator.
pub open spec fn dedup_slashes(s: Seq<char>) -> Seq<char>
    decreases s.len(),
{
    if s.len() <= 1 {
        s
    } else if s[0] == '/' && s[1] == '/' {
        dedup_slashes(s.skip(1))
    } else {
        seq![s[0]] + dedup_slashes(s.skip(1))
    }
}

/// Drops a trailing separator, except from the root path.
pub open spec fn strip_trailing_slash(s: Seq<char>) -> Seq<char> {
    if s.len() > 1 && s[s.len() - 1] == '/' {
        s.take(s.len() - 1)
    } else {
        s
    }
}

/// The canonical form of an absolute path.
pub open spec fn canon_path(s: Seq<char>) -> Seq<char> {
    strip_trailing_slash(dedup_slashes(s))
}

/// Shape of the collapsed path: it keeps the first and last characters,
/// never grows, and holds no duplicate separators.
proof fn lemma_dedup_basic(s: Seq<char>)
    requires
        s.len() >= 1,
    ensures
        1 <= dedup_slashes(s).len() <= s.len(),
        dedup_slashes(s)[0] == s[0],
        dedup_slashes(s).last() == s.last(),
        no_dup_slash(dedup_slashes(s)),
    decreases s.len(),
{
    if s.len() <= 1 {
    } else if s[0] == '/' && s[1] == '/' {
        lemma_dedup_basic(s.skip(1));
        assert(s.skip(1)[0] == s[1]);
        assert(s.skip(1).last() == s.last());
    } else {
        lemma_dedup_basic(s.skip(1));
        let d = dedup_slashes(s.skip(1));
        let r = seq![s[0]] + d;
        assert(d[0] == s.skip(1)[0]);
        assert(d.last() == s.skip(1).last());
        assert(r.last() == d.last());
        assert forall|i: int| 0 <= i && i + 1 < r.len() implies !((#[trigger] r[i]) == '/' && r[i + 1] == '/') by {
            if i == 0 {
                assert(r[0] == s[0]);
                assert(r[1] == d[0]);
                assert(s.skip(1)[0] == s[1]);
            } else {
                assert(r[i] == d[i - 1]);
                assert(r[i + 1] == d[i]);
            }
        }
    }
}

/// A path without duplicate separators is already collapsed.
proof fn lemma_dedup_identity(s: Seq<char>)
    requires
        no_dup_slash(s),
    ensures
        dedup_slashes(s) == s,
    decreases s.len(),
{
    if s.len() <= 1 {
    } else {
        assert(!(s[0] == '/' && s[1] == '/'));
        assert forall|i: int| 0 <= i && i + 1 < s.skip(1).len() implies !((#[trigger] s.skip(1)[i])
            == '/' && s.skip(1)[i + 1] == '/') by {
            assert(s.skip(1)[i] == s[i + 1]);
            assert(s.skip(1)[i + 1] == s[i + 2]);
        }
        lemma_dedup_identity(s.skip(1));
        assert(seq![s[0]] + s.skip(1) =~= s);
    }
}

/// Canonicalising an absolute path yields a canonical path.
proof fn lemma_canon_canonical(s: Seq<char>)
    requires
        is_abs_path(s),
    ensures
        is_canonical_path(canon_path(s)),
{
    lemma_dedup_basic(s);
    let d = dedup_slashes(s);
    if d.len() > 1 && d.last() == '/' {
        let t = d.take(d.len() - 1);
        assert(t[0] == d[0]);
        assert forall|i: int| 0 <= i && i + 1 < t.len() implies !((#[trigger] t[i]) == '/' && t[i + 1] == '/') by {
            assert(t[i] == d[i]);
            assert(t[i + 1] == d[i + 1]);
        }
        if t.len() > 1 {
            assert(t.last() == d[d.len() - 2]);
            assert(!(d[d.len() - 2] == '/' && d[d.len() - 1] == '/'));
        }
    }
}

/// Canonicalisation is idempotent: a canonical path is its own canonical
/// form, so constructing a file from an already-canonical path stores the
/// path unchanged.
pub proof fn lemma_canon_identity(s: Seq<char>)
    requires
        is_canonical_path(s),
    ensures
        canon_path(s) == s,
{
    lemma_dedup_identity(s);
}

/// The index of the last separator in the path, or -1 if there is none.
pub open spec fn last_slash_index(s: Seq<char>) -> int
    decreases s.len(),
{
    if s.len() == 0 {
        -1
    } else if s[s.len() - 1] == '/' {
        s.len() - 1
    } else {
        last_slash_index(s.take(s.len() - 1))
    }
}

/// In a path that holds a separator at all, the last-separator index names
/// a separator with none after it.
proof fn lemma_last_slash(s: Seq<char>)
    requires
        exists|k: int| 0 <= k < s.len() && s[k] == '/',
    ensures
        0 <= last_slash_index(s) < s.len(),
        s[last_slash_index(s)] == '/',
        forall|j: int| last_slash_index(s) < j < s.len() ==> s[j] != '/',
    decreases s.len(),
{
    if s.len() == 0 {
    } else if s[s.len() - 1] == '/' {
    } else {
        let t = s.take(s.len() - 1);
        let k = choose|k: int| 0 <= k < s.len() && s[k] == '/';
        assert(t[k] == s[k]);
        lemma_last_slash(t);
        assert forall|j: int| last_slash_index(s) < j < s.len() implies s[j] != '/' by {
            if j < s.len() - 1 {
                assert(t[j] == s[j]);
            }
        }
    }
}

/// A separator with no separator after it stands at the last-separator
/// index.
proof fn lemma_last_slash_unique(s: Seq<char>, k: int)
    requires
        0 <= k < s.len(),
        s[k] == '/',
        forall|j: int| k < j < s.len() ==> s[j] != '/',
    ensures
        last_slash_index(s) == k,
    decreases s.len(),
{
    if s[s.len() - 1] == '/' {
        assert(k == s.len() - 1);
    } else {
        let t = s.take(s.len() - 1);
        assert(t[k] == s[k]);
        assert forall|j: int| k < j < t.len() implies t[j] != '/' by {
            assert(t[j] == s[j]);
        }
        lemma_last_slash_unique(t, k);
    }
}

/// Whether two string slices hold the same characters.
pub fn str_eq(a: &str, b: &str) -> (r: bool)
    ensures
        r == (a@ == b@),
{
    let x = String::from_str(a);
    let y = String::from_str(b);
    x == y
}

/// Builds the canonical form of an absolute path: collapses runs of
/// separators and drops a trailing separator unless the path is the root.
pub fn canonicalize_path(s: &str) -> (r: String)
    requires
        is_abs_path(s@),
    ensures
        r@ == canon_path(s@),
        is_canonical_path(r@),
{
    let n = s.unicode_len();
    let mut out = String::new();
    let mut i: usize = 0;
    proof {
        assert(s@.skip(0) =~= s@);
        assert(out@ + dedup_slashes(s@) =~= dedup_slashes(s@));
    }
    while i < n
        invariant
            n == s@.len(),
            0 < n,
            i <= n,
            out@ + dedup_slashes(s@.skip(i as int)) == dedup_slashes(s@),
        decreases n - i,
    {
        proof {
            let tail = s@.skip(i as int);
            assert(tail.skip(1) =~= s@.skip(i as int + 1));
            assert(tail[0] == s@[i as int]);
            if i + 1 < n {
                assert(tail[1] == s@[i as int + 1]);
            }
        }
        let c = s.get_char(i);
        if i + 1 < n && c == '/' && s.get_char(i + 1) == '/' {
            proof {
                assert(dedup_slashes(s@.skip(i as int)) == dedup_slashes(s@.skip(i as int + 1)));
            }
        } else {
            let piece = s.substring_char(i, i + 1);
            out.append(piece);
            proof {
                let tail = s@.skip(i as int);
                assert(piece@ =~= seq![s@[i as int]]);
                if i + 1 < n {
                    assert(dedup_slashes(tail) == seq![s@[i as int]] + dedup_slashes(
                        s@.skip(i as int + 1),
                    ));
                } else {
                    assert(tail =~= seq![s@[i as int]]);
                    assert(dedup_slashes(tail) == seq![s@[i as int]]);
                    assert(s@.skip(i as int + 1) =~= Seq::<char>::empty());
                    assert(dedup_slashes(s@.skip(i as int + 1)) =~= Seq::<char>::empty());
                }
                assert(out@ + dedup_slashes(s@.skip(i as int + 1)) =~= dedup_slashes(s@));
            }
        }
        i += 1;
    }
    proof {
        assert(s@.skip(n as int) =~= Seq::<char>::empty());
        assert(out@ + Seq::<char>::empty() =~= out@);
        assert(out@ == dedup_slashes(s@));
        lemma_dedup_basic(s@);
        lemma_canon_canonical(s@);
    }
    let m = out.unicode_len();
    if m > 1 {
        let last = out.as_str().get_char(m - 1);
        if last == '/' {
            let stripped = String::from_str(out.as_str().substring_char(0, m - 1));
            proof {
                assert(stripped@ =~= canon_path(s@));
            }
            return stripped;
        }
    }
    out
}

/// The component after the last separator; the root is its own base name.
pub open spec fn base_name_of(p: Seq<char>) -> Seq<char> {
    if p.len() == 1 {
        p
    } else {
        p.skip(last_slash_index(p) + 1)
    }
}

/// The path with its last component removed; cutting at the leading
/// separator leaves the root.
pub open spec fn parent_path_of(p: Seq<char>) -> Seq<char> {
    p.take(if last_slash_index(p) == 0 { 1int } else { last_slash_index(p) })
}

/// The identifier-and-location form of a local file: its path behind the
/// file scheme marker.
pub open spec fn uri_of(p: Seq<char>) -> Seq<char> {
    "file://"@ + p
}

/// Whether `d` lies strictly below `p`: `p` is a proper prefix of `d`
/// ending at a component boundary.
pub open spec fn path_has_prefix(d: Seq<char>, p: Seq<char>) -> bool {
    &&& d.len() > p.len()
    &&& d.take(p.len() as int) == p
    &&& (p.len() == 1 || d[p.len() as int] == '/')
}

/// The path from `p` down to its descendant `d`, without a leading
/// separator.
pub open spec fn rel_path_of(d: Seq<char>, p: Seq<char>) -> Seq<char> {
    if p.len() == 1 {
        d.skip(1)
    } else {
        d.skip(p.len() as int + 1)
    }
}

/// A display name usable as a single path component: non-empty and free of
/// separators.
pub open spec fn valid_display_name(s: Seq<char>) -> bool {
    s.len() > 0 && forall|i: int| 0 <= i < s.len() ==> s[i] != '/'
}

/// The path of the named child of `p`.
pub open spec fn child_path_of(p: Seq<char>, name: Seq<char>) -> Seq<char> {
    if p.len() == 1 {
        p + name
    } else {
        p + "/"@ + name
    }
}

/// Where a relative path leads from a base path: an empty step stays put,
/// an absolute step replaces the base, and any other step descends from
/// the base, canonicalised.
pub open spec fn resolved_path(base: Seq<char>, rel: Seq<char>) -> Seq<char> {
    if rel.len() == 0 {
        base
    } else if rel[0] == '/' {
        canon_path(rel)
    } else {
        canon_path(base + "/"@ + rel)
    }
}

/// Cutting a canonical path at its last separator leaves a canonical path.
proof fn lemma_parent_canonical(p: Seq<char>)
    requires
        is_canonical_path(p),
        p.len() > 1,
    ensures
        is_canonical_path(parent_path_of(p)),
        base_name_of(p).len() > 0,
    decreases p.len(),
{
    lemma_last_slash(p);
    let ls = last_slash_index(p);
    let cut: int = if ls == 0 { 1int } else { ls };
    let t = p.take(cut);
    assert(t[0] == p[0]);
    assert forall|i: int| 0 <= i && i + 1 < t.len() implies !((#[trigger] t[i]) == '/' && t[i + 1]
        == '/') by {
        assert(t[i] == p[i]);
        assert(t[i + 1] == p[i + 1]);
    }
    if t.len() > 1 {
        assert(t.last() == p[cut - 1]);
        assert(!(p[ls - 1] == '/' && p[ls] == '/'));
    }
    assert(ls < p.len() - 1 || p.len() == 1) by {
        if p.len() > 1 {
            assert(p[p.len() - 1] != '/');
        }
    }
}

/// Appending a separator-free name under a canonical path leaves a
/// canonical path.
proof fn lemma_child_canonical(p: Seq<char>, name: Seq<char>)
    requires
        is_canonical_path(p),
        valid_display_name(name),
    ensures
        is_canonical_path(child_path_of(p, name)),
{
    reveal_strlit("/");
    let c = child_path_of(p, name);
    if p.len() == 1 {
        assert(c[0] == p[0]);
        assert forall|i: int| 0 <= i && i + 1 < c.len() implies !((#[trigger] c[i]) == '/' && c[i
            + 1] == '/') by {
            assert(c[i + 1] == name[i]);
        }
        assert(c.last() == name[name.len() - 1]);
    } else {
        let sep = "/"@;
        assert(sep.len() == 1);
        assert(c[0] == p[0]);
        assert forall|i: int| 0 <= i && i + 1 < c.len() implies !((#[trigger] c[i]) == '/' && c[i
            + 1] == '/') by {
            if i + 1 < p.len() {
                assert(c[i] == p[i]);
                assert(c[i + 1] == p[i + 1]);
            } else if i + 1 == p.len() {
                assert(c[i] == p[i]);
                assert(p[p.len() - 1] != '/');
            } else if i == p.len() {
                assert(c[i + 1] == name[0]);
            } else {
                assert(c[i] == name[i - p.len() - 1]);
            }
        }
        assert(c.last() == name[name.len() - 1]);
    }
}

/// Finds the index of the last separator of an absolute path.
fn find_last_slash(s: &str) -> (idx: usize)
    requires
        is_abs_path(s@),
    ensures
        idx < s@.len(),
        idx as int == last_slash_index(s@),
        s@[idx as int] == '/',
        forall|j: int| idx < j < s@.len() ==> s@[j] != '/',
{
    let n = s.unicode_len();
    let mut i: usize = n;
    loop
        invariant
            n == s@.len(),
            is_abs_path(s@),
            0 < i <= n,
            forall|j: int| i <= j < n ==> s@[j] != '/',
        decreases i,
    {
        i = i - 1;
        let c = s.get_char(i);
        if c == '/' {
            proof {
                lemma_last_slash_unique(s@, i as int);
            }
            return i;
        }
        proof {
            if i == 0 {
                assert(s@[0] == '/');
                assert(false);
            }
        }
    }
}

/// An entry's metadata as an enumeration hands it out: the display name of
/// the entry.
#[derive(Debug)]
pub struct FileInfo {
    pub display_name: String,
}

impl View for FileInfo {
    type V = Seq<char>;

    open spec fn view(&self) -> Seq<char> {
        self.display_name@
    }
}

impl FileInfo {
    /// Builds the metadata record for one entry.
    pub fn new(display_name: &str) -> (info: FileInfo)
        ensures
            info@ == display_name@,
    {
        FileInfo { display_name: String::from_str(display_name) }
    }

    /// The display name of the entry.
    pub fn display_name(&self) -> (name: &str)
        ensures
            name@ == self@,
    {
        self.display_name.as_str()
    }

    /// An owned copy of the metadata record.
    pub fn dup(&self) -> (info: FileInfo)
        ensures
            info@ == self@,
    {
        FileInfo { display_name: self.display_name.clone() }
    }
}

/// A handle on a local file: the dynamic type of the object and its
/// canonical absolute path.
#[derive(Debug)]
pub struct File {
    /// The dynamic type tag of the object, as the type system assigned it.
    pub file_type: u64,
    /// The canonical absolute path of the file.
    pub path: String,
}

impl File {
    /// Validity of a file handle: its path is canonical.  Every constructor
    /// establishes this and every operation preserves it.
    pub open spec fn wf(self) -> bool {
        is_canonical_path(self.path@)
    }

    /// A plain local file for an absolute path, canonicalised the way the
    /// native local-file implementation canonicalises at construction.
    pub fn for_path(path: &str) -> (f: File)
        requires
            is_abs_path(path@),
        ensures
            f.file_type == LOCAL_FILE_TYPE,
            f.path@ == canon_path(path@),
            f.wf(),
    {
        File { file_type: LOCAL_FILE_TYPE, path: canonicalize_path(path) }
    }

    /// A file of a registered subclass type for an absolute path; this is
    /// how a subclass instance is constructed with its path property.
    pub fn for_path_with_type(file_type: u64, path: &str) -> (f: File)
        requires
            is_abs_path(path@),
        ensures
            f.file_type == file_type,
            f.path@ == canon_path(path@),
            f.wf(),
    {
        File { file_type, path: canonicalize_path(path) }
    }

    /// A duplicate of the handle.  The native local implementation builds
    /// its results as plain local files, whatever the dynamic type of the
    /// receiver.
    pub fn dup(&self) -> (f: File)
        ensures
            f.file_type == LOCAL_FILE_TYPE,
            f.path@ == self.path@,
    {
        File { file_type: LOCAL_FILE_TYPE, path: self.path.clone() }
    }

    /// Whether two handles denote the same file: the dynamic types must
    /// match before the paths are even compared.
    pub fn equal(&self, other: &File) -> (b: bool)
        ensures
            b == (self.file_type == other.file_type && self.path@ == other.path@),
    {
        self.file_type == other.file_type && str_eq(self.path.as_str(), other.path.as_str())
    }

    /// Local files are native.
    pub fn is_native(&self) -> (b: bool)
        ensures
            b,
    {
        true
    }

    /// Whether the handle uses the given scheme; local files use exactly
    /// the file scheme.
    pub fn has_uri_scheme(&self, scheme: &str) -> (b: bool)
        ensures
            b == (scheme@ == "file"@),
    {
        str_eq(scheme, "file")
    }

    /// The scheme of the handle.
    pub fn uri_scheme(&self) -> (r: Option<String>)
        ensures
            r matches Some(scheme) && scheme@ == "file"@,
    {
        Some(String::from_str("file"))
    }

    /// The base name: the component after the last separator, or the root
    /// itself.
    pub fn basename(&self) -> (r: Option<String>)
        requires
            self.wf(),
        ensures
            r matches Some(b) && b@ == base_name_of(self.path@),
    {
        let n = self.path.unicode_len();
        if n == 1 {
            Some(self.path.clone())
        } else {
            let ls = find_last_slash(self.path.as_str());
            let b = String::from_str(self.path.as_str().substring_char(ls + 1, n));
            proof {
                assert(b@ =~= base_name_of(self.path@));
            }
            Some(b)
        }
    }

    /// The path of the file.
    pub fn path(&self) -> (r: Option<String>)
        ensures
            r matches Some(p) && p@ == self.path@,
    {
        Some(self.path.clone())
    }

    /// The identifier-and-location form of the handle.
    pub fn uri(&self) -> (r: String)
        ensures
            r@ == uri_of(self.path@),
    {
        String::from_str("file://").concat(self.path.as_str())
    }

    /// The parse name: for a local file with a readable path, the path
    /// itself.
    pub fn parse_name(&self) -> (r: String)
        ensures
            r@ == self.path@,
    {
        self.path.clone()
    }

    /// The parent directory, or nothing at the root.  The parent comes
    /// back as a plain local file.
    pub fn parent(&self) -> (r: Option<File>)
        requires
            self.wf(),
        ensures
            self.path@.len() == 1 ==> r is None,
            self.path@.len() > 1 ==> (r matches Some(f) && f.file_type == LOCAL_FILE_TYPE
                && f.path@ == parent_path_of(self.path@) && f.wf()),
    {
        let n = self.path.unicode_len();
        if n == 1 {
            None
        } else {
            proof {
                lemma_parent_canonical(self.path@);
            }
            let ls = find_last_slash(self.path.as_str());
            let cut: usize = if ls == 0 {
                1
            } else {
                ls
            };
            let p = String::from_str(self.path.as_str().substring_char(0, cut));
            proof {
                assert(p@ =~= parent_path_of(self.path@));
            }
            Some(File { file_type: LOCAL_FILE_TYPE, path: p })
        }
    }

    /// Whether this file lies strictly below the given prefix, with the
    /// cut falling on a component boundary.
    pub fn has_prefix(&self, prefix: &File) -> (b: bool)
        requires
            self.wf(),
            prefix.wf(),
        ensures
            b == path_has_prefix(self.path@, prefix.path@),
    {
        let n = self.path.unicode_len();
        let plen = prefix.path.unicode_len();
        if n <= plen {
            return false;
        }
        let head = self.path.as_str().substring_char(0, plen);
        if !str_eq(head, prefix.path.as_str()) {
            proof {
                assert(head@ =~= self.path@.take(plen as int));
            }
            return false;
        }
        proof {
            assert(head@ =~= self.path@.take(plen as int));
        }
        if plen == 1 {
            true
        } else {
            let c = self.path.as_str().get_char(plen);
            c == '/'
        }
    }

    /// The path from this file down to the given descendant, or nothing if
    /// the descendant does not lie strictly below this file.
    pub fn relative_path(&self, descendant: &File) -> (r: Option<String>)
        requires
            self.wf(),
            descendant.wf(),
        ensures
            path_has_prefix(descendant.path@, self.path@) ==> (r matches Some(x) && x@
                == rel_path_of(descendant.path@, self.path@)),
            !path_has_prefix(descendant.path@, self.path@) ==> r is None,
    {
        if !descendant.has_prefix(self) {
            return None;
        }
        let n = descendant.path.unicode_len();
        let plen = self.path.unicode_len();
        let cut: usize = if plen == 1 {
            1
        } else {
            plen + 1
        };
        let x = String::from_str(descendant.path.as_str().substring_char(cut, n));
        proof {
            assert(x@ =~= rel_path_of(descendant.path@, self.path@));
        }
        Some(x)
    }

    /// Resolves a relative path against this file: an empty step stays at
    /// this file, an absolute step stands alone, and any other step
    /// descends from here.  The result is a plain local file with a
    /// canonical path.
    pub fn resolve_relative_path(&self, rel: &str) -> (f: File)
        requires
            self.wf(),
        ensures
            f.file_type == LOCAL_FILE_TYPE,
            f.path@ == resolved_path(self.path@, rel@),
            f.wf(),
    {
        let n = rel.unicode_len();
        if n == 0 {
            File { file_type: LOCAL_FILE_TYPE, path: self.path.clone() }
        } else if rel.get_char(0) == '/' {
            File::for_path(rel)
        } else {
            let joined = self.path.clone().concat("/").concat(rel);
            proof {
                assert(joined@[0] == self.path@[0]);
            }
            File::for_path(joined.as_str())
        }
    }

    /// The child of this file carrying the given display name.  A display
    /// name that is empty or holds a separator is not a valid filename and
    /// is rejected through the error channel.
    pub fn child_for_display_name(&self, display_name: &str) -> (r: Result<File, Error>)
        requires
            self.wf(),
        ensures
            valid_display_name(display_name@) ==> (r matches Ok(f) && f.file_type
                == LOCAL_FILE_TYPE && f.path@ == child_path_of(self.path@, display_name@)
                && f.wf()),
            !valid_display_name(display_name@) ==> (r matches Err(e) && e@
                == invalid_filename_error()),
    {
        let n = display_name.unicode_len();
        if n == 0 {
            return Err(Error::new_invalid_filename());
        }
        let mut i: usize = 0;
        while i < n
            invariant
                n == display_name@.len(),
                i <= n,
                forall|j: int| 0 <= j < i ==> display_name@[j] != '/',
            decreases n - i,
        {
            if display_name.get_char(i) == '/' {
                return Err(Error::new_invalid_filename());
            }
            i += 1;
        }
        proof {
            lemma_child_canonical(self.path@, display_name@);
        }
        let plen = self.path.unicode_len();
        if plen == 1 {
            Ok(File { file_type: LOCAL_FILE_TYPE, path: self.path.clone().concat(display_name) })
        } else {
            Ok(
                File {
                    file_type: LOCAL_FILE_TYPE,
                    path: self.path.clone().concat("/").concat(display_name),
                },
            )
        }
    }
}

} // verus!
