// Exact-value tests of the local-file path model: canonicalisation at
// construction, base names, parents, uris, and the invalid-filename error.

use gio_subclass::error::IoErrorCode;
use gio_subclass::file::File;

#[test]
fn path_canonicalisation_exact() {
    let f = File::for_path("//a///b/");
    assert_eq!(f.path().unwrap(), "/a/b");

    let f = File::for_path("/a/b");
    assert_eq!(f.path().unwrap(), "/a/b");

    let f = File::for_path("/");
    assert_eq!(f.path().unwrap(), "/");

    let f = File::for_path("///");
    assert_eq!(f.path().unwrap(), "/");
}

#[test]
fn basename_exact() {
    assert_eq!(File::for_path("/my_parent/my_file").basename().unwrap(), "my_file");
    assert_eq!(File::for_path("/my_file").basename().unwrap(), "my_file");
    assert_eq!(File::for_path("/").basename().unwrap(), "/");
}

#[test]
fn parent_exact() {
    let p = File::for_path("/my_parent/my_file").parent().unwrap();
    assert_eq!(p.path().unwrap(), "/my_parent");

    let p = File::for_path("/my_file").parent().unwrap();
    assert_eq!(p.path().unwrap(), "/");

    assert!(File::for_path("/").parent().is_none());
}

#[test]
fn uri_exact() {
    assert_eq!(File::for_path("/my_file").uri(), "file:///my_file");
    assert_eq!(File::for_path("/").uri(), "file:///");
}

#[test]
fn has_prefix_exact() {
    let root = File::for_path("/");
    let a = File::for_path("/a");
    let ab = File::for_path("/a/b");
    let ax = File::for_path("/ax");
    assert!(a.has_prefix(&root));
    assert!(ab.has_prefix(&a));
    assert!(ab.has_prefix(&root));
    // a path is not its own prefix, and a component boundary is required
    assert!(!a.has_prefix(&a));
    assert!(!ax.has_prefix(&a));
    assert!(!root.has_prefix(&root));
}

#[test]
fn relative_path_exact() {
    let parent = File::for_path("/my_parent");
    let descendant = File::for_path("/my_parent/a/b");
    assert_eq!(parent.relative_path(&descendant).unwrap(), "a/b");

    let root = File::for_path("/");
    assert_eq!(root.relative_path(&descendant).unwrap(), "my_parent/a/b");

    // no relation, no relative path
    let other = File::for_path("/elsewhere");
    assert!(parent.relative_path(&other).is_none());
    assert!(parent.relative_path(&parent).is_none());
}

#[test]
fn resolve_relative_path_exact() {
    let base = File::for_path("/my_prefix");
    assert_eq!(base.resolve_relative_path("my_file").path().unwrap(), "/my_prefix/my_file");
    // an absolute step stands alone
    assert_eq!(base.resolve_relative_path("/abs/path").path().unwrap(), "/abs/path");
    // an empty step stays put
    assert_eq!(base.resolve_relative_path("").path().unwrap(), "/my_prefix");
    // the root joins without doubling the separator
    let root = File::for_path("/");
    assert_eq!(root.resolve_relative_path("my_file").path().unwrap(), "/my_file");
}

#[test]
fn child_for_display_name_invalid() {
    let parent = File::for_path("/my_parent");
    let err = parent.child_for_display_name("with/separator").unwrap_err();
    assert_eq!(err.code(), IoErrorCode::InvalidFilename);
    assert_eq!(err.message(), "invalid filename");
    let err = parent.child_for_display_name("").unwrap_err();
    assert_eq!(err.code(), IoErrorCode::InvalidFilename);

    // the root's child carries a single separator
    let root = File::for_path("/");
    assert_eq!(root.child_for_display_name("my_file").unwrap().path().unwrap(), "/my_file");
}
