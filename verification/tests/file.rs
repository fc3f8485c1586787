// The following tests exercise a custom type standing for a subclass of the
// local file type that overrides nothing.  For each path operation, a test
// checks that the subclass instance and a plain local-file instance return
// the same results.  A subclass instance is built with an explicit type tag
// and a path; a plain instance comes from File::for_path.

use gio_subclass::file::File;

const MY_FILE: &str = "/my_file";

const MY_LOCAL_FILE_TYPE: u64 = 1;

#[test]
fn file_dup() {
    // invoke the subclass's inherited implementation of dup
    let my_local_file = File::for_path_with_type(MY_LOCAL_FILE_TYPE, MY_FILE);
    let dup = my_local_file.dup();

    // invoke the plain local-file implementation of dup
    let expected = File::for_path(MY_FILE).dup();

    // both results should equal
    assert!(dup.equal(&expected));
}

#[test]
fn file_equal() {
    // 2 subclass instances with same path should equal
    let my_local_file = File::for_path_with_type(MY_LOCAL_FILE_TYPE, MY_FILE);
    let expected = File::for_path_with_type(MY_LOCAL_FILE_TYPE, MY_FILE);
    assert!(my_local_file.equal(&expected));

    // instances of the subclass and of the base type with same path should
    // not equal (because the dynamic type is different)
    let expected = File::for_path(MY_FILE);
    assert!(!my_local_file.equal(&expected));
}

#[test]
fn file_is_native() {
    // invoke the subclass's inherited implementation of is_native
    let my_local_file = File::for_path_with_type(MY_LOCAL_FILE_TYPE, MY_FILE);
    let is_native = my_local_file.is_native();

    // invoke the plain local-file implementation of is_native
    let expected = File::for_path(MY_FILE).is_native();

    // both results should equal
    assert_eq!(is_native, expected);
}

#[test]
fn file_has_uri_scheme() {
    // invoke the subclass's inherited implementation of has_uri_scheme
    let my_local_file = File::for_path_with_type(MY_LOCAL_FILE_TYPE, MY_FILE);
    let has_file = my_local_file.has_uri_scheme("file");
    let has_foo = my_local_file.has_uri_scheme("foo");

    // invoke the plain local-file implementation of has_uri_scheme
    let file = File::for_path(MY_FILE);
    let expected_file = file.has_uri_scheme("file");
    let expected_foo = file.has_uri_scheme("foo");

    // both results should equal
    assert_eq!(has_file, expected_file);
    assert_eq!(has_foo, expected_foo);
}

#[test]
fn file_uri_scheme() {
    // invoke the subclass's inherited implementation of uri_scheme
    let my_local_file = File::for_path_with_type(MY_LOCAL_FILE_TYPE, MY_FILE);
    let uri_scheme = my_local_file.uri_scheme();

    // invoke the plain local-file implementation of uri_scheme
    let expected = File::for_path(MY_FILE).uri_scheme();

    // both uri schemes should equal
    assert_eq!(uri_scheme, expected);
}

#[test]
fn file_basename() {
    // invoke the subclass's inherited implementation of basename
    let my_local_file = File::for_path_with_type(MY_LOCAL_FILE_TYPE, MY_FILE);
    let basename = my_local_file.basename();

    // invoke the plain local-file implementation of basename
    let expected = File::for_path(MY_FILE).basename();

    // both basenames should equal
    assert_eq!(basename, expected);
}

#[test]
fn file_path() {
    // invoke the subclass's inherited implementation of path
    let my_local_file = File::for_path_with_type(MY_LOCAL_FILE_TYPE, MY_FILE);
    let path = my_local_file.path();

    // invoke the plain local-file implementation of path
    let expected = File::for_path(MY_FILE).path();

    // both paths should equal
    assert_eq!(path, expected);
}

#[test]
fn file_uri() {
    // invoke the subclass's inherited implementation of uri
    let my_local_file = File::for_path_with_type(MY_LOCAL_FILE_TYPE, MY_FILE);
    let uri = my_local_file.uri();

    // invoke the plain local-file implementation of uri
    let expected = File::for_path(MY_FILE).uri();

    // both uris should equal
    assert_eq!(uri, expected);
}

#[test]
fn file_parse_name() {
    // invoke the subclass's inherited implementation of parse_name
    let my_local_file = File::for_path_with_type(MY_LOCAL_FILE_TYPE, MY_FILE);
    let parse_name = my_local_file.parse_name();

    // invoke the plain local-file implementation of parse_name
    let expected = File::for_path(MY_FILE).parse_name();

    // both parse names should equal
    assert_eq!(parse_name, expected);
}

#[test]
fn file_parent() {
    // invoke the subclass's inherited implementation of parent
    let my_local_file = File::for_path_with_type(MY_LOCAL_FILE_TYPE, "/my_parent/my_file");
    let res = my_local_file.parent();
    assert!(res.is_some(), "unexpected None");
    let parent = res.unwrap();

    // invoke the plain local-file implementation of parent
    let res = File::for_path("/my_parent/my_file").parent();
    assert!(res.is_some(), "unexpected None");
    let expected = res.unwrap();

    // both parents should equal
    assert!(parent.equal(&expected));
}

#[test]
fn file_has_prefix() {
    // invoke the subclass's inherited implementation of has_prefix
    let my_local_file = File::for_path_with_type(MY_LOCAL_FILE_TYPE, "/my_prefix/my_file");
    let my_local_prefix = File::for_path_with_type(MY_LOCAL_FILE_TYPE, "/my_prefix");
    let has_prefix = my_local_file.has_prefix(&my_local_prefix);

    // invoke the plain local-file implementation of has_prefix
    let expected = File::for_path("/my_prefix/my_file").has_prefix(&File::for_path("/my_prefix"));

    // both results should equal
    assert_eq!(has_prefix, expected);
}

#[test]
fn file_relative_path() {
    // invoke the subclass's inherited implementation of relative_path
    let my_local_parent = File::for_path_with_type(MY_LOCAL_FILE_TYPE, "/my_parent");
    let my_local_descendant =
        File::for_path_with_type(MY_LOCAL_FILE_TYPE, "/my_parent/my_descendant");
    let relative_path = my_local_parent.relative_path(&my_local_descendant);

    // invoke the plain local-file implementation of relative_path
    let expected =
        File::for_path("/my_parent").relative_path(&File::for_path("/my_parent/my_descendant"));

    // both relative paths should equal
    assert_eq!(relative_path, expected);
}

#[test]
fn file_resolve_relative_path() {
    // invoke the subclass's inherited implementation of resolve_relative_path
    let my_local_prefix = File::for_path_with_type(MY_LOCAL_FILE_TYPE, "/my_prefix");
    let resolved_path = my_local_prefix.resolve_relative_path("my_file");

    // invoke the plain local-file implementation of resolve_relative_path
    let expected = File::for_path("/my_prefix").resolve_relative_path("my_file");

    // both resolved path result should equal
    assert!(resolved_path.equal(&expected));
}

#[test]
fn file_child_for_display_name() {
    // invoke the subclass's inherited implementation of child_for_display_name
    let my_local_parent = File::for_path_with_type(MY_LOCAL_FILE_TYPE, "/my_parent");
    let res = my_local_parent.child_for_display_name("my_file");
    assert!(res.is_ok());
    let child = res.unwrap();

    // invoke the plain local-file implementation of child_for_display_name
    let res = File::for_path("/my_parent").child_for_display_name("my_file");
    assert!(res.is_ok());
    let expected = res.unwrap();

    // both children should equal
    assert!(child.equal(&expected))
}
