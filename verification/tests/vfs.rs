// The following tests register a subclass of the local virtual-filesystem
// base class that overrides no methods at all.  For each virtual operation,
// a test checks that the subclass instance and the base instance return the
// same results.  The subclass instance goes through the trampolines the
// class initialisation installed; the base instance goes through the native
// implementations.

use gio_subclass::registry::TypeRegistry;
use gio_subclass::subclass::vfs::ExtraSchemeVfs;
use gio_subclass::subclass::vfs::PassthroughVfs;
use gio_subclass::subclass::vfs::Vfs;
use gio_subclass::subclass::vfs::register_vfs_class;
use gio_subclass::subclass::vfs::register_vfs_subclass;

#[test]
fn vfs_is_active() {
    let mut ts = TypeRegistry::new();
    let local_class = register_vfs_class(&mut ts);
    let my_class = register_vfs_subclass(&mut ts, local_class);

    // invoke the subclass's implementation of the activity check
    let my_local_vfs = Vfs::new(my_class, PassthroughVfs);
    let active = my_local_vfs.is_active(&ts);

    // invoke the base class's implementation of the activity check
    let local = Vfs::new(local_class, PassthroughVfs);
    let expected = local.is_active(&ts);

    // both results should equal
    assert_eq!(active, expected);
}

#[test]
fn vfs_get_file_for_path() {
    let mut ts = TypeRegistry::new();
    let local_class = register_vfs_class(&mut ts);
    let my_class = register_vfs_subclass(&mut ts, local_class);

    // invoke the subclass's implementation of path resolution
    let my_local_vfs = Vfs::new(my_class, PassthroughVfs);
    let file = my_local_vfs.file_for_path(&ts, "/path");

    // invoke the base class's implementation of path resolution
    let local = Vfs::new(local_class, PassthroughVfs);
    let expected = local.file_for_path(&ts, "/path");

    // both files should equal
    assert!(file.equal(&expected));
}

#[test]
fn vfs_get_file_for_uri() {
    let mut ts = TypeRegistry::new();
    let local_class = register_vfs_class(&mut ts);
    let my_class = register_vfs_subclass(&mut ts, local_class);

    // invoke the subclass's implementation of identifier resolution
    let my_local_vfs = Vfs::new(my_class, PassthroughVfs);
    let file = my_local_vfs.file_for_uri(&ts, "file:///path");

    // invoke the base class's implementation of identifier resolution
    let local = Vfs::new(local_class, PassthroughVfs);
    let expected = local.file_for_uri(&ts, "file:///path");

    // both files should equal
    assert!(file.equal(&expected));
}

#[test]
fn vfs_get_supported_uri_schemes() {
    let mut ts = TypeRegistry::new();
    let local_class = register_vfs_class(&mut ts);
    let my_class = register_vfs_subclass(&mut ts, local_class);

    // invoke the subclass's implementation of the supported-scheme listing
    let my_local_vfs = Vfs::new(my_class, PassthroughVfs);
    let schemes = my_local_vfs.supported_uri_schemes(&ts);

    // invoke the base class's implementation of the supported-scheme listing
    let local = Vfs::new(local_class, PassthroughVfs);
    let expected = local.supported_uri_schemes(&ts);

    // both results should equal
    assert_eq!(schemes, expected);
}

#[test]
fn vfs_parse_name() {
    let mut ts = TypeRegistry::new();
    let local_class = register_vfs_class(&mut ts);
    let my_class = register_vfs_subclass(&mut ts, local_class);

    // invoke the subclass's implementation of parse-name resolution
    let my_local_vfs = Vfs::new(my_class, PassthroughVfs);
    let file = my_local_vfs.parse_name(&ts, "file:///path");

    // invoke the base class's implementation of parse-name resolution
    let local = Vfs::new(local_class, PassthroughVfs);
    let expected = local.parse_name(&ts, "file:///path");

    // both files should equal
    assert!(file.equal(&expected));
}

#[test]
fn vfs_override_extends_parent_schemes() {
    // an override that invokes the parent implementation from inside its
    // body and appends a scheme of its own: the override answers the call,
    // and the parent's listing is reached underneath it
    let mut ts = TypeRegistry::new();
    let local_class = register_vfs_class(&mut ts);
    let my_class = register_vfs_subclass(&mut ts, local_class);

    let vfs = Vfs::new(my_class, ExtraSchemeVfs { extra: String::from("memory") });
    let schemes = vfs.supported_uri_schemes(&ts);
    assert_eq!(schemes, vec![String::from("file"), String::from("memory")]);

    let local = Vfs::new(local_class, PassthroughVfs);
    let expected = local.supported_uri_schemes(&ts);
    assert_eq!(expected, vec![String::from("file")]);
}
