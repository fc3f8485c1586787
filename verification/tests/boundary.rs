// Tests of the return-value codecs at the native call boundary: the
// error-channel convention and the ownership round trip of transferred
// string containers.

use gio_subclass::boundary::BoolReturn;
use gio_subclass::boundary::ObjReturn;
use gio_subclass::boundary::decode_bool_result;
use gio_subclass::boundary::decode_obj_result;
use gio_subclass::boundary::encode_bool_result;
use gio_subclass::boundary::encode_obj_result;
use gio_subclass::boundary::strings_from_native;
use gio_subclass::boundary::strings_to_native;
use gio_subclass::error::Error;
use gio_subclass::error::ErrorDomain;
use gio_subclass::error::IoErrorCode;
use gio_subclass::file::FileInfo;
use gio_subclass::registry::TypeRegistry;
use gio_subclass::subclass::vfs::PassthroughVfs;
use gio_subclass::subclass::vfs::Vfs;
use gio_subclass::subclass::vfs::register_vfs_class;
use gio_subclass::subclass::vfs::register_vfs_subclass;

#[test]
fn obj_return_success_channel() {
    let q: ObjReturn<FileInfo> = encode_obj_result(Ok(Some(FileInfo::new("entry"))));
    assert!(q.ret.is_some());
    assert!(q.err.is_none());
    let r = decode_obj_result(q);
    assert_eq!(r.unwrap().unwrap().display_name(), "entry");
}

#[test]
fn obj_return_empty_channel() {
    let q: ObjReturn<FileInfo> = encode_obj_result(Ok(None));
    assert!(q.ret.is_none());
    assert!(q.err.is_none());
    let r = decode_obj_result(q);
    assert!(r.unwrap().is_none());
}

#[test]
fn obj_return_error_channel() {
    let q: ObjReturn<FileInfo> = encode_obj_result(Err(Error::new_not_supported()));
    // error present excludes a present success object
    assert!(q.ret.is_none());
    assert!(q.err.is_some());
    let r = decode_obj_result(q);
    let e = r.unwrap_err();
    assert_eq!(e.code(), IoErrorCode::NotSupported);
    assert_eq!(e.message(), "operation not supported");
}

#[test]
fn bool_return_channels() {
    let q: BoolReturn = encode_bool_result(Ok(true));
    assert!(q.ret);
    assert!(q.err.is_none());
    assert!(decode_bool_result(q).unwrap());

    let q: BoolReturn = encode_bool_result(Ok(false));
    assert!(!q.ret);
    assert!(q.err.is_none());

    // on the error channel, the plain return is the failure sentinel
    let q: BoolReturn = encode_bool_result(Err(Error::new_cancelled()));
    assert!(!q.ret);
    assert!(q.err.is_some());
    let e = decode_bool_result(q).unwrap_err();
    assert_eq!(e.code(), IoErrorCode::Cancelled);
}

#[test]
fn container_round_trip() {
    // a container of owned strings crosses the boundary and comes back
    // with the same elements in the same order, each owned exactly once
    let v = vec![String::from("file"), String::from("resource"), String::from("trash")];
    let a = strings_to_native(v);
    let w = strings_from_native(a);
    assert_eq!(w, vec![
        String::from("file"),
        String::from("resource"),
        String::from("trash"),
    ]);
}

#[test]
fn container_repeated_invocation() {
    // the container-returning operation survives repeated invocation: each
    // call rebuilds and transfers a fresh container without loss
    let mut ts = TypeRegistry::new();
    let local_class = register_vfs_class(&mut ts);
    let my_class = register_vfs_subclass(&mut ts, local_class);
    let my_local_vfs = Vfs::new(my_class, PassthroughVfs);
    for _ in 0..64 {
        let schemes = my_local_vfs.supported_uri_schemes(&ts);
        assert_eq!(schemes, vec![String::from("file")]);
    }
}

#[test]
fn error_triple() {
    // an error is its (domain, code, message) triple
    let e = Error::new(
        ErrorDomain::Io,
        IoErrorCode::Failed,
        String::from("something went wrong"),
    );
    assert_eq!(e.domain(), ErrorDomain::Io);
    assert_eq!(e.code(), IoErrorCode::Failed);
    assert_eq!(e.message(), "something went wrong");
}
