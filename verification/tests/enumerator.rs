// Scenario and parity tests for the file-enumerator bridge.

use gio_subclass::cancellable::Cancellable;
use gio_subclass::error::IoErrorCode;
use gio_subclass::file::FileInfo;
use gio_subclass::registry::TypeRegistry;
use gio_subclass::subclass::file_enumerator::FileEnumerator;
use gio_subclass::subclass::file_enumerator::FixedEnumerator;
use gio_subclass::subclass::file_enumerator::PassthroughEnumerator;
use gio_subclass::subclass::file_enumerator::UncloseableEnumerator;
use gio_subclass::subclass::file_enumerator::register_enumerator_class;
use gio_subclass::subclass::file_enumerator::register_enumerator_subclass;

#[test]
fn enumerator_fixed_entries_then_parent_close() {
    // a subclass overriding only the next-entry operation, handing out
    // three synthetic entries, with close left to the parent class
    let mut ts = TypeRegistry::new();
    let base_class = register_enumerator_class(&mut ts);
    let my_class = register_enumerator_subclass(&mut ts, base_class);

    let synthetic = vec![FileInfo::new("one"), FileInfo::new("two"), FileInfo::new("three")];
    let mut sub = FileEnumerator::new(my_class, Vec::new(), FixedEnumerator::new(synthetic));

    let first = sub.next_file(&ts, None).unwrap().unwrap();
    assert_eq!(first.display_name(), "one");
    let second = sub.next_file(&ts, None).unwrap().unwrap();
    assert_eq!(second.display_name(), "two");
    let third = sub.next_file(&ts, None).unwrap().unwrap();
    assert_eq!(third.display_name(), "three");

    // then the end of the sequence
    let end = sub.next_file(&ts, None).unwrap();
    assert!(end.is_none());

    // close was not overridden: its result equals the untouched parent's
    // close on an equivalent plain enumerator
    let closed = sub.close(&ts, None);
    let mut base = FileEnumerator::new(base_class, Vec::new(), PassthroughEnumerator);
    let expected = base.close(&ts, None);
    assert_eq!(closed.unwrap(), expected.unwrap());
}

#[test]
fn enumerator_passthrough_parity() {
    // a subclass whose overrides trivially delegate walks the same entries
    // and reports the same end and the same closed error as the base class
    let mut ts = TypeRegistry::new();
    let base_class = register_enumerator_class(&mut ts);
    let my_class = register_enumerator_subclass(&mut ts, base_class);

    let entries_sub = vec![FileInfo::new("a"), FileInfo::new("b")];
    let entries_base = vec![FileInfo::new("a"), FileInfo::new("b")];
    let mut sub = FileEnumerator::new(my_class, entries_sub, PassthroughEnumerator);
    let mut base = FileEnumerator::new(base_class, entries_base, PassthroughEnumerator);

    for _ in 0..3 {
        let got = sub.next_file(&ts, None).unwrap();
        let expected = base.next_file(&ts, None).unwrap();
        assert_eq!(got.map(|i| i.display_name().to_string()),
                   expected.map(|i| i.display_name().to_string()));
    }

    assert_eq!(sub.close(&ts, None).unwrap(), base.close(&ts, None).unwrap());

    // after close, both report the same error code
    let got = sub.next_file(&ts, None).unwrap_err();
    let expected = base.next_file(&ts, None).unwrap_err();
    assert_eq!(got.code(), expected.code());
    assert_eq!(got.domain(), expected.domain());
    assert_eq!(got.message(), expected.message());
}

#[test]
fn enumerator_closed_error() {
    let mut ts = TypeRegistry::new();
    let base_class = register_enumerator_class(&mut ts);
    let mut base = FileEnumerator::new(
        base_class,
        vec![FileInfo::new("a")],
        PassthroughEnumerator,
    );
    assert!(base.close(&ts, None).unwrap());
    let err = base.next_file(&ts, None).unwrap_err();
    assert_eq!(err.code(), IoErrorCode::Closed);
    assert_eq!(err.message(), "object is closed");
}

#[test]
fn enumerator_cancelled_error() {
    // a triggered cancellation token is honoured by base and subclass alike
    let mut ts = TypeRegistry::new();
    let base_class = register_enumerator_class(&mut ts);
    let my_class = register_enumerator_subclass(&mut ts, base_class);

    let mut token = Cancellable::new();
    assert!(!token.is_cancelled());
    token.cancel();
    assert!(token.is_cancelled());

    let mut base = FileEnumerator::new(
        base_class,
        vec![FileInfo::new("a")],
        PassthroughEnumerator,
    );
    let err = base.next_file(&ts, Some(&token)).unwrap_err();
    assert_eq!(err.code(), IoErrorCode::Cancelled);
    assert_eq!(err.message(), "operation was cancelled");

    let mut sub = FileEnumerator::new(
        my_class,
        Vec::new(),
        FixedEnumerator::new(vec![FileInfo::new("x")]),
    );
    let err = sub.next_file(&ts, Some(&token)).unwrap_err();
    assert_eq!(err.code(), IoErrorCode::Cancelled);
    let err = sub.close(&ts, Some(&token)).unwrap_err();
    assert_eq!(err.code(), IoErrorCode::Cancelled);
}

#[test]
fn enumerator_override_takes_effect() {
    // the installed override, not the parent implementation, answers the
    // call: the parent instance holds different entries and stays put
    let mut ts = TypeRegistry::new();
    let base_class = register_enumerator_class(&mut ts);
    let my_class = register_enumerator_subclass(&mut ts, base_class);

    let parent_entries = vec![FileInfo::new("parent_entry")];
    let mut sub = FileEnumerator::new(
        my_class,
        parent_entries,
        FixedEnumerator::new(vec![FileInfo::new("override_entry")]),
    );
    let first = sub.next_file(&ts, None).unwrap().unwrap();
    assert_eq!(first.display_name(), "override_entry");
    let end = sub.next_file(&ts, None).unwrap();
    assert!(end.is_none());
}

#[test]
fn enumerator_unsupported_close() {
    // an override for which closing is not meaningful reports the domain
    // failure with the not-supported code through the error channel
    let mut ts = TypeRegistry::new();
    let base_class = register_enumerator_class(&mut ts);
    let my_class = register_enumerator_subclass(&mut ts, base_class);

    let mut sub = FileEnumerator::new(
        my_class,
        vec![FileInfo::new("a")],
        UncloseableEnumerator,
    );
    // the next-entry operation still delegates to the parent class
    let first = sub.next_file(&ts, None).unwrap().unwrap();
    assert_eq!(first.display_name(), "a");

    let err = sub.close(&ts, None).unwrap_err();
    assert_eq!(err.code(), IoErrorCode::NotSupported);
    assert_eq!(err.message(), "operation not supported");
}
