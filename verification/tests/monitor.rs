// Parity, override and parent-call tests for the file-monitor bridge, and
// registry-level checks of slot installation and parent resolution.

use gio_subclass::registry::SlotEntry;
use gio_subclass::registry::TypeRegistry;
use gio_subclass::subclass::file_monitor::CountingMonitor;
use gio_subclass::subclass::file_monitor::FileMonitor;
use gio_subclass::subclass::file_monitor::OP_CANCEL;
use gio_subclass::subclass::file_monitor::PassthroughMonitor;
use gio_subclass::subclass::file_monitor::monitor_class_init;
use gio_subclass::subclass::file_monitor::register_monitor_class;
use gio_subclass::subclass::file_monitor::register_monitor_subclass;

#[test]
fn monitor_passthrough_parity() {
    let mut ts = TypeRegistry::new();
    let base_class = register_monitor_class(&mut ts);
    let my_class = register_monitor_subclass(&mut ts, base_class);

    let mut sub = FileMonitor::new(my_class, PassthroughMonitor);
    let got = sub.cancel(&ts);

    let mut base = FileMonitor::new(base_class, PassthroughMonitor);
    let expected = base.cancel(&ts);

    assert_eq!(got, expected);
    assert!(sub.parent_instance.cancelled);
    assert!(base.parent_instance.cancelled);
}

#[test]
fn monitor_override_takes_effect() {
    // the counting override answers every call; only the first one reaches
    // the parent implementation
    let mut ts = TypeRegistry::new();
    let base_class = register_monitor_class(&mut ts);
    let my_class = register_monitor_subclass(&mut ts, base_class);

    let mut sub = FileMonitor::new(my_class, CountingMonitor { requests: 0 });
    assert!(sub.cancel(&ts));
    assert!(sub.parent_instance.cancelled);
    assert_eq!(sub.imp.requests, 1);

    // a second call is answered by the override alone
    assert!(!sub.cancel(&ts));
    assert_eq!(sub.imp.requests, 2);
}

#[test]
fn registry_slot_installation() {
    // registration copies the parent's vtable, and class initialisation
    // then installs this layer's trampoline into the bridged slot
    let mut ts = TypeRegistry::new();
    let base_class = register_monitor_class(&mut ts);
    assert_eq!(ts.slot(base_class, OP_CANCEL), SlotEntry::Native);

    let sub = ts.register_subclass(base_class);
    // before class initialisation, the slot is inherited from the parent
    assert_eq!(ts.slot(sub, OP_CANCEL), SlotEntry::Native);

    monitor_class_init(&mut ts, sub);
    assert_eq!(ts.slot(sub, OP_CANCEL), SlotEntry::Trampoline(sub));
    // the parent's own vtable is untouched
    assert_eq!(ts.slot(base_class, OP_CANCEL), SlotEntry::Native);

    // class initialisation is benign if run defensively a second time
    monitor_class_init(&mut ts, sub);
    assert_eq!(ts.slot(sub, OP_CANCEL), SlotEntry::Trampoline(sub));
}

#[test]
fn parent_call_resolves_to_ancestor() {
    // the parent-call resolution fetches the parent class's entry, never
    // the calling layer's own trampoline, level after level
    let mut ts = TypeRegistry::new();
    let base_class = register_monitor_class(&mut ts);
    let sub = register_monitor_subclass(&mut ts, base_class);
    assert_eq!(ts.parent_slot(sub, OP_CANCEL), SlotEntry::Native);

    let sub2 = ts.register_subclass(sub);
    monitor_class_init(&mut ts, sub2);
    assert_eq!(ts.slot(sub2, OP_CANCEL), SlotEntry::Trampoline(sub2));
    // the second layer's parent call reaches the first layer's trampoline
    assert_eq!(ts.parent_slot(sub2, OP_CANCEL), SlotEntry::Trampoline(sub));
    assert_ne!(ts.parent_slot(sub2, OP_CANCEL), SlotEntry::Trampoline(sub2));
}
