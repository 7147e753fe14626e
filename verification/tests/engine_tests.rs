use bluebus::ChangeEvent;
use bluebus::DeviceEntry;
use bluebus::Engine;
use bluebus::InterfaceEntry;
use bluebus::ManagedObject;
use bluebus::PropertyBag;
use bluebus::WatchState;
use bluebus::WireValue;
use bluebus::snapshot::collect_device_entries;
use bluebus::snapshot::decode_all;

const DEVICE_INTERFACE: &str = "org.bluez.Device1";

fn bag(entries: Vec<(&str, WireValue)>) -> PropertyBag {
    let mut b = PropertyBag::new();
    for (name, value) in entries {
        b.push(name.to_owned(), value);
    }
    b
}

fn text(s: &str) -> WireValue {
    WireValue::Text(s.to_owned())
}

#[test]
fn duplicate_add_keeps_one_identical_record() {
    let mut engine = Engine::new();
    let key = "/dev/AA".to_owned();
    let iface = DEVICE_INTERFACE.to_owned();
    let payload = bag(vec![("Address", text("AA:11")), ("Alias", text("Foo"))]);

    assert!(engine.handle_added(&key, &iface, &payload));
    let once = engine.registry().get(&key).cloned();
    let listed_once = engine.registry().list();

    assert!(!engine.handle_added(&key, &iface, &payload));
    let twice = engine.registry().get(&key).cloned();
    let listed_twice = engine.registry().list();

    assert_eq!(once, twice);
    assert_eq!(listed_once.len(), 1);
    assert_eq!(listed_twice.len(), 1);
    assert_eq!(listed_once, listed_twice);
}

#[test]
fn partial_merge_leaves_other_fields_alone() {
    let mut engine = Engine::new();
    let key = "/dev/AA".to_owned();
    let iface = DEVICE_INTERFACE.to_owned();
    engine.handle_added(
        &key,
        &iface,
        &bag(vec![("Address", text("AA:11")), ("Alias", text("Foo"))]),
    );

    let changed = engine.handle_property_changed(
        &key,
        &iface,
        &bag(vec![("Connected", WireValue::Flag(true))]),
    );
    assert!(changed);

    let rec = engine.registry().get(&key).unwrap();
    assert_eq!(rec.alias, "Foo");
    assert!(rec.connected);
}

#[test]
fn unknown_key_change_and_remove_are_noops() {
    let mut engine = Engine::new();
    let h = engine.register_subscriber(8);
    let key = "/dev/ZZ".to_owned();
    let iface = DEVICE_INTERFACE.to_owned();

    let changed = engine.handle_property_changed(
        &key,
        &iface,
        &bag(vec![("Connected", WireValue::Flag(true))]),
    );
    assert!(!changed);
    assert!(!engine.handle_removed(&key));

    assert_eq!(engine.registry().get(&key), None);
    assert_eq!(engine.registry().list().len(), 0);
    assert_eq!(engine.next_event(h), None);
}

#[test]
fn add_without_alias_falls_back_to_address() {
    let mut engine = Engine::new();
    let key = "/dev/AA".to_owned();
    let iface = DEVICE_INTERFACE.to_owned();
    engine.handle_added(&key, &iface, &bag(vec![("Address", text("AA:BB:CC:DD:EE:FF"))]));
    let rec = engine.registry().get(&key).unwrap();
    assert_eq!(rec.alias, "AA:BB:CC:DD:EE:FF");
}

#[test]
fn foreign_interface_event_changes_nothing() {
    let mut engine = Engine::new();
    let key = "/dev/AA".to_owned();
    let other = "org.bluez.Battery1".to_owned();
    let started = engine.handle_added(&key, &other, &bag(vec![("Address", text("AA"))]));
    assert!(!started);
    assert_eq!(engine.registry().get(&key), None);
    assert_eq!(engine.watch_state(&key), None);
}

#[test]
fn subscriber_sees_added_updated_removed_in_order() {
    let mut engine = Engine::new();
    let h = engine.register_subscriber(8);
    let key = "/dev/AA".to_owned();
    let iface = DEVICE_INTERFACE.to_owned();

    engine.handle_added(&key, &iface, &bag(vec![("Address", text("AA:11"))]));
    engine.handle_property_changed(
        &key,
        &iface,
        &bag(vec![("Connected", WireValue::Flag(true))]),
    );
    engine.handle_removed(&key);

    match engine.next_event(h) {
        Some(ChangeEvent::Added(rec)) => assert_eq!(rec.address, "AA:11"),
        other => panic!("expected Added first, got {:?}", other),
    }
    match engine.next_event(h) {
        Some(ChangeEvent::Updated(rec)) => assert!(rec.connected),
        other => panic!("expected Updated second, got {:?}", other),
    }
    match engine.next_event(h) {
        Some(ChangeEvent::Removed(rec)) => assert_eq!(rec.address, "AA:11"),
        other => panic!("expected Removed third, got {:?}", other),
    }
    assert_eq!(engine.next_event(h), None);
}

#[test]
fn no_event_is_published_for_a_noop() {
    let mut engine = Engine::new();
    let h = engine.register_subscriber(8);
    let key = "/dev/AA".to_owned();
    let iface = DEVICE_INTERFACE.to_owned();
    engine.handle_added(&key, &iface, &bag(vec![("Address", text("AA"))]));
    let _ = engine.next_event(h);

    // A diff with nothing well-formed in it mutates nothing and publishes
    // nothing.
    let changed = engine.handle_property_changed(&key, &iface, &bag(vec![]));
    assert!(!changed);
    assert_eq!(engine.next_event(h), None);
}

#[test]
fn snapshot_then_watch_updates_the_record() {
    let mut engine = Engine::new();
    let adapter = "/org/bluez/hci0".to_owned();
    let objects = vec![ManagedObject {
        path: "/org/bluez/hci0/dev/AA".to_owned(),
        interfaces: vec![InterfaceEntry {
            name: DEVICE_INTERFACE.to_owned(),
            props: bag(vec![
                ("Address", text("AA:11")),
                ("Connected", WireValue::Flag(false)),
            ]),
        }],
    }];

    let entries = collect_device_entries(&objects, &adapter);
    assert_eq!(entries.len(), 1);
    let key = "/org/bluez/hci0/dev/AA".to_owned();
    let to_watch = engine.handle_snapshot(&entries);
    assert_eq!(to_watch, vec![key.clone()]);
    assert_eq!(engine.watch_state(&key), Some(WatchState::Watching));

    let rec = engine.registry().get(&key).unwrap();
    assert_eq!(rec.address, "AA:11");
    assert!(!rec.connected);

    // The watch task delivers a property change.
    let iface = DEVICE_INTERFACE.to_owned();
    engine.handle_property_changed(
        &key,
        &iface,
        &bag(vec![("Connected", WireValue::Flag(true))]),
    );

    let rec = engine.registry().get(&key).unwrap();
    assert!(rec.connected);
    assert_eq!(rec.address, "AA:11");
}

#[test]
fn remove_racing_ahead_of_watch_leaves_nothing_behind() {
    let mut engine = Engine::new();
    let key = "/dev/BB".to_owned();
    let iface = DEVICE_INTERFACE.to_owned();

    let start_watch = engine.handle_added(&key, &iface, &bag(vec![("Address", text("BB:22"))]));
    assert!(start_watch);
    // The remove arrives before the watch task was started.
    let was_watching = engine.handle_removed(&key);
    assert!(was_watching);

    assert_eq!(engine.registry().get(&key), None);
    assert_eq!(engine.registry().list().len(), 0);
    assert_eq!(engine.watch_state(&key), Some(WatchState::Cancelled));

    // A duplicate add for the removed key stores a record again but starts
    // no second watch task.
    let start_watch = engine.handle_added(&key, &iface, &bag(vec![("Address", text("BB:22"))]));
    assert!(!start_watch);
    assert_eq!(engine.watch_state(&key), Some(WatchState::Cancelled));

    // An update already in flight for the removed key hits the merge no-op
    // backstop and re-creates nothing.
    engine.handle_removed(&key);
    let changed = engine.handle_property_changed(
        &key,
        &iface,
        &bag(vec![("Connected", WireValue::Flag(true))]),
    );
    assert!(!changed);
    assert_eq!(engine.registry().get(&key), None);
}

#[test]
fn malformed_payload_does_not_abort_bulk_sync() {
    let mut engine = Engine::new();
    let adapter = "/org/bluez/hci0".to_owned();
    let objects = vec![
        ManagedObject {
            path: "/org/bluez/hci0/dev/BAD".to_owned(),
            interfaces: vec![InterfaceEntry {
                name: DEVICE_INTERFACE.to_owned(),
                props: bag(vec![("Address", WireValue::Uint(7))]),
            }],
        },
        ManagedObject {
            path: "/org/bluez/hci0/dev/GOOD".to_owned(),
            interfaces: vec![InterfaceEntry {
                name: DEVICE_INTERFACE.to_owned(),
                props: bag(vec![("Address", text("CC:33"))]),
            }],
        },
    ];

    let entries = collect_device_entries(&objects, &adapter);
    assert_eq!(entries.len(), 2);
    engine.handle_snapshot(&entries);

    let bad_key = "/org/bluez/hci0/dev/BAD".to_owned();
    let bad = engine.registry().get(&bad_key).unwrap();
    assert_eq!(bad.address, "");
    assert_eq!(bad.alias, "");
    assert!(!bad.connected);
    assert!(!bad.paired);

    let good_key = "/org/bluez/hci0/dev/GOOD".to_owned();
    let good = engine.registry().get(&good_key).unwrap();
    assert_eq!(good.address, "CC:33");
}

#[test]
fn collect_filters_by_subtree_and_interface() {
    let adapter = "/org/bluez/hci0".to_owned();
    let objects = vec![
        ManagedObject {
            path: "/org/bluez/hci0".to_owned(),
            interfaces: vec![InterfaceEntry {
                name: "org.bluez.Adapter1".to_owned(),
                props: bag(vec![]),
            }],
        },
        ManagedObject {
            path: "/org/bluez/hci0/dev/AA".to_owned(),
            interfaces: vec![InterfaceEntry {
                name: DEVICE_INTERFACE.to_owned(),
                props: bag(vec![("Address", text("AA:11"))]),
            }],
        },
        ManagedObject {
            path: "/org/bluez/hci1/dev/XX".to_owned(),
            interfaces: vec![InterfaceEntry {
                name: DEVICE_INTERFACE.to_owned(),
                props: bag(vec![("Address", text("XX:99"))]),
            }],
        },
        ManagedObject {
            path: "/org/bluez/hci0/dev/NOIF".to_owned(),
            interfaces: vec![InterfaceEntry {
                name: "org.freedesktop.DBus.Properties".to_owned(),
                props: bag(vec![]),
            }],
        },
    ];

    let entries = collect_device_entries(&objects, &adapter);
    assert_eq!(entries.len(), 1);
    assert_eq!(entries[0].key, "/org/bluez/hci0/dev/AA");

    let records = decode_all(&entries);
    assert_eq!(records.len(), 1);
    assert_eq!(records[0].address, "AA:11");
}

#[test]
fn snapshot_entry_fields_round_trip() {
    let entry = DeviceEntry {
        key: "/dev/AA".to_owned(),
        props: bag(vec![("Address", text("AA:11"))]),
    };
    let records = decode_all(&vec![entry]);
    assert_eq!(records[0].address, "AA:11");
}
