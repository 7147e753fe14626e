use bluebus::Agent;
use bluebus::ChangeEvent;
use bluebus::ChangeNotifier;
use bluebus::DeviceDiff;
use bluebus::DeviceInfo;
use bluebus::PathConfig;
use bluebus::Registry;
use bluebus::SubscriptionManager;
use bluebus::WatchState;
use bluebus::get_adapter_path;
use bluebus::get_advertisement_path;
use bluebus::get_gatt_application_path;
use bluebus::set_adapter_path;
use bluebus::set_advertisement_path;
use bluebus::set_gatt_application_path;

fn record(address: &str, alias: &str, connected: bool) -> DeviceInfo {
    DeviceInfo {
        address: address.to_owned(),
        alias: alias.to_owned(),
        connected,
        paired: false,
        address_type: None,
        connectable: None,
        discoverable: None,
        discoverable_timeout: None,
        discovering: None,
        name: None,
        pairable: None,
        pairable_timeout: None,
        power_state: None,
        powered: None,
        trusted: None,
        rssi: None,
    }
}

#[test]
fn upsert_inserts_then_replaces() {
    let mut reg = Registry::new();
    let key = "/dev/AA".to_owned();
    let prev = reg.upsert(&key, record("AA", "One", false));
    assert_eq!(prev, None);
    let prev = reg.upsert(&key, record("AA", "Two", true));
    assert_eq!(prev, Some(record("AA", "One", false)));
    assert_eq!(reg.get(&key), Some(&record("AA", "Two", true)));
    assert_eq!(reg.list().len(), 1);
}

#[test]
fn merge_applies_only_present_fields() {
    let mut reg = Registry::new();
    let key = "/dev/AA".to_owned();
    reg.upsert(&key, record("AA", "Foo", false));
    let diff = DeviceDiff {
        alias: None,
        connected: Some(true),
        paired: None,
    };
    let merged = reg.merge_update(&key, &diff);
    let expected = record("AA", "Foo", true);
    assert_eq!(merged, Some(expected.clone()));
    assert_eq!(reg.get(&key), Some(&expected));
}

#[test]
fn merge_and_remove_on_unknown_key_are_noops() {
    let mut reg = Registry::new();
    let known = "/dev/AA".to_owned();
    let unknown = "/dev/ZZ".to_owned();
    reg.upsert(&known, record("AA", "Foo", false));
    let diff = DeviceDiff {
        alias: Some("Bar".to_owned()),
        connected: Some(true),
        paired: Some(true),
    };
    assert_eq!(reg.merge_update(&unknown, &diff), None);
    assert_eq!(reg.remove(&unknown), None);
    assert_eq!(reg.list().len(), 1);
    assert_eq!(reg.get(&known), Some(&record("AA", "Foo", false)));
    assert_eq!(reg.get(&unknown), None);
}

#[test]
fn remove_returns_the_stored_record() {
    let mut reg = Registry::new();
    let key = "/dev/AA".to_owned();
    reg.upsert(&key, record("AA", "Foo", false));
    assert_eq!(reg.remove(&key), Some(record("AA", "Foo", false)));
    assert_eq!(reg.get(&key), None);
    assert_eq!(reg.list().len(), 0);
}

#[test]
fn establish_is_idempotent() {
    let mut subs = SubscriptionManager::new();
    let key = "/dev/AA".to_owned();
    assert!(subs.establish(&key));
    assert!(!subs.establish(&key));
    assert_eq!(subs.state(&key), Some(WatchState::Watching));
}

#[test]
fn cancel_is_sticky_against_late_establish() {
    let mut subs = SubscriptionManager::new();
    let key = "/dev/BB".to_owned();
    assert!(!subs.cancel(&key));
    assert!(!subs.establish(&key));
    assert_eq!(subs.state(&key), Some(WatchState::Cancelled));
}

#[test]
fn cancel_reports_a_running_watch() {
    let mut subs = SubscriptionManager::new();
    let key = "/dev/AA".to_owned();
    subs.establish(&key);
    assert!(subs.cancel(&key));
    assert!(!subs.cancel(&key));
    assert_eq!(subs.state(&key), Some(WatchState::Cancelled));
}

#[test]
fn full_subscriber_queue_loses_the_event() {
    let mut notifier = ChangeNotifier::new();
    let h = notifier.register(1);
    notifier.publish(&ChangeEvent::Added(record("AA", "One", false)));
    notifier.publish(&ChangeEvent::Added(record("BB", "Two", false)));
    assert_eq!(
        notifier.recv(h),
        Some(ChangeEvent::Added(record("AA", "One", false)))
    );
    assert_eq!(notifier.recv(h), None);
}

#[test]
fn each_subscriber_gets_its_own_copy() {
    let mut notifier = ChangeNotifier::new();
    let h1 = notifier.register(4);
    let h2 = notifier.register(4);
    assert_eq!(notifier.subscriber_count(), 2);
    notifier.publish(&ChangeEvent::Removed(record("AA", "One", true)));
    assert_eq!(
        notifier.recv(h1),
        Some(ChangeEvent::Removed(record("AA", "One", true)))
    );
    assert_eq!(
        notifier.recv(h2),
        Some(ChangeEvent::Removed(record("AA", "One", true)))
    );
    assert_eq!(notifier.recv(h1), None);
}

#[test]
fn path_config_defaults_and_setters() {
    let mut config = PathConfig::new();
    assert_eq!(get_adapter_path(&config), "/org/bluez/hci0");
    assert_eq!(get_gatt_application_path(&config), "/org/bluez/gatt_application");
    set_adapter_path(&mut config, "/org/bluez/hci1");
    assert_eq!(get_adapter_path(&config), "/org/bluez/hci1");
    set_gatt_application_path(&mut config, "/org/bluez/app");
    assert_eq!(get_gatt_application_path(&config), "/org/bluez/app");
}

#[test]
fn advertisement_path_shares_the_application_slot() {
    let mut config = PathConfig::new();
    assert_eq!(get_advertisement_path(&config), "/org/bluez/gatt_application");
    set_advertisement_path(&mut config, "/org/bluez/adv/0");
    assert_eq!(get_advertisement_path(&config), "/org/bluez/adv/0");
    assert_eq!(get_gatt_application_path(&config), "/org/bluez/adv/0");
}

#[test]
fn agent_keeps_its_credentials() {
    let agent = Agent::new("0000".to_owned(), 123456);
    assert_eq!(agent.pincode(), "0000");
    assert_eq!(agent.passkey(), 123456);
}
