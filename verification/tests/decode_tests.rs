use bluebus::DeviceDiff;
use bluebus::Property;
use bluebus::PropertyBag;
use bluebus::WireValue;
use bluebus::decode::decode_device;
use bluebus::decode::decode_diff;

fn bag(entries: Vec<(&str, WireValue)>) -> PropertyBag {
    let mut b = PropertyBag::new();
    for (name, value) in entries {
        b.push(name.to_owned(), value);
    }
    b
}

fn text(s: &str) -> WireValue {
    WireValue::Text(s.to_owned())
}

#[test]
fn full_payload_decodes_every_field() {
    let b = bag(vec![
        ("Address", text("AA:BB:CC:DD:EE:FF")),
        ("Alias", text("Headset")),
        ("Connected", WireValue::Flag(true)),
        ("Paired", WireValue::Flag(true)),
        ("AddressType", text("public")),
        ("Connectable", WireValue::Flag(true)),
        ("Discoverable", WireValue::Flag(false)),
        ("DiscoverableTimeout", WireValue::Uint(180)),
        ("Discovering", WireValue::Flag(false)),
        ("Name", text("Headset Pro")),
        ("Pairable", WireValue::Flag(true)),
        ("PairableTimeout", WireValue::Uint(0)),
        ("PowerState", text("on")),
        ("Powered", WireValue::Flag(true)),
        ("Trusted", WireValue::Flag(false)),
        ("RSSI", WireValue::Sint(-42)),
    ]);
    let rec = decode_device(&b);
    assert_eq!(rec.address, "AA:BB:CC:DD:EE:FF");
    assert_eq!(rec.alias, "Headset");
    assert!(rec.connected);
    assert!(rec.paired);
    assert_eq!(rec.address_type, Some("public".to_owned()));
    assert_eq!(rec.connectable, Some(true));
    assert_eq!(rec.discoverable, Some(false));
    assert_eq!(rec.discoverable_timeout, Some(180));
    assert_eq!(rec.discovering, Some(false));
    assert_eq!(rec.name, Some("Headset Pro".to_owned()));
    assert_eq!(rec.pairable, Some(true));
    assert_eq!(rec.pairable_timeout, Some(0));
    assert_eq!(rec.power_state, Some("on".to_owned()));
    assert_eq!(rec.powered, Some(true));
    assert_eq!(rec.trusted, Some(false));
    assert_eq!(rec.rssi, Some(-42));
}

#[test]
fn alias_falls_back_to_address() {
    let b = bag(vec![("Address", text("AA:BB:CC:DD:EE:FF"))]);
    let rec = decode_device(&b);
    assert_eq!(rec.alias, "AA:BB:CC:DD:EE:FF");
}

#[test]
fn malformed_alias_falls_back_to_address() {
    let b = bag(vec![
        ("Address", text("AA:BB:CC:DD:EE:FF")),
        ("Alias", WireValue::Uint(7)),
    ]);
    let rec = decode_device(&b);
    assert_eq!(rec.alias, "AA:BB:CC:DD:EE:FF");
}

#[test]
fn missing_address_degrades_to_empty() {
    let b = bag(vec![("Connected", WireValue::Flag(true))]);
    let rec = decode_device(&b);
    assert_eq!(rec.address, "");
    assert_eq!(rec.alias, "");
    assert!(rec.connected);
}

#[test]
fn mistyped_address_degrades_to_empty() {
    let b = bag(vec![("Address", WireValue::Flag(true))]);
    let rec = decode_device(&b);
    assert_eq!(rec.address, "");
    assert_eq!(rec.alias, "");
    assert!(!rec.connected);
    assert!(!rec.paired);
}

#[test]
fn mistyped_booleans_default_to_false() {
    let b = bag(vec![
        ("Address", text("AA")),
        ("Connected", text("yes")),
        ("Paired", WireValue::Uint(1)),
    ]);
    let rec = decode_device(&b);
    assert!(!rec.connected);
    assert!(!rec.paired);
}

#[test]
fn missing_extended_attributes_stay_unknown() {
    let b = bag(vec![("Address", text("AA"))]);
    let rec = decode_device(&b);
    assert_eq!(rec.address_type, None);
    assert_eq!(rec.connectable, None);
    assert_eq!(rec.discoverable, None);
    assert_eq!(rec.discoverable_timeout, None);
    assert_eq!(rec.discovering, None);
    assert_eq!(rec.name, None);
    assert_eq!(rec.pairable, None);
    assert_eq!(rec.pairable_timeout, None);
    assert_eq!(rec.power_state, None);
    assert_eq!(rec.powered, None);
    assert_eq!(rec.trusted, None);
    assert_eq!(rec.rssi, None);
}

#[test]
fn mistyped_extended_attribute_stays_unknown() {
    let b = bag(vec![("Address", text("AA")), ("RSSI", text("-42"))]);
    let rec = decode_device(&b);
    assert_eq!(rec.rssi, None);
}

#[test]
fn diff_keeps_only_present_well_formed_fields() {
    let b = bag(vec![("Connected", WireValue::Flag(true))]);
    let diff = decode_diff(&b);
    assert_eq!(diff.connected, Some(true));
    assert_eq!(diff.paired, None);
    assert_eq!(diff.alias, None);
    assert!(!diff.is_empty());
}

#[test]
fn diff_drops_mistyped_fields() {
    let b = bag(vec![
        ("Connected", text("yes")),
        ("Alias", WireValue::Flag(false)),
    ]);
    let diff = decode_diff(&b);
    assert_eq!(diff.connected, None);
    assert_eq!(diff.alias, None);
    assert!(diff.is_empty());
}

#[test]
fn empty_diff_compares_equal() {
    let diff = decode_diff(&bag(vec![]));
    let expected = DeviceDiff {
        alias: None,
        connected: None,
        paired: None,
    };
    assert_eq!(diff, expected);
}

#[test]
fn lookup_takes_first_entry_with_name() {
    let b = PropertyBag {
        entries: vec![
            Property {
                name: "Alias".to_owned(),
                value: text("First"),
            },
            Property {
                name: "Alias".to_owned(),
                value: text("Second"),
            },
        ],
    };
    let diff = decode_diff(&b);
    assert_eq!(diff.alias, Some("First".to_owned()));
}
