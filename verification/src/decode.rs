//! Decoding untyped property payloads into typed records.
//!
//! The policy is applied independently per field and never fails the whole
//! decode: a missing or mistyped field degrades to its default (or is left
//! absent), so that one bad field never drops a device.

use vstd::prelude::*;

use crate::record::DeviceDiff;
use crate::record::DeviceDiffView;
use crate::record::DeviceInfo;
use crate::record::DeviceInfoView;
use crate::record::view_of_text;
use crate::wire::PropertyBag;
use crate::wire::PropertyView;
use crate::wire::WireValue;
use crate::wire::WireValueView;
use crate::wire::lookup;
use crate::wire::spec_lookup;

verus! {

/// The text stored under `name`, or `None` when it is missing or of another
/// wire type.
pub open spec fn spec_text_field(props: Seq<PropertyView>, name: Seq<char>) -> Option<Seq<char>> {
    match spec_lookup(props, name) {
        Some(WireValueView::Text(s)) => Some(s),
        _ => None,
    }
}

/// The boolean stored under `name`, or `None` when it is missing or of
/// another wire type.
pub open spec fn spec_flag_field(props: Seq<PropertyView>, name: Seq<char>) -> Option<bool> {
    match spec_lookup(props, name) {
        Some(WireValueView::Flag(b)) => Some(b),
        _ => None,
    }
}

/// The unsigned integer stored under `name`, or `None` when it is missing or
/// of another wire type.
pub open spec fn spec_uint_field(props: Seq<PropertyView>, name: Seq<char>) -> Option<u32> {
    match spec_lookup(props, name) {
        Some(WireValueView::Uint(u)) => Some(u),
        _ => None,
    }
}

/// The signed integer stored under `name`, or `None` when it is missing or
/// of another wire type.
pub open spec fn spec_sint_field(props: Seq<PropertyView>, name: Seq<char>) -> Option<i16> {
    match spec_lookup(props, name) {
        Some(WireValueView::Sint(i)) => Some(i),
        _ => None,
    }
}

/// Extracts an optional text field.
fn text_field(props: &PropertyBag, name: &str) -> (r: Option<String>)
    ensures
        view_of_text(r) == spec_text_field(props@, name@),
{
    let key: String = name.to_owned();
    match lookup(props, &key) {
        Some(WireValue::Text(s)) => Some(s.clone()),
        _ => None,
    }
}

/// Extracts an optional boolean field.
fn flag_field(props: &PropertyBag, name: &str) -> (r: Option<bool>)
    ensures
        r == spec_flag_field(props@, name@),
{
    let key: String = name.to_owned();
    match lookup(props, &key) {
        Some(WireValue::Flag(b)) => Some(*b),
        _ => None,
    }
}

/// Extracts an optional unsigned integer field.
fn uint_field(props: &PropertyBag, name: &str) -> (r: Option<u32>)
    ensures
        r == spec_uint_field(props@, name@),
{
    let key: String = name.to_owned();
    match lookup(props, &key) {
        Some(WireValue::Uint(u)) => Some(*u),
        _ => None,
    }
}

/// Extracts an optional signed integer field.
fn sint_field(props: &PropertyBag, name: &str) -> (r: Option<i16>)
    ensures
        r == spec_sint_field(props@, name@),
{
    let key: String = name.to_owned();
    match lookup(props, &key) {
        Some(WireValue::Sint(i)) => Some(*i),
        _ => None,
    }
}

/// The record decoded from a full payload.
///
/// The address degrades to the empty string when missing or malformed, the
/// alias falls back to the address, the required booleans default to
/// `false`, and every extended attribute stays absent unless well formed.
pub open spec fn spec_decode_device(props: Seq<PropertyView>) -> DeviceInfoView {
    let address = match spec_text_field(props, "Address"@) {
        Some(a) => a,
        None => Seq::<char>::empty(),
    };
    DeviceInfoView {
        address: address,
        alias: match spec_text_field(props, "Alias"@) {
            Some(a) => a,
            None => address,
        },
        connected: match spec_flag_field(props, "Connected"@) {
            Some(b) => b,
            None => false,
        },
        paired: match spec_flag_field(props, "Paired"@) {
            Some(b) => b,
            None => false,
        },
        address_type: spec_text_field(props, "AddressType"@),
        connectable: spec_flag_field(props, "Connectable"@),
        discoverable: spec_flag_field(props, "Discoverable"@),
        discoverable_timeout: spec_uint_field(props, "DiscoverableTimeout"@),
        discovering: spec_flag_field(props, "Discovering"@),
        name: spec_text_field(props, "Name"@),
        pairable: spec_flag_field(props, "Pairable"@),
        pairable_timeout: spec_uint_field(props, "PairableTimeout"@),
        power_state: spec_text_field(props, "PowerState"@),
        powered: spec_flag_field(props, "Powered"@),
        trusted: spec_flag_field(props, "Trusted"@),
        rssi: spec_sint_field(props, "RSSI"@),
    }
}

/// Decodes a full payload into a record.
///
/// Decoding never fails: every missing or mistyped field degrades per the
/// field policy, so a malformed payload still produces a (degraded) record.
pub fn decode_device(props: &PropertyBag) -> (r: DeviceInfo)
    ensures
        r@ == spec_decode_device(props@),
{
    let address: String = match text_field(props, "Address") {
        Some(a) => a,
        None => String::new(),
    };
    let alias: String = match text_field(props, "Alias") {
        Some(a) => a,
        None => address.clone(),
    };
    DeviceInfo {
        address,
        alias,
        connected: flag_field(props, "Connected").unwrap_or(false),
        paired: flag_field(props, "Paired").unwrap_or(false),
        address_type: text_field(props, "AddressType"),
        connectable: flag_field(props, "Connectable"),
        discoverable: flag_field(props, "Discoverable"),
        discoverable_timeout: uint_field(props, "DiscoverableTimeout"),
        discovering: flag_field(props, "Discovering"),
        name: text_field(props, "Name"),
        pairable: flag_field(props, "Pairable"),
        pairable_timeout: uint_field(props, "PairableTimeout"),
        power_state: text_field(props, "PowerState"),
        powered: flag_field(props, "Powered"),
        trusted: flag_field(props, "Trusted"),
        rssi: sint_field(props, "RSSI"),
    }
}

/// The diff decoded from a property-changed payload: only fields that are
/// present and well formed enter the diff, so a merge touches nothing else.
pub open spec fn spec_decode_diff(props: Seq<PropertyView>) -> DeviceDiffView {
    DeviceDiffView {
        alias: spec_text_field(props, "Alias"@),
        connected: spec_flag_field(props, "Connected"@),
        paired: spec_flag_field(props, "Paired"@),
    }
}

/// Decodes a property-changed payload into a partial update.
pub fn decode_diff(props: &PropertyBag) -> (r: DeviceDiff)
    ensures
        r@ == spec_decode_diff(props@),
{
    DeviceDiff {
        alias: text_field(props, "Alias"),
        connected: flag_field(props, "Connected"),
        paired: flag_field(props, "Paired"),
    }
}

/// When a payload carries no well-formed alias, the decoded record's alias
/// falls back to its (possibly degraded) address.
pub proof fn lemma_alias_falls_back(props: Seq<PropertyView>)
    requires
        spec_text_field(props, "Alias"@) is None,
    ensures
        spec_decode_device(props).alias == spec_decode_device(props).address,
{
}

} // verus!
