//! The last-known state of one remote device, and partial updates to it.

use vstd::prelude::*;

verus! {

/// The last-known state of one remote device.
///
/// `address` and `alias` may be degraded (empty, or falling back to the
/// address) when the payload they were decoded from was malformed; the
/// extended attributes are `None` when the source has not reported them,
/// which means "unknown", not "false".
#[derive(Debug, PartialEq)]
pub struct DeviceInfo {
    pub address: String,
    pub alias: String,
    pub connected: bool,
    pub paired: bool,
    pub address_type: Option<String>,
    pub connectable: Option<bool>,
    pub discoverable: Option<bool>,
    pub discoverable_timeout: Option<u32>,
    pub discovering: Option<bool>,
    pub name: Option<String>,
    pub pairable: Option<bool>,
    pub pairable_timeout: Option<u32>,
    pub power_state: Option<String>,
    pub powered: Option<bool>,
    pub trusted: Option<bool>,
    pub rssi: Option<i16>,
}

/// Mathematical model of a [`DeviceInfo`].
pub struct DeviceInfoView {
    pub address: Seq<char>,
    pub alias: Seq<char>,
    pub connected: bool,
    pub paired: bool,
    pub address_type: Option<Seq<char>>,
    pub connectable: Option<bool>,
    pub discoverable: Option<bool>,
    pub discoverable_timeout: Option<u32>,
    pub discovering: Option<bool>,
    pub name: Option<Seq<char>>,
    pub pairable: Option<bool>,
    pub pairable_timeout: Option<u32>,
    pub power_state: Option<Seq<char>>,
    pub powered: Option<bool>,
    pub trusted: Option<bool>,
    pub rssi: Option<i16>,
}

/// The model of an optional text field.
pub open spec fn view_of_text(o: Option<String>) -> Option<Seq<char>> {
    match o {
        Some(s) => Some(s@),
        None => None,
    }
}

impl View for DeviceInfo {
    type V = DeviceInfoView;

    open spec fn view(&self) -> DeviceInfoView {
        DeviceInfoView {
            address: self.address@,
            alias: self.alias@,
            connected: self.connected,
            paired: self.paired,
            address_type: view_of_text(self.address_type),
            connectable: self.connectable,
            discoverable: self.discoverable,
            discoverable_timeout: self.discoverable_timeout,
            discovering: self.discovering,
            name: view_of_text(self.name),
            pairable: self.pairable,
            pairable_timeout: self.pairable_timeout,
            power_state: view_of_text(self.power_state),
            powered: self.powered,
            trusted: self.trusted,
            rssi: self.rssi,
        }
    }
}

/// Copies an optional text field.
fn clone_text(o: &Option<String>) -> (r: Option<String>)
    ensures
        r == *o,
{
    match o {
        Some(s) => Some(s.clone()),
        None => None,
    }
}

impl Clone for DeviceInfo {
    fn clone(&self) -> (r: Self)
        ensures
            r == *self,
    {
        DeviceInfo {
            address: self.address.clone(),
            alias: self.alias.clone(),
            connected: self.connected,
            paired: self.paired,
            address_type: clone_text(&self.address_type),
            connectable: self.connectable,
            discoverable: self.discoverable,
            discoverable_timeout: self.discoverable_timeout,
            discovering: self.discovering,
            name: clone_text(&self.name),
            pairable: self.pairable,
            pairable_timeout: self.pairable_timeout,
            power_state: clone_text(&self.power_state),
            powered: self.powered,
            trusted: self.trusted,
            rssi: self.rssi,
        }
    }
}

/// A partial update decoded from a property-changed event: each field is
/// present only when the event carried a well-formed value for it.
#[derive(Debug, PartialEq)]
pub struct DeviceDiff {
    pub alias: Option<String>,
    pub connected: Option<bool>,
    pub paired: Option<bool>,
}

/// Mathematical model of a [`DeviceDiff`].
pub struct DeviceDiffView {
    pub alias: Option<Seq<char>>,
    pub connected: Option<bool>,
    pub paired: Option<bool>,
}

impl View for DeviceDiff {
    type V = DeviceDiffView;

    open spec fn view(&self) -> DeviceDiffView {
        DeviceDiffView {
            alias: view_of_text(self.alias),
            connected: self.connected,
            paired: self.paired,
        }
    }
}

impl Clone for DeviceDiff {
    fn clone(&self) -> (r: Self)
        ensures
            r == *self,
    {
        DeviceDiff {
            alias: clone_text(&self.alias),
            connected: self.connected,
            paired: self.paired,
        }
    }
}

impl DeviceDiffView {
    /// A diff that names no field at all.
    pub open spec fn is_empty(self) -> bool {
        self.alias is None && self.connected is None && self.paired is None
    }
}

impl DeviceDiff {
    /// Whether the diff names no field at all.
    pub fn is_empty(&self) -> (r: bool)
        ensures
            r == self@.is_empty(),
    {
        self.alias.is_none() && self.connected.is_none() && self.paired.is_none()
    }
}

/// The record that results from applying `diff` to `rec`: each field present
/// in the diff takes the diff's value, every other field of `rec` is
/// untouched.
pub open spec fn spec_merge(rec: DeviceInfoView, diff: DeviceDiffView) -> DeviceInfoView {
    DeviceInfoView {
        alias: match diff.alias {
            Some(a) => a,
            None => rec.alias,
        },
        connected: match diff.connected {
            Some(c) => c,
            None => rec.connected,
        },
        paired: match diff.paired {
            Some(p) => p,
            None => rec.paired,
        },
        ..rec
    }
}

impl DeviceInfo {
    /// Returns this record with `diff` applied: fields present in the diff
    /// take the diff's value, all other fields are untouched.
    pub fn merged_with(&self, diff: &DeviceDiff) -> (r: DeviceInfo)
        ensures
            r@ == spec_merge(self@, diff@),
    {
        let mut r = self.clone();
        match &diff.alias {
            Some(a) => {
                r.alias = a.clone();
            },
            None => {},
        }
        match diff.connected {
            Some(c) => {
                r.connected = c;
            },
            None => {},
        }
        match diff.paired {
            Some(p) => {
                r.paired = p;
            },
            None => {},
        }
        r
    }
}

/// Fields absent from a diff never change under a merge, and fields present
/// in it are adopted exactly: the merged record keeps `rec`'s alias,
/// connected and paired values wherever the diff leaves them out, keeps every
/// extended attribute and the address unconditionally, and takes the diff's
/// values wherever they are present.
pub proof fn lemma_merge_is_partial(rec: DeviceInfoView, diff: DeviceDiffView)
    ensures
        diff.alias is None ==> spec_merge(rec, diff).alias == rec.alias,
        diff.connected is None ==> spec_merge(rec, diff).connected == rec.connected,
        diff.paired is None ==> spec_merge(rec, diff).paired == rec.paired,
        diff.alias is Some ==> spec_merge(rec, diff).alias == diff.alias->0,
        diff.connected is Some ==> spec_merge(rec, diff).connected == diff.connected->0,
        diff.paired is Some ==> spec_merge(rec, diff).paired == diff.paired->0,
        spec_merge(rec, diff).address == rec.address,
        spec_merge(rec, diff).address_type == rec.address_type,
        spec_merge(rec, diff).connectable == rec.connectable,
        spec_merge(rec, diff).discoverable == rec.discoverable,
        spec_merge(rec, diff).discoverable_timeout == rec.discoverable_timeout,
        spec_merge(rec, diff).discovering == rec.discovering,
        spec_merge(rec, diff).name == rec.name,
        spec_merge(rec, diff).pairable == rec.pairable,
        spec_merge(rec, diff).pairable_timeout == rec.pairable_timeout,
        spec_merge(rec, diff).power_state == rec.power_state,
        spec_merge(rec, diff).powered == rec.powered,
        spec_merge(rec, diff).trusted == rec.trusted,
        spec_merge(rec, diff).rssi == rec.rssi,
{
}

} // verus!
