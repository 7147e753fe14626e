//! Bulk enumeration: extracting device entries from a managed-object tree.
//!
//! A bulk snapshot arrives as a list of objects, each carrying its bus path
//! and its interfaces with their property payloads. Only objects under the
//! adapter's device subtree that expose the device interface are devices;
//! each of those yields one entry, and a malformed payload never drops the
//! entries that follow it.

use vstd::prelude::*;
use vstd::string::StrSliceExecFns;
use vstd::string::StringExecFns;

use crate::decode::spec_decode_device;
use crate::decode::decode_device;
use crate::record::DeviceInfo;
use crate::wire::PropertyBag;
use crate::wire::PropertyView;

verus! {

/// The interface under which the event bus announces device properties.
pub open spec fn spec_device_interface() -> Seq<char> {
    "org.bluez.Device1"@
}

/// Whether `name` is the device interface.
pub fn is_device_interface(name: &String) -> (r: bool)
    ensures
        r == (name@ == spec_device_interface()),
{
    let lit: String = ("org.bluez.Device1").to_owned();
    *name == lit
}

/// `p` stands at the beginning of `s`.
pub open spec fn is_text_prefix(p: Seq<char>, s: Seq<char>) -> bool {
    p.len() <= s.len() && s.subrange(0, p.len() as int) == p
}

/// Whether `s` starts with `p`.
fn has_prefix(s: &str, p: &str) -> (r: bool)
    ensures
        r == is_text_prefix(p@, s@),
{
    let sn = s.unicode_len();
    let pn = p.unicode_len();
    if sn < pn {
        return false;
    }
    let mut i: usize = 0;
    while i < pn
        invariant
            i <= pn,
            pn == p@.len(),
            sn == s@.len(),
            pn <= sn,
            forall|j: int| 0 <= j < i ==> s@[j] == p@[j],
        decreases pn - i,
    {
        let cs = s.get_char(i);
        let cp = p.get_char(i);
        if cs != cp {
            proof {
                assert(s@.subrange(0, p@.len() as int)[i as int] == s@[i as int]);
            }
            return false;
        }
        i = i + 1;
    }
    proof {
        assert(s@.subrange(0, p@.len() as int) =~= p@);
    }
    true
}

/// One interface of a managed object: its name and its property payload.
pub struct InterfaceEntry {
    pub name: String,
    pub props: PropertyBag,
}

/// Mathematical model of an [`InterfaceEntry`].
pub struct InterfaceEntryView {
    pub name: Seq<char>,
    pub props: Seq<PropertyView>,
}

impl View for InterfaceEntry {
    type V = InterfaceEntryView;

    open spec fn view(&self) -> InterfaceEntryView {
        InterfaceEntryView { name: self.name@, props: self.props@ }
    }
}

/// One object of a bulk snapshot: its bus path and its interfaces.
pub struct ManagedObject {
    pub path: String,
    pub interfaces: Vec<InterfaceEntry>,
}

/// Mathematical model of a [`ManagedObject`].
pub struct ManagedObjectView {
    pub path: Seq<char>,
    pub interfaces: Seq<InterfaceEntryView>,
}

impl View for ManagedObject {
    type V = ManagedObjectView;

    open spec fn view(&self) -> ManagedObjectView {
        ManagedObjectView {
            path: self.path@,
            interfaces: Seq::new(self.interfaces@.len(), |i: int| self.interfaces@[i]@),
        }
    }
}

/// One device found in a snapshot: its registry key (the bus path) and the
/// property payload to decode.
pub struct DeviceEntry {
    pub key: String,
    pub props: PropertyBag,
}

/// Mathematical model of a [`DeviceEntry`].
pub struct DeviceEntryView {
    pub key: Seq<char>,
    pub props: Seq<PropertyView>,
}

impl View for DeviceEntry {
    type V = DeviceEntryView;

    open spec fn view(&self) -> DeviceEntryView {
        DeviceEntryView { key: self.key@, props: self.props@ }
    }
}

/// The models of a vector of device entries.
pub open spec fn view_of_entries(s: Seq<DeviceEntry>) -> Seq<DeviceEntryView> {
    Seq::new(s.len(), |i: int| s[i]@)
}

/// The models of a vector of managed objects.
pub open spec fn view_of_objects(s: Seq<ManagedObject>) -> Seq<ManagedObjectView> {
    Seq::new(s.len(), |i: int| s[i]@)
}

/// The payload of the first interface named `name`, or `None`.
pub open spec fn spec_interface_lookup(
    ifaces: Seq<InterfaceEntryView>,
    name: Seq<char>,
) -> Option<Seq<PropertyView>>
    decreases ifaces.len(),
{
    if ifaces.len() == 0 {
        None
    } else if ifaces[0].name == name {
        Some(ifaces[0].props)
    } else {
        spec_interface_lookup(ifaces.drop_first(), name)
    }
}

/// Finds the payload of the interface named `name` on one object.
fn interface_lookup<'a>(ifaces: &'a Vec<InterfaceEntry>, name: &String) -> (r: Option<
    &'a PropertyBag,
>)
    ensures
        (match r {
            Some(props) => Some(props@),
            None => None,
        }) == spec_interface_lookup(
            Seq::new(ifaces@.len(), |i: int| ifaces@[i]@),
            name@,
        ),
{
    let ghost vs = Seq::new(ifaces@.len(), |i: int| ifaces@[i]@);
    proof {
        assert(vs.skip(0) =~= vs);
    }
    let mut i: usize = 0;
    while i < ifaces.len()
        invariant
            i <= ifaces.len(),
            vs == Seq::new(ifaces@.len(), |k: int| ifaces@[k]@),
            spec_interface_lookup(vs, name@) == spec_interface_lookup(vs.skip(i as int), name@),
        decreases ifaces.len() - i,
    {
        let matches_name = ifaces[i].name == *name;
        proof {
            assert(vs.skip(i as int)[0] == vs[i as int]);
        }
        if matches_name {
            return Some(&ifaces[i].props);
        }
        proof {
            assert(vs.skip(i as int).drop_first() =~= vs.skip(i as int + 1));
        }
        i = i + 1;
    }
    proof {
        assert(vs.skip(i as int).len() == 0);
    }
    None
}

/// The device entries of a snapshot: one per object under the adapter's
/// device subtree that exposes the device interface, in snapshot order.
pub open spec fn spec_collect(
    objs: Seq<ManagedObjectView>,
    adapter_path: Seq<char>,
) -> Seq<DeviceEntryView>
    decreases objs.len(),
{
    if objs.len() == 0 {
        Seq::empty()
    } else {
        let rest = spec_collect(objs.drop_last(), adapter_path);
        let o = objs.last();
        if is_text_prefix(adapter_path + "/dev"@, o.path) {
            match spec_interface_lookup(o.interfaces, spec_device_interface()) {
                Some(props) => rest.push(DeviceEntryView { key: o.path, props }),
                None => rest,
            }
        } else {
            rest
        }
    }
}

/// Extracts the device entries from a bulk snapshot: the objects whose path
/// lies under `<adapter_path>/dev` and which expose the device interface.
pub fn collect_device_entries(objects: &Vec<ManagedObject>, adapter_path: &String) -> (r: Vec<
    DeviceEntry,
>)
    ensures
        view_of_entries(r@) == spec_collect(view_of_objects(objects@), adapter_path@),
{
    let ghost ovs = view_of_objects(objects@);
    let mut prefix: String = adapter_path.clone();
    prefix.append("/dev");
    let iface_name: String = ("org.bluez.Device1").to_owned();
    let mut r: Vec<DeviceEntry> = Vec::new();
    proof {
        assert(ovs.take(0) =~= Seq::<ManagedObjectView>::empty());
        assert(view_of_entries(r@) =~= spec_collect(ovs.take(0), adapter_path@));
    }
    let mut i: usize = 0;
    while i < objects.len()
        invariant
            i <= objects.len(),
            ovs == view_of_objects(objects@),
            prefix@ == adapter_path@ + "/dev"@,
            iface_name@ == spec_device_interface(),
            view_of_entries(r@) == spec_collect(ovs.take(i as int), adapter_path@),
        decreases objects.len() - i,
    {
        let ghost r_before = view_of_entries(r@);
        proof {
            assert(ovs.take(i as int + 1).drop_last() =~= ovs.take(i as int));
            assert(ovs.take(i as int + 1).last() == ovs[i as int]);
        }
        if has_prefix(objects[i].path.as_str(), prefix.as_str()) {
            match interface_lookup(&objects[i].interfaces, &iface_name) {
                Some(bag) => {
                    let entry = DeviceEntry { key: objects[i].path.clone(), props: bag.clone() };
                    let ghost ev = entry@;
                    r.push(entry);
                    proof {
                        assert(view_of_entries(r@) =~= r_before.push(ev));
                        assert(view_of_entries(r@) =~= spec_collect(
                            ovs.take(i as int + 1),
                            adapter_path@,
                        ));
                    }
                },
                None => {
                    proof {
                        assert(view_of_entries(r@) =~= spec_collect(
                            ovs.take(i as int + 1),
                            adapter_path@,
                        ));
                    }
                },
            }
        } else {
            proof {
                assert(view_of_entries(r@) =~= spec_collect(ovs.take(i as int + 1), adapter_path@));
            }
        }
        i = i + 1;
    }
    proof {
        assert(ovs.take(i as int) =~= ovs);
    }
    r
}

/// Decodes every entry of a snapshot, in order; a malformed payload yields a
/// degraded record and never aborts the entries after it.
pub fn decode_all(entries: &Vec<DeviceEntry>) -> (r: Vec<DeviceInfo>)
    ensures
        r@.len() == entries@.len(),
        forall|i: int|
            0 <= i < entries@.len() ==> r@[i]@ == spec_decode_device(entries@[i].props@),
{
    let mut r: Vec<DeviceInfo> = Vec::new();
    let mut i: usize = 0;
    while i < entries.len()
        invariant
            i <= entries.len(),
            r@.len() == i as nat,
            forall|j: int| 0 <= j < i ==> r@[j]@ == spec_decode_device(entries@[j].props@),
        decreases entries.len() - i,
    {
        r.push(decode_device(&entries[i].props));
        i = i + 1;
    }
    r
}

} // verus!
