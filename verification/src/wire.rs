//! Untyped wire values, as they arrive from the event bus.
//!
//! A property payload is a list of named values whose wire types are not
//! trusted: a value may be missing, of an unexpected type, or well formed.
//! The decoder is solely responsible for tolerating this.

use vstd::prelude::*;

verus! {

/// One untyped value from a property payload.
///
/// Only the wire types that the device schema reads are distinguished; every
/// other wire type is `Unsupported` and is treated as malformed by the
/// decoder.
pub enum WireValue {
    Text(String),
    Flag(bool),
    Uint(u32),
    Sint(i16),
    Unsupported,
}

/// Mathematical model of a [`WireValue`].
pub enum WireValueView {
    Text(Seq<char>),
    Flag(bool),
    Uint(u32),
    Sint(i16),
    Unsupported,
}

impl View for WireValue {
    type V = WireValueView;

    open spec fn view(&self) -> WireValueView {
        match self {
            WireValue::Text(s) => WireValueView::Text(s@),
            WireValue::Flag(b) => WireValueView::Flag(*b),
            WireValue::Uint(u) => WireValueView::Uint(*u),
            WireValue::Sint(i) => WireValueView::Sint(*i),
            WireValue::Unsupported => WireValueView::Unsupported,
        }
    }
}

impl Clone for WireValue {
    fn clone(&self) -> (r: Self)
        ensures
            r == *self,
    {
        match self {
            WireValue::Text(s) => WireValue::Text(s.clone()),
            WireValue::Flag(b) => WireValue::Flag(*b),
            WireValue::Uint(u) => WireValue::Uint(*u),
            WireValue::Sint(i) => WireValue::Sint(*i),
            WireValue::Unsupported => WireValue::Unsupported,
        }
    }
}

/// One named entry of a property payload.
pub struct Property {
    pub name: String,
    pub value: WireValue,
}

/// Mathematical model of a [`Property`].
pub struct PropertyView {
    pub name: Seq<char>,
    pub value: WireValueView,
}

impl View for Property {
    type V = PropertyView;

    open spec fn view(&self) -> PropertyView {
        PropertyView { name: self.name@, value: self.value@ }
    }
}

impl Clone for Property {
    fn clone(&self) -> (r: Self)
        ensures
            r == *self,
    {
        Property { name: self.name.clone(), value: self.value.clone() }
    }
}

/// An untyped property payload: the raw name-to-value mapping carried by an
/// add event, a bulk-enumeration entry, or a property-changed diff.
pub struct PropertyBag {
    pub entries: Vec<Property>,
}

impl View for PropertyBag {
    type V = Seq<PropertyView>;

    open spec fn view(&self) -> Seq<PropertyView> {
        Seq::new(self.entries@.len(), |i: int| self.entries@[i]@)
    }
}

impl Clone for PropertyBag {
    fn clone(&self) -> (r: Self)
        ensures
            r@ == self@,
    {
        let mut entries: Vec<Property> = Vec::new();
        let mut i: usize = 0;
        while i < self.entries.len()
            invariant
                i <= self.entries.len(),
                entries@.len() == i as nat,
                forall|j: int| 0 <= j < i ==> entries@[j] == self.entries@[j],
            decreases self.entries.len() - i,
        {
            entries.push(self.entries[i].clone());
            i = i + 1;
        }
        let r = PropertyBag { entries };
        proof {
            assert(r@ =~= self@);
        }
        r
    }
}

impl PropertyBag {
    /// An empty payload.
    pub fn new() -> (r: Self)
        ensures
            r@ == Seq::<PropertyView>::empty(),
    {
        let r = PropertyBag { entries: Vec::new() };
        proof {
            assert(r@ =~= Seq::<PropertyView>::empty());
        }
        r
    }

    /// Appends a named value to the payload.
    pub fn push(&mut self, name: String, value: WireValue)
        ensures
            final(self)@ == old(self)@.push(PropertyView { name: name@, value: value@ }),
    {
        let ghost entry_view = PropertyView { name: name@, value: value@ };
        self.entries.push(Property { name, value });
        proof {
            assert(final(self)@ =~= old(self)@.push(entry_view));
        }
    }
}

/// The value stored under `name`, taking the first entry with that name, or
/// `None` when no entry carries it.
pub open spec fn spec_lookup(props: Seq<PropertyView>, name: Seq<char>) -> Option<WireValueView>
    decreases props.len(),
{
    if props.len() == 0 {
        None
    } else if props[0].name == name {
        Some(props[0].value)
    } else {
        spec_lookup(props.drop_first(), name)
    }
}

/// Finds the value stored under `name` in a payload.
pub fn lookup<'a>(props: &'a PropertyBag, name: &String) -> (r: Option<&'a WireValue>)
    ensures
        (match r {
            Some(v) => Some(v@),
            None => None,
        }) == spec_lookup(props@, name@),
{
    proof {
        assert(props@.skip(0) =~= props@);
    }
    let mut i: usize = 0;
    while i < props.entries.len()
        invariant
            i <= props.entries.len(),
            spec_lookup(props@, name@) == spec_lookup(props@.skip(i as int), name@),
        decreases props.entries.len() - i,
    {
        let matches_name = props.entries[i].name == *name;
        proof {
            assert(props@.skip(i as int)[0] == props@[i as int]);
        }
        if matches_name {
            return Some(&props.entries[i].value);
        }
        proof {
            assert(props@.skip(i as int).drop_first() =~= props@.skip(i as int + 1));
        }
        i = i + 1;
    }
    proof {
        assert(props@.skip(i as int).len() == 0);
    }
    None
}

} // verus!
