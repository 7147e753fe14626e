//! The synchronization engine: one state machine from bus events to
//! registry mutations, watch-task decisions and published change events.
//!
//! The owning application runs the event loops: it waits on the add, remove
//! and per-device property streams, hands each event to the matching
//! handler, and performs the returned watch decision (spawn or tear down a
//! watch task). The handlers themselves never block: each one is a single
//! exclusive mutation whose effect on the whole engine state is pinned by
//! one transition function.

use vstd::prelude::*;

use crate::decode::spec_decode_device;
use crate::decode::spec_decode_diff;
use crate::decode::decode_device;
use crate::decode::decode_diff;
use crate::notify::ChangeEvent;
use crate::notify::ChangeEventView;
use crate::notify::ChangeNotifier;
use crate::notify::spec_publish;
use crate::record::DeviceInfo;
use crate::record::DeviceInfoView;
use crate::record::spec_merge;
use crate::registry::Registry;
use crate::snapshot::DeviceEntry;
use crate::snapshot::DeviceEntryView;
use crate::snapshot::is_device_interface;
use crate::snapshot::spec_device_interface;
use crate::snapshot::view_of_entries;
use crate::subscription::SubscriptionManager;
use crate::subscription::WatchState;
use crate::wire::PropertyBag;
use crate::wire::PropertyView;

verus! {

/// The whole engine state as one mathematical value: the registry contents,
/// the watch table and the subscriber queues.
#[verifier::ext_equal]
pub struct EngineModel {
    pub registry: Map<Seq<char>, DeviceInfoView>,
    pub watches: Map<Seq<char>, WatchState>,
    pub channels: Seq<(Seq<ChangeEventView>, nat)>,
}

/// The engine after a device add (or bulk-enumeration) payload for `key`:
/// the decoded record replaces whatever was stored, subscribers with room
/// receive `Added` for a new key and `Updated` for a replaced one, and a
/// watch is established unless the key was ever watched before.
pub open spec fn spec_add_device(
    m: EngineModel,
    key: Seq<char>,
    props: Seq<PropertyView>,
) -> EngineModel {
    let rec = spec_decode_device(props);
    let event = if m.registry.contains_key(key) {
        ChangeEventView::Updated(rec)
    } else {
        ChangeEventView::Added(rec)
    };
    EngineModel {
        registry: m.registry.insert(key, rec),
        watches: if m.watches.contains_key(key) {
            m.watches
        } else {
            m.watches.insert(key, WatchState::Watching)
        },
        channels: spec_publish(m.channels, event),
    }
}

/// The engine after an add event: an event for any interface other than the
/// device interface changes nothing.
pub open spec fn spec_step_added(
    m: EngineModel,
    key: Seq<char>,
    interface: Seq<char>,
    props: Seq<PropertyView>,
) -> EngineModel {
    if interface == spec_device_interface() {
        spec_add_device(m, key, props)
    } else {
        m
    }
}

/// The engine after a remove event for `key`: the watch is cancelled even
/// when the remove races ahead of watch establishment; the record, if any,
/// leaves the registry and subscribers with room receive `Removed` carrying
/// it; a remove for an unknown key mutates no registry state and publishes
/// nothing.
pub open spec fn spec_step_removed(m: EngineModel, key: Seq<char>) -> EngineModel {
    let watches = m.watches.insert(key, WatchState::Cancelled);
    if m.registry.contains_key(key) {
        EngineModel {
            registry: m.registry.remove(key),
            watches,
            channels: spec_publish(m.channels, ChangeEventView::Removed(m.registry[key])),
        }
    } else {
        EngineModel { registry: m.registry, watches, channels: m.channels }
    }
}

/// The engine after a property-changed event for `key`: when the event is
/// for the device interface, the key is present and the decoded diff names
/// at least one field, the stored record is merged field-wise and
/// subscribers with room receive `Updated` carrying the merged record;
/// otherwise — in particular for a key already removed — nothing changes
/// and no record is ever synthesized.
pub open spec fn spec_step_changed(
    m: EngineModel,
    key: Seq<char>,
    interface: Seq<char>,
    props: Seq<PropertyView>,
) -> EngineModel {
    let diff = spec_decode_diff(props);
    if interface == spec_device_interface() && m.registry.contains_key(key) && !diff.is_empty() {
        let merged = spec_merge(m.registry[key], diff);
        EngineModel {
            registry: m.registry.insert(key, merged),
            watches: m.watches,
            channels: spec_publish(m.channels, ChangeEventView::Updated(merged)),
        }
    } else {
        m
    }
}

/// The engine after a bulk snapshot, entry by entry in snapshot order,
/// together with the keys whose watch the snapshot established.
pub open spec fn spec_sync(m: EngineModel, entries: Seq<DeviceEntryView>) -> (
    EngineModel,
    Seq<Seq<char>>,
)
    decreases entries.len(),
{
    if entries.len() == 0 {
        (m, Seq::empty())
    } else {
        let prev = spec_sync(m, entries.drop_last());
        let e = entries.last();
        let started = if prev.0.watches.contains_key(e.key) {
            prev.1
        } else {
            prev.1.push(e.key)
        };
        (spec_add_device(prev.0, e.key, e.props), started)
    }
}

/// The synchronization engine: the registry, the per-key watch table and
/// the change-event fan-out, mutated together by each bus event.
pub struct Engine {
    registry: Registry,
    subscriptions: SubscriptionManager,
    notifier: ChangeNotifier,
}

impl Engine {
    /// The components' internal invariants.
    pub closed spec fn wf(&self) -> bool {
        self.registry.wf() && self.subscriptions.wf()
    }

    /// The engine state as one mathematical value.
    pub closed spec fn model(&self) -> EngineModel {
        EngineModel {
            registry: self.registry@,
            watches: self.subscriptions@,
            channels: self.notifier@,
        }
    }

    /// An engine with an empty registry, nothing watched and no
    /// subscribers.
    pub fn new() -> (r: Engine)
        ensures
            r.wf(),
            r.model() == (EngineModel {
                registry: Map::empty(),
                watches: Map::empty(),
                channels: Seq::empty(),
            }),
    {
        Engine {
            registry: Registry::new(),
            subscriptions: SubscriptionManager::new(),
            notifier: ChangeNotifier::new(),
        }
    }

    /// Applies one device payload for `key`: upsert, publish, establish.
    fn apply_add(&mut self, key: &String, props: &PropertyBag) -> (start_watch: bool)
        requires
            old(self).wf(),
        ensures
            final(self).wf(),
            final(self).model() == spec_add_device(old(self).model(), key@, props@),
            start_watch == !old(self).model().watches.contains_key(key@),
    {
        let record = decode_device(props);
        let event = match self.registry.upsert(key, record.clone()) {
            Some(_) => ChangeEvent::Updated(record),
            None => ChangeEvent::Added(record),
        };
        self.notifier.publish(&event);
        let started = self.subscriptions.establish(key);
        proof {
            assert(final(self).model() =~= spec_add_device(old(self).model(), key@, props@));
        }
        started
    }

    /// Handles an object-added event.
    ///
    /// For the device interface, the payload is decoded (degrading, never
    /// failing), the record is stored whole, and subscribers are told
    /// `Added` — or `Updated` when the key was already stored, so a
    /// duplicate add leaves exactly one record. Returns whether the caller
    /// must start a property-watch task for `key`.
    pub fn handle_added(
        &mut self,
        key: &String,
        interface: &String,
        props: &PropertyBag,
    ) -> (start_watch: bool)
        requires
            old(self).wf(),
        ensures
            final(self).wf(),
            final(self).model() == spec_step_added(old(self).model(), key@, interface@, props@),
            start_watch == (interface@ == spec_device_interface() && !old(self).model()
                .watches
                .contains_key(key@)),
    {
        if !is_device_interface(interface) {
            return false;
        }
        self.apply_add(key, props)
    }

    /// Handles an object-removed event.
    ///
    /// The watch for `key` is cancelled first — also when the remove races
    /// ahead of watch establishment — then the record, if present, is
    /// removed and subscribers are told `Removed`; for an unknown key the
    /// registry is left untouched and nothing is published. Returns whether
    /// the caller must tear down a running watch task for `key`.
    pub fn handle_removed(&mut self, key: &String) -> (was_watching: bool)
        requires
            old(self).wf(),
        ensures
            final(self).wf(),
            final(self).model() == spec_step_removed(old(self).model(), key@),
            was_watching == (old(self).model().watches.contains_key(key@)
                && old(self).model().watches[key@] == WatchState::Watching),
    {
        let was_watching = self.subscriptions.cancel(key);
        match self.registry.remove(key) {
            Some(record) => {
                let event = ChangeEvent::Removed(record);
                self.notifier.publish(&event);
            },
            None => {},
        }
        proof {
            assert(final(self).model() =~= spec_step_removed(old(self).model(), key@));
        }
        was_watching
    }

    /// Handles a property-changed event for `key`.
    ///
    /// Only the fields present and well formed in the payload are applied
    /// to the stored record; for an unknown key — in particular one just
    /// removed by a racing remove event — nothing happens and no record is
    /// created. Subscribers are told `Updated` exactly when the store
    /// changed. Returns whether a merge took place.
    pub fn handle_property_changed(
        &mut self,
        key: &String,
        interface: &String,
        props: &PropertyBag,
    ) -> (updated: bool)
        requires
            old(self).wf(),
        ensures
            final(self).wf(),
            final(self).model() == spec_step_changed(old(self).model(), key@, interface@, props@),
            updated == (interface@ == spec_device_interface() && old(self).model()
                .registry
                .contains_key(key@) && !spec_decode_diff(props@).is_empty()),
    {
        if !is_device_interface(interface) {
            return false;
        }
        let diff = decode_diff(props);
        if diff.is_empty() {
            return false;
        }
        match self.registry.merge_update(key, &diff) {
            Some(merged) => {
                let event = ChangeEvent::Updated(merged);
                self.notifier.publish(&event);
                proof {
                    assert(final(self).model() =~= spec_step_changed(
                        old(self).model(),
                        key@,
                        interface@,
                        props@,
                    ));
                }
                true
            },
            None => false,
        }
    }

    /// Applies a bulk snapshot, entry by entry in snapshot order: each
    /// entry is stored like an add event. Returns the keys for which the
    /// caller must start a property-watch task.
    pub fn handle_snapshot(&mut self, entries: &Vec<DeviceEntry>) -> (to_watch: Vec<String>)
        requires
            old(self).wf(),
        ensures
            final(self).wf(),
            final(self).model() == spec_sync(
                old(self).model(),
                view_of_entries(entries@),
            ).0,
            Seq::new(to_watch@.len(), |i: int| to_watch@[i]@) == spec_sync(
                old(self).model(),
                view_of_entries(entries@),
            ).1,
    {
        let ghost evs = view_of_entries(entries@);
        let ghost m0 = self.model();
        let mut to_watch: Vec<String> = Vec::new();
        proof {
            assert(evs.take(0) =~= Seq::<DeviceEntryView>::empty());
            assert(Seq::new(to_watch@.len(), |i: int| to_watch@[i]@) =~= spec_sync(
                m0,
                evs.take(0),
            ).1);
        }
        let mut i: usize = 0;
        while i < entries.len()
            invariant
                i <= entries.len(),
                self.wf(),
                evs == view_of_entries(entries@),
                m0 == old(self).model(),
                self.model() == spec_sync(m0, evs.take(i as int)).0,
                Seq::new(to_watch@.len(), |k: int| to_watch@[k]@) == spec_sync(
                    m0,
                    evs.take(i as int),
                ).1,
            decreases entries.len() - i,
        {
            proof {
                assert(evs.take(i as int + 1).drop_last() =~= evs.take(i as int));
                assert(evs.take(i as int + 1).last() == evs[i as int]);
            }
            let ghost keys_before = Seq::new(to_watch@.len(), |k: int| to_watch@[k]@);
            let started = self.apply_add(&entries[i].key, &entries[i].props);
            if started {
                let ghost key_view = entries@[i as int].key@;
                to_watch.push(entries[i].key.clone());
                proof {
                    assert(Seq::new(to_watch@.len(), |k: int| to_watch@[k]@) =~= keys_before.push(
                        key_view,
                    ));
                }
            }
            i = i + 1;
        }
        proof {
            assert(evs.take(i as int) =~= evs);
        }
        to_watch
    }

    /// Read access to the registry, for queries (`get`, `list`).
    pub fn registry(&self) -> (r: &Registry)
        ensures
            r@ == self.model().registry,
            self.wf() ==> r.wf(),
    {
        &self.registry
    }

    /// The tracked watch state of `key`: `None` when the key has never been
    /// watched.
    pub fn watch_state(&self, key: &String) -> (r: Option<WatchState>)
        requires
            self.wf(),
        ensures
            self.model().watches.contains_key(key@) ==> r == Some(self.model().watches[key@]),
            !self.model().watches.contains_key(key@) ==> r is None,
    {
        self.subscriptions.state(key)
    }

    /// Registers a subscriber with a queue of the given capacity; the
    /// subscriber will receive every subsequent change event for which its
    /// queue has room, in publication order. Returns the subscriber's
    /// handle.
    pub fn register_subscriber(&mut self, capacity: usize) -> (h: usize)
        requires
            old(self).wf(),
        ensures
            final(self).wf(),
            final(self).model() == (EngineModel {
                channels: old(self).model().channels.push(
                    (Seq::<ChangeEventView>::empty(), capacity as nat),
                ),
                ..old(self).model()
            }),
            h == old(self).model().channels.len(),
    {
        let h = self.notifier.register(capacity);
        proof {
            assert(final(self).model() =~= (EngineModel {
                channels: old(self).model().channels.push(
                    (Seq::<ChangeEventView>::empty(), capacity as nat),
                ),
                ..old(self).model()
            }));
        }
        h
    }

    /// The number of registered subscribers; handles returned by
    /// [`Engine::register_subscriber`] are smaller than this.
    pub fn subscriber_count(&self) -> (n: usize)
        ensures
            n == self.model().channels.len(),
    {
        self.notifier.subscriber_count()
    }

    /// Takes the oldest not-yet-consumed change event from the subscriber
    /// queue behind `handle`, or `None` when the queue is empty.
    pub fn next_event(&mut self, handle: usize) -> (r: Option<ChangeEvent>)
        requires
            old(self).wf(),
            handle < old(self).model().channels.len(),
        ensures
            final(self).wf(),
            final(self).model().registry == old(self).model().registry,
            final(self).model().watches == old(self).model().watches,
            final(self).model().channels.len() == old(self).model().channels.len(),
            old(self).model().channels[handle as int].0.len() == 0 ==> r is None
                && final(self).model() == old(self).model(),
            old(self).model().channels[handle as int].0.len() > 0 ==> (match r {
                Some(e) => e@ == old(self).model().channels[handle as int].0[0],
                None => false,
            }) && final(self).model().channels == old(self).model().channels.update(
                handle as int,
                (
                    old(self).model().channels[handle as int].0.drop_first(),
                    old(self).model().channels[handle as int].1,
                ),
            ),
    {
        self.notifier.recv(handle)
    }
}

/// Idempotent upsert: applying the same add payload twice for one key
/// leaves the registry and the watch table exactly as applying it once —
/// one stored record, identical in every field, and no second watch.
pub proof fn lemma_add_event_idempotent(m: EngineModel, key: Seq<char>, props: Seq<PropertyView>)
    ensures
        spec_add_device(spec_add_device(m, key, props), key, props).registry == spec_add_device(
            m,
            key,
            props,
        ).registry,
        spec_add_device(spec_add_device(m, key, props), key, props).watches == spec_add_device(
            m,
            key,
            props,
        ).watches,
{
    let once = spec_add_device(m, key, props);
    let twice = spec_add_device(once, key, props);
    assert(twice.registry =~= once.registry);
}

/// Per-key event ordering: when the source delivers an add, a
/// property-change and a remove for one key in that order, a subscriber
/// whose queue has room for all three receives `Added`, `Updated`,
/// `Removed` in exactly that order, appended after what its queue already
/// held.
pub proof fn lemma_per_key_event_order(
    m: EngineModel,
    i: int,
    key: Seq<char>,
    props: Seq<PropertyView>,
    change: Seq<PropertyView>,
)
    requires
        0 <= i < m.channels.len(),
        m.channels[i].0.len() + 3 <= m.channels[i].1,
        !m.registry.contains_key(key),
        !spec_decode_diff(change).is_empty(),
    ensures
        ({
            let m1 = spec_add_device(m, key, props);
            let m2 = spec_step_changed(m1, key, spec_device_interface(), change);
            let m3 = spec_step_removed(m2, key);
            let rec = spec_decode_device(props);
            let merged = spec_merge(rec, spec_decode_diff(change));
            m3.channels[i].0 == m.channels[i].0 + seq![
                ChangeEventView::Added(rec),
                ChangeEventView::Updated(merged),
                ChangeEventView::Removed(merged),
            ]
        }),
{
    let m1 = spec_add_device(m, key, props);
    let m2 = spec_step_changed(m1, key, spec_device_interface(), change);
    let m3 = spec_step_removed(m2, key);
    let rec = spec_decode_device(props);
    let merged = spec_merge(rec, spec_decode_diff(change));
    assert(m1.channels[i].0 == m.channels[i].0.push(ChangeEventView::Added(rec)));
    assert(m2.registry[key] == merged);
    assert(m2.channels[i].0 == m1.channels[i].0.push(ChangeEventView::Updated(merged)));
    assert(m3.channels[i].0 == m2.channels[i].0.push(ChangeEventView::Removed(merged)));
    assert(m3.channels[i].0 =~= m.channels[i].0 + seq![
        ChangeEventView::Added(rec),
        ChangeEventView::Updated(merged),
        ChangeEventView::Removed(merged),
    ]);
}

} // verus!
