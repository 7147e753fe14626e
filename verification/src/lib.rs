//! Device-state synchronization engine for a BlueZ-style event bus.
//!
//! The library mirrors the live state of remote devices, announced through an
//! external add/remove/property-changed event feed, into a locally queryable
//! registry, and fans out change notifications to subscribers.

pub mod agent;
pub mod assoc;
pub mod decode;
pub mod engine;
pub mod notify;
pub mod paths;
pub mod record;
pub mod registry;
pub mod snapshot;
pub mod subscription;
pub mod wire;

pub use agent::Agent;
pub use engine::Engine;
pub use notify::ChangeEvent;
pub use notify::ChangeNotifier;
pub use paths::PathConfig;
pub use paths::get_adapter_path;
pub use paths::set_adapter_path;
pub use paths::get_gatt_application_path;
pub use paths::set_gatt_application_path;
pub use paths::get_advertisement_path;
pub use paths::set_advertisement_path;
pub use record::DeviceDiff;
pub use record::DeviceInfo;
pub use registry::Registry;
pub use snapshot::DeviceEntry;
pub use snapshot::InterfaceEntry;
pub use snapshot::ManagedObject;
pub use subscription::SubscriptionManager;
pub use subscription::WatchState;
pub use wire::Property;
pub use wire::PropertyBag;
pub use wire::WireValue;
