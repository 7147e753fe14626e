//! Bus path configuration.
//!
//! The paths under which the adapter and the GATT application are reached
//! live in one configuration value owned by the caller and handed to
//! whatever needs them, rather than in process-wide state.

use vstd::prelude::*;

verus! {

/// The configured bus paths.
pub struct PathConfig {
    adapter_path: String,
    gatt_application_path: String,
}

/// Mathematical model of a [`PathConfig`].
pub struct PathConfigView {
    pub adapter: Seq<char>,
    pub gatt_application: Seq<char>,
}

impl View for PathConfig {
    type V = PathConfigView;

    closed spec fn view(&self) -> PathConfigView {
        PathConfigView {
            adapter: self.adapter_path@,
            gatt_application: self.gatt_application_path@,
        }
    }
}

impl PathConfig {
    /// The default paths.
    pub fn new() -> (r: PathConfig)
        ensures
            r@ == (PathConfigView {
                adapter: "/org/bluez/hci0"@,
                gatt_application: "/org/bluez/gatt_application"@,
            }),
    {
        PathConfig {
            adapter_path: ("/org/bluez/hci0").to_owned(),
            gatt_application_path: ("/org/bluez/gatt_application").to_owned(),
        }
    }
}

/// The adapter's bus path.
pub fn get_adapter_path(config: &PathConfig) -> (r: String)
    ensures
        r@ == config@.adapter,
{
    config.adapter_path.clone()
}

/// Replaces the adapter's bus path.
pub fn set_adapter_path(config: &mut PathConfig, new_value: &str)
    ensures
        final(config)@ == (PathConfigView { adapter: new_value@, ..old(config)@ }),
{
    config.adapter_path = new_value.to_owned();
}

/// The GATT application's bus path.
pub fn get_gatt_application_path(config: &PathConfig) -> (r: String)
    ensures
        r@ == config@.gatt_application,
{
    config.gatt_application_path.clone()
}

/// Replaces the GATT application's bus path.
pub fn set_gatt_application_path(config: &mut PathConfig, new_value: &str)
    ensures
        final(config)@ == (PathConfigView { gatt_application: new_value@, ..old(config)@ }),
{
    config.gatt_application_path = new_value.to_owned();
}

/// The path under which an advertisement is registered. It is kept in the
/// GATT application slot, which advertisement registration shares.
pub fn get_advertisement_path(config: &PathConfig) -> (r: String)
    ensures
        r@ == config@.gatt_application,
{
    config.gatt_application_path.clone()
}

/// Replaces the advertisement registration path, which shares the GATT
/// application slot.
pub fn set_advertisement_path(config: &mut PathConfig, new_value: &str)
    ensures
        final(config)@ == (PathConfigView { gatt_application: new_value@, ..old(config)@ }),
{
    config.gatt_application_path = new_value.to_owned();
}

} // verus!
