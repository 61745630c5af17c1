//! The plugins without state of their own, and the names they install
//! their tables under.

use vstd::prelude::*;
use crate::on::{global_event_descriptors, EventDescriptor};
use crate::plugin::PluginName;

verus! {

/// Entity blueprints and queries.
pub struct EntityPlugin {}

/// Input events.
pub struct InputPlugin {}

/// Event listeners, one factory per event descriptor.
pub struct OnPlugin {
    pub descriptors: Vec<EventDescriptor>,
}

/// Layers of cleanup actions.
pub struct LayerPlugin {}

/// Players.
pub struct PlayerPlugin {}

/// Rooms.
pub struct RoomPlugin {}

/// Constant tables.
pub struct ConstantsPlugin {}

/// JSON helpers.
pub struct JsonPlugin {}

impl EntityPlugin {
    pub fn name(&self) -> (r: PluginName)
        ensures
            r == PluginName::Entity,
    {
        PluginName::Entity
    }
}

impl InputPlugin {
    pub fn name(&self) -> (r: PluginName)
        ensures
            r == PluginName::Input,
    {
        PluginName::Input
    }
}

impl OnPlugin {
    /// The `on` plugin with the global event descriptors.
    pub fn new() -> (r: Self)
        ensures
            r.descriptors@.len() == crate::on::global_descriptor_table().len(),
    {
        OnPlugin { descriptors: global_event_descriptors() }
    }

    pub fn name(&self) -> (r: PluginName)
        ensures
            r == PluginName::On,
    {
        PluginName::On
    }
}

impl LayerPlugin {
    pub fn name(&self) -> (r: PluginName)
        ensures
            r == PluginName::Layer,
    {
        PluginName::Layer
    }
}

impl PlayerPlugin {
    pub fn name(&self) -> (r: PluginName)
        ensures
            r == PluginName::Player,
    {
        PluginName::Player
    }
}

impl RoomPlugin {
    pub fn name(&self) -> (r: PluginName)
        ensures
            r == PluginName::Room,
    {
        PluginName::Room
    }
}

impl ConstantsPlugin {
    pub fn name(&self) -> (r: PluginName)
        ensures
            r == PluginName::Constants,
    {
        PluginName::Constants
    }
}

impl JsonPlugin {
    pub fn name(&self) -> (r: PluginName)
        ensures
            r == PluginName::Json,
    {
        PluginName::Json
    }
}

} // verus!
