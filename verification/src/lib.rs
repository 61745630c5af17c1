//! Verified core of a Lua-scripted game-mode runtime: plugin naming and
//! opcode routing, timer bookkeeping, scene task tables, event listener
//! registries and the argument checks of the scripting API.

pub mod text;
pub mod plugin;
pub mod registry;
pub mod events;
pub mod outside;
pub mod timer;
pub mod scene;
pub mod on;
pub mod room;
pub mod farcaster;
pub mod memory;
pub mod rock;
pub mod input;
pub mod layer;
pub mod entity;
pub mod world;
pub mod json;
pub mod custom;
pub mod player;
pub mod plugins;
pub mod protocol;
