//! Event keys and scopes of the game-mode event bus.

use vstd::prelude::*;

verus! {

/// Whom an event is addressed to.
#[derive(Clone, Copy, Debug, PartialEq, Eq, Structural)]
pub enum EventScope {
    Global,
    Entity(u64),
    Blueprint(u64),
}

#[derive(Clone, Copy, Debug, PartialEq, Eq, Structural, Hash)]
pub enum WorldEventKey {
    Awake,
    Impromptu,
}

#[derive(Clone, Copy, Debug, PartialEq, Eq, Structural, Hash)]
pub enum PlayerEventKey {
    Online,
    Offline,
    Input,
    Enter,
    Exit,
    Signal,
}

#[derive(Clone, Copy, Debug, PartialEq, Eq, Structural, Hash)]
pub enum TimerEventKey {
    Fire,
}

/// The kind of an event, which listeners subscribe to.
#[derive(Clone, Copy, Debug, PartialEq, Eq, Structural, Hash)]
pub enum GameModeEventKey {
    World(WorldEventKey),
    Player(PlayerEventKey),
    Timer(TimerEventKey),
}

/// What a timer event carries.
pub enum TimerEventData {
    Fire { id: String, data: Option<serde_json::Value> },
}

impl TimerEventData {
    pub fn key(&self) -> (r: TimerEventKey)
        ensures
            r == TimerEventKey::Fire,
    {
        match self {
            TimerEventData::Fire { .. } => TimerEventKey::Fire,
        }
    }
}

/// What a player event carries: the player (a handle, or what is kept of
/// them once they are offline) and the event's own data.
pub enum PlayerEventData<P, S, Q, I, G> {
    Online { player: P, connection_params: Q },
    Offline { snapshot: S },
    Input { player: P, name: String, data: I },
    Enter { player: P, room: u64 },
    Exit { player: P, room: u64 },
    Signal { player: P, signal: G },
}

impl<P, S, Q, I, G> PlayerEventData<P, S, Q, I, G> {
    /// The kind of the event, which listeners subscribe to.
    pub fn key(&self) -> (r: PlayerEventKey)
        ensures
            r == (match *self {
                PlayerEventData::Online { .. } => PlayerEventKey::Online,
                PlayerEventData::Offline { .. } => PlayerEventKey::Offline,
                PlayerEventData::Input { .. } => PlayerEventKey::Input,
                PlayerEventData::Enter { .. } => PlayerEventKey::Enter,
                PlayerEventData::Exit { .. } => PlayerEventKey::Exit,
                PlayerEventData::Signal { .. } => PlayerEventKey::Signal,
            }),
    {
        match self {
            PlayerEventData::Online { .. } => PlayerEventKey::Online,
            PlayerEventData::Offline { .. } => PlayerEventKey::Offline,
            PlayerEventData::Input { .. } => PlayerEventKey::Input,
            PlayerEventData::Enter { .. } => PlayerEventKey::Enter,
            PlayerEventData::Exit { .. } => PlayerEventKey::Exit,
            PlayerEventData::Signal { .. } => PlayerEventKey::Signal,
        }
    }
}

} // verus!
