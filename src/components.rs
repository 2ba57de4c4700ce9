use vstd::prelude::*;

verus! {

/// Whether player input currently drives the player entity.
#[derive(Clone, Copy, Debug, PartialEq, Eq, Structural)]
pub enum PlayerLockState {
    /// Input moves and animates the player.
    Unlocked,
    /// A conversation is open; movement and animation are suspended.
    Locked,
}

/// The player-controlled entity's interaction state.
#[derive(Clone, Copy, Debug, PartialEq, Eq, Structural)]
pub struct Player {
    pub lock: PlayerLockState,
}

impl Player {
    /// A player that starts out free to move.
    pub fn new() -> (r: Player)
        ensures
            r.lock == PlayerLockState::Unlocked,
    {
        Player { lock: PlayerLockState::Unlocked }
    }

    /// True while no conversation holds the player.
    pub fn is_active(&self) -> (r: bool)
        ensures
            r == (self.lock == PlayerLockState::Unlocked),
    {
        match self.lock {
            PlayerLockState::Unlocked => true,
            PlayerLockState::Locked => false,
        }
    }
}

/// Marker for the camera that frames the scene.
#[derive(Clone, Copy, Debug, PartialEq, Eq, Structural)]
pub struct MainCamera;

/// Marker for the floor tiles.
#[derive(Clone, Copy, Debug, PartialEq, Eq, Structural)]
pub struct Ground;

} // verus!

verus! {

/// An opaque reference to an image resource held by the asset store.
/// The store resolves a name it does not know to the default handle.
#[derive(Clone, Copy, Debug, PartialEq, Eq, Structural)]
pub struct ImageHandle {
    pub id: u64,
}

impl ImageHandle {
    /// The handle that stands for "no particular image".
    pub fn default_handle() -> (r: ImageHandle)
        ensures
            r == Self::default_spec(),
    {
        ImageHandle { id: 0 }
    }

    pub open spec fn default_spec() -> ImageHandle {
        ImageHandle { id: 0 }
    }
}

} // verus!
