use vstd::prelude::*;

verus! {

/// The systems that the game runs every frame, grouped into sets by the modules
/// that define them.
#[derive(Clone, Copy, PartialEq, Eq, Debug)]
pub enum GameSystem {
    /// Steps the player's walk animation.
    AnimatePlayerSprite,
    /// Collects the points of a polygon drawn with the mouse.
    CreatePolygon,
    /// Gives queued objects their colliders.
    AddPhysics,
    /// Tracks the cursor's position in the world.
    GetMousePosition,
    /// Shows the menu in which the spawned image is chosen.
    ChooseImageMenu,
    /// Turns the arrow keys into the player's walking.
    PlayerRunWalk,
    /// Lets the player fall while off the ground.
    PlayerFall,
    /// Hands the player's velocity to the character controller.
    ApplyVelToController,
}

} // verus!
