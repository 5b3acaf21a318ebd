use vstd::prelude::*;

use crate::schedule::GameSystem;

verus! {

/// The systems of the set that keeps track of the cursor.
pub fn system_set() -> (systems: Vec<GameSystem>)
    ensures
        systems@ == seq![GameSystem::GetMousePosition],
{
    vec![GameSystem::GetMousePosition]
}

} // verus!
