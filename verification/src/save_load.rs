use vstd::prelude::*;

verus! {

/// The asset path of the level file named `level_name`.
pub fn level_asset_path(level_name: &str) -> (path: String)
    ensures
        path@ == "assets/levels/"@ + level_name@ + ".lvl"@,
{
    let mut path = String::from_str("assets/levels/");
    path.append(level_name);
    path.append(".lvl");
    path
}

/// Decides whether the first level is to be loaded this frame: Alt held while 1
/// is pressed. Gives the asset path of the level to load, if any.
pub fn load(alt_pressed: bool, key1_just_pressed: bool) -> (path: Option<String>)
    ensures
        path is Some <==> (alt_pressed && key1_just_pressed),
        path is Some ==> path->0@ == "assets/levels/"@ + "level_1"@ + ".lvl"@,
{
    if alt_pressed && key1_just_pressed {
        Some(level_asset_path("level_1"))
    } else {
        None
    }
}

} // verus!
