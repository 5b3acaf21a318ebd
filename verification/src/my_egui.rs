use vstd::prelude::*;

use crate::schedule::GameSystem;

verus! {

/// The choices made in the image menu: which image the next spawned object
/// shows, and whether that object is fixed in place.
pub struct State {
    pub img_path: String,
    pub rigid_body_fixed: bool,
}

impl Default for State {
    /// The menu starts on the flask image with a dynamic body.
    fn default() -> (state: Self)
        ensures
            state.img_path@ == "flask.png"@,
            !state.rigid_body_fixed,
    {
        proof {
            reveal_strlit("flask.png");
        }
        State { img_path: String::from_str("flask.png"), rigid_body_fixed: false }
    }
}

/// Whether a component of a file's path belongs in the asset path shown in the menu:
/// the current directory `.` and the `assets` folder are left out.
pub open spec fn kept_component(component: Seq<char>) -> bool {
    component != "."@ && component != "assets"@
}

/// The components of a file's path that the asset path keeps, in their order.
pub open spec fn asset_components(components: Seq<String>) -> Seq<Seq<char>>
    decreases components.len(),
{
    if components.len() == 0 {
        Seq::empty()
    } else {
        let before = asset_components(components.drop_last());
        if kept_component(components.last()@) {
            before.push(components.last()@)
        } else {
            before
        }
    }
}

/// The parts joined by `/`.
pub open spec fn join_with_slash(parts: Seq<Seq<char>>) -> Seq<char>
    decreases parts.len(),
{
    if parts.len() == 0 {
        Seq::empty()
    } else if parts.len() == 1 {
        parts[0]
    } else {
        join_with_slash(parts.drop_last()) + "/"@ + parts.last()
    }
}

/// The path under which the menu lists a file of an image folder: the components
/// of the file's path without `.` and `assets`, joined by `/`.
pub fn asset_relative_path(components: &Vec<String>) -> (path: String)
    ensures
        path@ == join_with_slash(asset_components(components@)),
{
    let dot = String::from_str(".");
    let assets = String::from_str("assets");
    proof {
        reveal_strlit(".");
        reveal_strlit("assets");
    }
    let mut path = String::new();
    let mut kept: usize = 0;
    let mut i: usize = 0;
    while i < components.len()
        invariant
            i <= components@.len(),
            dot@ == "."@,
            assets@ == "assets"@,
            kept as int == asset_components(components@.take(i as int)).len(),
            kept <= i,
            path@ == join_with_slash(asset_components(components@.take(i as int))),
        decreases components@.len() - i,
    {
        let component = &components[i];
        proof {
            assert(components@.take(i + 1).drop_last() =~= components@.take(i as int));
        }
        if !(*component == dot) && !(*component == assets) {
            if kept > 0 {
                path.append("/");
            }
            path.append(component.as_str());
            proof {
                let parts = asset_components(components@.take(i as int));
                assert(parts.push(component@).drop_last() =~= parts);
            }
            kept = kept + 1;
        }
        i = i + 1;
    }
    proof {
        assert(components@.take(i as int) =~= components@);
    }
    path
}

/// The asset path leaves out exactly the components `.` and `assets`: every kept
/// part is neither, a path with neither keeps all its components in order, and two
/// parts are joined with one `/` between them.
pub proof fn lemma_asset_components(components: Seq<String>)
    ensures
        forall|k: int|
            0 <= k < asset_components(components).len() ==> #[trigger] asset_components(components)[k]
                != "."@ && asset_components(components)[k] != "assets"@,
        (forall|k: int|
            0 <= k < components.len() ==> #[trigger] components[k]@ != "."@ && components[k]@
                != "assets"@) ==> asset_components(components) == components.map_values(
            |c: String| c@,
        ),
    decreases components.len(),
{
    if components.len() > 0 {
        let rest = components.drop_last();
        lemma_asset_components(rest);
        let parts = asset_components(components);
        let before = asset_components(rest);
        assert forall|k: int| 0 <= k < parts.len() implies #[trigger] parts[k] != "."@ && parts[k]
            != "assets"@ by {
            if k < before.len() {
                assert(parts[k] == before[k]);
            }
        }
        if forall|k: int|
            0 <= k < components.len() ==> #[trigger] components[k]@ != "."@ && components[k]@
                != "assets"@ {
            assert forall|k: int|
                0 <= k < rest.len() implies #[trigger] rest[k]@ != "."@ && rest[k]@ != "assets"@ by {
                assert(rest[k] == components[k]);
            }
            assert(components.last() == components[components.len() - 1]);
            assert(asset_components(components) =~= components.map_values(|c: String| c@));
        }
    }
}

/// Two parts are joined with a single `/` between them.
pub proof fn lemma_join_two(first: Seq<char>, second: Seq<char>)
    ensures
        join_with_slash(seq![first, second]) == first + "/"@ + second,
{
    assert(seq![first, second].drop_last() =~= seq![first]);
    assert(seq![first][0] == first);
    assert(join_with_slash(seq![first]) == first);
    assert(seq![first, second].last() == second);
}

/// The systems of the menu set.
pub fn system_set() -> (systems: Vec<GameSystem>)
    ensures
        systems@ == seq![GameSystem::ChooseImageMenu],
{
    vec![GameSystem::ChooseImageMenu]
}

} // verus!
