use vstd::multiset::Multiset;
use vstd::prelude::*;

use crate::my_egui::State;
use crate::outline::{
    encodes, flatten_points, outline_mesh, outline_segments, point_counts, polygon_outline,
    polygon_segments,
};
use crate::schedule::GameSystem;

verus! {

broadcast use {vstd::seq_lib::group_to_multiset_ensures, vstd::multiset::group_multiset_properties};

/// How the physics engine moves a spawned object.
#[derive(Clone, Copy, PartialEq, Eq, Debug)]
pub enum RigidBodyKind {
    /// Moved by forces and collisions.
    Dynamic,
    /// Never moves.
    Fixed,
}

/// A spawned object, named by its entity's bits, that still waits for a
/// collider made from the outline of its image.
pub struct AddPhysicsRequest {
    pub entity: u64,
    pub img_path: String,
    pub rigid_body: RigidBodyKind,
}

/// The queue of objects that still wait for a collider.
pub struct AddPhysicsRequests {
    pub vec: Vec<AddPhysicsRequest>,
}

impl Default for AddPhysicsRequests {
    /// The queue starts empty.
    fn default() -> (requests: Self)
        ensures
            requests.vec@ == Seq::<AddPhysicsRequest>::empty(),
    {
        AddPhysicsRequests { vec: Vec::new() }
    }
}

/// What the game found when it handled one queued request.
#[derive(Clone, Copy, PartialEq, Eq, Debug)]
pub enum PhysicsOutcome {
    /// The object's entity no longer exists.
    EntityMissing,
    /// A collider made earlier for the same image was given to the object.
    CachedCollider,
    /// The image's outline is not available yet.
    ContourMissing,
    /// A new collider was made from the image's outline and given to the object.
    ColliderBuilt,
}

/// The sequence `s` after `Vec::swap_remove` at `i`: the last item takes the place
/// of the removed one.
pub open spec fn swap_removed<T>(s: Seq<T>, i: int) -> Seq<T> {
    s.update(i, s.last()).drop_last()
}

/// The queue after one pass that visits the first `i` requests from the last to
/// the first and takes out, by `swap_remove`, each one whose collider was built.
/// `outcomes[k]` belongs to the request that stood at position `k` when the pass began.
pub open spec fn after_physics_pass<T>(s: Seq<T>, outcomes: Seq<PhysicsOutcome>, i: nat) -> Seq<T>
    decreases i,
{
    if i == 0 {
        s
    } else {
        let next = if outcomes[i - 1] is ColliderBuilt {
            swap_removed(s, i - 1)
        } else {
            s
        };
        after_physics_pass(next, outcomes, (i - 1) as nat)
    }
}

/// The first `i` requests whose collider was not built, in their order.
pub open spec fn unbuilt_requests<T>(s: Seq<T>, outcomes: Seq<PhysicsOutcome>, i: nat) -> Seq<T>
    decreases i,
{
    if i == 0 {
        Seq::empty()
    } else {
        let before = unbuilt_requests(s, outcomes, (i - 1) as nat);
        if outcomes[i - 1] is ColliderBuilt {
            before
        } else {
            before.push(s[i - 1])
        }
    }
}

/// Ends one pass of the physics system over the queue: the requests whose
/// collider was built leave the queue, visited from the last to the first and
/// taken out by `swap_remove`; all others stay to be tried again.
/// `outcomes[k]` is what the game found for the request at position `k`.
pub fn add_physics(requests: &mut AddPhysicsRequests, outcomes: &Vec<PhysicsOutcome>)
    requires
        outcomes@.len() == old(requests).vec@.len(),
    ensures
        final(requests).vec@ == after_physics_pass(
            old(requests).vec@,
            outcomes@,
            outcomes@.len(),
        ),
        final(requests).vec@.to_multiset().subset_of(old(requests).vec@.to_multiset()),
        final(requests).vec@.len() <= old(requests).vec@.len(),
{
    proof {
        lemma_physics_pass_keeps_unbuilt(old(requests).vec@, outcomes@);
    }
    let mut i: usize = requests.vec.len();
    while i > 0
        invariant
            i <= outcomes@.len(),
            i <= requests.vec@.len(),
            after_physics_pass(requests.vec@, outcomes@, i as nat) == after_physics_pass(
                old(requests).vec@,
                outcomes@,
                outcomes@.len(),
            ),
        decreases i,
    {
        i = i - 1;
        let outcome = outcomes[i];
        match outcome {
            PhysicsOutcome::ColliderBuilt => {
                requests.vec.swap_remove(i);
            },
            _ => {},
        }
    }
}

proof fn lemma_unbuilt_prefix<T>(s1: Seq<T>, s2: Seq<T>, outcomes: Seq<PhysicsOutcome>, i: nat)
    requires
        i <= s1.len(),
        i <= s2.len(),
        forall|k: int| 0 <= k < i ==> s1[k] == s2[k],
    ensures
        unbuilt_requests(s1, outcomes, i) == unbuilt_requests(s2, outcomes, i),
    decreases i,
{
    if i > 0 {
        lemma_unbuilt_prefix(s1, s2, outcomes, (i - 1) as nat);
    }
}

proof fn lemma_pass_multiset<T>(s: Seq<T>, outcomes: Seq<PhysicsOutcome>, i: nat)
    requires
        i <= s.len(),
        i <= outcomes.len(),
    ensures
        after_physics_pass(s, outcomes, i).to_multiset() == unbuilt_requests(
            s,
            outcomes,
            i,
        ).to_multiset().add(s.subrange(i as int, s.len() as int).to_multiset()),
    decreases i,
{
    broadcast use vstd::seq_lib::lemma_multiset_commutative;

    let n: int = s.len() as int;
    if i == 0 {
        assert(s.subrange(0, n) =~= s);
        assert(unbuilt_requests(s, outcomes, 0).to_multiset() =~= Multiset::empty());
        assert(after_physics_pass(s, outcomes, i).to_multiset() =~= unbuilt_requests(
            s,
            outcomes,
            i,
        ).to_multiset().add(s.subrange(i as int, n).to_multiset()));
    } else {
        let j: int = i - 1;
        if outcomes[j] is ColliderBuilt {
            let next = swap_removed(s, j);
            lemma_pass_multiset(next, outcomes, j as nat);
            lemma_unbuilt_prefix(next, s, outcomes, j as nat);
            if i == n {
                assert(next.subrange(j, n - 1) =~= Seq::<T>::empty());
                assert(s.subrange(i as int, n) =~= Seq::<T>::empty());
            } else {
                assert(next.subrange(j, n - 1) =~= seq![s.last()] + s.subrange(i as int, n - 1));
                assert(s.subrange(i as int, n) =~= s.subrange(i as int, n - 1) + seq![s.last()]);
            }
            assert(after_physics_pass(s, outcomes, i).to_multiset() =~= unbuilt_requests(
                s,
                outcomes,
                i,
            ).to_multiset().add(s.subrange(i as int, n).to_multiset()));
        } else {
            lemma_pass_multiset(s, outcomes, j as nat);
            assert(s.subrange(j, n) =~= seq![s[j]] + s.subrange(i as int, n));
            assert(unbuilt_requests(s, outcomes, i) =~= unbuilt_requests(s, outcomes, j as nat).push(
                s[j],
            ));
            assert(after_physics_pass(s, outcomes, i).to_multiset() =~= unbuilt_requests(
                s,
                outcomes,
                i,
            ).to_multiset().add(s.subrange(i as int, n).to_multiset()));
        }
    }
}

proof fn lemma_unbuilt_sub_multiset<T>(s: Seq<T>, outcomes: Seq<PhysicsOutcome>, i: nat)
    requires
        i <= s.len(),
    ensures
        unbuilt_requests(s, outcomes, i).to_multiset().subset_of(s.take(i as int).to_multiset()),
        unbuilt_requests(s, outcomes, i).len() <= i,
    decreases i,
{
    if i > 0 {
        let j: int = i - 1;
        lemma_unbuilt_sub_multiset(s, outcomes, j as nat);
        assert(s.take(i as int) =~= s.take(j).push(s[j]));
    } else {
        assert(unbuilt_requests(s, outcomes, i).to_multiset() =~= Multiset::empty());
    }
}

/// A pass of the physics system loses no request and duplicates none: what stays
/// in the queue is, up to order, exactly the requests whose collider was not built;
/// so it is a part of the queue it started from and no longer than it.
pub proof fn lemma_physics_pass_keeps_unbuilt<T>(s: Seq<T>, outcomes: Seq<PhysicsOutcome>)
    requires
        outcomes.len() == s.len(),
    ensures
        after_physics_pass(s, outcomes, s.len()).to_multiset() == unbuilt_requests(
            s,
            outcomes,
            s.len(),
        ).to_multiset(),
        after_physics_pass(s, outcomes, s.len()).len() == unbuilt_requests(s, outcomes, s.len()).len(),
        after_physics_pass(s, outcomes, s.len()).to_multiset().subset_of(s.to_multiset()),
        after_physics_pass(s, outcomes, s.len()).len() <= s.len(),
{
    lemma_pass_multiset(s, outcomes, s.len());
    lemma_unbuilt_sub_multiset(s, outcomes, s.len());
    assert(s.take(s.len() as int) =~= s);
    assert(s.subrange(s.len() as int, s.len() as int) =~= Seq::<T>::empty());
    assert(unbuilt_requests(s, outcomes, s.len()).to_multiset().add(Seq::<T>::empty().to_multiset())
        =~= unbuilt_requests(s, outcomes, s.len()).to_multiset());
    assert(after_physics_pass(s, outcomes, s.len()).to_multiset().len() == unbuilt_requests(
        s,
        outcomes,
        s.len(),
    ).to_multiset().len());
}

/// `mesh` is the outline mesh of the line strings: their points one line string
/// after the other, and a closed loop of index pairs for each line string.
pub open spec fn is_outline_mesh<P>(mesh: (Vec<P>, Vec<[u32; 2]>), line_strings: Seq<Vec<P>>) -> bool {
    &&& mesh.0@ == flatten_points(line_strings)
    &&& encodes(mesh.1@, outline_segments(point_counts(line_strings)))
}

/// Whether the image's outline must be loaded for a request: only when its entity
/// still exists and no collider was made earlier for its image.
pub fn needs_contour(entity_exists: bool, collider_cached: bool) -> (needed: bool)
    ensures
        needed == (entity_exists && !collider_cached),
{
    entity_exists && !collider_cached
}

/// Handles one queued request from what the game found: a missing entity is left
/// alone; a collider cached for the image is used; without the image's outline
/// nothing happens yet; otherwise the collider is built from the outline mesh of
/// the outline's line strings, which this step gives back.
pub fn physics_step<P: Copy>(
    entity_exists: bool,
    collider_cached: bool,
    line_strings: Option<&Vec<Vec<P>>>,
) -> (step: (PhysicsOutcome, Option<(Vec<P>, Vec<[u32; 2]>)>))
    ensures
        !entity_exists ==> step.0 == PhysicsOutcome::EntityMissing && step.1 is None,
        entity_exists && collider_cached ==> step.0 == PhysicsOutcome::CachedCollider && step.1 is None,
        entity_exists && !collider_cached && line_strings is None ==> step.0
            == PhysicsOutcome::ContourMissing && step.1 is None,
        entity_exists && !collider_cached && line_strings is Some ==> step.0
            == PhysicsOutcome::ColliderBuilt && step.1 is Some && is_outline_mesh(
            step.1->0,
            line_strings->0@,
        ),
{
    if !entity_exists {
        return (PhysicsOutcome::EntityMissing, None);
    }
    if collider_cached {
        return (PhysicsOutcome::CachedCollider, None);
    }
    match line_strings {
        None => (PhysicsOutcome::ContourMissing, None),
        Some(strings) => (PhysicsOutcome::ColliderBuilt, Some(outline_mesh(strings))),
    }
}

proof fn lemma_unbuilt_members<T>(s: Seq<T>, outcomes: Seq<PhysicsOutcome>, i: nat)
    requires
        i <= s.len(),
    ensures
        forall|k: int|
            0 <= k < i && !(outcomes[k] is ColliderBuilt) ==> unbuilt_requests(s, outcomes, i).contains(
                #[trigger] s[k],
            ),
        forall|x: T|
            unbuilt_requests(s, outcomes, i).contains(x) ==> exists|k: int|
                0 <= k < i && !(outcomes[k] is ColliderBuilt) && #[trigger] s[k] == x,
    decreases i,
{
    if i > 0 {
        let j: int = i - 1;
        lemma_unbuilt_members(s, outcomes, j as nat);
        let before = unbuilt_requests(s, outcomes, j as nat);
        assert forall|k: int|
            0 <= k < i && !(outcomes[k] is ColliderBuilt) implies unbuilt_requests(
            s,
            outcomes,
            i,
        ).contains(#[trigger] s[k]) by {
            if k < j {
                let w = choose|w: int| 0 <= w < before.len() && before[w] == s[k];
                assert(unbuilt_requests(s, outcomes, i)[w] == s[k]);
            } else {
                assert(unbuilt_requests(s, outcomes, i)[before.len() as int] == s[k]);
            }
        }
        assert forall|x: T| unbuilt_requests(s, outcomes, i).contains(x) implies exists|k: int|
            0 <= k < i && !(outcomes[k] is ColliderBuilt) && #[trigger] s[k] == x by {
            let w = choose|w: int|
                0 <= w < unbuilt_requests(s, outcomes, i).len() && unbuilt_requests(s, outcomes, i)[w]
                    == x;
            if w < before.len() {
                assert(before[w] == x);
                assert(before.contains(x));
            } else {
                assert(s[j] == x);
            }
        }
    }
}

/// After a pass, every request whose collider was not built is still queued, and
/// everything still queued is such a request.
pub proof fn lemma_physics_pass_members<T>(s: Seq<T>, outcomes: Seq<PhysicsOutcome>)
    requires
        outcomes.len() == s.len(),
    ensures
        forall|k: int|
            0 <= k < s.len() && !(outcomes[k] is ColliderBuilt) ==> after_physics_pass(
                s,
                outcomes,
                s.len(),
            ).contains(#[trigger] s[k]),
        forall|x: T|
            after_physics_pass(s, outcomes, s.len()).contains(x) ==> exists|k: int|
                0 <= k < s.len() && !(outcomes[k] is ColliderBuilt) && #[trigger] s[k] == x,
{
    broadcast use vstd::seq_lib::group_to_multiset_ensures;

    lemma_physics_pass_keeps_unbuilt(s, outcomes);
    lemma_unbuilt_members(s, outcomes, s.len());
    let after = after_physics_pass(s, outcomes, s.len());
    let kept = unbuilt_requests(s, outcomes, s.len());
    assert forall|x: T| after.contains(x) <==> kept.contains(x) by {
        assert(after.contains(x) <==> after.to_multiset().count(x) > 0);
        assert(kept.contains(x) <==> kept.to_multiset().count(x) > 0);
    }
}

/// The body kind chosen in the menu.
pub open spec fn body_kind(rigid_body_fixed: bool) -> RigidBodyKind {
    if rigid_body_fixed {
        RigidBodyKind::Fixed
    } else {
        RigidBodyKind::Dynamic
    }
}

/// The request for an object spawned as `entity` with the menu's choices.
pub open spec fn spawned_request(state: State, entity: u64) -> AddPhysicsRequest {
    AddPhysicsRequest {
        entity: entity,
        img_path: state.img_path,
        rigid_body: body_kind(state.rigid_body_fixed),
    }
}

/// The request for a spawned object names that object, keeps the image chosen in
/// the menu, and is fixed exactly when the menu's `fixed` box is ticked.
pub proof fn lemma_spawned_request_follows_menu(state: State, entity: u64)
    ensures
        spawned_request(state, entity).entity == entity,
        spawned_request(state, entity).img_path == state.img_path,
        spawned_request(state, entity).rigid_body == RigidBodyKind::Fixed <==> state.rigid_body_fixed,
        spawned_request(state, entity).rigid_body == RigidBodyKind::Dynamic <==> !state.rigid_body_fixed,
{
}

/// On a click, spawns an object at the mouse with `spawn_entity`, which gives back
/// the bits of the new entity, and queues it for a collider made from the image
/// chosen in the menu, with the body kind chosen there. Without a click nothing
/// is spawned or queued.
pub fn spawn_object_at_mouse<F: FnOnce() -> u64>(
    requests: &mut AddPhysicsRequests,
    state: &State,
    mouse_just_pressed: bool,
    spawn_entity: F,
)
    requires
        mouse_just_pressed ==> call_requires(spawn_entity, ()),
    ensures
        !mouse_just_pressed ==> final(requests).vec@ == old(requests).vec@,
        mouse_just_pressed ==> exists|entity: u64|
            call_ensures(spawn_entity, (), entity) && final(requests).vec@ == old(
                requests,
            ).vec@.push(spawned_request(*state, entity)),
{
    if mouse_just_pressed {
        let entity = spawn_entity();
        let img_path = state.img_path.clone();
        let rigid_body = if state.rigid_body_fixed {
            RigidBodyKind::Fixed
        } else {
            RigidBodyKind::Dynamic
        };
        requests.vec.push(AddPhysicsRequest { entity, img_path, rigid_body });
        assert(requests.vec@ == old(requests).vec@.push(spawned_request(*state, entity)));
    }
}

/// The points of a polygon that is being drawn with the mouse, in the order in
/// which they were placed.
pub struct PolygonInMaking<V> {
    pub vertices: Vec<V>,
}

impl<V> Default for PolygonInMaking<V> {
    /// No point is placed yet.
    fn default() -> (polygon: Self)
        ensures
            polygon.vertices@ == Seq::<V>::empty(),
    {
        PolygonInMaking { vertices: Vec::new() }
    }
}

/// A finished polygon: its points and the index pairs of the closed loop through them.
pub struct PolygonCollider<V> {
    pub vertices: Vec<V>,
    pub indices: Vec<[u32; 2]>,
}

/// One frame of polygon drawing. A click places a point at the cursor; a click
/// while Control is held also closes the polygon: its points and closed loop are
/// handed out for a fixed collider and drawing starts anew.
pub fn create_polygon<V>(
    polygon: &mut PolygonInMaking<V>,
    mouse_just_pressed: bool,
    control_pressed: bool,
    cursor: V,
) -> (finished: Option<PolygonCollider<V>>)
    ensures
        !mouse_just_pressed ==> finished is None && final(polygon).vertices@ == old(
            polygon,
        ).vertices@,
        mouse_just_pressed && !control_pressed ==> finished is None && final(polygon).vertices@
            == old(polygon).vertices@.push(cursor),
        mouse_just_pressed && control_pressed ==> final(polygon).vertices@.len() == 0
            && finished is Some && finished->0.vertices@ == old(polygon).vertices@.push(cursor)
            && encodes(
            finished->0.indices@,
            polygon_segments(old(polygon).vertices@.len() + 1),
        ),
{
    if !mouse_just_pressed {
        return None;
    }
    polygon.vertices.push(cursor);
    if !control_pressed {
        return None;
    }
    let indices = polygon_outline(polygon.vertices.len());
    let mut vertices: Vec<V> = Vec::new();
    std::mem::swap(&mut vertices, &mut polygon.vertices);
    Some(PolygonCollider { vertices, indices })
}

/// The systems of the level set.
pub fn system_set() -> (systems: Vec<GameSystem>)
    ensures
        systems@ == seq![GameSystem::CreatePolygon, GameSystem::AddPhysics],
{
    vec![GameSystem::CreatePolygon, GameSystem::AddPhysics]
}

} // verus!
