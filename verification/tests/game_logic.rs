use physics_playground::anim::{animate_player_sprite, next_sprite_frame, AnimationTimer, IDLE_FRAME};
use physics_playground::level::{
    add_physics, create_polygon, needs_contour, physics_step, spawn_object_at_mouse, AddPhysicsRequest, AddPhysicsRequests,
    PhysicsOutcome, PolygonInMaking, RigidBodyKind,
};
use physics_playground::misc;
use physics_playground::my_egui::{asset_relative_path, State};
use physics_playground::outline::{outline_mesh, polygon_outline};
use physics_playground::player::{player_jump, player_run_walk, sprite_needs_flip};
use physics_playground::save_load::{level_asset_path, load};
use physics_playground::schedule::GameSystem;
use physics_playground::{anim, level, my_egui, player};

fn request(entity: u64, path: &str) -> AddPhysicsRequest {
    AddPhysicsRequest { entity, img_path: path.to_string(), rigid_body: RigidBodyKind::Dynamic }
}

fn entities(requests: &AddPhysicsRequests) -> Vec<u64> {
    requests.vec.iter().map(|r| r.entity).collect()
}

#[test]
fn idle_frame_when_not_moving() {
    assert_eq!(next_sprite_frame(3, 0, true, 9), IDLE_FRAME);
    assert_eq!(next_sprite_frame(3, 0, false, 9), 8);
}

#[test]
fn frame_advances_when_timer_finishes() {
    assert_eq!(next_sprite_frame(3, 1, true, 9), 4);
    assert_eq!(next_sprite_frame(3, -2, true, 9), 4);
    assert_eq!(next_sprite_frame(3, 1, false, 9), 3);
}

#[test]
fn frame_wraps_before_last_frame_of_sheet() {
    assert_eq!(next_sprite_frame(7, 1, true, 9), 0);
    assert_eq!(next_sprite_frame(8, -1, true, 9), 1);
    assert_eq!(next_sprite_frame(0, 1, true, 2), 0);
}

const MS: u64 = 1_000_000;

#[test]
fn animation_timer_drives_frames() {
    let mut timer = AnimationTimer::new(100 * MS);
    // Not yet finished: the frame stays and the time adds up.
    assert_eq!(animate_player_sprite(&mut timer, 50 * MS, 1, 2, 9), 2);
    assert_eq!(timer.elapsed_nanos, 50 * MS);
    // The period is reached: the frame advances and the rest is kept.
    assert_eq!(animate_player_sprite(&mut timer, 60 * MS, 1, 2, 9), 3);
    assert_eq!(timer.elapsed_nanos, 10 * MS);
    // Standing still shows the idle frame, and the timer still ticks.
    assert_eq!(animate_player_sprite(&mut timer, 100 * MS, 0, 3, 9), IDLE_FRAME);
    assert_eq!(timer.elapsed_nanos, 10 * MS);
    assert_eq!(timer.duration_nanos, 100 * MS);
}

#[test]
fn timer_tick_keeps_rest_of_several_periods() {
    let mut timer = AnimationTimer::new(100 * MS);
    assert!(!timer.finishes_after(99 * MS));
    assert!(timer.finishes_after(100 * MS));
    assert!(timer.tick(250 * MS));
    assert_eq!(timer.elapsed_nanos, 50 * MS);
    assert!(!timer.tick(49 * MS));
    assert_eq!(timer.elapsed_nanos, 99 * MS);
}

#[test]
fn timer_tick_edge_periods() {
    // A period of zero always finishes and keeps no time.
    let mut timer = AnimationTimer::new(0);
    assert!(timer.tick(5));
    assert_eq!(timer.elapsed_nanos, 0);
    // A count of periods that is a multiple of 2^32 does not count as a finish.
    let mut timer = AnimationTimer::new(1);
    assert!(!timer.tick(1u64 << 32));
    assert_eq!(timer.elapsed_nanos, 0);
    // Large times stay within range.
    let mut timer = AnimationTimer { duration_nanos: u64::MAX, elapsed_nanos: u64::MAX - 1 };
    assert!(timer.tick(u64::MAX));
    assert_eq!(timer.elapsed_nanos, u64::MAX - 1);
}

#[test]
fn animation_on_single_frame_sheet_while_timer_runs() {
    let mut timer = AnimationTimer::new(100 * MS);
    assert_eq!(animate_player_sprite(&mut timer, 10 * MS, 1, 0, 1), 0);
}

#[test]
fn system_sets_hold_their_systems() {
    assert_eq!(anim::system_set(), vec![GameSystem::AnimatePlayerSprite]);
    assert_eq!(level::system_set(), vec![GameSystem::CreatePolygon, GameSystem::AddPhysics]);
    assert_eq!(misc::system_set(), vec![GameSystem::GetMousePosition]);
    assert_eq!(my_egui::system_set(), vec![GameSystem::ChooseImageMenu]);
    assert_eq!(
        player::system_set(),
        vec![GameSystem::PlayerRunWalk, GameSystem::PlayerFall, GameSystem::ApplyVelToController]
    );
}

#[test]
fn outline_mesh_joins_line_strings_into_closed_loops() {
    let strings: Vec<Vec<(i32, i32)>> = vec![vec![(0, 0), (1, 0), (1, 1)], vec![(5, 5), (6, 5)]];
    let (points, indices) = outline_mesh(&strings);
    assert_eq!(points, vec![(0, 0), (1, 0), (1, 1), (5, 5), (6, 5)]);
    assert_eq!(indices, vec![[0, 1], [1, 2], [2, 0], [3, 4], [4, 3]]);
}

#[test]
fn outline_mesh_of_nothing_is_empty() {
    let strings: Vec<Vec<u8>> = vec![];
    let (points, indices) = outline_mesh(&strings);
    assert!(points.is_empty());
    assert!(indices.is_empty());
    let strings: Vec<Vec<u8>> = vec![vec![], vec![7], vec![]];
    let (points, indices) = outline_mesh(&strings);
    assert_eq!(points, vec![7]);
    assert_eq!(indices, vec![[0, 0]]);
}

#[test]
fn polygon_outline_is_a_closed_loop() {
    assert_eq!(polygon_outline(4), vec![[0, 1], [1, 2], [2, 3], [3, 0]]);
    assert_eq!(polygon_outline(1), vec![[0, 0]]);
    assert!(polygon_outline(0).is_empty());
}

#[test]
fn polygon_outline_matches_single_line_string() {
    let strings = vec![vec!['a', 'b', 'c', 'd', 'e']];
    let (_, indices) = outline_mesh(&strings);
    assert_eq!(indices, polygon_outline(5));
}

#[test]
fn add_physics_removes_built_requests_by_swap_remove() {
    let mut requests = AddPhysicsRequests::default();
    for e in 0..5 {
        requests.vec.push(request(e, "fruit/apple.png"));
    }
    let outcomes = vec![
        PhysicsOutcome::ColliderBuilt,
        PhysicsOutcome::CachedCollider,
        PhysicsOutcome::ColliderBuilt,
        PhysicsOutcome::EntityMissing,
        PhysicsOutcome::ContourMissing,
    ];
    add_physics(&mut requests, &outcomes);
    // Visiting 4, 3, then 2: [0,1,2,3,4] -> swap_remove(2) -> [0,1,4,3];
    // then 0: swap_remove(0) -> [3,1,4].
    assert_eq!(entities(&requests), vec![3, 1, 4]);
}

#[test]
fn add_physics_keeps_every_unbuilt_request() {
    let mut requests = AddPhysicsRequests::default();
    for e in 10..16 {
        requests.vec.push(request(e, "underwater/fish.png"));
    }
    let outcomes = vec![
        PhysicsOutcome::ContourMissing,
        PhysicsOutcome::ColliderBuilt,
        PhysicsOutcome::ColliderBuilt,
        PhysicsOutcome::EntityMissing,
        PhysicsOutcome::CachedCollider,
        PhysicsOutcome::ColliderBuilt,
    ];
    add_physics(&mut requests, &outcomes);
    let mut left = entities(&requests);
    left.sort();
    assert_eq!(left, vec![10, 13, 14]);
}

#[test]
fn add_physics_all_built_empties_queue() {
    let mut requests = AddPhysicsRequests::default();
    requests.vec.push(request(1, "a.png"));
    requests.vec.push(request(2, "b.png"));
    add_physics(&mut requests, &vec![PhysicsOutcome::ColliderBuilt, PhysicsOutcome::ColliderBuilt]);
    assert!(requests.vec.is_empty());
    let mut empty = AddPhysicsRequests::default();
    add_physics(&mut empty, &vec![]);
    assert!(empty.vec.is_empty());
}

#[test]
fn spawn_object_queues_request_from_menu_state() {
    let mut requests = AddPhysicsRequests::default();
    let state = State::default();
    spawn_object_at_mouse(&mut requests, &state, true, || 42);
    let fixed = State { img_path: "fruit/pear.png".to_string(), rigid_body_fixed: true };
    spawn_object_at_mouse(&mut requests, &fixed, false, || -> u64 { panic!("no click, no spawn") });
    spawn_object_at_mouse(&mut requests, &fixed, true, || 43);
    assert_eq!(requests.vec.len(), 2);
    assert_eq!(requests.vec[0].entity, 42);
    assert_eq!(requests.vec[0].img_path, "flask.png");
    assert_eq!(requests.vec[0].rigid_body, RigidBodyKind::Dynamic);
    assert_eq!(requests.vec[1].entity, 43);
    assert_eq!(requests.vec[1].img_path, "fruit/pear.png");
    assert_eq!(requests.vec[1].rigid_body, RigidBodyKind::Fixed);
}

#[test]
fn menu_state_starts_on_flask() {
    let state = State::default();
    assert_eq!(state.img_path, "flask.png");
    assert!(!state.rigid_body_fixed);
}

#[test]
fn create_polygon_collects_points_until_control_click() {
    let mut polygon: PolygonInMaking<(i32, i32)> = PolygonInMaking::default();
    assert!(create_polygon(&mut polygon, false, false, (9, 9)).is_none());
    assert!(polygon.vertices.is_empty());
    assert!(create_polygon(&mut polygon, true, false, (0, 0)).is_none());
    assert!(create_polygon(&mut polygon, false, true, (9, 9)).is_none());
    assert!(create_polygon(&mut polygon, true, false, (4, 0)).is_none());
    assert_eq!(polygon.vertices, vec![(0, 0), (4, 0)]);
    let finished = create_polygon(&mut polygon, true, true, (4, 3)).unwrap();
    assert_eq!(finished.vertices, vec![(0, 0), (4, 0), (4, 3)]);
    assert_eq!(finished.indices, vec![[0, 1], [1, 2], [2, 0]]);
    assert!(polygon.vertices.is_empty());
}

#[test]
fn create_polygon_single_control_click() {
    let mut polygon: PolygonInMaking<u8> = PolygonInMaking::default();
    let finished = create_polygon(&mut polygon, true, true, 5).unwrap();
    assert_eq!(finished.vertices, vec![5]);
    assert_eq!(finished.indices, vec![[0, 0]]);
}

#[test]
fn run_walk_directions() {
    let step = player_run_walk(false, false, false);
    assert_eq!((step.sign, step.move_direction, step.running), (0, 0, false));
    let step = player_run_walk(true, false, false);
    assert_eq!((step.sign, step.move_direction), (-1, -1));
    let step = player_run_walk(false, true, true);
    assert_eq!((step.sign, step.move_direction, step.running), (1, 2, true));
    let step = player_run_walk(true, true, true);
    assert_eq!((step.sign, step.move_direction), (-1, -2));
    let step = player_run_walk(false, false, true);
    assert_eq!((step.sign, step.move_direction, step.running), (0, 0, true));
}

#[test]
fn standing_player_shows_idle_frame() {
    let step = player_run_walk(false, false, true);
    assert_eq!(next_sprite_frame(4, step.move_direction, true, 9), IDLE_FRAME);
    let step = player_run_walk(false, true, false);
    assert_eq!(next_sprite_frame(4, step.move_direction, true, 9), 5);
}

#[test]
fn sprite_flip_follows_scale_sign() {
    assert!(sprite_needs_flip(1, 1));
    assert!(sprite_needs_flip(-1, -1));
    assert!(!sprite_needs_flip(1, -1));
    assert!(!sprite_needs_flip(-1, 1));
    assert!(!sprite_needs_flip(0, 1));
    assert!(!sprite_needs_flip(i32::MIN, i32::MAX));
    assert!(sprite_needs_flip(i32::MIN, i32::MIN));
}

#[test]
fn level_paths() {
    assert_eq!(level_asset_path("level_1"), "assets/levels/level_1.lvl");
    assert_eq!(load(true, true), Some("assets/levels/level_1.lvl".to_string()));
    assert_eq!(load(true, false), None);
    assert_eq!(load(false, true), None);
}

#[test]
fn asset_paths_drop_dot_and_assets() {
    let parts: Vec<String> = [".", "assets", "fruit", "apple.png"].iter().map(|s| s.to_string()).collect();
    assert_eq!(asset_relative_path(&parts), "fruit/apple.png");
    let parts: Vec<String> = ["assets", "underwater", "deep", "fish.png"].iter().map(|s| s.to_string()).collect();
    assert_eq!(asset_relative_path(&parts), "underwater/deep/fish.png");
    let parts: Vec<String> = [".", "assets"].iter().map(|s| s.to_string()).collect();
    assert_eq!(asset_relative_path(&parts), "");
    let parts: Vec<String> = ["..", "assets2", "x"].iter().map(|s| s.to_string()).collect();
    assert_eq!(asset_relative_path(&parts), "../assets2/x");
}

#[test]
fn physics_step_follows_the_checks_in_order() {
    let strings: Vec<Vec<(i32, i32)>> = vec![vec![(0, 0), (1, 0), (1, 1)], vec![(5, 5), (6, 5), (6, 6)]];
    assert_eq!(physics_step(false, false, Some(&strings)), (PhysicsOutcome::EntityMissing, None));
    assert_eq!(physics_step(true, true, Some(&strings)), (PhysicsOutcome::CachedCollider, None));
    assert_eq!(physics_step::<(i32, i32)>(true, false, None), (PhysicsOutcome::ContourMissing, None));
    let (outcome, mesh) = physics_step(true, false, Some(&strings));
    assert_eq!(outcome, PhysicsOutcome::ColliderBuilt);
    let (points, indices) = mesh.unwrap();
    assert_eq!(points, vec![(0, 0), (1, 0), (1, 1), (5, 5), (6, 5), (6, 6)]);
    assert_eq!(indices, vec![[0, 1], [1, 2], [2, 0], [3, 4], [4, 5], [5, 3]]);
}

#[test]
fn contour_needed_only_for_live_uncached_requests() {
    assert!(needs_contour(true, false));
    assert!(!needs_contour(true, true));
    assert!(!needs_contour(false, false));
    assert!(!needs_contour(false, true));
}

#[test]
fn jump_only_from_the_ground() {
    let step = player_jump(true, true);
    assert!(step.jump && !step.on_ground);
    let step = player_jump(true, false);
    assert!(!step.jump && step.on_ground);
    let step = player_jump(false, true);
    assert!(!step.jump && !step.on_ground);
    let step = player_jump(false, false);
    assert!(!step.jump && !step.on_ground);
}
