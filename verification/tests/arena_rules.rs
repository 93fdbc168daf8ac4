use squeeze_core::arena::{
    arena_collider_half_extents, arena_contains, check_arena_residency,
    damage_players_outside_arena, outside_arena_damage, rects_intersect, Arena, ArenaResident,
    Force, ResidentBody, ARENA_MIN_SIZE_MILLI, ARENA_START_HEIGHT_MILLI, ARENA_START_WIDTH_MILLI,
};
use squeeze_core::level::{
    build_level, ASTEROID_MAX_SCALE_MILLI, ASTEROID_MIN_SCALE_MILLI, LEVEL_MAX_ASTEROIDS,
    LEVEL_MAX_POWERUPS, LEVEL_MIN_ASTEROIDS, LEVEL_MIN_POWERUPS, SPAWN_BOX_HALF_HEIGHT_MILLI,
    SPAWN_BOX_HALF_WIDTH_MILLI, TAU_MILLI_RAD,
};
use squeeze_core::powerup::{Debuff, PowerUp};

#[test]
fn arena_shrinks_linearly() {
    let mut arena = Arena::new(ARENA_START_WIDTH_MILLI, ARENA_START_HEIGHT_MILLI, 0, Force::Neutral);
    arena.shrink(1000);
    // one second of a 120-second decay: a 120th of the starting size is gone
    assert_eq!(arena.current_width_milli, 1_800_000 - 15_000);
    assert_eq!(arena.current_height_milli, 900_000 - 7_500);
    assert_eq!(arena.starting_width_milli, 1_800_000);
}

#[test]
fn arena_never_shrinks_below_the_floor_and_never_grows() {
    let mut arena = Arena::new(ARENA_START_WIDTH_MILLI, ARENA_START_HEIGHT_MILLI, 0, Force::Neutral);
    let mut last_w = arena.current_width_milli;
    for _ in 0..200 {
        arena.shrink(1_000_000); // huge ticks
        assert!(arena.current_width_milli <= last_w);
        assert!(arena.current_width_milli >= ARENA_MIN_SIZE_MILLI);
        assert!(arena.current_height_milli >= ARENA_MIN_SIZE_MILLI);
        last_w = arena.current_width_milli;
    }
    assert!(ARENA_MIN_SIZE_MILLI > 0);
    assert_eq!(arena.current_width_milli, ARENA_MIN_SIZE_MILLI);
}

#[test]
fn rectangle_intersection_is_symmetric_contact_counts() {
    // touching edge to edge counts as intersecting
    assert!(rects_intersect(0, 0, 1000, 1000, 2000, 0, 1000, 1000));
    assert!(!rects_intersect(0, 0, 1000, 1000, 2001, 0, 1000, 1000));
    assert!(rects_intersect(0, 0, 1000, 1000, -1500, 900, 500, 500));
    assert!(!rects_intersect(0, 0, 1000, 1000, 0, -2000, 400, 400));
}

#[test]
fn residents_inside_the_arena_are_not_flagged() {
    let arena = Arena::new(ARENA_START_WIDTH_MILLI, ARENA_START_HEIGHT_MILLI, 0, Force::Neutral);
    assert!(arena_contains(&arena, 0, 0, 16_000, 16_000));
    assert!(arena_contains(&arena, 899_000, 0, 16_000, 16_000));
    assert!(!arena_contains(&arena, 950_000, 0, 16_000, 16_000));
}

#[test]
fn residency_marks_record_the_exit_moment() {
    let mut r = ArenaResident::default();
    assert!(!r.is_outside);

    // seen inside at t=100: still a resident, exit clock keeps following
    r.observe(true, 100);
    assert!(!r.is_outside);
    assert_eq!(r.time_exited_ms, 100);

    // seen outside at t=250: flagged, and the exit time is when it left
    r.observe(false, 250);
    assert!(r.is_outside);
    assert_eq!(r.time_exited_ms, 250);

    // still outside later: the exit time does not move
    r.observe(false, 900);
    assert!(r.is_outside);
    assert_eq!(r.time_exited_ms, 250);
}

#[test]
fn exposure_damage_scales_with_time() {
    assert_eq!(outside_arena_damage(1000), 3400);
    assert_eq!(outside_arena_damage(500), 1700);
    assert_eq!(outside_arena_damage(0), 0);
}

#[test]
fn damage_sweep_hits_exactly_the_outsiders() {
    let inside = ArenaResident { is_outside: false, time_exited_ms: 0 };
    let outside = ArenaResident { is_outside: true, time_exited_ms: 10 };
    let residents = vec![(inside, 0usize), (outside, 1usize), (outside, 4usize)];
    let events = damage_players_outside_arena(&residents, 1000);
    assert_eq!(events.len(), 2);
    assert_eq!(events[0].entity, 1);
    assert_eq!(events[1].entity, 4);
    assert_eq!(events[0].amount, 3400);
}

#[test]
fn collider_follows_the_current_size() {
    let mut arena = Arena::new(ARENA_START_WIDTH_MILLI, ARENA_START_HEIGHT_MILLI, 0, Force::Neutral);
    arena.shrink(1000);
    let (hw, hh) = arena_collider_half_extents(&arena);
    assert_eq!(hw, arena.current_width_milli / 2);
    assert_eq!(hh, arena.current_height_milli / 2);
}

#[test]
fn built_levels_stay_inside_the_rules() {
    for _ in 0..20 {
        let plan = build_level(42);
        assert_eq!(plan.arena.time_spawned_ms, 42);
        assert_eq!(plan.arena.current_width_milli, ARENA_START_WIDTH_MILLI);
        assert_eq!(plan.arena.current_height_milli, ARENA_START_HEIGHT_MILLI);
        assert!(matches!(plan.arena.friendly_force, Force::Neutral));

        let np = plan.powerups.len() as u64;
        assert!(LEVEL_MIN_POWERUPS <= np && np < LEVEL_MAX_POWERUPS);
        for p in &plan.powerups {
            assert!(-SPAWN_BOX_HALF_WIDTH_MILLI <= p.x_milli && p.x_milli < SPAWN_BOX_HALF_WIDTH_MILLI);
            assert!(
                -SPAWN_BOX_HALF_HEIGHT_MILLI <= p.y_milli && p.y_milli < SPAWN_BOX_HALF_HEIGHT_MILLI
            );
            let pair_ok = matches!(
                (&p.powerup, &p.debuff),
                (PowerUp::RapidFire, Debuff::Slowed) | (PowerUp::Scattergun, Debuff::Inaccuracy)
            );
            assert!(pair_ok);
        }

        let na = plan.asteroids.len() as u64;
        assert!(LEVEL_MIN_ASTEROIDS <= na && na < LEVEL_MAX_ASTEROIDS);
        for a in &plan.asteroids {
            assert!(-SPAWN_BOX_HALF_WIDTH_MILLI <= a.x_milli && a.x_milli < SPAWN_BOX_HALF_WIDTH_MILLI);
            assert!(
                ASTEROID_MIN_SCALE_MILLI <= a.asteroid.scale_milli
                    && a.asteroid.scale_milli < ASTEROID_MAX_SCALE_MILLI
            );
            assert!(0 <= a.rotation_milli_rad && a.rotation_milli_rad < TAU_MILLI_RAD);
        }
    }
}

#[test]
fn asteroid_setup_derives_collider_and_health() {
    let a = squeeze_core::asteroid::Asteroid::default();
    assert_eq!(a.scale_milli, 16_000);
    let setup = squeeze_core::asteroid::asteroid_setup(&a);
    assert_eq!(setup.collider_half_milli, 8_000);
    assert_eq!(setup.health.current, 20_000);
    assert_eq!(setup.health.max, 20_000);
}

#[test]
fn the_residency_sweep_marks_each_body_against_the_boundary() {
    let arena = Arena::new(ARENA_START_WIDTH_MILLI, ARENA_START_HEIGHT_MILLI, 0, Force::Neutral);
    let body = |x: i64| ResidentBody {
        resident: ArenaResident::default(),
        x_milli: x,
        y_milli: 0,
        half_w_milli: 16_000,
        half_h_milli: 16_000,
    };
    let mut residents = vec![body(0), body(2_000_000)];
    check_arena_residency(&mut residents, &arena, 500);
    assert!(!residents[0].resident.is_outside);
    assert_eq!(residents[0].resident.time_exited_ms, 500);
    assert!(residents[1].resident.is_outside);
    assert_eq!(residents[1].resident.time_exited_ms, 500);

    // still outside on the next pass: the exit moment stays where it was
    check_arena_residency(&mut residents, &arena, 900);
    assert_eq!(residents[1].resident.time_exited_ms, 500);
    assert_eq!(residents[0].resident.time_exited_ms, 900);
}
