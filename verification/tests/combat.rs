use squeeze_core::health::{DamagedEvent, Health, DEFAULT_HEALTH_CENTI};
use squeeze_core::powerup::{collect_powerup, Debuff, PowerUp};
use squeeze_core::projectiles::{
    Projectile, ProjectileSet, LASER_MAX_AGE_MS, MAX_LIVE_LASERS,
};
use squeeze_core::weapons::{
    laser_impulse, laser_strike, Weapon, WeaponType, DEFAULT_LASER_RATE_MILLI, LASER_DAMAGE_CENTI,
    SCATTER_SPREAD_MILLI_RAD, SPAWN_LASER_RATE_MILLI,
};

#[test]
fn health_damage_is_exact_and_clamped() {
    let mut h = Health::default();
    assert_eq!(h.current, DEFAULT_HEALTH_CENTI);
    assert_eq!(h.max, DEFAULT_HEALTH_CENTI);

    let died = h.apply_damage(5000);
    assert!(!died);
    assert_eq!(h.current, 5000);
    assert_eq!(h.max, DEFAULT_HEALTH_CENTI);

    // more damage than is left: clamped to zero, not negative
    let died = h.apply_damage(9999);
    assert!(died);
    assert_eq!(h.current, 0);
    assert_eq!(h.max, DEFAULT_HEALTH_CENTI);
}

#[test]
fn health_death_fires_exactly_once() {
    let mut h = Health::new(100);
    assert!(h.apply_damage(100));
    // already dead: further hits never report death again
    assert!(!h.apply_damage(50));
    assert!(!h.apply_damage(0));
    assert_eq!(h.current, 0);
}

#[test]
fn health_zero_damage_kills_nobody() {
    let mut h = Health::new(1);
    assert!(!h.apply_damage(0));
    assert_eq!(h.current, 1);
}

#[test]
fn damage_pass_applies_events_in_order_and_reports_deaths() {
    let mut healths = vec![Health::new(100), Health::new(50), Health::new(200)];
    let events = vec![
        DamagedEvent { entity: 1, amount: 30 },
        DamagedEvent { entity: 7, amount: 99 }, // nobody there: falls through
        DamagedEvent { entity: 1, amount: 20 }, // second hit kills entity 1
        DamagedEvent { entity: 1, amount: 20 }, // already dead: no second death
        DamagedEvent { entity: 0, amount: 100 },
    ];
    let deaths = squeeze_core::health::update_health_on_damage(&mut healths, &events);
    assert_eq!(deaths, vec![1, 0]);
    assert_eq!(healths[0].current, 0);
    assert_eq!(healths[1].current, 0);
    assert_eq!(healths[2].current, 200);
}

#[test]
fn weapon_respects_fire_rate() {
    // 1.5 shots per second: the cooldown is 1_000_000 / 1500 = 666 ms
    let mut w = Weapon::new(WeaponType::Laser { fire_rate_milli: SPAWN_LASER_RATE_MILLI });
    assert!(w.try_fire(600).is_none());
    assert_eq!(w.last_fire_ms, 0);

    let plan = w.try_fire(667).expect("cooldown has passed");
    assert_eq!(plan.offsets_milli_rad, vec![0]);
    assert_eq!(w.last_fire_ms, 667);

    // 666 ms after the last shot is still too soon (the bound is strict)
    assert!(w.try_fire(1333).is_none());
    assert!(w.try_fire(1334).is_some());
}

#[test]
fn default_weapon_is_the_standard_laser() {
    let w = Weapon::default();
    assert_eq!(
        w.weapon_type,
        WeaponType::Laser { fire_rate_milli: DEFAULT_LASER_RATE_MILLI }
    );
    assert_eq!(w.last_fire_ms, 0);
}

#[test]
fn scattergun_spreads_its_pellets() {
    let mut w = Weapon::new(WeaponType::Scattergun { fire_rate_milli: 1000, count: 5 });
    let plan = w.try_fire(2000).expect("first shot");
    assert_eq!(plan.offsets_milli_rad.len(), 5);
    for offset in plan.offsets_milli_rad {
        assert!(-SCATTER_SPREAD_MILLI_RAD <= offset && offset <= SCATTER_SPREAD_MILLI_RAD);
    }
}

#[test]
fn laser_strike_spares_the_shooter() {
    assert_eq!(laser_strike(3, Some(3)), None);
    assert_eq!(laser_strike(3, Some(4)), Some(LASER_DAMAGE_CENTI));
    assert_eq!(laser_strike(3, None), Some(LASER_DAMAGE_CENTI));
}

#[test]
fn laser_impulse_points_along_the_facing() {
    assert_eq!(laser_impulse(1000, 0), (50_000, 0));
    assert_eq!(laser_impulse(0, -1000), (0, -50_000));
}

fn projectile(id: u64, spawn_time_ms: u64) -> Projectile {
    Projectile {
        id,
        owner: 0,
        spawn_time_ms,
        pos_x_milli: 0,
        pos_y_milli: 0,
        dir_x_milli: 0,
        dir_y_milli: 1000,
    }
}

#[test]
fn cap_never_exceeded_and_oldest_go_first() {
    let mut set = ProjectileSet::new();
    for i in 0..40u64 {
        set.spawn(projectile(i, 100 * i));
    }
    set.enforce_cap(MAX_LIVE_LASERS);
    assert_eq!(set.len(), MAX_LIVE_LASERS);
    // the ten oldest (spawn times 0..900) were evicted
    for p in &set.live {
        assert!(p.spawn_time_ms >= 1000);
    }
}

#[test]
fn cap_leaves_a_small_population_alone() {
    let mut set = ProjectileSet::new();
    set.spawn(projectile(1, 10));
    set.spawn(projectile(2, 20));
    set.enforce_cap(MAX_LIVE_LASERS);
    assert_eq!(set.len(), 2);
    assert_eq!(set.live[0].id, 1);
    assert_eq!(set.live[1].id, 2);
}

#[test]
fn old_lasers_expire() {
    let mut set = ProjectileSet::new();
    set.spawn(projectile(1, 100)); // age 900 at t=1000: expired
    set.spawn(projectile(2, 200)); // age exactly 800: kept (the bound is strict)
    set.spawn(projectile(3, 950));
    set.retire_expired(1000);
    assert_eq!(set.len(), 2);
    assert_eq!(set.live[0].id, 2);
    assert_eq!(set.live[1].id, 3);
    assert_eq!(LASER_MAX_AGE_MS, 800);
}

#[test]
fn lasers_fly_along_their_facing() {
    let mut set = ProjectileSet::new();
    let mut p = projectile(1, 0);
    p.pos_x_milli = 5_000;
    p.dir_x_milli = -1000;
    p.dir_y_milli = 0;
    set.spawn(p);
    set.advance_all(16);
    // one world unit per millisecond along the facing
    assert_eq!(set.live[0].pos_x_milli, 5_000 - 16_000);
    assert_eq!(set.live[0].pos_y_milli, 0);
}

#[test]
fn collecting_a_powerup_applies_the_pair_and_resets_the_weapon() {
    let mut player = squeeze_core::player::Player::default();
    let mut weapon = Weapon::new(WeaponType::Scattergun { fire_rate_milli: 500, count: 3 });
    weapon.try_fire(10_000).expect("shot before pickup");
    collect_powerup(&mut player, &mut weapon, PowerUp::RapidFire, Debuff::Slowed);
    assert!(matches!(player.powerup, Some(PowerUp::RapidFire)));
    assert!(matches!(player.debuff, Some(Debuff::Slowed)));
    assert_eq!(
        weapon.weapon_type,
        WeaponType::Laser { fire_rate_milli: DEFAULT_LASER_RATE_MILLI }
    );
    assert_eq!(weapon.last_fire_ms, 0);
}

#[test]
fn the_health_bar_fraction_is_exact() {
    let mut h = Health::default();
    assert_eq!(h.fraction_milli(), 1000);
    h.apply_damage(2_500);
    assert_eq!(h.fraction_milli(), 750);
    h.apply_damage(90_000);
    assert_eq!(h.fraction_milli(), 0);
}

#[test]
fn one_tick_of_upkeep_enforces_both_caps() {
    let mut set = ProjectileSet::new();
    for i in 0..50u64 {
        // spawn times 0, 20, 40, ...: at t=1000 the first ten have expired
        set.spawn(projectile(i, 20 * i));
    }
    set.maintain(1000);
    assert!(set.len() <= MAX_LIVE_LASERS);
    for p in &set.live {
        assert!(1000 <= p.spawn_time_ms + LASER_MAX_AGE_MS);
        assert!(p.spawn_time_ms >= 380); // the 30 newest of the 40 unexpired
    }
    assert_eq!(set.len(), MAX_LIVE_LASERS);
}

#[test]
fn upkeep_leaves_a_small_fresh_population_untouched() {
    let mut set = ProjectileSet::new();
    set.spawn(projectile(1, 900));
    set.spawn(projectile(2, 950));
    set.maintain(1000);
    assert_eq!(set.len(), 2);
    assert_eq!(set.live[0].id, 1);
    assert_eq!(set.live[1].id, 2);
}
