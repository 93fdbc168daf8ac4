//! The shrinking rectangular play boundary, residency in it, and the damage
//! taken outside it. Sizes and positions are thousandths of a world unit.

use vstd::prelude::*;
use crate::health::DamagedEvent;

verus! {

/// Width of the arena a round starts with, in thousandths of a world unit.
pub const ARENA_START_WIDTH_MILLI: i64 = 1_800_000;

/// Height of the arena a round starts with, in thousandths of a world unit.
pub const ARENA_START_HEIGHT_MILLI: i64 = 900_000;

/// The floor the arena shrinks toward: a thousandth of a unit, never zero.
pub const ARENA_MIN_SIZE_MILLI: i64 = 1;

/// Upper bound on any arena dimension; keeps the shrink arithmetic in range.
pub const ARENA_MAX_SIZE_MILLI: i64 = 1_000_000_000;

/// The arena shrinks by its full starting size over this many milliseconds.
pub const ARENA_SHRINK_PERIOD_MS: u64 = 120_000;

/// Damage taken per second while outside the arena, in hundredths of a point.
pub const OUTSIDE_ARENA_DAMAGE_CENTI_PER_S: u64 = 3400;

/// The force a thing belongs to; the arena itself is friendly to one (or none).
#[derive(Clone, Copy, Debug, PartialEq, Eq, Structural)]
pub enum Force {
    Red,
    Yellow,
    Blue,
    Pink,
    Green,
    Neutral,
}

impl Default for Force {
    fn default() -> (f: Self)
        ensures
            f == Force::Red,
    {
        Force::Red
    }
}

/// The play boundary: a rectangle that shrinks linearly over time from its
/// starting size toward a small positive floor, and never below it.
#[derive(Clone, Copy, Debug, PartialEq, Eq, Structural)]
pub struct Arena {
    pub starting_width_milli: i64,
    pub starting_height_milli: i64,
    pub current_width_milli: i64,
    pub current_height_milli: i64,
    pub time_spawned_ms: u64,
    pub friendly_force: Force,
}

impl Arena {
    pub open spec fn wf(self) -> bool {
        &&& ARENA_MIN_SIZE_MILLI <= self.starting_width_milli <= ARENA_MAX_SIZE_MILLI
        &&& ARENA_MIN_SIZE_MILLI <= self.starting_height_milli <= ARENA_MAX_SIZE_MILLI
        &&& ARENA_MIN_SIZE_MILLI <= self.current_width_milli <= self.starting_width_milli
        &&& ARENA_MIN_SIZE_MILLI <= self.current_height_milli <= self.starting_height_milli
    }

    /// A fresh arena fills its whole starting size.
    pub fn new(
        starting_width_milli: i64,
        starting_height_milli: i64,
        time_spawned_ms: u64,
        friendly_force: Force,
    ) -> (a: Arena)
        requires
            ARENA_MIN_SIZE_MILLI <= starting_width_milli <= ARENA_MAX_SIZE_MILLI,
            ARENA_MIN_SIZE_MILLI <= starting_height_milli <= ARENA_MAX_SIZE_MILLI,
        ensures
            a == (Arena {
                starting_width_milli,
                starting_height_milli,
                current_width_milli: starting_width_milli,
                current_height_milli: starting_height_milli,
                time_spawned_ms,
                friendly_force,
            }),
            a.wf(),
    {
        Arena {
            starting_width_milli,
            starting_height_milli,
            current_width_milli: starting_width_milli,
            current_height_milli: starting_height_milli,
            time_spawned_ms,
            friendly_force,
        }
    }

    /// One dimension after shrinking for `dt_ms`: linear decay by the starting
    /// size over the shrink period, floored at the positive minimum.
    pub open spec fn spec_shrunk(start: int, current: int, dt_ms: int) -> int {
        let next = current - start * dt_ms / ARENA_SHRINK_PERIOD_MS as int;
        if next > ARENA_MIN_SIZE_MILLI as int {
            next
        } else {
            ARENA_MIN_SIZE_MILLI as int
        }
    }

    /// Shrinks the arena for a tick of `dt_ms` milliseconds. The current size
    /// never grows and never drops below the positive floor.
    pub fn shrink(&mut self, dt_ms: u32)
        requires
            old(self).wf(),
        ensures
            final(self).wf(),
            final(self).current_width_milli == Self::spec_shrunk(
                old(self).starting_width_milli as int,
                old(self).current_width_milli as int,
                dt_ms as int,
            ),
            final(self).current_height_milli == Self::spec_shrunk(
                old(self).starting_height_milli as int,
                old(self).current_height_milli as int,
                dt_ms as int,
            ),
            final(self).current_width_milli <= old(self).current_width_milli,
            final(self).current_height_milli <= old(self).current_height_milli,
            final(self).current_width_milli >= ARENA_MIN_SIZE_MILLI,
            final(self).current_height_milli >= ARENA_MIN_SIZE_MILLI,
            ARENA_MIN_SIZE_MILLI > 0,
            final(self).starting_width_milli == old(self).starting_width_milli,
            final(self).starting_height_milli == old(self).starting_height_milli,
            final(self).time_spawned_ms == old(self).time_spawned_ms,
            final(self).friendly_force == old(self).friendly_force,
    {
        self.current_width_milli = Self::shrink_dimension(
            self.starting_width_milli,
            self.current_width_milli,
            dt_ms,
        );
        self.current_height_milli = Self::shrink_dimension(
            self.starting_height_milli,
            self.current_height_milli,
            dt_ms,
        );
    }

    fn shrink_dimension(start: i64, current: i64, dt_ms: u32) -> (next: i64)
        requires
            ARENA_MIN_SIZE_MILLI <= start <= ARENA_MAX_SIZE_MILLI,
            ARENA_MIN_SIZE_MILLI <= current <= start,
        ensures
            next == Self::spec_shrunk(start as int, current as int, dt_ms as int),
            ARENA_MIN_SIZE_MILLI <= next <= current,
    {
        proof {
            assert(0 <= start as int * (dt_ms as int) <= ARENA_MAX_SIZE_MILLI as int * (
            u32::MAX as int)) by (nonlinear_arith)
                requires
                    0 <= start as int <= ARENA_MAX_SIZE_MILLI as int,
                    0 <= dt_ms as int <= u32::MAX as int,
            ;
        }
        let loss = start * (dt_ms as i64) / (ARENA_SHRINK_PERIOD_MS as i64);
        if current - loss > ARENA_MIN_SIZE_MILLI {
            current - loss
        } else {
            ARENA_MIN_SIZE_MILLI
        }
    }
}

/// Whether two axis-aligned rectangles, given by their centers and half
/// extents, touch or overlap. A resident that does not intersect the arena's
/// boundary rectangle is outside it.
pub fn rects_intersect(
    center_ax_milli: i64,
    center_ay_milli: i64,
    half_aw_milli: i64,
    half_ah_milli: i64,
    center_bx_milli: i64,
    center_by_milli: i64,
    half_bw_milli: i64,
    half_bh_milli: i64,
) -> (r: bool)
    requires
        -1_000_000_000_000 <= center_ax_milli <= 1_000_000_000_000,
        -1_000_000_000_000 <= center_ay_milli <= 1_000_000_000_000,
        -1_000_000_000_000 <= center_bx_milli <= 1_000_000_000_000,
        -1_000_000_000_000 <= center_by_milli <= 1_000_000_000_000,
        0 <= half_aw_milli <= 1_000_000_000_000,
        0 <= half_ah_milli <= 1_000_000_000_000,
        0 <= half_bw_milli <= 1_000_000_000_000,
        0 <= half_bh_milli <= 1_000_000_000_000,
    ensures
        r == {
            &&& center_ax_milli - center_bx_milli <= half_aw_milli + half_bw_milli
            &&& center_bx_milli - center_ax_milli <= half_aw_milli + half_bw_milli
            &&& center_ay_milli - center_by_milli <= half_ah_milli + half_bh_milli
            &&& center_by_milli - center_ay_milli <= half_ah_milli + half_bh_milli
        },
{
    let dx = if center_ax_milli >= center_bx_milli {
        center_ax_milli - center_bx_milli
    } else {
        center_bx_milli - center_ax_milli
    };
    let dy = if center_ay_milli >= center_by_milli {
        center_ay_milli - center_by_milli
    } else {
        center_by_milli - center_ay_milli
    };
    dx <= half_aw_milli + half_bw_milli && dy <= half_ah_milli + half_bh_milli
}

/// Whether an entity sits inside (intersects) the arena centered at the
/// origin with its current size.
pub fn arena_contains(
    arena: &Arena,
    center_x_milli: i64,
    center_y_milli: i64,
    half_w_milli: i64,
    half_h_milli: i64,
) -> (r: bool)
    requires
        arena.wf(),
        -1_000_000_000_000 <= center_x_milli <= 1_000_000_000_000,
        -1_000_000_000_000 <= center_y_milli <= 1_000_000_000_000,
        0 <= half_w_milli <= 1_000_000_000_000,
        0 <= half_h_milli <= 1_000_000_000_000,
    ensures
        r == {
            &&& center_x_milli - 0 <= arena.current_width_milli / 2 + half_w_milli
            &&& 0 - center_x_milli <= arena.current_width_milli / 2 + half_w_milli
            &&& center_y_milli - 0 <= arena.current_height_milli / 2 + half_h_milli
            &&& 0 - center_y_milli <= arena.current_height_milli / 2 + half_h_milli
        },
{
    rects_intersect(
        center_x_milli,
        center_y_milli,
        arena.current_width_milli / 2,
        arena.current_height_milli / 2,
        0,
        0,
        half_w_milli,
        half_h_milli,
    )
}

/// Replicated residency state of an entity that must stay in the arena.
#[derive(Clone, Copy, Debug, PartialEq, Eq, Structural)]
pub struct ArenaResident {
    pub is_outside: bool,
    pub time_exited_ms: u64,
}

impl Default for ArenaResident {
    /// A fresh resident counts as inside.
    fn default() -> (r: Self)
        ensures
            r == (ArenaResident { is_outside: false, time_exited_ms: 0u64 }),
    {
        ArenaResident { is_outside: false, time_exited_ms: 0 }
    }
}

impl ArenaResident {
    /// One residency check at `now_ms`: an entity found inside stays (or
    /// becomes) a resident in good standing; one found outside is marked, and
    /// the time it exited is the moment it was last seen inside.
    pub fn observe(&mut self, inside: bool, now_ms: u64)
        ensures
            final(self).is_outside == !inside,
            final(self).time_exited_ms == if old(self).is_outside {
                old(self).time_exited_ms
            } else {
                now_ms
            },
    {
        if !self.is_outside {
            self.time_exited_ms = now_ms;
        }
        self.is_outside = !inside;
    }
}

/// Damage an entity takes for spending `dt_ms` milliseconds outside the
/// arena, in hundredths of a point.
pub fn outside_arena_damage(dt_ms: u32) -> (d: u64)
    ensures
        d == OUTSIDE_ARENA_DAMAGE_CENTI_PER_S as int * dt_ms as int / 1000,
{
    OUTSIDE_ARENA_DAMAGE_CENTI_PER_S * (dt_ms as u64) / 1000
}

/// The half extents of the arena's boundary collider: half its current size
/// on each axis.
pub fn arena_collider_half_extents(arena: &Arena) -> (r: (i64, i64))
    requires
        arena.wf(),
    ensures
        r.0 == arena.current_width_milli / 2,
        r.1 == arena.current_height_milli / 2,
{
    (arena.current_width_milli / 2, arena.current_height_milli / 2)
}

/// A resident's body for the residency sweep: its mark and its rectangle.
#[derive(Clone, Copy, Debug, PartialEq, Eq, Structural)]
pub struct ResidentBody {
    pub resident: ArenaResident,
    pub x_milli: i64,
    pub y_milli: i64,
    pub half_w_milli: i64,
    pub half_h_milli: i64,
}

impl ResidentBody {
    pub open spec fn wf(self) -> bool {
        &&& -1_000_000_000_000 <= self.x_milli <= 1_000_000_000_000
        &&& -1_000_000_000_000 <= self.y_milli <= 1_000_000_000_000
        &&& 0 <= self.half_w_milli <= 1_000_000_000_000
        &&& 0 <= self.half_h_milli <= 1_000_000_000_000
    }

    /// Whether the body intersects the arena (which sits at the origin).
    pub open spec fn spec_inside(self, arena: Arena) -> bool {
        &&& self.x_milli - 0 <= arena.current_width_milli / 2 + self.half_w_milli
        &&& 0 - self.x_milli <= arena.current_width_milli / 2 + self.half_w_milli
        &&& self.y_milli - 0 <= arena.current_height_milli / 2 + self.half_h_milli
        &&& 0 - self.y_milli <= arena.current_height_milli / 2 + self.half_h_milli
    }
}

/// The per-tick residency sweep: every resident is re-marked against the
/// arena's current boundary, and the moment a resident is last seen inside
/// is recorded as its exit time.
pub fn check_arena_residency(residents: &mut Vec<ResidentBody>, arena: &Arena, now_ms: u64)
    requires
        arena.wf(),
        forall|i: int| 0 <= i < old(residents)@.len() ==> (#[trigger] old(residents)@[i]).wf(),
    ensures
        final(residents)@.len() == old(residents)@.len(),
        forall|i: int|
            0 <= i < old(residents)@.len() ==> #[trigger] final(residents)@[i] == (ResidentBody {
                resident: ArenaResident {
                    is_outside: !old(residents)@[i].spec_inside(*arena),
                    time_exited_ms: if old(residents)@[i].resident.is_outside {
                        old(residents)@[i].resident.time_exited_ms
                    } else {
                        now_ms
                    },
                },
                ..old(residents)@[i]
            }),
{
    let n = residents.len();
    let mut i: usize = 0;
    while i < n
        invariant
            i <= n,
            n == residents@.len(),
            n == old(residents)@.len(),
            arena.wf(),
            forall|j: int| i <= j < n ==> residents@[j] == old(residents)@[j],
            forall|j: int| 0 <= j < n ==> (#[trigger] old(residents)@[j]).wf(),
            forall|j: int|
                0 <= j < i ==> #[trigger] residents@[j] == (ResidentBody {
                    resident: ArenaResident {
                        is_outside: !old(residents)@[j].spec_inside(*arena),
                        time_exited_ms: if old(residents)@[j].resident.is_outside {
                            old(residents)@[j].resident.time_exited_ms
                        } else {
                            now_ms
                        },
                    },
                    ..old(residents)@[j]
                }),
        decreases n - i,
    {
        let mut body = residents[i];
        let inside = arena_contains(
            arena,
            body.x_milli,
            body.y_milli,
            body.half_w_milli,
            body.half_h_milli,
        );
        body.resident.observe(inside, now_ms);
        residents.set(i, body);
        i = i + 1;
    }
}

/// The events one resident produces in a sweep: damage for the time spent
/// outside, none while inside.
pub open spec fn spec_outside_events(
    residents: Seq<(ArenaResident, usize)>,
    amount: u32,
) -> Seq<DamagedEvent> {
    residents.filter(|r: (ArenaResident, usize)| r.0.is_outside).map_values(
        |r: (ArenaResident, usize)| DamagedEvent { entity: r.1, amount },
    )
}

/// The damage sweep over every player with a residency mark: each one
/// currently outside the arena takes this tick's worth of exposure damage.
/// Each pair is a residency mark and the entity (health-table index) it
/// belongs to.
pub fn damage_players_outside_arena(
    residents: &Vec<(ArenaResident, usize)>,
    dt_ms: u32,
) -> (events: Vec<DamagedEvent>)
    requires
        dt_ms <= 86_400_000,
    ensures
        events@ == spec_outside_events(
            residents@,
            (OUTSIDE_ARENA_DAMAGE_CENTI_PER_S as int * dt_ms as int / 1000) as u32,
        ),
{
    let amount: u32 = (OUTSIDE_ARENA_DAMAGE_CENTI_PER_S * (dt_ms as u64) / 1000) as u32;
    let ghost pred = |r: (ArenaResident, usize)| r.0.is_outside;
    let ghost f = |r: (ArenaResident, usize)| DamagedEvent { entity: r.1, amount };
    let mut events: Vec<DamagedEvent> = Vec::new();
    let mut i: usize = 0;
    while i < residents.len()
        invariant
            i <= residents@.len(),
            pred == (|r: (ArenaResident, usize)| r.0.is_outside),
            f == (|r: (ArenaResident, usize)| DamagedEvent { entity: r.1, amount }),
            events@ == residents@.take(i as int).filter(pred).map_values(f),
        decreases residents@.len() - i,
    {
        let r = residents[i];
        if r.0.is_outside {
            events.push(DamagedEvent { entity: r.1, amount });
        }
        proof {
            let taken = residents@.take(i as int);
            assert(residents@.take(i + 1) =~= taken.push(r));
            Seq::filter_distributes_over_add(taken, seq![r], pred);
            reveal_with_fuel(Seq::filter, 2);
            assert(seq![r].filter(pred) =~= if pred(r) { seq![r] } else { Seq::empty() });
            assert(taken.push(r) =~= taken + seq![r]);
            assert(residents@.take(i + 1).filter(pred) =~= if pred(r) {
                taken.filter(pred).push(r)
            } else {
                taken.filter(pred)
            });
            assert(residents@.take(i + 1).filter(pred).map_values(f) =~= if pred(r) {
                taken.filter(pred).map_values(f).push(f(r))
            } else {
                taken.filter(pred).map_values(f)
            });
        }
        i = i + 1;
    }
    proof {
        assert(residents@.take(residents@.len() as int) =~= residents@);
    }
    events
}

} // verus!
