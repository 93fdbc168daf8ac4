//! Hit points and damage. Reaching zero is death, reported exactly once.

use vstd::prelude::*;

verus! {

/// Default hit points of a freshly spawned ship, in hundredths of a point.
pub const DEFAULT_HEALTH_CENTI: u32 = 10000;

/// Hit points of a ship or an asteroid, in hundredths of a point.
/// `current` never leaves `[0, max]`.
#[derive(Clone, Copy, Debug, PartialEq, Eq, Structural)]
pub struct Health {
    pub current: u32,
    pub max: u32,
}

impl Health {
    pub open spec fn wf(self) -> bool {
        self.current <= self.max
    }

    /// The hit points left after taking `amount` damage: subtraction, clamped at zero.
    pub open spec fn spec_damaged(self, amount: u32) -> Health {
        Health {
            current: if amount >= self.current {
                0u32
            } else {
                (self.current - amount) as u32
            },
            max: self.max,
        }
    }

    /// Whether taking `amount` damage kills: it drops `current` from positive to zero.
    pub open spec fn spec_dies(self, amount: u32) -> bool {
        self.current > 0 && amount >= self.current
    }

    pub fn new(max: u32) -> (h: Health)
        ensures
            h == (Health { current: max, max: max }),
            h.wf(),
    {
        Health { current: max, max }
    }

    /// Takes `amount` damage and reports whether this very hit was lethal.
    pub fn apply_damage(&mut self, amount: u32) -> (died: bool)
        ensures
            *final(self) == old(self).spec_damaged(amount),
            died == old(self).spec_dies(amount),
            old(self).wf() ==> final(self).wf(),
            final(self).current <= old(self).current,
    {
        let was_alive = self.current > 0;
        if amount >= self.current {
            self.current = 0;
        } else {
            self.current = self.current - amount;
        }
        was_alive && self.current == 0
    }

    /// How full the health bar is, in thousandths: what the bar above a ship
    /// shows.
    pub fn fraction_milli(&self) -> (f: u32)
        requires
            self.wf(),
            self.max > 0,
        ensures
            f == self.current as int * 1000 / self.max as int,
            f <= 1000,
    {
        proof {
            assert(self.current as int * 1000 <= self.max as int * 1000) by (nonlinear_arith)
                requires
                    self.current as int <= self.max as int,
            ;
            assert(self.current as int * 1000 / self.max as int <= 1000) by (nonlinear_arith)
                requires
                    self.max as int > 0,
                    self.current as int * 1000 <= self.max as int * 1000,
            ;
        }
        let wide: u64 = (self.current as u64) * 1000 / (self.max as u64);
        wide as u32
    }
}

impl Default for Health {
    /// A full ship's health bar.
    fn default() -> (h: Self)
        ensures
            h == (Health { current: DEFAULT_HEALTH_CENTI, max: DEFAULT_HEALTH_CENTI }),
            h.wf(),
    {
        Health { current: DEFAULT_HEALTH_CENTI, max: DEFAULT_HEALTH_CENTI }
    }
}

/// Death is reported exactly once: a hit that kills leaves zero hit points,
/// and no later hit on that value can kill again.
pub proof fn lemma_death_fires_once(h: Health, first: u32, second: u32)
    requires
        h.spec_dies(first),
    ensures
        h.spec_damaged(first).current == 0,
        !h.spec_damaged(first).spec_dies(second),
{
}

/// One damage report: which entity (an index into the health table) took how
/// much, in hundredths of a point.
#[derive(Clone, Copy, Debug, PartialEq, Eq, Structural)]
pub struct DamagedEvent {
    pub entity: usize,
    pub amount: u32,
}

/// The health table after one damage event; a report against a missing
/// entity changes nothing.
pub open spec fn spec_damage_one(healths: Seq<Health>, ev: DamagedEvent) -> Seq<Health> {
    if ev.entity < healths.len() {
        healths.update(ev.entity as int, healths[ev.entity as int].spec_damaged(ev.amount))
    } else {
        healths
    }
}

/// The health table after a batch of damage events, applied in order.
pub open spec fn spec_damage_all(healths: Seq<Health>, evs: Seq<DamagedEvent>) -> Seq<Health>
    decreases evs.len(),
{
    if evs.len() == 0 {
        healths
    } else {
        spec_damage_all(spec_damage_one(healths, evs.first()), evs.drop_first())
    }
}

/// The deaths a batch of damage events causes, in order: an entity is listed
/// when a hit drops it from positive hit points to zero.
pub open spec fn spec_deaths(healths: Seq<Health>, evs: Seq<DamagedEvent>) -> Seq<usize>
    decreases evs.len(),
{
    if evs.len() == 0 {
        Seq::empty()
    } else {
        let first_deaths: Seq<usize> = if evs.first().entity < healths.len() && healths[evs.first().entity as int].spec_dies(
            evs.first().amount,
        ) {
            seq![evs.first().entity]
        } else {
            Seq::empty()
        };
        first_deaths + spec_deaths(spec_damage_one(healths, evs.first()), evs.drop_first())
    }
}

proof fn lemma_damage_all_push(healths: Seq<Health>, evs: Seq<DamagedEvent>, ev: DamagedEvent)
    ensures
        spec_damage_all(healths, evs.push(ev)) == spec_damage_one(
            spec_damage_all(healths, evs),
            ev,
        ),
        spec_deaths(healths, evs.push(ev)) == spec_deaths(healths, evs) + spec_deaths(
            spec_damage_all(healths, evs),
            seq![ev],
        ),
    decreases evs.len(),
{
    if evs.len() == 0 {
        assert(evs.push(ev).first() == ev);
        assert(evs.push(ev).drop_first() =~= evs);
        assert(spec_damage_all(spec_damage_one(healths, ev), evs) == spec_damage_one(
            healths,
            ev,
        ));
        assert(spec_damage_all(healths, evs) == healths);
        assert(seq![ev].first() == ev);
        assert(seq![ev].drop_first() =~= Seq::<DamagedEvent>::empty());
        assert(evs.push(ev) =~= seq![ev]);
        assert(spec_deaths(healths, evs) =~= Seq::<usize>::empty());
        assert(spec_deaths(healths, evs) + spec_deaths(healths, seq![ev]) =~= spec_deaths(
            healths,
            seq![ev],
        ));
    } else {
        assert(evs.push(ev).first() == evs.first());
        assert(evs.push(ev).drop_first() =~= evs.drop_first().push(ev));
        lemma_damage_all_push(spec_damage_one(healths, evs.first()), evs.drop_first(), ev);
        assert(spec_damage_all(healths, evs.push(ev)) == spec_damage_all(
            spec_damage_one(healths, evs.first()),
            evs.drop_first().push(ev),
        ));
        assert(spec_damage_all(healths, evs) == spec_damage_all(
            spec_damage_one(healths, evs.first()),
            evs.drop_first(),
        ));
        assert(spec_deaths(healths, evs) + spec_deaths(spec_damage_all(healths, evs), seq![ev])
            =~= spec_deaths(healths, evs.push(ev)));
    }
}

/// The health system's pass over one tick's damage reports: each is applied
/// in order to the entity it names (reports against despawned entities fall
/// through), and every lethal hit emits that entity's death, exactly once.
pub fn update_health_on_damage(healths: &mut Vec<Health>, events: &Vec<DamagedEvent>) -> (deaths:
    Vec<usize>)
    ensures
        final(healths)@ == spec_damage_all(old(healths)@, events@),
        deaths@ == spec_deaths(old(healths)@, events@),
{
    let ghost orig = healths@;
    let mut deaths: Vec<usize> = Vec::new();
    let mut k: usize = 0;
    while k < events.len()
        invariant
            k <= events@.len(),
            healths@ == spec_damage_all(orig, events@.take(k as int)),
            deaths@ == spec_deaths(orig, events@.take(k as int)),
        decreases events@.len() - k,
    {
        let ev = events[k];
        let ghost before = healths@;
        if ev.entity < healths.len() {
            let mut h = healths[ev.entity];
            let died = h.apply_damage(ev.amount);
            healths.set(ev.entity, h);
            if died {
                deaths.push(ev.entity);
            }
        }
        proof {
            assert(healths@ =~= spec_damage_one(before, ev));
            assert(seq![ev].first() == ev);
            assert(seq![ev].drop_first() =~= Seq::<DamagedEvent>::empty());
            lemma_damage_all_push(orig, events@.take(k as int), ev);
            assert(events@.take(k + 1) =~= events@.take(k as int).push(ev));
            assert(spec_deaths(spec_damage_one(before, ev), Seq::<DamagedEvent>::empty()) =~= Seq::<
                usize,
            >::empty());
            let one = spec_deaths(before, seq![ev]);
            assert(one =~= if ev.entity < before.len() && before[ev.entity as int].spec_dies(
                ev.amount,
            ) {
                seq![ev.entity]
            } else {
                Seq::<usize>::empty()
            });
            assert(deaths@ =~= spec_deaths(orig, events@.take(k as int)) + one);
        }
        k = k + 1;
    }
    proof {
        assert(events@.take(events@.len() as int) =~= events@);
    }
    deaths
}

} // verus!
