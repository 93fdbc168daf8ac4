//! Live projectiles and the two rules that bound them: a hard cap on how many
//! exist at once (oldest evicted first) and a cap on how long one may live.

use vstd::prelude::*;
use vstd::seq_lib::group_to_multiset_ensures;
use vstd::multiset::group_multiset_axioms;

verus! {

/// How many lasers may be live at once; beyond it the oldest are despawned.
pub const MAX_LIVE_LASERS: usize = 30;

/// A laser older than this, in milliseconds, is despawned.
pub const LASER_MAX_AGE_MS: u64 = 800;

/// A projectile in flight. Positions are thousandths of a world unit; the
/// facing is a unit vector scaled by 1000.
#[derive(Clone, Copy, Debug, PartialEq, Eq, Structural)]
pub struct Projectile {
    pub id: u64,
    /// Client that fired it; its own property is immune to it.
    pub owner: u64,
    pub spawn_time_ms: u64,
    pub pos_x_milli: i64,
    pub pos_y_milli: i64,
    pub dir_x_milli: i64,
    pub dir_y_milli: i64,
}

impl Projectile {
    /// The facing really is a (scaled) unit vector, componentwise bounded.
    pub open spec fn wf(self) -> bool {
        &&& -1000 <= self.dir_x_milli <= 1000
        &&& -1000 <= self.dir_y_milli <= 1000
    }

    /// Whether the projectile has outlived the age cap at time `now_ms`.
    pub open spec fn spec_expired(self, now_ms: u64) -> bool {
        now_ms > self.spawn_time_ms + LASER_MAX_AGE_MS
    }
}

/// The projectiles that survive the age cap at `now_ms`, in order.
pub open spec fn spec_survivors(s: Seq<Projectile>, now_ms: u64) -> Seq<Projectile> {
    s.filter(|p: Projectile| !p.spec_expired(now_ms))
}

/// Every projectile of `sub` is drawn from `sup`: no occurrence is invented.
pub open spec fn drawn_from(sub: Seq<Projectile>, sup: Seq<Projectile>) -> bool {
    forall|p: Projectile|
        #[trigger] sub.to_multiset().count(p) <= sup.to_multiset().count(p)
}

/// Eviction took the oldest first: whenever an occurrence of `p` was dropped
/// between `orig` and `kept`, everything still in `kept` is at least as young.
pub open spec fn oldest_evicted_first(orig: Seq<Projectile>, kept: Seq<Projectile>) -> bool {
    forall|p: Projectile, q: Projectile|
        #![trigger kept.to_multiset().count(p), kept.to_multiset().count(q)]
        (kept.to_multiset().count(p) < orig.to_multiset().count(p)
            && kept.to_multiset().count(q) > 0) ==> p.spawn_time_ms <= q.spawn_time_ms
}

/// The set of projectiles currently live on the server.
pub struct ProjectileSet {
    pub live: Vec<Projectile>,
}

impl ProjectileSet {
    pub fn new() -> (s: ProjectileSet)
        ensures
            s.live@ =~= Seq::<Projectile>::empty(),
    {
        ProjectileSet { live: Vec::new() }
    }

    pub fn len(&self) -> (n: usize)
        ensures
            n == self.live@.len(),
    {
        self.live.len()
    }

    pub fn spawn(&mut self, p: Projectile)
        ensures
            final(self).live@ == old(self).live@.push(p),
    {
        self.live.push(p);
    }

    /// Despawns the oldest projectiles (by spawn time) until at most `cap`
    /// remain; with `cap` or fewer live, nothing changes.
    pub fn enforce_cap(&mut self, cap: usize)
        ensures
            final(self).live@.len() == if old(self).live@.len() <= cap {
                old(self).live@.len() as int
            } else {
                cap as int
            },
            drawn_from(final(self).live@, old(self).live@),
            oldest_evicted_first(old(self).live@, final(self).live@),
            old(self).live@.len() <= cap ==> final(self).live@ == old(self).live@,
    {
        broadcast use group_to_multiset_ensures, group_multiset_axioms;

        let ghost orig = self.live@;
        while self.live.len() > cap
            invariant
                drawn_from(self.live@, orig),
                oldest_evicted_first(orig, self.live@),
                orig.len() > cap ==> self.live@.len() >= cap,
                orig.len() <= cap ==> self.live@ == orig,
            decreases self.live@.len(),
        {
            broadcast use group_to_multiset_ensures, group_multiset_axioms;

            let idx = index_of_oldest(&self.live);
            let ghost pre = self.live@;
            let ghost m = pre[idx as int];
            self.live.remove(idx);
            proof {
                assert(self.live@ == pre.remove(idx as int));
                assert(pre.to_multiset().count(m) > 0);
                assert(self.live@.to_multiset() =~= pre.to_multiset().remove(m));
                assert forall|p: Projectile, q: Projectile|
                    (self.live@.to_multiset().count(p) < orig.to_multiset().count(p)
                        && self.live@.to_multiset().count(q) > 0)
                        implies p.spawn_time_ms <= q.spawn_time_ms
                by {
                    assert(self.live@.to_multiset().count(q) <= pre.to_multiset().count(q));
                    if pre.to_multiset().count(p) < orig.to_multiset().count(p) {
                        // this occurrence was already gone; the invariant covers it
                        assert(p.spawn_time_ms <= q.spawn_time_ms);
                    } else {
                        // only the removed minimum lost an occurrence this round
                        assert(p == m);
                        assert(pre.contains(q));
                        let j = choose|j: int| 0 <= j < pre.len() && pre[j] == q;
                        assert(m.spawn_time_ms <= pre[j].spawn_time_ms);
                    }
                }
            }
        }
    }

    /// Despawns every projectile that has outlived the age cap; the survivors
    /// keep their order.
    pub fn retire_expired(&mut self, now_ms: u64)
        ensures
            final(self).live@ == spec_survivors(old(self).live@, now_ms),
            forall|i: int|
                0 <= i < final(self).live@.len() ==> !(#[trigger] final(self).live@[i]).spec_expired(
                    now_ms,
                ),
            drawn_from(final(self).live@, old(self).live@),
    {
        let ghost pred = |p: Projectile| !p.spec_expired(now_ms);
        let mut kept: Vec<Projectile> = Vec::new();
        let mut i: usize = 0;
        while i < self.live.len()
            invariant
                i <= self.live@.len(),
                pred == (|p: Projectile| !p.spec_expired(now_ms)),
                kept@ == self.live@.take(i as int).filter(pred),
            decreases self.live@.len() - i,
        {
            let p = self.live[i];
            let expired = now_ms > LASER_MAX_AGE_MS && p.spawn_time_ms < now_ms - LASER_MAX_AGE_MS;
            proof {
                assert(expired == p.spec_expired(now_ms));
            }
            if !expired {
                kept.push(p);
            }
            proof {
                let taken = self.live@.take(i as int);
                assert(self.live@.take(i + 1) =~= taken.push(p));
                Seq::filter_distributes_over_add(taken, seq![p], pred);
                reveal_with_fuel(Seq::filter, 2);
                assert(seq![p].filter(pred) =~= if pred(p) { seq![p] } else { Seq::empty() });
                assert(taken.push(p) =~= taken + seq![p]);
                assert(self.live@.take(i + 1).filter(pred) =~= if pred(p) {
                    taken.filter(pred).push(p)
                } else {
                    taken.filter(pred)
                });
            }
            i = i + 1;
        }
        proof {
            let full = self.live@;
            assert(full.take(full.len() as int) =~= full);
            assert(kept@ == full.filter(pred));
            assert forall|i2: int| 0 <= i2 < kept@.len() implies !(#[trigger] kept@[i2]).spec_expired(
                now_ms,
            ) by {
                full.lemma_filter_pred(pred, i2);
            }
            assert forall|p: Projectile|
                #[trigger] kept@.to_multiset().count(p) <= full.to_multiset().count(p) by {
                lemma_filter_multiset_le(full, pred, p);
            }
        }
        self.live = kept;
    }

    /// One tick of projectile upkeep, as the server runs it after updates:
    /// expired lasers leave first, then the oldest leave until the cap holds.
    /// What remains is exactly the age-cap survivors, cut down to the count
    /// cap oldest-first; survivors that fit the cap all stay, in order.
    pub fn maintain(&mut self, now_ms: u64)
        ensures
            final(self).live@.len() <= MAX_LIVE_LASERS,
            final(self).live@.len() == if spec_survivors(old(self).live@, now_ms).len()
                <= MAX_LIVE_LASERS {
                spec_survivors(old(self).live@, now_ms).len() as int
            } else {
                MAX_LIVE_LASERS as int
            },
            forall|i: int|
                0 <= i < final(self).live@.len() ==> !(#[trigger] final(self).live@[i]).spec_expired(
                    now_ms,
                ),
            drawn_from(final(self).live@, spec_survivors(old(self).live@, now_ms)),
            oldest_evicted_first(spec_survivors(old(self).live@, now_ms), final(self).live@),
            spec_survivors(old(self).live@, now_ms).len() <= MAX_LIVE_LASERS ==> final(self).live@
                == spec_survivors(old(self).live@, now_ms),
            drawn_from(final(self).live@, old(self).live@),
    {
        broadcast use group_to_multiset_ensures, group_multiset_axioms;

        let ghost orig = self.live@;
        self.retire_expired(now_ms);
        let ghost mid = self.live@;
        self.enforce_cap(MAX_LIVE_LASERS);
        proof {
            assert forall|i: int|
                0 <= i < self.live@.len() implies !(#[trigger] self.live@[i]).spec_expired(now_ms) by {
                let p = self.live@[i];
                assert(self.live@.to_multiset().count(p) > 0);
                assert(mid.to_multiset().count(p) > 0);
                assert(mid.contains(p));
                let j = choose|j: int| 0 <= j < mid.len() && mid[j] == p;
                assert(!mid[j].spec_expired(now_ms));
            }
            assert forall|p: Projectile|
                #[trigger] self.live@.to_multiset().count(p) <= orig.to_multiset().count(p) by {
                assert(self.live@.to_multiset().count(p) <= mid.to_multiset().count(p));
                assert(mid.to_multiset().count(p) <= orig.to_multiset().count(p));
            }
        }
    }

    /// Flies every projectile forward along its facing for `dt_ms`
    /// milliseconds at the laser speed (one world unit per millisecond).
    /// Positions saturate at the numeric limits rather than wrap.
    pub fn advance_all(&mut self, dt_ms: u32)
        requires
            forall|i: int| 0 <= i < old(self).live@.len() ==> (#[trigger] old(self).live@[i]).wf(),
        ensures
            final(self).live@.len() == old(self).live@.len(),
            forall|i: int|
                0 <= i < old(self).live@.len() ==> #[trigger] final(self).live@[i]
                    == (Projectile {
                    pos_x_milli: spec_sat_add_i64(
                        old(self).live@[i].pos_x_milli as int,
                        old(self).live@[i].dir_x_milli as int * dt_ms as int,
                    ) as i64,
                    pos_y_milli: spec_sat_add_i64(
                        old(self).live@[i].pos_y_milli as int,
                        old(self).live@[i].dir_y_milli as int * dt_ms as int,
                    ) as i64,
                    ..old(self).live@[i]
                }),
    {
        let n = self.live.len();
        let mut i: usize = 0;
        while i < n
            invariant
                i <= n,
                n == self.live@.len(),
                n == old(self).live@.len(),
                forall|j: int| i <= j < n ==> self.live@[j] == old(self).live@[j],
                forall|j: int| 0 <= j < n ==> (#[trigger] old(self).live@[j]).wf(),
                forall|j: int|
                    0 <= j < i ==> #[trigger] self.live@[j]
                        == (Projectile {
                        pos_x_milli: spec_sat_add_i64(
                            old(self).live@[j].pos_x_milli as int,
                            old(self).live@[j].dir_x_milli as int * dt_ms as int,
                        ) as i64,
                        pos_y_milli: spec_sat_add_i64(
                            old(self).live@[j].pos_y_milli as int,
                            old(self).live@[j].dir_y_milli as int * dt_ms as int,
                        ) as i64,
                        ..old(self).live@[j]
                    }),
            decreases n - i,
        {
            let p = self.live[i];
            proof {
                assert(p.wf());
                assert(-1000 * (dt_ms as int) <= p.dir_x_milli as int * (dt_ms as int)
                    <= 1000 * (dt_ms as int)) by (nonlinear_arith)
                    requires
                        -1000 <= p.dir_x_milli as int <= 1000,
                        dt_ms as int >= 0,
                ;
                assert(-1000 * (dt_ms as int) <= p.dir_y_milli as int * (dt_ms as int)
                    <= 1000 * (dt_ms as int)) by (nonlinear_arith)
                    requires
                        -1000 <= p.dir_y_milli as int <= 1000,
                        dt_ms as int >= 0,
                ;
            }
            let dx = p.dir_x_milli * (dt_ms as i64);
            let dy = p.dir_y_milli * (dt_ms as i64);
            let moved = Projectile {
                pos_x_milli: sat_add_i64(p.pos_x_milli, dx),
                pos_y_milli: sat_add_i64(p.pos_y_milli, dy),
                ..p
            };
            self.live.set(i, moved);
            i = i + 1;
        }
    }
}

/// Filtering never duplicates: each projectile occurs in the survivors at
/// most as often as it did before.
proof fn lemma_filter_multiset_le(s: Seq<Projectile>, pred: spec_fn(Projectile) -> bool, p: Projectile)
    ensures
        s.filter(pred).to_multiset().count(p) <= s.to_multiset().count(p),
    decreases s.len(),
{
    broadcast use group_to_multiset_ensures, group_multiset_axioms;

    reveal(Seq::filter);
    if s.len() == 0 {
        assert(s.filter(pred) =~= s);
    } else {
        lemma_filter_multiset_le(s.drop_last(), pred, p);
        assert(s.drop_last().push(s.last()) =~= s);
        assert(s.to_multiset() =~= s.drop_last().to_multiset().insert(s.last()));
        if pred(s.last()) {
            assert(s.filter(pred) == s.drop_last().filter(pred).push(s.last()));
            assert(s.filter(pred).to_multiset() =~= s.drop_last().filter(
                pred,
            ).to_multiset().insert(s.last()));
        } else {
            assert(s.filter(pred) == s.drop_last().filter(pred));
        }
    }
}

/// Index of a projectile with the smallest spawn time (the first such one).
fn index_of_oldest(v: &Vec<Projectile>) -> (i: usize)
    requires
        v@.len() > 0,
    ensures
        i < v@.len(),
        forall|j: int|
            0 <= j < v@.len() ==> v@[i as int].spawn_time_ms <= (#[trigger] v@[j]).spawn_time_ms,
{
    let mut best: usize = 0;
    let mut k: usize = 1;
    while k < v.len()
        invariant
            best < k <= v@.len(),
            forall|j: int|
                0 <= j < k ==> v@[best as int].spawn_time_ms <= (#[trigger] v@[j]).spawn_time_ms,
        decreases v@.len() - k,
    {
        if v[k].spawn_time_ms < v[best].spawn_time_ms {
            best = k;
        }
        k = k + 1;
    }
    best
}

/// Addition on `i64` clamped at the numeric limits.
pub open spec fn spec_sat_add_i64(a: int, b: int) -> int {
    if a + b > i64::MAX {
        i64::MAX as int
    } else if a + b < i64::MIN {
        i64::MIN as int
    } else {
        a + b
    }
}

pub(crate) fn sat_add_i64(a: i64, b: i64) -> (r: i64)
    ensures
        r == spec_sat_add_i64(a as int, b as int),
{
    if b >= 0 {
        if a > i64::MAX - b {
            i64::MAX
        } else {
            a + b
        }
    } else {
        if a < i64::MIN - b {
            i64::MIN
        } else {
            a + b
        }
    }
}

} // verus!
