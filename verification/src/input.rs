//! Client input and its replication: a client ships press/release diffs to
//! the server, which applies each diff to the action state it owns.

use vstd::prelude::*;

verus! {

#[derive(Clone, Copy, Debug, PartialEq, Eq, Hash, Structural)]
pub enum PlayerAction {
    TurnLeft,
    TurnRight,
    Shoot,
    Thrust,
}

/// Which actions a player currently holds pressed.
#[derive(Clone, Copy, Debug, PartialEq, Eq, Structural)]
pub struct ActionState {
    pub turn_left: bool,
    pub turn_right: bool,
    pub shoot: bool,
    pub thrust: bool,
}

impl Default for ActionState {
    /// Nothing pressed.
    fn default() -> (s: Self)
        ensures
            s == ActionState::spec_released(),
    {
        ActionState { turn_left: false, turn_right: false, shoot: false, thrust: false }
    }
}

impl ActionState {
    pub open spec fn spec_released() -> ActionState {
        ActionState { turn_left: false, turn_right: false, shoot: false, thrust: false }
    }

    pub open spec fn spec_pressed(self, action: PlayerAction) -> bool {
        match action {
            PlayerAction::TurnLeft => self.turn_left,
            PlayerAction::TurnRight => self.turn_right,
            PlayerAction::Shoot => self.shoot,
            PlayerAction::Thrust => self.thrust,
        }
    }

    /// The state with `action` set to `held`, all else as before.
    pub open spec fn spec_with(self, action: PlayerAction, held: bool) -> ActionState {
        match action {
            PlayerAction::TurnLeft => ActionState { turn_left: held, ..self },
            PlayerAction::TurnRight => ActionState { turn_right: held, ..self },
            PlayerAction::Shoot => ActionState { shoot: held, ..self },
            PlayerAction::Thrust => ActionState { thrust: held, ..self },
        }
    }

    pub fn pressed(&self, action: PlayerAction) -> (r: bool)
        ensures
            r == self.spec_pressed(action),
    {
        match action {
            PlayerAction::TurnLeft => self.turn_left,
            PlayerAction::TurnRight => self.turn_right,
            PlayerAction::Shoot => self.shoot,
            PlayerAction::Thrust => self.thrust,
        }
    }

    pub fn press(&mut self, action: PlayerAction)
        ensures
            *final(self) == old(self).spec_with(action, true),
    {
        match action {
            PlayerAction::TurnLeft => self.turn_left = true,
            PlayerAction::TurnRight => self.turn_right = true,
            PlayerAction::Shoot => self.shoot = true,
            PlayerAction::Thrust => self.thrust = true,
        }
    }

    pub fn release(&mut self, action: PlayerAction)
        ensures
            *final(self) == old(self).spec_with(action, false),
    {
        match action {
            PlayerAction::TurnLeft => self.turn_left = false,
            PlayerAction::TurnRight => self.turn_right = false,
            PlayerAction::Shoot => self.shoot = false,
            PlayerAction::Thrust => self.thrust = false,
        }
    }
}

/// One change a client reports: it pressed or released an action, tagged
/// with the client id that owns the entity.
#[derive(Clone, Copy, Debug, PartialEq, Eq, Structural)]
pub enum ActionDiff {
    Pressed { action: PlayerAction, id: u64 },
    Released { action: PlayerAction, id: u64 },
}

impl ActionDiff {
    pub open spec fn spec_id(self) -> u64 {
        match self {
            ActionDiff::Pressed { id, .. } => id,
            ActionDiff::Released { id, .. } => id,
        }
    }

    /// The state one diff leaves an entity in, if the entity's owner matches.
    pub open spec fn spec_applied_to(self, s: ActionState, owner: u64) -> ActionState {
        match self {
            ActionDiff::Pressed { action, id } => if id == owner {
                s.spec_with(action, true)
            } else {
                s
            },
            ActionDiff::Released { action, id } => if id == owner {
                s.spec_with(action, false)
            } else {
                s
            },
        }
    }
}

/// One diff applied across every owned action state.
pub open spec fn spec_apply_diff(
    states: Seq<(ActionState, u64)>,
    d: ActionDiff,
) -> Seq<(ActionState, u64)> {
    Seq::new(states.len(), |i: int| (d.spec_applied_to(states[i].0, states[i].1), states[i].1))
}

/// A batch of diffs applied in arrival order.
pub open spec fn spec_apply_diffs(
    states: Seq<(ActionState, u64)>,
    ds: Seq<ActionDiff>,
) -> Seq<(ActionState, u64)>
    decreases ds.len(),
{
    if ds.len() == 0 {
        states
    } else {
        spec_apply_diffs(spec_apply_diff(states, ds.first()), ds.drop_first())
    }
}

proof fn lemma_apply_diffs_push(states: Seq<(ActionState, u64)>, ds: Seq<ActionDiff>, d: ActionDiff)
    ensures
        spec_apply_diffs(states, ds.push(d)) == spec_apply_diff(spec_apply_diffs(states, ds), d),
    decreases ds.len(),
{
    if ds.len() == 0 {
        assert(ds.push(d).first() == d);
        assert(ds.push(d).drop_first() =~= ds);
        assert(spec_apply_diffs(states, ds.push(d)) == spec_apply_diffs(
            spec_apply_diff(states, d),
            ds,
        ));
        assert(spec_apply_diffs(spec_apply_diff(states, d), ds) == spec_apply_diff(states, d));
        assert(spec_apply_diffs(states, ds) == states);
    } else {
        assert(ds.push(d).first() == ds.first());
        assert(ds.push(d).drop_first() =~= ds.drop_first().push(d));
        lemma_apply_diffs_push(spec_apply_diff(states, ds.first()), ds.drop_first(), d);
        assert(spec_apply_diffs(states, ds.push(d)) == spec_apply_diffs(
            spec_apply_diff(states, ds.first()),
            ds.drop_first().push(d),
        ));
        assert(spec_apply_diffs(states, ds) == spec_apply_diffs(
            spec_apply_diff(states, ds.first()),
            ds.drop_first(),
        ));
    }
}

/// Applies every received diff, in order, to every action state whose owner
/// the diff names. This is how client input reaches the server's entities.
pub fn process_action_diffs(states: &mut Vec<(ActionState, u64)>, diffs: &Vec<ActionDiff>)
    ensures
        final(states)@ == spec_apply_diffs(old(states)@, diffs@),
{
    let ghost orig = states@;
    let mut k: usize = 0;
    while k < diffs.len()
        invariant
            k <= diffs@.len(),
            states@ == spec_apply_diffs(orig, diffs@.take(k as int)),
        decreases diffs@.len() - k,
    {
        let d = diffs[k];
        let ghost before = states@;
        let n = states.len();
        let mut i: usize = 0;
        while i < n
            invariant
                i <= n,
                n == states@.len(),
                n == before.len(),
                forall|j: int| i <= j < n ==> states@[j] == before[j],
                forall|j: int|
                    0 <= j < i ==> #[trigger] states@[j] == (
                    d.spec_applied_to(before[j].0, before[j].1),
                    before[j].1,
                ),
            decreases n - i,
        {
            let (mut s, owner) = states[i];
            let apply = match d {
                ActionDiff::Pressed { id, .. } => id == owner,
                ActionDiff::Released { id, .. } => id == owner,
            };
            if apply {
                match d {
                    ActionDiff::Pressed { action, .. } => s.press(action),
                    ActionDiff::Released { action, .. } => s.release(action),
                }
            }
            states.set(i, (s, owner));
            i = i + 1;
        }
        proof {
            assert(states@ =~= spec_apply_diff(before, d));
            lemma_apply_diffs_push(orig, diffs@.take(k as int), d);
            assert(diffs@.take(k + 1) =~= diffs@.take(k as int).push(d));
        }
        k = k + 1;
    }
    proof {
        assert(diffs@.take(diffs@.len() as int) =~= diffs@);
    }
}

/// The fire system: a held shoot action pulls the weapon's trigger; the
/// weapon's own rate limit decides whether a shot leaves.
pub fn fire_weapon_action(
    weapon: &mut crate::weapons::Weapon,
    action_state: &ActionState,
    now_ms: u64,
) -> (r: Option<crate::weapons::FirePlan>)
    requires
        old(weapon).wf(),
    ensures
        final(weapon).wf(),
        !action_state.spec_pressed(PlayerAction::Shoot) ==> r.is_none() && *final(weapon) == *old(
            weapon,
        ),
        action_state.spec_pressed(PlayerAction::Shoot) ==> r.is_some() == old(weapon).spec_can_fire(
            now_ms,
        ),
        final(weapon).weapon_type == old(weapon).weapon_type,
        r.is_some() ==> final(weapon).last_fire_ms == now_ms,
        r.is_none() ==> *final(weapon) == *old(weapon),
        match r {
            Some(plan) => match old(weapon).weapon_type {
                crate::weapons::WeaponType::Laser { .. } => plan.offsets_milli_rad@ =~= seq![0i64],
                crate::weapons::WeaponType::Scattergun { count, .. } => {
                    &&& plan.offsets_milli_rad@.len() == count
                    &&& forall|i: int|
                        0 <= i < plan.offsets_milli_rad@.len()
                            ==> -crate::weapons::SCATTER_SPREAD_MILLI_RAD
                                <= #[trigger] plan.offsets_milli_rad@[i]
                                <= crate::weapons::SCATTER_SPREAD_MILLI_RAD
                },
            },
            None => true,
        },
{
    if action_state.pressed(PlayerAction::Shoot) {
        weapon.try_fire(now_ms)
    } else {
        None
    }
}

} // verus!
