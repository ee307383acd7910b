//! What a troop brings to a fight.

use vstd::prelude::*;
use crate::globe::territories::roster::TroopId;
use crate::measures::{Distance, Duration};

verus! {

/// Whose land a troop stands on.
pub enum LocationSituation {
    SelfLand,
    AllyLand,
    NeutralLand,
    EnemyLand,
}

/// Whom a troop picks a fight with.
pub enum FighthingBehavior {
    /// Fights any troop that is not an ally, whatever the territory.
    Beligerent,
    /// Fights only when it or its territory is attacked.
    Pacifist,
}

/// The time that a cannon takes between two shots.
pub const COOL_DOWN_TIMER: Duration = 2_000_000;

/// How far a cannon reaches.
pub const CANNON_RANGE: Distance = 400_000;

/// The cannon of a troop.
pub struct Cannon {
    pub range: Distance,
    /// The time for which the cannon has cooled down since its last shot.
    pub cooling_down_counter: Duration,
}

/// The state of a troop as a fighter.
pub struct CombatStats {
    pub in_after_combat: bool,
    pub cannon: Cannon,
    pub moving_while_fighting: bool,
    pub hp: i32,
    pub alive: bool,
    pub fighting_behavior: FighthingBehavior,
    /// The troop that this troop has locked as its target, if any.
    pub opening_fire_on_troop: Option<TroopId>,
}

impl CombatStats {
    /// The stats of a fresh troop: alive, at full health, with no target and a
    /// cannon that is ready to fire.
    pub fn new() -> (stats: CombatStats)
        ensures
            !stats.in_after_combat,
            stats.hp == 100,
            stats.alive,
            stats.fighting_behavior is Beligerent,
            stats.cannon.range == CANNON_RANGE,
            stats.cannon.cooling_down_counter == COOL_DOWN_TIMER,
            stats.opening_fire_on_troop is None,
            !stats.moving_while_fighting,
    {
        CombatStats {
            in_after_combat: false,
            hp: 100,
            alive: true,
            fighting_behavior: FighthingBehavior::Beligerent,
            cannon: Cannon { range: CANNON_RANGE, cooling_down_counter: COOL_DOWN_TIMER },
            opening_fire_on_troop: None,
            moving_while_fighting: false,
        }
    }

    /// Makes the cannon ready to fire.
    pub fn reset_cannon_cool_down(&mut self)
        ensures
            final(self).cannon.cooling_down_counter == COOL_DOWN_TIMER,
            final(self).cannon.range == old(self).cannon.range,
            final(self).in_after_combat == old(self).in_after_combat,
            final(self).moving_while_fighting == old(self).moving_while_fighting,
            final(self).hp == old(self).hp,
            final(self).alive == old(self).alive,
            final(self).fighting_behavior == old(self).fighting_behavior,
            final(self).opening_fire_on_troop == old(self).opening_fire_on_troop,
    {
        self.cannon.cooling_down_counter = COOL_DOWN_TIMER;
    }
}

/// The sides that a troop can take in a fight.
#[derive(Debug, Clone, Copy, PartialEq, Eq, Hash, Structural)]
pub enum CombatTypes {
    Attacking,
    Defending,
    FightingOverUnoccupiedTerritory,
}

impl CombatTypes {
    /// Every side, once each.
    pub fn iter() -> (all: [CombatTypes; 3])
        ensures
            all@ == seq![
                CombatTypes::Attacking,
                CombatTypes::Defending,
                CombatTypes::FightingOverUnoccupiedTerritory,
            ],
    {
        let all = [
            CombatTypes::Attacking,
            CombatTypes::Defending,
            CombatTypes::FightingOverUnoccupiedTerritory,
        ];
        assert(all@ =~= seq![
            CombatTypes::Attacking,
            CombatTypes::Defending,
            CombatTypes::FightingOverUnoccupiedTerritory,
        ]);
        all
    }
}

} // verus!
