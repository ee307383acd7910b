//! When a troop gets into a fight and when it gets out of it.

use vstd::prelude::*;
use crate::globe::coordinates_system::virtual_planet::VirtualPlanet;
use crate::globe::territories::territory::Territory;
use crate::player::player::PlayerId;
use crate::troops::speed::SpeedType;
use crate::troops::troop::{is_combating, is_consistent, without_combat, Troop, TroopState};
use super::combat_stats::{CombatStats, CombatTypes, COOL_DOWN_TIMER};

verus! {

/// The side that a troop of `owner` takes in a fight over a territory ruled by
/// `ruler`: it fights over a territory that nobody rules, attacks the territory
/// of another player, and defends that of its own.
pub open spec fn combat_role(ruler: Option<PlayerId>, owner: PlayerId) -> CombatTypes {
    match ruler {
        None => CombatTypes::FightingOverUnoccupiedTerritory,
        Some(ruler_id) => if ruler_id != owner {
            CombatTypes::Attacking
        } else {
            CombatTypes::Defending
        },
    }
}

/// The activities of a troop that gets into a fight on the side `role`: it
/// neither patrols nor rests, and takes that side only.
pub open spec fn engaged_activities(activities: Set<TroopState>, role: CombatTypes) -> Set<TroopState> {
    without_combat(activities.remove(TroopState::Patrolling).remove(TroopState::Idle)).insert(
        TroopState::Combating(role),
    )
}

/// The activities of a troop that gets out of a fight: it takes no side and
/// patrols; one that defended also rests, and is neither on its way nor sent
/// anywhere.
pub open spec fn disengaged_activities(activities: Set<TroopState>) -> Set<TroopState> {
    let patrolling = activities.insert(TroopState::Patrolling);
    if activities.contains(TroopState::Combating(CombatTypes::Defending)) {
        without_combat(
            patrolling.remove(TroopState::Moving).remove(TroopState::Deploying).insert(
                TroopState::Idle,
            ),
        )
    } else {
        without_combat(patrolling)
    }
}

impl<P: Copy> Troop<P> {
    /// Whether the troop gets into the fight over `territory`, the territory
    /// that it was sent to: it has arrived, it stands on a surface point of that
    /// territory, and troops of more than one player have arrived there.
    pub open spec fn engages(&self, territory: &Territory) -> bool {
        &&& self.arrived_to_territory
        &&& self.touching_surface_point.territory_id matches Some(territory_id)
        &&& territory_id@ == self.deployed_to_territory@
        &&& territory.mixed()
    }

    /// Puts the troop into the fight over the territory that it was sent to, or
    /// takes it out of it.
    ///
    /// A troop that has not arrived is left alone. A troop that `engages` counts
    /// among those that fight, takes its `combat_role`, moves at the pace of a
    /// fight and neither patrols nor rests; one that defends drops its
    /// trajectory. A troop that does not, but counted among those that fight,
    /// no longer does: it takes no side, patrols again, its cannon is ready to
    /// fire, and it is marked as coming out of a fight; one that defended ends
    /// its move as outside a fight.
    pub fn trigger_combat_engage_if_needed(&mut self, virtual_planet: &VirtualPlanet<P>)
        requires
            old(self).arrived_to_territory ==> virtual_planet.territories.wf()
                && virtual_planet.territories@.contains_key(old(self).deployed_to_territory@),
        ensures
            is_consistent(final(self).troop_activities@),
            !old(self).arrived_to_territory ==> *final(self) == *old(self),
            old(self).arrived_to_territory ==> {
                let territory = virtual_planet.territories@[old(self).deployed_to_territory@];
                let role = combat_role(territory.ruler(), old(self).owner.player_id);
                let defended = old(self).troop_activities@.contains(
                    TroopState::Combating(CombatTypes::Defending),
                );
                &&& final(self).same_unengaged_as(old(self))
                &&& old(self).engages(&territory) ==> {
                    &&& final(self).is_in_combatting_group
                    &&& final(self).troop_activities@ == engaged_activities(
                        old(self).troop_activities@,
                        role,
                    )
                    &&& final(self).troop_activities@.contains(TroopState::Combating(role))
                    &&& final(self).adopted_speed == SpeedType::FightOrFlight
                    &&& final(self).combat_stats == old(self).combat_stats
                    &&& if role == CombatTypes::Defending {
                        final(self).has_no_trajectory()
                    } else {
                        final(self).same_trajectory_as(old(self))
                    }
                }
                &&& !old(self).engages(&territory) && old(self).is_in_combatting_group ==> {
                    &&& !final(self).is_in_combatting_group
                    &&& final(self).troop_activities@ == disengaged_activities(
                        old(self).troop_activities@,
                    )
                    &&& !is_combating(final(self).troop_activities@)
                    &&& final(self).combat_stats == (CombatStats {
                        in_after_combat: true,
                        cannon: super::combat_stats::Cannon {
                            cooling_down_counter: COOL_DOWN_TIMER,
                            ..old(self).combat_stats.cannon
                        },
                        ..old(self).combat_stats
                    })
                    &&& if defended {
                        final(self).has_no_trajectory() && final(self).adopted_speed
                            == SpeedType::Patrolling
                    } else {
                        final(self).same_trajectory_as(old(self)) && final(self).adopted_speed == old(self).adopted_speed
                    }
                }
                &&& !old(self).engages(&territory) && !old(self).is_in_combatting_group ==> *final(self) == *old(self)
            },
    {
        let combatting = self.troop_is_combatting();
        if !self.arrived_to_territory {
            return;
        }
        let territory = virtual_planet.territories.get_existing(&self.deployed_to_territory);
        assert(territory.wf());
        let mixed = territory.troops.get_has_troops_from_different_players();
        if mixed && self.is_touching_deployed_territory() {
            self.is_in_combatting_group = true;
            self.troop_activities.remove(&TroopState::Patrolling);
            self.troop_activities.remove(&TroopState::Idle);
            self.adopted_speed = SpeedType::FightOrFlight;
            match &territory.current_ruler {
                None => {
                    self.troop_activities.insert(
                        TroopState::Combating(CombatTypes::FightingOverUnoccupiedTerritory),
                    );
                },
                Some(ruler_static_info) => {
                    if ruler_static_info.player_id != self.owner.player_id {
                        self.troop_activities.insert(TroopState::Combating(CombatTypes::Attacking));
                    } else {
                        self.troop_activities.insert(TroopState::Combating(CombatTypes::Defending));
                        self.reset_trajectory();
                    }
                },
            }
            assert(self.troop_activities@ =~= engaged_activities(
                old(self).troop_activities@,
                combat_role(territory.ruler(), old(self).owner.player_id),
            ));
        } else if self.is_in_combatting_group {
            self.troop_activities.insert(TroopState::Patrolling);
            if self.troop_activities.contains(&TroopState::Combating(CombatTypes::Defending)) {
                self.no_combat_reset_trajectory(true);
            }
            self.remove_combatting_states();
            assert(self.troop_activities@ =~= disengaged_activities(old(self).troop_activities@));
            self.combat_stats.in_after_combat = true;
            self.combat_stats.reset_cannon_cool_down();
        }
    }

    /// Whether everything but what a fight changes is the same in `self` and in
    /// `other`.
    pub open spec fn same_unengaged_as(&self, other: &Self) -> bool {
        &&& self.touching_surface_point == other.touching_surface_point
        &&& self.deployed_to_territory == other.deployed_to_territory
        &&& self.arrived_to_territory == other.arrived_to_territory
        &&& self.surface == other.surface
        &&& self.surface_type_changed == other.surface_type_changed
        &&& self.owner == other.owner
        &&& self.idle_timer == other.idle_timer
        &&& self.initial_orientation_is_set == other.initial_orientation_is_set
        &&& self.waiting_for_deployment_following_action
            == other.waiting_for_deployment_following_action
        &&& self.heat_map == other.heat_map
    }

    /// Takes the troop out of every side of a fight and out of those that fight.
    fn remove_combatting_states(&mut self)
        ensures
            final(self).troop_activities@ == without_combat(old(self).troop_activities@),
            !is_combating(final(self).troop_activities@),
            is_consistent(final(self).troop_activities@),
            !final(self).is_in_combatting_group,
            *final(self) == (Troop {
                troop_activities: final(self).troop_activities,
                is_in_combatting_group: false,
                ..*old(self)
            }),
    {
        self.is_in_combatting_group = false;
        let combat_types = CombatTypes::iter();
        let mut index: usize = 0;
        while index < 3
            invariant
                index <= 3,
                combat_types@ == seq![
                    CombatTypes::Attacking,
                    CombatTypes::Defending,
                    CombatTypes::FightingOverUnoccupiedTerritory,
                ],
                *self == (Troop {
                    troop_activities: self.troop_activities,
                    is_in_combatting_group: false,
                    ..*old(self)
                }),
                index > 0 ==> is_consistent(self.troop_activities@),
                index == 0 ==> self.troop_activities@ == old(self).troop_activities@,
                index == 1 ==> self.troop_activities@ == old(self).troop_activities@.remove(
                    TroopState::Combating(CombatTypes::Attacking),
                ),
                index == 2 ==> self.troop_activities@ == old(self).troop_activities@.remove(
                    TroopState::Combating(CombatTypes::Attacking),
                ).remove(TroopState::Combating(CombatTypes::Defending)),
                index == 3 ==> self.troop_activities@ == without_combat(old(self).troop_activities@),
            decreases 3 - index,
        {
            self.troop_activities.remove(&TroopState::Combating(combat_types[index]));
            index = index + 1;
        }
        assert forall|combat_type: CombatTypes|
            !self.troop_activities@.contains(TroopState::Combating(combat_type)) by {
            match combat_type {
                CombatTypes::Attacking => {},
                CombatTypes::Defending => {},
                CombatTypes::FightingOverUnoccupiedTerritory => {},
            }
        }
    }
}

} // verus!
