//! What a troop does in a fight: whom it targets, when it closes in and when it
//! fires.

use vstd::prelude::*;
use crate::globe::coordinates_system::coordinates_system::{
    is_in_the_frontiers_trajectory, same_territory, CoordinatesSystem, NUM_OF_WAYPOINTS,
};
use crate::globe::coordinates_system::surface_point::Coordinates;
use crate::globe::coordinates_system::virtual_planet::VirtualPlanet;
use crate::globe::territories::roster::{is_first_other_player, names_of, troops_of_player, TroopId};
use crate::globe::territories::territory::TerritoryId;
use crate::measures::{Distance, Duration};
use crate::troops::troop::{is_combating, is_consistent, Troop, TroopState};
use super::combat_stats::{Cannon, CombatStats, CombatTypes, COOL_DOWN_TIMER};

verus! {

/// An enemy troop as a troop sees it.
#[derive(Debug)]
pub struct EnemySighting {
    pub troop_id: TroopId,
    /// The territory that the enemy troop was sent to.
    pub deployed_to_territory: TerritoryId,
    /// How far the enemy troop is.
    pub distance: Distance,
}

/// What a troop does in a tick of a fight.
#[derive(Debug, Clone, Copy, PartialEq, Eq, Structural)]
pub enum CombatAction {
    /// The troop is in no fight.
    NotFighting,
    /// The troop fights over a territory that nobody rules, where it neither
    /// attacks nor defends.
    Undecided,
    /// There is nobody to target: the troop forgets its target.
    NoTarget,
    /// The target is no longer sent to the territory of the troop: the troop
    /// forgets it.
    TargetLeft,
    /// The troop has a target but is sent elsewhere, and holds its fire.
    Hold,
    /// The target is out of range: the troop is to close in.
    Approach,
    /// The target is in range: the troop stops and faces it while its cannon
    /// cools down.
    Aim,
    /// The target is in range and the cannon is ready: the troop stops, faces
    /// the target and fires.
    Fire,
}

/// Whether an enemy at `distance` is near enough to be noticed by a troop whose
/// cannon reaches `range`: within the range and an eighth of it.
pub open spec fn is_close_to_the_cannon_range(distance: Distance, range: Distance) -> bool {
    distance <= range + range / 8
}

/// Whether the troop may take the enemy of `sighting` as its target.
pub open spec fn is_candidate(sighting: EnemySighting, close_to_the_cannon_range: bool, range: Distance) -> bool {
    !close_to_the_cannon_range || is_close_to_the_cannon_range(sighting.distance, range)
}

/// Whether the `index`-th of `sightings` is the nearest candidate, and the
/// first of those that are as near.
pub open spec fn is_closest_candidate(
    sightings: Seq<EnemySighting>,
    index: int,
    close_to_the_cannon_range: bool,
    range: Distance,
) -> bool {
    &&& 0 <= index < sightings.len()
    &&& is_candidate(sightings[index], close_to_the_cannon_range, range)
    &&& forall|other: int|
        0 <= other < sightings.len() && is_candidate(
            #[trigger] sightings[other],
            close_to_the_cannon_range,
            range,
        ) ==> sightings[index].distance <= sightings[other].distance
    &&& forall|earlier: int|
        0 <= earlier < index && is_candidate(
            #[trigger] sightings[earlier],
            close_to_the_cannon_range,
            range,
        ) ==> sightings[index].distance < sightings[earlier].distance
}

/// Whether the `index`-th of `sightings` is the first sighting of the troop
/// `troop_id`.
pub open spec fn is_first_sighting_of(sightings: Seq<EnemySighting>, index: int, troop_id: Seq<char>) -> bool {
    &&& 0 <= index < sightings.len()
    &&& sightings[index].troop_id@ == troop_id
    &&& forall|earlier: int| 0 <= earlier < index ==> (#[trigger] sightings[earlier]).troop_id@ != troop_id
}

/// The time for which a cannon has cooled down once `delta` more has passed.
pub open spec fn cooled_down_for(counter: Duration, delta: Duration) -> Duration {
    if counter + delta > u64::MAX {
        u64::MAX
    } else {
        (counter + delta) as u64
    }
}

/// How many shots a cannon fires that has cooled down for `counter` and is asked
/// to fire after each of `deltas` has passed.
pub open spec fn shots_fired(counter: Duration, deltas: Seq<Duration>) -> nat
    decreases deltas.len(),
{
    if deltas.len() == 0 {
        0
    } else if cooled_down_for(counter, deltas[0]) >= COOL_DOWN_TIMER {
        1 + shots_fired(0, deltas.drop_first())
    } else {
        shots_fired(cooled_down_for(counter, deltas[0]), deltas.drop_first())
    }
}

/// The time that passes in all of `deltas`.
pub open spec fn total_time(deltas: Seq<Duration>) -> int
    decreases deltas.len(),
{
    if deltas.len() == 0 {
        0
    } else {
        deltas[0] + total_time(deltas.drop_first())
    }
}

/// A cannon does not fire before it has cooled down for `COOL_DOWN_TIMER`,
/// however often it is asked to.
pub proof fn lemma_no_shot_before_cool_down(counter: Duration, deltas: Seq<Duration>)
    requires
        counter + total_time(deltas) < COOL_DOWN_TIMER,
    ensures
        shots_fired(counter, deltas) == 0,
    decreases deltas.len(),
{
    if deltas.len() > 0 {
        assert(total_time(deltas.drop_first()) >= 0) by {
            lemma_total_time_is_not_negative(deltas.drop_first());
        }
        lemma_no_shot_before_cool_down(cooled_down_for(counter, deltas[0]), deltas.drop_first());
    }
}

/// No time is less than none.
pub proof fn lemma_total_time_is_not_negative(deltas: Seq<Duration>)
    ensures
        total_time(deltas) >= 0,
    decreases deltas.len(),
{
    if deltas.len() > 0 {
        lemma_total_time_is_not_negative(deltas.drop_first());
    }
}

impl<P: Copy> Troop<P> {
    /// Whether `names` are the troops that the troop has to see in a tick of a
    /// fight over the territory whose arrived troops are `arrived`: its target,
    /// if it has one; else, if it has arrived, the troops of the first other
    /// player among `arrived`. A troop that neither attacks nor defends has
    /// nobody to see.
    pub open spec fn has_to_sight(&self, arrived: Seq<(i32, Seq<char>)>, names: Seq<Seq<char>>) -> bool {
        if !self.troop_activities@.contains(TroopState::Combating(CombatTypes::Attacking))
            && !self.troop_activities@.contains(TroopState::Combating(CombatTypes::Defending)) {
            names == Seq::<Seq<char>>::empty()
        } else {
            match self.combat_stats.opening_fire_on_troop {
                Some(troop_id) => names == seq![troop_id@],
                None => if !self.arrived_to_territory {
                    names == Seq::<Seq<char>>::empty()
                } else if exists|player_id: i32|
                    is_first_other_player(arrived, self.owner.player_id, player_id) {
                    exists|player_id: i32|
                        is_first_other_player(arrived, self.owner.player_id, player_id) && names
                            == troops_of_player(arrived, player_id)
                } else {
                    names == Seq::<Seq<char>>::empty()
                },
            }
        }
    }

    /// The troops that the troop has to see in this tick of its fight.
    pub fn enemies_to_sight(&self, virtual_planet: &VirtualPlanet<P>) -> (troop_ids: Vec<TroopId>)
        requires
            virtual_planet.territories.wf(),
            virtual_planet.territories@.contains_key(self.deployed_to_territory@),
        ensures
            self.has_to_sight(
                virtual_planet.territories@[self.deployed_to_territory@].arrived(),
                names_of(troop_ids@),
            ),
    {
        let mut troop_ids: Vec<TroopId> = Vec::new();
        assert(names_of(troop_ids@) =~= Seq::<Seq<char>>::empty());
        if !self.troop_activities.contains(&TroopState::Combating(CombatTypes::Attacking))
            && !self.troop_activities.contains(&TroopState::Combating(CombatTypes::Defending)) {
            return troop_ids;
        }
        match &self.combat_stats.opening_fire_on_troop {
            Some(troop_id) => {
                troop_ids.push(troop_id.clone());
                assert(names_of(troop_ids@) =~= seq![troop_id@]);
                troop_ids
            },
            None => {
                if !self.arrived_to_territory {
                    return troop_ids;
                }
                let territory = virtual_planet.territories.get_existing(&self.deployed_to_territory);
                let arrived = territory.troops.get_all_troops_deployed_and_arrived();
                match arrived.first_other_player(self.owner.player_id) {
                    Some(enemy_player_id) => arrived.troops_of(enemy_player_id),
                    None => {
                        assert forall|player_id: i32|
                            !is_first_other_player(arrived@, self.owner.player_id, player_id) by {
                            if is_first_other_player(arrived@, self.owner.player_id, player_id) {
                                let i = choose|i: int|
                                    {
                                        &&& 0 <= i < arrived@.len()
                                        &&& (#[trigger] arrived@[i]).0 == player_id
                                        &&& player_id != self.owner.player_id
                                    };
                                assert(arrived@[i].0 == self.owner.player_id);
                            }
                        }
                        troop_ids
                    },
                }
            },
        }
    }

    /// The nearest of the enemies in `sightings`, and the first of those that are
    /// as near; with `close_to_the_cannon_range`, among those only that are
    /// within the range of the cannon and an eighth of it. A troop that has not
    /// arrived in its territory finds nobody.
    pub fn find_closest_enemy_troop_to_be_attacked(
        &self,
        sightings: &Vec<EnemySighting>,
        close_to_the_cannon_range: bool,
    ) -> (closest: Option<usize>)
        ensures
            match closest {
                Some(index) => self.arrived_to_territory && is_closest_candidate(
                    sightings@,
                    index as int,
                    close_to_the_cannon_range,
                    self.combat_stats.cannon.range,
                ),
                None => !self.arrived_to_territory || forall|index: int|
                    0 <= index < sightings@.len() ==> !is_candidate(
                        #[trigger] sightings@[index],
                        close_to_the_cannon_range,
                        self.combat_stats.cannon.range,
                    ),
            },
    {
        if !self.arrived_to_territory {
            return None;
        }
        let range = self.combat_stats.cannon.range;
        let mut closest: Option<usize> = None;
        let mut index: usize = 0;
        while index < sightings.len()
            invariant
                index <= sightings@.len(),
                range == self.combat_stats.cannon.range,
                match closest {
                    Some(best) => best < index && is_closest_candidate(
                        sightings@.take(index as int),
                        best as int,
                        close_to_the_cannon_range,
                        range,
                    ),
                    None => forall|seen: int|
                        0 <= seen < index ==> !is_candidate(
                            #[trigger] sightings@[seen],
                            close_to_the_cannon_range,
                            range,
                        ),
                },
            decreases sightings@.len() - index,
        {
            let distance = sightings[index].distance;
            let ghost seen = sightings@.take(index as int);
            let ghost wider = sightings@.take(index + 1);
            let near_enough = !close_to_the_cannon_range || distance <= range || distance - range
                <= range / 8;
            assert(near_enough == is_candidate(sightings@[index as int], close_to_the_cannon_range, range));
            let ghost before = closest;
            if near_enough {
                match closest {
                    Some(best) => {
                        if distance < sightings[best].distance {
                            closest = Some(index);
                        }
                    },
                    None => {
                        closest = Some(index);
                    },
                }
            }
            proof {
                assert forall|i: int| 0 <= i < index implies wider[i] == seen[i] && seen[i]
                    == sightings@[i] by {}
                assert(wider[index as int] == sightings@[index as int]);
                match closest {
                    Some(best) => {
                        if let Some(previous) = before {
                            assert(is_closest_candidate(
                                seen,
                                previous as int,
                                close_to_the_cannon_range,
                                range,
                            ));
                            assert(seen[previous as int] == sightings@[previous as int]);
                        }
                        assert forall|other: int|
                            0 <= other < wider.len() && is_candidate(
                                #[trigger] wider[other],
                                close_to_the_cannon_range,
                                range,
                            ) implies wider[best as int].distance <= wider[other].distance by {
                            if other < index {
                                assert(is_candidate(seen[other], close_to_the_cannon_range, range));
                            }
                        }
                        assert forall|earlier: int|
                            0 <= earlier < best && is_candidate(
                                #[trigger] wider[earlier],
                                close_to_the_cannon_range,
                                range,
                            ) implies wider[best as int].distance < wider[earlier].distance by {
                            assert(is_candidate(seen[earlier], close_to_the_cannon_range, range));
                        }
                    },
                    None => {},
                }
            }
            index = index + 1;
        }
        assert(sightings@.take(index as int) =~= sightings@);
        closest
    }

    /// The first sighting of the troop `troop_id` among `sightings`, if there is
    /// one.
    pub fn find_sighting_of(sightings: &Vec<EnemySighting>, troop_id: &TroopId) -> (found: Option<usize>)
        ensures
            match found {
                Some(index) => is_first_sighting_of(sightings@, index as int, troop_id@),
                None => forall|index: int|
                    0 <= index < sightings@.len() ==> (#[trigger] sightings@[index]).troop_id@
                        != troop_id@,
            },
    {
        let mut index: usize = 0;
        while index < sightings.len()
            invariant
                index <= sightings@.len(),
                forall|seen: int| 0 <= seen < index ==> (#[trigger] sightings@[seen]).troop_id@ != troop_id@,
            decreases sightings@.len() - index,
        {
            if sightings[index].troop_id == *troop_id {
                return Some(index);
            }
            index = index + 1;
        }
        None
    }

    /// Lets `delta` more of the cool-down of the cannon pass, and says whether
    /// the cannon has then cooled down for `COOL_DOWN_TIMER`. If it has, it is
    /// taken to fire, and starts to cool down anew.
    pub fn has_cool_down_finished(&mut self, delta: Duration) -> (finished: bool)
        ensures
            finished == (cooled_down_for(old(self).combat_stats.cannon.cooling_down_counter, delta)
                >= COOL_DOWN_TIMER),
            *final(self) == (Troop {
                combat_stats: CombatStats {
                    cannon: Cannon {
                        cooling_down_counter: if finished {
                            0
                        } else {
                            cooled_down_for(old(self).combat_stats.cannon.cooling_down_counter, delta)
                        },
                        ..old(self).combat_stats.cannon
                    },
                    ..old(self).combat_stats
                },
                ..*old(self)
            }),
    {
        let counter = self.combat_stats.cannon.cooling_down_counter;
        let cooled_down = if delta > u64::MAX - counter {
            u64::MAX
        } else {
            counter + delta
        };
        if cooled_down >= COOL_DOWN_TIMER {
            self.combat_stats.cannon.cooling_down_counter = 0;
            true
        } else {
            self.combat_stats.cannon.cooling_down_counter = cooled_down;
            false
        }
    }

    /// Whether `after` is the troop, and `action` what it does, once it has dealt
    /// with `enemy` in a tick of `delta`.
    ///
    /// Without enemy, or with one that is not sent to the territory of the
    /// troop, the troop forgets its target. Otherwise the enemy is its target.
    /// A troop that is sent elsewhere then holds its fire. A troop whose target
    /// is beyond the range of its cannon is to close in. Any other troop drops
    /// its trajectory and stands; its cannon cools down for `delta` more, and
    /// fires if it has then cooled down for `COOL_DOWN_TIMER`.
    pub open spec fn is_combat_outcome(
        &self,
        after: &Self,
        delta: Duration,
        enemy: Option<EnemySighting>,
        action: CombatAction,
    ) -> bool {
        &&& after.same_unengaged_as(self)
        &&& after.troop_activities == self.troop_activities
        &&& after.adopted_speed == self.adopted_speed
        &&& after.is_in_combatting_group == self.is_in_combatting_group
        &&& after.combat_stats.in_after_combat == self.combat_stats.in_after_combat
        &&& after.combat_stats.hp == self.combat_stats.hp
        &&& after.combat_stats.alive == self.combat_stats.alive
        &&& after.combat_stats.fighting_behavior == self.combat_stats.fighting_behavior
        &&& after.combat_stats.cannon.range == self.combat_stats.cannon.range
        &&& match enemy {
            None => {
                &&& action is NoTarget
                &&& after.combat_stats.opening_fire_on_troop is None
                &&& after.stands_as(self)
            },
            Some(sighting) => if sighting.deployed_to_territory@ != self.deployed_to_territory@ {
                &&& action is TargetLeft
                &&& after.combat_stats.opening_fire_on_troop is None
                &&& after.stands_as(self)
            } else {
                &&& after.combat_stats.opening_fire_on_troop == Some(sighting.troop_id)
                &&& if self.troop_activities@.contains(TroopState::Deploying) {
                    action is Hold && after.stands_as(self)
                } else if sighting.distance > self.combat_stats.cannon.range {
                    action is Approach && after.stands_as(self)
                } else {
                    let cooled_down = cooled_down_for(
                        self.combat_stats.cannon.cooling_down_counter,
                        delta,
                    );
                    &&& after.has_no_trajectory()
                    &&& !after.combat_stats.moving_while_fighting
                    &&& if cooled_down >= COOL_DOWN_TIMER {
                        action is Fire && after.combat_stats.cannon.cooling_down_counter == 0
                    } else {
                        action is Aim && after.combat_stats.cannon.cooling_down_counter == cooled_down
                    }
                }
            },
        }
    }

    /// Whether `self` has the trajectory and the cannon of `other`, as they were.
    pub open spec fn stands_as(&self, other: &Self) -> bool {
        &&& self.same_trajectory_as(other)
        &&& self.combat_stats.moving_while_fighting == other.combat_stats.moving_while_fighting
        &&& self.combat_stats.cannon == other.combat_stats.cannon
    }

    /// Deals with `enemy` in a tick of `delta`; see `is_combat_outcome`.
    pub fn handle_combat(&mut self, delta: Duration, enemy: Option<&EnemySighting>) -> (action: CombatAction)
        ensures
            old(self).is_combat_outcome(
                final(self),
                delta,
                match enemy {
                    Some(sighting) => Some(*sighting),
                    None => None,
                },
                action,
            ),
    {
        let enemy_troop = match enemy {
            Some(enemy_troop) => enemy_troop,
            None => {
                self.combat_stats.opening_fire_on_troop = None;
                return CombatAction::NoTarget;
            },
        };
        if !same_territory(&enemy_troop.deployed_to_territory, &self.deployed_to_territory) {
            self.combat_stats.opening_fire_on_troop = None;
            return CombatAction::TargetLeft;
        }
        self.combat_stats.opening_fire_on_troop = Some(enemy_troop.troop_id.clone());
        if self.troop_activities.contains(&TroopState::Deploying) {
            return CombatAction::Hold;
        }
        if enemy_troop.distance > self.combat_stats.cannon.range {
            return CombatAction::Approach;
        }
        self.reset_trajectory();
        self.combat_stats.moving_while_fighting = false;
        if self.has_cool_down_finished(delta) {
            CombatAction::Fire
        } else {
            CombatAction::Aim
        }
    }

    /// What the troop does in a tick of `delta` of its fight, given the enemies
    /// that it sees.
    ///
    /// A troop that is in no fight does nothing, nor does one that neither
    /// attacks nor defends. Any other troop deals with its target, if it sees
    /// it, or else with nobody; a troop without target deals with the nearest
    /// enemy that it sees, which for an attacker must be close to the range of
    /// its cannon.
    pub fn keep_fighting_if_combatting(&mut self, delta: Duration, sightings: &Vec<EnemySighting>) -> (action:
        CombatAction)
        ensures
            is_consistent(final(self).troop_activities@),
            !is_combating(old(self).troop_activities@) ==> action is NotFighting && *final(self)
                == *old(self),
            is_combating(old(self).troop_activities@) && old(self).troop_activities@.contains(
                TroopState::Combating(CombatTypes::FightingOverUnoccupiedTerritory),
            ) ==> action is Undecided && *final(self) == *old(self),
            is_combating(old(self).troop_activities@) && !old(self).troop_activities@.contains(
                TroopState::Combating(CombatTypes::FightingOverUnoccupiedTerritory),
            ) ==> exists|enemy: Option<int>|
                {
                    &&& old(self).targets(sightings@, enemy)
                    &&& old(self).is_combat_outcome(
                        final(self),
                        delta,
                        match enemy {
                            Some(index) => Some(sightings@[index]),
                            None => None,
                        },
                        action,
                    )
                },
    {
        let side = match self.troop_activities.combat_type() {
            Some(side) => side,
            None => {
                return CombatAction::NotFighting;
            },
        };
        let close_to_the_cannon_range = match side {
            CombatTypes::Attacking => true,
            CombatTypes::Defending => false,
            CombatTypes::FightingOverUnoccupiedTerritory => {
                return CombatAction::Undecided;
            },
        };
        let enemy = match &self.combat_stats.opening_fire_on_troop {
            Some(troop_id) => Self::find_sighting_of(sightings, troop_id),
            None => self.find_closest_enemy_troop_to_be_attacked(sightings, close_to_the_cannon_range),
        };
        let ghost chosen: Option<int> = match enemy {
            Some(index) => Some(index as int),
            None => None,
        };
        assert(self.targets(sightings@, chosen));
        match enemy {
            Some(index) => self.handle_combat(delta, Some(&sightings[index])),
            None => self.handle_combat(delta, None),
        }
    }

    /// Whether `enemy` is the one among `sightings` that the troop deals with:
    /// the first sighting of its target, if it has a target; else the nearest
    /// candidate, which for an attacker must be close to the range of its
    /// cannon; and nobody where there is no such sighting.
    pub open spec fn targets(&self, sightings: Seq<EnemySighting>, enemy: Option<int>) -> bool {
        let close_to_the_cannon_range = self.troop_activities@.contains(
            TroopState::Combating(CombatTypes::Attacking),
        );
        match self.combat_stats.opening_fire_on_troop {
            Some(troop_id) => match enemy {
                Some(index) => is_first_sighting_of(sightings, index, troop_id@),
                None => forall|index: int|
                    0 <= index < sightings.len() ==> (#[trigger] sightings[index]).troop_id@
                        != troop_id@,
            },
            None => match enemy {
                Some(index) => self.arrived_to_territory && is_closest_candidate(
                    sightings,
                    index,
                    close_to_the_cannon_range,
                    self.combat_stats.cannon.range,
                ),
                None => !self.arrived_to_territory || forall|index: int|
                    0 <= index < sightings.len() ==> !is_candidate(
                        #[trigger] sightings[index],
                        close_to_the_cannon_range,
                        self.combat_stats.cannon.range,
                    ),
            },
        }
    }

    /// Sets the troop on its way to an enemy at the cell `dest_lat_long`, unless
    /// it has a trajectory already.
    ///
    /// The way starts at the cell under the troop and stays within the territory
    /// that the troop was sent to, as `is_in_the_frontiers_trajectory` says of
    /// `base_geodesic_trajectory`, whose waypoints lie over `trajectory_cells`.
    /// The distances of the search, or none where there was no search, are those
    /// of the troop from then on.
    pub fn set_trajectory_to_get_closer_to_enemy(
        &mut self,
        base_geodesic_trajectory: &[P; NUM_OF_WAYPOINTS],
        trajectory_cells: &[Option<Coordinates>; NUM_OF_WAYPOINTS],
        dest_lat_long: Coordinates,
        virtual_planet: &VirtualPlanet<P>,
    )
        requires
            virtual_planet.coordinate_map.wf(),
            virtual_planet.coordinate_map.contains(old(self).touching_surface_point.lat_long),
            virtual_planet.coordinate_map.contains(dest_lat_long),
        ensures
            old(self).moving_trajectory_is_set ==> *final(self) == *old(self),
            !old(self).moving_trajectory_is_set ==> {
                &&& final(self).moving_trajectory_is_set
                &&& final(self).current_trajectory_point == 0
                &&& final(self).moving_trajectory_points@.len() > 0
                &&& is_in_the_frontiers_trajectory(
                    final(self).moving_trajectory_points@,
                    Map::<Coordinates, i32>::empty(),
                    final(self).heat_map@,
                    base_geodesic_trajectory@,
                    trajectory_cells@,
                    old(self).touching_surface_point.lat_long,
                    dest_lat_long,
                    old(self).deployed_to_territory@,
                    &virtual_planet.coordinate_map,
                )
                &&& final(self).combat_stats == (CombatStats {
                    moving_while_fighting: true,
                    ..old(self).combat_stats
                })
                &&& final(self).troop_activities == old(self).troop_activities
                &&& final(self).adopted_speed == old(self).adopted_speed
                &&& final(self).is_in_combatting_group == old(self).is_in_combatting_group
                &&& final(self).same_unengaged_except_heat_map_as(old(self))
            },
    {
        if !self.moving_trajectory_is_set {
            self.heat_map.clear();
            let in_the_frontiers_trajectory = CoordinatesSystem::get_in_the_frontiers_trajectory(
                base_geodesic_trajectory,
                trajectory_cells,
                self.touching_surface_point.lat_long,
                dest_lat_long,
                &self.deployed_to_territory,
                &virtual_planet.coordinate_map,
                &mut self.heat_map,
            );
            self.moving_trajectory_points = in_the_frontiers_trajectory;
            self.current_trajectory_point = 0;
            self.combat_stats.moving_while_fighting = true;
            self.moving_trajectory_is_set = true;
        }
    }

    /// Whether everything but what a fight or a search changes is the same in
    /// `self` and in `other`.
    pub open spec fn same_unengaged_except_heat_map_as(&self, other: &Self) -> bool {
        &&& self.touching_surface_point == other.touching_surface_point
        &&& self.deployed_to_territory == other.deployed_to_territory
        &&& self.arrived_to_territory == other.arrived_to_territory
        &&& self.surface == other.surface
        &&& self.surface_type_changed == other.surface_type_changed
        &&& self.owner == other.owner
        &&& self.idle_timer == other.idle_timer
        &&& self.initial_orientation_is_set == other.initial_orientation_is_set
        &&& self.waiting_for_deployment_following_action
            == other.waiting_for_deployment_following_action
    }
}

} // verus!
