//! The orders of a player to a troop.

use vstd::prelude::*;
use crate::globe::coordinates_system::coordinates_system::{CoordinatesSystem, NUM_OF_WAYPOINTS};
use crate::globe::coordinates_system::surface_point::Coordinates;
use crate::globe::coordinates_system::virtual_planet::VirtualPlanet;
use crate::globe::territories::roster::TroopId;
use crate::globe::territories::territory::TerritoryId;
use super::speed::SpeedType;
use super::troop::{is_consistent, Troop, TroopState};

verus! {

impl<P: Copy> Troop<P> {
    /// The activities of a troop that is sent somewhere: it is on its way and
    /// sent, and neither rests nor patrols.
    pub open spec fn ordered_activities(activities: Set<TroopState>) -> Set<TroopState> {
        activities.remove(TroopState::Idle).insert(TroopState::Moving).insert(
            TroopState::Deploying,
        ).remove(TroopState::Patrolling)
    }

    /// Sends the troop `troop_id`, which is this troop, along
    /// `geodesic_trajectory` to the territory `dest_territory_id`.
    ///
    /// The troop gives up what trajectory it had and the distances of its last
    /// search, and sets out at the pace of a troop that was sent: it is on its
    /// way and sent, and neither rests nor patrols. The territory that it was
    /// sent to before no longer lists it, and `dest_territory_id`, in which it
    /// has not arrived, lists it as sent there.
    pub fn set_order_to_move_to(
        &mut self,
        troop_id: &TroopId,
        geodesic_trajectory: &[P; NUM_OF_WAYPOINTS],
        dest_territory_id: &TerritoryId,
        virtual_planet: &mut VirtualPlanet<P>,
    )
        requires
            old(virtual_planet).territories.wf(),
            old(virtual_planet).territories@.contains_key(old(self).deployed_to_territory@),
            old(virtual_planet).territories@.contains_key(dest_territory_id@),
        ensures
            final(self).troop_activities@ == Self::ordered_activities(old(self).troop_activities@),
            is_consistent(final(self).troop_activities@),
            final(self).moving_trajectory_points@ == geodesic_trajectory@,
            final(self).moving_trajectory_is_set,
            final(self).current_trajectory_point == 0,
            !final(self).arrived_to_territory,
            final(self).adopted_speed == SpeedType::FightOrFlight,
            final(self).deployed_to_territory@ == dest_territory_id@,
            final(self).waiting_for_deployment_following_action,
            final(self).heat_map@ == Map::<Coordinates, i32>::empty(),
            final(self).touching_surface_point == old(self).touching_surface_point,
            final(self).surface == old(self).surface,
            final(self).surface_type_changed == old(self).surface_type_changed,
            final(self).owner == old(self).owner,
            final(self).combat_stats == old(self).combat_stats,
            final(self).idle_timer == old(self).idle_timer,
            final(self).initial_orientation_is_set == old(self).initial_orientation_is_set,
            final(self).is_in_combatting_group == old(self).is_in_combatting_group,
            final(virtual_planet).territories.wf(),
            final(virtual_planet).territories.names() == old(virtual_planet).territories.names(),
            final(virtual_planet).territories@.dom() == old(virtual_planet).territories@.dom(),
            final(virtual_planet).coordinate_map == old(virtual_planet).coordinate_map,
            final(virtual_planet).surface_points_metadata == old(virtual_planet).surface_points_metadata,
            final(virtual_planet).is_ready_for_physics == old(virtual_planet).is_ready_for_physics,
            final(virtual_planet).are_surface_points_matched == old(virtual_planet).are_surface_points_matched,
            final(virtual_planet).has_surface_points_matching_started == old(virtual_planet).has_surface_points_matching_started,
            forall|id: Seq<char>|
                old(virtual_planet).territories@.contains_key(id) && id != old(self).deployed_to_territory@ && id != dest_territory_id@ ==> #[trigger] final(virtual_planet).territories@[id] == old(virtual_planet).territories@[id],
            ({
                let origin = old(self).deployed_to_territory@;
                let destination = dest_territory_id@;
                let entry = (old(self).owner.player_id, troop_id@);
                let before = old(virtual_planet).territories@;
                let after = final(virtual_planet).territories@;
                if origin == destination {
                    before[origin].is_left_and_promised(&after[origin], entry)
                } else {
                    &&& before[origin].is_left_by(&after[origin], entry)
                    &&& before[destination].is_promised(&after[destination], entry)
                }
            }),
    {
        self.reset_trajectory();
        self.troop_activities.insert(TroopState::Moving);
        self.troop_activities.insert(TroopState::Deploying);
        self.troop_activities.remove(&TroopState::Patrolling);
        assert(self.troop_activities@ =~= Self::ordered_activities(old(self).troop_activities@));
        let player_id = self.owner.player_id;
        let ghost before = old(virtual_planet).territories@;
        let ghost origin = old(self).deployed_to_territory@;
        let ghost entry = (player_id, troop_id@);
        assert(before[origin].wf());
        assert(before[dest_territory_id@].wf());
        {
            let origin_territory = virtual_planet.territories.get_mut(&self.deployed_to_territory);
            origin_territory.inform_territory_departure(troop_id, player_id);
        }
        let ghost between = virtual_planet.territories@;
        assert(between.dom() =~= before.dom());
        self.arrived_to_territory = false;
        self.moving_trajectory_points = CoordinatesSystem::trajectory_to_vec(geodesic_trajectory);
        self.moving_trajectory_is_set = true;
        self.adopted_speed = SpeedType::FightOrFlight;
        self.deployed_to_territory = dest_territory_id.clone();
        {
            let destination_territory = virtual_planet.territories.get_mut(&self.deployed_to_territory);
            destination_territory.add_territory_deployment(troop_id, player_id);
        }
        self.waiting_for_deployment_following_action = true;
        self.heat_map.clear();
        proof {
            let after = virtual_planet.territories@;
            assert(after.dom() =~= before.dom());
            assert forall|id: Seq<char>| after.contains_key(id) implies (#[trigger] after[id]).wf() by {
                if id != origin && id != dest_territory_id@ {
                    assert(before.contains_key(id));
                    assert(after[id] == before[id]);
                }
            }
        }
    }

    /// Marks the troop as selected by its player.
    pub fn select_troop(&mut self)
        ensures
            final(self).troop_activities@ == old(self).troop_activities@.insert(TroopState::Selected),
            is_consistent(final(self).troop_activities@),
            final(self).same_trajectory_as(old(self)),
            final(self).adopted_speed == old(self).adopted_speed,
            final(self).same_standing_as(old(self)),
    {
        self.troop_activities.insert(TroopState::Selected);
        assert(self.troop_activities@ =~= old(self).troop_activities@.insert(TroopState::Selected));
    }

    /// Marks the troop as no longer selected by its player.
    pub fn deselect_troop(&mut self)
        ensures
            final(self).troop_activities@ == old(self).troop_activities@.remove(TroopState::Selected),
            is_consistent(final(self).troop_activities@),
            final(self).same_trajectory_as(old(self)),
            final(self).adopted_speed == old(self).adopted_speed,
            final(self).same_standing_as(old(self)),
    {
        self.troop_activities.remove(&TroopState::Selected);
    }
}

} // verus!
