//! What becomes of a troop and of a territory when the troop arrives where it
//! was sent.

use vstd::prelude::*;
use crate::globe::coordinates_system::coordinates_system::same_territory;
use crate::globe::territories::roster::{is_mixed, listed, TroopId};
use crate::globe::territories::territory::{Territory, TerritoryState, TerritoryStates};
use crate::player::player::PlayerId;
use super::troop::{is_consistent, Troop, TroopState};

verus! {

/// What the arrival of a troop in the territory that it was sent to leads to.
#[derive(Debug, Clone, Copy, PartialEq, Eq, Structural)]
pub enum DeploymentNextAction {
    /// The troop has not arrived, or was not sent anywhere.
    NotArrived,
    /// The troop starts to occupy the territory, which nobody holds or disputes.
    StartOccupation,
    /// The troop has come into a territory of its own player.
    EnterOwnTerritory,
    /// The troop has come into the territory of another player, and disputes it.
    ContestOccupiedTerritory,
    /// The troop has come into a territory that nobody holds and that troops of
    /// another player are in, and disputes it.
    ContestUnoccupiedTerritory,
    /// None of these.
    Undecided,
}

/// What the arrival of a troop of `owner` leads to in a territory that is in
/// `states`, ruled by `ruler`, and `mixed` if troops of more than one player
/// have arrived there, this troop counted.
pub open spec fn next_action_on_arrival(
    states: Set<TerritoryState>,
    mixed: bool,
    ruler: Option<PlayerId>,
    owner: PlayerId,
) -> DeploymentNextAction {
    if states.contains(TerritoryState::Unoccupied) && !mixed {
        DeploymentNextAction::StartOccupation
    } else if ruler == Some(owner) {
        DeploymentNextAction::EnterOwnTerritory
    } else if ruler is Some {
        DeploymentNextAction::ContestOccupiedTerritory
    } else if states.contains(TerritoryState::Unoccupied) && mixed {
        DeploymentNextAction::ContestUnoccupiedTerritory
    } else {
        DeploymentNextAction::Undecided
    }
}

/// The states of a territory after `action`.
pub open spec fn states_after_arrival(states: TerritoryStates, action: DeploymentNextAction) -> TerritoryStates {
    match action {
        DeploymentNextAction::StartOccupation => states.with(
            TerritoryState::OccupationInProgress,
        ).without(TerritoryState::UnoccupiedUnderConflict),
        DeploymentNextAction::ContestOccupiedTerritory => states.with(
            TerritoryState::OccupiedUnderConflict,
        ),
        DeploymentNextAction::ContestUnoccupiedTerritory => states.with(
            TerritoryState::UnoccupiedUnderConflict,
        ),
        _ => states,
    }
}

/// Whether the troop becomes the one that tries to conquer the territory by
/// `action`.
pub open spec fn conquers_by(action: DeploymentNextAction) -> bool {
    action is StartOccupation || action is ContestOccupiedTerritory || action
        is ContestUnoccupiedTerritory
}

impl<P: Copy> Troop<P> {
    /// Whether the troop was sent somewhere, has not been dealt with on arrival,
    /// and stands on a surface point of the territory that it was sent to.
    pub open spec fn arrives_now(&self) -> bool {
        &&& self.waiting_for_deployment_following_action
        &&& self.touching_surface_point.territory_id matches Some(territory_id)
        &&& territory_id@ == self.deployed_to_territory@
    }

    /// Whether the troop stands on a surface point of the territory that it was
    /// sent to.
    pub fn is_touching_deployed_territory(&self) -> (touching: bool)
        ensures
            touching == (self.touching_surface_point.territory_id matches Some(territory_id)
                && territory_id@ == self.deployed_to_territory@),
    {
        match &self.touching_surface_point.territory_id {
            Some(territory_id) => same_territory(territory_id, &self.deployed_to_territory),
            None => false,
        }
    }

    /// Deals with the troop `troop_id`, which is this troop, on its arrival in
    /// `territory`, the territory that it was sent to.
    ///
    /// Nothing happens unless the troop was sent, has not been dealt with yet and
    /// stands on a surface point of that territory. Then the troop has arrived
    /// and is no longer sent anywhere; the territory lists it as arrived; and by
    /// what the territory is then, the troop starts to occupy it, has come home,
    /// or disputes it. In the first and the last case the owner of the troop is
    /// the one who tries to conquer the territory.
    pub fn get_deployment_next_action(&mut self, troop_id: &TroopId, territory: &mut Territory) -> (action:
        DeploymentNextAction)
        requires
            old(territory).wf(),
        ensures
            final(territory).wf(),
            is_consistent(final(self).troop_activities@),
            !old(self).arrives_now() ==> {
                &&& action is NotArrived
                &&& *final(self) == *old(self)
                &&& *final(territory) == *old(territory)
            },
            old(self).arrives_now() ==> {
                let arrived = listed(old(territory).arrived(), (old(self).owner.player_id, troop_id@));
                &&& action == next_action_on_arrival(
                    old(territory).territory_states@,
                    is_mixed(arrived),
                    old(territory).ruler(),
                    old(self).owner.player_id,
                )
                &&& final(territory).arrived() == arrived
                &&& final(territory).deployed() == old(territory).deployed()
                &&& final(territory).territory_states == states_after_arrival(
                    old(territory).territory_states,
                    action,
                )
                &&& final(territory).player_trying_to_conquer == if conquers_by(action) {
                    Some(old(self).owner)
                } else {
                    old(territory).player_trying_to_conquer
                }
                &&& final(territory).current_ruler == old(territory).current_ruler
                &&& final(territory).territory_id == old(territory).territory_id
                &&& final(territory).location == old(territory).location
                &&& final(territory).coordinates == old(territory).coordinates
                &&& final(territory).size == old(territory).size
                &&& final(territory).organic_max_troops == old(territory).organic_max_troops
                &&& !final(self).waiting_for_deployment_following_action
                &&& final(self).arrived_to_territory
                &&& final(self).troop_activities@ == old(self).troop_activities@.remove(
                    TroopState::Deploying,
                )
                &&& final(self).same_trajectory_as(old(self))
                &&& final(self).adopted_speed == old(self).adopted_speed
                &&& final(self).touching_surface_point == old(self).touching_surface_point
                &&& final(self).deployed_to_territory == old(self).deployed_to_territory
                &&& final(self).surface == old(self).surface
                &&& final(self).surface_type_changed == old(self).surface_type_changed
                &&& final(self).owner == old(self).owner
                &&& final(self).combat_stats == old(self).combat_stats
                &&& final(self).idle_timer == old(self).idle_timer
                &&& final(self).initial_orientation_is_set == old(self).initial_orientation_is_set
                &&& final(self).heat_map == old(self).heat_map
                &&& final(self).is_in_combatting_group == old(self).is_in_combatting_group
            },
    {
        let deploying = self.troop_activities.contains(&TroopState::Deploying);
        if !self.waiting_for_deployment_following_action || !self.is_touching_deployed_territory() {
            return DeploymentNextAction::NotArrived;
        }
        self.waiting_for_deployment_following_action = false;
        self.arrived_to_territory = true;
        self.troop_activities.remove(&TroopState::Deploying);
        territory.inform_troop_arrived(troop_id, self.owner.player_id);
        let mixed = territory.troops.get_has_troops_from_different_players();
        let unoccupied = territory.territory_states.contains(&TerritoryState::Unoccupied);
        let ruled_by_owner = match &territory.current_ruler {
            Some(ruler_static_info) => ruler_static_info.player_id == self.owner.player_id,
            None => false,
        };
        if unoccupied && !mixed {
            territory.territory_states.insert(TerritoryState::OccupationInProgress);
            territory.territory_states.remove(&TerritoryState::UnoccupiedUnderConflict);
            territory.player_trying_to_conquer = Some(self.owner.clone());
            DeploymentNextAction::StartOccupation
        } else if ruled_by_owner {
            DeploymentNextAction::EnterOwnTerritory
        } else if territory.current_ruler.is_some() {
            territory.territory_states.insert(TerritoryState::OccupiedUnderConflict);
            territory.player_trying_to_conquer = Some(self.owner.clone());
            DeploymentNextAction::ContestOccupiedTerritory
        } else if unoccupied && mixed {
            territory.territory_states.insert(TerritoryState::UnoccupiedUnderConflict);
            territory.player_trying_to_conquer = Some(self.owner.clone());
            DeploymentNextAction::ContestUnoccupiedTerritory
        } else {
            DeploymentNextAction::Undecided
        }
    }
}

} // verus!
