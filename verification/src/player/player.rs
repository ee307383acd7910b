//! A player: who they are and how many troops and territories they have.

use vstd::prelude::*;
use crate::globe::territories::territory::TerritoryId;
use crate::i18n::base::AvailableLanguage;
use crate::troops::mesh_map::MeshId;
use super::color::PlayerColor;

verus! {

/// The number of a player.
pub type PlayerId = i32;

/// The shapes of a player's troops, on land and at sea.
#[derive(Debug, Clone, Copy, PartialEq, Eq, Structural)]
pub struct TroopMeshes {
    pub land: MeshId,
    pub sea: MeshId,
}

/// Who plays: the player at the screen, another player, or the machine.
#[derive(Debug, Clone, Copy, PartialEq, Eq, Structural)]
pub enum PlayerType {
    MainPlayer,
    OtherPlayers,
    Bot,
}

/// What is known of a player from the start and does not change.
#[derive(Debug)]
pub struct PlayerStaticInfo {
    pub player_id: PlayerId,
    pub user_name: String,
    pub color: PlayerColor,
    pub initial_territory: TerritoryId,
    pub player_type: PlayerType,
    pub troop_meshes: TroopMeshes,
}

impl Clone for PlayerStaticInfo {
    fn clone(&self) -> (copy: Self)
        ensures
            copy == *self,
    {
        PlayerStaticInfo {
            player_id: self.player_id,
            user_name: self.user_name.clone(),
            color: self.color,
            initial_territory: self.initial_territory.clone(),
            player_type: self.player_type,
            troop_meshes: self.troop_meshes,
        }
    }
}

/// A player: who they are, and how many troops and territories they have.
pub struct Player {
    pub static_info: PlayerStaticInfo,
    pub language: AvailableLanguage,
    pub troops_counter: i32,
    pub territory_counter: i32,
    /// The sum, over the territories that the player rules, of the troops that
    /// each can hold.
    pub max_troop_allowed: i32,
    pub alive: bool,
}

impl Player {
    /// The static info of a player that has not been set up yet.
    pub fn get_blank_static_info() -> (info: PlayerStaticInfo)
        ensures
            info.player_id == 0,
            info.user_name@ == "to_be_set"@,
            info.color == PlayerColor::Black,
            info.initial_territory@ == "to_be_set"@,
            info.player_type == PlayerType::Bot,
            info.troop_meshes == (TroopMeshes { land: MeshId::Tank1, sea: MeshId::Boat1 }),
    {
        PlayerStaticInfo {
            player_id: 0,
            user_name: "to_be_set".to_owned(),
            color: PlayerColor::Black,
            initial_territory: "to_be_set".to_owned(),
            player_type: PlayerType::Bot,
            troop_meshes: TroopMeshes { land: MeshId::Tank1, sea: MeshId::Boat1 },
        }
    }

    /// A player that has not been set up yet, without troops or territories.
    pub fn new() -> (player: Player)
        ensures
            player.static_info.player_id == 0,
            player.language == AvailableLanguage::InternationalEnglish,
            player.troops_counter == 0,
            player.territory_counter == 0,
            player.max_troop_allowed == 0,
            player.alive,
    {
        Player {
            static_info: Self::get_blank_static_info(),
            language: AvailableLanguage::InternationalEnglish,
            troops_counter: 0,
            territory_counter: 0,
            max_troop_allowed: 0,
            alive: true,
        }
    }

    /// Says who the player is.
    pub fn set_player(
        &mut self,
        player_id: PlayerId,
        user_name: String,
        color: PlayerColor,
        initial_territory: TerritoryId,
        player_type: PlayerType,
        troop_meshes: TroopMeshes,
        language: AvailableLanguage,
    )
        ensures
            final(self).static_info == (PlayerStaticInfo {
                player_id,
                user_name,
                color,
                initial_territory,
                player_type,
                troop_meshes,
            }),
            final(self).language == language,
            final(self).troops_counter == old(self).troops_counter,
            final(self).territory_counter == old(self).territory_counter,
            final(self).max_troop_allowed == old(self).max_troop_allowed,
            final(self).alive == old(self).alive,
    {
        self.static_info = PlayerStaticInfo {
            player_id,
            user_name,
            color,
            initial_territory,
            player_type,
            troop_meshes,
        };
        self.language = language;
    }

    /// Counts one more troop.
    pub fn register_troop_spawning(&mut self)
        requires
            old(self).troops_counter < i32::MAX,
        ensures
            final(self).troops_counter == old(self).troops_counter + 1,
            final(self).static_info == old(self).static_info,
            final(self).language == old(self).language,
            final(self).territory_counter == old(self).territory_counter,
            final(self).max_troop_allowed == old(self).max_troop_allowed,
            final(self).alive == old(self).alive,
    {
        self.troops_counter = self.troops_counter + 1;
    }

    /// Counts one more territory.
    pub fn register_territory_occupation(&mut self, _territory_id: TerritoryId)
        requires
            old(self).territory_counter < i32::MAX,
        ensures
            final(self).territory_counter == old(self).territory_counter + 1,
            final(self).static_info == old(self).static_info,
            final(self).language == old(self).language,
            final(self).troops_counter == old(self).troops_counter,
            final(self).max_troop_allowed == old(self).max_troop_allowed,
            final(self).alive == old(self).alive,
    {
        self.territory_counter = self.territory_counter + 1;
    }

    /// Counts one territory less, and never fewer than none.
    pub fn register_territory_loss(&mut self)
        ensures
            final(self).territory_counter == if old(self).territory_counter <= 1 {
                0
            } else {
                old(self).territory_counter - 1
            },
            final(self).static_info == old(self).static_info,
            final(self).language == old(self).language,
            final(self).troops_counter == old(self).troops_counter,
            final(self).max_troop_allowed == old(self).max_troop_allowed,
            final(self).alive == old(self).alive,
    {
        if self.territory_counter <= 1 {
            self.territory_counter = 0;
        } else {
            self.territory_counter = self.territory_counter - 1;
        }
    }
}

} // verus!
