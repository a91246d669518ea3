//! The one mutable session object and the operations the command surface
//! asks of it.

use vstd::prelude::*;
use std::collections::HashMap;
use crate::entity::Entity;
use crate::report::HpReport;
use crate::snapshot::CrowdsourceMonsterSnapshot;
use crate::tables::ReferenceTables;
use crate::tables::chosen_for_remote;
use crate::tables::resolve_crowdsource_remote;
use crate::wire::SyncContainerData;

verus! {

broadcast use vstd::std_specs::hash::group_hash_axioms;

/// Aggregate damage observed this session; fed by the surrounding
/// application, read by the header query.
pub struct CombatStats {
    pub value: i64,
}

impl Default for CombatStats {
    fn default() -> (s: CombatStats)
        ensures
            s.value == 0,
    {
        CombatStats { value: 0 }
    }
}

/// Why a command could not be carried out.
#[derive(PartialEq, Eq, Structural, Clone, Copy, Debug)]
pub enum CommandError {
    /// The header query found no damage recorded yet.
    NoDamage,
    /// The remote id is not in the mapping table.
    UnknownRemoteId,
    /// No crowdsourced monster id is recorded.
    NoCrowdsourceMonsterId,
    /// The local player's scene block has not been seen.
    NoSceneData,
    /// The scene block carries no line id.
    NoLineId,
    /// The scene block carries no position.
    NoPosition,
    /// The position carries no x value.
    NoPosX,
    /// The position carries no y value.
    NoPosY,
}

impl CommandError {
    /// A short account of the failure, for the surrounding application's
    /// error strings.
    pub fn message(&self) -> &'static str {
        match self {
            CommandError::NoDamage => "No damage found",
            CommandError::UnknownRemoteId => "Unknown remote id",
            CommandError::NoCrowdsourceMonsterId => "No crowdsourced monster ID available",
            CommandError::NoSceneData => "No local player scene data available",
            CommandError::NoLineId => "No line id available for local player",
            CommandError::NoPosition => "No position data available for local player",
            CommandError::NoPosX => "No pos_x available for local player",
            CommandError::NoPosY => "No pos_y available for local player",
        }
    }
}

/// The header query's answer.
#[derive(PartialEq, Eq, Structural, Clone, Copy, Debug)]
pub struct HeaderInfo {
    pub total_dmg: i64,
    pub elapsed_ms: u128,
    pub time_last_combat_packet_ms: u128,
}

/// The currently tracked crowdsourced monster, as the command surface
/// reports it.
pub struct CrowdsourcedMonster {
    pub name: String,
    pub id: i32,
    pub remote_id: Option<String>,
}

/// The one mutable session object.
pub struct Encounter {
    pub is_encounter_paused: bool,
    pub time_last_combat_packet_ms: u128,
    pub time_fight_start_ms: u128,
    pub local_player_uid: Option<i64>,
    pub entity_uid_to_entity: HashMap<i64, Entity>,
    pub dmg_stats: CombatStats,
    pub local_player: Option<SyncContainerData>,
    pub crowdsource_monster_name: Option<String>,
    pub crowdsource_monster_id: Option<i32>,
    pub crowdsource_monster_remote_id: Option<String>,
}

/// The state every session starts from and every reset returns to; it
/// pins each field, so any two states satisfying it agree field for
/// field.
pub open spec fn is_initial(e: &Encounter) -> bool {
    &&& e.is_encounter_paused == false
    &&& e.time_last_combat_packet_ms == 0
    &&& e.time_fight_start_ms == 0
    &&& e.local_player_uid is None
    &&& e.entity_uid_to_entity@ == Map::<i64, Entity>::empty()
    &&& e.dmg_stats.value == 0
    &&& e.local_player is None
    &&& e.crowdsource_monster_name is None
    &&& e.crowdsource_monster_id is None
    &&& e.crowdsource_monster_remote_id is None
}

/// The local player's line id, when the chain down to it is present.
pub open spec fn local_line_spec(e: &Encounter) -> Option<i32> {
    match e.local_player {
        Some(p) => match p.v_data {
            Some(v) => match v.scene_data {
                Some(sc) => sc.line_id,
                None => None,
            },
            None => None,
        },
        None => None,
    }
}

/// The death report the current state supports, or the first missing
/// link: the monster id, then the scene block, its line, its position,
/// and the position's two values.
pub open spec fn death_report_spec(e: &Encounter) -> Result<HpReport, CommandError> {
    match e.crowdsource_monster_id {
        None => Err(CommandError::NoCrowdsourceMonsterId),
        Some(mid) => {
            let scene = match e.local_player {
                Some(p) => match p.v_data {
                    Some(v) => v.scene_data,
                    None => None,
                },
                None => None,
            };
            match scene {
                None => Err(CommandError::NoSceneData),
                Some(sc) => match sc.line_id {
                    None => Err(CommandError::NoLineId),
                    Some(line) => match sc.pos {
                        None => Err(CommandError::NoPosition),
                        Some(pos) => match pos.x_bits {
                            None => Err(CommandError::NoPosX),
                            Some(x) => match pos.y_bits {
                                None => Err(CommandError::NoPosY),
                                Some(y) => Ok(
                                    HpReport {
                                        monster_id: mid,
                                        hp_pct: 0,
                                        line: line,
                                        pos_x_bits: x,
                                        pos_y_bits: y,
                                    },
                                ),
                            },
                        },
                    },
                },
            }
        },
    }
}

impl Encounter {
    /// A fresh session state, all defaults.
    pub fn new() -> (e: Encounter)
        ensures
            is_initial(&e),
    {
        Encounter {
            is_encounter_paused: false,
            time_last_combat_packet_ms: 0,
            time_fight_start_ms: 0,
            local_player_uid: None,
            entity_uid_to_entity: HashMap::new(),
            dmg_stats: CombatStats { value: 0 },
            local_player: None,
            crowdsource_monster_name: None,
            crowdsource_monster_id: None,
            crowdsource_monster_remote_id: None,
        }
    }

    /// Returns the whole state to the defaults a fresh session has.
    pub fn reset(&mut self)
        ensures
            is_initial(final(self)),
    {
        *self = Encounter::new();
    }

    /// Flips the pause flag and touches nothing else.
    pub fn toggle_pause(&mut self)
        ensures
            final(self).is_encounter_paused == !old(self).is_encounter_paused,
            final(self).time_last_combat_packet_ms == old(self).time_last_combat_packet_ms,
            final(self).time_fight_start_ms == old(self).time_fight_start_ms,
            final(self).local_player_uid == old(self).local_player_uid,
            final(self).entity_uid_to_entity@ == old(self).entity_uid_to_entity@,
            final(self).dmg_stats == old(self).dmg_stats,
            final(self).local_player == old(self).local_player,
            final(self).crowdsource_monster_name == old(self).crowdsource_monster_name,
            final(self).crowdsource_monster_id == old(self).crowdsource_monster_id,
            final(self).crowdsource_monster_remote_id == old(self).crowdsource_monster_remote_id,
    {
        self.is_encounter_paused = !self.is_encounter_paused;
    }

    /// Header statistics; refused until any damage has been recorded.
    /// The elapsed time is the span between the first and the latest
    /// combat event, never negative.
    pub fn header_info(&self) -> (r: Result<HeaderInfo, CommandError>)
        ensures
            match r {
                Ok(h) => {
                    &&& self.dmg_stats.value != 0
                    &&& h.total_dmg == self.dmg_stats.value
                    &&& h.time_last_combat_packet_ms == self.time_last_combat_packet_ms
                    &&& h.elapsed_ms == if self.time_last_combat_packet_ms
                        >= self.time_fight_start_ms {
                        self.time_last_combat_packet_ms - self.time_fight_start_ms
                    } else {
                        0
                    }
                },
                Err(e) => e == CommandError::NoDamage && self.dmg_stats.value == 0,
            },
    {
        if self.dmg_stats.value == 0 {
            return Err(CommandError::NoDamage);
        }
        let elapsed = if self.time_last_combat_packet_ms >= self.time_fight_start_ms {
            self.time_last_combat_packet_ms - self.time_fight_start_ms
        } else {
            0
        };
        Ok(
            HeaderInfo {
                total_dmg: self.dmg_stats.value,
                elapsed_ms: elapsed,
                time_last_combat_packet_ms: self.time_last_combat_packet_ms,
            },
        )
    }

    /// The last crowdsourced monster's display name, if one is recorded.
    pub fn last_hit_boss_name(&self) -> (r: Option<String>)
        ensures
            match r {
                Some(n) => self.crowdsource_monster_name matches Some(m) && m@ == n@,
                None => self.crowdsource_monster_name is None,
            },
    {
        match &self.crowdsource_monster_name {
            Some(n) => Some(n.clone()),
            None => None,
        }
    }

    /// The tracked crowdsourced monster, when both its name and id are
    /// recorded; the remote id rides along if present.
    pub fn crowdsourced_monster(&self) -> (r: Option<CrowdsourcedMonster>)
        ensures
            match r {
                Some(m) => {
                    &&& self.crowdsource_monster_name matches Some(n) && n@ == m.name@
                    &&& self.crowdsource_monster_id == Some(m.id)
                    &&& match m.remote_id {
                        Some(rid) => self.crowdsource_monster_remote_id matches Some(x) && x@
                            == rid@,
                        None => self.crowdsource_monster_remote_id is None,
                    }
                },
                None => self.crowdsource_monster_name is None || self.crowdsource_monster_id
                    is None,
            },
    {
        match (&self.crowdsource_monster_name, self.crowdsource_monster_id) {
            (Some(name), Some(id)) => Some(
                CrowdsourcedMonster {
                    name: name.clone(),
                    id,
                    remote_id: match &self.crowdsource_monster_remote_id {
                        Some(r) => Some(r.clone()),
                        None => None,
                    },
                },
            ),
            _ => None,
        }
    }

    /// The local player's current line id, if known.
    pub fn local_player_line(&self) -> (r: Option<i32>)
        ensures
            r == local_line_spec(self),
    {
        match &self.local_player {
            Some(p) => match &p.v_data {
                Some(v) => match &v.scene_data {
                    Some(sc) => sc.line_id,
                    None => None,
                },
                None => None,
            },
            None => None,
        }
    }

    /// Adopts the monster a remote id resolves to as the tracked
    /// crowdsourced monster and hands back the snapshot to persist;
    /// fails exactly when the remote id is unknown, leaving the state
    /// untouched.
    pub fn set_crowdsource_remote(&mut self, tables: &ReferenceTables, remote_id: &str) -> (r:
        Result<CrowdsourceMonsterSnapshot, CommandError>)
        ensures
            match r {
                Ok(snap) => {
                    &&& chosen_for_remote(
                        tables.crowdsource_names@,
                        tables.monster_names@,
                        tables.crowdsource_remote_ids@,
                        snap@.monster_id,
                        snap@.monster_name,
                        remote_id@,
                    )
                    &&& snap@.remote_id == remote_id@
                    &&& final(self).crowdsource_monster_id == Some(snap.monster_id)
                    &&& final(self).crowdsource_monster_name matches Some(n) && n@
                        == snap@.monster_name
                    &&& final(self).crowdsource_monster_remote_id matches Some(x) && x@
                        == remote_id@
                },
                Err(e) => {
                    &&& e == CommandError::UnknownRemoteId
                    &&& forall|j: int|
                        0 <= j < tables.crowdsource_remote_ids@.len() ==> (
                        #[trigger] tables.crowdsource_remote_ids@[j]).1@ != remote_id@
                    &&& *final(self) == *old(self)
                },
            },
            final(self).is_encounter_paused == old(self).is_encounter_paused,
            final(self).time_last_combat_packet_ms == old(self).time_last_combat_packet_ms,
            final(self).time_fight_start_ms == old(self).time_fight_start_ms,
            final(self).local_player_uid == old(self).local_player_uid,
            final(self).entity_uid_to_entity@ == old(self).entity_uid_to_entity@,
            final(self).dmg_stats == old(self).dmg_stats,
            final(self).local_player == old(self).local_player,
    {
        match resolve_crowdsource_remote(tables, remote_id) {
            None => Err(CommandError::UnknownRemoteId),
            Some((monster_id, monster_name)) => {
                let owned = remote_id.to_owned();
                self.crowdsource_monster_id = Some(monster_id);
                self.crowdsource_monster_name = Some(monster_name.clone());
                self.crowdsource_monster_remote_id = Some(owned.clone());
                Ok(CrowdsourceMonsterSnapshot { monster_id, monster_name, remote_id: owned })
            },
        }
    }

    /// The "monster defeated" report for the current line: the usual
    /// payload with zero health, or the first missing ingredient.
    pub fn death_report(&self) -> (r: Result<HpReport, CommandError>)
        ensures
            r == death_report_spec(self),
    {
        let mid = match self.crowdsource_monster_id {
            None => {
                return Err(CommandError::NoCrowdsourceMonsterId);
            },
            Some(mid) => mid,
        };
        let scene = match &self.local_player {
            Some(p) => match &p.v_data {
                Some(v) => &v.scene_data,
                None => &None,
            },
            None => &None,
        };
        match scene {
            None => Err(CommandError::NoSceneData),
            Some(sc) => match sc.line_id {
                None => Err(CommandError::NoLineId),
                Some(line) => match &sc.pos {
                    None => Err(CommandError::NoPosition),
                    Some(pos) => match pos.x_bits {
                        None => Err(CommandError::NoPosX),
                        Some(x) => match pos.y_bits {
                            None => Err(CommandError::NoPosY),
                            Some(y) => Ok(
                                HpReport {
                                    monster_id: mid,
                                    hp_pct: 0,
                                    line: line,
                                    pos_x_bits: x,
                                    pos_y_bits: y,
                                },
                            ),
                        },
                    },
                },
            },
        }
    }
}

/// Two initial states agree on every observable field.
pub proof fn lemma_initial_states_agree(a: &Encounter, b: &Encounter)
    requires
        is_initial(a),
        is_initial(b),
    ensures
        a.is_encounter_paused == b.is_encounter_paused,
        a.time_last_combat_packet_ms == b.time_last_combat_packet_ms,
        a.time_fight_start_ms == b.time_fight_start_ms,
        a.local_player_uid == b.local_player_uid,
        a.entity_uid_to_entity@ == b.entity_uid_to_entity@,
        a.dmg_stats.value == b.dmg_stats.value,
        a.local_player == b.local_player,
        a.crowdsource_monster_name == b.crowdsource_monster_name,
        a.crowdsource_monster_id == b.crowdsource_monster_id,
        a.crowdsource_monster_remote_id == b.crowdsource_monster_remote_id,
{
}

} // verus!
