//! Per-message state transitions: the dispatch rules that take one
//! decoded capture message and move the encounter forward, emitting
//! health reports and snapshot-persistence requests as they go.

use vstd::prelude::*;
use crate::encounter::Encounter;
use crate::encounter::is_initial;
use crate::entity::Entity;
use crate::entity::EntityModel;
use crate::entity::EntityType;
use crate::entity::entity_type_of_uuid;
use crate::entity::entity_type_of_uuid_spec;
use crate::entity::fresh_entity_model;
use crate::registry::monster_attrs_from;
use crate::registry::player_attrs_from;
use crate::registry::process_monster_attrs;
use crate::registry::process_player_attrs;
use crate::registry::report_position;
use crate::report::HpReport;
use crate::snapshot::CrowdsourceMonsterSnapshot;
use crate::snapshot::SnapshotModel;
use crate::tables::ReferenceTables;
use crate::tables::is_crowdsourced_spec;
use crate::tables::table_lookup;
use crate::text::monster_label;
use crate::text::monster_label_of;
use crate::wire::AoiSyncDelta;
use crate::wire::AppearEntity;
use crate::wire::GameMessage;
use crate::wire::SyncContainerData;
use crate::wire::SyncNearEntities;
use crate::wire::SyncToMeDeltaInfo;
use crate::wire::attrs_view;
use crate::wire::uid_of_uuid;
use crate::wire::uid_of_uuid_spec;

verus! {

broadcast use vstd::std_specs::hash::group_hash_axioms;

/// The entity registry at model level.
pub open spec fn entities_model(m: Map<i64, Entity>) -> Map<i64, EntityModel> {
    m.map_values(|e: Entity| e@)
}

/// An optional owned string, seen as its characters.
pub open spec fn opt_str_view(o: Option<String>) -> Option<Seq<char>> {
    match o {
        Some(s) => Some(s@),
        None => None,
    }
}

/// The observable state a message can move, plus the outputs one
/// processing step produced: emitted reports and whether the message was
/// complete.
pub struct EncounterEffect {
    pub entities: Map<i64, EntityModel>,
    pub local_player_uid: Option<i64>,
    pub cs_id: Option<i32>,
    pub cs_name: Option<Seq<char>>,
    pub cs_remote: Option<Seq<char>>,
    pub fight_start: u128,
    pub last_combat: u128,
    pub reports: Seq<HpReport>,
    pub ok: bool,
}

/// The current state, bundled as an effect with no outputs yet.
pub open spec fn effect_of(e: &Encounter) -> EncounterEffect {
    EncounterEffect {
        entities: entities_model(e.entity_uid_to_entity@),
        local_player_uid: e.local_player_uid,
        cs_id: e.crowdsource_monster_id,
        cs_name: opt_str_view(e.crowdsource_monster_name),
        cs_remote: opt_str_view(e.crowdsource_monster_remote_id),
        fight_start: e.time_fight_start_ms,
        last_combat: e.time_last_combat_packet_ms,
        reports: Seq::empty(),
        ok: true,
    }
}

/// Display name recorded when a crowdsourced monster is hit: the
/// crowdsource name table, then the general table, then the entity's own
/// known name, then the synthetic label.
pub open spec fn cs_display_name_spec(
    cs_names: Seq<(i32, String)>,
    names: Seq<(i32, String)>,
    m: EntityModel,
    id: i32,
) -> Seq<char> {
    match table_lookup(cs_names, id) {
        Some(n) => n,
        None => match table_lookup(names, id) {
            Some(n) => n,
            None => match m.name {
                Some(n) => n,
                None => monster_label_of(id as int),
            },
        },
    }
}

/// Resolves the display name recorded for a hit crowdsourced monster.
fn crowdsource_display_name(tables: &ReferenceTables, entity: &Entity, id: i32) -> (r: String)
    ensures
        r@ == cs_display_name_spec(tables.crowdsource_names@, tables.monster_names@, entity@, id),
{
    match tables.crowdsource_name_of(id) {
        Some(n) => n,
        None => match tables.general_name(id) {
            Some(n) => n,
            None => match &entity.name {
                Some(n) => n.clone(),
                None => monster_label(id),
            },
        },
    }
}

/// What one entity delta does: resolve the entity, merge its attributes,
/// and on a damage event refresh the combat timers and re-confirm the
/// crowdsourced monster. A delta without an entity id moves nothing and
/// is incomplete.
pub open spec fn aoi_delta_effect(
    cur: EncounterEffect,
    delta: AoiSyncDelta,
    pos: Option<(i32, u32, u32)>,
    cs_names: Seq<(i32, String)>,
    names: Seq<(i32, String)>,
    remotes: Seq<(i32, String)>,
    now: u128,
) -> EncounterEffect {
    match delta.uuid {
        None => EncounterEffect { ok: false, ..cur },
        Some(uuid) => {
            let uid = uid_of_uuid_spec(uuid);
            let t = entity_type_of_uuid_spec(uuid);
            let base = if cur.entities.contains_key(uid) {
                cur.entities[uid]
            } else {
                fresh_entity_model(t)
            };
            let merged = match delta.attrs {
                Some(ac) => match t {
                    EntityType::Character => (
                        player_attrs_from(base, attrs_view(ac.attrs@), 0),
                        Seq::<HpReport>::empty(),
                    ),
                    EntityType::Monster => monster_attrs_from(
                        base,
                        attrs_view(ac.attrs@),
                        0,
                        pos,
                        cs_names,
                    ),
                    EntityType::Other => (base, Seq::<HpReport>::empty()),
                },
                None => (base, Seq::<HpReport>::empty()),
            };
            let after = merged.0;
            let cur2 = EncounterEffect {
                entities: cur.entities.insert(uid, after),
                reports: cur.reports + merged.1,
                ..cur
            };
            match delta.skill_effects {
                None => cur2,
                Some(se) => {
                    let stamped = EncounterEffect {
                        fight_start: if cur2.fight_start == 0 {
                            now
                        } else {
                            cur2.fight_start
                        },
                        last_combat: now,
                        ..cur2
                    };
                    if se.damages.len() > 0 && after.monster_id is Some && is_crowdsourced_spec(
                        cs_names,
                        after.monster_id->Some_0,
                    ) {
                        let id = after.monster_id->Some_0;
                        EncounterEffect {
                            cs_id: Some(id),
                            cs_name: Some(cs_display_name_spec(cs_names, names, after, id)),
                            cs_remote: table_lookup(remotes, id),
                            ..stamped
                        }
                    } else {
                        stamped
                    }
                },
            }
        },
    }
}

/// What one appearance entry does: the entity is created or found, its
/// type overwritten from the wire id, and its attributes merged; a
/// missing id or attribute batch cuts the message short.
pub open spec fn near_entities_from(
    cur: EncounterEffect,
    appear: Seq<AppearEntity>,
    i: int,
    pos: Option<(i32, u32, u32)>,
    cs_names: Seq<(i32, String)>,
) -> EncounterEffect
    decreases appear.len() - i,
{
    if i < 0 || i >= appear.len() {
        cur
    } else {
        let pkt = appear[i];
        match pkt.uuid {
            None => EncounterEffect { ok: false, ..cur },
            Some(uuid) => {
                let uid = uid_of_uuid_spec(uuid);
                let t = entity_type_of_uuid_spec(uuid);
                let base0 = if cur.entities.contains_key(uid) {
                    cur.entities[uid]
                } else {
                    fresh_entity_model(EntityType::Other)
                };
                let base = EntityModel { entity_type: t, ..base0 };
                match t {
                    EntityType::Character => match pkt.attrs {
                        None => EncounterEffect {
                            entities: cur.entities.insert(uid, base),
                            ok: false,
                            ..cur
                        },
                        Some(ac) => near_entities_from(
                            EncounterEffect {
                                entities: cur.entities.insert(
                                    uid,
                                    player_attrs_from(base, attrs_view(ac.attrs@), 0),
                                ),
                                ..cur
                            },
                            appear,
                            i + 1,
                            pos,
                            cs_names,
                        ),
                    },
                    EntityType::Monster => match pkt.attrs {
                        None => EncounterEffect {
                            entities: cur.entities.insert(uid, base),
                            ok: false,
                            ..cur
                        },
                        Some(ac) => {
                            let merged = monster_attrs_from(
                                base,
                                attrs_view(ac.attrs@),
                                0,
                                pos,
                                cs_names,
                            );
                            near_entities_from(
                                EncounterEffect {
                                    entities: cur.entities.insert(uid, merged.0),
                                    reports: cur.reports + merged.1,
                                    ..cur
                                },
                                appear,
                                i + 1,
                                pos,
                                cs_names,
                            )
                        },
                    },
                    EntityType::Other => near_entities_from(
                        EncounterEffect { entities: cur.entities.insert(uid, base), ..cur },
                        appear,
                        i + 1,
                        pos,
                        cs_names,
                    ),
                }
            },
        }
    }
}

/// What a full-state sync does: the player entity is created or found
/// and, when the record is complete, given its name and the character
/// type; an incomplete record leaves the entity bare.
pub open spec fn container_effect(cur: EncounterEffect, data: SyncContainerData) -> EncounterEffect {
    match data.v_data {
        None => EncounterEffect { ok: false, ..cur },
        Some(v) => match v.char_id {
            None => EncounterEffect { ok: false, ..cur },
            Some(cid) => {
                let base = if cur.entities.contains_key(cid) {
                    cur.entities[cid]
                } else {
                    fresh_entity_model(EntityType::Other)
                };
                match v.char_base {
                    None => EncounterEffect {
                        entities: cur.entities.insert(cid, base),
                        ok: false,
                        ..cur
                    },
                    Some(cb) => match cb.name {
                        None => EncounterEffect {
                            entities: cur.entities.insert(cid, base),
                            ok: false,
                            ..cur
                        },
                        Some(nm) => EncounterEffect {
                            entities: cur.entities.insert(
                                cid,
                                EntityModel {
                                    entity_type: EntityType::Character,
                                    name: Some(nm@),
                                    ..base
                                },
                            ),
                            ..cur
                        },
                    },
                }
            },
        },
    }
}

/// What a self-centric delta does: record the controlled character's
/// uid, then hand the embedded delta to the generic rule; the embedded
/// delta's own failure is swallowed.
pub open spec fn to_me_effect(
    cur: EncounterEffect,
    msg: SyncToMeDeltaInfo,
    pos: Option<(i32, u32, u32)>,
    cs_names: Seq<(i32, String)>,
    names: Seq<(i32, String)>,
    remotes: Seq<(i32, String)>,
    now: u128,
) -> EncounterEffect {
    match msg.delta_info {
        None => EncounterEffect { ok: false, ..cur },
        Some(di) => match di.uuid {
            None => EncounterEffect { ok: false, ..cur },
            Some(uuid) => {
                let cur2 = EncounterEffect { local_player_uid: Some(uid_of_uuid_spec(uuid)), ..cur };
                match di.base_delta {
                    None => EncounterEffect { ok: false, ..cur2 },
                    Some(bd) => {
                        let eff = aoi_delta_effect(cur2, bd, pos, cs_names, names, remotes, now);
                        EncounterEffect { ok: true, ..eff }
                    },
                }
            },
        },
    }
}

/// Resets the encounter wholesale; used on a server or session change.
pub fn on_server_change(encounter: &mut Encounter)
    ensures
        is_initial(final(encounter)),
{
    encounter.reset();
}

/// Applies one entity delta to the encounter, appending any emitted
/// reports. Returns `None` exactly when the delta carries no entity id,
/// in which case nothing is moved.
pub fn process_aoi_sync_delta(
    encounter: &mut Encounter,
    delta: &AoiSyncDelta,
    tables: &ReferenceTables,
    now_ms: u128,
    reports: &mut Vec<HpReport>,
) -> (r: Option<()>)
    ensures
        ({
            let eff = aoi_delta_effect(
                effect_of(old(encounter)),
                *delta,
                report_position(old(encounter).local_player),
                tables.crowdsource_names@,
                tables.monster_names@,
                tables.crowdsource_remote_ids@,
                now_ms,
            );
            &&& effect_of(final(encounter)) == EncounterEffect {
                reports: Seq::empty(),
                ok: true,
                ..eff
            }
            &&& final(reports)@ == old(reports)@ + eff.reports
            &&& (r is Some) == eff.ok
        }),
        final(encounter).is_encounter_paused == old(encounter).is_encounter_paused,
        final(encounter).dmg_stats == old(encounter).dmg_stats,
        final(encounter).local_player == old(encounter).local_player,
{
    let uuid = match delta.uuid {
        Some(u) => u,
        None => {
            return None;
        },
    };
    let uid = uid_of_uuid(uuid);
    let t = entity_type_of_uuid(uuid);
    let mut ent: Entity = match encounter.entity_uid_to_entity.get(&uid) {
        Some(e) => e.clone(),
        None => Entity::fresh(t),
    };
    if let Some(ac) = &delta.attrs {
        match t {
            EntityType::Character => process_player_attrs(&mut ent, &ac.attrs),
            EntityType::Monster => {
                let lp = encounter.local_player.as_ref();
                process_monster_attrs(&mut ent, &ac.attrs, lp, tables, reports);
            },
            EntityType::Other => {},
        }
    }
    let hit = ent.clone();
    encounter.entity_uid_to_entity.insert(uid, ent);
    proof {
        assert(entities_model(encounter.entity_uid_to_entity@) =~= entities_model(
            old(encounter).entity_uid_to_entity@,
        ).insert(uid, hit@));
    }
    match &delta.skill_effects {
        None => Some(()),
        Some(se) => {
            if se.damages.len() > 0 {
                if let Some(mid) = hit.monster_id {
                    if tables.is_crowdsourced(mid) {
                        let nm = crowdsource_display_name(tables, &hit, mid);
                        encounter.crowdsource_monster_name = Some(nm);
                        encounter.crowdsource_monster_id = Some(mid);
                        encounter.crowdsource_monster_remote_id = tables.remote_id_of(mid);
                    }
                }
            }
            if encounter.time_fight_start_ms == 0 {
                encounter.time_fight_start_ms = now_ms;
            }
            encounter.time_last_combat_packet_ms = now_ms;
            Some(())
        },
    }
}

/// Applies an appearance batch, appending any emitted reports. Returns
/// `None` when an entry lacks its entity id or attribute batch; entries
/// already applied stay applied.
pub fn process_sync_near_entities(
    encounter: &mut Encounter,
    sync_near_entities: &SyncNearEntities,
    tables: &ReferenceTables,
    reports: &mut Vec<HpReport>,
) -> (r: Option<()>)
    ensures
        ({
            let eff = near_entities_from(
                effect_of(old(encounter)),
                sync_near_entities.appear@,
                0,
                report_position(old(encounter).local_player),
                tables.crowdsource_names@,
            );
            &&& effect_of(final(encounter)) == EncounterEffect {
                reports: Seq::empty(),
                ok: true,
                ..eff
            }
            &&& final(reports)@ == old(reports)@ + eff.reports
            &&& (r is Some) == eff.ok
        }),
        final(encounter).is_encounter_paused == old(encounter).is_encounter_paused,
        final(encounter).dmg_stats == old(encounter).dmg_stats,
        final(encounter).local_player == old(encounter).local_player,
{
    let ghost eff0 = effect_of(old(encounter));
    let ghost ap = sync_near_entities.appear@;
    let ghost cs = tables.crowdsource_names@;
    let ghost pos_spec = report_position(old(encounter).local_player);
    let ghost old_reps = old(reports)@;
    proof {
        assert(reports@.skip(old_reps.len() as int) =~= Seq::<HpReport>::empty());
        assert(reports@.subrange(0, old_reps.len() as int) =~= old_reps);
        assert(EncounterEffect {
            reports: reports@.skip(old_reps.len() as int),
            ..effect_of(encounter)
        } == eff0);
    }
    let mut i: usize = 0;
    while i < sync_near_entities.appear.len()
        invariant
            0 <= i <= ap.len(),
            ap == sync_near_entities.appear@,
            cs == tables.crowdsource_names@,
            eff0 == effect_of(old(encounter)),
            pos_spec == report_position(encounter.local_player),
            pos_spec == report_position(old(encounter).local_player),
            old_reps == old(reports)@,
            reports@.len() >= old_reps.len(),
            reports@.subrange(0, old_reps.len() as int) == old_reps,
            encounter.is_encounter_paused == old(encounter).is_encounter_paused,
            encounter.dmg_stats == old(encounter).dmg_stats,
            encounter.local_player == old(encounter).local_player,
            near_entities_from(eff0, ap, 0, pos_spec, cs) == near_entities_from(
                EncounterEffect {
                    reports: reports@.skip(old_reps.len() as int),
                    ..effect_of(encounter)
                },
                ap,
                i as int,
                pos_spec,
                cs,
            ),
        decreases ap.len() - i,
    {
        let ghost cur_eff = EncounterEffect {
            reports: reports@.skip(old_reps.len() as int),
            ..effect_of(encounter)
        };
        let pkt = &sync_near_entities.appear[i];
        let uuid = match pkt.uuid {
            Some(u) => u,
            None => {
                proof {
                    assert(reports@ =~= reports@.subrange(0, old_reps.len() as int) + reports@.skip(
                        old_reps.len() as int,
                    ));
                    let eff = near_entities_from(eff0, ap, 0, pos_spec, cs);
                    assert(near_entities_from(cur_eff, ap, i as int, pos_spec, cs)
                        == EncounterEffect { ok: false, ..cur_eff });
                    assert(eff == EncounterEffect { ok: false, ..cur_eff });
                    assert(effect_of(encounter) == EncounterEffect {
                        reports: Seq::<HpReport>::empty(),
                        ok: true,
                        ..eff
                    });
                    assert(reports@ == old_reps + eff.reports);
                }
                return None;
            },
        };
        let uid = uid_of_uuid(uuid);
        let t = entity_type_of_uuid(uuid);
        let mut ent: Entity = match encounter.entity_uid_to_entity.get(&uid) {
            Some(e) => e.clone(),
            None => Entity::fresh(EntityType::Other),
        };
        ent.entity_type = t;
        proof {
            let base0 = if cur_eff.entities.contains_key(uid) {
                cur_eff.entities[uid]
            } else {
                fresh_entity_model(EntityType::Other)
            };
            assert(ent@ == EntityModel { entity_type: t, ..base0 });
        }
        let ghost reps_before = reports@;
        match t {
            EntityType::Character => {
                match &pkt.attrs {
                    Some(ac) => {
                        process_player_attrs(&mut ent, &ac.attrs);
                        encounter.entity_uid_to_entity.insert(uid, ent);
                        proof {
                            assert(entities_model(encounter.entity_uid_to_entity@)
                                =~= cur_eff.entities.insert(uid, ent@));
                        }
                    },
                    None => {
                        encounter.entity_uid_to_entity.insert(uid, ent);
                        proof {
                            assert(entities_model(encounter.entity_uid_to_entity@)
                                =~= cur_eff.entities.insert(uid, ent@));
                            assert(reports@ =~= reports@.subrange(0, old_reps.len() as int)
                                + reports@.skip(old_reps.len() as int));
                        }
                        return None;
                    },
                }
            },
            EntityType::Monster => {
                match &pkt.attrs {
                    Some(ac) => {
                        let lp = encounter.local_player.as_ref();
                        process_monster_attrs(&mut ent, &ac.attrs, lp, tables, reports);
                        encounter.entity_uid_to_entity.insert(uid, ent);
                        proof {
                            assert(entities_model(encounter.entity_uid_to_entity@)
                                =~= cur_eff.entities.insert(uid, ent@));
                            assert(reports@.subrange(0, old_reps.len() as int) =~= reps_before
                                .subrange(0, old_reps.len() as int));
                            assert(reports@.skip(old_reps.len() as int) =~= reps_before.skip(
                                old_reps.len() as int,
                            ) + reports@.skip(reps_before.len() as int));
                        }
                    },
                    None => {
                        encounter.entity_uid_to_entity.insert(uid, ent);
                        proof {
                            assert(entities_model(encounter.entity_uid_to_entity@)
                                =~= cur_eff.entities.insert(uid, ent@));
                            assert(reports@ =~= reports@.subrange(0, old_reps.len() as int)
                                + reports@.skip(old_reps.len() as int));
                        }
                        return None;
                    },
                }
            },
            EntityType::Other => {
                encounter.entity_uid_to_entity.insert(uid, ent);
                proof {
                    assert(entities_model(encounter.entity_uid_to_entity@)
                        =~= cur_eff.entities.insert(uid, ent@));
                }
            },
        }
        proof {
            let base0 = if cur_eff.entities.contains_key(uid) {
                cur_eff.entities[uid]
            } else {
                fresh_entity_model(EntityType::Other)
            };
            let base = EntityModel { entity_type: entity_type_of_uuid_spec(uuid), ..base0 };
            let new_cur = EncounterEffect {
                reports: reports@.skip(old_reps.len() as int),
                ..effect_of(encounter)
            };
            let pkt_s = ap[i as int];
            match entity_type_of_uuid_spec(uuid) {
                EntityType::Character => {
                    let ac = pkt_s.attrs->Some_0;
                    assert(new_cur == EncounterEffect {
                        entities: cur_eff.entities.insert(
                            uid,
                            player_attrs_from(base, attrs_view(ac.attrs@), 0),
                        ),
                        ..cur_eff
                    });
                },
                EntityType::Monster => {
                    let ac = pkt_s.attrs->Some_0;
                    let merged = monster_attrs_from(base, attrs_view(ac.attrs@), 0, pos_spec, cs);
                    assert(reports@.skip(old_reps.len() as int) =~= reps_before.skip(
                        old_reps.len() as int,
                    ) + merged.1);
                    assert(new_cur == EncounterEffect {
                        entities: cur_eff.entities.insert(uid, merged.0),
                        reports: cur_eff.reports + merged.1,
                        ..cur_eff
                    });
                },
                EntityType::Other => {
                    assert(new_cur == EncounterEffect {
                        entities: cur_eff.entities.insert(uid, base),
                        ..cur_eff
                    });
                },
            }
            assert(near_entities_from(cur_eff, ap, i as int, pos_spec, cs) == near_entities_from(
                new_cur,
                ap,
                i + 1,
                pos_spec,
                cs,
            ));
        }
        i = i + 1;
    }
    proof {
        assert(reports@ =~= reports@.subrange(0, old_reps.len() as int) + reports@.skip(
            old_reps.len() as int,
        ));
    }
    Some(())
}

/// Applies a full-state sync for the controlled character to the entity
/// registry. Returns `None` when the record is incomplete; the caller
/// records the message itself as the local player's snapshot.
pub fn process_sync_container_data(
    encounter: &mut Encounter,
    sync_container_data: &SyncContainerData,
) -> (r: Option<()>)
    ensures
        ({
            let eff = container_effect(effect_of(old(encounter)), *sync_container_data);
            &&& effect_of(final(encounter)) == EncounterEffect {
                reports: Seq::empty(),
                ok: true,
                ..eff
            }
            &&& (r is Some) == eff.ok
        }),
        final(encounter).is_encounter_paused == old(encounter).is_encounter_paused,
        final(encounter).dmg_stats == old(encounter).dmg_stats,
        final(encounter).local_player == old(encounter).local_player,
{
    let v = match &sync_container_data.v_data {
        Some(v) => v,
        None => {
            return None;
        },
    };
    let cid = match v.char_id {
        Some(c) => c,
        None => {
            return None;
        },
    };
    let ghost before = entities_model(encounter.entity_uid_to_entity@);
    let mut ent: Entity = match encounter.entity_uid_to_entity.get(&cid) {
        Some(e) => e.clone(),
        None => Entity::fresh(EntityType::Other),
    };
    let cb = match &v.char_base {
        Some(cb) => cb,
        None => {
            let ghost em = ent@;
            encounter.entity_uid_to_entity.insert(cid, ent);
            proof {
                assert(entities_model(encounter.entity_uid_to_entity@) =~= before.insert(cid, em));
            }
            return None;
        },
    };
    let name = match &cb.name {
        Some(n) => n,
        None => {
            let ghost em = ent@;
            encounter.entity_uid_to_entity.insert(cid, ent);
            proof {
                assert(entities_model(encounter.entity_uid_to_entity@) =~= before.insert(cid, em));
            }
            return None;
        },
    };
    ent.name = Some(name.clone());
    ent.entity_type = EntityType::Character;
    let ghost em = ent@;
    encounter.entity_uid_to_entity.insert(cid, ent);
    proof {
        assert(entities_model(encounter.entity_uid_to_entity@) =~= before.insert(cid, em));
    }
    Some(())
}

/// Applies a self-centric delta: records the controlled character's uid,
/// then hands the embedded delta to the generic rule, whose own failure
/// is swallowed.
pub fn process_sync_to_me_delta_info(
    encounter: &mut Encounter,
    sync_to_me_delta_info: &SyncToMeDeltaInfo,
    tables: &ReferenceTables,
    now_ms: u128,
    reports: &mut Vec<HpReport>,
) -> (r: Option<()>)
    ensures
        ({
            let eff = to_me_effect(
                effect_of(old(encounter)),
                *sync_to_me_delta_info,
                report_position(old(encounter).local_player),
                tables.crowdsource_names@,
                tables.monster_names@,
                tables.crowdsource_remote_ids@,
                now_ms,
            );
            &&& effect_of(final(encounter)) == EncounterEffect {
                reports: Seq::empty(),
                ok: true,
                ..eff
            }
            &&& final(reports)@ == old(reports)@ + eff.reports
            &&& (r is Some) == eff.ok
        }),
        final(encounter).is_encounter_paused == old(encounter).is_encounter_paused,
        final(encounter).dmg_stats == old(encounter).dmg_stats,
        final(encounter).local_player == old(encounter).local_player,
{
    let di = match &sync_to_me_delta_info.delta_info {
        Some(d) => d,
        None => {
            return None;
        },
    };
    let uuid = match di.uuid {
        Some(u) => u,
        None => {
            return None;
        },
    };
    encounter.local_player_uid = Some(uid_of_uuid(uuid));
    let bd = match &di.base_delta {
        Some(b) => b,
        None => {
            return None;
        },
    };
    let inner = process_aoi_sync_delta(encounter, bd, tables, now_ms, reports);
    if inner.is_none() {
        // an embedded delta without an entity id is dropped silently
    }
    Some(())
}

/// The identity triple as a persistable snapshot, once all three parts
/// are present.
pub open spec fn snapshot_spec(eff: EncounterEffect) -> Option<SnapshotModel> {
    match (eff.cs_id, eff.cs_name, eff.cs_remote) {
        (Some(id), Some(n), Some(rm)) => Some(
            SnapshotModel { monster_id: id, monster_name: n, remote_id: rm },
        ),
        _ => None,
    }
}

/// An optional snapshot, seen at model level.
pub open spec fn opt_snap_view(o: Option<CrowdsourceMonsterSnapshot>) -> Option<SnapshotModel> {
    match o {
        Some(s) => Some(s@),
        None => None,
    }
}

/// Materializes the identity triple for persistence, when complete.
pub fn snapshot_from_encounter(encounter: &Encounter) -> (r: Option<CrowdsourceMonsterSnapshot>)
    ensures
        opt_snap_view(r) == snapshot_spec(effect_of(encounter)),
{
    match (
        encounter.crowdsource_monster_id,
        &encounter.crowdsource_monster_name,
        &encounter.crowdsource_monster_remote_id,
    ) {
        (Some(id), Some(n), Some(rm)) => Some(
            CrowdsourceMonsterSnapshot {
                monster_id: id,
                monster_name: n.clone(),
                remote_id: rm.clone(),
            },
        ),
        _ => None,
    }
}

/// Restores a persisted identity triple into a fresh state; the entity
/// registry and everything else stay as they are.
pub fn apply_snapshot_to_encounter(
    snapshot: &CrowdsourceMonsterSnapshot,
    encounter: &mut Encounter,
)
    ensures
        final(encounter).crowdsource_monster_id == Some(snapshot.monster_id),
        opt_str_view(final(encounter).crowdsource_monster_name) == Some(snapshot@.monster_name),
        opt_str_view(final(encounter).crowdsource_monster_remote_id) == Some(snapshot@.remote_id),
        final(encounter).is_encounter_paused == old(encounter).is_encounter_paused,
        final(encounter).time_last_combat_packet_ms == old(encounter).time_last_combat_packet_ms,
        final(encounter).time_fight_start_ms == old(encounter).time_fight_start_ms,
        final(encounter).local_player_uid == old(encounter).local_player_uid,
        final(encounter).entity_uid_to_entity@ == old(encounter).entity_uid_to_entity@,
        final(encounter).dmg_stats == old(encounter).dmg_stats,
        final(encounter).local_player == old(encounter).local_player,
{
    encounter.crowdsource_monster_id = Some(snapshot.monster_id);
    encounter.crowdsource_monster_name = Some(snapshot.monster_name.clone());
    encounter.crowdsource_monster_remote_id = Some(snapshot.remote_id.clone());
}

/// Compares two optional strings by content.
fn opt_string_eq(a: &Option<String>, b: &Option<String>) -> (r: bool)
    ensures
        r == (opt_str_view(*a) == opt_str_view(*b)),
{
    match a {
        Some(x) => match b {
            Some(y) => {
                let same = *x == *y;
                proof {
                    assert(opt_str_view(*a) == Some(x@));
                    assert(opt_str_view(*b) == Some(y@));
                    if same {
                        assert(opt_str_view(*a) == opt_str_view(*b));
                    } else {
                        assert(opt_str_view(*a) != opt_str_view(*b));
                    }
                }
                same
            },
            None => false,
        },
        None => match b {
            Some(_) => false,
            None => true,
        },
    }
}

/// Running one delta from a state whose report list is already partly
/// filled appends to it exactly what a run from an empty list emits.
proof fn lemma_aoi_reports_shift(
    cur: EncounterEffect,
    delta: AoiSyncDelta,
    pos: Option<(i32, u32, u32)>,
    cs_names: Seq<(i32, String)>,
    names: Seq<(i32, String)>,
    remotes: Seq<(i32, String)>,
    now: u128,
)
    ensures
        ({
            let base = aoi_delta_effect(
                EncounterEffect { reports: Seq::empty(), ..cur },
                delta,
                pos,
                cs_names,
                names,
                remotes,
                now,
            );
            let full = aoi_delta_effect(cur, delta, pos, cs_names, names, remotes, now);
            full == EncounterEffect { reports: cur.reports + base.reports, ..base }
        }),
{
    assert(cur.reports + Seq::<HpReport>::empty() =~= cur.reports);
    match delta.uuid {
        None => {},
        Some(uuid) => {
            let uid = uid_of_uuid_spec(uuid);
            let t = entity_type_of_uuid_spec(uuid);
            let base = if cur.entities.contains_key(uid) {
                cur.entities[uid]
            } else {
                fresh_entity_model(t)
            };
            let merged = match delta.attrs {
                Some(ac) => match t {
                    EntityType::Character => (
                        player_attrs_from(base, attrs_view(ac.attrs@), 0),
                        Seq::<HpReport>::empty(),
                    ),
                    EntityType::Monster => monster_attrs_from(
                        base,
                        attrs_view(ac.attrs@),
                        0,
                        pos,
                        cs_names,
                    ),
                    EntityType::Other => (base, Seq::<HpReport>::empty()),
                },
                None => (base, Seq::<HpReport>::empty()),
            };
            assert(Seq::<HpReport>::empty() + merged.1 =~= merged.1);
        },
    }
}

/// What a delta batch does, delta by delta: a failed delta is dropped
/// and the rest still apply; each delta that moves the crowdsourced
/// remote id refreshes the snapshot to persist.
pub open spec fn near_delta_fold(
    cur: EncounterEffect,
    deltas: Seq<AoiSyncDelta>,
    i: int,
    pos: Option<(i32, u32, u32)>,
    cs_names: Seq<(i32, String)>,
    names: Seq<(i32, String)>,
    remotes: Seq<(i32, String)>,
    now: u128,
    snap: Option<SnapshotModel>,
) -> (EncounterEffect, Option<SnapshotModel>)
    decreases deltas.len() - i,
{
    if i < 0 || i >= deltas.len() {
        (cur, snap)
    } else {
        let next = aoi_delta_effect(cur, deltas[i], pos, cs_names, names, remotes, now);
        if !next.ok {
            near_delta_fold(cur, deltas, i + 1, pos, cs_names, names, remotes, now, snap)
        } else {
            let snap2 = if next.cs_remote != cur.cs_remote {
                snapshot_spec(next)
            } else {
                snap
            };
            near_delta_fold(next, deltas, i + 1, pos, cs_names, names, remotes, now, snap2)
        }
    }
}

/// The dispatcher's outcome: whether the message was complete, and the
/// snapshot to persist if the crowdsourced identity moved.
pub struct ApplyOutcome {
    pub processed: bool,
    pub snapshot_to_save: Option<CrowdsourceMonsterSnapshot>,
}

/// The snapshot-persistence rule: a snapshot is handed out exactly when
/// the remote id moved, and it mirrors the state after the message.
pub open spec fn snap_rule(
    o: Option<CrowdsourceMonsterSnapshot>,
    before: EncounterEffect,
    after: EncounterEffect,
) -> bool {
    if after.cs_remote != before.cs_remote {
        opt_snap_view(o) == snapshot_spec(after)
    } else {
        o is None
    }
}

/// Applies one capture message to the encounter. While paused, messages
/// are drained without effect. A server change resets the state and
/// restores the stored identity snapshot, if one is given. The other
/// messages go to their handlers; when one moves the crowdsourced remote
/// id, the outcome carries the snapshot to persist.
pub fn apply_message(
    encounter: &mut Encounter,
    tables: &ReferenceTables,
    msg: &GameMessage,
    now_ms: u128,
    stored_snapshot: Option<&CrowdsourceMonsterSnapshot>,
    reports: &mut Vec<HpReport>,
) -> (outcome: ApplyOutcome)
    ensures
        old(encounter).is_encounter_paused ==> {
            &&& *final(encounter) == *old(encounter)
            &&& final(reports)@ == old(reports)@
            &&& !outcome.processed
            &&& outcome.snapshot_to_save is None
        },
        !old(encounter).is_encounter_paused ==> match *msg {
            GameMessage::ServerChangeInfo => {
                &&& is_initial(final(encounter)) || stored_snapshot is Some
                &&& final(encounter).is_encounter_paused == false
                &&& final(encounter).time_last_combat_packet_ms == 0
                &&& final(encounter).time_fight_start_ms == 0
                &&& final(encounter).local_player_uid is None
                &&& final(encounter).entity_uid_to_entity@ == Map::<i64, Entity>::empty()
                &&& final(encounter).dmg_stats.value == 0
                &&& final(encounter).local_player is None
                &&& match stored_snapshot {
                    Some(s) => {
                        &&& final(encounter).crowdsource_monster_id == Some(s.monster_id)
                        &&& opt_str_view(final(encounter).crowdsource_monster_name) == Some(
                            s@.monster_name,
                        )
                        &&& opt_str_view(final(encounter).crowdsource_monster_remote_id) == Some(
                            s@.remote_id,
                        )
                    },
                    None => {
                        &&& final(encounter).crowdsource_monster_id is None
                        &&& final(encounter).crowdsource_monster_name is None
                        &&& final(encounter).crowdsource_monster_remote_id is None
                    },
                }
                &&& final(reports)@ == old(reports)@
                &&& outcome.processed
                &&& outcome.snapshot_to_save is None
            },
            GameMessage::SyncServerTime => {
                &&& *final(encounter) == *old(encounter)
                &&& final(reports)@ == old(reports)@
                &&& outcome.processed
                &&& outcome.snapshot_to_save is None
            },
            GameMessage::SyncNearEntities(ref m) => {
                let eff = near_entities_from(
                    effect_of(old(encounter)),
                    m.appear@,
                    0,
                    report_position(old(encounter).local_player),
                    tables.crowdsource_names@,
                );
                &&& effect_of(final(encounter)) == EncounterEffect {
                    reports: Seq::empty(),
                    ok: true,
                    ..eff
                }
                &&& final(reports)@ == old(reports)@ + eff.reports
                &&& outcome.processed == eff.ok
                &&& snap_rule(outcome.snapshot_to_save, effect_of(old(encounter)), eff)
                &&& final(encounter).local_player == old(encounter).local_player
                &&& final(encounter).dmg_stats == old(encounter).dmg_stats
                &&& final(encounter).is_encounter_paused == old(encounter).is_encounter_paused
            },
            GameMessage::SyncContainerData(ref d) => {
                let eff = container_effect(effect_of(old(encounter)), *d);
                &&& effect_of(final(encounter)) == EncounterEffect {
                    reports: Seq::empty(),
                    ok: true,
                    ..eff
                }
                &&& final(reports)@ == old(reports)@
                &&& outcome.processed == eff.ok
                &&& snap_rule(outcome.snapshot_to_save, effect_of(old(encounter)), eff)
                &&& final(encounter).local_player matches Some(lp) && lp == *d
                &&& final(encounter).dmg_stats == old(encounter).dmg_stats
                &&& final(encounter).is_encounter_paused == old(encounter).is_encounter_paused
            },
            GameMessage::SyncToMeDeltaInfo(ref m) => {
                let eff = to_me_effect(
                    effect_of(old(encounter)),
                    *m,
                    report_position(old(encounter).local_player),
                    tables.crowdsource_names@,
                    tables.monster_names@,
                    tables.crowdsource_remote_ids@,
                    now_ms,
                );
                &&& effect_of(final(encounter)) == EncounterEffect {
                    reports: Seq::empty(),
                    ok: true,
                    ..eff
                }
                &&& final(reports)@ == old(reports)@ + eff.reports
                &&& outcome.processed == eff.ok
                &&& snap_rule(outcome.snapshot_to_save, effect_of(old(encounter)), eff)
                &&& final(encounter).local_player == old(encounter).local_player
                &&& final(encounter).dmg_stats == old(encounter).dmg_stats
                &&& final(encounter).is_encounter_paused == old(encounter).is_encounter_paused
            },
            GameMessage::SyncNearDeltaInfo(ref m) => {
                let fr = near_delta_fold(
                    effect_of(old(encounter)),
                    m.delta_infos@,
                    0,
                    report_position(old(encounter).local_player),
                    tables.crowdsource_names@,
                    tables.monster_names@,
                    tables.crowdsource_remote_ids@,
                    now_ms,
                    None,
                );
                &&& effect_of(final(encounter)) == EncounterEffect {
                    reports: Seq::empty(),
                    ok: true,
                    ..fr.0
                }
                &&& final(reports)@ == old(reports)@ + fr.0.reports
                &&& outcome.processed
                &&& opt_snap_view(outcome.snapshot_to_save) == fr.1
                &&& final(encounter).local_player == old(encounter).local_player
                &&& final(encounter).dmg_stats == old(encounter).dmg_stats
                &&& final(encounter).is_encounter_paused == old(encounter).is_encounter_paused
            },
        },
{
    if encounter.is_encounter_paused {
        return ApplyOutcome { processed: false, snapshot_to_save: None };
    }
    match msg {
        GameMessage::ServerChangeInfo => {
            on_server_change(encounter);
            if let Some(s) = stored_snapshot {
                apply_snapshot_to_encounter(s, encounter);
            }
            ApplyOutcome { processed: true, snapshot_to_save: None }
        },
        GameMessage::SyncServerTime => ApplyOutcome { processed: true, snapshot_to_save: None },
        GameMessage::SyncNearEntities(m) => {
            let prev = match &encounter.crowdsource_monster_remote_id {
                Some(s) => Some(s.clone()),
                None => None,
            };
            let ok = process_sync_near_entities(encounter, m, tables, reports);
            let snap = if !opt_string_eq(&encounter.crowdsource_monster_remote_id, &prev) {
                snapshot_from_encounter(encounter)
            } else {
                None
            };
            ApplyOutcome { processed: ok.is_some(), snapshot_to_save: snap }
        },
        GameMessage::SyncContainerData(d) => {
            let prev = match &encounter.crowdsource_monster_remote_id {
                Some(s) => Some(s.clone()),
                None => None,
            };
            encounter.local_player = Some(d.clone());
            let ok = process_sync_container_data(encounter, d);
            let snap = if !opt_string_eq(&encounter.crowdsource_monster_remote_id, &prev) {
                snapshot_from_encounter(encounter)
            } else {
                None
            };
            ApplyOutcome { processed: ok.is_some(), snapshot_to_save: snap }
        },
        GameMessage::SyncToMeDeltaInfo(m) => {
            let prev = match &encounter.crowdsource_monster_remote_id {
                Some(s) => Some(s.clone()),
                None => None,
            };
            let ok = process_sync_to_me_delta_info(encounter, m, tables, now_ms, reports);
            let snap = if !opt_string_eq(&encounter.crowdsource_monster_remote_id, &prev) {
                snapshot_from_encounter(encounter)
            } else {
                None
            };
            ApplyOutcome { processed: ok.is_some(), snapshot_to_save: snap }
        },
        GameMessage::SyncNearDeltaInfo(m) => {
            let ghost eff0 = effect_of(old(encounter));
            let ghost ds = m.delta_infos@;
            let ghost cs = tables.crowdsource_names@;
            let ghost names = tables.monster_names@;
            let ghost remotes = tables.crowdsource_remote_ids@;
            let ghost pos_spec = report_position(old(encounter).local_player);
            let ghost old_reps = old(reports)@;
            let mut snapshot_to_save: Option<CrowdsourceMonsterSnapshot> = None;
            proof {
                assert(reports@.skip(old_reps.len() as int) =~= Seq::<HpReport>::empty());
                assert(EncounterEffect {
                    reports: reports@.skip(old_reps.len() as int),
                    ..effect_of(encounter)
                } == eff0);
            }
            let mut i: usize = 0;
            while i < m.delta_infos.len()
                invariant
                    0 <= i <= ds.len(),
                    ds == m.delta_infos@,
                    cs == tables.crowdsource_names@,
                    names == tables.monster_names@,
                    remotes == tables.crowdsource_remote_ids@,
                    eff0 == effect_of(old(encounter)),
                    pos_spec == report_position(encounter.local_player),
                    pos_spec == report_position(old(encounter).local_player),
                    old_reps == old(reports)@,
                    reports@.len() >= old_reps.len(),
                    reports@.subrange(0, old_reps.len() as int) == old_reps,
                    encounter.is_encounter_paused == old(encounter).is_encounter_paused,
                    encounter.dmg_stats == old(encounter).dmg_stats,
                    encounter.local_player == old(encounter).local_player,
                    near_delta_fold(eff0, ds, 0, pos_spec, cs, names, remotes, now_ms, None)
                        == near_delta_fold(
                        EncounterEffect {
                            reports: reports@.skip(old_reps.len() as int),
                            ..effect_of(encounter)
                        },
                        ds,
                        i as int,
                        pos_spec,
                        cs,
                        names,
                        remotes,
                        now_ms,
                        opt_snap_view(snapshot_to_save),
                    ),
                decreases ds.len() - i,
            {
                let ghost cur_eff = EncounterEffect {
                    reports: reports@.skip(old_reps.len() as int),
                    ..effect_of(encounter)
                };
                let ghost reps_before = reports@;
                let ghost pre = *encounter;
                let ghost snap_before = opt_snap_view(snapshot_to_save);
                let prev = match &encounter.crowdsource_monster_remote_id {
                    Some(s) => Some(s.clone()),
                    None => None,
                };
                let res = process_aoi_sync_delta(
                    encounter,
                    &m.delta_infos[i],
                    tables,
                    now_ms,
                    reports,
                );
                proof {
                    let effp = aoi_delta_effect(
                        effect_of(&pre),
                        ds[i as int],
                        pos_spec,
                        cs,
                        names,
                        remotes,
                        now_ms,
                    );
                    let next = aoi_delta_effect(
                        cur_eff,
                        ds[i as int],
                        pos_spec,
                        cs,
                        names,
                        remotes,
                        now_ms,
                    );
                    assert(effect_of(&pre) == EncounterEffect {
                        reports: Seq::<HpReport>::empty(),
                        ..cur_eff
                    });
                    lemma_aoi_reports_shift(
                        cur_eff,
                        ds[i as int],
                        pos_spec,
                        cs,
                        names,
                        remotes,
                        now_ms,
                    );
                    assert(next == EncounterEffect {
                        reports: cur_eff.reports + effp.reports,
                        ..effp
                    });
                    assert(reports@ == reps_before + effp.reports);
                    assert(reports@.subrange(0, old_reps.len() as int) =~= reps_before.subrange(
                        0,
                        old_reps.len() as int,
                    ));
                    assert(reports@.skip(old_reps.len() as int) =~= reps_before.skip(
                        old_reps.len() as int,
                    ) + effp.reports);
                    if next.ok {
                        assert(EncounterEffect {
                            reports: reports@.skip(old_reps.len() as int),
                            ..effect_of(encounter)
                        } == next);
                    } else {
                        assert(EncounterEffect {
                            reports: reports@.skip(old_reps.len() as int),
                            ..effect_of(encounter)
                        } == cur_eff);
                    }
                    assert(opt_str_view(prev) == cur_eff.cs_remote);
                }
                if res.is_some() {
                    if !opt_string_eq(&encounter.crowdsource_monster_remote_id, &prev) {
                        snapshot_to_save = snapshot_from_encounter(encounter);
                    }
                }
                proof {
                    let effp = aoi_delta_effect(
                        effect_of(&pre),
                        ds[i as int],
                        pos_spec,
                        cs,
                        names,
                        remotes,
                        now_ms,
                    );
                    let next = aoi_delta_effect(
                        cur_eff,
                        ds[i as int],
                        pos_spec,
                        cs,
                        names,
                        remotes,
                        now_ms,
                    );
                    if next.ok {
                        let snap2 = if next.cs_remote != cur_eff.cs_remote {
                            snapshot_spec(next)
                        } else {
                            snap_before
                        };
                        assert(opt_snap_view(snapshot_to_save) == snap2);
                        assert(near_delta_fold(
                            cur_eff,
                            ds,
                            i as int,
                            pos_spec,
                            cs,
                            names,
                            remotes,
                            now_ms,
                            snap_before,
                        ) == near_delta_fold(
                            EncounterEffect {
                                reports: reports@.skip(old_reps.len() as int),
                                ..effect_of(encounter)
                            },
                            ds,
                            i + 1,
                            pos_spec,
                            cs,
                            names,
                            remotes,
                            now_ms,
                            snap2,
                        ));
                    } else {
                        assert(near_delta_fold(
                            cur_eff,
                            ds,
                            i as int,
                            pos_spec,
                            cs,
                            names,
                            remotes,
                            now_ms,
                            snap_before,
                        ) == near_delta_fold(
                            EncounterEffect {
                                reports: reports@.skip(old_reps.len() as int),
                                ..effect_of(encounter)
                            },
                            ds,
                            i + 1,
                            pos_spec,
                            cs,
                            names,
                            remotes,
                            now_ms,
                            snap_before,
                        ));
                    }
                }
                i = i + 1;
            }
            proof {
                assert(reports@ =~= reports@.subrange(0, old_reps.len() as int) + reports@.skip(
                    old_reps.len() as int,
                ));
            }
            ApplyOutcome { processed: true, snapshot_to_save }
        },
    }
}

} // verus!
