use encounter_core::AoiSyncDelta;
use encounter_core::Attr;
use encounter_core::AttrCollection;
use encounter_core::CharBase;
use encounter_core::CommandError;
use encounter_core::CrowdsourceMonsterSnapshot;
use encounter_core::DamageEvent;
use encounter_core::Encounter;
use encounter_core::EntityType;
use encounter_core::GameMessage;
use encounter_core::ReferenceTables;
use encounter_core::SceneData;
use encounter_core::ScenePosition;
use encounter_core::SkillEffects;
use encounter_core::SyncContainerData;
use encounter_core::SyncNearDeltaInfo;
use encounter_core::VData;
use encounter_core::apply_message;
use encounter_core::get_crowdsource_monster_choices;
use encounter_core::process_aoi_sync_delta;
use encounter_core::process_monster_attrs;
use encounter_core::process_player_attrs;
use encounter_core::resolve_crowdsource_remote;
use encounter_core::AppearEntity;
use encounter_core::SyncNearEntities;
use encounter_core::SyncToMeDeltaInfo;
use encounter_core::ToMeDelta;
use encounter_core::process_sync_container_data;
use encounter_core::process_sync_near_entities;
use encounter_core::process_sync_to_me_delta_info;

fn named(pairs: &[(i32, &str)]) -> Vec<(i32, String)> {
    pairs.iter().map(|(id, n)| (*id, String::from(*n))).collect()
}

fn wyrm_tables() -> ReferenceTables {
    ReferenceTables {
        monster_names: named(&[(1001, "Ancient Wyrm"), (7, "Wyrm"), (3, "Wyrm-2"), (5, "Drake"), (9, "Drake")]),
        crowdsource_names: named(&[(1001, "Ancient Wyrm"), (7, "Wyrm"), (3, "Wyrm-2"), (5, "Drake"), (9, "Drake")]),
        crowdsource_remote_ids: named(&[(1001, "wyrm-01"), (7, "old-01"), (3, "old-01"), (9, "drake-01"), (5, "drake-01")]),
    }
}

fn local_player_record(line: i32) -> SyncContainerData {
    SyncContainerData {
        v_data: Some(VData {
            char_id: Some(99),
            char_base: Some(CharBase { name: Some(String::from("Hero")) }),
            scene_data: Some(SceneData {
                line_id: Some(line),
                pos: Some(ScenePosition { x_bits: Some(0x42c8_0000), y_bits: Some(0x4348_0000) }),
            }),
        }),
    }
}

fn attr(id: i32, raw: &[u8]) -> Attr {
    Attr { id: Some(id), raw_data: Some(raw.to_vec()) }
}

const ATTR_NAME: i32 = 0x01;
const ATTR_ID: i32 = 0x0a;
const ATTR_HP: i32 = 0x2c2e;
const ATTR_MAX_HP: i32 = 0x2c38;

#[test]
fn name_attribute_creates_character() {
    // a delta for an unknown uid whose wire id carries the character tag
    let uid: i64 = 42;
    let uuid: i64 = (uid << 16) | 1;
    let delta = AoiSyncDelta {
        uuid: Some(uuid),
        attrs: Some(AttrCollection {
            attrs: vec![attr(ATTR_NAME, &[0, 5, b'A', b'l', b'i', b'c', b'e'])],
        }),
        skill_effects: None,
    };
    let tables = wyrm_tables();
    let mut enc = Encounter::new();
    let mut reports = Vec::new();
    let r = process_aoi_sync_delta(&mut enc, &delta, &tables, 1_000, &mut reports);
    assert!(r.is_some());
    let ent = enc.entity_uid_to_entity.get(&uid).expect("entity created");
    assert_eq!(ent.entity_type, EntityType::Character);
    assert_eq!(ent.name.as_deref(), Some("Alice"));
    assert!(ent.monster_id.is_none());
    assert!(ent.curr_hp.is_none());
    assert!(ent.max_hp.is_none());
    assert!(reports.is_empty());
}

#[test]
fn malformed_name_attribute_is_skipped() {
    let mut ent = Default::default();
    // framing marker only: no length-prefixed payload behind it
    process_player_attrs(&mut ent, &vec![attr(ATTR_NAME, &[0]), attr(ATTR_NAME, &[0, 2, 0xff, 0xfe])]);
    let ent: encounter_core::Entity = ent;
    assert!(ent.name.is_none());
}

#[test]
fn first_observation_reports_exact_percentage() {
    let tables = wyrm_tables();
    let player = local_player_record(3);
    let mut ent = Default::default();
    let mut reports = Vec::new();
    let batch = vec![
        attr(ATTR_ID, &[0xe9, 0x07]),      // monster id 1001
        attr(ATTR_MAX_HP, &[0x64]),        // max hp 100
        attr(ATTR_HP, &[0x57]),            // current hp 87
    ];
    process_monster_attrs(&mut ent, &batch, Some(&player), &tables, &mut reports);
    assert_eq!(reports.len(), 1);
    assert_eq!(reports[0].monster_id, 1001);
    assert_eq!(reports[0].hp_pct, 87);
    assert_eq!(reports[0].line, 3);
    // a second identical update lands on the same percentage: no report
    process_monster_attrs(&mut ent, &vec![attr(ATTR_HP, &[0x57])], Some(&player), &tables, &mut reports);
    assert_eq!(reports.len(), 1);
    // a drop to a multiple of five reports again
    process_monster_attrs(&mut ent, &vec![attr(ATTR_HP, &[0x55])], Some(&player), &tables, &mut reports);
    assert_eq!(reports.len(), 2);
    assert_eq!(reports[1].hp_pct, 85);
    // a drop to a non-multiple is withheld
    process_monster_attrs(&mut ent, &vec![attr(ATTR_HP, &[0x54])], Some(&player), &tables, &mut reports);
    assert_eq!(reports.len(), 2);
}

#[test]
fn report_needs_scene_position() {
    let tables = wyrm_tables();
    let mut ent = Default::default();
    let mut reports = Vec::new();
    let batch = vec![attr(ATTR_ID, &[0xe9, 0x07]), attr(ATTR_MAX_HP, &[0x64]), attr(ATTR_HP, &[0x57])];
    process_monster_attrs(&mut ent, &batch, None, &tables, &mut reports);
    assert!(reports.is_empty());
    let ent: encounter_core::Entity = ent;
    // tracking still advanced
    assert_eq!(ent.curr_hp, Some(87));
    assert_eq!(ent.max_hp, Some(100));
}

#[test]
fn remote_tie_break_prefers_unhyphenated_then_lower_id() {
    let tables = wyrm_tables();
    // ids 7 ("Wyrm") and 3 ("Wyrm-2") share "old-01": the unhyphenated name wins
    let (id, name) = resolve_crowdsource_remote(&tables, "old-01").unwrap();
    assert_eq!(id, 7);
    assert_eq!(name, "Wyrm");
    // ids 5 and 9 share "drake-01" with the same name: the lower id wins
    let (id, name) = resolve_crowdsource_remote(&tables, "drake-01").unwrap();
    assert_eq!(id, 5);
    assert_eq!(name, "Drake");
    assert!(resolve_crowdsource_remote(&tables, "nobody").is_none());
}

#[test]
fn choices_are_sorted_case_insensitively() {
    let tables = ReferenceTables {
        monster_names: named(&[(1, "alpha"), (2, "Beta")]),
        crowdsource_names: named(&[(1, "alpha"), (2, "Beta")]),
        crowdsource_remote_ids: named(&[(2, "b-1"), (1, "a-1"), (12, "mystery-1")]),
    };
    let choices = get_crowdsource_monster_choices(&tables);
    assert_eq!(choices.len(), 3);
    // case-insensitive order: "alpha" before "Beta"; byte order alone
    // would put "Beta" first
    assert_eq!(choices[0].1, "alpha");
    assert_eq!(choices[1].1, "Beta");
    // an id with no table name falls back to the synthetic label
    assert_eq!(choices[2].1, "Monster 12");
    assert_eq!(choices[2].0, 12);
    assert_eq!(choices[2].2, "mystery-1");
}

#[test]
fn set_crowdsource_remote_resolves_or_fails() {
    let tables = wyrm_tables();
    let mut enc = Encounter::new();
    let err = enc.set_crowdsource_remote(&tables, "nobody").unwrap_err();
    assert_eq!(err, CommandError::UnknownRemoteId);
    assert!(enc.crowdsource_monster_id.is_none());
    let snap = enc.set_crowdsource_remote(&tables, "wyrm-01").unwrap();
    assert_eq!(snap.monster_id, 1001);
    assert_eq!(snap.monster_name, "Ancient Wyrm");
    assert_eq!(snap.remote_id, "wyrm-01");
    assert_eq!(enc.crowdsource_monster_id, Some(1001));
    assert_eq!(enc.crowdsource_monster_name.as_deref(), Some("Ancient Wyrm"));
    assert_eq!(enc.crowdsource_monster_remote_id.as_deref(), Some("wyrm-01"));
}

#[test]
fn death_report_names_first_missing_link() {
    let mut enc = Encounter::new();
    assert_eq!(enc.death_report().unwrap_err(), CommandError::NoCrowdsourceMonsterId);
    enc.crowdsource_monster_id = Some(1001);
    assert_eq!(enc.death_report().unwrap_err(), CommandError::NoSceneData);
    enc.local_player = Some(local_player_record(3));
    let report = enc.death_report().unwrap();
    assert_eq!(report.monster_id, 1001);
    assert_eq!(report.hp_pct, 0);
    assert_eq!(report.line, 3);
}

#[test]
fn local_player_line_follows_the_chain() {
    let mut enc = Encounter::new();
    assert_eq!(enc.local_player_line(), None);
    enc.local_player = Some(local_player_record(11));
    assert_eq!(enc.local_player_line(), Some(11));
}

#[test]
fn paused_encounter_drops_messages() {
    let tables = wyrm_tables();
    let mut enc = Encounter::new();
    enc.toggle_pause();
    let mut reports = Vec::new();
    let msg = GameMessage::SyncContainerData(local_player_record(3));
    let outcome = apply_message(&mut enc, &tables, &msg, 1_000, None, &mut reports);
    assert!(!outcome.processed);
    assert!(outcome.snapshot_to_save.is_none());
    assert!(enc.local_player.is_none());
    assert!(enc.entity_uid_to_entity.is_empty());
}

#[test]
fn server_change_resets_and_restores_snapshot() {
    let tables = wyrm_tables();
    let mut enc = Encounter::new();
    enc.dmg_stats.value = 500;
    enc.time_fight_start_ms = 10;
    let stored = CrowdsourceMonsterSnapshot {
        monster_id: 1001,
        monster_name: String::from("Ancient Wyrm"),
        remote_id: String::from("wyrm-01"),
    };
    let mut reports = Vec::new();
    let outcome = apply_message(
        &mut enc,
        &tables,
        &GameMessage::ServerChangeInfo,
        2_000,
        Some(&stored),
        &mut reports,
    );
    assert!(outcome.processed);
    assert_eq!(enc.dmg_stats.value, 0);
    assert_eq!(enc.time_fight_start_ms, 0);
    assert_eq!(enc.crowdsource_monster_id, Some(1001));
    assert_eq!(enc.crowdsource_monster_name.as_deref(), Some("Ancient Wyrm"));
    assert_eq!(enc.crowdsource_monster_remote_id.as_deref(), Some("wyrm-01"));
}

#[test]
fn damage_confirms_crowdsourced_monster_and_snapshots() {
    let tables = wyrm_tables();
    let mut enc = Encounter::new();
    enc.local_player = Some(local_player_record(3));
    let uid: i64 = 77;
    let uuid: i64 = (uid << 16) | 2;
    let delta = AoiSyncDelta {
        uuid: Some(uuid),
        attrs: Some(AttrCollection {
            attrs: vec![attr(ATTR_ID, &[0xe9, 0x07]), attr(ATTR_MAX_HP, &[0x64])],
        }),
        skill_effects: Some(SkillEffects { damages: vec![DamageEvent { value: Some(40) }] }),
    };
    let msg = GameMessage::SyncNearDeltaInfo(SyncNearDeltaInfo { delta_infos: vec![delta] });
    let mut reports = Vec::new();
    let outcome = apply_message(&mut enc, &tables, &msg, 5_000, None, &mut reports);
    assert!(outcome.processed);
    assert_eq!(enc.crowdsource_monster_id, Some(1001));
    assert_eq!(enc.crowdsource_monster_name.as_deref(), Some("Ancient Wyrm"));
    assert_eq!(enc.crowdsource_monster_remote_id.as_deref(), Some("wyrm-01"));
    assert_eq!(enc.time_fight_start_ms, 5_000);
    assert_eq!(enc.time_last_combat_packet_ms, 5_000);
    let snap = outcome.snapshot_to_save.expect("identity changed, so persist");
    assert_eq!(snap.monster_id, 1001);
    assert_eq!(snap.remote_id, "wyrm-01");
    let ent = enc.entity_uid_to_entity.get(&uid).unwrap();
    assert_eq!(ent.entity_type, EntityType::Monster);
    assert_eq!(ent.monster_id, Some(1001));
}

#[test]
fn near_entities_overwrites_type_and_merges() {
    let tables = wyrm_tables();
    let mut enc = Encounter::new();
    let uid: i64 = 8;
    let char_uuid: i64 = (uid << 16) | 1;
    let msg = SyncNearEntities {
        appear: vec![AppearEntity {
            uuid: Some(char_uuid),
            attrs: Some(AttrCollection {
                attrs: vec![attr(ATTR_NAME, &[0, 3, b'B', b'o', b'b'])],
            }),
        }],
    };
    let mut reports = Vec::new();
    assert!(process_sync_near_entities(&mut enc, &msg, &tables, &mut reports).is_some());
    let ent = enc.entity_uid_to_entity.get(&uid).unwrap();
    assert_eq!(ent.entity_type, EntityType::Character);
    assert_eq!(ent.name.as_deref(), Some("Bob"));
    // a second appearance with a missing attribute batch cuts the
    // message short but keeps the entity and its new type tag
    let monster_uuid: i64 = (uid << 16) | 2;
    let msg2 = SyncNearEntities {
        appear: vec![AppearEntity { uuid: Some(monster_uuid), attrs: None }],
    };
    assert!(process_sync_near_entities(&mut enc, &msg2, &tables, &mut reports).is_none());
    let ent = enc.entity_uid_to_entity.get(&uid).unwrap();
    assert_eq!(ent.entity_type, EntityType::Monster);
    assert_eq!(ent.name.as_deref(), Some("Bob"));
}

#[test]
fn container_data_names_the_player() {
    let mut enc = Encounter::new();
    let record = local_player_record(3);
    assert!(process_sync_container_data(&mut enc, &record).is_some());
    let ent = enc.entity_uid_to_entity.get(&99).unwrap();
    assert_eq!(ent.entity_type, EntityType::Character);
    assert_eq!(ent.name.as_deref(), Some("Hero"));
    // an incomplete record is reported as such and names nobody
    let bare = SyncContainerData { v_data: None };
    assert!(process_sync_container_data(&mut enc, &bare).is_none());
}

#[test]
fn to_me_delta_records_local_uid() {
    let tables = wyrm_tables();
    let mut enc = Encounter::new();
    let uuid: i64 = (99 << 16) | 1;
    let msg = SyncToMeDeltaInfo {
        delta_info: Some(ToMeDelta {
            uuid: Some(uuid),
            base_delta: Some(AoiSyncDelta { uuid: Some(uuid), attrs: None, skill_effects: None }),
        }),
    };
    let mut reports = Vec::new();
    assert!(process_sync_to_me_delta_info(&mut enc, &msg, &tables, 1_000, &mut reports).is_some());
    assert_eq!(enc.local_player_uid, Some(99));
    // the uid is recorded even when the embedded delta is missing
    let mut enc2 = Encounter::new();
    let msg2 = SyncToMeDeltaInfo {
        delta_info: Some(ToMeDelta { uuid: Some(uuid), base_delta: None }),
    };
    assert!(process_sync_to_me_delta_info(&mut enc2, &msg2, &tables, 1_000, &mut reports).is_none());
    assert_eq!(enc2.local_player_uid, Some(99));
}

#[test]
fn unchanged_identity_saves_no_snapshot() {
    let tables = wyrm_tables();
    let mut enc = Encounter::new();
    enc.local_player = Some(local_player_record(3));
    let make_delta = || AoiSyncDelta {
        uuid: Some((77 << 16) | 2),
        attrs: Some(AttrCollection { attrs: vec![attr(ATTR_ID, &[0xe9, 0x07])] }),
        skill_effects: Some(SkillEffects { damages: vec![DamageEvent { value: Some(1) }] }),
    };
    let msg = GameMessage::SyncNearDeltaInfo(SyncNearDeltaInfo { delta_infos: vec![make_delta()] });
    let mut reports = Vec::new();
    let first = apply_message(&mut enc, &tables, &msg, 1_000, None, &mut reports);
    assert!(first.snapshot_to_save.is_some());
    let msg2 = GameMessage::SyncNearDeltaInfo(SyncNearDeltaInfo { delta_infos: vec![make_delta()] });
    let second = apply_message(&mut enc, &tables, &msg2, 2_000, None, &mut reports);
    assert!(second.processed);
    assert!(second.snapshot_to_save.is_none());
}

#[test]
fn full_pipeline_reports_through_dispatcher() {
    let tables = wyrm_tables();
    let mut enc = Encounter::new();
    let mut reports = Vec::new();
    // the local player's full-state sync arrives first
    let container = GameMessage::SyncContainerData(local_player_record(3));
    let outcome = apply_message(&mut enc, &tables, &container, 1_000, None, &mut reports);
    assert!(outcome.processed);
    assert!(enc.local_player.is_some());
    // then a delta batch carrying the monster's identity and health
    let delta = AoiSyncDelta {
        uuid: Some((77 << 16) | 2),
        attrs: Some(AttrCollection {
            attrs: vec![
                attr(ATTR_ID, &[0xe9, 0x07]),
                attr(ATTR_MAX_HP, &[0x64]),
                attr(ATTR_HP, &[0x57]),
            ],
        }),
        skill_effects: None,
    };
    let msg = GameMessage::SyncNearDeltaInfo(SyncNearDeltaInfo { delta_infos: vec![delta] });
    let outcome = apply_message(&mut enc, &tables, &msg, 2_000, None, &mut reports);
    assert!(outcome.processed);
    assert_eq!(reports.len(), 1);
    assert_eq!(reports[0].monster_id, 1001);
    assert_eq!(reports[0].hp_pct, 87);
    assert_eq!(reports[0].line, 3);
    assert_eq!(reports[0].pos_x_bits, 0x42c8_0000);
    // no damage event came with it, so the combat timers did not start
    assert_eq!(enc.time_fight_start_ms, 0);
}
