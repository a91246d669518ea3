use encounter_core::CommandError;
use encounter_core::CrowdsourceMonsterSnapshot;
use encounter_core::Encounter;
use encounter_core::SnapshotStore;
use encounter_core::decode_varint;
use encounter_core::hp_pct;
use encounter_core::monster_label;
use encounter_core::read_string;
use encounter_core::should_report;
use encounter_core::u64_to_i32;

#[test]
fn varint_single_byte() {
    assert_eq!(decode_varint(&[0x57]), Some((87, 1)));
}

#[test]
fn varint_two_bytes() {
    assert_eq!(decode_varint(&[0xe9, 0x07]), Some((1001, 2)));
}

#[test]
fn varint_trailing_bytes_ignored() {
    assert_eq!(decode_varint(&[0x64, 0xff, 0x01]), Some((100, 1)));
}

#[test]
fn varint_truncated_is_rejected() {
    assert_eq!(decode_varint(&[0x80]), None);
    assert_eq!(decode_varint(&[]), None);
}

#[test]
fn varint_max_u64_round_trip() {
    let bytes = [0xff, 0xff, 0xff, 0xff, 0xff, 0xff, 0xff, 0xff, 0xff, 0x01];
    assert_eq!(decode_varint(&bytes), Some((u64::MAX, 10)));
}

#[test]
fn varint_overlong_is_rejected() {
    let bytes = [0xff, 0xff, 0xff, 0xff, 0xff, 0xff, 0xff, 0xff, 0xff, 0x02];
    assert_eq!(decode_varint(&bytes), None);
    let eleven = [0x80, 0x80, 0x80, 0x80, 0x80, 0x80, 0x80, 0x80, 0x80, 0x80, 0x00];
    assert_eq!(decode_varint(&eleven), None);
}

#[test]
fn narrowing_keeps_low_bits() {
    assert_eq!(u64_to_i32(87), 87);
    assert_eq!(u64_to_i32(0xffff_ffff), -1);
    assert_eq!(u64_to_i32(0x1_0000_0005), 5);
}

#[test]
fn read_string_plain() {
    let bytes = [5, b'h', b'e', b'l', b'l', b'o'];
    assert_eq!(read_string(&bytes).as_deref(), Some("hello"));
}

#[test]
fn read_string_bad_utf8() {
    let bytes = [2, 0xff, 0xfe];
    assert_eq!(read_string(&bytes), None);
}

#[test]
fn read_string_short_payload() {
    let bytes = [9, b'h', b'i'];
    assert_eq!(read_string(&bytes), None);
}

#[test]
fn hp_pct_plain_and_clamped() {
    assert_eq!(hp_pct(87, 100), 87);
    assert_eq!(hp_pct(1, 3), 33);
    assert_eq!(hp_pct(150, 100), 100);
    assert_eq!(hp_pct(-5, 100), 0);
    assert_eq!(hp_pct(0, 7), 0);
    assert_eq!(hp_pct(7, 7), 100);
}

#[test]
fn should_report_truth_table() {
    assert!(should_report(None, 87));
    assert!(should_report(None, 44));
    assert!(!should_report(Some(87), 87));
    assert!(!should_report(Some(45), 45));
    assert!(should_report(Some(40), 45));
    assert!(!should_report(Some(41), 44));
    assert!(should_report(Some(50), 45));
    assert!(should_report(Some(3), 0));
}

#[test]
fn monster_label_renders_id() {
    assert_eq!(monster_label(12), "Monster 12");
    assert_eq!(monster_label(-3), "Monster -3");
}

#[test]
fn snapshot_round_trip() {
    let mut store = SnapshotStore::new();
    assert!(store.load().is_none());
    let snap = CrowdsourceMonsterSnapshot {
        monster_id: 7,
        monster_name: String::from("Ancient Wyrm"),
        remote_id: String::from("wyrm-01"),
    };
    store.save(&snap);
    let loaded = store.load().expect("snapshot should be there");
    assert_eq!(loaded.monster_id, 7);
    assert_eq!(loaded.monster_name, "Ancient Wyrm");
    assert_eq!(loaded.remote_id, "wyrm-01");
}

#[test]
fn reset_matches_fresh_default() {
    let mut enc = Encounter::new();
    enc.is_encounter_paused = true;
    enc.time_fight_start_ms = 5;
    enc.time_last_combat_packet_ms = 9;
    enc.local_player_uid = Some(42);
    enc.dmg_stats.value = 100;
    enc.crowdsource_monster_id = Some(7);
    enc.crowdsource_monster_name = Some(String::from("X"));
    enc.crowdsource_monster_remote_id = Some(String::from("x-1"));
    enc.entity_uid_to_entity.insert(1, Default::default());
    enc.reset();
    let fresh = Encounter::new();
    assert_eq!(enc.is_encounter_paused, fresh.is_encounter_paused);
    assert_eq!(enc.time_fight_start_ms, fresh.time_fight_start_ms);
    assert_eq!(enc.time_last_combat_packet_ms, fresh.time_last_combat_packet_ms);
    assert_eq!(enc.local_player_uid, fresh.local_player_uid);
    assert_eq!(enc.entity_uid_to_entity.len(), 0);
    assert_eq!(enc.dmg_stats.value, fresh.dmg_stats.value);
    assert!(enc.local_player.is_none());
    assert_eq!(enc.crowdsource_monster_id, fresh.crowdsource_monster_id);
    assert_eq!(enc.crowdsource_monster_name, fresh.crowdsource_monster_name);
    assert_eq!(enc.crowdsource_monster_remote_id, fresh.crowdsource_monster_remote_id);
}

#[test]
fn header_info_requires_damage() {
    let mut enc = Encounter::new();
    assert_eq!(enc.header_info().unwrap_err(), CommandError::NoDamage);
    enc.dmg_stats.value = 250;
    enc.time_fight_start_ms = 1_000;
    enc.time_last_combat_packet_ms = 4_500;
    let h = enc.header_info().unwrap();
    assert_eq!(h.total_dmg, 250);
    assert_eq!(h.elapsed_ms, 3_500);
    assert_eq!(h.time_last_combat_packet_ms, 4_500);
}

#[test]
fn toggle_pause_flips() {
    let mut enc = Encounter::new();
    enc.toggle_pause();
    assert!(enc.is_encounter_paused);
    enc.toggle_pause();
    assert!(!enc.is_encounter_paused);
}

#[test]
fn error_messages_match_surface() {
    assert_eq!(CommandError::NoDamage.message(), "No damage found");
    assert_eq!(
        CommandError::NoCrowdsourceMonsterId.message(),
        "No crowdsourced monster ID available"
    );
}
