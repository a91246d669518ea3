//! Core of a live encounter tracker for a multiplayer game.
//!
//! The library decodes the generic attribute records embedded in captured
//! protocol messages, maintains a per-session registry of entities (players
//! and monsters), aggregates combat timing, and decides when a tracked
//! monster's health percentage is worth reporting to a shared backend.
//! Capture, protocol framing, persistence and network dispatch are the
//! surrounding application's business; this crate holds the rules.

mod encounter;
mod entity;
mod process;
mod registry;
mod report;
mod snapshot;
mod tables;
mod text;
mod varint;
mod wire;

pub use encounter::CombatStats;
pub use encounter::CommandError;
pub use encounter::CrowdsourcedMonster;
pub use encounter::Encounter;
pub use encounter::HeaderInfo;
pub use encounter::death_report_spec;
pub use encounter::is_initial;
pub use encounter::lemma_initial_states_agree;
pub use encounter::local_line_spec;

pub use entity::Entity;
pub use entity::EntityModel;
pub use entity::EntityType;
pub use entity::entity_type_of_uuid;
pub use entity::entity_type_of_uuid_spec;
pub use entity::fresh_entity_model;

pub use process::ApplyOutcome;
pub use process::EncounterEffect;
pub use process::aoi_delta_effect;
pub use process::apply_message;
pub use process::apply_snapshot_to_encounter;
pub use process::container_effect;
pub use process::cs_display_name_spec;
pub use process::effect_of;
pub use process::entities_model;
pub use process::near_delta_fold;
pub use process::near_entities_from;
pub use process::on_server_change;
pub use process::opt_snap_view;
pub use process::opt_str_view;
pub use process::process_aoi_sync_delta;
pub use process::process_sync_container_data;
pub use process::process_sync_near_entities;
pub use process::process_sync_to_me_delta_info;
pub use process::snap_rule;
pub use process::snapshot_from_encounter;
pub use process::snapshot_spec;
pub use process::to_me_effect;

pub use registry::attr_i32;
pub use registry::hp_report_for;
pub use registry::lemma_reports_bounded;
pub use registry::lp_view;
pub use registry::monster_attrs_from;
pub use registry::monster_step;
pub use registry::player_attrs_from;
pub use registry::player_step;
pub use registry::process_monster_attrs;
pub use registry::process_player_attrs;
pub use registry::report_position;
pub use registry::scene_report_position;

pub use report::HpReport;
pub use report::hp_pct;
pub use report::hp_pct_spec;
pub use report::should_report;
pub use report::should_report_spec;

pub use snapshot::CrowdsourceMonsterSnapshot;
pub use snapshot::SnapshotModel;
pub use snapshot::SnapshotStore;
pub use snapshot::lemma_snapshot_round_trip;

pub use tables::CrowdsourcedMonsterOption;
pub use tables::ReferenceTables;
pub use tables::beat_key;
pub use tables::build_remote_lookup;
pub use tables::choices_sorted;
pub use tables::chosen_for_remote;
pub use tables::covers_remotes;
pub use tables::entry_beats;
pub use tables::get_crowdsource_monster_choices;
pub use tables::is_crowdsourced_spec;
pub use tables::lemma_remote_tie_break;
pub use tables::resolve_crowdsource_remote;
pub use tables::resolved_name_spec;
pub use tables::table_lookup;
pub use tables::tuples_cover_remotes;
pub use tables::tuples_have_remote;

pub use text::bytes_le;
pub use text::compare_names_le;
pub use text::dec_digits;
pub use text::has_hyphen;
pub use text::lower_of;
pub use text::monster_label;
pub use text::monster_label_of;
pub use text::name_le;

pub use varint::decode_varint;
pub use varint::decoded_string;
pub use varint::i32_of_u64;
pub use varint::read_string;
pub use varint::string_payload;
pub use varint::u64_to_i32;
pub use varint::varint_ok;
pub use varint::varint_value;

pub use wire::ATTR_HP;
pub use wire::ATTR_ID;
pub use wire::ATTR_MAX_HP;
pub use wire::ATTR_NAME;
pub use wire::TYPE_TAG_CHARACTER;
pub use wire::TYPE_TAG_MONSTER;
pub use wire::AoiSyncDelta;
pub use wire::AppearEntity;
pub use wire::Attr;
pub use wire::AttrCollection;
pub use wire::AttrModel;
pub use wire::CharBase;
pub use wire::DamageEvent;
pub use wire::GameMessage;
pub use wire::SceneData;
pub use wire::ScenePosition;
pub use wire::SkillEffects;
pub use wire::SyncContainerData;
pub use wire::SyncNearDeltaInfo;
pub use wire::SyncNearEntities;
pub use wire::SyncToMeDeltaInfo;
pub use wire::ToMeDelta;
pub use wire::VData;
pub use wire::attrs_view;
pub use wire::uid_of_uuid;
pub use wire::uid_of_uuid_spec;
