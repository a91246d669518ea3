//! Typed protocol records as this core receives them.
//!
//! Framing and the outer schema are the capture collaborator's business:
//! it hands over records whose fields are already split out, every one of
//! them optional, exactly as the wire may omit them. Positions travel as
//! the raw bit patterns of the transport's 32-bit values; this core never
//! interprets them, it only carries them into reports.

use vstd::prelude::*;

verus! {

/// Attribute id carrying an entity's display name.
pub const ATTR_NAME: i32 = 0x01;

/// Attribute id carrying a monster's reference-table identifier.
pub const ATTR_ID: i32 = 0x0a;

/// Attribute id carrying a monster's current health.
pub const ATTR_HP: i32 = 0x2c2e;

/// Attribute id carrying a monster's maximum health.
pub const ATTR_MAX_HP: i32 = 0x2c38;

/// Type tag of a player character.
pub const TYPE_TAG_CHARACTER: i64 = 1;

/// Type tag of a monster.
pub const TYPE_TAG_MONSTER: i64 = 2;

/// One generic attribute record: an id that picks the interpretation and
/// an opaque byte blob.
pub struct Attr {
    pub id: Option<i32>,
    pub raw_data: Option<Vec<u8>>,
}

/// Mathematical image of an [`Attr`]: the blob as a byte sequence.
pub struct AttrModel {
    pub id: Option<i32>,
    pub raw: Option<Seq<u8>>,
}

impl View for Attr {
    type V = AttrModel;

    open spec fn view(&self) -> AttrModel {
        AttrModel {
            id: self.id,
            raw: match self.raw_data {
                Some(b) => Some(b@),
                None => None,
            },
        }
    }
}

/// The attribute batch seen as a sequence of attribute models.
pub open spec fn attrs_view(attrs: Seq<Attr>) -> Seq<AttrModel> {
    attrs.map_values(|a: Attr| a@)
}

/// The attribute batch carried by several message kinds.
pub struct AttrCollection {
    pub attrs: Vec<Attr>,
}

/// One entity announced by a near-entities appearance batch.
pub struct AppearEntity {
    pub uuid: Option<i64>,
    pub attrs: Option<AttrCollection>,
}

/// Appearance batch: entities that entered the local player's view.
pub struct SyncNearEntities {
    pub appear: Vec<AppearEntity>,
}

/// A 2D position, as raw 32-bit patterns from the wire.
#[derive(Clone, Copy)]
pub struct ScenePosition {
    pub x_bits: Option<u32>,
    pub y_bits: Option<u32>,
}

/// Scene placement of the controlled character.
#[derive(Clone, Copy)]
pub struct SceneData {
    pub line_id: Option<i32>,
    pub pos: Option<ScenePosition>,
}

/// Identity block of the controlled character.
pub struct CharBase {
    pub name: Option<String>,
}

impl Clone for CharBase {
    fn clone(&self) -> (c: CharBase)
        ensures
            c == *self,
    {
        CharBase {
            name: match &self.name {
                Some(n) => Some(n.clone()),
                None => None,
            },
        }
    }
}

/// Payload of a full-state sync for the controlled character.
pub struct VData {
    pub char_id: Option<i64>,
    pub char_base: Option<CharBase>,
    pub scene_data: Option<SceneData>,
}

impl Clone for VData {
    fn clone(&self) -> (c: VData)
        ensures
            c == *self,
    {
        VData {
            char_id: self.char_id,
            char_base: match &self.char_base {
                Some(cb) => Some(cb.clone()),
                None => None,
            },
            scene_data: self.scene_data,
        }
    }
}

/// Full-state sync for the controlled character.
pub struct SyncContainerData {
    pub v_data: Option<VData>,
}

impl Clone for SyncContainerData {
    fn clone(&self) -> (c: SyncContainerData)
        ensures
            c == *self,
    {
        SyncContainerData {
            v_data: match &self.v_data {
                Some(v) => Some(v.clone()),
                None => None,
            },
        }
    }
}

/// One damage or skill-effect event inside a delta. The amounts are
/// aggregated outside this core; only the event's presence matters here.
pub struct DamageEvent {
    pub value: Option<i64>,
}

/// The damage events attached to a delta.
pub struct SkillEffects {
    pub damages: Vec<DamageEvent>,
}

/// Incremental update to one entity: attribute changes and combat events.
pub struct AoiSyncDelta {
    pub uuid: Option<i64>,
    pub attrs: Option<AttrCollection>,
    pub skill_effects: Option<SkillEffects>,
}

/// Delta addressed to the controlled character.
pub struct ToMeDelta {
    pub uuid: Option<i64>,
    pub base_delta: Option<AoiSyncDelta>,
}

/// Message wrapping a self-centric delta.
pub struct SyncToMeDeltaInfo {
    pub delta_info: Option<ToMeDelta>,
}

/// Message wrapping a batch of entity deltas.
pub struct SyncNearDeltaInfo {
    pub delta_infos: Vec<AoiSyncDelta>,
}

/// One decoded capture-stream message, tagged by opcode.
pub enum GameMessage {
    ServerChangeInfo,
    SyncNearEntities(SyncNearEntities),
    SyncContainerData(SyncContainerData),
    SyncServerTime,
    SyncToMeDeltaInfo(SyncToMeDeltaInfo),
    SyncNearDeltaInfo(SyncNearDeltaInfo),
}

/// Stable entity key: the raw id with the type tag dropped.
pub open spec fn uid_of_uuid_spec(uuid: i64) -> i64 {
    uuid >> 16
}

/// Derives the stable entity key from a raw wire id.
pub fn uid_of_uuid(uuid: i64) -> (uid: i64)
    ensures
        uid == uid_of_uuid_spec(uuid),
{
    uuid >> 16
}

} // verus!
