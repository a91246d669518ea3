//! Tracked game entities and their mathematical model.

use vstd::prelude::*;
use crate::wire::TYPE_TAG_CHARACTER;
use crate::wire::TYPE_TAG_MONSTER;

verus! {

/// Kind of a tracked entity.
#[derive(PartialEq, Eq, Structural, Clone, Copy, Debug)]
pub enum EntityType {
    Character,
    Monster,
    Other,
}

/// Type tag encoded in the low bits of a raw wire id.
pub open spec fn entity_type_of_uuid_spec(uuid: i64) -> EntityType {
    let tag = uuid & 0xFFFF;
    if tag == TYPE_TAG_CHARACTER {
        EntityType::Character
    } else if tag == TYPE_TAG_MONSTER {
        EntityType::Monster
    } else {
        EntityType::Other
    }
}

/// Reads an entity's type out of its raw wire id.
pub fn entity_type_of_uuid(uuid: i64) -> (t: EntityType)
    ensures
        t == entity_type_of_uuid_spec(uuid),
{
    let tag = uuid & 0xFFFF;
    if tag == TYPE_TAG_CHARACTER {
        EntityType::Character
    } else if tag == TYPE_TAG_MONSTER {
        EntityType::Monster
    } else {
        EntityType::Other
    }
}

/// One tracked game object. Fields fill in additively as deltas arrive; a
/// delta that lacks an attribute never clears a known field.
pub struct Entity {
    pub entity_type: EntityType,
    pub name: Option<String>,
    pub monster_id: Option<i32>,
    pub curr_hp: Option<i32>,
    pub max_hp: Option<i32>,
}

/// Mathematical image of an [`Entity`]: the name as its character
/// sequence, everything else verbatim.
pub struct EntityModel {
    pub entity_type: EntityType,
    pub name: Option<Seq<char>>,
    pub monster_id: Option<i32>,
    pub curr_hp: Option<i32>,
    pub max_hp: Option<i32>,
}

impl View for Entity {
    type V = EntityModel;

    open spec fn view(&self) -> EntityModel {
        EntityModel {
            entity_type: self.entity_type,
            name: match self.name {
                Some(n) => Some(n@),
                None => None,
            },
            monster_id: self.monster_id,
            curr_hp: self.curr_hp,
            max_hp: self.max_hp,
        }
    }
}

/// The state a newly seen entity starts from, before any attribute is
/// applied.
pub open spec fn fresh_entity_model(t: EntityType) -> EntityModel {
    EntityModel { entity_type: t, name: None, monster_id: None, curr_hp: None, max_hp: None }
}

impl Entity {
    /// A blank entity of the given type.
    pub fn fresh(t: EntityType) -> (e: Entity)
        ensures
            e@ == fresh_entity_model(t),
    {
        Entity { entity_type: t, name: None, monster_id: None, curr_hp: None, max_hp: None }
    }
}

impl Default for Entity {
    /// A blank entity of unknown type.
    fn default() -> (e: Entity)
        ensures
            e@ == fresh_entity_model(EntityType::Other),
    {
        Entity::fresh(EntityType::Other)
    }
}

impl Clone for Entity {
    fn clone(&self) -> (e: Entity)
        ensures
            e == *self,
    {
        Entity {
            entity_type: self.entity_type,
            name: match &self.name {
                Some(n) => Some(n.clone()),
                None => None,
            },
            monster_id: self.monster_id,
            curr_hp: self.curr_hp,
            max_hp: self.max_hp,
        }
    }
}

} // verus!
