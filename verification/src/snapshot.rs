//! The durable record of the last crowdsourced monster identity, and an
//! in-memory model of the persistence contract: idempotent overwrite on
//! save, miss returns nothing on load. The application layer gives the
//! store a durable backing; the rules live here.

use vstd::prelude::*;

verus! {

/// The persisted identity triple.
#[derive(Debug)]
pub struct CrowdsourceMonsterSnapshot {
    pub monster_id: i32,
    pub monster_name: String,
    pub remote_id: String,
}

/// Mathematical image of a snapshot.
pub struct SnapshotModel {
    pub monster_id: i32,
    pub monster_name: Seq<char>,
    pub remote_id: Seq<char>,
}

impl View for CrowdsourceMonsterSnapshot {
    type V = SnapshotModel;

    open spec fn view(&self) -> SnapshotModel {
        SnapshotModel {
            monster_id: self.monster_id,
            monster_name: self.monster_name@,
            remote_id: self.remote_id@,
        }
    }
}

impl Clone for CrowdsourceMonsterSnapshot {
    fn clone(&self) -> (s: CrowdsourceMonsterSnapshot)
        ensures
            s == *self,
    {
        CrowdsourceMonsterSnapshot {
            monster_id: self.monster_id,
            monster_name: self.monster_name.clone(),
            remote_id: self.remote_id.clone(),
        }
    }
}

/// One application-scoped snapshot slot.
pub struct SnapshotStore {
    pub slot: Option<CrowdsourceMonsterSnapshot>,
}

impl View for SnapshotStore {
    type V = Option<SnapshotModel>;

    open spec fn view(&self) -> Option<SnapshotModel> {
        match self.slot {
            Some(s) => Some(s@),
            None => None,
        }
    }
}

impl SnapshotStore {
    /// A store with nothing saved yet; loading from it returns nothing.
    pub fn new() -> (store: SnapshotStore)
        ensures
            store@ is None,
    {
        SnapshotStore { slot: None }
    }

    /// Overwrites the stored snapshot; the previous content is gone.
    pub fn save(&mut self, snapshot: &CrowdsourceMonsterSnapshot)
        ensures
            final(self)@ == Some(snapshot@),
    {
        self.slot = Some(snapshot.clone());
    }

    /// Returns what was last saved, or nothing if nothing ever was.
    pub fn load(&self) -> (r: Option<CrowdsourceMonsterSnapshot>)
        ensures
            match r {
                Some(s) => self@ == Some(s@),
                None => self@ is None,
            },
    {
        match &self.slot {
            Some(s) => Some(s.clone()),
            None => None,
        }
    }
}

/// Saving then loading hands back the very triple that was saved, and a
/// load with nothing saved comes back empty.
pub proof fn lemma_snapshot_round_trip(
    store: SnapshotStore,
    saved: CrowdsourceMonsterSnapshot,
    loaded: CrowdsourceMonsterSnapshot,
)
    requires
        store@ == Some(saved@),
        store@ == Some(loaded@),
    ensures
        loaded@.monster_id == saved@.monster_id,
        loaded@.monster_name == saved@.monster_name,
        loaded@.remote_id == saved@.remote_id,
{
}

} // verus!
