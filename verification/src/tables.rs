//! Immutable reference tables, loaded once at startup and passed in
//! explicitly: monster display names, the crowdsource-eligible subset,
//! and the mapping from monster id to the backend's remote id.

use vstd::prelude::*;
use vstd::utf8::encode_utf8;
use crate::text::has_hyphen;
use crate::text::monster_label;
use crate::text::monster_label_of;
use crate::text::name_le;
use crate::text::compare_names_le;
use crate::text::name_has_hyphen;
use crate::text::lemma_name_le_total;
use crate::text::lemma_name_le_trans;

verus! {

/// The preloaded lookup tables. A monster is crowdsource-eligible
/// exactly when its id appears in `crowdsource_names`.
pub struct ReferenceTables {
    /// General display-name table: monster id to name.
    pub monster_names: Vec<(i32, String)>,
    /// Names of the crowdsource-eligible monsters; membership defines
    /// eligibility.
    pub crowdsource_names: Vec<(i32, String)>,
    /// Monster id to the backend's remote identifier.
    pub crowdsource_remote_ids: Vec<(i32, String)>,
}

/// First name listed for `id`, if any.
pub open spec fn table_lookup(t: Seq<(i32, String)>, id: i32) -> Option<Seq<char>>
    decreases t.len(),
{
    if t.len() == 0 {
        None
    } else if t[0].0 == id {
        Some(t[0].1@)
    } else {
        table_lookup(t.skip(1), id)
    }
}

/// Whether `id` is crowdsource-eligible under `cs_names`.
pub open spec fn is_crowdsourced_spec(cs_names: Seq<(i32, String)>, id: i32) -> bool {
    table_lookup(cs_names, id) is Some
}

/// Display name for a monster id: the crowdsource table first, then the
/// general table, then the synthetic label.
pub open spec fn resolved_name_spec(
    cs_names: Seq<(i32, String)>,
    names: Seq<(i32, String)>,
    id: i32,
) -> Seq<char> {
    match table_lookup(cs_names, id) {
        Some(n) => n,
        None => match table_lookup(names, id) {
            Some(n) => n,
            None => monster_label_of(id as int),
        },
    }
}

/// Rank of a candidate when several monster ids share one remote id:
/// names without a hyphen come first, then lower numeric ids.
pub open spec fn beat_key(id: i32, name: Seq<char>) -> int {
    (if has_hyphen(encode_utf8(name)) {
        0x2_0000_0000int
    } else {
        0int
    }) + id + 0x8000_0000int
}

/// Whether candidate `a` displaces candidate `b` for the same remote id.
pub open spec fn entry_beats(aid: i32, aname: Seq<char>, bid: i32, bname: Seq<char>) -> bool {
    beat_key(aid, aname) < beat_key(bid, bname)
}

/// What it means for `(id, name, remote)` to be the winning candidate of
/// `remote` in the remote-id mapping: it comes from some mapping entry,
/// carries that entry's resolved name, and no entry with the same remote
/// id beats it.
pub open spec fn chosen_for_remote(
    cs_names: Seq<(i32, String)>,
    names: Seq<(i32, String)>,
    rem: Seq<(i32, String)>,
    id: i32,
    name: Seq<char>,
    remote: Seq<char>,
) -> bool {
    &&& exists|j: int| 0 <= j < rem.len() && rem[j].1@ == remote && rem[j].0 == id
    &&& name == resolved_name_spec(cs_names, names, id)
    &&& forall|j: int|
        0 <= j < rem.len() && rem[j].1@ == remote ==> !entry_beats(
            rem[j].0,
            resolved_name_spec(cs_names, names, rem[j].0),
            id,
            name,
        )
}

/// The tie-break rule, read off the chosen candidate: a hyphen-free
/// candidate never loses to a hyphenated one, and between candidates of
/// equal hyphen status the lower id wins.
pub proof fn lemma_remote_tie_break(
    cs_names: Seq<(i32, String)>,
    names: Seq<(i32, String)>,
    rem: Seq<(i32, String)>,
    id: i32,
    name: Seq<char>,
    remote: Seq<char>,
    j: int,
)
    requires
        chosen_for_remote(cs_names, names, rem, id, name, remote),
        0 <= j < rem.len(),
        rem[j].1@ == remote,
    ensures
        !has_hyphen(encode_utf8(resolved_name_spec(cs_names, names, rem[j].0))) ==> !has_hyphen(
            encode_utf8(name),
        ),
        has_hyphen(encode_utf8(resolved_name_spec(cs_names, names, rem[j].0))) == has_hyphen(
            encode_utf8(name),
        ) ==> id <= rem[j].0,
{
}

/// Every remote id among the first `upto` mapping entries has a slot in
/// `out`.
pub open spec fn covers_remotes(
    out: Seq<CrowdsourcedMonsterOption>,
    rem: Seq<(i32, String)>,
    upto: int,
) -> bool {
    forall|j: int|
        0 <= j < upto ==> exists|k: int|
            0 <= k < out.len() && (#[trigger] out[k]).remote_id@ == (#[trigger] rem[j]).1@
}

/// Looks `id` up in one table; clones the first name found.
fn lookup_table(t: &Vec<(i32, String)>, id: i32) -> (r: Option<String>)
    ensures
        match r {
            Some(n) => table_lookup(t@, id) == Some(n@),
            None => table_lookup(t@, id) is None,
        },
{
    let mut i: usize = 0;
    proof {
        assert(t@.skip(0) =~= t@);
    }
    while i < t.len()
        invariant
            0 <= i <= t@.len(),
            table_lookup(t@, id) == table_lookup(t@.skip(i as int), id),
        decreases t@.len() - i,
    {
        proof {
            assert(t@.skip(i as int)[0] == t@[i as int]);
            assert(t@.skip(i as int).skip(1) =~= t@.skip(i + 1));
        }
        if t[i].0 == id {
            return Some(t[i].1.clone());
        }
        i = i + 1;
    }
    None
}

impl ReferenceTables {
    /// Whether a monster id is crowdsource-eligible.
    pub fn is_crowdsourced(&self, id: i32) -> (r: bool)
        ensures
            r == is_crowdsourced_spec(self.crowdsource_names@, id),
    {
        lookup_table(&self.crowdsource_names, id).is_some()
    }

    /// Display name in the crowdsource table, if any.
    pub fn crowdsource_name_of(&self, id: i32) -> (r: Option<String>)
        ensures
            match r {
                Some(n) => table_lookup(self.crowdsource_names@, id) == Some(n@),
                None => table_lookup(self.crowdsource_names@, id) is None,
            },
    {
        lookup_table(&self.crowdsource_names, id)
    }

    /// Display name in the general table, if any.
    pub fn general_name(&self, id: i32) -> (r: Option<String>)
        ensures
            match r {
                Some(n) => table_lookup(self.monster_names@, id) == Some(n@),
                None => table_lookup(self.monster_names@, id) is None,
            },
    {
        lookup_table(&self.monster_names, id)
    }

    /// Remote id mapped to a monster id, if any.
    pub fn remote_id_of(&self, id: i32) -> (r: Option<String>)
        ensures
            match r {
                Some(n) => table_lookup(self.crowdsource_remote_ids@, id) == Some(n@),
                None => table_lookup(self.crowdsource_remote_ids@, id) is None,
            },
    {
        lookup_table(&self.crowdsource_remote_ids, id)
    }

    /// The preferred display name for a monster id.
    pub fn resolved_name(&self, id: i32) -> (r: String)
        ensures
            r@ == resolved_name_spec(self.crowdsource_names@, self.monster_names@, id),
    {
        match lookup_table(&self.crowdsource_names, id) {
            Some(n) => n,
            None => match lookup_table(&self.monster_names, id) {
                Some(n) => n,
                None => monster_label(id),
            },
        }
    }
}

/// Whether candidate `a` displaces candidate `b`.
fn entry_beats_exec(aid: i32, aname: &String, bid: i32, bname: &String) -> (r: bool)
    ensures
        r == entry_beats(aid, aname@, bid, bname@),
{
    let ah = name_has_hyphen(aname.as_str());
    let bh = name_has_hyphen(bname.as_str());
    (!ah && bh) || (ah == bh && aid < bid)
}

/// One selectable crowdsourced monster: the winning candidate for one
/// distinct remote id.
pub struct CrowdsourcedMonsterOption {
    pub name: String,
    pub id: i32,
    pub remote_id: String,
}

impl Clone for CrowdsourcedMonsterOption {
    fn clone(&self) -> (c: CrowdsourcedMonsterOption)
        ensures
            c == *self,
    {
        CrowdsourcedMonsterOption {
            name: self.name.clone(),
            id: self.id,
            remote_id: self.remote_id.clone(),
        }
    }
}

/// Builds the remote-id lookup: one entry per distinct remote id in the
/// mapping table, each the unbeaten candidate for that remote.
pub fn build_remote_lookup(tables: &ReferenceTables) -> (out: Vec<CrowdsourcedMonsterOption>)
    ensures
        forall|k: int|
            0 <= k < out@.len() ==> chosen_for_remote(
                tables.crowdsource_names@,
                tables.monster_names@,
                tables.crowdsource_remote_ids@,
                out@[k].id,
                out@[k].name@,
                out@[k].remote_id@,
            ),
        covers_remotes(out@, tables.crowdsource_remote_ids@, tables.crowdsource_remote_ids@.len() as int),
        forall|k: int, l: int|
            0 <= k < out@.len() && 0 <= l < out@.len() && k != l ==> out@[k].remote_id@
                != out@[l].remote_id@,
{
    let ghost cs = tables.crowdsource_names@;
    let ghost gen = tables.monster_names@;
    let ghost rem = tables.crowdsource_remote_ids@;
    let mut out: Vec<CrowdsourcedMonsterOption> = Vec::new();
    let n = tables.crowdsource_remote_ids.len();
    let mut j: usize = 0;
    while j < n
        invariant
            0 <= j <= n,
            n == rem.len(),
            cs == tables.crowdsource_names@,
            gen == tables.monster_names@,
            rem == tables.crowdsource_remote_ids@,
            forall|k: int|
                0 <= k < out@.len() ==> chosen_for_remote(
                    cs,
                    gen,
                    rem.take(j as int),
                    out@[k].id,
                    out@[k].name@,
                    out@[k].remote_id@,
                ),
            covers_remotes(out@, rem, j as int),
            forall|k: int, l: int|
                0 <= k < out@.len() && 0 <= l < out@.len() && k != l ==> out@[k].remote_id@
                    != out@[l].remote_id@,
        decreases n - j,
    {
        let entry_id = tables.crowdsource_remote_ids[j].0;
        let name = tables.resolved_name(entry_id);
        // find the slot already holding this remote id, if any
        let mut found: Option<usize> = None;
        let mut k: usize = 0;
        while k < out.len()
            invariant
                0 <= k <= out@.len(),
                j < n,
                n == rem.len(),
                rem == tables.crowdsource_remote_ids@,
                match found {
                    Some(f) => 0 <= f < out@.len() && out@[f as int].remote_id@ == rem[j as int].1@,
                    None => forall|m: int|
                        0 <= m < k ==> out@[m].remote_id@ != rem[j as int].1@,
                },
            decreases out@.len() - k,
        {
            if found.is_none() && out[k].remote_id == tables.crowdsource_remote_ids[j].1 {
                found = Some(k);
            }
            k = k + 1;
        }
        proof {
            assert(rem.take(j + 1).take(j as int) =~= rem.take(j as int));
            assert(rem.take(j + 1)[j as int] == rem[j as int]);
        }
        let ghost out_before = out@;
        let ghost mut widx: int = 0;
        match found {
            None => {
                let remote_id = tables.crowdsource_remote_ids[j].1.clone();
                out.push(CrowdsourcedMonsterOption { id: entry_id, name, remote_id });
                proof {
                    widx = out@.len() - 1;
                    // no processed mapping entry carries this remote id,
                    // or a slot would already hold it
                    assert forall|j2: int|
                        0 <= j2 < j && rem[j2].1@ == rem[j as int].1@ implies false by {
                        let k0 = choose|k: int|
                            0 <= k < out_before.len() && (#[trigger] out_before[k]).remote_id@
                                == rem[j2].1@;
                    }
                    assert forall|k2: int| 0 <= k2 < out@.len() implies chosen_for_remote(
                        cs,
                        gen,
                        rem.take(j + 1),
                        out@[k2].id,
                        out@[k2].name@,
                        out@[k2].remote_id@,
                    ) by {
                        if k2 < out@.len() - 1 {
                            assert(out@[k2].remote_id@ != rem[j as int].1@);
                        } else {
                            assert(rem.take(j + 1)[j as int].0 == entry_id);
                        }
                    }
                }
            },
            Some(f) => {
                let cur_id = out[f].id;
                if entry_beats_exec(entry_id, &name, cur_id, &out[f].name) {
                    let remote_id = tables.crowdsource_remote_ids[j].1.clone();
                    let slot = &mut out[f];
                    *slot = CrowdsourcedMonsterOption { id: entry_id, name, remote_id };
                    proof {
                        widx = f as int;
                        // the displaced slot was unbeaten among earlier
                        // candidates; the new one ranks lower still
                        assert forall|k2: int| 0 <= k2 < out@.len() implies chosen_for_remote(
                            cs,
                            gen,
                            rem.take(j + 1),
                            out@[k2].id,
                            out@[k2].name@,
                            out@[k2].remote_id@,
                        ) by {
                            if k2 != f {
                                assert(out@[k2] == out_before[k2]);
                                assert(out@[k2].remote_id@ != out_before[f as int].remote_id@);
                            }
                        }
                    }
                } else {
                    proof {
                        widx = f as int;
                        assert forall|k2: int| 0 <= k2 < out@.len() implies chosen_for_remote(
                            cs,
                            gen,
                            rem.take(j + 1),
                            out@[k2].id,
                            out@[k2].name@,
                            out@[k2].remote_id@,
                        ) by {
                            if k2 != f {
                                assert(out@[k2].remote_id@ != out@[f as int].remote_id@);
                            }
                        }
                    }
                }
            },
        }
        proof {
            assert(0 <= widx < out@.len() && out@[widx].remote_id@ == rem[j as int].1@);
            assert forall|j2: int| 0 <= j2 < j + 1 implies exists|k: int|
                0 <= k < out@.len() && (#[trigger] out@[k]).remote_id@ == (
            #[trigger] rem[j2]).1@ by {
                if j2 < j {
                    let k0 = choose|k: int|
                        0 <= k < out_before.len() && (#[trigger] out_before[k]).remote_id@
                            == rem[j2].1@;
                    assert(0 <= k0 < out@.len() && out@[k0].remote_id@ == rem[j2].1@);
                } else {
                    assert(out@[widx].remote_id@ == rem[j2].1@);
                }
            }
        }
        j = j + 1;
    }
    proof {
        assert(rem.take(n as int) =~= rem);
    }
    out
}

/// Resolves a backend remote id to its winning monster id and display
/// name; `None` when the remote id is not in the mapping table.
pub fn resolve_crowdsource_remote(tables: &ReferenceTables, remote_id: &str) -> (r: Option<
    (i32, String),
>)
    ensures
        match r {
            Some(p) => chosen_for_remote(
                tables.crowdsource_names@,
                tables.monster_names@,
                tables.crowdsource_remote_ids@,
                p.0,
                p.1@,
                remote_id@,
            ),
            None => forall|j: int|
                0 <= j < tables.crowdsource_remote_ids@.len() ==> (
                #[trigger] tables.crowdsource_remote_ids@[j]).1@ != remote_id@,
        },
{
    let ghost rem = tables.crowdsource_remote_ids@;
    let lookup = build_remote_lookup(tables);
    let target = remote_id.to_owned();
    let mut k: usize = 0;
    while k < lookup.len()
        invariant
            0 <= k <= lookup@.len(),
            target@ == remote_id@,
            forall|m: int| 0 <= m < k ==> (#[trigger] lookup@[m]).remote_id@ != remote_id@,
            forall|k2: int|
                0 <= k2 < lookup@.len() ==> chosen_for_remote(
                    tables.crowdsource_names@,
                    tables.monster_names@,
                    rem,
                    (#[trigger] lookup@[k2]).id,
                    lookup@[k2].name@,
                    lookup@[k2].remote_id@,
                ),
            covers_remotes(lookup@, rem, rem.len() as int),
            rem == tables.crowdsource_remote_ids@,
        decreases lookup@.len() - k,
    {
        if lookup[k].remote_id == target {
            return Some((lookup[k].id, lookup[k].name.clone()));
        }
        k = k + 1;
    }
    proof {
        assert forall|j: int| 0 <= j < rem.len() implies (#[trigger] rem[j]).1@ != remote_id@ by {
            let k0 = choose|k2: int|
                0 <= k2 < lookup@.len() && (#[trigger] lookup@[k2]).remote_id@ == rem[j].1@;
        }
    }
    None
}

/// Some choice tuple carries this remote id.
pub open spec fn tuples_have_remote(out: Seq<(i32, String, String)>, remote: Seq<char>) -> bool {
    exists|k: int| 0 <= k < out.len() && (#[trigger] out[k]).2@ == remote
}

/// Every remote id in the mapping table appears among the choice tuples.
pub open spec fn tuples_cover_remotes(
    out: Seq<(i32, String, String)>,
    rem: Seq<(i32, String)>,
) -> bool {
    forall|j: int| 0 <= j < rem.len() ==> #[trigger] tuples_have_remote(out, rem[j].1@)
}

/// Adjacent entries stand in case-insensitive name order.
pub open spec fn choices_sorted(s: Seq<(i32, String, String)>) -> bool {
    forall|k: int| 0 <= k < s.len() - 1 ==> name_le((#[trigger] s[k]).1@, s[k + 1].1@)
}

/// Sorts selection entries case-insensitively by display name, keeping
/// exactly the same entries.
fn sort_choices(v: Vec<(i32, String, String)>) -> (out: Vec<(i32, String, String)>)
    ensures
        out@.to_multiset() == v@.to_multiset(),
        choices_sorted(out@),
{
    broadcast use vstd::seq_lib::group_to_multiset_ensures;

    let mut rest = v;
    let mut out: Vec<(i32, String, String)> = Vec::new();
    proof {
        assert(out@.to_multiset().add(rest@.to_multiset()) =~= v@.to_multiset());
    }
    while rest.len() > 0
        invariant
            out@.to_multiset().add(rest@.to_multiset()) == v@.to_multiset(),
            choices_sorted(out@),
            forall|a: int, b: int|
                0 <= a < out@.len() && 0 <= b < rest@.len() ==> name_le(
                    (#[trigger] out@[a]).1@,
                    (#[trigger] rest@[b]).1@,
                ),
        decreases rest@.len(),
    {
        let mut m: usize = 0;
        let mut i: usize = 1;
        proof {
            lemma_name_le_total(rest@[0].1@, rest@[0].1@);
        }
        while i < rest.len()
            invariant
                0 <= m < i <= rest@.len(),
                rest@.len() > 0,
                forall|q: int| 0 <= q < i ==> name_le(rest@[m as int].1@, (#[trigger] rest@[q]).1@),
            decreases rest@.len() - i,
        {
            if compare_names_le(&rest[i].1, &rest[m].1) {
                proof {
                    assert forall|q: int| 0 <= q < i + 1 implies name_le(
                        rest@[i as int].1@,
                        (#[trigger] rest@[q]).1@,
                    ) by {
                        if q < i {
                            lemma_name_le_trans(
                                rest@[i as int].1@,
                                rest@[m as int].1@,
                                rest@[q].1@,
                            );
                        } else {
                            lemma_name_le_total(rest@[i as int].1@, rest@[i as int].1@);
                        }
                    }
                }
                m = i;
            } else {
                proof {
                    lemma_name_le_total(rest@[i as int].1@, rest@[m as int].1@);
                }
            }
            i = i + 1;
        }
        let ghost old_rest = rest@;
        let ghost old_out = out@;
        let x = rest.remove(m);
        out.push(x);
        proof {
            old_rest.to_multiset_ensures();
            old_out.to_multiset_ensures();
            assert(out@.to_multiset().add(rest@.to_multiset()) =~= v@.to_multiset());
        }
    }
    proof {
        assert(out@.to_multiset().add(rest@.to_multiset()) =~= out@.to_multiset());
    }
    out
}

/// The selectable crowdsourced monsters, one per distinct remote id,
/// each carrying `(monster id, display name, remote id)`, sorted
/// case-insensitively by display name.
pub fn get_crowdsource_monster_choices(tables: &ReferenceTables) -> (out: Vec<
    (i32, String, String),
>)
    ensures
        choices_sorted(out@),
        forall|k: int|
            0 <= k < out@.len() ==> chosen_for_remote(
                tables.crowdsource_names@,
                tables.monster_names@,
                tables.crowdsource_remote_ids@,
                (#[trigger] out@[k]).0,
                out@[k].1@,
                out@[k].2@,
            ),
        tuples_cover_remotes(out@, tables.crowdsource_remote_ids@),
        forall|k: int, l: int|
            0 <= k < out@.len() && 0 <= l < out@.len() && k != l ==> (#[trigger] out@[k]).2@ != (
            #[trigger] out@[l]).2@,
{
    broadcast use vstd::seq_lib::group_to_multiset_ensures;

    let ghost cs = tables.crowdsource_names@;
    let ghost gen = tables.monster_names@;
    let ghost rem = tables.crowdsource_remote_ids@;
    let lookup = build_remote_lookup(tables);
    let mut tuples: Vec<(i32, String, String)> = Vec::new();
    let mut idx: usize = 0;
    while idx < lookup.len()
        invariant
            0 <= idx <= lookup@.len(),
            tuples@.len() == idx,
            forall|m: int|
                0 <= m < idx ==> (#[trigger] tuples@[m]) == (
                    lookup@[m].id,
                    lookup@[m].name,
                    lookup@[m].remote_id,
                ),
        decreases lookup@.len() - idx,
    {
        tuples.push((lookup[idx].id, lookup[idx].name.clone(), lookup[idx].remote_id.clone()));
        idx = idx + 1;
    }
    let out = sort_choices(tuples);
    proof {
        tuples@.to_multiset_ensures();
        out@.to_multiset_ensures();
        assert forall|k: int| 0 <= k < out@.len() implies chosen_for_remote(
            cs,
            gen,
            rem,
            (#[trigger] out@[k]).0,
            out@[k].1@,
            out@[k].2@,
        ) by {
            assert(out@.to_multiset().count(out@[k]) > 0);
            assert(tuples@.contains(out@[k]));
            let m = choose|m: int| 0 <= m < tuples@.len() && tuples@[m] == out@[k];
        }
        assert forall|j: int| 0 <= j < rem.len() implies #[trigger] tuples_have_remote(
            out@,
            rem[j].1@,
        ) by {
            let k0 = choose|k2: int|
                0 <= k2 < lookup@.len() && (#[trigger] lookup@[k2]).remote_id@ == rem[j].1@;
            assert(tuples@[k0] == (lookup@[k0].id, lookup@[k0].name, lookup@[k0].remote_id));
            assert(tuples@.to_multiset().count(tuples@[k0]) > 0);
            assert(out@.contains(tuples@[k0]));
            let k1 = choose|k2: int| 0 <= k2 < out@.len() && out@[k2] == tuples@[k0];
            assert(out@[k1].2@ == rem[j].1@);
        }
        // distinct remote ids in the lookup give distinct tuples, and the
        // sort only rearranges them
        assert forall|i: int, j2: int|
            0 <= i < tuples@.len() && 0 <= j2 < tuples@.len() && i != j2 implies tuples@[i]
            != tuples@[j2] by {
            assert(tuples@[i].2@ == lookup@[i].remote_id@);
            assert(tuples@[j2].2@ == lookup@[j2].remote_id@);
        }
        tuples@.lemma_multiset_has_no_duplicates();
        out@.lemma_multiset_has_no_duplicates_conv();
        assert forall|k: int, l: int|
            0 <= k < out@.len() && 0 <= l < out@.len() && k != l implies (#[trigger] out@[k]).2@
            != (#[trigger] out@[l]).2@ by {
            assert(out@.to_multiset().count(out@[k]) > 0);
            assert(out@.to_multiset().count(out@[l]) > 0);
            assert(tuples@.contains(out@[k]));
            assert(tuples@.contains(out@[l]));
            let i = choose|i: int| 0 <= i < tuples@.len() && tuples@[i] == out@[k];
            let j2 = choose|j3: int| 0 <= j3 < tuples@.len() && tuples@[j3] == out@[l];
            assert(out@[k] != out@[l]);
            assert(tuples@[i].2@ != tuples@[j2].2@);
        }
    }
    out
}

} // verus!
