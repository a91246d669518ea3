//! Applying attribute batches to tracked entities: the merge rules for
//! players and monsters, and the health-report decisions a monster batch
//! gives rise to.

use vstd::prelude::*;
use vstd::slice::slice_subrange;
use crate::entity::Entity;
use crate::entity::EntityModel;
use crate::report::HpReport;
use crate::report::hp_pct;
use crate::report::hp_pct_spec;
use crate::report::should_report;
use crate::report::should_report_spec;
use crate::tables::ReferenceTables;
use crate::tables::is_crowdsourced_spec;
use crate::varint::decode_varint;
use crate::varint::decoded_string;
use crate::varint::i32_of_u64;
use crate::varint::read_string;
use crate::varint::u64_to_i32;
use crate::varint::varint_ok;
use crate::varint::varint_value;
use crate::wire::ATTR_HP;
use crate::wire::ATTR_ID;
use crate::wire::ATTR_MAX_HP;
use crate::wire::ATTR_NAME;
use crate::wire::Attr;
use crate::wire::AttrModel;
use crate::wire::SyncContainerData;
use crate::wire::attrs_view;

verus! {

/// The signed 32-bit value an attribute blob decodes to, if its varint
/// is well formed.
pub open spec fn attr_i32(raw: Seq<u8>) -> Option<int> {
    if varint_ok(raw) {
        Some(i32_of_u64(varint_value(raw)->Some_0 as u64))
    } else {
        None
    }
}

/// What one attribute does to a player entity: a well-formed name
/// attribute sets the display name; everything else is ignored.
pub open spec fn player_step(m: EntityModel, a: AttrModel) -> EntityModel {
    match (a.id, a.raw) {
        (Some(id), Some(raw)) => {
            if id == ATTR_NAME && raw.len() >= 1 && decoded_string(raw.skip(1)) is Some {
                EntityModel { name: Some(decoded_string(raw.skip(1))->Some_0), ..m }
            } else {
                m
            }
        },
        _ => m,
    }
}

/// A player entity after a whole attribute batch, processed in order
/// from index `i`.
pub open spec fn player_attrs_from(m: EntityModel, attrs: Seq<AttrModel>, i: int) -> EntityModel
    decreases attrs.len() - i,
{
    if i < 0 || i >= attrs.len() {
        m
    } else {
        player_attrs_from(player_step(m, attrs[i]), attrs, i + 1)
    }
}

/// The report a current-health update gives rise to, if any: the entity
/// must already have a monster id and a positive maximum, the local
/// player's line and position must be known, the monster must be
/// crowdsource-eligible, and the dedup rule must fire.
pub open spec fn hp_report_for(
    m: EntityModel,
    new_hp: int,
    pos: Option<(i32, u32, u32)>,
    cs_names: Seq<(i32, String)>,
) -> Option<HpReport> {
    match (m.monster_id, pos, m.max_hp) {
        (Some(mid), Some((line, x, y)), Some(mx)) => {
            if mx > 0 && is_crowdsourced_spec(cs_names, mid) {
                let new_pct = hp_pct_spec(new_hp, mx as int);
                let old_pct = match m.curr_hp {
                    Some(p) => Some(hp_pct_spec(p as int, mx as int)),
                    None => None,
                };
                if should_report_spec(old_pct, new_pct) {
                    Some(
                        HpReport {
                            monster_id: mid,
                            hp_pct: new_pct as i32,
                            line: line,
                            pos_x_bits: x,
                            pos_y_bits: y,
                        },
                    )
                } else {
                    None
                }
            } else {
                None
            }
        },
        _ => None,
    }
}

/// What one attribute does to a monster entity, and the report it emits:
/// id and maximum-health attributes fill their fields, a current-health
/// attribute fills its field and may emit a report; a malformed varint
/// skips that attribute alone.
pub open spec fn monster_step(
    m: EntityModel,
    a: AttrModel,
    pos: Option<(i32, u32, u32)>,
    cs_names: Seq<(i32, String)>,
) -> (EntityModel, Option<HpReport>) {
    match (a.id, a.raw) {
        (Some(id), Some(raw)) => {
            if id == ATTR_ID {
                match attr_i32(raw) {
                    Some(v) => (EntityModel { monster_id: Some(v as i32), ..m }, None),
                    None => (m, None),
                }
            } else if id == ATTR_HP {
                match attr_i32(raw) {
                    Some(v) => (
                        EntityModel { curr_hp: Some(v as i32), ..m },
                        hp_report_for(m, v, pos, cs_names),
                    ),
                    None => (m, None),
                }
            } else if id == ATTR_MAX_HP {
                match attr_i32(raw) {
                    Some(v) => (EntityModel { max_hp: Some(v as i32), ..m }, None),
                    None => (m, None),
                }
            } else {
                (m, None)
            }
        },
        _ => (m, None),
    }
}

/// A monster entity and the emitted reports after a whole attribute
/// batch, processed in order from index `i`.
pub open spec fn monster_attrs_from(
    m: EntityModel,
    attrs: Seq<AttrModel>,
    i: int,
    pos: Option<(i32, u32, u32)>,
    cs_names: Seq<(i32, String)>,
) -> (EntityModel, Seq<HpReport>)
    decreases attrs.len() - i,
{
    if i < 0 || i >= attrs.len() {
        (m, Seq::empty())
    } else {
        let (m1, rep) = monster_step(m, attrs[i], pos, cs_names);
        let (m2, reps) = monster_attrs_from(m1, attrs, i + 1, pos, cs_names);
        (
            m2,
            match rep {
                Some(r) => seq![r] + reps,
                None => reps,
            },
        )
    }
}

proof fn lemma_hp_pct_spec_bounds(curr: int, max: int)
    requires
        max > 0,
    ensures
        0 <= hp_pct_spec(curr, max) <= 100,
{
    if curr > 0 {
        assert(curr * 100 / max >= 0) by (nonlinear_arith)
            requires
                curr > 0,
                max > 0,
        ;
    }
}

/// Every report a monster attribute batch emits carries a percentage
/// within zero and one hundred, whatever the wire said.
pub proof fn lemma_reports_bounded(
    m: EntityModel,
    attrs: Seq<AttrModel>,
    i: int,
    pos: Option<(i32, u32, u32)>,
    cs_names: Seq<(i32, String)>,
)
    ensures
        ({
            let reps = monster_attrs_from(m, attrs, i, pos, cs_names).1;
            forall|k: int| 0 <= k < reps.len() ==> 0 <= (#[trigger] reps[k]).hp_pct <= 100
        }),
    decreases attrs.len() - i,
{
    if 0 <= i < attrs.len() {
        let stepped = monster_step(m, attrs[i], pos, cs_names);
        lemma_reports_bounded(stepped.0, attrs, i + 1, pos, cs_names);
        let reps = monster_attrs_from(m, attrs, i, pos, cs_names).1;
        let rest = monster_attrs_from(stepped.0, attrs, i + 1, pos, cs_names).1;
        match stepped.1 {
            Some(r) => {
                match (m.monster_id, pos, m.max_hp) {
                    (Some(mid), Some(p), Some(mx)) => {
                        if mx > 0 {
                            lemma_hp_pct_spec_bounds(
                                attr_i32(attrs[i].raw->Some_0)->Some_0,
                                mx as int,
                            );
                        }
                    },
                    _ => {},
                }
                assert(0 <= r.hp_pct <= 100);
                assert forall|k: int| 0 <= k < reps.len() implies 0 <= (
                #[trigger] reps[k]).hp_pct <= 100 by {
                    if k == 0 {
                        assert(reps[k] == r);
                    } else {
                        assert(reps[k] == rest[k - 1]);
                    }
                }
            },
            None => {},
        }
    }
}

/// A borrowed optional record, seen as an owned one.
pub open spec fn lp_view(lp: Option<&SyncContainerData>) -> Option<SyncContainerData> {
    match lp {
        Some(p) => Some(*p),
        None => None,
    }
}

/// The line, x and y the local player's container record pins down, when
/// every link of the chain is present.
pub open spec fn report_position(lp: Option<SyncContainerData>) -> Option<(i32, u32, u32)> {
    match lp {
        Some(p) => match p.v_data {
            Some(v) => match v.scene_data {
                Some(sc) => match (sc.line_id, sc.pos) {
                    (Some(line), Some(pos)) => match (pos.x_bits, pos.y_bits) {
                        (Some(x), Some(y)) => Some((line, x, y)),
                        _ => None,
                    },
                    _ => None,
                },
                None => None,
            },
            None => None,
        },
        None => None,
    }
}

/// Extracts the local player's reportable line and position.
pub fn scene_report_position(local_player: Option<&SyncContainerData>) -> (r: Option<
    (i32, u32, u32),
>)
    ensures
        r == report_position(lp_view(local_player)),
{
    match local_player {
        Some(p) => match &p.v_data {
            Some(v) => match &v.scene_data {
                Some(sc) => match (sc.line_id, &sc.pos) {
                    (Some(line), Some(pos)) => match (pos.x_bits, pos.y_bits) {
                        (Some(x), Some(y)) => Some((line, x, y)),
                        _ => None,
                    },
                    _ => None,
                },
                None => None,
            },
            None => None,
        },
        None => None,
    }
}

/// Applies a player attribute batch: only well-formed name attributes
/// take effect, the last one winning.
pub fn process_player_attrs(player_entity: &mut Entity, attrs: &Vec<Attr>)
    ensures
        final(player_entity)@ == player_attrs_from(old(player_entity)@, attrs_view(attrs@), 0),
{
    let ghost va = attrs_view(attrs@);
    let mut i: usize = 0;
    while i < attrs.len()
        invariant
            0 <= i <= attrs@.len(),
            va == attrs_view(attrs@),
            player_attrs_from(old(player_entity)@, va, 0) == player_attrs_from(
                player_entity@,
                va,
                i as int,
            ),
        decreases attrs@.len() - i,
    {
        let a = &attrs[i];
        let ghost before = player_entity@;
        if let Some(id) = a.id {
            if id == ATTR_NAME {
                if let Some(raw) = &a.raw_data {
                    if raw.len() >= 1 {
                        let rest = slice_subrange(raw.as_slice(), 1, raw.len());
                        proof {
                            assert(rest@ =~= va[i as int].raw->Some_0.skip(1));
                        }
                        match read_string(rest) {
                            Some(nm) => {
                                player_entity.name = Some(nm);
                            },
                            None => {},
                        }
                    }
                }
            }
        }
        proof {
            assert(player_entity@ == player_step(before, va[i as int]));
        }
        i = i + 1;
    }
}

/// Applies a monster attribute batch, appending any reports the
/// current-health updates give rise to.
pub fn process_monster_attrs(
    monster_entity: &mut Entity,
    attrs: &Vec<Attr>,
    local_player: Option<&SyncContainerData>,
    tables: &ReferenceTables,
    reports: &mut Vec<HpReport>,
)
    ensures
        ({
            let r = monster_attrs_from(
                old(monster_entity)@,
                attrs_view(attrs@),
                0,
                report_position(lp_view(local_player)),
                tables.crowdsource_names@,
            );
            &&& final(monster_entity)@ == r.0
            &&& final(reports)@ == old(reports)@ + r.1
        }),
{
    let ghost va = attrs_view(attrs@);
    let ghost cs = tables.crowdsource_names@;
    let ghost old_reps = old(reports)@;
    let pos = scene_report_position(local_player);
    let mut i: usize = 0;
    while i < attrs.len()
        invariant
            0 <= i <= attrs@.len(),
            va == attrs_view(attrs@),
            cs == tables.crowdsource_names@,
            pos == report_position(lp_view(local_player)),
            old_reps == old(reports)@,
            reports@.len() >= old_reps.len(),
            reports@.subrange(0, old_reps.len() as int) == old_reps,
            monster_attrs_from(old(monster_entity)@, va, 0, pos, cs).0 == monster_attrs_from(
                monster_entity@,
                va,
                i as int,
                pos,
                cs,
            ).0,
            monster_attrs_from(old(monster_entity)@, va, 0, pos, cs).1 == reports@.skip(
                old_reps.len() as int,
            ) + monster_attrs_from(monster_entity@, va, i as int, pos, cs).1,
        decreases attrs@.len() - i,
    {
        let a = &attrs[i];
        let ghost before = monster_entity@;
        let ghost reps_before = reports@;
        if a.id.is_some() && a.raw_data.is_some() {
            let id = a.id.unwrap();
            let raw = a.raw_data.as_ref().unwrap();
            if id == ATTR_ID {
                match decode_varint(raw.as_slice()) {
                    Some((v, _n)) => {
                        monster_entity.monster_id = Some(u64_to_i32(v));
                    },
                    None => {},
                }
            } else if id == ATTR_HP {
                match decode_varint(raw.as_slice()) {
                    Some((v, _n)) => {
                        let curr = u64_to_i32(v);
                        let prev = monster_entity.curr_hp;
                        monster_entity.curr_hp = Some(curr);
                        if let (Some(mid), Some((line, x, y))) = (monster_entity.monster_id, pos) {
                            if let Some(mx) = monster_entity.max_hp {
                                if mx > 0 && tables.is_crowdsourced(mid) {
                                    let new_pct = hp_pct(curr, mx);
                                    let old_pct = match prev {
                                        Some(p) => Some(hp_pct(p, mx)),
                                        None => None,
                                    };
                                    if should_report(old_pct, new_pct) {
                                        reports.push(
                                            HpReport {
                                                monster_id: mid,
                                                hp_pct: new_pct,
                                                line: line,
                                                pos_x_bits: x,
                                                pos_y_bits: y,
                                            },
                                        );
                                    }
                                }
                            }
                        }
                    },
                    None => {},
                }
            } else if id == ATTR_MAX_HP {
                match decode_varint(raw.as_slice()) {
                    Some((v, _n)) => {
                        monster_entity.max_hp = Some(u64_to_i32(v));
                    },
                    None => {},
                }
            }
        }
        proof {
            let step = monster_step(before, va[i as int], pos, cs);
            assert(monster_entity@ == step.0);
            match step.1 {
                Some(r) => {
                    assert(reports@ == reps_before.push(r));
                    assert(reports@.subrange(0, old_reps.len() as int) =~= reps_before.subrange(
                        0,
                        old_reps.len() as int,
                    ));
                    assert(reports@.skip(old_reps.len() as int) =~= reps_before.skip(
                        old_reps.len() as int,
                    ) + seq![r]);
                    assert(reps_before.skip(old_reps.len() as int) + (seq![r]
                        + monster_attrs_from(monster_entity@, va, i + 1, pos, cs).1) =~= reports@.skip(
                        old_reps.len() as int,
                    ) + monster_attrs_from(monster_entity@, va, i + 1, pos, cs).1);
                },
                None => {
                    assert(reports@ == reps_before);
                },
            }
        }
        i = i + 1;
    }
    proof {
        assert(reports@ =~= reports@.subrange(0, old_reps.len() as int) + reports@.skip(
            old_reps.len() as int,
        ));
    }
}

} // verus!
