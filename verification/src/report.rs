//! Health-percentage computation and the report dedup policy.

use vstd::prelude::*;

verus! {

/// One outbound health report, ready for the application layer to submit.
///
/// Positions travel through this core as the raw bit patterns of the
/// transport's 32-bit values; the application layer converts them for the
/// wire body. No arithmetic is ever done on them here.
#[derive(PartialEq, Eq, Structural, Clone, Copy, Debug)]
pub struct HpReport {
    pub monster_id: i32,
    pub hp_pct: i32,
    pub line: i32,
    pub pos_x_bits: u32,
    pub pos_y_bits: u32,
}

/// Health percentage of `curr_hp` out of `max_hp`, clamped into `[0, 100]`.
pub open spec fn hp_pct_spec(curr_hp: int, max_hp: int) -> int
    recommends
        max_hp > 0,
{
    if curr_hp <= 0 {
        0
    } else if curr_hp * 100 / max_hp >= 100 {
        100
    } else {
        curr_hp * 100 / max_hp
    }
}

/// The clamped health percentage; always within `[0, 100]`.
pub fn hp_pct(curr_hp: i32, max_hp: i32) -> (pct: i32)
    requires
        max_hp > 0,
    ensures
        pct == hp_pct_spec(curr_hp as int, max_hp as int),
        0 <= pct <= 100,
{
    if curr_hp <= 0 {
        0
    } else {
        let wide: u64 = (curr_hp as u64) * 100 / (max_hp as u64);
        if wide >= 100 {
            100
        } else {
            wide as i32
        }
    }
}

/// The report dedup rule: a first observation is always reported; after
/// that, only a change that lands exactly on a multiple of five percent.
pub open spec fn should_report_spec(old_pct: Option<int>, new_pct: int) -> bool {
    match old_pct {
        None => true,
        Some(p) => p != new_pct && new_pct % 5 == 0,
    }
}

/// Decides whether a health-percentage transition is worth a report.
pub fn should_report(old_pct: Option<i32>, new_pct: i32) -> (r: bool)
    ensures
        r == should_report_spec(
            match old_pct {
                Some(p) => Some(p as int),
                None => None,
            },
            new_pct as int,
        ),
{
    match old_pct {
        None => true,
        Some(p) => p != new_pct && new_pct % 5 == 0,
    }
}

} // verus!
