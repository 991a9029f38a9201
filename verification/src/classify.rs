//! The snapshot classifier: partitions one turn's rows into per-kind
//! collections, in insertion order, and identifies the three units owned by
//! the controlling side.
//!
//! Kind codes 0 through 6 map to Reaper, Destroyer, Doof, Tanker, Wreck,
//! TarPool, OilPool; rows with any other code are silently dropped. When
//! several rows of a singleton kind carry the controlling owner, the last
//! one in row order wins.

use vstd::prelude::*;
use crate::entities::Destroyer;
use crate::entities::Doof;
use crate::entities::OilPool;
use crate::entities::Reaper;
use crate::entities::TarPool;
use crate::entities::Tanker;
use crate::entities::Unit;
use crate::entities::Wreck;
use crate::entities::unit_record;
use crate::entities::tanker_throttle_milli;
use crate::entities::DESTROYER_FRICTION_MILLI;
use crate::entities::DOOF_FRICTION_MILLI;
use crate::entities::REAPER_FRICTION_MILLI;
use crate::entities::TANKER_FRICTION_MILLI;

verus! {

/// Kind code of a Reaper row.
pub const KIND_REAPER: i32 = 0;

/// Kind code of a Destroyer row.
pub const KIND_DESTROYER: i32 = 1;

/// Kind code of a Doof row.
pub const KIND_DOOF: i32 = 2;

/// Kind code of a Tanker row.
pub const KIND_TANKER: i32 = 3;

/// Kind code of a Wreck row.
pub const KIND_WRECK: i32 = 4;

/// Kind code of a TarPool row.
pub const KIND_TAR_POOL: i32 = 5;

/// Kind code of an OilPool row.
pub const KIND_OIL_POOL: i32 = 6;

/// One already-split snapshot row: the eleven scalar fields the snapshot
/// source yields per object, mass in thousandths.
#[derive(Clone, Copy, Debug, PartialEq, Eq, Structural)]
pub struct Row {
    pub unit_id: i32,
    pub unit_type: i32,
    pub player: i32,
    pub mass_milli: i64,
    pub radius: i32,
    pub x: i32,
    pub y: i32,
    pub vx: i32,
    pub vy: i32,
    pub extra: i32,
    pub extra_2: i32,
}

/// The body described by a row.
pub open spec fn unit_of_row(r: Row) -> Unit {
    unit_record(r.unit_id, r.unit_type, r.player, r.mass_milli, r.radius, r.x, r.y, r.vx, r.vy)
}

/// The Reaper described by a row.
pub open spec fn reaper_of_row(r: Row) -> Reaper {
    Reaper { unit: unit_of_row(r), friction_milli: REAPER_FRICTION_MILLI }
}

/// The Destroyer described by a row.
pub open spec fn destroyer_of_row(r: Row) -> Destroyer {
    Destroyer { unit: unit_of_row(r), friction_milli: DESTROYER_FRICTION_MILLI }
}

/// The Doof described by a row.
pub open spec fn doof_of_row(r: Row) -> Doof {
    Doof { unit: unit_of_row(r), friction_milli: DOOF_FRICTION_MILLI }
}

/// The Tanker described by a row.
pub open spec fn tanker_of_row(r: Row) -> Tanker {
    Tanker {
        unit: unit_of_row(r),
        friction_milli: TANKER_FRICTION_MILLI,
        throttle_milli: tanker_throttle_milli(r.extra) as i64,
        water_quantity: r.extra,
        water_capacity: r.extra_2,
    }
}

/// The Wreck described by a row.
pub open spec fn wreck_of_row(r: Row) -> Wreck {
    Wreck { unit: unit_of_row(r), water_quantity: r.extra }
}

/// The TarPool described by a row.
pub open spec fn tar_pool_of_row(r: Row) -> TarPool {
    TarPool { unit: unit_of_row(r) }
}

/// The OilPool described by a row.
pub open spec fn oil_pool_of_row(r: Row) -> OilPool {
    OilPool { unit: unit_of_row(r) }
}

/// The Reapers of a snapshot, in row order.
pub open spec fn reapers_of(rows: Seq<Row>) -> Seq<Reaper>
    decreases rows.len(),
{
    if rows.len() == 0 {
        Seq::empty()
    } else if rows.last().unit_type == KIND_REAPER {
        reapers_of(rows.drop_last()).push(reaper_of_row(rows.last()))
    } else {
        reapers_of(rows.drop_last())
    }
}

/// The Destroyers of a snapshot, in row order.
pub open spec fn destroyers_of(rows: Seq<Row>) -> Seq<Destroyer>
    decreases rows.len(),
{
    if rows.len() == 0 {
        Seq::empty()
    } else if rows.last().unit_type == KIND_DESTROYER {
        destroyers_of(rows.drop_last()).push(destroyer_of_row(rows.last()))
    } else {
        destroyers_of(rows.drop_last())
    }
}

/// The Doofs of a snapshot, in row order.
pub open spec fn doofs_of(rows: Seq<Row>) -> Seq<Doof>
    decreases rows.len(),
{
    if rows.len() == 0 {
        Seq::empty()
    } else if rows.last().unit_type == KIND_DOOF {
        doofs_of(rows.drop_last()).push(doof_of_row(rows.last()))
    } else {
        doofs_of(rows.drop_last())
    }
}

/// The Tankers of a snapshot, in row order.
pub open spec fn tankers_of(rows: Seq<Row>) -> Seq<Tanker>
    decreases rows.len(),
{
    if rows.len() == 0 {
        Seq::empty()
    } else if rows.last().unit_type == KIND_TANKER {
        tankers_of(rows.drop_last()).push(tanker_of_row(rows.last()))
    } else {
        tankers_of(rows.drop_last())
    }
}

/// The Wrecks of a snapshot, in row order.
pub open spec fn wrecks_of(rows: Seq<Row>) -> Seq<Wreck>
    decreases rows.len(),
{
    if rows.len() == 0 {
        Seq::empty()
    } else if rows.last().unit_type == KIND_WRECK {
        wrecks_of(rows.drop_last()).push(wreck_of_row(rows.last()))
    } else {
        wrecks_of(rows.drop_last())
    }
}

/// The TarPools of a snapshot, in row order.
pub open spec fn tar_pools_of(rows: Seq<Row>) -> Seq<TarPool>
    decreases rows.len(),
{
    if rows.len() == 0 {
        Seq::empty()
    } else if rows.last().unit_type == KIND_TAR_POOL {
        tar_pools_of(rows.drop_last()).push(tar_pool_of_row(rows.last()))
    } else {
        tar_pools_of(rows.drop_last())
    }
}

/// The OilPools of a snapshot, in row order.
pub open spec fn oil_pools_of(rows: Seq<Row>) -> Seq<OilPool>
    decreases rows.len(),
{
    if rows.len() == 0 {
        Seq::empty()
    } else if rows.last().unit_type == KIND_OIL_POOL {
        oil_pools_of(rows.drop_last()).push(oil_pool_of_row(rows.last()))
    } else {
        oil_pools_of(rows.drop_last())
    }
}

/// The controlling side's Reaper: the last row of that kind and owner.
pub open spec fn my_reaper_of(rows: Seq<Row>, me: i32) -> Option<Reaper>
    decreases rows.len(),
{
    if rows.len() == 0 {
        None
    } else if rows.last().unit_type == KIND_REAPER && rows.last().player == me {
        Some(reaper_of_row(rows.last()))
    } else {
        my_reaper_of(rows.drop_last(), me)
    }
}

/// The controlling side's Destroyer: the last row of that kind and owner.
pub open spec fn my_destroyer_of(rows: Seq<Row>, me: i32) -> Option<Destroyer>
    decreases rows.len(),
{
    if rows.len() == 0 {
        None
    } else if rows.last().unit_type == KIND_DESTROYER && rows.last().player == me {
        Some(destroyer_of_row(rows.last()))
    } else {
        my_destroyer_of(rows.drop_last(), me)
    }
}

/// The controlling side's Doof: the last row of that kind and owner.
pub open spec fn my_doof_of(rows: Seq<Row>, me: i32) -> Option<Doof>
    decreases rows.len(),
{
    if rows.len() == 0 {
        None
    } else if rows.last().unit_type == KIND_DOOF && rows.last().player == me {
        Some(doof_of_row(rows.last()))
    } else {
        my_doof_of(rows.drop_last(), me)
    }
}

/// One turn's classified snapshot: the seven per-kind collections in row
/// order, and the controlling side's three units where present.
#[derive(Debug)]
pub struct TurnContext {
    pub reapers: Vec<Reaper>,
    pub destroyers: Vec<Destroyer>,
    pub doofs: Vec<Doof>,
    pub tankers: Vec<Tanker>,
    pub wrecks: Vec<Wreck>,
    pub tar_pools: Vec<TarPool>,
    pub oil_pools: Vec<OilPool>,
    pub my_reaper: Option<Reaper>,
    pub my_destroyer: Option<Destroyer>,
    pub my_doof: Option<Doof>,
}

/// `ctx` is exactly the classification of `rows` for controlling side `me`.
pub open spec fn is_classification_of(ctx: TurnContext, rows: Seq<Row>, me: i32) -> bool {
    &&& ctx.reapers@ == reapers_of(rows)
    &&& ctx.destroyers@ == destroyers_of(rows)
    &&& ctx.doofs@ == doofs_of(rows)
    &&& ctx.tankers@ == tankers_of(rows)
    &&& ctx.wrecks@ == wrecks_of(rows)
    &&& ctx.tar_pools@ == tar_pools_of(rows)
    &&& ctx.oil_pools@ == oil_pools_of(rows)
    &&& ctx.my_reaper == my_reaper_of(rows, me)
    &&& ctx.my_destroyer == my_destroyer_of(rows, me)
    &&& ctx.my_doof == my_doof_of(rows, me)
}

/// Partition one turn's rows into per-kind collections and pick out the
/// controlling side's units; rows with an unrecognized kind code are
/// silently dropped.
pub fn classify(rows: &Vec<Row>, me: i32) -> (ctx: TurnContext)
    ensures
        is_classification_of(ctx, rows@, me),
{
    let mut ctx = TurnContext {
        reapers: Vec::new(),
        destroyers: Vec::new(),
        doofs: Vec::new(),
        tankers: Vec::new(),
        wrecks: Vec::new(),
        tar_pools: Vec::new(),
        oil_pools: Vec::new(),
        my_reaper: None,
        my_destroyer: None,
        my_doof: None,
    };
    let n = rows.len();
    assert(rows@.take(0) =~= Seq::<Row>::empty());
    for i in 0..n
        invariant
            n == rows@.len(),
            is_classification_of(ctx, rows@.take(i as int), me),
    {
        let r = rows[i];
        proof {
            assert(rows@.take(i as int + 1).drop_last() =~= rows@.take(i as int));
            assert(rows@.take(i as int + 1).last() == rows@[i as int]);
        }
        match r.unit_type {
            0 => {
                ctx.reapers.push(Reaper::new(
                    r.unit_id, r.unit_type, r.player, r.mass_milli, r.radius, r.x, r.y, r.vx, r.vy,
                ));
                if r.player == me {
                    ctx.my_reaper = Some(Reaper::new(
                        r.unit_id, r.unit_type, r.player, r.mass_milli, r.radius, r.x, r.y, r.vx,
                        r.vy,
                    ));
                }
            }
            1 => {
                ctx.destroyers.push(Destroyer::new(
                    r.unit_id, r.unit_type, r.player, r.mass_milli, r.radius, r.x, r.y, r.vx, r.vy,
                ));
                if r.player == me {
                    ctx.my_destroyer = Some(Destroyer::new(
                        r.unit_id, r.unit_type, r.player, r.mass_milli, r.radius, r.x, r.y, r.vx,
                        r.vy,
                    ));
                }
            }
            2 => {
                ctx.doofs.push(Doof::new(
                    r.unit_id, r.unit_type, r.player, r.mass_milli, r.radius, r.x, r.y, r.vx, r.vy,
                ));
                if r.player == me {
                    ctx.my_doof = Some(Doof::new(
                        r.unit_id, r.unit_type, r.player, r.mass_milli, r.radius, r.x, r.y, r.vx,
                        r.vy,
                    ));
                }
            }
            3 => {
                ctx.tankers.push(Tanker::new(
                    r.unit_id, r.unit_type, r.player, r.mass_milli, r.radius, r.x, r.y, r.vx, r.vy,
                    r.extra, r.extra_2,
                ));
            }
            4 => {
                ctx.wrecks.push(Wreck::new(
                    r.unit_id, r.unit_type, r.player, r.mass_milli, r.radius, r.x, r.y, r.vx, r.vy,
                    r.extra,
                ));
            }
            5 => {
                ctx.tar_pools.push(TarPool::new(
                    r.unit_id, r.unit_type, r.player, r.mass_milli, r.radius, r.x, r.y, r.vx, r.vy,
                ));
            }
            6 => {
                ctx.oil_pools.push(OilPool::new(
                    r.unit_id, r.unit_type, r.player, r.mass_milli, r.radius, r.x, r.y, r.vx, r.vy,
                ));
            }
            _ => {}
        }
    }
    proof {
        assert(rows@.take(n as int) =~= rows@);
    }
    ctx
}

/// Classification is deterministic: any two classifications of the same
/// snapshot for the same controlling side agree on every collection and on
/// every singleton slot.
pub proof fn lemma_classifier_deterministic(
    c1: TurnContext,
    c2: TurnContext,
    rows: Seq<Row>,
    me: i32,
)
    requires
        is_classification_of(c1, rows, me),
        is_classification_of(c2, rows, me),
    ensures
        c1.reapers@ == c2.reapers@,
        c1.destroyers@ == c2.destroyers@,
        c1.doofs@ == c2.doofs@,
        c1.tankers@ == c2.tankers@,
        c1.wrecks@ == c2.wrecks@,
        c1.tar_pools@ == c2.tar_pools@,
        c1.oil_pools@ == c2.oil_pools@,
        c1.my_reaper == c2.my_reaper,
        c1.my_destroyer == c2.my_destroyer,
        c1.my_doof == c2.my_doof,
{
}

/// The controlling side's Reaper slot holds the last row in input order
/// matching the Reaper kind and the controlling owner.
pub proof fn lemma_my_reaper_last_match(rows: Seq<Row>, me: i32, j: int)
    requires
        0 <= j < rows.len(),
        rows[j].unit_type == KIND_REAPER,
        rows[j].player == me,
        forall|k: int|
            j < k < rows.len() ==> !(rows[k].unit_type == KIND_REAPER && rows[k].player == me),
    ensures
        my_reaper_of(rows, me) == Some(reaper_of_row(rows[j])),
    decreases rows.len(),
{
    if j == rows.len() - 1 {
    } else {
        assert(rows.drop_last() =~= rows.take(rows.len() - 1));
        lemma_my_reaper_last_match(rows.drop_last(), me, j);
    }
}

/// The controlling side's Destroyer slot holds the last row in input order
/// matching the Destroyer kind and the controlling owner.
pub proof fn lemma_my_destroyer_last_match(rows: Seq<Row>, me: i32, j: int)
    requires
        0 <= j < rows.len(),
        rows[j].unit_type == KIND_DESTROYER,
        rows[j].player == me,
        forall|k: int|
            j < k < rows.len() ==> !(rows[k].unit_type == KIND_DESTROYER && rows[k].player == me),
    ensures
        my_destroyer_of(rows, me) == Some(destroyer_of_row(rows[j])),
    decreases rows.len(),
{
    if j == rows.len() - 1 {
    } else {
        assert(rows.drop_last() =~= rows.take(rows.len() - 1));
        lemma_my_destroyer_last_match(rows.drop_last(), me, j);
    }
}

/// The controlling side's Doof slot holds the last row in input order
/// matching the Doof kind and the controlling owner.
pub proof fn lemma_my_doof_last_match(rows: Seq<Row>, me: i32, j: int)
    requires
        0 <= j < rows.len(),
        rows[j].unit_type == KIND_DOOF,
        rows[j].player == me,
        forall|k: int|
            j < k < rows.len() ==> !(rows[k].unit_type == KIND_DOOF && rows[k].player == me),
    ensures
        my_doof_of(rows, me) == Some(doof_of_row(rows[j])),
    decreases rows.len(),
{
    if j == rows.len() - 1 {
    } else {
        assert(rows.drop_last() =~= rows.take(rows.len() - 1));
        lemma_my_doof_last_match(rows.drop_last(), me, j);
    }
}

} // verus!
