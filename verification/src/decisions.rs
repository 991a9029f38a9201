//! The three per-turn decision algorithms and the turn driver.
//!
//! - Doof targeting: aim at the farthest enemy Destroyer, by distance
//!   truncated to an integer, ties broken by first in input order.
//! - Destroyer decision: move toward the chosen tanker position, unless
//!   enough rage is banked and a hostile unit sits within skill range, in
//!   which case the skill is thrown at the first such unit in input order.
//! - Reaper movement: a lead-pursuit aim point toward the chosen wreck for
//!   the first two rounds, then hold course.
//!
//! The real (non-truncated) distance between two integer positions is below
//! 1000 exactly when the squared distance is below 1,000,000, so the skill
//! range test compares squared distances.

use vstd::prelude::*;
use crate::classify::TurnContext;
use crate::entities::Destroyer;
use crate::entities::Doof;
use crate::entities::Reaper;
use crate::geometry::Coordinate;
use crate::geometry::SpeedVector;
use crate::geometry::is_isqrt;
use crate::geometry::isqrt_spec;
use crate::geometry::lemma_isqrt_agrees;
use crate::geometry::sq_dist;

verus! {

/// Rage needed before the Destroyer may throw its skill.
pub const RAGE_THRESHOLD: i32 = 45;

/// Squared skill range: the skill reaches units whose real distance is
/// below 1000, i.e. whose squared distance is below this.
pub const SKILL_RANGE_SQ: i64 = 1000000;

/// Throttle of the Destroyer's default move command.
pub const DESTROYER_THROTTLE: i32 = 200;

/// Throttle of the Reaper's startup move command.
pub const REAPER_THROTTLE: i32 = 200;

/// Throttle of the Doof's move command.
pub const DOOF_THROTTLE: i32 = 300;

/// One movement or action command for a controlled unit.
#[derive(Clone, Copy, Debug, PartialEq, Eq, Structural)]
pub enum Command {
    /// Move toward `(x, y)` at the given throttle.
    Move { x: i32, y: i32, throttle: i32 },
    /// Hold course, echoing the unit's current velocity.
    Wait { vx: i32, vy: i32 },
    /// Trigger the area skill centered at `(x, y)`.
    Skill { x: i32, y: i32 },
}

/// A fatal invariant violation: the turn cannot produce its commands.
#[derive(Clone, Copy, Debug, PartialEq, Eq, Structural)]
pub enum TurnError {
    /// The controlling side has no Reaper this turn.
    MissingReaper,
    /// No enemy Destroyer exists in the snapshot.
    NoEnemyDestroyer,
}

/// The three commands of one turn, in emission order.
#[derive(Clone, Copy, Debug, PartialEq, Eq, Structural)]
pub struct TurnCommands {
    pub reaper: Command,
    pub destroyer: Command,
    pub doof: Command,
}

/// A move command toward `target`.
pub open spec fn move_cmd(target: Coordinate, throttle: i32) -> Command {
    Command::Move { x: target.x, y: target.y, throttle }
}

/// A skill command centered at `target`.
pub open spec fn skill_cmd(target: Coordinate) -> Command {
    Command::Skill { x: target.x, y: target.y }
}

/// A hold-course command echoing `v`.
pub open spec fn wait_cmd(v: SpeedVector) -> Command {
    Command::Wait { vx: v.vx, vy: v.vy }
}

/// The value behind an optional reference.
pub open spec fn opt_value<T>(o: Option<&T>) -> Option<T> {
    match o {
        Some(t) => Some(*t),
        None => None,
    }
}

/// Euclidean distance truncated to an integer.
pub open spec fn trunc_dist(a: Coordinate, b: Coordinate) -> int {
    isqrt_spec(sq_dist(a, b))
}

/// True when `b` is within skill range of `a`: real distance below 1000.
pub open spec fn in_skill_range(a: Coordinate, b: Coordinate) -> bool {
    sq_dist(a, b) < SKILL_RANGE_SQ
}

/// Whether the row at `k` belongs to an opponent of side `me`.
pub open spec fn enemy_destroyer_at(s: Seq<Destroyer>, k: int, me: i32) -> bool {
    s[k].unit.player_id != me
}

/// The position of the first enemy Reaper within skill range of `from`,
/// in input order.
pub open spec fn first_reaper_target(s: Seq<Reaper>, me: i32, from: Coordinate) -> Option<
    Coordinate,
>
    decreases s.len(),
{
    if s.len() == 0 {
        None
    } else if s[0].unit.player_id != me && in_skill_range(s[0].unit.coordinate, from) {
        Some(s[0].unit.coordinate)
    } else {
        first_reaper_target(s.subrange(1, s.len() as int), me, from)
    }
}

/// The position of the first enemy Destroyer within skill range of `from`,
/// in input order.
pub open spec fn first_destroyer_target(s: Seq<Destroyer>, me: i32, from: Coordinate) -> Option<
    Coordinate,
>
    decreases s.len(),
{
    if s.len() == 0 {
        None
    } else if s[0].unit.player_id != me && in_skill_range(s[0].unit.coordinate, from) {
        Some(s[0].unit.coordinate)
    } else {
        first_destroyer_target(s.subrange(1, s.len() as int), me, from)
    }
}

/// The first enemy Destroyer in input order, regardless of distance.
pub open spec fn first_enemy_destroyer(s: Seq<Destroyer>, me: i32) -> Option<Destroyer>
    decreases s.len(),
{
    if s.len() == 0 {
        None
    } else if s[0].unit.player_id != me {
        Some(s[0])
    } else {
        first_enemy_destroyer(s.subrange(1, s.len() as int), me)
    }
}

/// Fold the farthest-candidate selection over `s`, starting from `best`:
/// a later enemy replaces the running best only when its truncated distance
/// from `from` is strictly greater, so ties keep the earlier candidate.
pub open spec fn farthest_from(s: Seq<Destroyer>, me: i32, from: Coordinate, best: Destroyer) -> Destroyer
    decreases s.len(),
{
    if s.len() == 0 {
        best
    } else {
        let next = if s[0].unit.player_id != me && trunc_dist(s[0].unit.coordinate, from)
            > trunc_dist(best.unit.coordinate, from) {
            s[0]
        } else {
            best
        };
        farthest_from(s.subrange(1, s.len() as int), me, from, next)
    }
}

/// The enemy Destroyer farthest from `from` by truncated distance, ties
/// broken by first in input order; `None` when no enemy Destroyer exists.
pub open spec fn farthest_enemy_destroyer(s: Seq<Destroyer>, me: i32, from: Coordinate) -> Option<
    Destroyer,
>
    decreases s.len(),
{
    if s.len() == 0 {
        None
    } else if s[0].unit.player_id != me {
        Some(farthest_from(s.subrange(1, s.len() as int), me, from, s[0]))
    } else {
        farthest_enemy_destroyer(s.subrange(1, s.len() as int), me, from)
    }
}

/// The Doof's target for the turn. With a Doof present: the position of the
/// farthest enemy Destroyer. Without one: the position of the first enemy
/// Destroyer in input order. No enemy Destroyer at all is fatal.
pub open spec fn doof_target_spec(
    my_doof: Option<Doof>,
    destroyers: Seq<Destroyer>,
    me: i32,
) -> Result<Coordinate, TurnError> {
    match my_doof {
        None => match first_enemy_destroyer(destroyers, me) {
            Some(d) => Ok(d.unit.coordinate),
            None => Err(TurnError::NoEnemyDestroyer),
        },
        Some(doof) => match farthest_enemy_destroyer(destroyers, me, doof.unit.coordinate) {
            Some(d) => Ok(d.unit.coordinate),
            None => Err(TurnError::NoEnemyDestroyer),
        },
    }
}

/// The Destroyer's command for the turn. Without both the controlling
/// side's Doof and Destroyer, or with rage below the threshold, the default
/// move toward the chosen tanker position; otherwise the skill at the first
/// in-range enemy Reaper, else the first in-range enemy Destroyer, else the
/// default move.
pub open spec fn destroyer_decision(
    my_rage: i32,
    chosen_tanker: Coordinate,
    my_doof: Option<Doof>,
    my_destroyer: Option<Destroyer>,
    reapers: Seq<Reaper>,
    destroyers: Seq<Destroyer>,
    me: i32,
) -> Command {
    if my_doof is None || my_destroyer is None {
        move_cmd(chosen_tanker, DESTROYER_THROTTLE)
    } else if my_rage < RAGE_THRESHOLD {
        move_cmd(chosen_tanker, DESTROYER_THROTTLE)
    } else {
        let from = my_destroyer->Some_0.unit.coordinate;
        match first_reaper_target(reapers, me, from) {
            Some(p) => skill_cmd(p),
            None => match first_destroyer_target(destroyers, me, from) {
                Some(p) => skill_cmd(p),
                None => move_cmd(chosen_tanker, DESTROYER_THROTTLE),
            },
        }
    }
}

/// Half of `n`, truncated toward zero.
pub open spec fn trunc_half(n: int) -> int {
    if n >= 0 {
        n / 2
    } else {
        -((-n) / 2)
    }
}

/// `n` clamped into the `i32` range.
pub open spec fn clamp_to_i32(n: int) -> i32 {
    if n < i32::MIN {
        i32::MIN
    } else if n > i32::MAX {
        i32::MAX
    } else {
        n as i32
    }
}

/// The lead-pursuit aim point: the target position minus the own velocity
/// scaled by the lead factor 1.5, each axis truncated toward zero.
pub open spec fn lead_aim(target: Coordinate, v: SpeedVector) -> Coordinate {
    Coordinate {
        x: clamp_to_i32(trunc_half(2 * target.x - 3 * v.vx)),
        y: clamp_to_i32(trunc_half(2 * target.y - 3 * v.vy)),
    }
}

/// The Reaper's command for the turn: a full-throttle move to the lead
/// aim point during the first two rounds, then hold course. A missing
/// Reaper is fatal.
pub open spec fn reaper_decision(
    my_reaper: Option<Reaper>,
    chosen_wreck: Coordinate,
    round_nr: u32,
) -> Result<Command, TurnError> {
    match my_reaper {
        None => Err(TurnError::MissingReaper),
        Some(rp) => if round_nr < 3 {
            Ok(move_cmd(lead_aim(chosen_wreck, rp.unit.speed), REAPER_THROTTLE))
        } else {
            Ok(wait_cmd(rp.unit.speed))
        },
    }
}

/// The whole turn: the Doof target is resolved first, then the Reaper
/// precondition, then the three commands; either fatal condition aborts
/// the turn.
pub open spec fn turn_decision(
    ctx: TurnContext,
    my_rage: i32,
    chosen_wreck: Coordinate,
    chosen_tanker: Coordinate,
    round_nr: u32,
    me: i32,
) -> Result<TurnCommands, TurnError> {
    match doof_target_spec(ctx.my_doof, ctx.destroyers@, me) {
        Err(e) => Err(e),
        Ok(doof_target) => match reaper_decision(ctx.my_reaper, chosen_wreck, round_nr) {
            Err(e) => Err(e),
            Ok(reaper_cmd) => Ok(
                TurnCommands {
                    reaper: reaper_cmd,
                    destroyer: destroyer_decision(
                        my_rage,
                        chosen_tanker,
                        ctx.my_doof,
                        ctx.my_destroyer,
                        ctx.reapers@,
                        ctx.destroyers@,
                        me,
                    ),
                    doof: move_cmd(doof_target, DOOF_THROTTLE),
                },
            ),
        },
    }
}

/// Squared-distance test against the skill range, computed without
/// truncation in 128-bit arithmetic.
fn within_skill_range(a: &Coordinate, b: &Coordinate) -> (r: bool)
    ensures
        r == in_skill_range(*a, *b),
{
    let dx: i128 = a.x as i128 - b.x as i128;
    let dy: i128 = a.y as i128 - b.y as i128;
    assert(0 <= dx * dx < 0x2_0000_0000_0000_0000) by (nonlinear_arith)
        requires -0x1_0000_0000 < dx < 0x1_0000_0000;
    assert(0 <= dy * dy < 0x2_0000_0000_0000_0000) by (nonlinear_arith)
        requires -0x1_0000_0000 < dy < 0x1_0000_0000;
    dx * dx + dy * dy < SKILL_RANGE_SQ as i128
}

/// The position of the first enemy Reaper within skill range, in input order.
fn first_reaper_in_range(reapers: &Vec<Reaper>, me: i32, from: &Coordinate) -> (t: Option<
    Coordinate,
>)
    ensures
        t == first_reaper_target(reapers@, me, *from),
{
    let n = reapers.len();
    assert(reapers@.subrange(0, n as int) =~= reapers@);
    for i in 0..n
        invariant
            n == reapers@.len(),
            first_reaper_target(reapers@, me, *from) == first_reaper_target(
                reapers@.subrange(i as int, n as int),
                me,
                *from,
            ),
    {
        let ghost rest = reapers@.subrange(i as int, n as int);
        proof {
            assert(rest[0] == reapers@[i as int]);
            assert(rest.subrange(1, rest.len() as int) =~= reapers@.subrange(
                i as int + 1,
                n as int,
            ));
        }
        let r = &reapers[i];
        if r.unit.player_id != me && within_skill_range(&r.unit.coordinate, from) {
            return Some(r.unit.coordinate);
        }
    }
    proof {
        assert(reapers@.subrange(n as int, n as int) =~= Seq::<Reaper>::empty());
    }
    None
}

/// The position of the first enemy Destroyer within skill range, in input
/// order.
fn first_destroyer_in_range(destroyers: &Vec<Destroyer>, me: i32, from: &Coordinate) -> (t: Option<
    Coordinate,
>)
    ensures
        t == first_destroyer_target(destroyers@, me, *from),
{
    let n = destroyers.len();
    assert(destroyers@.subrange(0, n as int) =~= destroyers@);
    for i in 0..n
        invariant
            n == destroyers@.len(),
            first_destroyer_target(destroyers@, me, *from) == first_destroyer_target(
                destroyers@.subrange(i as int, n as int),
                me,
                *from,
            ),
    {
        let ghost rest = destroyers@.subrange(i as int, n as int);
        proof {
            assert(rest[0] == destroyers@[i as int]);
            assert(rest.subrange(1, rest.len() as int) =~= destroyers@.subrange(
                i as int + 1,
                n as int,
            ));
        }
        let d = &destroyers[i];
        if d.unit.player_id != me && within_skill_range(&d.unit.coordinate, from) {
            return Some(d.unit.coordinate);
        }
    }
    proof {
        assert(destroyers@.subrange(n as int, n as int) =~= Seq::<Destroyer>::empty());
    }
    None
}

/// Decide the Destroyer's command for the turn.
pub fn destroyer_decider(
    my_rage: i32,
    chosen_tanker: &Coordinate,
    my_doof: Option<&Doof>,
    my_destroyer: Option<&Destroyer>,
    reapers: &Vec<Reaper>,
    destroyers: &Vec<Destroyer>,
    me: i32,
) -> (c: Command)
    ensures
        c == destroyer_decision(
            my_rage,
            *chosen_tanker,
            opt_value(my_doof),
            opt_value(my_destroyer),
            reapers@,
            destroyers@,
            me,
        ),
{
    let destroyer_coordinate = match (my_doof, my_destroyer) {
        (Some(_), Some(d)) => d.unit.coordinate,
        _ => {
            return Command::Move {
                x: chosen_tanker.x,
                y: chosen_tanker.y,
                throttle: DESTROYER_THROTTLE,
            };
        },
    };
    if my_rage < RAGE_THRESHOLD {
        return Command::Move {
            x: chosen_tanker.x,
            y: chosen_tanker.y,
            throttle: DESTROYER_THROTTLE,
        };
    }
    match first_reaper_in_range(reapers, me, &destroyer_coordinate) {
        Some(p) => Command::Skill { x: p.x, y: p.y },
        None => match first_destroyer_in_range(destroyers, me, &destroyer_coordinate) {
            Some(p) => Command::Skill { x: p.x, y: p.y },
            None => Command::Move {
                x: chosen_tanker.x,
                y: chosen_tanker.y,
                throttle: DESTROYER_THROTTLE,
            },
        },
    }
}

/// Choose the Doof's target position for the turn.
pub fn find_doof_target(
    player_doof_ref: Option<&Doof>,
    destroyers: &Vec<Destroyer>,
    me: i32,
) -> (target: Result<Coordinate, TurnError>)
    ensures
        target == doof_target_spec(opt_value(player_doof_ref), destroyers@, me),
{
    let n = destroyers.len();
    let player_doof_coordinate = match player_doof_ref {
        Some(doof_ref) => doof_ref.unit.coordinate,
        None => {
            assert(destroyers@.subrange(0, n as int) =~= destroyers@);
            for i in 0..n
                invariant
                    player_doof_ref is None,
                    n == destroyers@.len(),
                    first_enemy_destroyer(destroyers@, me) == first_enemy_destroyer(
                        destroyers@.subrange(i as int, n as int),
                        me,
                    ),
            {
                let ghost rest = destroyers@.subrange(i as int, n as int);
                proof {
                    assert(rest[0] == destroyers@[i as int]);
                    assert(rest.subrange(1, rest.len() as int) =~= destroyers@.subrange(
                        i as int + 1,
                        n as int,
                    ));
                }
                let d = &destroyers[i];
                if d.unit.player_id != me {
                    proof {
                        assert(first_enemy_destroyer(rest, me) == Some(rest[0]));
                    }
                    return Ok(Coordinate::new(d.unit.coordinate.x, d.unit.coordinate.y));
                }
            }
            proof {
                assert(destroyers@.subrange(n as int, n as int) =~= Seq::<Destroyer>::empty());
            }
            return Err(TurnError::NoEnemyDestroyer);
        },
    };
    let mut best: Option<Destroyer> = None;
    let mut best_dist: u64 = 0;
    assert(destroyers@.subrange(0, n as int) =~= destroyers@);
    for i in 0..n
        invariant
            n == destroyers@.len(),
            best is None ==> farthest_enemy_destroyer(destroyers@, me, player_doof_coordinate)
                == farthest_enemy_destroyer(
                destroyers@.subrange(i as int, n as int),
                me,
                player_doof_coordinate,
            ),
            best matches Some(b) ==> {
                &&& farthest_enemy_destroyer(destroyers@, me, player_doof_coordinate) == Some(
                    farthest_from(
                        destroyers@.subrange(i as int, n as int),
                        me,
                        player_doof_coordinate,
                        b,
                    ),
                )
                &&& best_dist == trunc_dist(b.unit.coordinate, player_doof_coordinate)
                &&& b.unit.player_id != me
            },
    {
        let ghost rest = destroyers@.subrange(i as int, n as int);
        proof {
            assert(rest[0] == destroyers@[i as int]);
            assert(rest.subrange(1, rest.len() as int) =~= destroyers@.subrange(
                i as int + 1,
                n as int,
            ));
        }
        let d = &destroyers[i];
        if d.unit.player_id != me {
            let dist = d.unit.coordinate.euclidean_distance(&player_doof_coordinate);
            proof {
                lemma_isqrt_agrees(sq_dist(d.unit.coordinate, player_doof_coordinate), dist as int);
            }
            match best {
                None => {
                    best = Some(*d);
                    best_dist = dist;
                },
                Some(b) => {
                    if dist > best_dist {
                        best = Some(*d);
                        best_dist = dist;
                    }
                },
            }
        }
    }
    proof {
        assert(destroyers@.subrange(n as int, n as int) =~= Seq::<Destroyer>::empty());
    }
    match best {
        Some(b) => Ok(b.unit.coordinate),
        None => Err(TurnError::NoEnemyDestroyer),
    }
}

/// One clamped lead-pursuit axis: the target component minus 1.5 times the
/// velocity component, truncated toward zero.
fn lead_axis(pos: i32, vel: i32) -> (a: i32)
    ensures
        a == clamp_to_i32(trunc_half(2 * pos - 3 * vel)),
{
    let n: i64 = 2 * (pos as i64) - 3 * (vel as i64);
    let t: i64 = if n >= 0 {
        ((n as u64) / 2) as i64
    } else {
        -((((-n) as u64) / 2) as i64)
    };
    if t < i32::MIN as i64 {
        i32::MIN
    } else if t > i32::MAX as i64 {
        i32::MAX
    } else {
        t as i32
    }
}

/// Decide the Reaper's command for the turn.
pub fn reaper_decider(
    my_reaper: Option<&Reaper>,
    chosen_wreck: &Coordinate,
    round_nr: u32,
) -> (c: Result<Command, TurnError>)
    ensures
        c == reaper_decision(opt_value(my_reaper), *chosen_wreck, round_nr),
{
    let rp = match my_reaper {
        Some(rp) => rp,
        None => {
            return Err(TurnError::MissingReaper);
        },
    };
    if round_nr < 3 {
        let x = lead_axis(chosen_wreck.x, rp.unit.speed.vx);
        let y = lead_axis(chosen_wreck.y, rp.unit.speed.vy);
        Ok(Command::Move { x, y, throttle: REAPER_THROTTLE })
    } else {
        Ok(Command::Wait { vx: rp.unit.speed.vx, vy: rp.unit.speed.vy })
    }
}

/// Produce the turn's three commands from the classified snapshot, the
/// rage counter, the externally chosen wreck and tanker positions, and the
/// round number.
pub fn play_turn(
    ctx: &TurnContext,
    my_rage: i32,
    chosen_wreck: &Coordinate,
    chosen_tanker: &Coordinate,
    round_nr: u32,
    me: i32,
) -> (r: Result<TurnCommands, TurnError>)
    ensures
        r == turn_decision(*ctx, my_rage, *chosen_wreck, *chosen_tanker, round_nr, me),
{
    let doof_target = match find_doof_target(ctx.my_doof.as_ref(), &ctx.destroyers, me) {
        Ok(t) => t,
        Err(e) => {
            return Err(e);
        },
    };
    let reaper_cmd = match reaper_decider(ctx.my_reaper.as_ref(), chosen_wreck, round_nr) {
        Ok(c) => c,
        Err(e) => {
            return Err(e);
        },
    };
    let destroyer_cmd = destroyer_decider(
        my_rage,
        chosen_tanker,
        ctx.my_doof.as_ref(),
        ctx.my_destroyer.as_ref(),
        &ctx.reapers,
        &ctx.destroyers,
        me,
    );
    Ok(
        TurnCommands {
            reaper: reaper_cmd,
            destroyer: destroyer_cmd,
            doof: Command::Move { x: doof_target.x, y: doof_target.y, throttle: DOOF_THROTTLE },
        },
    )
}

/// Rage below the threshold always yields the default move command,
/// whatever the snapshot holds.
pub proof fn lemma_rage_gate(
    my_rage: i32,
    chosen_tanker: Coordinate,
    my_doof: Option<Doof>,
    my_destroyer: Option<Destroyer>,
    reapers: Seq<Reaper>,
    destroyers: Seq<Destroyer>,
    me: i32,
)
    requires
        my_rage < RAGE_THRESHOLD,
    ensures
        destroyer_decision(my_rage, chosen_tanker, my_doof, my_destroyer, reapers, destroyers, me)
            == move_cmd(chosen_tanker, DESTROYER_THROTTLE),
{
}

/// The first two rounds emit a full-throttle move to the lead aim point;
/// every later round emits a hold-course command echoing the Reaper's own
/// velocity unchanged.
pub proof fn lemma_turn_phase(rp: Reaper, chosen_wreck: Coordinate, round_nr: u32)
    ensures
        round_nr < 3 ==> reaper_decision(Some(rp), chosen_wreck, round_nr) == Result::<
            Command,
            TurnError,
        >::Ok(move_cmd(lead_aim(chosen_wreck, rp.unit.speed), REAPER_THROTTLE)),
        round_nr >= 3 ==> reaper_decision(Some(rp), chosen_wreck, round_nr) == Result::<
            Command,
            TurnError,
        >::Ok(wait_cmd(rp.unit.speed)),
{
}

/// `j` indexes the farthest enemy Destroyer from `from` by truncated
/// distance, with ties broken by first in input order.
pub open spec fn is_stable_farthest(s: Seq<Destroyer>, me: i32, from: Coordinate, j: int) -> bool {
    &&& 0 <= j < s.len()
    &&& enemy_destroyer_at(s, j, me)
    &&& forall|k: int|
        0 <= k < s.len() && enemy_destroyer_at(s, k, me) ==> trunc_dist(
            s[k].unit.coordinate,
            from,
        ) <= trunc_dist(s[j].unit.coordinate, from)
    &&& forall|k: int|
        0 <= k < j && enemy_destroyer_at(s, k, me) ==> trunc_dist(s[k].unit.coordinate, from)
            < trunc_dist(s[j].unit.coordinate, from)
}

proof fn lemma_farthest_from_props(s: Seq<Destroyer>, me: i32, from: Coordinate, best: Destroyer)
    requires
        best.unit.player_id != me,
    ensures
        ({
            let r = farthest_from(s, me, from, best);
            &&& r.unit.player_id != me
            &&& trunc_dist(r.unit.coordinate, from) >= trunc_dist(best.unit.coordinate, from)
            &&& forall|k: int|
                0 <= k < s.len() && enemy_destroyer_at(s, k, me) ==> trunc_dist(
                    s[k].unit.coordinate,
                    from,
                ) <= trunc_dist(r.unit.coordinate, from)
            &&& (r == best || (exists|j: int|
                {
                    &&& 0 <= j < s.len()
                    &&& enemy_destroyer_at(s, j, me)
                    &&& r == s[j]
                    &&& trunc_dist(r.unit.coordinate, from) > trunc_dist(
                        best.unit.coordinate,
                        from,
                    )
                    &&& forall|k: int|
                        0 <= k < j && enemy_destroyer_at(s, k, me) ==> trunc_dist(
                            s[k].unit.coordinate,
                            from,
                        ) < trunc_dist(r.unit.coordinate, from)
                }))
        }),
    decreases s.len(),
{
    if s.len() == 0 {
    } else {
        let t = s.subrange(1, s.len() as int);
        let next = if s[0].unit.player_id != me && trunc_dist(s[0].unit.coordinate, from)
            > trunc_dist(best.unit.coordinate, from) {
            s[0]
        } else {
            best
        };
        let r = farthest_from(s, me, from, best);
        lemma_farthest_from_props(t, me, from, next);
        assert(r == farthest_from(t, me, from, next));
        assert forall|k: int|
            0 <= k < s.len() && enemy_destroyer_at(s, k, me) implies trunc_dist(
            s[k].unit.coordinate,
            from,
        ) <= trunc_dist(r.unit.coordinate, from) by {
            if k == 0 {
            } else {
                assert(s[k] == t[k - 1]);
                assert(enemy_destroyer_at(t, k - 1, me));
            }
        }
        if r == next {
            if next == best {
            } else {
                assert(r == s[0]);
                assert(is_stable_witness_for_fold(s, me, from, best, r, 0));
            }
        } else {
            let jt = choose|jt: int|
                {
                    &&& 0 <= jt < t.len()
                    &&& enemy_destroyer_at(t, jt, me)
                    &&& r == t[jt]
                    &&& trunc_dist(r.unit.coordinate, from) > trunc_dist(
                        next.unit.coordinate,
                        from,
                    )
                    &&& forall|k: int|
                        0 <= k < jt && enemy_destroyer_at(t, k, me) ==> trunc_dist(
                            t[k].unit.coordinate,
                            from,
                        ) < trunc_dist(r.unit.coordinate, from)
                };
            assert(s[jt + 1] == t[jt]);
            assert forall|k: int|
                0 <= k < jt + 1 && enemy_destroyer_at(s, k, me) implies trunc_dist(
                s[k].unit.coordinate,
                from,
            ) < trunc_dist(r.unit.coordinate, from) by {
                if k == 0 {
                } else {
                    assert(s[k] == t[k - 1]);
                    assert(enemy_destroyer_at(t, k - 1, me));
                }
            }
            assert(is_stable_witness_for_fold(s, me, from, best, r, jt + 1));
        }
    }
}

/// The witness shape that `lemma_farthest_from_props` asserts when the fold
/// moved past its starting candidate.
pub open spec fn is_stable_witness_for_fold(
    s: Seq<Destroyer>,
    me: i32,
    from: Coordinate,
    best: Destroyer,
    r: Destroyer,
    j: int,
) -> bool {
    &&& 0 <= j < s.len()
    &&& enemy_destroyer_at(s, j, me)
    &&& r == s[j]
    &&& trunc_dist(r.unit.coordinate, from) > trunc_dist(best.unit.coordinate, from)
    &&& forall|k: int|
        0 <= k < j && enemy_destroyer_at(s, k, me) ==> trunc_dist(s[k].unit.coordinate, from)
            < trunc_dist(r.unit.coordinate, from)
}

/// The farthest-enemy selection is a stable maximum: it returns `None`
/// exactly when no enemy Destroyer exists, and otherwise the returned unit
/// sits at an index whose truncated distance from `from` is maximal among
/// enemies, with every earlier enemy strictly closer.
pub proof fn lemma_farthest_is_stable_max(s: Seq<Destroyer>, me: i32, from: Coordinate)
    ensures
        (farthest_enemy_destroyer(s, me, from) is None) <==> (forall|k: int|
            0 <= k < s.len() ==> !enemy_destroyer_at(s, k, me)),
        farthest_enemy_destroyer(s, me, from) matches Some(d) ==> exists|j: int|
            is_stable_farthest(s, me, from, j) && d == s[j],
    decreases s.len(),
{
    if s.len() == 0 {
    } else {
        let t = s.subrange(1, s.len() as int);
        assert(forall|k: int| 1 <= k < s.len() ==> s[k] == t[k - 1]);
        if s[0].unit.player_id != me {
            let r = farthest_from(t, me, from, s[0]);
            lemma_farthest_from_props(t, me, from, s[0]);
            if r == s[0] {
                assert forall|k: int|
                    0 <= k < s.len() && enemy_destroyer_at(s, k, me) implies trunc_dist(
                    s[k].unit.coordinate,
                    from,
                ) <= trunc_dist(s[0].unit.coordinate, from) by {
                    if k > 0 {
                        assert(enemy_destroyer_at(t, k - 1, me));
                    }
                }
                assert(is_stable_farthest(s, me, from, 0));
            } else {
                let jt = choose|jt: int|
                    {
                        &&& 0 <= jt < t.len()
                        &&& enemy_destroyer_at(t, jt, me)
                        &&& r == t[jt]
                        &&& trunc_dist(r.unit.coordinate, from) > trunc_dist(
                            s[0].unit.coordinate,
                            from,
                        )
                        &&& forall|k: int|
                            0 <= k < jt && enemy_destroyer_at(t, k, me) ==> trunc_dist(
                                t[k].unit.coordinate,
                                from,
                            ) < trunc_dist(r.unit.coordinate, from)
                    };
                assert(s[jt + 1] == t[jt]);
                assert forall|k: int|
                    0 <= k < s.len() && enemy_destroyer_at(s, k, me) implies trunc_dist(
                    s[k].unit.coordinate,
                    from,
                ) <= trunc_dist(s[jt + 1].unit.coordinate, from) by {
                    if k > 0 {
                        assert(enemy_destroyer_at(t, k - 1, me));
                    }
                }
                assert forall|k: int|
                    0 <= k < jt + 1 && enemy_destroyer_at(s, k, me) implies trunc_dist(
                    s[k].unit.coordinate,
                    from,
                ) < trunc_dist(s[jt + 1].unit.coordinate, from) by {
                    if k > 0 {
                        assert(enemy_destroyer_at(t, k - 1, me));
                    }
                }
                assert(is_stable_farthest(s, me, from, jt + 1));
            }
        } else {
            lemma_farthest_is_stable_max(t, me, from);
            match farthest_enemy_destroyer(t, me, from) {
                None => {
                    assert forall|k: int| 0 <= k < s.len() implies !enemy_destroyer_at(
                        s,
                        k,
                        me,
                    ) by {
                        if k > 0 {
                            assert(s[k] == t[k - 1]);
                            assert(!enemy_destroyer_at(t, k - 1, me));
                        }
                    }
                },
                Some(d) => {
                    let jt = choose|jt: int| is_stable_farthest(t, me, from, jt) && d == t[jt];
                    assert forall|k: int|
                        0 <= k < s.len() && enemy_destroyer_at(s, k, me) implies trunc_dist(
                        s[k].unit.coordinate,
                        from,
                    ) <= trunc_dist(s[jt + 1].unit.coordinate, from) by {
                        if k > 0 {
                            assert(enemy_destroyer_at(t, k - 1, me));
                        }
                    }
                    assert forall|k: int|
                        0 <= k < jt + 1 && enemy_destroyer_at(s, k, me) implies trunc_dist(
                        s[k].unit.coordinate,
                        from,
                    ) < trunc_dist(s[jt + 1].unit.coordinate, from) by {
                        if k > 0 {
                            assert(enemy_destroyer_at(t, k - 1, me));
                        }
                    }
                    assert(is_stable_farthest(s, me, from, jt + 1));
                },
            }
        }
    }
}

/// Whether the Reaper at `k` is an opponent of `me` within skill range of
/// `from`.
pub open spec fn reaper_hit_at(s: Seq<Reaper>, k: int, me: i32, from: Coordinate) -> bool {
    s[k].unit.player_id != me && in_skill_range(s[k].unit.coordinate, from)
}

/// Whether the Destroyer at `k` is an opponent of `me` within skill range
/// of `from`.
pub open spec fn destroyer_hit_at(s: Seq<Destroyer>, k: int, me: i32, from: Coordinate) -> bool {
    s[k].unit.player_id != me && in_skill_range(s[k].unit.coordinate, from)
}

/// The skill-target scan over Reapers takes the first in-range enemy in
/// input order — not the nearest — and finds none exactly when no enemy
/// Reaper is in range.
pub proof fn lemma_first_reaper_target_is_first_hit(s: Seq<Reaper>, me: i32, from: Coordinate)
    ensures
        (first_reaper_target(s, me, from) is None) <==> (forall|k: int|
            0 <= k < s.len() ==> !reaper_hit_at(s, k, me, from)),
        first_reaper_target(s, me, from) matches Some(p) ==> exists|j: int|
            {
                &&& 0 <= j < s.len()
                &&& reaper_hit_at(s, j, me, from)
                &&& p == s[j].unit.coordinate
                &&& forall|k: int| 0 <= k < j ==> !reaper_hit_at(s, k, me, from)
            },
    decreases s.len(),
{
    if s.len() == 0 {
    } else if s[0].unit.player_id != me && in_skill_range(s[0].unit.coordinate, from) {
        assert(reaper_hit_at(s, 0, me, from));
    } else {
        let t = s.subrange(1, s.len() as int);
        lemma_first_reaper_target_is_first_hit(t, me, from);
        assert(forall|k: int| 1 <= k < s.len() ==> s[k] == t[k - 1]);
        match first_reaper_target(s, me, from) {
            None => {
                assert forall|k: int| 0 <= k < s.len() implies !reaper_hit_at(s, k, me, from) by {
                    if k > 0 {
                        assert(!reaper_hit_at(t, k - 1, me, from));
                    }
                }
            },
            Some(p) => {
                let jt = choose|jt: int|
                    {
                        &&& 0 <= jt < t.len()
                        &&& reaper_hit_at(t, jt, me, from)
                        &&& p == t[jt].unit.coordinate
                        &&& forall|k: int| 0 <= k < jt ==> !reaper_hit_at(t, k, me, from)
                    };
                assert forall|k: int| 0 <= k < jt + 1 implies !reaper_hit_at(s, k, me, from) by {
                    if k > 0 {
                        assert(!reaper_hit_at(t, k - 1, me, from));
                    }
                }
                assert(reaper_hit_at(s, jt + 1, me, from));
            },
        }
    }
}

/// The skill-target scan over Destroyers takes the first in-range enemy in
/// input order — not the nearest — and finds none exactly when no enemy
/// Destroyer is in range.
pub proof fn lemma_first_destroyer_target_is_first_hit(s: Seq<Destroyer>, me: i32, from: Coordinate)
    ensures
        (first_destroyer_target(s, me, from) is None) <==> (forall|k: int|
            0 <= k < s.len() ==> !destroyer_hit_at(s, k, me, from)),
        first_destroyer_target(s, me, from) matches Some(p) ==> exists|j: int|
            {
                &&& 0 <= j < s.len()
                &&& destroyer_hit_at(s, j, me, from)
                &&& p == s[j].unit.coordinate
                &&& forall|k: int| 0 <= k < j ==> !destroyer_hit_at(s, k, me, from)
            },
    decreases s.len(),
{
    if s.len() == 0 {
    } else if s[0].unit.player_id != me && in_skill_range(s[0].unit.coordinate, from) {
        assert(destroyer_hit_at(s, 0, me, from));
    } else {
        let t = s.subrange(1, s.len() as int);
        lemma_first_destroyer_target_is_first_hit(t, me, from);
        assert(forall|k: int| 1 <= k < s.len() ==> s[k] == t[k - 1]);
        match first_destroyer_target(s, me, from) {
            None => {
                assert forall|k: int| 0 <= k < s.len() implies !destroyer_hit_at(
                    s,
                    k,
                    me,
                    from,
                ) by {
                    if k > 0 {
                        assert(!destroyer_hit_at(t, k - 1, me, from));
                    }
                }
            },
            Some(p) => {
                let jt = choose|jt: int|
                    {
                        &&& 0 <= jt < t.len()
                        &&& destroyer_hit_at(t, jt, me, from)
                        &&& p == t[jt].unit.coordinate
                        &&& forall|k: int| 0 <= k < jt ==> !destroyer_hit_at(t, k, me, from)
                    };
                assert forall|k: int| 0 <= k < jt + 1 implies !destroyer_hit_at(
                    s,
                    k,
                    me,
                    from,
                ) by {
                    if k > 0 {
                        assert(!destroyer_hit_at(t, k - 1, me, from));
                    }
                }
                assert(destroyer_hit_at(s, jt + 1, me, from));
            },
        }
    }
}

/// The no-Doof fallback takes the first enemy Destroyer in input order, and
/// finds none exactly when every Destroyer belongs to the controlling side.
pub proof fn lemma_first_enemy_is_first(s: Seq<Destroyer>, me: i32)
    ensures
        (first_enemy_destroyer(s, me) is None) <==> (forall|k: int|
            0 <= k < s.len() ==> !enemy_destroyer_at(s, k, me)),
        first_enemy_destroyer(s, me) matches Some(d) ==> exists|j: int|
            {
                &&& 0 <= j < s.len()
                &&& enemy_destroyer_at(s, j, me)
                &&& d == s[j]
                &&& forall|k: int| 0 <= k < j ==> !enemy_destroyer_at(s, k, me)
            },
    decreases s.len(),
{
    if s.len() == 0 {
    } else if s[0].unit.player_id != me {
        assert(enemy_destroyer_at(s, 0, me));
    } else {
        let t = s.subrange(1, s.len() as int);
        lemma_first_enemy_is_first(t, me);
        assert(forall|k: int| 1 <= k < s.len() ==> s[k] == t[k - 1]);
        match first_enemy_destroyer(s, me) {
            None => {
                assert forall|k: int| 0 <= k < s.len() implies !enemy_destroyer_at(s, k, me) by {
                    if k > 0 {
                        assert(!enemy_destroyer_at(t, k - 1, me));
                    }
                }
            },
            Some(d) => {
                let jt = choose|jt: int|
                    {
                        &&& 0 <= jt < t.len()
                        &&& enemy_destroyer_at(t, jt, me)
                        &&& d == t[jt]
                        &&& forall|k: int| 0 <= k < jt ==> !enemy_destroyer_at(t, k, me)
                    };
                assert forall|k: int| 0 <= k < jt + 1 implies !enemy_destroyer_at(s, k, me) by {
                    if k > 0 {
                        assert(!enemy_destroyer_at(t, k - 1, me));
                    }
                }
                assert(enemy_destroyer_at(s, jt + 1, me));
            },
        }
    }
}

/// The squared-distance skill test agrees with the truncated distance:
/// a unit is in skill range exactly when its integer-truncated distance is
/// below 1000, which in turn holds exactly when its real distance is.
pub proof fn lemma_skill_range_matches_truncated_distance(a: Coordinate, b: Coordinate, d: int)
    requires
        is_isqrt(sq_dist(a, b), d),
    ensures
        in_skill_range(a, b) <==> d < 1000,
{
    if in_skill_range(a, b) {
        if d >= 1000 {
            assert(1000 * 1000 <= d * d) by (nonlinear_arith)
                requires d >= 1000;
        }
    } else {
        if d < 1000 {
            assert((d + 1) * (d + 1) <= 1000 * 1000) by (nonlinear_arith)
                requires 0 <= d < 1000;
        }
    }
}

} // verus!
