use mean_max::classify::Row;
use mean_max::classify::classify;
use mean_max::decisions::Command;
use mean_max::decisions::TurnError;
use mean_max::decisions::destroyer_decider;
use mean_max::decisions::find_doof_target;
use mean_max::decisions::play_turn;
use mean_max::decisions::reaper_decider;
use mean_max::entities::Destroyer;
use mean_max::entities::Doof;
use mean_max::entities::Reaper;
use mean_max::geometry::Coordinate;
use mean_max::geometry::SpeedVector;

fn row_at(unit_id: i32, unit_type: i32, player: i32, x: i32, y: i32) -> Row {
    Row {
        unit_id,
        unit_type,
        player,
        mass_milli: 1000,
        radius: 400,
        x,
        y,
        vx: 0,
        vy: 0,
        extra: 0,
        extra_2: 0,
    }
}

fn doof_at(x: i32, y: i32, player: i32) -> Doof {
    Doof::new(50, 2, player, 1000, 400, x, y, 0, 0)
}

fn destroyer_at(unit_id: i32, player: i32, x: i32, y: i32) -> Destroyer {
    Destroyer::new(unit_id, 1, player, 1000, 400, x, y, 0, 0)
}

fn reaper_at(unit_id: i32, player: i32, x: i32, y: i32) -> Reaper {
    Reaper::new(unit_id, 0, player, 1000, 400, x, y, 0, 0)
}

#[test]
fn distance_is_symmetric_nonnegative_and_zero_on_self() {
    let a = Coordinate::new(1, 2);
    let b = Coordinate::new(4, 6);
    assert_eq!(a.euclidean_distance(&b), 5);
    assert_eq!(b.euclidean_distance(&a), 5);
    assert_eq!(a.euclidean_distance(&a), 0);
}

#[test]
fn distance_truncates_to_the_floor() {
    let a = Coordinate::new(0, 0);
    let b = Coordinate::new(1, 1);
    assert_eq!(a.euclidean_distance(&b), 1);
    let c = Coordinate::new(-3, -4);
    assert_eq!(a.euclidean_distance(&c), 5);
}

#[test]
fn speed_magnitude_is_the_truncated_norm() {
    assert_eq!(SpeedVector::new(3, 4).absolute_speed(), 5);
    assert_eq!(SpeedVector::new(0, 0).absolute_speed(), 0);
    assert_eq!(SpeedVector::new(-3, -4).absolute_speed(), 5);
}

#[test]
fn coordinate_new_sets_components() {
    let c = Coordinate::new(-7, 9);
    assert_eq!(c.x, -7);
    assert_eq!(c.y, 9);
}

#[test]
fn speed_vector_new_sets_components() {
    let v = SpeedVector::new(11, -13);
    assert_eq!(v.vx, 11);
    assert_eq!(v.vy, -13);
}

#[test]
fn classifier_partitions_rows_by_kind_in_order() {
    let rows = vec![
        row_at(1, 0, 0, 10, 10),
        row_at(2, 1, 0, 20, 20),
        row_at(3, 2, 0, 30, 30),
        Row { extra: 3, extra_2: 8, ..row_at(4, 3, -1, 40, 40) },
        Row { extra: 5, ..row_at(5, 4, -1, 50, 50) },
        row_at(6, 5, -1, 60, 60),
        row_at(7, 6, -1, 70, 70),
        row_at(8, 7, -1, 80, 80),
        row_at(9, 0, 1, 90, 90),
    ];
    let ctx = classify(&rows, 0);
    assert_eq!(ctx.reapers.len(), 2);
    assert_eq!(ctx.reapers[0].unit.unit_id, 1);
    assert_eq!(ctx.reapers[1].unit.unit_id, 9);
    assert_eq!(ctx.reapers[0].friction_milli, 200);
    assert_eq!(ctx.destroyers.len(), 1);
    assert_eq!(ctx.destroyers[0].friction_milli, 300);
    assert_eq!(ctx.doofs.len(), 1);
    assert_eq!(ctx.doofs[0].friction_milli, 250);
    assert_eq!(ctx.tankers.len(), 1);
    assert_eq!(ctx.tankers[0].friction_milli, 400);
    assert_eq!(ctx.tankers[0].water_quantity, 3);
    assert_eq!(ctx.tankers[0].water_capacity, 8);
    assert_eq!(ctx.tankers[0].throttle_milli, 4000);
    assert_eq!(ctx.wrecks.len(), 1);
    assert_eq!(ctx.wrecks[0].water_quantity, 5);
    assert_eq!(ctx.tar_pools.len(), 1);
    assert_eq!(ctx.oil_pools.len(), 1);
    assert_eq!(ctx.my_reaper.unwrap().unit.unit_id, 1);
    assert_eq!(ctx.my_destroyer.unwrap().unit.unit_id, 2);
    assert_eq!(ctx.my_doof.unwrap().unit.unit_id, 3);
}

#[test]
fn classifier_drops_unknown_kind_codes() {
    let rows = vec![row_at(1, 7, 0, 0, 0), row_at(2, -1, 0, 0, 0)];
    let ctx = classify(&rows, 0);
    assert_eq!(ctx.reapers.len(), 0);
    assert_eq!(ctx.destroyers.len(), 0);
    assert_eq!(ctx.doofs.len(), 0);
    assert_eq!(ctx.tankers.len(), 0);
    assert_eq!(ctx.wrecks.len(), 0);
    assert_eq!(ctx.tar_pools.len(), 0);
    assert_eq!(ctx.oil_pools.len(), 0);
    assert!(ctx.my_reaper.is_none());
    assert!(ctx.my_destroyer.is_none());
    assert!(ctx.my_doof.is_none());
}

#[test]
fn classifier_singleton_slot_takes_the_last_matching_row() {
    let rows = vec![
        row_at(1, 0, 0, 10, 10),
        row_at(2, 0, 0, 20, 20),
        row_at(3, 0, 1, 30, 30),
    ];
    let ctx = classify(&rows, 0);
    assert_eq!(ctx.reapers.len(), 3);
    assert_eq!(ctx.my_reaper.unwrap().unit.unit_id, 2);
}

#[test]
fn classifier_is_deterministic_and_turns_are_independent() {
    let rows_a = vec![row_at(1, 0, 0, 10, 10), row_at(2, 1, 1, 20, 20)];
    let rows_b = vec![row_at(9, 2, 0, 90, 90)];
    let first = classify(&rows_a, 0);
    let again = classify(&rows_a, 0);
    assert_eq!(first.reapers, again.reapers);
    assert_eq!(first.destroyers, again.destroyers);
    assert_eq!(first.my_reaper, again.my_reaper);
    let _other_turn = classify(&rows_b, 0);
    let after = classify(&rows_a, 0);
    assert_eq!(first.reapers, after.reapers);
    assert_eq!(first.destroyers, after.destroyers);
    assert_eq!(first.doofs, after.doofs);
    assert_eq!(first.my_reaper, after.my_reaper);
    assert_eq!(first.my_destroyer, after.my_destroyer);
    assert_eq!(first.my_doof, after.my_doof);
}

#[test]
fn support_targets_the_farthest_enemy_destroyer() {
    let doof = doof_at(0, 0, 0);
    let destroyers = vec![
        destroyer_at(10, 0, 5, 5),
        destroyer_at(11, 1, 300, 0),
        destroyer_at(12, 1, 900, 0),
        destroyer_at(13, 2, 450, 0),
    ];
    let target = find_doof_target(Some(&doof), &destroyers, 0);
    assert_eq!(target, Ok(Coordinate::new(900, 0)));
}

#[test]
fn support_target_ties_keep_the_first_in_input_order() {
    let doof = doof_at(0, 0, 0);
    let destroyers = vec![destroyer_at(11, 1, 700, 0), destroyer_at(12, 2, 0, 700)];
    let target = find_doof_target(Some(&doof), &destroyers, 0);
    assert_eq!(target, Ok(Coordinate::new(700, 0)));
}

#[test]
fn support_without_doof_targets_the_first_enemy_destroyer() {
    let destroyers = vec![
        destroyer_at(10, 0, 5, 5),
        destroyer_at(11, 1, 300, 0),
        destroyer_at(12, 2, 900, 0),
    ];
    let target = find_doof_target(None, &destroyers, 0);
    assert_eq!(target, Ok(Coordinate::new(300, 0)));
}

#[test]
fn support_with_no_enemy_destroyer_is_fatal() {
    let doof = doof_at(0, 0, 0);
    let own_only = vec![destroyer_at(10, 0, 5, 5)];
    assert_eq!(
        find_doof_target(Some(&doof), &own_only, 0),
        Err(TurnError::NoEnemyDestroyer)
    );
    assert_eq!(
        find_doof_target(None, &own_only, 0),
        Err(TurnError::NoEnemyDestroyer)
    );
}

#[test]
fn rage_below_threshold_always_moves_to_the_chosen_tanker() {
    let doof = doof_at(0, 0, 0);
    let destroyer = destroyer_at(20, 0, 0, 0);
    let reapers = vec![reaper_at(30, 1, 1, 0)];
    let destroyers = vec![destroyer_at(21, 1, 2, 0)];
    let tanker_pos = Coordinate::new(123, 456);
    let cmd = destroyer_decider(
        44,
        &tanker_pos,
        Some(&doof),
        Some(&destroyer),
        &reapers,
        &destroyers,
        0,
    );
    assert_eq!(cmd, Command::Move { x: 123, y: 456, throttle: 200 });
}

#[test]
fn rage_at_threshold_triggers_on_an_enemy_reaper_at_999() {
    let doof = doof_at(0, 0, 0);
    let destroyer = destroyer_at(20, 0, 0, 0);
    let reapers = vec![reaper_at(30, 0, 1, 0), reaper_at(31, 1, 999, 0)];
    let destroyers = vec![destroyer_at(20, 0, 0, 0)];
    let tanker_pos = Coordinate::new(123, 456);
    let cmd = destroyer_decider(
        45,
        &tanker_pos,
        Some(&doof),
        Some(&destroyer),
        &reapers,
        &destroyers,
        0,
    );
    assert_eq!(cmd, Command::Skill { x: 999, y: 0 });
}

#[test]
fn rage_at_threshold_with_nearest_hostile_at_1001_moves() {
    let doof = doof_at(0, 0, 0);
    let destroyer = destroyer_at(20, 0, 0, 0);
    let reapers = vec![reaper_at(31, 1, 1001, 0)];
    let destroyers = vec![destroyer_at(20, 0, 0, 0), destroyer_at(21, 1, 0, 1001)];
    let tanker_pos = Coordinate::new(123, 456);
    let cmd = destroyer_decider(
        45,
        &tanker_pos,
        Some(&doof),
        Some(&destroyer),
        &reapers,
        &destroyers,
        0,
    );
    assert_eq!(cmd, Command::Move { x: 123, y: 456, throttle: 200 });
}

#[test]
fn skill_range_boundary_at_exactly_1000_is_out_of_range() {
    let doof = doof_at(0, 0, 0);
    let destroyer = destroyer_at(20, 0, 0, 0);
    let reapers = vec![reaper_at(31, 1, 1000, 0)];
    let destroyers = vec![];
    let tanker_pos = Coordinate::new(0, 0);
    let cmd = destroyer_decider(
        50,
        &tanker_pos,
        Some(&doof),
        Some(&destroyer),
        &reapers,
        &destroyers,
        0,
    );
    assert_eq!(cmd, Command::Move { x: 0, y: 0, throttle: 200 });
}

#[test]
fn skill_takes_the_first_in_range_unit_in_input_order_not_the_nearest() {
    let doof = doof_at(0, 0, 0);
    let destroyer = destroyer_at(20, 0, 0, 0);
    let reapers = vec![
        reaper_at(30, 0, 5, 0),
        reaper_at(31, 1, 900, 0),
        reaper_at(32, 2, 10, 0),
    ];
    let destroyers = vec![destroyer_at(21, 1, 50, 0)];
    let tanker_pos = Coordinate::new(0, 0);
    let cmd = destroyer_decider(
        45,
        &tanker_pos,
        Some(&doof),
        Some(&destroyer),
        &reapers,
        &destroyers,
        0,
    );
    assert_eq!(cmd, Command::Skill { x: 900, y: 0 });
}

#[test]
fn skill_falls_back_to_enemy_destroyers_when_no_reaper_is_in_range() {
    let doof = doof_at(0, 0, 0);
    let destroyer = destroyer_at(20, 0, 0, 0);
    let reapers = vec![reaper_at(31, 1, 5000, 0)];
    let destroyers = vec![destroyer_at(20, 0, 0, 0), destroyer_at(21, 1, 0, 400)];
    let tanker_pos = Coordinate::new(0, 0);
    let cmd = destroyer_decider(
        60,
        &tanker_pos,
        Some(&doof),
        Some(&destroyer),
        &reapers,
        &destroyers,
        0,
    );
    assert_eq!(cmd, Command::Skill { x: 0, y: 400 });
}

#[test]
fn destroyer_with_missing_doof_or_destroyer_moves_by_default() {
    let doof = doof_at(0, 0, 0);
    let destroyer = destroyer_at(20, 0, 0, 0);
    let reapers = vec![reaper_at(31, 1, 1, 0)];
    let destroyers = vec![];
    let tanker_pos = Coordinate::new(7, 8);
    let without_doof = destroyer_decider(
        99,
        &tanker_pos,
        None,
        Some(&destroyer),
        &reapers,
        &destroyers,
        0,
    );
    assert_eq!(without_doof, Command::Move { x: 7, y: 8, throttle: 200 });
    let without_destroyer =
        destroyer_decider(99, &tanker_pos, Some(&doof), None, &reapers, &destroyers, 0);
    assert_eq!(without_destroyer, Command::Move { x: 7, y: 8, throttle: 200 });
}

#[test]
fn lead_pursuit_aim_point_compensates_for_velocity() {
    let reaper = Reaper::new(1, 0, 0, 1000, 400, 0, 0, 10, -4);
    let wreck = Coordinate::new(500, 500);
    let cmd = reaper_decider(Some(&reaper), &wreck, 1);
    assert_eq!(cmd, Ok(Command::Move { x: 485, y: 506, throttle: 200 }));
}

#[test]
fn lead_pursuit_truncates_toward_zero_on_odd_velocities() {
    let reaper = Reaper::new(1, 0, 0, 1000, 400, 0, 0, 3, -3);
    let wreck = Coordinate::new(0, 0);
    let cmd = reaper_decider(Some(&reaper), &wreck, 2);
    assert_eq!(cmd, Ok(Command::Move { x: -4, y: 4, throttle: 200 }));
}

#[test]
fn first_two_rounds_move_and_later_rounds_hold_course() {
    let reaper = Reaper::new(1, 0, 0, 1000, 400, 0, 0, 10, -4);
    let wreck = Coordinate::new(500, 500);
    assert_eq!(
        reaper_decider(Some(&reaper), &wreck, 2),
        Ok(Command::Move { x: 485, y: 506, throttle: 200 })
    );
    assert_eq!(
        reaper_decider(Some(&reaper), &wreck, 3),
        Ok(Command::Wait { vx: 10, vy: -4 })
    );
    assert_eq!(
        reaper_decider(Some(&reaper), &wreck, 100),
        Ok(Command::Wait { vx: 10, vy: -4 })
    );
}

#[test]
fn missing_reaper_is_fatal() {
    let wreck = Coordinate::new(500, 500);
    assert_eq!(reaper_decider(None, &wreck, 1), Err(TurnError::MissingReaper));
}

#[test]
fn play_turn_emits_the_three_commands() {
    let rows = vec![
        row_at(1, 0, 0, 0, 0),
        row_at(2, 1, 0, 0, 0),
        row_at(3, 2, 0, 0, 0),
        row_at(4, 1, 1, 2000, 0),
    ];
    let ctx = classify(&rows, 0);
    let wreck = Coordinate::new(100, 100);
    let tanker = Coordinate::new(200, 200);
    let commands = play_turn(&ctx, 10, &wreck, &tanker, 1, 0).unwrap();
    assert_eq!(commands.reaper, Command::Move { x: 100, y: 100, throttle: 200 });
    assert_eq!(commands.destroyer, Command::Move { x: 200, y: 200, throttle: 200 });
    assert_eq!(commands.doof, Command::Move { x: 2000, y: 0, throttle: 300 });
}

#[test]
fn play_turn_without_a_reaper_is_fatal() {
    let rows = vec![
        row_at(2, 1, 0, 0, 0),
        row_at(3, 2, 0, 0, 0),
        row_at(4, 1, 1, 2000, 0),
    ];
    let ctx = classify(&rows, 0);
    let wreck = Coordinate::new(100, 100);
    let tanker = Coordinate::new(200, 200);
    assert_eq!(
        play_turn(&ctx, 10, &wreck, &tanker, 1, 0),
        Err(TurnError::MissingReaper)
    );
}

#[test]
fn play_turn_without_any_enemy_destroyer_is_fatal() {
    let rows = vec![row_at(1, 0, 0, 0, 0), row_at(2, 1, 0, 0, 0), row_at(3, 2, 0, 0, 0)];
    let ctx = classify(&rows, 0);
    let wreck = Coordinate::new(100, 100);
    let tanker = Coordinate::new(200, 200);
    assert_eq!(
        play_turn(&ctx, 10, &wreck, &tanker, 1, 0),
        Err(TurnError::NoEnemyDestroyer)
    );
}
