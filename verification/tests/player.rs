use ballpit::audio::{Offset, Trigger};
use ballpit::game::player::{
    adjusted_influence, can_execute_action_now, can_jump_now, handle_activity_change,
    handle_activity_timer, handle_attack_collision, handle_enemy_spawn_timer, handle_status_tick,
    handle_turning, handle_wall_contact, impact_axis, jab_direction, strike_side, Activity, ActivityTimer, Axis,
    CharacterShape, Combatant, Combo, Contact, Knockback, Direction, EnemySpawnTimer, Facing, FacingDirection, Hype,
    InfluenceScale, JumpCounter, QuarterTurn, Sign,
};

fn fighter(activity: Activity, hype: i32, combo: i32) -> Combatant {
    Combatant { activity, facing: Facing::default(), hype: Hype(hype, 0), combo: Combo(combo, 0) }
}

#[test]
fn defaults_are_at_rest() {
    assert_eq!(Activity::default(), Activity::Idle);
    assert_eq!(ActivityTimer::default(), ActivityTimer(0));
    assert_eq!(JumpCounter::default(), JumpCounter(0));
    assert_eq!(Facing::default(), Facing(FacingDirection::Right));
    assert_eq!(Hype::default(), Hype(0, 0));
    assert_eq!(Combo::default(), Combo(0, 0));
    assert_eq!(EnemySpawnTimer::default(), EnemySpawnTimer(600));
}

#[test]
fn activity_timer_runs_down_then_idles() {
    let mut activity = Activity::Stomp;
    let mut timer = ActivityTimer(2);
    handle_activity_timer(&mut activity, &mut timer);
    assert_eq!((activity, timer), (Activity::Stomp, ActivityTimer(1)));
    handle_activity_timer(&mut activity, &mut timer);
    assert_eq!((activity, timer), (Activity::Stomp, ActivityTimer(0)));
    handle_activity_timer(&mut activity, &mut timer);
    assert_eq!((activity, timer), (Activity::Idle, ActivityTimer(0)));
}

#[test]
fn every_activity_ends_after_its_duration() {
    let mut activity = Activity::Jump;
    let mut timer = ActivityTimer(0);
    let mut jumps = JumpCounter(2);
    handle_activity_change(&activity, &Facing::default(), &mut timer, &mut jumps);
    assert_eq!(timer, ActivityTimer(30));
    for _ in 0..30 {
        handle_activity_timer(&mut activity, &mut timer);
        assert_eq!(activity, Activity::Jump);
    }
    handle_activity_timer(&mut activity, &mut timer);
    assert_eq!(activity, Activity::Idle);
}

#[test]
fn activity_change_jump() {
    let mut timer = ActivityTimer(5);
    let mut jumps = JumpCounter(2);
    let change = handle_activity_change(&Activity::Jump, &Facing::default(), &mut timer, &mut jumps);
    assert_eq!(change.outline, CharacterShape::Ellipse { radius_x: 20, radius_y: 25 });
    assert!(change.launch_upward);
    assert_eq!(change.rotation, None);
    assert_eq!(change.sound, Some((Trigger::CharacterJump, Offset(0))));
    assert_eq!(timer, ActivityTimer(30));
    assert_eq!(jumps, JumpCounter(1));
}

#[test]
fn activity_change_shapes_timers_and_sounds() {
    let facing_left = Facing(FacingDirection::Left);
    let cases = [
        (Activity::Idle, CharacterShape::Circle { radius: 25 }, 7, None),
        (Activity::Flinch, CharacterShape::Circle { radius: 23 }, 61, None),
        (Activity::Land(Direction::Top), CharacterShape::Ellipse { radius_x: 25, radius_y: 20 }, 42, None),
        (Activity::Land(Direction::Bottom), CharacterShape::Ellipse { radius_x: 25, radius_y: 20 }, 42, None),
        (Activity::Land(Direction::Left), CharacterShape::Ellipse { radius_x: 20, radius_y: 25 }, 42, None),
        (
            Activity::Jab,
            CharacterShape::RegularPolygon { sides: 3, apothem: 20 },
            55,
            Some((Trigger::CharacterAttack, Offset(1))),
        ),
        (
            Activity::Stomp,
            CharacterShape::RegularPolygon { sides: 4, apothem: 25 },
            121,
            Some((Trigger::CharacterAttack, Offset(-2))),
        ),
        (
            Activity::Counter,
            CharacterShape::RegularPolygon { sides: 8, apothem: 25 },
            121,
            Some((Trigger::CharacterAttack, Offset(3))),
        ),
    ];
    for (activity, outline, ticks, sound) in cases {
        let mut timer = ActivityTimer(7);
        let mut jumps = JumpCounter(0);
        let change = handle_activity_change(&activity, &facing_left, &mut timer, &mut jumps);
        assert_eq!(change.outline, outline);
        assert_eq!(change.sound, sound);
        assert!(!change.launch_upward);
        assert_eq!(timer, ActivityTimer(ticks));
        assert_eq!(jumps, JumpCounter(0));
    }
}

#[test]
fn jab_turns_toward_facing() {
    let mut timer = ActivityTimer(0);
    let mut jumps = JumpCounter(1);
    let left = handle_activity_change(&Activity::Jab, &Facing(FacingDirection::Left), &mut timer, &mut jumps);
    assert_eq!(left.rotation, Some(QuarterTurn::CounterClockwise));
    let right = handle_activity_change(&Activity::Jab, &Facing(FacingDirection::Right), &mut timer, &mut jumps);
    assert_eq!(right.rotation, Some(QuarterTurn::Clockwise));
    assert_eq!(jab_direction(&Facing(FacingDirection::Left)), Direction::Left);
    assert_eq!(jab_direction(&Facing(FacingDirection::Right)), Direction::Right);
}

#[test]
fn idle_characters_turn_with_input() {
    let mut facing = Facing(FacingDirection::Right);
    handle_turning(&mut facing, &Activity::Idle, Sign::Negative);
    assert_eq!(facing, Facing(FacingDirection::Left));
    handle_turning(&mut facing, &Activity::Idle, Sign::Zero);
    assert_eq!(facing, Facing(FacingDirection::Left));
    handle_turning(&mut facing, &Activity::Jab, Sign::Positive);
    assert_eq!(facing, Facing(FacingDirection::Left));
    handle_turning(&mut facing, &Activity::Idle, Sign::Positive);
    assert_eq!(facing, Facing(FacingDirection::Right));
}

#[test]
fn influence_scales_by_activity() {
    let (full, half, zero) = (InfluenceScale::Full, InfluenceScale::Half, InfluenceScale::Zero);
    assert_eq!(adjusted_influence(&Activity::Idle), (full, full));
    assert_eq!(adjusted_influence(&Activity::Jump), (full, full));
    assert_eq!(adjusted_influence(&Activity::Flinch), (zero, zero));
    assert_eq!(adjusted_influence(&Activity::Land(Direction::Top)), (half, zero));
    assert_eq!(adjusted_influence(&Activity::Land(Direction::Right)), (zero, half));
    assert_eq!(adjusted_influence(&Activity::Jab), (half, half));
    assert_eq!(adjusted_influence(&Activity::Stomp), (half, half));
    assert_eq!(adjusted_influence(&Activity::Counter), (half, half));
}

#[test]
fn wall_contact_restores_two_jumps() {
    let mut activity = Activity::Jump;
    let mut jumps = JumpCounter(0);
    let stopped = handle_wall_contact(&mut activity, &mut jumps, Direction::Right, true, false, false);
    assert_eq!(stopped, Some(Axis::X));
    assert_eq!(jumps, JumpCounter(2));
    assert_eq!(activity, Activity::Jump);
}

#[test]
fn hard_wall_contact_lands() {
    let mut activity = Activity::Idle;
    let mut jumps = JumpCounter(1);
    let stopped = handle_wall_contact(&mut activity, &mut jumps, Direction::Bottom, true, false, true);
    assert_eq!(stopped, Some(Axis::Y));
    assert_eq!(activity, Activity::Land(Direction::Bottom));
    assert_eq!(jumps, JumpCounter(2));
}

#[test]
fn wall_stops_only_motion_into_it() {
    let mut activity = Activity::Idle;
    let mut jumps = JumpCounter(0);
    assert_eq!(handle_wall_contact(&mut activity, &mut jumps, Direction::Left, true, true, false), None);
    assert_eq!(handle_wall_contact(&mut activity, &mut jumps, Direction::Left, false, true, false), Some(Axis::X));
    assert_eq!(handle_wall_contact(&mut activity, &mut jumps, Direction::Top, false, true, false), Some(Axis::Y));
    assert_eq!(handle_wall_contact(&mut activity, &mut jumps, Direction::Top, true, false, false), None);
    assert_eq!(impact_axis(Direction::Left), Axis::X);
    assert_eq!(impact_axis(Direction::Right), Axis::X);
    assert_eq!(impact_axis(Direction::Top), Axis::Y);
    assert_eq!(impact_axis(Direction::Bottom), Axis::Y);
}

#[test]
fn can_act_and_jump() {
    assert!(can_execute_action_now(&Activity::Idle));
    assert!(can_execute_action_now(&Activity::Counter));
    assert!(!can_execute_action_now(&Activity::Jab));
    assert!(can_jump_now(&Activity::Idle, &JumpCounter(1)));
    assert!(can_jump_now(&Activity::Stomp, &JumpCounter(1)));
    assert!(!can_jump_now(&Activity::Idle, &JumpCounter(0)));
    assert!(!can_jump_now(&Activity::Land(Direction::Top), &JumpCounter(2)));
    assert!(!can_jump_now(&Activity::Flinch, &JumpCounter(2)));
    assert!(!can_jump_now(&Activity::Jump, &JumpCounter(2)));
}

fn thrown(side: Option<Direction>, strength: i64) -> Option<Knockback> {
    Some(Knockback { side, strength })
}

#[test]
fn strike_on_idle_target_launches_and_flinches() {
    let mut a = fighter(Activity::Jab, 2, 0);
    let mut b = fighter(Activity::Idle, 0, 1);
    let e = handle_attack_collision(&mut a, &mut b, Contact::Touch, Contact::Touch);
    assert_eq!(e.second_knockback, thrown(Some(Direction::Right), 4));
    assert_eq!(e.first_knockback, None);
    assert_eq!(e.second_hit_sound, Some(Offset(2)));
    assert_eq!(e.first_hit_sound, None);
    assert_eq!(a.hype, Hype(3, 4_000_000_000));
    assert_eq!(b.combo, Combo(2, 6_000_000_000));
    assert_eq!(b.activity, Activity::Flinch);
}

#[test]
fn jab_throws_the_way_it_faces() {
    let mut a = fighter(Activity::Jab, 0, 0);
    a.facing = Facing(FacingDirection::Left);
    let mut b = fighter(Activity::Idle, 0, 0);
    let e = handle_attack_collision(&mut a, &mut b, Contact::Touch, Contact::Miss);
    assert_eq!(e.second_knockback, thrown(Some(Direction::Left), 1));
    assert_eq!(strike_side(&Activity::Jab, &a.facing, Contact::Side(Direction::Top)), Some(Direction::Left));
}

#[test]
fn stomp_throws_from_the_side_it_meets() {
    let mut a = fighter(Activity::Stomp, 0, 0);
    let mut b = fighter(Activity::Idle, 0, 0);
    let e = handle_attack_collision(&mut a, &mut b, Contact::Side(Direction::Top), Contact::Miss);
    assert_eq!(e.second_knockback, thrown(Some(Direction::Top), 1));
    assert_eq!(strike_side(&Activity::Stomp, &a.facing, Contact::Side(Direction::Left)), Some(Direction::Left));
    assert_eq!(strike_side(&Activity::Stomp, &a.facing, Contact::Touch), None);
}

#[test]
fn counter_strike_stops_its_target() {
    let mut a = fighter(Activity::Counter, 1, 0);
    let mut b = fighter(Activity::Idle, 0, 0);
    let e = handle_attack_collision(&mut a, &mut b, Contact::Touch, Contact::Miss);
    assert_eq!(e.second_knockback, thrown(None, 2));
    assert_eq!(b.activity, Activity::Flinch);
    assert_eq!(strike_side(&Activity::Counter, &a.facing, Contact::Touch), None);
}

#[test]
fn counter_absorbs_strike_and_strikes_back() {
    let mut a = fighter(Activity::Stomp, 1, 0);
    let mut b = fighter(Activity::Counter, 0, 0);
    let e = handle_attack_collision(&mut a, &mut b, Contact::Side(Direction::Left), Contact::Touch);
    // b counters a's stomp, then b's counter lands on a
    assert_eq!(e.second_knockback, None);
    assert_eq!(e.second_hit_sound, Some(Offset(-3 + 1 + 0)));
    assert_eq!(b.activity, Activity::Counter);
    // return strike: a is stomping, so it is stopped with strength (1 + 1) * (1 + 2)
    assert_eq!(e.first_knockback, thrown(None, 6));
    assert_eq!(a.activity, Activity::Flinch);
    assert_eq!(a.combo, Combo(2, 1_500_000_000));
    assert_eq!(a.hype, Hype(1, 0));
    assert_eq!(b.hype, Hype(2, 4_000_000_000));
    assert_eq!(e.first_hit_sound, Some(Offset(-3 + 2 + 2)));
}

#[test]
fn flinching_target_is_untouched() {
    let mut a = fighter(Activity::Jab, 0, 0);
    let mut b = fighter(Activity::Flinch, 0, 0);
    let e = handle_attack_collision(&mut a, &mut b, Contact::Touch, Contact::Miss);
    assert_eq!(e.second_knockback, None);
    assert_eq!(e.second_hit_sound, Some(Offset(-3)));
    assert_eq!(a, fighter(Activity::Jab, 0, 0));
    assert_eq!(b, fighter(Activity::Flinch, 0, 0));
}

#[test]
fn flinched_attacker_cannot_strike_back() {
    let mut a = fighter(Activity::Jab, 0, 0);
    let mut b = fighter(Activity::Jab, 0, 0);
    let e = handle_attack_collision(&mut a, &mut b, Contact::Touch, Contact::Touch);
    assert_eq!(e.second_knockback, thrown(Some(Direction::Right), 1));
    assert_eq!(e.first_knockback, None);
    assert_eq!(e.first_hit_sound, None);
    assert_eq!(a.activity, Activity::Jab);
}

#[test]
fn idle_characters_do_not_strike() {
    let mut a = fighter(Activity::Idle, 0, 0);
    let mut b = fighter(Activity::Land(Direction::Top), 0, 0);
    let e = handle_attack_collision(&mut a, &mut b, Contact::Touch, Contact::Touch);
    assert_eq!(e.second_knockback, None);
    assert_eq!(e.first_knockback, None);
    assert_eq!(e.second_hit_sound, None);
    assert_eq!(e.first_hit_sound, None);
}

#[test]
fn missed_attacks_do_nothing() {
    let mut a = fighter(Activity::Jab, 0, 0);
    let mut b = fighter(Activity::Stomp, 0, 0);
    let e = handle_attack_collision(&mut a, &mut b, Contact::Miss, Contact::Miss);
    assert_eq!(e.second_knockback, None);
    assert_eq!(e.first_knockback, None);
    assert_eq!(e.second_hit_sound, None);
    assert_eq!(e.first_hit_sound, None);
    assert_eq!((a, b), (fighter(Activity::Jab, 0, 0), fighter(Activity::Stomp, 0, 0)));
}

#[test]
fn return_strike_alone() {
    let mut a = fighter(Activity::Idle, 0, 3);
    let mut b = fighter(Activity::Stomp, 2, 0);
    let e = handle_attack_collision(&mut a, &mut b, Contact::Miss, Contact::Side(Direction::Bottom));
    assert_eq!(e.first_knockback, thrown(Some(Direction::Bottom), (1 + 2) * (1 + 4)));
    assert_eq!(a.combo, Combo(4, 1_500_000_000));
    assert_eq!(b.hype, Hype(3, 0));
    assert_eq!(e.first_hit_sound, Some(Offset(-3 + 3 + 4)));
}

#[test]
fn hype_and_combo_balance_in_exchange() {
    let mut a = fighter(Activity::Counter, 0, 0);
    let mut b = fighter(Activity::Counter, 0, 0);
    handle_attack_collision(&mut a, &mut b, Contact::Touch, Contact::Touch);
    assert_eq!(a.hype.0 - 0, b.combo.0 - 0);
    assert_eq!(b.hype.0 - 0, a.combo.0 - 0);
    assert_eq!((a.hype.0, a.combo.0, b.hype.0, b.combo.0), (1, 1, 1, 1));
}

#[test]
fn launch_grows_with_hype_and_combo() {
    let mut launches = Vec::new();
    for (hype, combo) in [(0, 0), (1, 0), (1, 2)] {
        let mut a = fighter(Activity::Jab, hype, 0);
        let mut b = fighter(Activity::Idle, 0, combo);
        let e = handle_attack_collision(&mut a, &mut b, Contact::Touch, Contact::Miss);
        launches.push(e.second_knockback.unwrap().strength);
    }
    assert_eq!(launches, vec![1, 2, 4]);
    let mut returns = Vec::new();
    for (hype, combo) in [(0, 0), (2, 0), (2, 1)] {
        let mut a = fighter(Activity::Idle, 0, combo);
        let mut b = fighter(Activity::Jab, hype, 0);
        let e = handle_attack_collision(&mut a, &mut b, Contact::Miss, Contact::Touch);
        returns.push(e.first_knockback.unwrap().strength);
    }
    assert_eq!(returns, vec![2, 6, 9]);
}

#[test]
fn status_decays_one_level_per_second() {
    let mut hype = Hype(2, 100);
    let mut combo = Combo(0, 100);
    handle_status_tick(&mut hype, &mut combo, 300);
    assert_eq!(hype, Hype(1, 999_999_800));
    assert_eq!(combo, Combo(0, 0));
    handle_status_tick(&mut hype, &mut combo, 999_999_800);
    assert_eq!(hype, Hype(0, 1_000_000_000));
    handle_status_tick(&mut hype, &mut combo, 2_000_000_000);
    assert_eq!(hype, Hype(0, 0));
    assert_eq!(combo, Combo(0, 0));
}

#[test]
fn status_holds_while_time_is_left() {
    let mut hype = Hype(3, 4_000_000_000);
    let mut combo = Combo(1, 6_000_000_000);
    handle_status_tick(&mut hype, &mut combo, 1_000_000_000);
    assert_eq!(hype, Hype(3, 3_000_000_000));
    assert_eq!(combo, Combo(1, 5_000_000_000));
}

#[test]
fn spawn_timer_period() {
    let mut timer = EnemySpawnTimer::default();
    for _ in 0..599 {
        assert!(!handle_enemy_spawn_timer(&mut timer, 3));
    }
    assert_eq!(timer, EnemySpawnTimer(1));
    assert!(handle_enemy_spawn_timer(&mut timer, 6));
    assert_eq!(timer, EnemySpawnTimer(600));
}

#[test]
fn crowded_stage_holds_spawns() {
    let mut timer = EnemySpawnTimer(1);
    assert!(!handle_enemy_spawn_timer(&mut timer, 7));
    assert_eq!(timer, EnemySpawnTimer(1));
}

#[test]
fn exchange_fit_check() {
    use_exchange_fit();
}

fn use_exchange_fit() {
    let a = fighter(Activity::Jab, i32::MAX, 0);
    let b = fighter(Activity::Idle, 0, 0);
    assert!(!ballpit::game::player::exchange_fits_now(&a, &b, Contact::Touch, Contact::Miss));
    assert!(ballpit::game::player::exchange_fits_now(&a, &b, Contact::Miss, Contact::Miss));
    let c = fighter(Activity::Flinch, i32::MAX, i32::MAX);
    assert!(ballpit::game::player::exchange_fits_now(&a, &c, Contact::Touch, Contact::Touch));
    let d = fighter(Activity::Counter, i32::MAX, 0);
    assert!(!ballpit::game::player::exchange_fits_now(&b, &d, Contact::Miss, Contact::Touch));
}
