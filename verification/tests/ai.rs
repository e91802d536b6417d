use ballpit::game::player::ai::{handle_ai_behavior, handle_ai_input, Behavior, PlayerBearing};
use ballpit::game::player::{Activity, Combo, Hype, JumpCounter, Sign};

fn bearing() -> PlayerBearing {
    PlayerBearing {
        x_sign_positive: true,
        y_sign_positive: false,
        right_of_player: false,
        left_of_player: false,
        chase_jump_window: false,
        evade_jump_window: false,
    }
}

#[test]
fn out_of_range_enemies_chase() {
    let mut b = Behavior::Attacking;
    handle_ai_behavior(&mut b, false, &Hype(0, 0), &Combo(5, 0), &Hype(9, 0), &Combo(0, 0));
    assert_eq!(b, Behavior::Chasing);
}

#[test]
fn weaker_enemies_evade_stronger_attack() {
    let mut b = Behavior::Chasing;
    // 1 - 2 + 0 - 0 = -1
    handle_ai_behavior(&mut b, true, &Hype(1, 0), &Combo(0, 0), &Hype(2, 0), &Combo(0, 0));
    assert_eq!(b, Behavior::Evading);
    // 1 - 2 + 3 - 2 = 0
    handle_ai_behavior(&mut b, true, &Hype(1, 0), &Combo(2, 0), &Hype(2, 0), &Combo(3, 0));
    assert_eq!(b, Behavior::Attacking);
}

#[test]
fn chasing_pushes_toward_player_and_jumps() {
    let mut activity = Activity::Idle;
    let mut view = bearing();
    view.chase_jump_window = true;
    let push = handle_ai_input(&mut activity, &Behavior::Chasing, &JumpCounter(1), &view);
    assert_eq!(push, Some((Sign::Negative, Sign::Positive)));
    assert_eq!(activity, Activity::Jump);
    let mut activity = Activity::Idle;
    handle_ai_input(&mut activity, &Behavior::Chasing, &JumpCounter(0), &view);
    assert_eq!(activity, Activity::Idle);
}

#[test]
fn evading_pushes_away() {
    let mut activity = Activity::Flinch;
    let mut view = bearing();
    view.evade_jump_window = true;
    let push = handle_ai_input(&mut activity, &Behavior::Evading, &JumpCounter(2), &view);
    assert_eq!(push, Some((Sign::Positive, Sign::Negative)));
    assert_eq!(activity, Activity::Flinch);
}

#[test]
fn attacking_picks_attack_by_side() {
    let mut view = bearing();
    view.right_of_player = true;
    let mut activity = Activity::Idle;
    assert_eq!(handle_ai_input(&mut activity, &Behavior::Attacking, &JumpCounter(0), &view), None);
    assert_eq!(activity, Activity::Counter);
    view.right_of_player = false;
    view.left_of_player = true;
    let mut activity = Activity::Idle;
    handle_ai_input(&mut activity, &Behavior::Attacking, &JumpCounter(0), &view);
    assert_eq!(activity, Activity::Stomp);
    view.left_of_player = false;
    let mut activity = Activity::Idle;
    handle_ai_input(&mut activity, &Behavior::Attacking, &JumpCounter(0), &view);
    assert_eq!(activity, Activity::Jab);
    let mut activity = Activity::Counter;
    handle_ai_input(&mut activity, &Behavior::Attacking, &JumpCounter(0), &view);
    assert_eq!(activity, Activity::Counter);
}
