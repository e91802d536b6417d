//! How enemies choose what to do.

use vstd::prelude::*;

use crate::game::player::{can_jump, can_jump_now, Activity, Combo, Hype, JumpCounter, Sign};

verus! {

/// An enemy's current plan.
#[derive(Clone, Copy, Debug, PartialEq, Eq, Structural)]
pub enum Behavior {
    Chasing,
    Evading,
    Attacking,
}

/// An enemy's strength over the player: its Hype and the player's Combo
/// count for it, the player's Hype and its own Combo against it.
pub open spec fn strength_advantage(hype: Hype, combo: Combo, player_hype: Hype, player_combo: Combo) -> int {
    hype.0 - player_hype.0 + player_combo.0 - combo.0
}

/// The strength sum, evaluated left to right, stays within `i32`.
pub open spec fn advantage_fits(hype: Hype, combo: Combo, player_hype: Hype, player_combo: Combo) -> bool {
    &&& i32::MIN <= hype.0 - player_hype.0 <= i32::MAX
    &&& i32::MIN <= hype.0 - player_hype.0 + player_combo.0 <= i32::MAX
    &&& i32::MIN <= strength_advantage(hype, combo, player_hype, player_combo) <= i32::MAX
}

pub open spec fn behavior_for(in_range: bool, advantage: int) -> Behavior {
    if in_range {
        if advantage < 0 {
            Behavior::Evading
        } else {
            Behavior::Attacking
        }
    } else {
        Behavior::Chasing
    }
}

/// An enemy out of range of the player chases it; in range, it attacks
/// unless it is the weaker, when it evades.
pub fn handle_ai_behavior(
    behavior: &mut Behavior,
    in_range: bool,
    hype: &Hype,
    combo: &Combo,
    player_hype: &Hype,
    player_combo: &Combo,
)
    requires
        advantage_fits(*hype, *combo, *player_hype, *player_combo),
    ensures
        *final(behavior) == behavior_for(in_range, strength_advantage(*hype, *combo, *player_hype, *player_combo)),
{
    let my_strength_advantage = hype.0 - player_hype.0 + player_combo.0 - combo.0;
    *behavior = if in_range {
        if my_strength_advantage < 0 {
            Behavior::Evading
        } else {
            Behavior::Attacking
        }
    } else {
        Behavior::Chasing
    }
}

/// Where the player is as an enemy sees it, from the vector that points
/// from the player to the enemy.
#[derive(Clone, Copy, Debug, PartialEq, Eq, Structural)]
pub struct PlayerBearing {
    /// The vector's x has a positive sign (the enemy is not left of the player).
    pub x_sign_positive: bool,
    /// The vector's y has a positive sign (the enemy is not below the player).
    pub y_sign_positive: bool,
    /// x is positive and larger than the size of y.
    pub right_of_player: bool,
    /// x is negative and its size is larger than the size of y.
    pub left_of_player: bool,
    /// y is at least 70 and the vector is shorter than 150.
    pub chase_jump_window: bool,
    /// y is at most 30 and the vector is shorter than 80.
    pub evade_jump_window: bool,
}

pub open spec fn away_from(sign_positive: bool) -> Sign {
    if sign_positive {
        Sign::Positive
    } else {
        Sign::Negative
    }
}

pub open spec fn toward(sign_positive: bool) -> Sign {
    if sign_positive {
        Sign::Negative
    } else {
        Sign::Positive
    }
}

/// The push an enemy gives itself for its behavior.
pub open spec fn ai_push(behavior: Behavior, bearing: PlayerBearing) -> Option<(Sign, Sign)> {
    match behavior {
        Behavior::Chasing => Some((toward(bearing.x_sign_positive), toward(bearing.y_sign_positive))),
        Behavior::Attacking => None,
        Behavior::Evading => Some((away_from(bearing.x_sign_positive), away_from(bearing.y_sign_positive))),
    }
}

/// The enemy's activity after it acts on its behavior.
pub open spec fn ai_activity(activity: Activity, behavior: Behavior, jumps: u8, bearing: PlayerBearing) -> Activity {
    match behavior {
        Behavior::Chasing => if bearing.chase_jump_window && can_jump(activity, jumps) {
            Activity::Jump
        } else {
            activity
        },
        Behavior::Attacking => if activity == Activity::Idle {
            if bearing.right_of_player {
                Activity::Counter
            } else if bearing.left_of_player {
                Activity::Stomp
            } else {
                Activity::Jab
            }
        } else {
            activity
        },
        Behavior::Evading => if bearing.evade_jump_window && can_jump(activity, jumps) {
            Activity::Jump
        } else {
            activity
        },
    }
}

/// An enemy acts on its behavior: chasing pushes toward the player and
/// jumps when it is well above the player and near it; evading pushes away
/// and jumps when it is close to the player and not far above it (or below
/// it); attacking, when idle,
/// counters from the right, stomps from the left and jabs otherwise.
/// Returns the push to take up, if it changes.
pub fn handle_ai_input(
    activity: &mut Activity,
    behavior: &Behavior,
    jumps: &JumpCounter,
    bearing: &PlayerBearing,
) -> (push: Option<(Sign, Sign)>)
    ensures
        push == ai_push(*behavior, *bearing),
        *final(activity) == ai_activity(*old(activity), *behavior, jumps.0, *bearing),
{
    let can_execute_action = *activity == Activity::Idle;
    let can_jump_here = can_jump_now(activity, jumps);
    match behavior {
        Behavior::Chasing => {
            let x = if bearing.x_sign_positive { Sign::Negative } else { Sign::Positive };
            let y = if bearing.y_sign_positive { Sign::Negative } else { Sign::Positive };
            if bearing.chase_jump_window && can_jump_here {
                *activity = Activity::Jump;
            }
            Some((x, y))
        },
        Behavior::Attacking => {
            if can_execute_action {
                if bearing.right_of_player {
                    *activity = Activity::Counter;
                } else if bearing.left_of_player {
                    *activity = Activity::Stomp;
                } else {
                    *activity = Activity::Jab;
                }
            }
            None
        },
        Behavior::Evading => {
            let x = if bearing.x_sign_positive { Sign::Positive } else { Sign::Negative };
            let y = if bearing.y_sign_positive { Sign::Positive } else { Sign::Negative };
            if bearing.evade_jump_window && can_jump_here {
                *activity = Activity::Jump;
            }
            Some((x, y))
        },
    }
}

/// An enemy jumps only when it has a jump left, so taking up the jump
/// never runs its counter below zero.
pub proof fn lemma_ai_jump_is_paid_for(activity: Activity, behavior: Behavior, jumps: u8, bearing: PlayerBearing)
    ensures
        ai_activity(activity, behavior, jumps, bearing) is Jump && !(activity is Jump) ==> jumps > 0,
{
}


/// An enemy's own Hype and the player's Combo count for it, one for one;
/// its own Combo and the player's Hype count against it. In range, an
/// enemy evades exactly when the player is the stronger, and one that is
/// the player's equal but for more Combo of its own evades; out of range
/// it always chases.
pub proof fn lemma_weaker_enemies_evade(
    in_range: bool,
    hype: Hype,
    combo: Combo,
    player_hype: Hype,
    player_combo: Combo,
    extra: i32,
)
    requires
        extra >= 0,
    ensures
        strength_advantage(Hype((hype.0 + extra) as i32, hype.1), combo, player_hype, player_combo)
            == strength_advantage(hype, combo, player_hype, player_combo) + extra
            || hype.0 + extra > i32::MAX,
        strength_advantage(hype, Combo((combo.0 + extra) as i32, combo.1), player_hype, player_combo)
            == strength_advantage(hype, combo, player_hype, player_combo) - extra
            || combo.0 + extra > i32::MAX,
        strength_advantage(hype, combo, player_hype, Combo((player_combo.0 + extra) as i32, player_combo.1))
            == strength_advantage(hype, combo, player_hype, player_combo) + extra
            || player_combo.0 + extra > i32::MAX,
        strength_advantage(hype, combo, Hype((player_hype.0 + extra) as i32, player_hype.1), player_combo)
            == strength_advantage(hype, combo, player_hype, player_combo) - extra
            || player_hype.0 + extra > i32::MAX,
        !in_range ==> behavior_for(in_range, strength_advantage(hype, combo, player_hype, player_combo))
            == Behavior::Chasing,
        in_range ==> (behavior_for(in_range, strength_advantage(hype, combo, player_hype, player_combo))
            == Behavior::Evading <==> hype.0 + player_combo.0 < player_hype.0 + combo.0),
        in_range ==> (behavior_for(in_range, strength_advantage(hype, combo, player_hype, player_combo))
            == Behavior::Attacking <==> hype.0 + player_combo.0 >= player_hype.0 + combo.0),
        in_range && hype.0 == player_hype.0 && combo.0 > player_combo.0 ==> behavior_for(
            in_range,
            strength_advantage(hype, combo, player_hype, player_combo),
        ) == Behavior::Evading,
{
}

/// What an enemy does with each behavior. Chasing and evading push toward
/// and away from the player on both axes; each jumps in its jump window
/// when the enemy has a jump left and is neither jumping, flinching nor
/// landing, and otherwise leaves the activity alone. Attacking never
/// pushes; an idle attacker counters from the right, stomps from the left
/// and jabs otherwise, and a busy one carries on.
pub proof fn lemma_ai_acts_on_behavior(activity: Activity, jumps: u8, bearing: PlayerBearing)
    ensures
        ({
            let free = jumps > 0 && !(activity is Jump || activity is Flinch || activity is Land);
            &&& ai_activity(activity, Behavior::Evading, jumps, bearing) == if bearing.evade_jump_window && free {
                Activity::Jump
            } else {
                activity
            }
            &&& ai_activity(activity, Behavior::Chasing, jumps, bearing) == if bearing.chase_jump_window && free {
                Activity::Jump
            } else {
                activity
            }
        }),
        activity == Activity::Idle && bearing.right_of_player ==> ai_activity(activity, Behavior::Attacking, jumps, bearing)
            == Activity::Counter,
        activity == Activity::Idle && !bearing.right_of_player && bearing.left_of_player ==> ai_activity(
            activity,
            Behavior::Attacking,
            jumps,
            bearing,
        ) == Activity::Stomp,
        activity == Activity::Idle && !bearing.right_of_player && !bearing.left_of_player ==> ai_activity(
            activity,
            Behavior::Attacking,
            jumps,
            bearing,
        ) == Activity::Jab,
        activity != Activity::Idle ==> ai_activity(activity, Behavior::Attacking, jumps, bearing) == activity,
        ai_push(Behavior::Attacking, bearing) is None,
        ({
            let (cx, cy) = ai_push(Behavior::Chasing, bearing).unwrap();
            let (ex, ey) = ai_push(Behavior::Evading, bearing).unwrap();
            &&& (cx == Sign::Negative) == bearing.x_sign_positive && cx != Sign::Zero
            &&& (cy == Sign::Negative) == bearing.y_sign_positive && cy != Sign::Zero
            &&& (ex == Sign::Positive) == bearing.x_sign_positive && ex != Sign::Zero
            &&& (ey == Sign::Positive) == bearing.y_sign_positive && ey != Sign::Zero
        }),
{
}

} // verus!
