//! The game proper: characters, input, the arena and the score.

pub mod audio;
pub mod input;
pub mod level;
pub mod player;
pub mod scoreboard;

use vstd::prelude::*;

use crate::game::input::ActionType;
use crate::game::player::{can_execute_action, can_execute_action_now, can_jump, can_jump_now, Activity, JumpCounter};

verus! {

/// The player's activity after asking for `action`: a jump is taken when a
/// jump is allowed, an attack when an action is allowed; otherwise nothing
/// changes.
pub open spec fn apply_action(activity: Activity, jumps: u8, action: ActionType) -> Activity {
    match action {
        ActionType::Jump => if can_jump(activity, jumps) { Activity::Jump } else { activity },
        ActionType::Jab => if can_execute_action(activity) { Activity::Jab } else { activity },
        ActionType::Stomp => if can_execute_action(activity) { Activity::Stomp } else { activity },
        ActionType::Counter => if can_execute_action(activity) { Activity::Counter } else { activity },
    }
}

/// Whether asking for `action` starts it.
pub open spec fn accepts_action(activity: Activity, jumps: u8, action: ActionType) -> bool {
    match action {
        ActionType::Jump => can_jump(activity, jumps),
        _ => can_execute_action(activity),
    }
}

/// Whether any of `actions`, asked for in turn, was started.
pub open spec fn any_action_taken(activity: Activity, jumps: u8, actions: Seq<ActionType>) -> bool
    decreases actions.len(),
{
    if actions.len() == 0 {
        false
    } else {
        any_action_taken(activity, jumps, actions.drop_last()) || accepts_action(
            apply_actions(activity, jumps, actions.drop_last()),
            jumps,
            actions.last(),
        )
    }
}

/// The player's activity after asking for each of `actions` in turn.
pub open spec fn apply_actions(activity: Activity, jumps: u8, actions: Seq<ActionType>) -> Activity
    decreases actions.len(),
{
    if actions.len() == 0 {
        activity
    } else {
        apply_action(apply_actions(activity, jumps, actions.drop_last()), jumps, actions.last())
    }
}

/// The player's actions of this frame, in the order they were asked for.
/// Returns whether any was started; a started action restarts the
/// activity even when it is the one already under way.
pub fn handle_input_events(activity: &mut Activity, jumps: &JumpCounter, actions: &Vec<ActionType>) -> (started: bool)
    ensures
        *final(activity) == apply_actions(*old(activity), jumps.0, actions@),
        started == any_action_taken(*old(activity), jumps.0, actions@),
{
    let mut started = false;
    let n = actions.len();
    for i in 0..n
        invariant
            n == actions@.len(),
            *activity == apply_actions(*old(activity), jumps.0, actions@.take(i as int)),
            started == any_action_taken(*old(activity), jumps.0, actions@.take(i as int)),
    {
        assert(actions@.take(i + 1).drop_last() == actions@.take(i as int));
        let can_execute = can_execute_action_now(activity);
        let can_jump_here = can_jump_now(activity, jumps);
        match actions[i] {
            ActionType::Jump => {
                if can_jump_here {
                    *activity = Activity::Jump;
                    started = true;
                }
            },
            ActionType::Jab => {
                if can_execute {
                    *activity = Activity::Jab;
                    started = true;
                }
            },
            ActionType::Stomp => {
                if can_execute {
                    *activity = Activity::Stomp;
                    started = true;
                }
            },
            ActionType::Counter => {
                if can_execute {
                    *activity = Activity::Counter;
                    started = true;
                }
            },
        }
    }
    assert(actions@.take(n as int) == actions@);
    started
}

/// A jump asked for is always paid for: when the player's actions take it
/// into a new jump, it had a jump left, so taking up the jump (which uses
/// one) never runs the counter below zero.
pub proof fn lemma_input_jump_is_paid_for(activity: Activity, jumps: u8, actions: Seq<ActionType>)
    ensures
        apply_actions(activity, jumps, actions) is Jump && !(activity is Jump) ==> jumps > 0,
    decreases actions.len(),
{
    if actions.len() > 0 {
        lemma_input_jump_is_paid_for(activity, jumps, actions.drop_last());
    }
}

/// Countering can be cancelled: from a counter any attack is taken at
/// once, and a jump whenever one is left.
pub proof fn lemma_counter_is_cancellable(jumps: u8)
    ensures
        apply_action(Activity::Counter, jumps, ActionType::Jab) == Activity::Jab,
        apply_action(Activity::Counter, jumps, ActionType::Stomp) == Activity::Stomp,
        apply_action(Activity::Counter, jumps, ActionType::Counter) == Activity::Counter,
        apply_action(Activity::Counter, jumps, ActionType::Jump) == if jumps > 0 {
            Activity::Jump
        } else {
            Activity::Counter
        },
{
}

/// A flinching, jumping or landing character ignores every action asked
/// of it.
pub proof fn lemma_busy_character_ignores_input(activity: Activity, jumps: u8, actions: Seq<ActionType>)
    requires
        activity is Flinch || activity is Jump || activity is Land,
    ensures
        apply_actions(activity, jumps, actions) == activity,
    decreases actions.len(),
{
    if actions.len() > 0 {
        lemma_busy_character_ignores_input(activity, jumps, actions.drop_last());
    }
}


/// An accepted action becomes the activity: from rest or a counter, a jab,
/// stomp or counter asked for is taken up as such, and a jump is taken up
/// whenever a jump is left and the character is not already jumping,
/// flinching or landing. An action that is not accepted changes nothing.
pub proof fn lemma_accepted_action_is_taken_up(activity: Activity, jumps: u8, action: ActionType)
    ensures
        (activity == Activity::Idle || activity == Activity::Counter) ==> {
            &&& apply_action(activity, jumps, ActionType::Jab) == Activity::Jab
            &&& apply_action(activity, jumps, ActionType::Stomp) == Activity::Stomp
            &&& apply_action(activity, jumps, ActionType::Counter) == Activity::Counter
            &&& accepts_action(activity, jumps, ActionType::Jab)
            &&& accepts_action(activity, jumps, ActionType::Stomp)
            &&& accepts_action(activity, jumps, ActionType::Counter)
        },
        !(activity == Activity::Idle || activity == Activity::Counter) && action != ActionType::Jump ==> {
            &&& apply_action(activity, jumps, action) == activity
            &&& !accepts_action(activity, jumps, action)
        },
        jumps > 0 && !(activity is Jump || activity is Flinch || activity is Land) ==> {
            &&& apply_action(activity, jumps, ActionType::Jump) == Activity::Jump
            &&& accepts_action(activity, jumps, ActionType::Jump)
        },
        !(jumps > 0 && !(activity is Jump || activity is Flinch || activity is Land)) ==> {
            &&& apply_action(activity, jumps, ActionType::Jump) == activity
            &&& !accepts_action(activity, jumps, ActionType::Jump)
        },
{
}

/// The activity after a frame's actions is the last action that was
/// started; when none was started the activity is unchanged.
pub proof fn lemma_last_started_action_wins(activity: Activity, jumps: u8, actions: Seq<ActionType>)
    ensures
        !any_action_taken(activity, jumps, actions) ==> apply_actions(activity, jumps, actions) == activity,
        actions.len() > 0 && accepts_action(apply_actions(activity, jumps, actions.drop_last()), jumps, actions.last())
            ==> apply_actions(activity, jumps, actions) == match actions.last() {
            ActionType::Jump => Activity::Jump,
            ActionType::Jab => Activity::Jab,
            ActionType::Stomp => Activity::Stomp,
            ActionType::Counter => Activity::Counter,
        },
    decreases actions.len(),
{
    if actions.len() > 0 {
        lemma_last_started_action_wins(activity, jumps, actions.drop_last());
    }
}

} // verus!
