//! What the player's buttons and keys ask for.

use vstd::prelude::*;

verus! {

/// An action the player can ask a character to take.
#[derive(Clone, Copy, Debug, PartialEq, Eq, Structural)]
pub enum ActionType {
    Jump,
    Jab,
    Stomp,
    Counter,
}

/// What a pressed button asks for.
#[derive(Clone, Copy, Debug, PartialEq, Eq, Structural)]
pub enum ButtonTrigger {
    Pause,
    PlayerAction(ActionType),
}

pub open spec fn when(pressed: bool, t: ButtonTrigger) -> Seq<ButtonTrigger> {
    if pressed {
        seq![t]
    } else {
        Seq::empty()
    }
}

pub open spec fn button_triggers_spec(
    pause: bool,
    jump: bool,
    counter: bool,
    jab: bool,
    stomp: bool,
) -> Seq<ButtonTrigger> {
    when(pause, ButtonTrigger::Pause) + when(jump, ButtonTrigger::PlayerAction(ActionType::Jump))
        + when(counter, ButtonTrigger::PlayerAction(ActionType::Counter)) + when(
        jab,
        ButtonTrigger::PlayerAction(ActionType::Jab),
    ) + when(stomp, ButtonTrigger::PlayerAction(ActionType::Stomp))
}

/// The triggers for the buttons just pressed, in a fixed order: pause
/// (Escape / Start), jump (Space / South), counter (R / North), jab
/// (Q / West), stomp (E / East).
pub fn button_triggers(pause: bool, jump: bool, counter: bool, jab: bool, stomp: bool) -> (out: Vec<
    ButtonTrigger,
>)
    ensures
        out@ == button_triggers_spec(pause, jump, counter, jab, stomp),
{
    let mut out: Vec<ButtonTrigger> = Vec::new();
    if pause {
        out.push(ButtonTrigger::Pause);
    }
    if jump {
        out.push(ButtonTrigger::PlayerAction(ActionType::Jump));
    }
    if counter {
        out.push(ButtonTrigger::PlayerAction(ActionType::Counter));
    }
    if jab {
        out.push(ButtonTrigger::PlayerAction(ActionType::Jab));
    }
    if stomp {
        out.push(ButtonTrigger::PlayerAction(ActionType::Stomp));
    }
    assert(out@ == button_triggers_spec(pause, jump, counter, jab, stomp));
    out
}

/// One for a pressed key, zero otherwise.
pub fn bool_to_num(pressed: bool) -> (n: i8)
    ensures
        n == if pressed { 1i8 } else { 0i8 },
{
    if pressed {
        1
    } else {
        0
    }
}

/// The keyboard's push from the held W, A, S and D keys: right (D) minus
/// left (A), up (W) minus down (S). It is sent whenever either component
/// is non-zero.
pub fn keyboard_movement(right_held: bool, left_held: bool, up_held: bool, down_held: bool) -> (m: Option<
    (i8, i8),
>)
    ensures
        ({
            let x = (if right_held { 1int } else { 0 }) - (if left_held { 1int } else { 0 });
            let y = (if up_held { 1int } else { 0 }) - (if down_held { 1int } else { 0 });
            m == if x != 0 || y != 0 {
                Some((x as i8, y as i8))
            } else {
                None
            }
        }),
{
    let x = bool_to_num(right_held) - bool_to_num(left_held);
    let y = bool_to_num(up_held) - bool_to_num(down_held);
    if x != 0 || y != 0 {
        Some((x, y))
    } else {
        None
    }
}


proof fn lemma_when_contains(pressed: bool, t: ButtonTrigger)
    ensures
        forall|x: ButtonTrigger| #[trigger] when(pressed, t).contains(x) <==> (pressed && x == t),
{
    if pressed {
        assert(when(pressed, t)[0] == t);
    }
}

/// Each pressed button yields exactly one trigger and an unpressed one
/// none: the triggers number the buttons pressed, a press of the counter
/// button always asks for a counter, and pause, when pressed, comes first.
pub proof fn lemma_one_trigger_per_pressed_button(pause: bool, jump: bool, counter: bool, jab: bool, stomp: bool)
    ensures
        ({
            let t = button_triggers_spec(pause, jump, counter, jab, stomp);
            &&& t.len() == (if pause { 1int } else { 0 }) + (if jump { 1int } else { 0 }) + (if counter { 1int } else { 0 })
                + (if jab { 1int } else { 0 }) + (if stomp { 1int } else { 0 })
            &&& t.contains(ButtonTrigger::Pause) <==> pause
            &&& t.contains(ButtonTrigger::PlayerAction(ActionType::Jump)) <==> jump
            &&& t.contains(ButtonTrigger::PlayerAction(ActionType::Counter)) <==> counter
            &&& t.contains(ButtonTrigger::PlayerAction(ActionType::Jab)) <==> jab
            &&& t.contains(ButtonTrigger::PlayerAction(ActionType::Stomp)) <==> stomp
            &&& pause ==> t[0] == ButtonTrigger::Pause
        }),
{
    let t = button_triggers_spec(pause, jump, counter, jab, stomp);
    let p = when(pause, ButtonTrigger::Pause);
    let j = when(jump, ButtonTrigger::PlayerAction(ActionType::Jump));
    let c = when(counter, ButtonTrigger::PlayerAction(ActionType::Counter));
    let a = when(jab, ButtonTrigger::PlayerAction(ActionType::Jab));
    let s = when(stomp, ButtonTrigger::PlayerAction(ActionType::Stomp));
    assert(t == p + j + c + a + s);
    lemma_when_contains(pause, ButtonTrigger::Pause);
    lemma_when_contains(jump, ButtonTrigger::PlayerAction(ActionType::Jump));
    lemma_when_contains(counter, ButtonTrigger::PlayerAction(ActionType::Counter));
    lemma_when_contains(jab, ButtonTrigger::PlayerAction(ActionType::Jab));
    lemma_when_contains(stomp, ButtonTrigger::PlayerAction(ActionType::Stomp));
    assert(forall|x: ButtonTrigger| #[trigger] t.contains(x) <==> (p.contains(x) || j.contains(x) || c.contains(x) || a.contains(x) || s.contains(x))) by {
        assert forall|x: ButtonTrigger| #[trigger] t.contains(x) implies (p.contains(x) || j.contains(x) || c.contains(x) || a.contains(x) || s.contains(x)) by {
            let k = choose|k: int| 0 <= k < t.len() && t[k] == x;
            if k < p.len() {
                assert(p[k] == x);
            } else if k < p.len() + j.len() {
                assert(j[k - p.len()] == x);
            } else if k < p.len() + j.len() + c.len() {
                assert(c[k - p.len() - j.len()] == x);
            } else if k < p.len() + j.len() + c.len() + a.len() {
                assert(a[k - p.len() - j.len() - c.len()] == x);
            } else {
                assert(s[k - p.len() - j.len() - c.len() - a.len()] == x);
            }
        }
        assert forall|x: ButtonTrigger| (p.contains(x) || j.contains(x) || c.contains(x) || a.contains(x) || s.contains(x)) implies #[trigger] t.contains(x) by {
            if p.contains(x) {
                assert(t[0] == x);
            } else if j.contains(x) {
                assert(t[p.len() as int] == x);
            } else if c.contains(x) {
                assert(t[(p.len() + j.len()) as int] == x);
            } else if a.contains(x) {
                assert(t[(p.len() + j.len() + c.len()) as int] == x);
            } else {
                assert(t[(p.len() + j.len() + c.len() + a.len()) as int] == x);
            }
        }
    }
}

} // verus!
