//! Characters: what they are doing, how they change shape, how they are
//! hit, and how their Hype and Combo rise and decay.

pub mod ai;

use vstd::prelude::*;

use crate::audio::{Offset, Trigger};
use crate::game::scoreboard::Score;
use crate::AppState;

verus! {

/// Physics steps in one second; activity timers count these steps.
pub const TICKS_PER_SECOND: u32 = 60;

/// Nanoseconds in one second; status timers count these.
pub const NANOS_PER_SECOND: i64 = 1_000_000_000;

/// Radius of a character at rest.
pub const PLAYER_RADIUS: u32 = 25;

/// Side of a wall that a character touches, or from which it is struck.
#[derive(Clone, Copy, Debug, PartialEq, Eq, Structural)]
pub enum Direction {
    Top,
    Right,
    Bottom,
    Left,
}

/// What a character is doing.
#[derive(Clone, Copy, Debug, PartialEq, Eq, Structural)]
pub enum Activity {
    Idle,
    Flinch,
    Land(Direction),
    Jump,
    Jab,
    Stomp,
    Counter,
}

impl Default for Activity {
    fn default() -> (a: Self)
        ensures
            a == Activity::Idle,
    {
        Activity::Idle
    }
}

/// Physics steps left in the current activity.
#[derive(Clone, Copy, Debug, PartialEq, Eq, Structural)]
pub struct ActivityTimer(pub u32);

impl Default for ActivityTimer {
    fn default() -> (t: Self)
        ensures
            t == ActivityTimer(0),
    {
        ActivityTimer(0)
    }
}

/// Hype (good): its level, and the nanoseconds until it next decays.
#[derive(Clone, Copy, Debug, PartialEq, Eq, Structural)]
pub struct Hype(pub i32, pub i64);

impl Default for Hype {
    fn default() -> (h: Self)
        ensures
            h == Hype(0, 0),
    {
        Hype(0, 0)
    }
}

/// Combo (bad): its level, and the nanoseconds until it next decays.
#[derive(Clone, Copy, Debug, PartialEq, Eq, Structural)]
pub struct Combo(pub i32, pub i64);

impl Default for Combo {
    fn default() -> (c: Self)
        ensures
            c == Combo(0, 0),
    {
        Combo(0, 0)
    }
}

/// Jumps left before the character touches a wall again.
#[derive(Clone, Copy, Debug, PartialEq, Eq, Structural)]
pub struct JumpCounter(pub u8);

impl Default for JumpCounter {
    fn default() -> (j: Self)
        ensures
            j == JumpCounter(0),
    {
        JumpCounter(0)
    }
}

/// Which way a character looks.
#[derive(Clone, Copy, Debug, PartialEq, Eq, Structural)]
pub enum FacingDirection {
    Left,
    Right,
}

impl Default for FacingDirection {
    fn default() -> (f: Self)
        ensures
            f == FacingDirection::Right,
    {
        FacingDirection::Right
    }
}

/// The direction a character faces.
#[derive(Clone, Copy, Debug, PartialEq, Eq, Structural)]
pub struct Facing(pub FacingDirection);

impl Default for Facing {
    fn default() -> (f: Self)
        ensures
            f == Facing(FacingDirection::Right),
    {
        Facing(FacingDirection::Right)
    }
}

/// The sign of a quantity, as the rules read it.
#[derive(Clone, Copy, Debug, PartialEq, Eq, Structural)]
pub enum Sign {
    Negative,
    Zero,
    Positive,
}

/// A character may start an attack only when idle or countering.
pub open spec fn can_execute_action(a: Activity) -> bool {
    a == Activity::Idle || a == Activity::Counter
}

/// A character may jump when it has a jump left and is not already
/// jumping, flinching or landing.
pub open spec fn can_jump(a: Activity, jumps: u8) -> bool {
    jumps > 0 && !(a is Jump || a is Flinch || a is Land)
}

/// Whether the character is attacking (and so can hit another).
pub open spec fn is_attacking(a: Activity) -> bool {
    a is Jab || a is Stomp || a is Counter
}

pub fn can_execute_action_now(activity: &Activity) -> (r: bool)
    ensures
        r == can_execute_action(*activity),
{
    *activity == Activity::Idle || *activity == Activity::Counter
}

pub fn can_jump_now(activity: &Activity, jumps: &JumpCounter) -> (r: bool)
    ensures
        r == can_jump(*activity, jumps.0),
{
    jumps.0 > 0 && match activity {
        Activity::Jump | Activity::Flinch | Activity::Land(_) => false,
        _ => true,
    }
}

/// One physics step of the activity timer: while time is left it runs down;
/// once none is left the character goes back to idle.
pub open spec fn timer_step(activity: Activity, timer: u32) -> (Activity, u32) {
    if timer > 0 {
        (activity, (timer - 1) as u32)
    } else {
        (Activity::Idle, timer)
    }
}

/// The activity and timer after `steps` physics steps.
pub open spec fn timer_run(activity: Activity, timer: u32, steps: nat) -> (Activity, u32)
    decreases steps,
{
    if steps == 0 {
        (activity, timer)
    } else {
        let (a, t) = timer_run(activity, timer, (steps - 1) as nat);
        timer_step(a, t)
    }
}

/// One physics step of the activity timer: while time is left it runs down;
/// once none is left the character goes back to idle.
pub fn handle_activity_timer(activity: &mut Activity, timer: &mut ActivityTimer)
    ensures
        (*final(activity), final(timer).0) == timer_step(*old(activity), old(timer).0),
{
    if timer.0 > 0 {
        timer.0 = timer.0 - 1;
    } else {
        *activity = Activity::Idle;
    }
}

/// Every activity ends: left to itself, a character whose timer reads `t`
/// is idle again after `t + 1` physics steps, and keeps its activity for
/// the `t` steps before.
pub proof fn lemma_activity_ends(activity: Activity, timer: u32)
    ensures
        timer_run(activity, timer, (timer + 1) as nat).0 == Activity::Idle,
        forall|k: nat| k <= timer ==> #[trigger] timer_run(activity, timer, k) == (activity, (timer - k) as u32),
{
    assert forall|k: nat| k <= timer implies #[trigger] timer_run(activity, timer, k) == (activity, (timer - k) as u32) by {
        lemma_timer_counts_down(activity, timer, k);
    }
    lemma_timer_counts_down(activity, timer, timer as nat);
}

proof fn lemma_timer_counts_down(activity: Activity, timer: u32, k: nat)
    requires
        k <= timer,
    ensures
        timer_run(activity, timer, k) == (activity, (timer - k) as u32),
    decreases k,
{
    if k > 0 {
        lemma_timer_counts_down(activity, timer, (k - 1) as nat);
    }
}

/// The outline a character takes for an activity, in arena units.
#[derive(Clone, Copy, Debug, PartialEq, Eq, Structural)]
pub enum CharacterShape {
    Circle { radius: u32 },
    Ellipse { radius_x: u32, radius_y: u32 },
    RegularPolygon { sides: u32, apothem: u32 },
}

/// A quarter turn of the character's outline.
#[derive(Clone, Copy, Debug, PartialEq, Eq, Structural)]
pub enum QuarterTurn {
    Clockwise,
    CounterClockwise,
}

/// What follows from a character taking up an activity.
#[derive(Clone, Copy, Debug, PartialEq, Eq)]
pub struct ActivityChange {
    /// The new outline.
    pub outline: CharacterShape,
    /// Whether the character is given the upward jump speed.
    pub launch_upward: bool,
    /// The turn given to the outline, for a jab.
    pub rotation: Option<QuarterTurn>,
    /// The sound to play.
    pub sound: Option<(Trigger, Offset)>,
}

pub open spec fn activity_outline(a: Activity) -> CharacterShape {
    match a {
        Activity::Idle => CharacterShape::Circle { radius: 25 },
        Activity::Flinch => CharacterShape::Circle { radius: 23 },
        Activity::Land(d) => if d == Direction::Top || d == Direction::Bottom {
            CharacterShape::Ellipse { radius_x: 25, radius_y: 20 }
        } else {
            CharacterShape::Ellipse { radius_x: 20, radius_y: 25 }
        },
        Activity::Jump => CharacterShape::Ellipse { radius_x: 20, radius_y: 25 },
        Activity::Jab => CharacterShape::RegularPolygon { sides: 3, apothem: 20 },
        Activity::Stomp => CharacterShape::RegularPolygon { sides: 4, apothem: 25 },
        Activity::Counter => CharacterShape::RegularPolygon { sides: 8, apothem: 25 },
    }
}

/// How many physics steps an activity lasts, for those that set the timer:
/// its length in seconds (1, 0.7, 0.5, 0.9 and 2) run down by single-
/// precision steps of 1/60 second until nothing is left.
pub open spec fn activity_duration(a: Activity) -> Option<u32> {
    match a {
        Activity::Idle => None,
        Activity::Flinch => Some(61),
        Activity::Land(_) => Some(42),
        Activity::Jump => Some(30),
        Activity::Jab => Some(55),
        Activity::Stomp => Some(121),
        Activity::Counter => Some(121),
    }
}

pub open spec fn activity_sound(a: Activity) -> Option<(Trigger, Offset)> {
    match a {
        Activity::Jump => Some((Trigger::CharacterJump, Offset(0))),
        Activity::Jab => Some((Trigger::CharacterAttack, Offset(1))),
        Activity::Stomp => Some((Trigger::CharacterAttack, Offset(-2i64))),
        Activity::Counter => Some((Trigger::CharacterAttack, Offset(3))),
        _ => None,
    }
}

pub open spec fn activity_rotation(a: Activity, facing: Facing) -> Option<QuarterTurn> {
    if a is Jab {
        if facing.0 == FacingDirection::Left {
            Some(QuarterTurn::CounterClockwise)
        } else {
            Some(QuarterTurn::Clockwise)
        }
    } else {
        None
    }
}

pub open spec fn activity_change(a: Activity, facing: Facing) -> ActivityChange {
    ActivityChange {
        outline: activity_outline(a),
        launch_upward: a is Jump,
        rotation: activity_rotation(a, facing),
        sound: activity_sound(a),
    }
}

/// A character has just taken up `activity`: the outline, timer, jump
/// counter, upward speed, rotation and sound that go with it.
pub fn handle_activity_change(
    activity: &Activity,
    facing: &Facing,
    timer: &mut ActivityTimer,
    jumps: &mut JumpCounter,
) -> (change: ActivityChange)
    requires
        *activity is Jump ==> old(jumps).0 > 0,
    ensures
        change == activity_change(*activity, *facing),
        final(timer).0 == match activity_duration(*activity) {
            Some(t) => t,
            None => old(timer).0,
        },
        final(jumps).0 == if *activity is Jump { old(jumps).0 - 1 } else { old(jumps).0 as int },
{
    match activity {
        Activity::Idle => {
            ActivityChange {
                outline: CharacterShape::Circle { radius: PLAYER_RADIUS },
                launch_upward: false,
                rotation: None,
                sound: None,
            }
        },
        Activity::Flinch => {
            timer.0 = 61;
            ActivityChange {
                outline: CharacterShape::Circle { radius: PLAYER_RADIUS - 2 },
                launch_upward: false,
                rotation: None,
                sound: None,
            }
        },
        Activity::Land(direction) => {
            let outline = if *direction == Direction::Top || *direction == Direction::Bottom {
                CharacterShape::Ellipse { radius_x: PLAYER_RADIUS, radius_y: PLAYER_RADIUS - 5 }
            } else {
                CharacterShape::Ellipse { radius_x: PLAYER_RADIUS - 5, radius_y: PLAYER_RADIUS }
            };
            timer.0 = 42;
            ActivityChange { outline, launch_upward: false, rotation: None, sound: None }
        },
        Activity::Jump => {
            jumps.0 = jumps.0 - 1;
            timer.0 = 30;
            ActivityChange {
                outline: CharacterShape::Ellipse {
                    radius_x: PLAYER_RADIUS - 5,
                    radius_y: PLAYER_RADIUS,
                },
                launch_upward: true,
                rotation: None,
                sound: Some((Trigger::CharacterJump, Offset(0))),
            }
        },
        Activity::Jab => {
            let rotation = if facing.0 == FacingDirection::Left {
                QuarterTurn::CounterClockwise
            } else {
                QuarterTurn::Clockwise
            };
            timer.0 = 55;
            ActivityChange {
                outline: CharacterShape::RegularPolygon { sides: 3, apothem: PLAYER_RADIUS - 5 },
                launch_upward: false,
                rotation: Some(rotation),
                sound: Some((Trigger::CharacterAttack, Offset(1))),
            }
        },
        Activity::Stomp => {
            timer.0 = 121;
            ActivityChange {
                outline: CharacterShape::RegularPolygon { sides: 4, apothem: PLAYER_RADIUS },
                launch_upward: false,
                rotation: None,
                sound: Some((Trigger::CharacterAttack, Offset(-2))),
            }
        },
        Activity::Counter => {
            timer.0 = 121;
            ActivityChange {
                outline: CharacterShape::RegularPolygon { sides: 8, apothem: PLAYER_RADIUS },
                launch_upward: false,
                rotation: None,
                sound: Some((Trigger::CharacterAttack, Offset(3))),
            }
        },
    }
}

/// An idle character turns to face the way it is being pushed.
pub fn handle_turning(facing: &mut Facing, activity: &Activity, influence_x: Sign)
    ensures
        *final(facing) == if *activity == Activity::Idle && influence_x == Sign::Negative {
            Facing(FacingDirection::Left)
        } else if *activity == Activity::Idle && influence_x == Sign::Positive {
            Facing(FacingDirection::Right)
        } else {
            *old(facing)
        },
{
    if *activity == Activity::Idle {
        if facing.0 == FacingDirection::Right && influence_x == Sign::Negative {
            facing.0 = FacingDirection::Left;
        }
        if facing.0 == FacingDirection::Left && influence_x == Sign::Positive {
            facing.0 = FacingDirection::Right;
        }
    }
}

/// How long Combo stays after a hit taken, or a hit landed on a counter.
pub const COMBO_HOLD_NANOS: i64 = 6_000_000_000;

/// How long Hype stays after landing a hit, or countering one.
pub const HYPE_HOLD_NANOS: i64 = 4_000_000_000;

/// How long Combo stays after a return hit.
pub const RETURN_COMBO_HOLD_NANOS: i64 = 1_500_000_000;

/// The state of a character that a hit reads and changes.
#[derive(Clone, Copy, Debug, PartialEq, Eq, Structural)]
pub struct Combatant {
    pub activity: Activity,
    pub facing: Facing,
    pub hype: Hype,
    pub combo: Combo,
}

/// Where an attack meets the other character, as the arena's geometry
/// finds it: not at all, somewhere, or against one side of the attacker.
#[derive(Clone, Copy, Debug, PartialEq, Eq, Structural)]
pub enum Contact {
    Miss,
    Touch,
    Side(Direction),
}

/// How a struck character is thrown: toward `side` with `strength` times
/// the base launch, or, with no side, stopped where it is.
#[derive(Clone, Copy, Debug, PartialEq, Eq, Structural)]
pub struct Knockback {
    pub side: Option<Direction>,
    pub strength: i64,
}

/// What an exchange between two characters produced.
#[derive(Clone, Copy, Debug, PartialEq, Eq, Structural)]
pub struct Exchange {
    /// How the second character is thrown, if the first one's strike
    /// throws it (a strike on a counter or a flinch throws no one).
    pub second_knockback: Option<Knockback>,
    /// How the first character is thrown, if the return strike throws it.
    pub first_knockback: Option<Knockback>,
    /// Pitch of the hit sound on the second character, if it was hit.
    pub second_hit_sound: Option<Offset>,
    /// Pitch of the hit sound on the first character, if it was hit.
    pub first_hit_sound: Option<Offset>,
}

/// The side a landed strike throws its target toward: a jab the way the
/// attacker faces, a stomp away from the side it meets; a counter has no
/// side, and stops the target.
pub open spec fn strike_side_of(activity: Activity, facing: Facing, contact: Contact) -> Option<Direction> {
    match activity {
        Activity::Jab => Some(
            if facing.0 == FacingDirection::Right {
                Direction::Right
            } else {
                Direction::Left
            },
        ),
        Activity::Stomp => match contact {
            Contact::Side(d) => Some(d),
            _ => None,
        },
        _ => None,
    }
}

/// The side a strike by a character doing `activity` throws its target toward.
pub fn strike_side(activity: &Activity, facing: &Facing, contact: Contact) -> (side: Option<Direction>)
    ensures
        side == strike_side_of(*activity, *facing, contact),
{
    match activity {
        Activity::Jab => Some(jab_direction(facing)),
        Activity::Stomp => match contact {
            Contact::Side(d) => Some(d),
            _ => None,
        },
        _ => None,
    }
}

/// The levels that a strike raises fit in an `i32`.
pub open spec fn strike_fits(attacker: Combatant, target: Combatant) -> bool {
    match target.activity {
        Activity::Counter => attacker.combo.0 < i32::MAX && target.hype.0 < i32::MAX,
        Activity::Flinch => true,
        _ => attacker.hype.0 < i32::MAX && target.combo.0 < i32::MAX,
    }
}

/// A character that counters or flinches is not thrown by a strike.
pub open spec fn guarded(a: Activity) -> bool {
    a is Counter || a is Flinch
}

/// The first character's strike landing on the second: a counter turns it
/// back on the attacker, a flinching target is left alone, any other
/// target gains Combo and flinches while the attacker gains Hype.
pub open spec fn strike_forward(attacker: Combatant, target: Combatant) -> (Combatant, Combatant) {
    match target.activity {
        Activity::Counter => (
            Combatant {
                activity: attacker.activity,
                facing: attacker.facing,
                hype: attacker.hype,
                combo: Combo((attacker.combo.0 + 1) as i32, COMBO_HOLD_NANOS),
            },
            Combatant {
                activity: target.activity,
                facing: target.facing,
                hype: Hype((target.hype.0 + 1) as i32, HYPE_HOLD_NANOS),
                combo: target.combo,
            },
        ),
        Activity::Flinch => (attacker, target),
        _ => (
            Combatant {
                activity: attacker.activity,
                facing: attacker.facing,
                hype: Hype((attacker.hype.0 + 1) as i32, HYPE_HOLD_NANOS),
                combo: attacker.combo,
            },
            Combatant {
                activity: Activity::Flinch,
                facing: target.facing,
                hype: target.hype,
                combo: Combo((target.combo.0 + 1) as i32, COMBO_HOLD_NANOS),
            },
        ),
    }
}

/// The second character's strike landing on the first: as a first strike,
/// but with a shorter Combo hold and no new Hype hold.
pub open spec fn strike_back(attacker: Combatant, target: Combatant) -> (Combatant, Combatant) {
    match target.activity {
        Activity::Counter => (
            Combatant {
                activity: attacker.activity,
                facing: attacker.facing,
                hype: attacker.hype,
                combo: Combo((attacker.combo.0 + 1) as i32, RETURN_COMBO_HOLD_NANOS),
            },
            Combatant {
                activity: target.activity,
                facing: target.facing,
                hype: Hype((target.hype.0 + 1) as i32, target.hype.1),
                combo: target.combo,
            },
        ),
        Activity::Flinch => (attacker, target),
        _ => (
            Combatant {
                activity: attacker.activity,
                facing: attacker.facing,
                hype: Hype((attacker.hype.0 + 1) as i32, attacker.hype.1),
                combo: attacker.combo,
            },
            Combatant {
                activity: Activity::Flinch,
                facing: target.facing,
                hype: target.hype,
                combo: Combo((target.combo.0 + 1) as i32, RETURN_COMBO_HOLD_NANOS),
            },
        ),
    }
}

/// Whether the first character's strike lands.
pub open spec fn first_hits(first: Combatant, first_contact: Contact) -> bool {
    first_contact != Contact::Miss && is_attacking(first.activity)
}

/// Both characters after the first strike (if it landed).
pub open spec fn after_first_strike(first: Combatant, second: Combatant, first_contact: Contact) -> (Combatant, Combatant) {
    if first_hits(first, first_contact) {
        strike_forward(first, second)
    } else {
        (first, second)
    }
}

/// Whether the second character's strike lands, given the state after the first.
pub open spec fn second_hits(first: Combatant, second: Combatant, first_contact: Contact, second_contact: Contact) -> bool {
    second_contact != Contact::Miss && is_attacking(after_first_strike(first, second, first_contact).1.activity)
}

/// No level overflows an `i32` in the exchange.
pub open spec fn exchange_fits(first: Combatant, second: Combatant, first_contact: Contact, second_contact: Contact) -> bool {
    let (f1, s1) = after_first_strike(first, second, first_contact);
    &&& first_hits(first, first_contact) ==> strike_fits(first, second)
    &&& second_hits(first, second, first_contact, second_contact) ==> strike_fits(s1, f1)
}

/// Both characters after the whole exchange.
pub open spec fn after_exchange(first: Combatant, second: Combatant, first_contact: Contact, second_contact: Contact) -> (
    Combatant,
    Combatant,
) {
    let (f1, s1) = after_first_strike(first, second, first_contact);
    if second_hits(first, second, first_contact, second_contact) {
        let (s2, f2) = strike_back(s1, f1);
        (f2, s2)
    } else {
        (f1, s1)
    }
}

/// One if the first strike landed on a counter (raising the second
/// character's Hype and the first's Combo before the return strike).
pub open spec fn countered_gain(first: Combatant, second: Combatant, first_contact: Contact) -> int {
    if first_hits(first, first_contact) && second.activity is Counter {
        1
    } else {
        0
    }
}

/// How the first strike throws the second character: the side of the
/// first's attack and the strength one plus the attacker's Hype plus the
/// target's Combo.
pub open spec fn second_knockback_of(first: Combatant, second: Combatant, first_contact: Contact) -> Option<
    (Option<Direction>, int),
> {
    if first_hits(first, first_contact) && !guarded(second.activity) {
        Some((strike_side_of(first.activity, first.facing, first_contact), 1 + first.hype.0 + second.combo.0))
    } else {
        None
    }
}

/// How the return strike throws the first character: the side of the
/// second's attack and the strength (one plus the attacker's Hype) times
/// (one plus the target's Combo, which the strike has just raised).
pub open spec fn first_knockback_of(first: Combatant, second: Combatant, first_contact: Contact, second_contact: Contact) -> Option<
    (Option<Direction>, int),
> {
    if second_hits(first, second, first_contact, second_contact) && !guarded(first.activity) {
        let g = countered_gain(first, second, first_contact);
        Some(
            (
                strike_side_of(second.activity, second.facing, second_contact),
                (1 + second.hype.0 + g) * (2 + first.combo.0 + g),
            ),
        )
    } else {
        None
    }
}

pub open spec fn as_knockback(k: Option<(Option<Direction>, int)>) -> Option<Knockback> {
    match k {
        Some((side, strength)) => Some(Knockback { side, strength: strength as i64 }),
        None => None,
    }
}

fn strike_forward_exec(attacker: &mut Combatant, target: &mut Combatant) -> (launch: Option<i64>)
    requires
        strike_fits(*old(attacker), *old(target)),
    ensures
        (*final(attacker), *final(target)) == strike_forward(*old(attacker), *old(target)),
        launch == if guarded(old(target).activity) {
            None
        } else {
            Some((1 + old(attacker).hype.0 + old(target).combo.0) as i64)
        },
{
    match target.activity {
        Activity::Counter => {
            attacker.combo = Combo(attacker.combo.0 + 1, COMBO_HOLD_NANOS);
            target.hype = Hype(target.hype.0 + 1, HYPE_HOLD_NANOS);
            None
        },
        Activity::Flinch => None,
        _ => {
            let launch = 1 + attacker.hype.0 as i64 + target.combo.0 as i64;
            target.combo = Combo(target.combo.0 + 1, COMBO_HOLD_NANOS);
            attacker.hype = Hype(attacker.hype.0 + 1, HYPE_HOLD_NANOS);
            target.activity = Activity::Flinch;
            Some(launch)
        },
    }
}

fn strike_back_exec(attacker: &mut Combatant, target: &mut Combatant) -> (launch: Option<i64>)
    requires
        strike_fits(*old(attacker), *old(target)),
    ensures
        (*final(attacker), *final(target)) == strike_back(*old(attacker), *old(target)),
        launch == if guarded(old(target).activity) {
            None
        } else {
            Some(((1 + old(attacker).hype.0) * (2 + old(target).combo.0)) as i64)
        },
        launch matches Some(l) ==> l == (1 + old(attacker).hype.0) * (2 + old(target).combo.0),
{
    match target.activity {
        Activity::Counter => {
            attacker.combo = Combo(attacker.combo.0 + 1, RETURN_COMBO_HOLD_NANOS);
            target.hype = Hype(target.hype.0 + 1, target.hype.1);
            None
        },
        Activity::Flinch => None,
        _ => {
            target.combo = Combo(target.combo.0 + 1, RETURN_COMBO_HOLD_NANOS);
            let h: i64 = 1 + attacker.hype.0 as i64;
            let c: i64 = 1 + target.combo.0 as i64;
            assert(-0x4000_0000_0000_0000 <= h * c <= 0x4000_0000_0000_0000) by (nonlinear_arith)
                requires
                    -0x8000_0000 <= h <= 0x8000_0000,
                    -0x8000_0000 <= c <= 0x8000_0000,
            ;
            let launch = h * c;
            attacker.hype = Hype(attacker.hype.0 + 1, attacker.hype.1);
            target.activity = Activity::Flinch;
            Some(launch)
        },
    }
}

fn strike_fits_exec(attacker: &Combatant, target: &Combatant) -> (r: bool)
    ensures
        r == strike_fits(*attacker, *target),
{
    match target.activity {
        Activity::Counter => attacker.combo.0 < i32::MAX && target.hype.0 < i32::MAX,
        Activity::Flinch => true,
        _ => attacker.hype.0 < i32::MAX && target.combo.0 < i32::MAX,
    }
}

fn lands(attacker: &Combatant, contact: Contact) -> (r: bool)
    ensures
        r == (contact != Contact::Miss && is_attacking(attacker.activity)),
{
    let attacks = match attacker.activity {
        Activity::Jab | Activity::Stomp | Activity::Counter => true,
        _ => false,
    };
    attacks && contact != Contact::Miss
}

/// Whether an exchange leaves every level within `i32` (the condition
/// `handle_attack_collision` asks of its callers).
pub fn exchange_fits_now(first: &Combatant, second: &Combatant, first_contact: Contact, second_contact: Contact) -> (r:
    bool)
    ensures
        r == exchange_fits(*first, *second, first_contact, second_contact),
{
    let mut f = *first;
    let mut s = *second;
    if lands(&f, first_contact) {
        if !strike_fits_exec(&f, &s) {
            return false;
        }
        let _ = strike_forward_exec(&mut f, &mut s);
    }
    if lands(&s, second_contact) {
        strike_fits_exec(&s, &f)
    } else {
        true
    }
}

/// Two characters meet: the first strikes the second if it is attacking and
/// its attack makes contact; then the second strikes back if, after that,
/// it is still attacking and its attack makes contact. Each landed strike
/// makes a hit sound on its target, pitched by the attacker's Hype and the
/// target's Combo, and throws the target unless it counters or flinches.
pub fn handle_attack_collision(
    first: &mut Combatant,
    second: &mut Combatant,
    first_contact: Contact,
    second_contact: Contact,
) -> (exchange: Exchange)
    requires
        exchange_fits(*old(first), *old(second), first_contact, second_contact),
    ensures
        (*final(first), *final(second)) == after_exchange(*old(first), *old(second), first_contact, second_contact),
        exchange.second_knockback == as_knockback(second_knockback_of(*old(first), *old(second), first_contact)),
        exchange.first_knockback == as_knockback(
            first_knockback_of(*old(first), *old(second), first_contact, second_contact),
        ),
        ({
            let f0 = *old(first);
            let s0 = *old(second);
            let (f1, s1) = after_first_strike(f0, s0, first_contact);
            &&& exchange.second_hit_sound == if first_hits(f0, first_contact) {
                Some(Offset((-3 + f1.hype.0 + s1.combo.0) as i64))
            } else {
                None
            }
            &&& exchange.first_hit_sound == if second_hits(f0, s0, first_contact, second_contact) {
                let (s2, f2) = strike_back(s1, f1);
                Some(Offset((-3 + s2.hype.0 + f2.combo.0) as i64))
            } else {
                None
            }
        }),
{
    let mut second_knockback: Option<Knockback> = None;
    let mut second_hit_sound: Option<Offset> = None;
    if lands(first, first_contact) {
        let side = strike_side(&first.activity, &first.facing, first_contact);
        if let Some(strength) = strike_forward_exec(first, second) {
            second_knockback = Some(Knockback { side, strength });
        }
        second_hit_sound = Some(Offset(-3 + first.hype.0 as i64 + second.combo.0 as i64));
    }
    let mut first_knockback: Option<Knockback> = None;
    let mut first_hit_sound: Option<Offset> = None;
    if lands(second, second_contact) {
        let side = strike_side(&second.activity, &second.facing, second_contact);
        if let Some(strength) = strike_back_exec(second, first) {
            first_knockback = Some(Knockback { side, strength });
        }
        first_hit_sound = Some(Offset(-3 + second.hype.0 as i64 + first.combo.0 as i64));
    }
    Exchange { second_knockback, first_knockback, second_hit_sound, first_hit_sound }
}

/// A status (level, nanoseconds left) after `elapsed` nanoseconds: when its
/// time runs out a positive level drops by one and a second is added back;
/// a level of zero or less stays, with its time held at zero.
pub open spec fn decay(level: int, remaining: int, elapsed: int) -> (int, int) {
    let r = remaining - elapsed;
    if r <= 0 {
        if level > 0 {
            (level - 1, r + NANOS_PER_SECOND)
        } else {
            (level, 0)
        }
    } else {
        (level, r)
    }
}

fn decay_exec(level: i32, remaining: i64, elapsed: u64) -> (r: (i32, i64))
    requires
        remaining - elapsed >= i64::MIN,
    ensures
        (r.0 as int, r.1 as int) == decay(level as int, remaining as int, elapsed as int),
{
    let left: i128 = remaining as i128 - elapsed as i128;
    let left: i64 = left as i64;
    if left <= 0 {
        if level > 0 {
            (level - 1, left + NANOS_PER_SECOND)
        } else {
            (level, 0)
        }
    } else {
        (level, left)
    }
}

/// Hype and Combo after a frame of `elapsed` nanoseconds.
pub fn handle_status_tick(hype: &mut Hype, combo: &mut Combo, elapsed: u64)
    requires
        old(hype).1 - elapsed >= i64::MIN,
        old(combo).1 - elapsed >= i64::MIN,
    ensures
        (final(hype).0 as int, final(hype).1 as int) == decay(old(hype).0 as int, old(hype).1 as int, elapsed as int),
        (final(combo).0 as int, final(combo).1 as int) == decay(old(combo).0 as int, old(combo).1 as int, elapsed as int),
{
    let (level, remaining) = decay_exec(hype.0, hype.1, elapsed);
    *hype = Hype(level, remaining);
    let (level, remaining) = decay_exec(combo.0, combo.1, elapsed);
    *combo = Combo(level, remaining);
}

/// How much of the pushed input a character's movement takes up.
#[derive(Clone, Copy, Debug, PartialEq, Eq, Structural)]
pub enum InfluenceScale {
    Full,
    Half,
    Zero,
}

/// An axis of the arena.
#[derive(Clone, Copy, Debug, PartialEq, Eq, Structural)]
pub enum Axis {
    X,
    Y,
}

pub open spec fn influence_scale(a: Activity) -> (InfluenceScale, InfluenceScale) {
    match a {
        Activity::Idle | Activity::Jump => (InfluenceScale::Full, InfluenceScale::Full),
        Activity::Flinch => (InfluenceScale::Zero, InfluenceScale::Zero),
        Activity::Land(d) => if d == Direction::Top || d == Direction::Bottom {
            (InfluenceScale::Half, InfluenceScale::Zero)
        } else {
            (InfluenceScale::Zero, InfluenceScale::Half)
        },
        Activity::Jab | Activity::Stomp | Activity::Counter => (InfluenceScale::Half, InfluenceScale::Half),
    }
}

/// How much of the (horizontal, vertical) input a character takes up while
/// doing `activity`: all of it at rest or in a jump, none while flinching,
/// half while attacking, and only the along-the-wall half while landing.
pub fn adjusted_influence(activity: &Activity) -> (scale: (InfluenceScale, InfluenceScale))
    ensures
        scale == influence_scale(*activity),
{
    match activity {
        Activity::Idle | Activity::Jump => (InfluenceScale::Full, InfluenceScale::Full),
        Activity::Flinch => (InfluenceScale::Zero, InfluenceScale::Zero),
        Activity::Land(d) => if *d == Direction::Top || *d == Direction::Bottom {
            (InfluenceScale::Half, InfluenceScale::Zero)
        } else {
            (InfluenceScale::Zero, InfluenceScale::Half)
        },
        Activity::Jab | Activity::Stomp | Activity::Counter => (InfluenceScale::Half, InfluenceScale::Half),
    }
}

pub open spec fn impact_axis_of(collision: Direction) -> Axis {
    if collision == Direction::Right || collision == Direction::Left {
        Axis::X
    } else {
        Axis::Y
    }
}

/// The velocity component that measures the impact against a wall on this side.
pub fn impact_axis(collision: Direction) -> (axis: Axis)
    ensures
        axis == impact_axis_of(collision),
{
    if collision == Direction::Right || collision == Direction::Left {
        Axis::X
    } else {
        Axis::Y
    }
}

/// The velocity component that a wall stops: the one moving into it.
pub open spec fn stopped_axis(collision: Direction, x_sign_positive: bool, y_sign_positive: bool) -> Option<Axis> {
    if (collision == Direction::Right && x_sign_positive) || (collision == Direction::Left && !x_sign_positive) {
        Some(Axis::X)
    } else if (collision == Direction::Top && y_sign_positive) || (collision == Direction::Bottom && !y_sign_positive) {
        Some(Axis::Y)
    } else {
        None
    }
}

/// A character touches a wall on side `collision` while moving with the
/// given signs: its jumps are restored to two, a hard impact makes it land
/// against that side, and the component moving into the wall is stopped.
pub fn handle_wall_contact(
    activity: &mut Activity,
    jumps: &mut JumpCounter,
    collision: Direction,
    x_sign_positive: bool,
    y_sign_positive: bool,
    hard_impact: bool,
) -> (stopped: Option<Axis>)
    ensures
        stopped == stopped_axis(collision, x_sign_positive, y_sign_positive),
        final(jumps).0 == 2,
        *final(activity) == if hard_impact { Activity::Land(collision) } else { *old(activity) },
{
    let stopped = if (collision == Direction::Right && x_sign_positive) || (collision == Direction::Left
        && !x_sign_positive) {
        Some(Axis::X)
    } else if (collision == Direction::Top && y_sign_positive) || (collision == Direction::Bottom
        && !y_sign_positive) {
        Some(Axis::Y)
    } else {
        None
    };
    jumps.0 = 2;
    if hard_impact {
        *activity = Activity::Land(collision);
    }
    stopped
}

/// A jab launches its target the way the attacker faces.
pub fn jab_direction(facing: &Facing) -> (d: Direction)
    ensures
        d == if facing.0 == FacingDirection::Right { Direction::Right } else { Direction::Left },
{
    if facing.0 == FacingDirection::Right {
        Direction::Right
    } else {
        Direction::Left
    }
}

/// Physics steps between enemy spawns.
pub const ENEMY_SPAWN_TICKS: i32 = 600;

/// More enemies than this and none spawn.
pub const MAX_ENEMIES_FOR_SPAWN: usize = 6;

/// Physics steps until the next enemy spawns.
#[derive(Clone, Copy, Debug, PartialEq, Eq, Structural)]
pub struct EnemySpawnTimer(pub i32);

impl Default for EnemySpawnTimer {
    fn default() -> (t: Self)
        ensures
            t == EnemySpawnTimer(ENEMY_SPAWN_TICKS),
    {
        EnemySpawnTimer(ENEMY_SPAWN_TICKS)
    }
}

/// One physics step of the spawn timer with `num_enemies` enemies on
/// stage: the new timer, and whether an enemy spawns.
pub open spec fn spawn_step(timer: i32, num_enemies: usize) -> (i32, bool) {
    if num_enemies > MAX_ENEMIES_FOR_SPAWN {
        (timer, false)
    } else if timer - 1 <= 0 {
        (ENEMY_SPAWN_TICKS, true)
    } else {
        ((timer - 1) as i32, false)
    }
}

/// The timer and the number of spawns after one physics step for each
/// entry of `enemies`, the number of enemies on stage at that step.
pub open spec fn spawn_run(timer: i32, enemies: Seq<usize>) -> (i32, nat)
    decreases enemies.len(),
{
    if enemies.len() == 0 {
        (timer, 0)
    } else {
        let (t, spawned) = spawn_run(timer, enemies.drop_last());
        let (t2, spawn) = spawn_step(t, enemies.last());
        (t2, if spawn { spawned + 1 } else { spawned })
    }
}

/// One physics step of the spawn timer with `num_enemies` enemies on
/// stage. With more than six nothing happens; otherwise the timer runs down
/// and, when it runs out, an enemy spawns and the timer starts again.
pub fn handle_enemy_spawn_timer(timer: &mut EnemySpawnTimer, num_enemies: usize) -> (spawn: bool)
    requires
        old(timer).0 > i32::MIN,
    ensures
        (final(timer).0, spawn) == spawn_step(old(timer).0, num_enemies),
{
    if num_enemies > MAX_ENEMIES_FOR_SPAWN {
        return false;
    }
    timer.0 = timer.0 - 1;
    if timer.0 <= 0 {
        *timer = EnemySpawnTimer(ENEMY_SPAWN_TICKS);
        true
    } else {
        false
    }
}

/// While at most six enemies are on stage, one spawns every 600 physics
/// steps (ten seconds): from a fresh timer none spawns in the first 599
/// steps, one spawns on the 600th, and the timer is then fresh again.
pub proof fn lemma_spawn_period(enemies: Seq<usize>)
    requires
        enemies.len() == 600,
        forall|i: int| 0 <= i < enemies.len() ==> enemies[i] <= MAX_ENEMIES_FOR_SPAWN,
    ensures
        forall|k: int|
            0 <= k < 600 ==> #[trigger] spawn_run(ENEMY_SPAWN_TICKS, enemies.take(k)) == ((600 - k) as i32, 0nat),
        spawn_run(ENEMY_SPAWN_TICKS, enemies) == (ENEMY_SPAWN_TICKS, 1nat),
{
    assert forall|k: int| 0 <= k < 600 implies #[trigger] spawn_run(ENEMY_SPAWN_TICKS, enemies.take(k)) == (
        (600 - k) as i32,
        0nat,
    ) by {
        lemma_spawn_counts_down(enemies, k);
    }
    lemma_spawn_counts_down(enemies, 599);
    assert(enemies.take(600).drop_last() == enemies.take(599));
    assert(enemies.take(600) == enemies);
}

proof fn lemma_spawn_counts_down(enemies: Seq<usize>, k: int)
    requires
        0 <= k < 600,
        enemies.len() == 600,
        forall|i: int| 0 <= i < enemies.len() ==> enemies[i] <= MAX_ENEMIES_FOR_SPAWN,
    ensures
        spawn_run(ENEMY_SPAWN_TICKS, enemies.take(k)) == ((600 - k) as i32, 0nat),
    decreases k,
{
    if k > 0 {
        lemma_spawn_counts_down(enemies, k - 1);
        assert(enemies.take(k).drop_last() == enemies.take(k - 1));
    }
}

/// Positions (in order) of the `true` entries of `flags`.
pub open spec fn true_indices(flags: Seq<bool>) -> Seq<usize>
    decreases flags.len(),
{
    if flags.len() == 0 {
        Seq::empty()
    } else {
        let rest = true_indices(flags.drop_last());
        if flags.last() {
            rest.push((flags.len() - 1) as usize)
        } else {
            rest
        }
    }
}

fn collect_true_indices(flags: &Vec<bool>) -> (out: Vec<usize>)
    ensures
        out@ == true_indices(flags@),
{
    let mut out: Vec<usize> = Vec::new();
    let n = flags.len();
    for i in 0..n
        invariant
            n == flags@.len(),
            out@ == true_indices(flags@.take(i as int)),
    {
        assert(flags@.take(i + 1).drop_last() == flags@.take(i as int));
        if flags[i] {
            out.push(i);
        }
    }
    assert(flags@.take(n as int) == flags@);
    out
}

/// Enemies that have left the stage (`offstage[i]` for the i-th enemy) are
/// knocked out: their positions are returned, to be despawned, and each one
/// adds a point to the score.
pub fn detect_enemy_death_system(score: &mut Score, offstage: &Vec<bool>) -> (knocked_out: Vec<usize>)
    requires
        true_indices(offstage@).len() <= i32::MAX,
        old(score).0 + true_indices(offstage@).len() <= i32::MAX,
    ensures
        knocked_out@ == true_indices(offstage@),
        final(score).0 == old(score).0 + knocked_out@.len(),
{
    let knocked_out = collect_true_indices(offstage);
    score.0 = score.0 + knocked_out.len() as i32;
    knocked_out
}

/// The game ends when the player has left the stage.
pub fn detect_gameover_system(player_offstage: &Vec<bool>) -> (next: Option<AppState>)
    requires
        true_indices(player_offstage@).len() <= 1,
    ensures
        next == if true_indices(player_offstage@).len() > 0 {
            Some(AppState::GameOver)
        } else {
            None
        },
{
    let offstage = collect_true_indices(player_offstage);
    if offstage.len() > 0 {
        Some(AppState::GameOver)
    } else {
        None
    }
}

/// A countered strike: the countering character keeps countering and gains
/// Hype, while the striker gains Combo, whichever of the two strikes it is.
pub proof fn lemma_counter_absorbs_strike(attacker: Combatant, target: Combatant)
    requires
        target.activity == Activity::Counter,
        strike_fits(attacker, target),
    ensures
        strike_forward(attacker, target).1.activity == Activity::Counter,
        strike_forward(attacker, target).1.hype.0 == target.hype.0 + 1,
        strike_forward(attacker, target).0.combo.0 == attacker.combo.0 + 1,
        strike_back(attacker, target).1.activity == Activity::Counter,
        strike_back(attacker, target).1.hype.0 == target.hype.0 + 1,
        strike_back(attacker, target).0.combo.0 == attacker.combo.0 + 1,
{
}

/// A character that counters or flinches is never thrown and keeps its
/// activity, whoever strikes it; any other character that a strike lands
/// on is thrown and made to flinch.
pub proof fn lemma_guarded_characters_are_not_thrown(
    first: Combatant,
    second: Combatant,
    first_contact: Contact,
    second_contact: Contact,
)
    ensures
        guarded(second.activity) ==> {
            &&& second_knockback_of(first, second, first_contact) is None
            &&& after_exchange(first, second, first_contact, second_contact).1.activity == second.activity
        },
        guarded(first.activity) ==> {
            &&& first_knockback_of(first, second, first_contact, second_contact) is None
            &&& after_exchange(first, second, first_contact, second_contact).0.activity == first.activity
        },
        first_hits(first, first_contact) && !guarded(second.activity) ==> {
            &&& second_knockback_of(first, second, first_contact) is Some
            &&& after_exchange(first, second, first_contact, second_contact).1.activity == Activity::Flinch
        },
        second_hits(first, second, first_contact, second_contact) && !guarded(first.activity) ==> {
            &&& first_knockback_of(first, second, first_contact, second_contact) is Some
            &&& after_exchange(first, second, first_contact, second_contact).0.activity == Activity::Flinch
        },
{
}

/// `c` with its Hype level set to `level`.
pub open spec fn with_hype(c: Combatant, level: i32) -> Combatant {
    Combatant { activity: c.activity, facing: c.facing, hype: Hype(level, c.hype.1), combo: c.combo }
}

/// `c` with its Combo level set to `level`.
pub open spec fn with_combo(c: Combatant, level: i32) -> Combatant {
    Combatant { activity: c.activity, facing: c.facing, hype: c.hype, combo: Combo(level, c.combo.1) }
}

/// All four levels are at least zero.
pub open spec fn levels_nonnegative(first: Combatant, second: Combatant) -> bool {
    first.hype.0 >= 0 && first.combo.0 >= 0 && second.hype.0 >= 0 && second.combo.0 >= 0
}

/// Hype and Combo make strikes throw harder: with non-negative levels, the
/// first strike throws the second character at least as hard when the
/// first has more Hype or the second more Combo, and the return strike
/// throws the first at least as hard when the second has more Hype or the
/// first more Combo. Every throw has strength at least one.
pub proof fn lemma_knockback_grows_with_hype_and_combo(
    first: Combatant,
    second: Combatant,
    first_contact: Contact,
    second_contact: Contact,
    more_hype: i32,
    more_combo: i32,
)
    requires
        levels_nonnegative(first, second),
        first.hype.0 <= more_hype,
        second.combo.0 <= more_combo,
        second.hype.0 <= more_hype,
        first.combo.0 <= more_combo,
    ensures
        ({
            let base = second_knockback_of(first, second, first_contact);
            let stronger = second_knockback_of(
                with_hype(first, more_hype),
                with_combo(second, more_combo),
                first_contact,
            );
            base is Some ==> {
                &&& stronger is Some
                &&& stronger.unwrap().0 == base.unwrap().0
                &&& 1 <= base.unwrap().1 <= stronger.unwrap().1
            }
        }),
        ({
            let base = first_knockback_of(first, second, first_contact, second_contact);
            let stronger = first_knockback_of(
                with_combo(first, more_combo),
                with_hype(second, more_hype),
                first_contact,
                second_contact,
            );
            base is Some ==> {
                &&& stronger is Some
                &&& stronger.unwrap().0 == base.unwrap().0
                &&& 2 <= base.unwrap().1 <= stronger.unwrap().1
            }
        }),
{
    let g = countered_gain(first, second, first_contact);
    assert(g == countered_gain(with_combo(first, more_combo), with_hype(second, more_hype), first_contact));
    assert(after_first_strike(first, second, first_contact).1.activity == after_first_strike(
        with_combo(first, more_combo),
        with_hype(second, more_hype),
        first_contact,
    ).1.activity);
    let h1 = 1 + second.hype.0 + g;
    let h2 = 1 + more_hype + g;
    let c1 = 2 + first.combo.0 + g;
    let c2 = 2 + more_combo + g;
    assert(h1 * c1 <= h2 * c2 && h1 * c1 >= 2) by (nonlinear_arith)
        requires
            1 <= h1 <= h2,
            2 <= c1 <= c2,
    ;
}

/// What one character gains in Hype from an exchange, the other gains in
/// Combo: every landed strike raises one character's Hype and the other's
/// Combo by one, and nothing else changes a level.
pub proof fn lemma_exchange_balances_hype_and_combo(
    first: Combatant,
    second: Combatant,
    first_contact: Contact,
    second_contact: Contact,
)
    requires
        exchange_fits(first, second, first_contact, second_contact),
    ensures
        ({
            let (f, s) = after_exchange(first, second, first_contact, second_contact);
            &&& f.hype.0 - first.hype.0 == s.combo.0 - second.combo.0
            &&& s.hype.0 - second.hype.0 == f.combo.0 - first.combo.0
            &&& 0 <= f.hype.0 - first.hype.0 <= 2
            &&& 0 <= s.hype.0 - second.hype.0 <= 2
        }),
{
}

/// Hype and Combo never go negative: an exchange only raises levels, and a
/// frame's decay takes at most one from a positive level and none from a
/// level at zero.
pub proof fn lemma_levels_stay_nonnegative(
    first: Combatant,
    second: Combatant,
    first_contact: Contact,
    second_contact: Contact,
    remaining: int,
    elapsed: int,
)
    requires
        exchange_fits(first, second, first_contact, second_contact),
        first.hype.0 >= 0 && first.combo.0 >= 0 && second.hype.0 >= 0 && second.combo.0 >= 0,
        elapsed >= 0,
    ensures
        ({
            let (f, s) = after_exchange(first, second, first_contact, second_contact);
            f.hype.0 >= first.hype.0 && f.combo.0 >= first.combo.0 && s.hype.0 >= second.hype.0
                && s.combo.0 >= second.combo.0
        }),
        forall|level: int|
            level >= 0 ==> {
                let d = #[trigger] decay(level, remaining, elapsed);
                0 <= d.0 && level - 1 <= d.0 <= level
            },
{
}


/// The way a landed strike throws its target: a stomp throws it toward the
/// side of the stomp it meets, a jab toward the side the attacker faces,
/// and a counter stops it; the strength is one plus the attacker's Hype
/// plus the target's Combo. The same holds of the return strike's side.
pub proof fn lemma_strike_throws_toward_its_side(
    first: Combatant,
    second: Combatant,
    first_contact: Contact,
    second_contact: Contact,
)
    requires
        first_contact != Contact::Miss,
        !(second.activity is Counter || second.activity is Flinch),
    ensures
        forall|d: Direction|
            first.activity == Activity::Stomp && first_contact == Contact::Side(d) ==> #[trigger] second_knockback_of(
                first,
                second,
                Contact::Side(d),
            ) == Some((Some(d), 1 + first.hype.0 + second.combo.0)),
        first.activity == Activity::Jab && first.facing == Facing(FacingDirection::Right) ==> second_knockback_of(
            first,
            second,
            first_contact,
        ) == Some((Some(Direction::Right), 1 + first.hype.0 + second.combo.0)),
        first.activity == Activity::Jab && first.facing == Facing(FacingDirection::Left) ==> second_knockback_of(
            first,
            second,
            first_contact,
        ) == Some((Some(Direction::Left), 1 + first.hype.0 + second.combo.0)),
        first.activity == Activity::Counter ==> second_knockback_of(first, second, first_contact) == Some(
            (None::<Direction>, 1 + first.hype.0 + second.combo.0),
        ),
        forall|d: Direction|
            #[trigger] strike_side_of(Activity::Stomp, first.facing, Contact::Side(d)) == Some(d),
        strike_side_of(Activity::Jab, Facing(FacingDirection::Right), second_contact) == Some(Direction::Right),
        strike_side_of(Activity::Jab, Facing(FacingDirection::Left), second_contact) == Some(Direction::Left),
        strike_side_of(Activity::Counter, first.facing, second_contact) == None::<Direction>,
{
}

/// A wall stops only motion into it, and always stops such motion: the
/// floor (a `Bottom` contact) stops a falling character but never a rising
/// one, the ceiling (`Top`) the reverse, and likewise a wall on the left
/// or right stops only the horizontal motion toward it. A stopped component
/// is always the one across the wall.
pub proof fn lemma_wall_stops_only_motion_into_it(collision: Direction, x_sign_positive: bool, y_sign_positive: bool)
    ensures
        ({
            let stopped = stopped_axis(collision, x_sign_positive, y_sign_positive);
            &&& collision == Direction::Bottom ==> (stopped == Some(Axis::Y) <==> !y_sign_positive)
            &&& collision == Direction::Top ==> (stopped == Some(Axis::Y) <==> y_sign_positive)
            &&& collision == Direction::Left ==> (stopped == Some(Axis::X) <==> !x_sign_positive)
            &&& collision == Direction::Right ==> (stopped == Some(Axis::X) <==> x_sign_positive)
            &&& (collision == Direction::Bottom || collision == Direction::Top) ==> stopped != Some(Axis::X)
            &&& (collision == Direction::Left || collision == Direction::Right) ==> stopped != Some(Axis::Y)
        }),
{
}

/// Attacks take their time and jumping uses a jump: every activity but rest
/// sets a timer of at least half a second (thirty steps); a counter and a
/// stomp each last two seconds' worth of steps (121), longer than a jab
/// (55), which lasts longer than a jump (30); a flinch lasts 61 and a
/// landing 42. At rest a character is a circle of the player radius, two
/// less when flinching; a jab is a triangle, a stomp a square, a counter an
/// octagon, and jumps and landings are ellipses flattened against the
/// wall. Only a jump throws the character upward, and only attacks and
/// jumps make a sound: a jump at pitch 0, a jab 1, a stomp -2, a counter 3.
pub proof fn lemma_activity_change_shape(a: Activity, facing: Facing)
    ensures
        a != Activity::Idle ==> (activity_duration(a) is Some && activity_duration(a).unwrap() >= 30),
        a == Activity::Idle ==> activity_duration(a) is None,
        activity_duration(Activity::Counter) == activity_duration(Activity::Stomp),
        activity_duration(Activity::Stomp).unwrap() > activity_duration(Activity::Jab).unwrap(),
        activity_duration(Activity::Jab).unwrap() > activity_duration(Activity::Jump).unwrap(),
        activity_duration(Activity::Flinch).unwrap() > activity_duration(Activity::Jump).unwrap(),
        activity_duration(Activity::Flinch) == Some(61u32),
        activity_duration(Activity::Land(Direction::Top)) == Some(42u32),
        activity_duration(Activity::Jump) == Some(30u32),
        activity_duration(Activity::Jab) == Some(55u32),
        activity_duration(Activity::Stomp) == Some(121u32),
        activity_change(a, facing).launch_upward <==> a == Activity::Jump,
        activity_outline(Activity::Idle) == (CharacterShape::Circle { radius: 25 }),
        activity_outline(Activity::Flinch) == (CharacterShape::Circle { radius: 23 }),
        activity_outline(Activity::Jab) == (CharacterShape::RegularPolygon { sides: 3, apothem: 20 }),
        activity_outline(Activity::Stomp) == (CharacterShape::RegularPolygon { sides: 4, apothem: 25 }),
        activity_outline(Activity::Counter) == (CharacterShape::RegularPolygon { sides: 8, apothem: 25 }),
        activity_outline(Activity::Jump) == (CharacterShape::Ellipse { radius_x: 20, radius_y: 25 }),
        activity_outline(Activity::Land(Direction::Top)) == (CharacterShape::Ellipse { radius_x: 25, radius_y: 20 }),
        activity_outline(Activity::Land(Direction::Bottom)) == (CharacterShape::Ellipse { radius_x: 25, radius_y: 20 }),
        activity_outline(Activity::Land(Direction::Left)) == (CharacterShape::Ellipse { radius_x: 20, radius_y: 25 }),
        activity_outline(Activity::Land(Direction::Right)) == (CharacterShape::Ellipse { radius_x: 20, radius_y: 25 }),
        activity_sound(Activity::Jump) == Some((Trigger::CharacterJump, Offset(0))),
        activity_sound(Activity::Jab) == Some((Trigger::CharacterAttack, Offset(1))),
        activity_sound(Activity::Stomp) == Some((Trigger::CharacterAttack, Offset(-2i64))),
        activity_sound(Activity::Counter) == Some((Trigger::CharacterAttack, Offset(3))),
        activity_change(a, facing).sound is Some <==> (a == Activity::Jump || is_attacking(a)),
        activity_change(a, facing).rotation is Some <==> a == Activity::Jab,
        is_attacking(a) ==> (activity_change(a, facing).sound is Some && activity_change(
            a,
            facing,
        ).sound.unwrap().0 == Trigger::CharacterAttack),
{
}

/// One point per enemy that leaves the stage, and only for those: the
/// knocked-out positions are exactly the `true` flags, in increasing order.
pub proof fn lemma_knockouts_are_the_offstage_enemies(flags: Seq<bool>)
    requires
        flags.len() <= usize::MAX,
    ensures
        forall|k: int|
            0 <= k < true_indices(flags).len() ==> (#[trigger] true_indices(flags)[k] < flags.len() && flags[true_indices(
                flags,
            )[k] as int]),
        forall|i: int| 0 <= i < flags.len() && flags[i] ==> #[trigger] true_indices(flags).contains(i as usize),
        forall|j: int, k: int|
            0 <= j < k < true_indices(flags).len() ==> #[trigger] true_indices(flags)[j] < #[trigger] true_indices(
                flags,
            )[k],
    decreases flags.len(),
{
    if flags.len() > 0 {
        let n = flags.len();
        let rest = flags.drop_last();
        let rt = true_indices(rest);
        let t = true_indices(flags);
        lemma_knockouts_are_the_offstage_enemies(rest);
        assert forall|k: int| 0 <= k < t.len() implies (#[trigger] t[k] < flags.len() && flags[t[k] as int]) by {
            if k < rt.len() {
                assert(t[k] == rt[k]);
                assert(rest[rt[k] as int] == flags[rt[k] as int]);
            }
        }
        assert forall|i: int| 0 <= i < flags.len() && flags[i] implies #[trigger] t.contains(i as usize) by {
            if i < n - 1 {
                assert(rest[i]);
                assert(rt.contains(i as usize));
                let k = choose|k: int| 0 <= k < rt.len() && rt[k] == i as usize;
                assert(t[k] == i as usize);
            } else {
                assert(t[t.len() - 1] == i as usize);
            }
        }
        assert forall|j: int, k: int| 0 <= j < k < t.len() implies #[trigger] t[j] < #[trigger] t[k] by {
            if k < rt.len() {
                assert(t[j] == rt[j] && t[k] == rt[k]);
            } else {
                assert(t[j] == rt[j]);
                assert(rt[j] < rest.len());
            }
        }
    }
}

} // verus!

verus! {

/// Hype and Combo decay over time: while time is left the level holds and
/// the time runs down by what has elapsed; when the time runs out a
/// positive level drops by exactly one and one second is added back to
/// what is left, and a level of zero or less stays with its time at zero.
pub proof fn lemma_status_decays_one_level_per_second(level: int, remaining: int, elapsed: int)
    ensures
        remaining > elapsed ==> decay(level, remaining, elapsed) == (level, remaining - elapsed),
        remaining <= elapsed && level > 0 ==> decay(level, remaining, elapsed) == (
            level - 1,
            remaining - elapsed + 1_000_000_000,
        ),
        remaining <= elapsed && level <= 0 ==> decay(level, remaining, elapsed) == (level, 0int),
{
}

/// How much of the push a character takes up: all of it at rest or in a
/// jump, none while flinching, half on both axes while attacking, and only
/// half of the push along the wall it lands on.
pub proof fn lemma_influence_by_activity(d: Direction)
    ensures
        influence_scale(Activity::Idle) == (InfluenceScale::Full, InfluenceScale::Full),
        influence_scale(Activity::Jump) == (InfluenceScale::Full, InfluenceScale::Full),
        influence_scale(Activity::Flinch) == (InfluenceScale::Zero, InfluenceScale::Zero),
        influence_scale(Activity::Jab) == (InfluenceScale::Half, InfluenceScale::Half),
        influence_scale(Activity::Stomp) == (InfluenceScale::Half, InfluenceScale::Half),
        influence_scale(Activity::Counter) == (InfluenceScale::Half, InfluenceScale::Half),
        (d == Direction::Top || d == Direction::Bottom) ==> influence_scale(Activity::Land(d)) == (
            InfluenceScale::Half,
            InfluenceScale::Zero,
        ),
        (d == Direction::Left || d == Direction::Right) ==> influence_scale(Activity::Land(d)) == (
            InfluenceScale::Zero,
            InfluenceScale::Half,
        ),
        impact_axis_of(d) == if d == Direction::Left || d == Direction::Right { Axis::X } else { Axis::Y },
{
}

/// With seven or more enemies on stage the spawn timer holds and nothing
/// spawns; with six or fewer it runs down by one step each step.
pub proof fn lemma_crowded_stage_holds_spawns(timer: i32, num_enemies: usize)
    requires
        timer > i32::MIN,
    ensures
        num_enemies >= 7 ==> spawn_step(timer, num_enemies) == (timer, false),
        num_enemies <= 6 && timer > 1 ==> spawn_step(timer, num_enemies) == ((timer - 1) as i32, false),
        num_enemies <= 6 && timer <= 1 ==> spawn_step(timer, num_enemies) == (600i32, true),
{
}

} // verus!
