use vstd::prelude::*;

verus! {

/// Kinds of game sounds.
pub enum AudioEventType {
    CharacterAttack,
    CharacterHit,
    WallHit,
    WallBreak,
}

/// A request for a game sound.
pub struct AudioEvent(AudioEventType);

} // verus!
