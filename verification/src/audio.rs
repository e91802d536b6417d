//! Sounds: what they are played for, how loud, and the bookkeeping of the
//! channels that play them.

use vstd::prelude::*;

verus! {

/// What a sound is played for.
#[derive(Clone, Copy, Debug, PartialEq, Eq, Structural)]
pub enum Trigger {
    CharacterJump,
    CharacterAttack,
    CharacterHit,
    WallBreak,
}

/// Pitch of a sound, in semitone steps above middle C.
#[derive(Clone, Copy, Debug, PartialEq, Eq, Structural)]
pub struct Offset(pub i64);

/// A sound to play: the id of the entity it comes from, what it is for,
/// and its pitch.
#[derive(Clone, Copy, Debug, PartialEq, Eq, Structural)]
pub struct Event(pub u64, pub Trigger, pub Offset);

/// At most this many sounds play at once.
pub const MAX_STREAMS: usize = 40;

/// How long a channel is kept before it is stopped, in nanoseconds.
pub const CHANNEL_LIFETIME_NANOS: u64 = 2_000_000_000;

/// Loudness of a sound, in hundredths of full amplitude.
pub open spec fn amplitude_of(trigger: Trigger) -> u32 {
    match trigger {
        Trigger::CharacterJump => 25,
        Trigger::CharacterAttack => 80,
        Trigger::CharacterHit => 60,
        Trigger::WallBreak => 40,
    }
}

/// Loudness of a sound for `trigger`, in hundredths of full amplitude.
pub fn amplitude_percent(trigger: Trigger) -> (a: u32)
    ensures
        a == amplitude_of(trigger),
{
    match trigger {
        Trigger::CharacterJump => 25,
        Trigger::CharacterAttack => 80,
        Trigger::CharacterHit => 60,
        Trigger::WallBreak => 40,
    }
}

/// The channels that play sounds: each channel's tag and the nanoseconds
/// it has left.
#[derive(Clone, Debug)]
pub struct AudioChannelsBuffer(pub Vec<(u128, u64)>);

impl Default for AudioChannelsBuffer {
    fn default() -> (b: Self)
        ensures
            b.0@ == Seq::<(u128, u64)>::empty(),
    {
        AudioChannelsBuffer(Vec::new())
    }
}

/// The channels that outlast `elapsed`, in order, with `elapsed` taken off.
pub open spec fn surviving(channels: Seq<(u128, u64)>, elapsed: u64) -> Seq<(u128, u64)>
    decreases channels.len(),
{
    if channels.len() == 0 {
        Seq::empty()
    } else {
        let rest = surviving(channels.drop_last(), elapsed);
        let (tag, left) = channels.last();
        if left > elapsed {
            rest.push((tag, (left - elapsed) as u64))
        } else {
            rest
        }
    }
}

/// The tags of the channels whose time runs out within `elapsed`, in order.
pub open spec fn expired(channels: Seq<(u128, u64)>, elapsed: u64) -> Seq<u128>
    decreases channels.len(),
{
    if channels.len() == 0 {
        Seq::empty()
    } else {
        let rest = expired(channels.drop_last(), elapsed);
        let (tag, left) = channels.last();
        if left > elapsed {
            rest
        } else {
            rest.push(tag)
        }
    }
}

/// A frame of `elapsed` nanoseconds passes: channels whose time runs out
/// are removed and their tags returned, to be stopped; the others keep
/// their order and lose `elapsed` of their time.
pub fn handle_audio_cleanup(channels: &mut AudioChannelsBuffer, elapsed: u64) -> (stopped: Vec<u128>)
    ensures
        final(channels).0@ == surviving(old(channels).0@, elapsed),
        stopped@ == expired(old(channels).0@, elapsed),
{
    let mut kept: Vec<(u128, u64)> = Vec::new();
    let mut stopped: Vec<u128> = Vec::new();
    let n = channels.0.len();
    for i in 0..n
        invariant
            n == old(channels).0@.len(),
            channels.0@ == old(channels).0@,
            kept@ == surviving(old(channels).0@.take(i as int), elapsed),
            stopped@ == expired(old(channels).0@.take(i as int), elapsed),
    {
        assert(old(channels).0@.take(i + 1).drop_last() == old(channels).0@.take(i as int));
        let (tag, left) = channels.0[i];
        if left > elapsed {
            kept.push((tag, left - elapsed));
        } else {
            stopped.push(tag);
        }
    }
    assert(old(channels).0@.take(n as int) == old(channels).0@);
    channels.0 = kept;
    stopped
}

/// `count` new sounds arrive, all to play on the channel `tag`: if they
/// would take the number of channels over the limit none is played;
/// otherwise a channel entry with the full lifetime is added for each.
/// Returns whether they are played.
pub fn handle_audio_event(channels: &mut AudioChannelsBuffer, tag: u128, count: usize) -> (played: bool)
    ensures
        played == (count + old(channels).0@.len() <= MAX_STREAMS),
        played ==> final(channels).0@ == old(channels).0@ + Seq::new(
            count as nat,
            |i: int| (tag, CHANNEL_LIFETIME_NANOS),
        ),
        !played ==> final(channels).0@ == old(channels).0@,
{
    if count > MAX_STREAMS || channels.0.len() > MAX_STREAMS - count {
        return false;
    }
    let ghost start = channels.0@;
    for i in 0..count
        invariant
            channels.0@ == start + Seq::new(i as nat, |k: int| (tag, CHANNEL_LIFETIME_NANOS)),
    {
        channels.0.push((tag, CHANNEL_LIFETIME_NANOS));
        assert(channels.0@ == start + Seq::new((i + 1) as nat, |k: int| (tag, CHANNEL_LIFETIME_NANOS)));
    }
    true
}

/// Cleaning up neither loses nor invents a channel: every channel either
/// survives or is stopped, and none has more time afterwards than before.
pub proof fn lemma_cleanup_partitions(channels: Seq<(u128, u64)>, elapsed: u64)
    ensures
        surviving(channels, elapsed).len() + expired(channels, elapsed).len() == channels.len(),
        forall|i: int|
            0 <= i < surviving(channels, elapsed).len() ==> #[trigger] surviving(channels, elapsed)[i].1 > 0,
    decreases channels.len(),
{
    if channels.len() > 0 {
        lemma_cleanup_partitions(channels.drop_last(), elapsed);
    }
}

/// The number of channels never exceeds `MAX_STREAMS`: cleaning up never
/// adds one, and new sounds are played only when they fit.
pub proof fn lemma_channels_stay_bounded(channels: Seq<(u128, u64)>, elapsed: u64, tag: u128, count: nat)
    requires
        channels.len() <= MAX_STREAMS,
    ensures
        surviving(channels, elapsed).len() <= MAX_STREAMS,
        count + channels.len() <= MAX_STREAMS ==> (channels + Seq::new(
            count,
            |i: int| (tag, CHANNEL_LIFETIME_NANOS),
        )).len() <= MAX_STREAMS,
{
    lemma_cleanup_partitions(channels, elapsed);
}

/// Sounds last their full lifetime: fresh channels survive any shorter
/// time, and are all stopped, in order, once the lifetime has passed.
pub proof fn lemma_fresh_channels_expire(tag: u128, count: nat, elapsed: u64)
    ensures
        elapsed < CHANNEL_LIFETIME_NANOS ==> surviving(
            Seq::new(count, |i: int| (tag, CHANNEL_LIFETIME_NANOS)),
            elapsed,
        ) == Seq::new(count, |i: int| (tag, (CHANNEL_LIFETIME_NANOS - elapsed) as u64)),
        elapsed >= CHANNEL_LIFETIME_NANOS ==> expired(
            Seq::new(count, |i: int| (tag, CHANNEL_LIFETIME_NANOS)),
            elapsed,
        ) == Seq::new(count, |i: int| tag),
        elapsed >= CHANNEL_LIFETIME_NANOS ==> surviving(
            Seq::new(count, |i: int| (tag, CHANNEL_LIFETIME_NANOS)),
            elapsed,
        ).len() == 0,
    decreases count,
{
    if count > 0 {
        let fresh = Seq::new(count, |i: int| (tag, CHANNEL_LIFETIME_NANOS));
        let shorter = Seq::new((count - 1) as nat, |i: int| (tag, CHANNEL_LIFETIME_NANOS));
        assert(fresh.drop_last() == shorter);
        lemma_fresh_channels_expire(tag, (count - 1) as nat, elapsed);
        assert(Seq::new((count - 1) as nat, |i: int| (tag, (CHANNEL_LIFETIME_NANOS - elapsed) as u64)).push(
            (tag, (CHANNEL_LIFETIME_NANOS - elapsed) as u64),
        ) == Seq::new(count, |i: int| (tag, (CHANNEL_LIFETIME_NANOS - elapsed) as u64)));
        assert(Seq::new((count - 1) as nat, |i: int| tag).push(tag) == Seq::new(count, |i: int| tag));
    } else {
        assert(Seq::new(count, |i: int| (tag, CHANNEL_LIFETIME_NANOS)) == Seq::<(u128, u64)>::empty());
    }
}

} // verus!
