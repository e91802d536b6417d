# ballpit

The rules of BallPit Arena, a small platform fighter, as a verified Verus
library, with the Bevy game around it.

- `src/` — the rules, each with its contract and the laws that hold of them:
  - `game/player.rs`: activities, their timers and shapes, wall contact,
    strikes between characters, Hype and Combo decay, enemy spawns,
    knock-outs and game over; `game/player/ai.rs`: how enemies decide.
  - `game.rs`: the player's actions; `game/input.rs`: buttons and keys.
  - `game/level.rs`: the ring of bricks; `game/scoreboard.rs`: the score.
  - `audio.rs`: sound triggers, loudness, and the channels that play them.
- `app/` — the Bevy program: entities and systems, floating-point physics,
  collision geometry, drawing and sound synthesis. The decisions that rest
  on whole numbers (activities, strikes and their sides, jumps, timers,
  scores, sound channels) are the library's; those that rest on
  floating-point positions, speeds and brick durability are the app's.
- `tests/` — tests of the library on concrete values.

Time is counted in whole units: activity and spawn timers in physics steps
(60 a second), Hype, Combo and sound channels in nanoseconds of frame time.
