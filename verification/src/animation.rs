//! The animation controller: which clip of the sprite sheet plays, and which
//! of its frames is shown.
//!
//! The controller follows what the player holds, not what the actor does: a
//! direction held against a wall still plays its clip. A clip plays once, from
//! its first frame to its last, and then leaves the sprite at the first frame
//! with no clip active; held input selects it again.

use vstd::prelude::*;
use crate::actions::{InputSnapshot, MoveAction};
use crate::player::NANOS_PER_SECOND;

verus! {

/// A timer that runs once: it counts elapsed time up to its duration, fires at
/// the tick at which it gets there, and then stays finished.
#[derive(Clone, Copy, Debug, PartialEq, Eq, Structural)]
pub struct FrameTimer {
    pub duration_ns: u64,
    pub elapsed_ns: u64,
    pub finished: bool,
}

/// A clip: a run of frames of the sprite sheet, the rate at which it plays,
/// and the timer of the frame that is shown.
#[derive(Clone, Copy, Debug, PartialEq, Eq, Structural)]
pub struct AnimationConfig {
    pub first_sprite_index: usize,
    pub last_sprite_index: usize,
    pub fps: u8,
    pub frame_timer: FrameTimer,
}

/// A sprite and its animation as plain values: the frame that the sprite
/// shows, if it has a sprite sheet at all, and the clip that plays, if any.
#[derive(Clone, Copy, Debug, PartialEq, Eq, Structural)]
pub struct SpriteState {
    pub atlas_index: Option<usize>,
    pub animation: Option<AnimationConfig>,
}

/// A sprite whose frame lies inside the clip that plays.
#[derive(Clone, Copy, Debug, PartialEq, Eq)]
pub struct AnimatedSprite {
    state: SpriteState,
}

impl FrameTimer {
    /// The timer of one frame at `fps` frames a second, not yet started.
    pub open spec fn spec_from_fps(fps: u8) -> FrameTimer {
        FrameTimer { duration_ns: (NANOS_PER_SECOND / fps as u64) as u64, elapsed_ns: 0, finished: false }
    }

    /// Whether `delta_ns` more nanoseconds make the timer fire: it was not
    /// finished and now reaches its duration.
    pub open spec fn fires(&self, delta_ns: u64) -> bool {
        !self.finished && self.elapsed_ns + delta_ns >= self.duration_ns
    }

    /// The timer after `delta_ns` more nanoseconds. A finished timer does not
    /// change; a running one stops at its duration.
    pub open spec fn ticked(&self, delta_ns: u64) -> FrameTimer {
        if self.finished {
            *self
        } else if self.elapsed_ns + delta_ns >= self.duration_ns {
            FrameTimer { duration_ns: self.duration_ns, elapsed_ns: self.duration_ns, finished: true }
        } else {
            FrameTimer {
                duration_ns: self.duration_ns,
                elapsed_ns: (self.elapsed_ns + delta_ns) as u64,
                finished: false,
            }
        }
    }

    /// The timer of one frame at `fps` frames a second, not yet started.
    #[verifier::when_used_as_spec(spec_from_fps)]
    pub fn from_fps(fps: u8) -> (timer: FrameTimer)
        requires
            fps >= 1,
        ensures
            timer == FrameTimer::from_fps(fps),
    {
        FrameTimer { duration_ns: NANOS_PER_SECOND / (fps as u64), elapsed_ns: 0, finished: false }
    }

    /// Advances the timer by `delta_ns` nanoseconds and says whether it fired.
    pub fn tick(&self, delta_ns: u64) -> (ticked: (FrameTimer, bool))
        ensures
            ticked.0 == self.ticked(delta_ns),
            ticked.1 == self.fires(delta_ns),
    {
        if self.finished {
            return (*self, false);
        }
        let total: u128 = self.elapsed_ns as u128 + delta_ns as u128;
        if total >= self.duration_ns as u128 {
            (
                FrameTimer {
                    duration_ns: self.duration_ns,
                    elapsed_ns: self.duration_ns,
                    finished: true,
                },
                true,
            )
        } else {
            (
                FrameTimer {
                    duration_ns: self.duration_ns,
                    elapsed_ns: total as u64,
                    finished: false,
                },
                false,
            )
        }
    }
}

impl AnimationConfig {
    /// A clip has its first frame not after its last, and a rate of at least
    /// one frame a second.
    pub open spec fn wf(&self) -> bool {
        self.first_sprite_index <= self.last_sprite_index && self.fps >= 1
    }

    /// Whether two clips run over the same frames.
    pub open spec fn same_range(&self, other: AnimationConfig) -> bool {
        self.first_sprite_index == other.first_sprite_index && self.last_sprite_index
            == other.last_sprite_index
    }

    /// The clip with a fresh timer for the frame that is shown.
    pub open spec fn rewound(&self) -> AnimationConfig {
        AnimationConfig {
            first_sprite_index: self.first_sprite_index,
            last_sprite_index: self.last_sprite_index,
            fps: self.fps,
            frame_timer: FrameTimer::from_fps(self.fps),
        }
    }

    /// The clip with its timer advanced by `delta_ns` nanoseconds.
    pub open spec fn ticked(&self, delta_ns: u64) -> AnimationConfig {
        AnimationConfig {
            first_sprite_index: self.first_sprite_index,
            last_sprite_index: self.last_sprite_index,
            fps: self.fps,
            frame_timer: self.frame_timer.ticked(delta_ns),
        }
    }

    /// The clip over the frames from `first_sprite_index` to
    /// `last_sprite_index` at `fps` frames a second, about to show its first
    /// frame for one frame's time.
    pub fn new(first_sprite_index: usize, last_sprite_index: usize, fps: u8) -> (config:
        AnimationConfig)
        requires
            first_sprite_index <= last_sprite_index,
            fps >= 1,
        ensures
            config.wf(),
            config == (AnimationConfig {
                first_sprite_index,
                last_sprite_index,
                fps,
                frame_timer: FrameTimer::from_fps(fps),
            }),
    {
        AnimationConfig {
            first_sprite_index,
            last_sprite_index,
            fps,
            frame_timer: FrameTimer::from_fps(fps),
        }
    }

    /// Whether the clip is one that can play.
    pub fn is_valid(&self) -> (valid: bool)
        ensures
            valid == self.wf(),
    {
        self.first_sprite_index <= self.last_sprite_index && self.fps >= 1
    }
}

/// The clip of each direction on the sprite sheet.
pub open spec fn animation_of(action: MoveAction) -> AnimationConfig {
    match action {
        MoveAction::Forward => AnimationConfig {
            first_sprite_index: 104,
            last_sprite_index: 112,
            fps: 9,
            frame_timer: FrameTimer::from_fps(9),
        },
        MoveAction::Backward => AnimationConfig {
            first_sprite_index: 130,
            last_sprite_index: 138,
            fps: 9,
            frame_timer: FrameTimer::from_fps(9),
        },
        MoveAction::Left => AnimationConfig {
            first_sprite_index: 117,
            last_sprite_index: 125,
            fps: 9,
            frame_timer: FrameTimer::from_fps(9),
        },
        MoveAction::Right => AnimationConfig {
            first_sprite_index: 143,
            last_sprite_index: 151,
            fps: 9,
            frame_timer: FrameTimer::from_fps(9),
        },
    }
}

/// The clip that plays while `move_action` is held.
pub fn get_animation_from_action(move_action: MoveAction) -> (config: AnimationConfig)
    ensures
        config == animation_of(move_action),
        config.wf(),
{
    match move_action {
        MoveAction::Forward => AnimationConfig::new(104, 112, 9),
        MoveAction::Backward => AnimationConfig::new(130, 138, 9),
        MoveAction::Left => AnimationConfig::new(117, 125, 9),
        MoveAction::Right => AnimationConfig::new(143, 151, 9),
    }
}

/// The direction whose clip is asked for: of the held directions the first
/// in the order forward, backward, left, right.
pub open spec fn requested_action(input: InputSnapshot) -> Option<MoveAction> {
    if input.forward {
        Some(MoveAction::Forward)
    } else if input.backward {
        Some(MoveAction::Backward)
    } else if input.left {
        Some(MoveAction::Left)
    } else if input.right {
        Some(MoveAction::Right)
    } else {
        None
    }
}

impl SpriteState {
    /// While a clip plays, the clip can play and the frame shown, if there is
    /// one, lies inside it.
    pub open spec fn wf(&self) -> bool {
        match self.animation {
            Some(clip) => clip.wf() && match self.atlas_index {
                Some(index) => clip.first_sprite_index <= index <= clip.last_sprite_index,
                None => true,
            },
            None => true,
        }
    }

    /// The sprite showing `index`, where it shows a frame at all.
    pub open spec fn showing(&self, index: usize) -> Option<usize> {
        match self.atlas_index {
            Some(_) => Some(index),
            None => None,
        }
    }

    /// The state after `clip` was asked for. A clip over other frames than the
    /// active one, or any clip where none is active, starts at its first
    /// frame; the active clip asked for again plays on.
    pub open spec fn overwritten(&self, clip: AnimationConfig) -> SpriteState {
        match self.animation {
            Some(active) if active.same_range(clip) => *self,
            _ => SpriteState {
                atlas_index: self.showing(clip.first_sprite_index),
                animation: Some(clip),
            },
        }
    }

    /// The state after a tick at which no direction was held: an active clip
    /// of a sprite that shows a frame is dropped, with the sprite back at the
    /// clip's first frame.
    pub open spec fn stopped(&self) -> SpriteState {
        match (self.animation, self.atlas_index) {
            (Some(active), Some(_)) => SpriteState {
                atlas_index: Some(active.first_sprite_index),
                animation: None,
            },
            _ => *self,
        }
    }

    /// The state after the controller has looked at `input`.
    pub open spec fn selected(&self, input: InputSnapshot) -> SpriteState {
        match requested_action(input) {
            Some(action) => self.overwritten(animation_of(action)),
            None => self.stopped(),
        }
    }

    /// The state after the frame timer fired: the next frame with a fresh
    /// timer, or, from the last frame, the first frame with no clip active. A
    /// sprite that shows no frame keeps its clip as it is.
    pub open spec fn frame_advanced(&self) -> SpriteState {
        match (self.animation, self.atlas_index) {
            (Some(active), Some(index)) => if index == active.last_sprite_index {
                SpriteState { atlas_index: Some(active.first_sprite_index), animation: None }
            } else {
                SpriteState {
                    atlas_index: Some((index + 1) as usize),
                    animation: Some(active.rewound()),
                }
            },
            _ => *self,
        }
    }

    /// The state after `elapsed_ns` nanoseconds: the timer of the active clip
    /// has advanced, and if it fired, so has the frame.
    pub open spec fn executed(&self, elapsed_ns: u64) -> SpriteState {
        match self.animation {
            Some(active) => {
                let ticked = SpriteState {
                    atlas_index: self.atlas_index,
                    animation: Some(active.ticked(elapsed_ns)),
                };
                if active.frame_timer.fires(elapsed_ns) {
                    ticked.frame_advanced()
                } else {
                    ticked
                }
            },
            None => *self,
        }
    }

    /// The state after the frame timer fired `times` times in a row.
    pub open spec fn fired(&self, times: nat) -> SpriteState
        decreases times,
    {
        if times == 0 {
            *self
        } else {
            self.frame_advanced().fired((times - 1) as nat)
        }
    }
}

impl View for AnimatedSprite {
    type V = SpriteState;

    closed spec fn view(&self) -> SpriteState {
        self.state
    }
}

impl AnimatedSprite {
    /// The frame shown lies inside the clip that plays.
    #[verifier::type_invariant]
    pub closed spec fn wf(&self) -> bool {
        self.state.wf()
    }

    /// The sprite in the given state, unless a clip plays that cannot play or
    /// that the frame shown lies outside of.
    pub fn new(state: SpriteState) -> (sprite: Option<AnimatedSprite>)
        ensures
            sprite is Some <==> state.wf(),
            sprite matches Some(s) ==> s@ == state,
    {
        let valid = match state.animation {
            Some(clip) => clip.is_valid() && match state.atlas_index {
                Some(index) => clip.first_sprite_index <= index && index <= clip.last_sprite_index,
                None => true,
            },
            None => true,
        };
        if valid {
            Some(AnimatedSprite { state })
        } else {
            None
        }
    }

    /// A sprite at rest: it shows `atlas_index` and no clip plays.
    pub fn idle(atlas_index: Option<usize>) -> (sprite: AnimatedSprite)
        ensures
            sprite@ == (SpriteState { atlas_index, animation: None }),
    {
        AnimatedSprite { state: SpriteState { atlas_index, animation: None } }
    }

    /// The frame shown and the clip that plays.
    pub fn state(&self) -> (state: SpriteState)
        ensures
            state == self@,
            state.wf(),
    {
        proof {
            use_type_invariant(self);
        }
        self.state
    }
}

/// Asks for the clip `new_animation_config`.
///
/// Where no clip is active, or the active one runs over other frames, the
/// clip becomes the active one and the sprite shows its first frame. The
/// active clip asked for again is left to play on, so that held input does
/// not restart it at every tick.
fn overwrite_animation(sprite: AnimatedSprite, new_animation_config: AnimationConfig) -> (next:
    AnimatedSprite)
    requires
        new_animation_config.wf(),
    ensures
        next@ == sprite@.overwritten(new_animation_config),
{
    proof {
        use_type_invariant(sprite);
    }
    let state = sprite.state;
    let replace = match state.animation {
        Some(active) => active.first_sprite_index != new_animation_config.first_sprite_index
            || active.last_sprite_index != new_animation_config.last_sprite_index,
        None => true,
    };
    if replace {
        let atlas_index = match state.atlas_index {
            Some(_) => Some(new_animation_config.first_sprite_index),
            None => None,
        };
        AnimatedSprite { state: SpriteState { atlas_index, animation: Some(new_animation_config) } }
    } else {
        sprite
    }
}

/// Selects the clip for what is held at this tick.
///
/// Of the held directions the first in the order forward, backward, left,
/// right decides, whether or not the actor moves. With nothing held an active
/// clip is dropped and the sprite returns to the clip's first frame. The frame
/// shown stays inside the active clip.
pub fn start_movement_animation(sprite: AnimatedSprite, input: &InputSnapshot) -> (next:
    AnimatedSprite)
    ensures
        next@ == sprite@.selected(*input),
        next@.wf(),
{
    proof {
        use_type_invariant(sprite);
    }
    if input.pressed(MoveAction::Forward) {
        overwrite_animation(sprite, get_animation_from_action(MoveAction::Forward))
    } else if input.pressed(MoveAction::Backward) {
        overwrite_animation(sprite, get_animation_from_action(MoveAction::Backward))
    } else if input.pressed(MoveAction::Left) {
        overwrite_animation(sprite, get_animation_from_action(MoveAction::Left))
    } else if input.pressed(MoveAction::Right) {
        overwrite_animation(sprite, get_animation_from_action(MoveAction::Right))
    } else {
        match (sprite.state.animation, sprite.state.atlas_index) {
            (Some(active), Some(_)) => AnimatedSprite {
                state: SpriteState {
                    atlas_index: Some(active.first_sprite_index),
                    animation: None,
                },
            },
            _ => sprite,
        }
    }
}

/// Plays the active clip for the time that has passed since the last tick.
///
/// The frame timer advances by `elapsed_ns`. When it fires, the sprite shows
/// the next frame and the timer starts anew; from the last frame the sprite
/// returns to the first and the clip ends. The frame shown stays inside the
/// active clip.
pub fn execute_movement_animation(sprite: AnimatedSprite, elapsed_ns: u64) -> (next:
    AnimatedSprite)
    ensures
        next@ == sprite@.executed(elapsed_ns),
        next@.wf(),
{
    proof {
        use_type_invariant(sprite);
    }
    let state = sprite.state;
    match state.animation {
        None => sprite,
        Some(active) => {
            let (frame_timer, fired) = active.frame_timer.tick(elapsed_ns);
            let ticked = AnimationConfig {
                first_sprite_index: active.first_sprite_index,
                last_sprite_index: active.last_sprite_index,
                fps: active.fps,
                frame_timer,
            };
            match state.atlas_index {
                Some(index) if fired => {
                    if index == active.last_sprite_index {
                        AnimatedSprite {
                            state: SpriteState {
                                atlas_index: Some(active.first_sprite_index),
                                animation: None,
                            },
                        }
                    } else {
                        AnimatedSprite {
                            state: SpriteState {
                                atlas_index: Some(index + 1),
                                animation: Some(
                                    AnimationConfig {
                                        first_sprite_index: active.first_sprite_index,
                                        last_sprite_index: active.last_sprite_index,
                                        fps: active.fps,
                                        frame_timer: FrameTimer::from_fps(active.fps),
                                    },
                                ),
                            },
                        }
                    }
                },
                _ => AnimatedSprite {
                    state: SpriteState { atlas_index: state.atlas_index, animation: Some(ticked) },
                },
            }
        },
    }
}

/// Selecting a clip keeps the frame shown inside the active clip.
pub proof fn lemma_selected_in_range(state: SpriteState, input: InputSnapshot)
    requires
        state.wf(),
    ensures
        state.selected(input).wf(),
{
}

/// Playing a clip keeps the frame shown inside the active clip.
pub proof fn lemma_executed_in_range(state: SpriteState, elapsed_ns: u64)
    requires
        state.wf(),
    ensures
        state.executed(elapsed_ns).wf(),
{
}

/// A clip plays once. From the frame `index` of the active clip, each firing
/// of the frame timer shows the next frame while there is one; the firing
/// after the last frame ends the clip and returns the sprite to the first
/// frame. Counted from the clip's first frame, that is one firing for each
/// frame of the clip.
pub proof fn lemma_clip_plays_once(state: SpriteState, times: nat)
    requires
        state.wf(),
        state.animation is Some,
        state.atlas_index is Some,
        times <= state.animation.unwrap().last_sprite_index - state.atlas_index.unwrap() + 1,
    ensures
        times <= state.animation.unwrap().last_sprite_index - state.atlas_index.unwrap() ==> {
            &&& state.fired(times).wf()
            &&& state.fired(times).atlas_index == Some((state.atlas_index.unwrap() + times) as usize)
            &&& state.fired(times).animation is Some
            &&& state.fired(times).animation.unwrap().same_range(state.animation.unwrap())
        },
        times == state.animation.unwrap().last_sprite_index - state.atlas_index.unwrap() + 1 ==> {
            &&& state.fired(times).animation is None
            &&& state.fired(times).atlas_index == Some(
                state.animation.unwrap().first_sprite_index,
            )
        },
    decreases times,
{
    if times > 0 {
        let next = state.frame_advanced();
        if state.atlas_index.unwrap() < state.animation.unwrap().last_sprite_index {
            lemma_clip_plays_once(next, (times - 1) as nat);
        } else {
            assert(times == 1);
            assert(next.fired(0) == next);
        }
    }
}

} // verus!
