use tilewalk::actions::{InputSnapshot, MoveAction};
use tilewalk::animation::{
    execute_movement_animation, get_animation_from_action, start_movement_animation,
    AnimatedSprite, AnimationConfig, FrameTimer, SpriteState,
};

const FRAME_NS: u64 = 111_111_111;

fn pressing(forward: bool, backward: bool, left: bool, right: bool) -> InputSnapshot {
    InputSnapshot { forward, backward, left, right }
}

#[test]
fn each_direction_has_its_clip() {
    let forward = get_animation_from_action(MoveAction::Forward);
    assert_eq!((forward.first_sprite_index, forward.last_sprite_index, forward.fps), (104, 112, 9));
    let backward = get_animation_from_action(MoveAction::Backward);
    assert_eq!((backward.first_sprite_index, backward.last_sprite_index, backward.fps), (130, 138, 9));
    let left = get_animation_from_action(MoveAction::Left);
    assert_eq!((left.first_sprite_index, left.last_sprite_index, left.fps), (117, 125, 9));
    let right = get_animation_from_action(MoveAction::Right);
    assert_eq!((right.first_sprite_index, right.last_sprite_index, right.fps), (143, 151, 9));
    assert_eq!(forward, AnimationConfig::new(104, 112, 9));
}

#[test]
fn a_new_clip_waits_one_frame_time() {
    let clip = AnimationConfig::new(3, 7, 9);
    assert_eq!(clip.frame_timer, FrameTimer { duration_ns: FRAME_NS, elapsed_ns: 0, finished: false });
    assert!(clip.is_valid());
    assert_eq!(FrameTimer::from_fps(1).duration_ns, 1_000_000_000);
    assert_eq!(FrameTimer::from_fps(255).duration_ns, 3_921_568);
    let backwards = AnimationConfig { first_sprite_index: 8, last_sprite_index: 7, fps: 9, frame_timer: clip.frame_timer };
    assert!(!backwards.is_valid());
    let still = AnimationConfig { first_sprite_index: 1, last_sprite_index: 7, fps: 0, frame_timer: clip.frame_timer };
    assert!(!still.is_valid());
}

#[test]
fn the_timer_fires_once_when_it_reaches_its_duration() {
    let timer = FrameTimer::from_fps(10);
    assert_eq!(timer.duration_ns, 100_000_000);
    let (running, fired) = timer.tick(99_999_999);
    assert!(!fired);
    assert_eq!(running, FrameTimer { duration_ns: 100_000_000, elapsed_ns: 99_999_999, finished: false });
    let (done, fired) = running.tick(1);
    assert!(fired);
    assert_eq!(done, FrameTimer { duration_ns: 100_000_000, elapsed_ns: 100_000_000, finished: true });
    let (after, fired) = done.tick(500_000_000);
    assert!(!fired);
    assert_eq!(after, done);
    let (far, fired) = timer.tick(u64::MAX);
    assert!(fired);
    assert_eq!(far, done);
    let (late, fired) = running.tick(u64::MAX);
    assert!(fired);
    assert_eq!(late, done);
}

#[test]
fn held_input_selects_by_priority() {
    let idle = AnimatedSprite::idle(Some(26));
    let cases = [
        (pressing(true, true, true, true), MoveAction::Forward),
        (pressing(true, false, true, false), MoveAction::Forward),
        (pressing(false, true, true, true), MoveAction::Backward),
        (pressing(false, false, true, true), MoveAction::Left),
        (pressing(false, false, false, true), MoveAction::Right),
    ];
    for (input, action) in cases.iter() {
        let clip = get_animation_from_action(*action);
        let next = start_movement_animation(idle, input).state();
        assert_eq!(next.atlas_index, Some(clip.first_sprite_index));
        assert_eq!(next.animation, Some(clip));
    }
}

#[test]
fn the_same_clip_is_not_restarted_by_held_input() {
    let forward = pressing(true, false, false, false);
    let started = start_movement_animation(AnimatedSprite::idle(Some(26)), &forward);
    let played = execute_movement_animation(started, 50_000_000);
    let played = execute_movement_animation(played, FRAME_NS);
    assert_eq!(played.state().atlas_index, Some(105));
    let held = start_movement_animation(played, &forward);
    assert_eq!(held, played);
    let turned = start_movement_animation(played, &pressing(false, false, true, false));
    assert_eq!(turned.state().atlas_index, Some(117));
    assert_eq!(turned.state().animation, Some(get_animation_from_action(MoveAction::Left)));
}

#[test]
fn released_input_returns_to_the_first_frame() {
    let started = start_movement_animation(AnimatedSprite::idle(Some(26)), &pressing(false, true, false, false));
    let played = execute_movement_animation(execute_movement_animation(started, FRAME_NS), FRAME_NS);
    assert_eq!(played.state().atlas_index, Some(132));
    let stopped = start_movement_animation(played, &InputSnapshot::released());
    assert_eq!(stopped.state(), SpriteState { atlas_index: Some(130), animation: None });
    let idle = AnimatedSprite::idle(Some(26));
    assert_eq!(start_movement_animation(idle, &InputSnapshot::released()), idle);
}

#[test]
fn a_clip_plays_once_and_ends_at_its_first_frame() {
    let mut sprite = start_movement_animation(AnimatedSprite::idle(Some(26)), &pressing(true, false, false, false));
    assert_eq!(sprite.state().atlas_index, Some(104));
    for fired in 1..=8usize {
        sprite = execute_movement_animation(sprite, FRAME_NS);
        let state = sprite.state();
        assert_eq!(state.atlas_index, Some(104 + fired));
        assert_eq!(state.animation, Some(get_animation_from_action(MoveAction::Forward)));
    }
    sprite = execute_movement_animation(sprite, FRAME_NS);
    assert_eq!(sprite.state(), SpriteState { atlas_index: Some(104), animation: None });
    let rest = execute_movement_animation(sprite, 10 * FRAME_NS);
    assert_eq!(rest, sprite);
}

#[test]
fn the_frame_stays_inside_the_clip_for_any_ticks() {
    let mut sprite = start_movement_animation(AnimatedSprite::idle(Some(0)), &pressing(false, false, false, true));
    let deltas = [0u64, 1, 40_000_000, 80_000_000, FRAME_NS - 1, FRAME_NS, 3 * FRAME_NS, u64::MAX];
    for round in 0..200usize {
        sprite = execute_movement_animation(sprite, deltas[round % deltas.len()]);
        let state = sprite.state();
        match state.animation {
            Some(clip) => {
                let index = state.atlas_index.unwrap();
                assert!(clip.first_sprite_index <= index && index <= clip.last_sprite_index);
            }
            None => {
                assert_eq!(state.atlas_index, Some(143));
                sprite = start_movement_animation(sprite, &pressing(false, false, false, true));
            }
        }
    }
}

#[test]
fn time_below_one_frame_adds_up() {
    let started = start_movement_animation(AnimatedSprite::idle(Some(26)), &pressing(false, false, true, false));
    let part = execute_movement_animation(started, 60_000_000);
    assert_eq!(part.state().atlas_index, Some(117));
    assert_eq!(part.state().animation.unwrap().frame_timer.elapsed_ns, 60_000_000);
    let next = execute_movement_animation(part, 60_000_000);
    assert_eq!(next.state().atlas_index, Some(118));
    assert_eq!(next.state().animation.unwrap().frame_timer, FrameTimer::from_fps(9));
}

#[test]
fn a_sprite_without_sheet_keeps_its_clip() {
    let bare = AnimatedSprite::idle(None);
    let started = start_movement_animation(bare, &pressing(true, false, false, false));
    assert_eq!(started.state().atlas_index, None);
    assert_eq!(started.state().animation, Some(get_animation_from_action(MoveAction::Forward)));
    let ticked = execute_movement_animation(started, FRAME_NS);
    let clip = ticked.state().animation.unwrap();
    assert!(clip.frame_timer.finished);
    assert_eq!(ticked.state().atlas_index, None);
    assert_eq!(execute_movement_animation(ticked, FRAME_NS), ticked);
    assert_eq!(start_movement_animation(ticked, &InputSnapshot::released()), ticked);
}

#[test]
fn a_sprite_outside_its_clip_is_refused() {
    let clip = get_animation_from_action(MoveAction::Forward);
    assert!(AnimatedSprite::new(SpriteState { atlas_index: Some(103), animation: Some(clip) }).is_none());
    assert!(AnimatedSprite::new(SpriteState { atlas_index: Some(113), animation: Some(clip) }).is_none());
    let bad = AnimationConfig { first_sprite_index: 5, last_sprite_index: 4, fps: 9, frame_timer: clip.frame_timer };
    assert!(AnimatedSprite::new(SpriteState { atlas_index: None, animation: Some(bad) }).is_none());
    let inside = SpriteState { atlas_index: Some(112), animation: Some(clip) };
    assert_eq!(AnimatedSprite::new(inside).unwrap().state(), inside);
    let resting = SpriteState { atlas_index: Some(9999), animation: None };
    assert_eq!(AnimatedSprite::new(resting).unwrap().state(), resting);
}

#[test]
fn pressed_reads_each_direction() {
    let input = pressing(true, false, false, true);
    assert!(input.pressed(MoveAction::Forward));
    assert!(!input.pressed(MoveAction::Backward));
    assert!(!input.pressed(MoveAction::Left));
    assert!(input.pressed(MoveAction::Right));
}
