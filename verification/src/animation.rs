use vstd::prelude::*;

verus! {

/// Which animation of the pirate's sprite sheet is playing.
#[derive(Clone, Copy, PartialEq, Eq, Structural, Debug)]
pub enum SpriteState {
    Idle,
    LeftRun,
    RightRun,
    ForwardRun,
    BackwardRun,
}

/// How a velocity component compares with zero; `Unordered` when it is not
/// a number.
#[derive(Clone, Copy, PartialEq, Eq, Structural, Debug)]
pub enum Sign {
    Negative,
    Zero,
    Positive,
    Unordered,
}

/// Number of frames of each animation on the sheet.
pub const FRAMES_PER_ANIMATION: usize = 8;

/// Number of frames a skeleton's spinning bone projectile cycles through.
pub const PROJECTILE_FRAMES: usize = 8;

/// First frame of the animation on the sprite sheet: one row of eight frames per state.
pub open spec fn first_frame(s: SpriteState) -> int {
    match s {
        SpriteState::Idle => 0,
        SpriteState::LeftRun => 8,
        SpriteState::RightRun => 16,
        SpriteState::ForwardRun => 24,
        SpriteState::BackwardRun => 32,
    }
}

/// One past the last frame of the animation.
pub open spec fn end_frame(s: SpriteState) -> int {
    first_frame(s) + FRAMES_PER_ANIMATION
}

pub open spec fn frame_in_animation(s: SpriteState, index: int) -> bool {
    first_frame(s) <= index < end_frame(s)
}

/// The animation a velocity asks for: idle when standing still, running
/// sideways whenever there is horizontal motion, otherwise forward (down the
/// screen) or backward (up the screen).
pub open spec fn sprite_state_for(x: Sign, y: Sign) -> SpriteState {
    if x == Sign::Zero && y == Sign::Zero {
        SpriteState::Idle
    } else if x == Sign::Negative {
        SpriteState::LeftRun
    } else if x == Sign::Positive {
        SpriteState::RightRun
    } else if y == Sign::Negative {
        SpriteState::ForwardRun
    } else if y == Sign::Positive {
        SpriteState::BackwardRun
    } else {
        SpriteState::Idle
    }
}

/// The frame after `index` in the animation of `s`: the next one, or the
/// first again once the end is reached.
pub open spec fn following_frame(s: SpriteState, index: int) -> int {
    if index + 1 >= end_frame(s) {
        first_frame(s)
    } else {
        index + 1
    }
}

impl SpriteState {
    /// The frames of this animation on the sprite sheet.
    pub fn animation_indices(&self) -> (r: std::ops::Range<usize>)
        ensures
            r.start == first_frame(*self),
            r.end == end_frame(*self),
    {
        match self {
            SpriteState::Idle => 0..8,
            SpriteState::LeftRun => 8..16,
            SpriteState::RightRun => 16..24,
            SpriteState::ForwardRun => 24..32,
            SpriteState::BackwardRun => 32..40,
        }
    }
}

/// Picks the pirate's animation from the signs of its velocity.
pub fn select_sprite_state(x: Sign, y: Sign) -> (s: SpriteState)
    ensures
        s == sprite_state_for(x, y),
        x == Sign::Negative ==> s == SpriteState::LeftRun,
        x == Sign::Positive ==> s == SpriteState::RightRun,
        x != Sign::Negative && x != Sign::Positive && y == Sign::Negative ==> s == SpriteState::ForwardRun,
        x != Sign::Negative && x != Sign::Positive && y == Sign::Positive ==> s == SpriteState::BackwardRun,
        x != Sign::Negative && x != Sign::Positive && y != Sign::Negative && y != Sign::Positive ==> s
            == SpriteState::Idle,
{
    if x == Sign::Zero && y == Sign::Zero {
        SpriteState::Idle
    } else if x == Sign::Negative {
        SpriteState::LeftRun
    } else if x == Sign::Positive {
        SpriteState::RightRun
    } else if y == Sign::Negative {
        SpriteState::ForwardRun
    } else if y == Sign::Positive {
        SpriteState::BackwardRun
    } else {
        SpriteState::Idle
    }
}

/// Switches to `wanted` if it differs from `current`, restarting at the
/// first frame of the new animation. Returns the state, the frame, and
/// whether the animation changed (the caller then restarts its frame timer).
pub fn switch_animation(current: SpriteState, index: usize, wanted: SpriteState) -> (r: (SpriteState, usize, bool))
    ensures
        wanted != current ==> r == (wanted, first_frame(wanted) as usize, true),
        wanted == current ==> r == (current, index, false),
{
    if wanted != current {
        let range = wanted.animation_indices();
        (wanted, range.start, true)
    } else {
        (current, index, false)
    }
}

/// Advances the pirate's animation by one frame, wrapping within the frames
/// of its state.
pub fn next_player_frame(state: SpriteState, index: usize) -> (next: usize)
    ensures
        next == following_frame(state, index as int),
{
    let range = state.animation_indices();
    if index >= range.end - 1 {
        range.start
    } else {
        index + 1
    }
}

/// Advances a looping animation of `frame_count` frames (bats, skeletons,
/// rocks, the boss).
pub fn next_frame(index: usize, frame_count: usize) -> (next: usize)
    requires
        frame_count > 0,
        index < usize::MAX,
    ensures
        next == (index + 1) % (frame_count as int),
        next < frame_count,
{
    (index + 1) % frame_count
}

/// Advances the frame of a skeleton's bone projectile, back to the first
/// after the eighth.
pub fn next_projectile_frame(index: usize) -> (next: usize)
    ensures
        index < PROJECTILE_FRAMES - 1 ==> next == index + 1,
        index >= PROJECTILE_FRAMES - 1 ==> next == 0,
{
    if index < PROJECTILE_FRAMES - 1 {
        index + 1
    } else {
        0
    }
}

/// The pirate's frame never leaves the frames of its animation: a switch
/// starts at the first frame of the new animation, and each step from a frame
/// inside stays inside.
pub proof fn lemma_frames_stay_in_animation(state: SpriteState, index: int)
    requires
        frame_in_animation(state, index),
    ensures
        frame_in_animation(state, following_frame(state, index)),
        frame_in_animation(state, first_frame(state)),
{
}

/// Any horizontal motion decides the animation alone: running left for
/// leftward motion and right for rightward motion, whatever the vertical
/// motion; only a pirate that does not move sideways runs forward, runs
/// backward or stands idle, as its vertical motion says.
pub proof fn lemma_sideways_motion_decides(x: Sign, y1: Sign, y2: Sign)
    ensures
        x == Sign::Negative || x == Sign::Positive ==> sprite_state_for(x, y1) == sprite_state_for(x, y2),
        sprite_state_for(Sign::Negative, y1) == SpriteState::LeftRun,
        sprite_state_for(Sign::Positive, y1) == SpriteState::RightRun,
        x == Sign::Zero || x == Sign::Unordered ==> sprite_state_for(x, Sign::Negative) == SpriteState::ForwardRun
            && sprite_state_for(x, Sign::Positive) == SpriteState::BackwardRun && sprite_state_for(x, Sign::Zero)
            == SpriteState::Idle && sprite_state_for(x, Sign::Unordered) == SpriteState::Idle,
{
}

/// The pirate's sheet holds its animations row after row, eight frames
/// each: standing, running left, running right, running forward, running
/// backward, forty frames in all.
pub proof fn lemma_sheet_layout()
    ensures
        first_frame(SpriteState::Idle) == 0,
        first_frame(SpriteState::LeftRun) == end_frame(SpriteState::Idle),
        first_frame(SpriteState::RightRun) == end_frame(SpriteState::LeftRun),
        first_frame(SpriteState::ForwardRun) == end_frame(SpriteState::RightRun),
        first_frame(SpriteState::BackwardRun) == end_frame(SpriteState::ForwardRun),
        end_frame(SpriteState::BackwardRun) == 40,
        forall|s: SpriteState| end_frame(s) - first_frame(s) == 8,
{
}

/// Stepping through an animation visits its frames in order and starts over
/// after the last: the position within the animation grows by one, modulo
/// the animation's length.
pub proof fn lemma_frames_cycle(s: SpriteState, index: int)
    requires
        frame_in_animation(s, index),
    ensures
        following_frame(s, index) - first_frame(s) == (index - first_frame(s) + 1) % (FRAMES_PER_ANIMATION as int),
{
}

} // verus!
