use vstd::prelude::*;

verus! {

/// The player's controls.
#[derive(Clone, Copy, PartialEq, Eq, Structural, Debug)]
pub enum PlayerControl {
    /// W
    Up,
    /// S
    Down,
    /// A
    Left,
    /// D
    Right,
    /// Left mouse button
    Attack,
    /// Right mouse button
    Secondary,
}

/// Which of the keys and buttons the game listens to are held down.
#[derive(Clone, Copy, PartialEq, Eq, Structural, Debug)]
pub struct HeldInputs {
    pub key_w: bool,
    pub key_s: bool,
    pub key_a: bool,
    pub key_d: bool,
    pub mouse_left: bool,
    pub mouse_right: bool,
}

pub open spec fn is_pressed(control: PlayerControl, held: HeldInputs) -> bool {
    match control {
        PlayerControl::Up => held.key_w,
        PlayerControl::Down => held.key_s,
        PlayerControl::Left => held.key_a,
        PlayerControl::Right => held.key_d,
        PlayerControl::Attack => held.mouse_left,
        PlayerControl::Secondary => held.mouse_right,
    }
}

pub open spec fn input_value(control: PlayerControl, held: HeldInputs) -> int {
    if is_pressed(control, held) { 1 } else { 0 }
}

impl PlayerControl {
    /// Whether the key or button of this control is held down.
    pub fn pressed(&self, held: &HeldInputs) -> (r: bool)
        ensures
            r == is_pressed(*self, *held),
    {
        match self {
            PlayerControl::Up => held.key_w,
            PlayerControl::Down => held.key_s,
            PlayerControl::Left => held.key_a,
            PlayerControl::Right => held.key_d,
            PlayerControl::Attack => held.mouse_left,
            PlayerControl::Secondary => held.mouse_right,
        }
    }
}

/// One when the control is held, zero otherwise; used as a factor for
/// movement and as a trigger for attacks.
pub fn get_player_input(control: PlayerControl, held: &HeldInputs) -> (v: i32)
    ensures
        v == input_value(control, *held),
{
    if control.pressed(held) { 1 } else { 0 }
}

/// The direction asked for along one axis: one towards `positive`, minus one
/// towards `negative`, zero when neither or both are held.
pub fn input_axis(positive: PlayerControl, negative: PlayerControl, held: &HeldInputs) -> (v: i32)
    ensures
        v == input_value(positive, *held) - input_value(negative, *held),
        -1 <= v <= 1,
{
    get_player_input(positive, held) - get_player_input(negative, held)
}

/// Each control listens to its own key or button, and to nothing else:
/// W, S, A and D move, the left mouse button attacks, the right one is the
/// second action.
pub proof fn lemma_each_control_its_own_input(c1: PlayerControl, c2: PlayerControl, held: HeldInputs)
    ensures
        is_pressed(PlayerControl::Up, held) == held.key_w,
        is_pressed(PlayerControl::Down, held) == held.key_s,
        is_pressed(PlayerControl::Left, held) == held.key_a,
        is_pressed(PlayerControl::Right, held) == held.key_d,
        is_pressed(PlayerControl::Attack, held) == held.mouse_left,
        is_pressed(PlayerControl::Secondary, held) == held.mouse_right,
        c1 != c2 ==> exists|h: HeldInputs| is_pressed(c1, h) && !is_pressed(c2, h),
{
    if c1 != c2 {
        let h = HeldInputs {
            key_w: c1 == PlayerControl::Up,
            key_s: c1 == PlayerControl::Down,
            key_a: c1 == PlayerControl::Left,
            key_d: c1 == PlayerControl::Right,
            mouse_left: c1 == PlayerControl::Attack,
            mouse_right: c1 == PlayerControl::Secondary,
        };
        assert(is_pressed(c1, h) && !is_pressed(c2, h));
    }
}

/// Holding both keys of an axis, or neither, asks for no motion; holding one
/// asks for a unit step towards it; and swapping the two keys reverses the
/// direction.
pub proof fn lemma_axis(positive: PlayerControl, negative: PlayerControl, held: HeldInputs)
    ensures
        is_pressed(positive, held) == is_pressed(negative, held) ==> input_value(positive, held) - input_value(
            negative,
            held,
        ) == 0,
        is_pressed(positive, held) && !is_pressed(negative, held) ==> input_value(positive, held) - input_value(
            negative,
            held,
        ) == 1,
        input_value(negative, held) - input_value(positive, held) == -(input_value(positive, held) - input_value(
            negative,
            held,
        )),
{
}

} // verus!
