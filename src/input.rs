//! Keyboard axes: two opposing keys reduced to a signed value in {-1, 0, 1}.
use vstd::prelude::*;

verus! {

/// The physical keys that the renderer reacts to; every other key is `Other`.
#[derive(Clone, Copy, Debug, PartialEq, Eq, Structural)]
pub enum Key {
    KeyA,
    KeyD,
    KeyS,
    KeyW,
    KeyF,
    Escape,
    Other,
}

/// A pair of opposing keys and whether each is held down.
#[derive(Clone, Copy, Debug, PartialEq, Eq, Structural)]
pub struct Axis {
    pub negative_pressed: bool,
    pub negative_button: Key,
    pub positive_pressed: bool,
    pub positive_button: Key,
}

impl Axis {
    /// The signed value of the axis: +1 for the positive key, -1 for the negative one.
    pub open spec fn value(self) -> int {
        (if self.negative_pressed { -1int } else { 0int }) + (if self.positive_pressed {
            1int
        } else {
            0int
        })
    }

    /// The axis after a key event: the positive key is checked first, then the negative one.
    pub open spec fn after_key(self, key: Key, pressed: bool) -> Axis {
        if key == self.positive_button {
            Axis { positive_pressed: pressed, ..self }
        } else if key == self.negative_button {
            Axis { negative_pressed: pressed, ..self }
        } else {
            self
        }
    }

    pub fn new(negative_button: Key, positive_button: Key) -> (r: Axis)
        ensures
            r.negative_button == negative_button,
            r.positive_button == positive_button,
            !r.negative_pressed,
            !r.positive_pressed,
            r.value() == 0,
    {
        Axis { negative_button, positive_button, negative_pressed: false, positive_pressed: false }
    }

    /// Records a press (`pressed`) or release of `key`.
    pub fn process(&mut self, key: Key, pressed: bool)
        ensures
            *final(self) == old(self).after_key(key, pressed),
    {
        if key == self.positive_button {
            self.positive_pressed = pressed;
        } else if key == self.negative_button {
            self.negative_pressed = pressed;
        }
    }

    pub fn get(&self) -> (r: i8)
        ensures
            r as int == self.value(),
            -1 <= r <= 1,
    {
        let n: i8 = if self.negative_pressed { -1 } else { 0 };
        let p: i8 = if self.positive_pressed { 1 } else { 0 };
        n + p
    }
}

/// The two movement axes of a first-person camera: A/D strafes, S/W walks.
#[derive(Clone, Copy, Debug, PartialEq, Eq, Structural)]
pub struct MovementAxes {
    pub horizontal: Axis,
    pub vertical: Axis,
}

impl MovementAxes {
    /// Whether an update step moves the eye: at least one axis is non-zero.
    pub open spec fn moving(self) -> bool {
        self.horizontal.value() != 0 || self.vertical.value() != 0
    }

    pub fn new() -> (r: MovementAxes)
        ensures
            r.horizontal == (Axis {
                negative_button: Key::KeyA,
                positive_button: Key::KeyD,
                negative_pressed: false,
                positive_pressed: false,
            }),
            r.vertical == (Axis {
                negative_button: Key::KeyS,
                positive_button: Key::KeyW,
                negative_pressed: false,
                positive_pressed: false,
            }),
            !r.moving(),
    {
        MovementAxes { horizontal: Axis::new(Key::KeyA, Key::KeyD), vertical: Axis::new(Key::KeyS, Key::KeyW) }
    }

    /// Hands a key event to both axes.
    pub fn process(&mut self, key: Key, pressed: bool)
        ensures
            final(self).horizontal == old(self).horizontal.after_key(key, pressed),
            final(self).vertical == old(self).vertical.after_key(key, pressed),
    {
        self.horizontal.process(key, pressed);
        self.vertical.process(key, pressed);
    }

    /// Whether the eye moves in this update step; a zero movement vector is
    /// never normalised.
    pub fn is_moving(&self) -> (r: bool)
        ensures
            r == self.moving(),
            !self.horizontal.positive_pressed && !self.horizontal.negative_pressed
                && !self.vertical.positive_pressed && !self.vertical.negative_pressed ==> !r,
    {
        self.horizontal.get() != 0 || self.vertical.get() != 0
    }
}

/// Pressing and then releasing the positive key of an axis whose negative key is
/// up gives the value 1 and then 0; holding both keys gives 0.
pub proof fn lemma_axis_press_release(a: Axis)
    requires
        a.negative_button != a.positive_button,
    ensures
        !a.negative_pressed ==> a.after_key(a.positive_button, true).value() == 1,
        !a.negative_pressed ==> a.after_key(a.positive_button, true).after_key(
            a.positive_button,
            false,
        ).value() == 0,
        a.after_key(a.positive_button, true).after_key(a.negative_button, true).value() == 0,
        a.after_key(a.negative_button, true).after_key(a.positive_button, true).value() == 0,
{
}

} // verus!
