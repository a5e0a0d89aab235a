use vstd::prelude::*;

verus! {

/// Held state of the movement keys for one frame.
#[derive(Clone, Copy, Debug, PartialEq, Eq, Structural)]
pub struct MoveKeys {
    pub forward: bool,
    pub back: bool,
    pub left: bool,
    pub right: bool,
    pub up: bool,
    pub down: bool,
    pub run: bool,
}

/// Combined movement intent in camera-local axes: `x` strafes right,
/// `y` goes up, `z` goes forward. Each component is -1, 0 or 1.
#[derive(Clone, Copy, Debug, PartialEq, Eq, Structural)]
pub struct AxisInput {
    pub x: i8,
    pub y: i8,
    pub z: i8,
}

/// One key pair's contribution: +1 for the positive key, -1 for the negative one.
pub open spec fn key_pair(pos: bool, neg: bool) -> int {
    (if pos { 1int } else { 0int }) - (if neg { 1int } else { 0int })
}

pub open spec fn is_unit_component(c: i8) -> bool {
    c == -1 || c == 0 || c == 1
}

impl AxisInput {
    pub open spec fn wf(self) -> bool {
        is_unit_component(self.x) && is_unit_component(self.y) && is_unit_component(self.z)
    }

    pub open spec fn spec_is_zero(self) -> bool {
        self.x == 0 && self.y == 0 && self.z == 0
    }

    /// Squared Euclidean length of the axis vector.
    pub open spec fn spec_norm_sq(self) -> int {
        self.x * self.x + self.y * self.y + self.z * self.z
    }

    /// True when no movement key contributes to any axis.
    pub fn is_zero(&self) -> (r: bool)
        ensures
            r == self.spec_is_zero(),
    {
        self.x == 0 && self.y == 0 && self.z == 0
    }

    /// Squared length of the axis vector: the number of axes that move.
    /// The host normalises the vector by the square root of this value.
    pub fn norm_sq(&self) -> (r: u8)
        requires
            self.wf(),
        ensures
            r as int == self.spec_norm_sq(),
            r <= 3,
            r == 0 <==> self.spec_is_zero(),
    {
        let mut n: u8 = 0;
        if self.x != 0 {
            n = n + 1;
        }
        if self.y != 0 {
            n = n + 1;
        }
        if self.z != 0 {
            n = n + 1;
        }
        n
    }
}

/// Builds the axis vector from the movement keys: forward/back on `z`,
/// right/left on `x`, up/down on `y`. Opposite keys cancel each other.
pub fn axis_input(keys: &MoveKeys) -> (r: AxisInput)
    ensures
        r.wf(),
        r.x as int == key_pair(keys.right, keys.left),
        r.y as int == key_pair(keys.up, keys.down),
        r.z as int == key_pair(keys.forward, keys.back),
{
    let mut a = AxisInput { x: 0, y: 0, z: 0 };
    if keys.forward {
        a.z = a.z + 1;
    }
    if keys.back {
        a.z = a.z - 1;
    }
    if keys.right {
        a.x = a.x + 1;
    }
    if keys.left {
        a.x = a.x - 1;
    }
    if keys.up {
        a.y = a.y + 1;
    }
    if keys.down {
        a.y = a.y - 1;
    }
    a
}

} // verus!
