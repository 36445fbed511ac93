use vstd::prelude::*;

verus! {

/// The bit pattern of the single-precision number one.
pub const UNIT: u32 = 0x3f80_0000;

/// Whether the bit pattern is a not-a-number of single precision: all
/// exponent bits set and a mantissa that is not zero.
pub open spec fn is_nan(bits: u32) -> bool {
    (bits & 0x7fff_ffff) > 0x7f80_0000
}

/// Whether the bit pattern is a zero of either sign.
pub open spec fn is_zero(bits: u32) -> bool {
    (bits & 0x7fff_ffff) == 0
}

/// Equality of two single-precision numbers, given by their bit patterns: a
/// not-a-number equals nothing, the two zeros equal each other, and any other
/// number equals the same pattern only.
pub open spec fn same_number(a: u32, b: u32) -> bool {
    !is_nan(a) && !is_nan(b) && (a == b || (is_zero(a) && is_zero(b)))
}

/// Compares two single-precision numbers given by their bit patterns.
pub fn number_eq(a: u32, b: u32) -> (equal: bool)
    ensures
        equal == same_number(a, b),
{
    let a_magnitude: u32 = a & 0x7fff_ffff;
    let b_magnitude: u32 = b & 0x7fff_ffff;
    if a_magnitude > 0x7f80_0000 || b_magnitude > 0x7f80_0000 {
        false
    } else {
        a == b || (a_magnitude == 0 && b_magnitude == 0)
    }
}

/// A point or an extent in two dimensions; each field is the bit pattern of a
/// single-precision number.
#[derive(Clone, Copy, Debug, PartialEq, Eq, Structural)]
pub struct Vec2 {
    pub x: u32,
    pub y: u32,
}

/// Three single-precision numbers, as bit patterns.
#[derive(Clone, Copy, Debug, PartialEq, Eq, Structural)]
pub struct Vec3 {
    pub x: u32,
    pub y: u32,
    pub z: u32,
}

/// A rotation as four single-precision numbers, as bit patterns.
#[derive(Clone, Copy, Debug, PartialEq, Eq, Structural)]
pub struct Quat {
    pub x: u32,
    pub y: u32,
    pub z: u32,
    pub w: u32,
}

/// An axis-aligned rectangle, given by two opposite corners.
#[derive(Clone, Copy, Debug, PartialEq, Eq, Structural)]
pub struct Rect {
    pub min: Vec2,
    pub max: Vec2,
}

/// A placement relative to the parent: translation, rotation and scale.
#[derive(Clone, Copy, Debug, PartialEq, Eq, Structural)]
pub struct Transform {
    pub translation: Vec3,
    pub rotation: Quat,
    pub scale: Vec3,
}

/// A placement in the world: the three columns of a linear map and a
/// translation.
#[derive(Clone, Copy, Debug, PartialEq, Eq, Structural)]
pub struct GlobalTransform {
    pub x_axis: Vec3,
    pub y_axis: Vec3,
    pub z_axis: Vec3,
    pub translation: Vec3,
}

impl Vec2 {
    /// Both coordinates are equal as numbers.
    pub open spec fn same(self, other: Vec2) -> bool {
        same_number(self.x, other.x) && same_number(self.y, other.y)
    }

    /// No coordinate is a not-a-number.
    pub open spec fn is_numeric(self) -> bool {
        !is_nan(self.x) && !is_nan(self.y)
    }

    pub fn is_same(&self, other: &Vec2) -> (equal: bool)
        ensures
            equal == self.same(*other),
    {
        number_eq(self.x, other.x) && number_eq(self.y, other.y)
    }
}

impl Vec3 {
    /// All three coordinates are equal as numbers.
    pub open spec fn same(self, other: Vec3) -> bool {
        same_number(self.x, other.x) && same_number(self.y, other.y) && same_number(
            self.z,
            other.z,
        )
    }

    /// No coordinate is a not-a-number.
    pub open spec fn is_numeric(self) -> bool {
        !is_nan(self.x) && !is_nan(self.y) && !is_nan(self.z)
    }

    pub fn is_same(&self, other: &Vec3) -> (equal: bool)
        ensures
            equal == self.same(*other),
    {
        number_eq(self.x, other.x) && number_eq(self.y, other.y) && number_eq(self.z, other.z)
    }
}

impl Quat {
    /// All four components are equal as numbers.
    pub open spec fn same(self, other: Quat) -> bool {
        same_number(self.x, other.x) && same_number(self.y, other.y) && same_number(
            self.z,
            other.z,
        ) && same_number(self.w, other.w)
    }

    /// No component is a not-a-number.
    pub open spec fn is_numeric(self) -> bool {
        !is_nan(self.x) && !is_nan(self.y) && !is_nan(self.z) && !is_nan(self.w)
    }

    pub fn is_same(&self, other: &Quat) -> (equal: bool)
        ensures
            equal == self.same(*other),
    {
        number_eq(self.x, other.x) && number_eq(self.y, other.y) && number_eq(self.z, other.z)
            && number_eq(self.w, other.w)
    }
}

impl Rect {
    /// The rectangle whose corners are both the origin.
    pub open spec fn zero() -> Rect {
        Rect { min: Vec2 { x: 0, y: 0 }, max: Vec2 { x: 0, y: 0 } }
    }

    /// Both corners are equal as points.
    pub open spec fn same(self, other: Rect) -> bool {
        self.min.same(other.min) && self.max.same(other.max)
    }

    /// No coordinate is a not-a-number.
    pub open spec fn is_numeric(self) -> bool {
        self.min.is_numeric() && self.max.is_numeric()
    }

    pub fn is_same(&self, other: &Rect) -> (equal: bool)
        ensures
            equal == self.same(*other),
    {
        self.min.is_same(&other.min) && self.max.is_same(&other.max)
    }
}

impl Default for Rect {
    /// The empty rectangle at the origin.
    fn default() -> (rect: Rect)
        ensures
            rect == Rect::zero(),
    {
        Rect { min: Vec2 { x: 0, y: 0 }, max: Vec2 { x: 0, y: 0 } }
    }
}

impl Transform {
    /// Translation, rotation and scale are equal as numbers.
    pub open spec fn same(self, other: Transform) -> bool {
        self.translation.same(other.translation) && self.rotation.same(other.rotation)
            && self.scale.same(other.scale)
    }

    /// No component is a not-a-number.
    pub open spec fn is_numeric(self) -> bool {
        self.translation.is_numeric() && self.rotation.is_numeric() && self.scale.is_numeric()
    }

    pub fn is_same(&self, other: &Transform) -> (equal: bool)
        ensures
            equal == self.same(*other),
    {
        self.translation.is_same(&other.translation) && self.rotation.is_same(&other.rotation)
            && self.scale.is_same(&other.scale)
    }
}

impl GlobalTransform {
    /// The columns and the translation are equal as numbers.
    pub open spec fn same(self, other: GlobalTransform) -> bool {
        self.x_axis.same(other.x_axis) && self.y_axis.same(other.y_axis) && self.z_axis.same(
            other.z_axis,
        ) && self.translation.same(other.translation)
    }

    /// No component is a not-a-number.
    pub open spec fn is_numeric(self) -> bool {
        self.x_axis.is_numeric() && self.y_axis.is_numeric() && self.z_axis.is_numeric()
            && self.translation.is_numeric()
    }

    pub fn is_same(&self, other: &GlobalTransform) -> (equal: bool)
        ensures
            equal == self.same(*other),
    {
        self.x_axis.is_same(&other.x_axis) && self.y_axis.is_same(&other.y_axis)
            && self.z_axis.is_same(&other.z_axis) && self.translation.is_same(&other.translation)
    }
}

} // verus!
