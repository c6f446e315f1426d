//! Rotations and mirrorings of an image, as image metadata records them.

use vstd::prelude::*;

verus! {

/// Counter-clockwise rotation in steps of a quarter turn.
#[derive(Debug, Clone, Copy, PartialEq, Eq, Structural)]
pub enum Rotation {
    _0,
    _90,
    _180,
    _270,
}

impl Rotation {
    /// Number of quarter turns, from 0 to 3.
    pub open spec fn quarters(self) -> int {
        match self {
            Rotation::_0 => 0,
            Rotation::_90 => 1,
            Rotation::_180 => 2,
            Rotation::_270 => 3,
        }
    }

    /// The rotation of `quarters` quarter turns, for any integer.
    pub open spec fn of_quarters(quarters: int) -> Rotation {
        let q = quarters % 4;
        if q == 0 {
            Rotation::_0
        } else if q == 1 {
            Rotation::_90
        } else if q == 2 {
            Rotation::_180
        } else {
            Rotation::_270
        }
    }

    pub fn degrees(self) -> (degrees: u16)
        ensures
            degrees == 90 * self.quarters(),
    {
        match self {
            Rotation::_0 => 0,
            Rotation::_90 => 90,
            Rotation::_180 => 180,
            Rotation::_270 => 270,
        }
    }

    /// The rotation of the given angle; only multiples of 90 below 360 are rotations.
    pub fn from_degrees(degrees: u16) -> (rotation: Option<Rotation>)
        ensures
            match rotation {
                Some(r) => degrees == 90 * r.quarters(),
                None => degrees % 90 != 0 || degrees >= 360,
            },
    {
        if degrees == 0 {
            Some(Rotation::_0)
        } else if degrees == 90 {
            Some(Rotation::_90)
        } else if degrees == 180 {
            Some(Rotation::_180)
        } else if degrees == 270 {
            Some(Rotation::_270)
        } else {
            None
        }
    }

    /// This rotation followed by `other`.
    pub fn plus(self, other: Rotation) -> (sum: Rotation)
        ensures
            sum == Rotation::of_quarters(self.quarters() + other.quarters()),
    {
        match other {
            Rotation::_0 => self,
            Rotation::_90 => match self {
                Rotation::_0 => Rotation::_90,
                Rotation::_90 => Rotation::_180,
                Rotation::_180 => Rotation::_270,
                Rotation::_270 => Rotation::_0,
            },
            Rotation::_180 => match self {
                Rotation::_0 => Rotation::_180,
                Rotation::_90 => Rotation::_270,
                Rotation::_180 => Rotation::_0,
                Rotation::_270 => Rotation::_90,
            },
            Rotation::_270 => match self {
                Rotation::_0 => Rotation::_270,
                Rotation::_90 => Rotation::_0,
                Rotation::_180 => Rotation::_90,
                Rotation::_270 => Rotation::_180,
            },
        }
    }

    /// This rotation followed by the reverse of `other`.
    pub fn minus(self, other: Rotation) -> (difference: Rotation)
        ensures
            difference == Rotation::of_quarters(self.quarters() - other.quarters()),
    {
        match other {
            Rotation::_0 => self,
            Rotation::_90 => self.plus(Rotation::_270),
            Rotation::_180 => self.plus(Rotation::_180),
            Rotation::_270 => self.plus(Rotation::_90),
        }
    }
}

/// What has to be done to an image to show it upright: an optional horizontal
/// mirroring, followed by a counter-clockwise rotation.
#[derive(Debug, Clone, Copy, PartialEq, Eq, Structural)]
pub enum Orientation {
    Id,
    Rotation90,
    Rotation180,
    Rotation270,
    Mirrored,
    MirroredRotation90,
    MirroredRotation180,
    MirroredRotation270,
}

impl Orientation {
    /// Whether the image is mirrored before it is rotated.
    pub open spec fn mirrored(self) -> bool {
        match self {
            Orientation::Mirrored
            | Orientation::MirroredRotation90
            | Orientation::MirroredRotation180
            | Orientation::MirroredRotation270 => true,
            _ => false,
        }
    }

    /// The rotation that follows the mirroring.
    pub open spec fn rotation(self) -> Rotation {
        match self {
            Orientation::Id | Orientation::Mirrored => Rotation::_0,
            Orientation::Rotation90 | Orientation::MirroredRotation90 => Rotation::_90,
            Orientation::Rotation180 | Orientation::MirroredRotation180 => Rotation::_180,
            Orientation::Rotation270 | Orientation::MirroredRotation270 => Rotation::_270,
        }
    }

    /// The orientation made of a mirroring and a rotation.
    pub open spec fn of(mirrored: bool, rotation: Rotation) -> Orientation {
        match (mirrored, rotation) {
            (false, Rotation::_0) => Orientation::Id,
            (false, Rotation::_90) => Orientation::Rotation90,
            (false, Rotation::_180) => Orientation::Rotation180,
            (false, Rotation::_270) => Orientation::Rotation270,
            (true, Rotation::_0) => Orientation::Mirrored,
            (true, Rotation::_90) => Orientation::MirroredRotation90,
            (true, Rotation::_180) => Orientation::MirroredRotation180,
            (true, Rotation::_270) => Orientation::MirroredRotation270,
        }
    }

    /// The value of the Exif orientation tag, from 1 to 8.
    pub open spec fn exif_value(self) -> int {
        match self {
            Orientation::Id => 1,
            Orientation::Mirrored => 2,
            Orientation::Rotation180 => 3,
            Orientation::MirroredRotation180 => 4,
            Orientation::MirroredRotation90 => 5,
            Orientation::Rotation270 => 6,
            Orientation::MirroredRotation270 => 7,
            Orientation::Rotation90 => 8,
        }
    }

    /// Whether width and height change places when the orientation is applied.
    pub open spec fn swaps_axes(self) -> bool {
        self.rotation() == Rotation::_90 || self.rotation() == Rotation::_270
    }

    pub fn new(mirrored: bool, rotation: Rotation) -> (orientation: Orientation)
        ensures
            orientation == Orientation::of(mirrored, rotation),
            orientation.mirrored() == mirrored,
            orientation.rotation() == rotation,
    {
        match (mirrored, rotation) {
            (false, Rotation::_0) => Orientation::Id,
            (false, Rotation::_90) => Orientation::Rotation90,
            (false, Rotation::_180) => Orientation::Rotation180,
            (false, Rotation::_270) => Orientation::Rotation270,
            (true, Rotation::_0) => Orientation::Mirrored,
            (true, Rotation::_90) => Orientation::MirroredRotation90,
            (true, Rotation::_180) => Orientation::MirroredRotation180,
            (true, Rotation::_270) => Orientation::MirroredRotation270,
        }
    }

    pub fn mirror(self) -> (mirrored: bool)
        ensures
            mirrored == self.mirrored(),
    {
        match self {
            Orientation::Mirrored
            | Orientation::MirroredRotation90
            | Orientation::MirroredRotation180
            | Orientation::MirroredRotation270 => true,
            _ => false,
        }
    }

    pub fn rotate(self) -> (rotation: Rotation)
        ensures
            rotation == self.rotation(),
    {
        match self {
            Orientation::Id | Orientation::Mirrored => Rotation::_0,
            Orientation::Rotation90 | Orientation::MirroredRotation90 => Rotation::_90,
            Orientation::Rotation180 | Orientation::MirroredRotation180 => Rotation::_180,
            Orientation::Rotation270 | Orientation::MirroredRotation270 => Rotation::_270,
        }
    }

    /// The orientation that an Exif orientation value stands for.
    pub fn from_exif(value: u16) -> (orientation: Option<Orientation>)
        ensures
            match orientation {
                Some(o) => o.exif_value() == value,
                None => value < 1 || value > 8,
            },
    {
        match value {
            1 => Some(Orientation::Id),
            2 => Some(Orientation::Mirrored),
            3 => Some(Orientation::Rotation180),
            4 => Some(Orientation::MirroredRotation180),
            5 => Some(Orientation::MirroredRotation90),
            6 => Some(Orientation::Rotation270),
            7 => Some(Orientation::MirroredRotation270),
            8 => Some(Orientation::Rotation90),
            _ => None,
        }
    }

    /// The value of the Exif orientation tag for this orientation.
    pub fn to_exif(self) -> (value: u8)
        ensures
            value == self.exif_value(),
    {
        match self {
            Orientation::Id => 1,
            Orientation::Mirrored => 2,
            Orientation::Rotation180 => 3,
            Orientation::MirroredRotation180 => 4,
            Orientation::MirroredRotation90 => 5,
            Orientation::Rotation270 => 6,
            Orientation::MirroredRotation270 => 7,
            Orientation::Rotation90 => 8,
        }
    }

    /// The orientation with `rotation` applied after it.
    pub fn add_rotation(self, rotation: Rotation) -> (orientation: Orientation)
        ensures
            orientation == Orientation::of(
                self.mirrored(),
                Rotation::of_quarters(self.rotation().quarters() + rotation.quarters()),
            ),
    {
        Orientation::new(self.mirror(), self.rotate().plus(rotation))
    }

    /// The orientation with a horizontal mirroring applied after it.
    pub fn add_mirror_horizontally(self) -> (orientation: Orientation)
        ensures
            orientation == Orientation::of(
                !self.mirrored(),
                Rotation::of_quarters(-self.rotation().quarters()),
            ),
    {
        Orientation::new(!self.mirror(), Rotation::_0.minus(self.rotate()))
    }

    /// Both orientations as one: `then` is applied after `self`.
    pub fn combine(self, then: Orientation) -> (orientation: Orientation)
        ensures
            orientation == Orientation::of(
                self.mirrored() != then.mirrored(),
                Rotation::of_quarters(
                    (if then.mirrored() {
                        -self.rotation().quarters()
                    } else {
                        self.rotation().quarters()
                    }) + then.rotation().quarters(),
                ),
            ),
    {
        let first = if then.mirror() {
            self.add_mirror_horizontally()
        } else {
            self
        };
        first.add_rotation(then.rotate())
    }
}

} // verus!
