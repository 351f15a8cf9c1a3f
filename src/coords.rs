use vstd::prelude::*;

verus! {

/// The mathematical model of a vector or a point: three unbounded integers.
pub struct Coords {
    pub x: int,
    pub y: int,
    pub z: int,
}

/// The origin of the coordinate system, and the zero displacement.
pub open spec fn zero_coords() -> Coords {
    Coords { x: 0, y: 0, z: 0 }
}

/// Every component of `c` fits in an `i64`.
pub open spec fn fits_i64(c: Coords) -> bool {
    &&& i64::MIN <= c.x <= i64::MAX
    &&& i64::MIN <= c.y <= i64::MAX
    &&& i64::MIN <= c.z <= i64::MAX
}

impl Coords {
    pub open spec fn plus(self, o: Coords) -> Coords {
        Coords { x: self.x + o.x, y: self.y + o.y, z: self.z + o.z }
    }

    pub open spec fn minus(self, o: Coords) -> Coords {
        Coords { x: self.x - o.x, y: self.y - o.y, z: self.z - o.z }
    }

    pub open spec fn negated(self) -> Coords {
        Coords { x: -self.x, y: -self.y, z: -self.z }
    }

    pub open spec fn times(self, t: int) -> Coords {
        Coords { x: self.x * t, y: self.y * t, z: self.z * t }
    }

    pub open spec fn dot(self, o: Coords) -> int {
        self.x * o.x + self.y * o.y + self.z * o.z
    }

    pub open spec fn cross(self, o: Coords) -> Coords {
        Coords {
            x: self.y * o.z - self.z * o.y,
            y: self.z * o.x - self.x * o.z,
            z: self.x * o.y - self.y * o.x,
        }
    }

    pub open spec fn is_zero(self) -> bool {
        self == zero_coords()
    }
}

} // verus!
