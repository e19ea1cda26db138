use vstd::prelude::*;

verus! {

/// Numeric handle naming a coordinate frame.
pub type FrameId = u32;

/// A point in time: whole seconds plus a nanosecond remainder, both signed.
/// Stamps are compared exactly (no epsilon), ordered lexicographically by
/// `(sec, nsec)`; well-formed stamps keep `nsec` within one second, so the
/// lexicographic order is the time order.
#[derive(Clone, Copy, PartialEq, Eq, Structural, Debug)]
pub struct Stamp {
    pub sec: i32,
    pub nsec: i32,
}

/// Strict time order on stamps: lexicographic on `(sec, nsec)`.
pub open spec fn stamp_lt(a: Stamp, b: Stamp) -> bool {
    a.sec < b.sec || (a.sec == b.sec && a.nsec < b.nsec)
}

/// Reflexive time order on stamps.
pub open spec fn stamp_le(a: Stamp, b: Stamp) -> bool {
    stamp_lt(a, b) || a == b
}

impl Stamp {
    /// The zero stamp, which queries use as the "give me the latest" sentinel.
    pub open spec fn spec_zero() -> Stamp {
        Stamp { sec: 0, nsec: 0 }
    }

    /// The zero stamp, as a value.
    pub fn zero() -> (res: Stamp)
        ensures
            res == Stamp::spec_zero(),
    {
        Stamp { sec: 0, nsec: 0 }
    }

    /// Whether this stamp is the zero sentinel.
    pub fn is_zero(&self) -> (res: bool)
        ensures
            res == (*self == Stamp::spec_zero()),
    {
        self.sec == 0 && self.nsec == 0
    }

    /// Strict comparison in time order.
    pub fn lt(&self, other: &Stamp) -> (res: bool)
        ensures
            res == stamp_lt(*self, *other),
    {
        self.sec < other.sec || (self.sec == other.sec && self.nsec < other.nsec)
    }

    /// Reflexive comparison in time order.
    pub fn le(&self, other: &Stamp) -> (res: bool)
        ensures
            res == stamp_le(*self, *other),
    {
        self.sec < other.sec || (self.sec == other.sec && self.nsec <= other.nsec)
    }

    /// Builds a stamp from a nanosecond count, truncating the division toward
    /// zero so that the two components carry the same sign.
    pub fn from_nanos(nanos: i64) -> (res: Stamp)
        requires
            (-2147483648) * 1000000000 - 999999999 <= nanos <= 2147483647 * 1000000000
                + 999999999,
        ensures
            res.sec * 1000000000 + res.nsec == nanos,
            -999999999 <= res.nsec <= 999999999,
            nanos >= 0 ==> res.sec >= 0 && res.nsec >= 0,
            nanos < 0 ==> res.sec <= 0 && res.nsec <= 0,
    {
        if nanos >= 0 {
            let m = nanos as u64;
            let q = m / 1000000000;
            let r = m % 1000000000;
            assert(q * 1000000000 + r == m);
            assert(q <= 2147483647) by {
                assert(m <= 2147483647u64 * 1000000000 + 999999999);
            };
            Stamp { sec: q as i32, nsec: r as i32 }
        } else {
            let m = (-nanos) as u64;
            let q = m / 1000000000;
            let r = m % 1000000000;
            assert(q * 1000000000 + r == m);
            assert(q <= 2147483648) by {
                assert(m <= 2147483648u64 * 1000000000 + 999999999);
            };
            let sec = -(q as i64);
            let nsec = -(r as i64);
            Stamp { sec: sec as i32, nsec: nsec as i32 }
        }
    }
}

/// A 3-component real vector. Each component is the decimal rendering of an
/// IEEE-754 double; producers write components with Rust's shortest
/// round-trip formatting, so the text carries the exact double.
#[derive(Debug)]
pub struct Vector3 {
    pub x: String,
    pub y: String,
    pub z: String,
}

impl Clone for Vector3 {
    fn clone(&self) -> (res: Self)
        ensures
            res == *self,
    {
        Vector3 { x: self.x.clone(), y: self.y.clone(), z: self.z.clone() }
    }
}

/// A rigid translation, carried as its vector of components.
#[derive(Debug)]
pub struct Translation3 {
    pub vector: Vector3,
}

impl Clone for Translation3 {
    fn clone(&self) -> (res: Self)
        ensures
            res == *self,
    {
        Translation3 { vector: self.vector.clone() }
    }
}

/// A rotation as quaternion components `(x, y, z, w)` = `(i, j, k, w)`, each
/// the decimal rendering of an IEEE-754 double. Producers are responsible for
/// handing in unit quaternions; this core never renormalizes stored values.
#[derive(Debug)]
pub struct UnitQuaternion {
    pub x: String,
    pub y: String,
    pub z: String,
    pub w: String,
}

impl Clone for UnitQuaternion {
    fn clone(&self) -> (res: Self)
        ensures
            res == *self,
    {
        UnitQuaternion {
            x: self.x.clone(),
            y: self.y.clone(),
            z: self.z.clone(),
            w: self.w.clone(),
        }
    }
}

/// One observed rigid transform between a parent and a child frame, tagged
/// with the time it was observed. A plain value type: the cache clones a
/// record for each query result it returns.
#[derive(Debug)]
pub struct TransformStorage {
    pub frame_id: FrameId,
    pub child_frame_id: FrameId,
    pub translation: Translation3,
    pub rotation: UnitQuaternion,
    pub stamp: Stamp,
}

impl Clone for TransformStorage {
    fn clone(&self) -> (res: Self)
        ensures
            res == *self,
    {
        TransformStorage {
            frame_id: self.frame_id,
            child_frame_id: self.child_frame_id,
            translation: self.translation.clone(),
            rotation: self.rotation.clone(),
            stamp: self.stamp,
        }
    }
}

} // verus!
