//! Plain values exchanged with the native runtime.

use vstd::prelude::*;

verus! {

/// An opaque native handle. The null handle has the raw value zero.
#[derive(Clone, Copy, Debug, PartialEq, Eq, Structural)]
pub struct Handle {
    pub raw: u64,
}

impl Handle {
    /// The null handle.
    pub fn null() -> (r: Handle)
        ensures
            r.raw == 0,
    {
        Handle { raw: 0 }
    }

    /// The handle with the raw value `raw`.
    pub fn from_raw(raw: u64) -> (r: Handle)
        ensures
            r.raw == raw,
    {
        Handle { raw }
    }

    /// The raw value of the handle.
    pub fn into_raw(self) -> (r: u64)
        ensures
            r == self.raw,
    {
        self.raw
    }
}

/// A point in time of the runtime's clock, in nanoseconds.
#[derive(Clone, Copy, Debug, PartialEq, Eq, Structural)]
pub struct Time {
    pub nanos: i64,
}

impl Time {
    /// The time `nanos` nanoseconds after the clock's origin.
    pub fn from_nanos(nanos: i64) -> (r: Time)
        ensures
            r.nanos == nanos,
    {
        Time { nanos }
    }

    /// The time as nanoseconds.
    pub fn as_nanos(self) -> (r: i64)
        ensures
            r == self.nanos,
    {
        self.nanos
    }
}

/// A single-precision number as the 32 bits the runtime wrote.
///
/// The library never computes with these numbers; it only carries them from
/// a native reply to a typed result, bit for bit.
#[derive(Clone, Copy, Debug, PartialEq, Eq, Structural)]
pub struct Scalar {
    pub bits: u32,
}

impl Scalar {
    /// The number whose bit pattern is `bits`.
    pub fn from_bits(bits: u32) -> (r: Scalar)
        ensures
            r.bits == bits,
    {
        Scalar { bits }
    }

    /// The bit pattern of the number.
    pub fn to_bits(self) -> (r: u32)
        ensures
            r == self.bits,
    {
        self.bits
    }
}

/// A rotation as a quaternion.
#[derive(Clone, Copy, Debug, PartialEq, Eq, Structural)]
pub struct Quaternionf {
    pub x: Scalar,
    pub y: Scalar,
    pub z: Scalar,
    pub w: Scalar,
}

/// A point or direction in three dimensions.
#[derive(Clone, Copy, Debug, PartialEq, Eq, Structural)]
pub struct Vector3f {
    pub x: Scalar,
    pub y: Scalar,
    pub z: Scalar,
}

/// A position and orientation relative to a space.
#[derive(Clone, Copy, Debug, PartialEq, Eq, Structural)]
pub struct Posef {
    pub orientation: Quaternionf,
    pub position: Vector3f,
}

/// The tag that leads every native structure and names its layout.
#[derive(Clone, Copy, Debug, PartialEq, Eq, Structural)]
pub enum StructureType {
    SwapchainCreateInfo,
    BodyTrackerCreateInfoFB,
    BodyJointsLocateInfoFB,
    BodyJointLocationsFB,
    BodyTrackerFullBodyCreateInfoMETA,
    EyeTrackerCreateInfoFB,
    EyeGazesInfoFB,
    EyeGazesFB,
    FaceTrackerCreateInfoFB,
    FaceExpressionInfoFB,
    FaceExpressionWeightsFB,
    FaceTrackerCreateInfo2FB,
    FaceExpressionInfo2FB,
    FaceExpressionWeights2FB,
    FacialTrackerCreateInfoHTC,
    FacialExpressionsHTC,
    FoveationProfileCreateInfoFB,
    FoveationLevelProfileCreateInfoFB,
    SwapchainCreateInfoFoveationFB,
    SwapchainStateFoveationFB,
}

} // verus!
