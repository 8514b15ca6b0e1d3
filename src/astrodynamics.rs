use vstd::prelude::*;
use crate::euclidean::Motion3D;
use crate::kinematics::Kinematics;

verus! {

/// The centre of the Earth, as the origin of a Euclidean space.
#[derive(Clone, Copy, Debug, PartialEq, Eq)]
pub struct EarthCenter;

/// The Earth-centred inertial frame, by name only.
#[derive(Clone, Copy, Debug, PartialEq, Eq)]
pub struct ECI;

/// The Earth-centred, Earth-fixed frame, by name only.
#[derive(Clone, Copy, Debug, PartialEq, Eq)]
pub struct ECEF;

/// Why a frame cannot be given.
#[derive(Clone, Copy, Debug, PartialEq, Eq, Structural)]
pub enum FrameError {
    /// The frame needs a model of the Earth's rotation, which this library
    /// does not define.
    Unavailable,
}

/// The motion of the Earth-fixed frame relative to the inertial frame at
/// `time`. No model of the Earth's rotation is defined here, so the call
/// always fails, and never stands in with the identity or an old value.
pub fn ecef(time: i64) -> (r: Result<Kinematics<Motion3D>, FrameError>)
    ensures
        r matches Err(FrameError::Unavailable),
{
    Err(FrameError::Unavailable)
}

} // verus!
