//! The camera's state and the choice between its two descriptions.
//!
//! A camera carries a pair of angles and, at times, a target to look at.
//! Exactly one of the two is in force at any moment: the target while there
//! is one, the angles otherwise. A target that coincides with the camera's
//! own position gives no direction, so the angles stand in for it.
//!
//! The types are generic in the scalar `S` of their coordinates and angles:
//! they store scalars and hand them back, and compute nothing with them.
//! The trigonometry that turns a camera into a view matrix is the caller's.

use vstd::prelude::*;

verus! {

/// Three coordinates: a point or a direction in world space.
#[derive(Clone, Copy, Debug, PartialEq)]
pub struct Triple<S> {
    pub x: S,
    pub y: S,
    pub z: S,
}

/// The description of a camera that is in force.
#[derive(Clone, Copy, Debug, PartialEq, Eq, Structural)]
pub enum ViewSource {
    /// Look from the position towards the target.
    Target,
    /// Look from the position along the direction given by yaw and pitch.
    Angles,
}

/// Where the camera is and where it looks.
#[derive(Clone, Copy, Debug, PartialEq)]
pub struct Camera<S> {
    pub position: Triple<S>,
    /// Rotation about the world's up axis.
    pub yaw: S,
    /// Rotation about the camera's right axis.
    pub pitch: S,
    /// While set, the camera looks at this point and the angles are ignored.
    pub look_at: Option<Triple<S>>,
    pub up: Triple<S>,
}

/// The source in force for a camera that has a target or not, and whose
/// target, if any, lies at the camera's position or not.
pub open spec fn spec_view_source(has_target: bool, target_at_eye: bool) -> ViewSource {
    if has_target && !target_at_eye {
        ViewSource::Target
    } else {
        ViewSource::Angles
    }
}

/// Selects the source in force. `target_at_eye` is read only where there is
/// a target.
pub fn view_source(has_target: bool, target_at_eye: bool) -> (source: ViewSource)
    ensures
        source == spec_view_source(has_target, target_at_eye),
{
    if !has_target {
        ViewSource::Angles
    } else if target_at_eye {
        ViewSource::Angles
    } else {
        ViewSource::Target
    }
}

impl<S> Camera<S> {
    /// A camera at `position` that looks along the given angles, with no
    /// target.
    pub fn new(position: Triple<S>, yaw: S, pitch: S, up: Triple<S>) -> (camera: Self)
        ensures
            camera == (Camera { position, yaw, pitch, look_at: None, up }),
    {
        Camera { position, yaw, pitch, look_at: None, up }
    }

    /// Replaces the up direction and nothing else. Its length is the
    /// caller's business.
    pub fn set_up(&mut self, direction: Triple<S>)
        ensures
            final(self).up == direction,
            final(self).position == old(self).position,
            final(self).yaw == old(self).yaw,
            final(self).pitch == old(self).pitch,
            final(self).look_at == old(self).look_at,
    {
        self.up = direction;
    }

    /// Moves the camera to `target_position` at once and changes nothing
    /// else. The time step is not used: the move is not smoothed.
    pub fn set_position(&mut self, target_position: Triple<S>, delta_time: S)
        ensures
            final(self).position == target_position,
            final(self).yaw == old(self).yaw,
            final(self).pitch == old(self).pitch,
            final(self).look_at == old(self).look_at,
            final(self).up == old(self).up,
    {
        self.position = target_position;
    }

    /// The source in force; `target_at_eye` says whether the target, if
    /// there is one, lies at the camera's position.
    pub fn view_source(&self, target_at_eye: bool) -> (source: ViewSource)
        ensures
            source == spec_view_source(self.look_at is Some, target_at_eye),
    {
        view_source(self.look_at.is_some(), target_at_eye)
    }
}

} // verus!
