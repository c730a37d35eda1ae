//! The parameters of a perspective projection, and the correction that
//! follows it.
//!
//! The aspect ratio is kept as the surface's width and height, so that it
//! is exact; the remaining parameters are scalars of the caller's choosing,
//! stored and handed back.
//!
//! A perspective matrix in the usual convention leaves depth between `-w`
//! and `w`; the GPU wants it between 0 and `w`. The clip correction is the
//! matrix that goes to the left of the projection and maps the one range to
//! the other. Its entries are halves, so it is kept exactly, as twice its
//! value in whole numbers.

use vstd::prelude::*;

verus! {

/// A perspective projection: the surface it fills, the vertical field of
/// view in degrees, and the near and far planes.
#[derive(Clone, Copy, Debug, PartialEq)]
pub struct Projection<S> {
    width: u32,
    height: u32,
    fovy: S,
    znear: S,
    zfar: S,
}

impl<S> Projection<S> {
    /// Width of the surface, the numerator of the aspect ratio.
    pub closed spec fn spec_width(self) -> u32 {
        self.width
    }

    /// Height of the surface, the denominator of the aspect ratio.
    pub closed spec fn spec_height(self) -> u32 {
        self.height
    }

    /// Vertical field of view, in degrees.
    pub closed spec fn spec_fovy(self) -> S {
        self.fovy
    }

    /// Distance of the near plane.
    pub closed spec fn spec_znear(self) -> S {
        self.znear
    }

    /// Distance of the far plane.
    pub closed spec fn spec_zfar(self) -> S {
        self.zfar
    }

    /// A projection onto a surface of `width` by `height` pixels.
    pub fn new(width: u32, height: u32, fovy: S, znear: S, zfar: S) -> (projection: Self)
        ensures
            projection.spec_width() == width,
            projection.spec_height() == height,
            projection.spec_fovy() == fovy,
            projection.spec_znear() == znear,
            projection.spec_zfar() == zfar,
    {
        Projection { width, height, fovy, znear, zfar }
    }

    /// Takes the new size of the surface. Only the aspect ratio changes.
    pub fn resize(&mut self, width: u32, height: u32)
        ensures
            final(self).spec_width() == width,
            final(self).spec_height() == height,
            final(self).spec_fovy() == old(self).spec_fovy(),
            final(self).spec_znear() == old(self).spec_znear(),
            final(self).spec_zfar() == old(self).spec_zfar(),
    {
        self.width = width;
        self.height = height;
    }

    /// Width of the surface.
    pub fn width(&self) -> (width: u32)
        ensures
            width == self.spec_width(),
    {
        self.width
    }

    /// Height of the surface.
    pub fn height(&self) -> (height: u32)
        ensures
            height == self.spec_height(),
    {
        self.height
    }

    /// Vertical field of view, in degrees.
    pub fn fovy(&self) -> (fovy: &S)
        ensures
            *fovy == self.spec_fovy(),
    {
        &self.fovy
    }

    /// Distance of the near plane.
    pub fn znear(&self) -> (znear: &S)
        ensures
            *znear == self.spec_znear(),
    {
        &self.znear
    }

    /// Distance of the far plane.
    pub fn zfar(&self) -> (zfar: &S)
        ensures
            *zfar == self.spec_zfar(),
    {
        &self.zfar
    }
}

/// A vector of clip space, or twice one.
pub struct ClipVector {
    pub x: int,
    pub y: int,
    pub z: int,
    pub w: int,
}

/// Entry of twice the clip correction in the given column and row: the
/// identity doubled, but for the row of depth, which holds a one under
/// depth and a one under `w`.
pub open spec fn spec_clip_correction_doubled(column: int, row: int) -> int {
    if row == 2 {
        if column == 2 || column == 3 {
            1
        } else {
            0
        }
    } else if row == column {
        2
    } else {
        0
    }
}

/// The product of twice the clip correction, on the left, with the column
/// vector `v`.
pub open spec fn clip_corrected_doubled(v: ClipVector) -> ClipVector {
    ClipVector {
        x: spec_clip_correction_doubled(0, 0) * v.x + spec_clip_correction_doubled(1, 0) * v.y
            + spec_clip_correction_doubled(2, 0) * v.z + spec_clip_correction_doubled(3, 0) * v.w,
        y: spec_clip_correction_doubled(0, 1) * v.x + spec_clip_correction_doubled(1, 1) * v.y
            + spec_clip_correction_doubled(2, 1) * v.z + spec_clip_correction_doubled(3, 1) * v.w,
        z: spec_clip_correction_doubled(0, 2) * v.x + spec_clip_correction_doubled(1, 2) * v.y
            + spec_clip_correction_doubled(2, 2) * v.z + spec_clip_correction_doubled(3, 2) * v.w,
        w: spec_clip_correction_doubled(0, 3) * v.x + spec_clip_correction_doubled(1, 3) * v.y
            + spec_clip_correction_doubled(2, 3) * v.z + spec_clip_correction_doubled(3, 3) * v.w,
    }
}

/// Twice the clip correction, column by column: `columns[c][r]` is the
/// entry in column `c` and row `r`.
pub fn clip_correction_doubled() -> (columns: [[i8; 4]; 4])
    ensures
        forall|c: int, r: int|
            0 <= c < 4 && 0 <= r < 4 ==> #[trigger] columns[c][r] == spec_clip_correction_doubled(
                c,
                r,
            ),
{
    [[2, 0, 0, 0], [0, 2, 0, 0], [0, 0, 1, 0], [0, 0, 1, 2]]
}

/// The clip correction keeps `x`, `y` and `w` and replaces depth by half
/// the sum of depth and `w`.
pub proof fn lemma_clip_correction_halves_depth_plus_w(v: ClipVector)
    ensures
        clip_corrected_doubled(v) == (ClipVector {
            x: 2 * v.x,
            y: 2 * v.y,
            z: v.z + v.w,
            w: 2 * v.w,
        }),
{
}

/// The clip correction sends the near plane, where depth is `-w`, to depth
/// zero, and the far plane, where depth is `w`, to depth `w`; between the
/// two, corrected depth stays between zero and `w`.
pub proof fn lemma_clip_correction_maps_depth_range(v: ClipVector)
    ensures
        v.z == -v.w ==> clip_corrected_doubled(v).z == 0,
        v.z == v.w ==> clip_corrected_doubled(v).z == clip_corrected_doubled(v).w,
        -v.w <= v.z <= v.w ==> 0 <= clip_corrected_doubled(v).z <= clip_corrected_doubled(v).w,
{
}

} // verus!
