//! How large a bounding sphere appears on the screen.

use vstd::prelude::*;

use crate::scalar::{neg_one, one, zero, Scalar};

verus! {

/// A bounding sphere as the camera sees it.
#[derive(Clone, Copy, Debug, PartialEq, Eq, Structural)]
pub struct ProjectedSphere {
    /// The last clip coordinate of the centre, positive in front of the camera.
    pub clip_w: Scalar,
    /// The square of the distance from the camera to the centre.
    pub distance_squared: Scalar,
    pub radius_squared: Scalar,
    pub screen_width: Scalar,
    pub screen_height: Scalar,
    /// The diameter of the silhouette in pixels, for a camera outside the sphere.
    pub pixel_diameter: Scalar,
    /// The extent of the silhouette in normalised device coordinates.
    pub left: Scalar,
    pub right: Scalar,
    pub bottom: Scalar,
    pub top: Scalar,
}

impl ProjectedSphere {
    /// The centre is not in front of the camera.
    pub open spec fn is_behind(self) -> bool {
        self.clip_w.lt(zero()) || self.clip_w.eq_value(zero())
    }

    /// The camera is inside the sphere or on it.
    pub open spec fn surrounds_camera(self) -> bool {
        self.distance_squared.lt(self.radius_squared) || self.distance_squared.eq_value(
            self.radius_squared,
        )
    }

    /// The silhouette lies wholly past an edge of the screen.
    pub open spec fn is_off_screen(self) -> bool {
        one().lt(self.left) || self.right.lt(neg_one()) || one().lt(self.bottom) || self.top.lt(
            neg_one(),
        )
    }

    /// Nothing behind the camera or off the screen; all of the screen around the camera; otherwise
    /// the silhouette, and never less than nothing.
    pub open spec fn diameter(self) -> Scalar {
        if self.is_behind() {
            zero()
        } else if self.surrounds_camera() {
            self.screen_width.max_of(self.screen_height)
        } else if self.is_off_screen() {
            zero()
        } else {
            self.pixel_diameter.max_of(zero())
        }
    }
}

/// The diameter in pixels at which a sphere appears.
pub fn screen_diameter(sphere: &ProjectedSphere) -> (d: Scalar)
    ensures
        d == sphere.diameter(),
{
    let z = Scalar::from_bits(0);
    let o = Scalar::from_bits(0x3F80_0000);
    let n = Scalar::from_bits(0xBF80_0000);
    if sphere.clip_w.less(z) || sphere.clip_w.same(z) {
        return z;
    }
    if sphere.distance_squared.less(sphere.radius_squared) || sphere.distance_squared.same(
        sphere.radius_squared,
    ) {
        return sphere.screen_width.max(sphere.screen_height);
    }
    if o.less(sphere.left) || sphere.right.less(n) || o.less(sphere.bottom) || sphere.top.less(n) {
        return z;
    }
    sphere.pixel_diameter.max(z)
}

/// The diameter is never negative and never a NaN, where the screen has a width or a height.
pub proof fn diameters_are_not_negative(sphere: ProjectedSphere)
    requires
        zero().lt(sphere.screen_width),
        zero().lt(sphere.screen_height),
    ensures
        !sphere.diameter().is_nan(),
        !sphere.diameter().lt(zero()),
{
}

/// A sphere whose centre is not in front of the camera has no size; one around the camera has that of
/// the longer side of the screen; one past an edge has none; any other has that of its silhouette,
/// where that is positive.
pub proof fn spheres_are_as_large_as_their_silhouette(sphere: ProjectedSphere)
    ensures
        ({
            let z = Scalar { bits: 0 };
            let high = Scalar { bits: 0x3F80_0000 };
            let low = Scalar { bits: 0xBF80_0000 };
            let behind = sphere.clip_w.lt(z) || sphere.clip_w.eq_value(z);
            let inside = sphere.distance_squared.lt(sphere.radius_squared)
                || sphere.distance_squared.eq_value(sphere.radius_squared);
            let outside = high.lt(sphere.left) || sphere.right.lt(low) || high.lt(sphere.bottom)
                || sphere.top.lt(low);
            &&& behind ==> sphere.diameter() == z
            &&& !behind && inside && sphere.screen_height.lt(sphere.screen_width)
                ==> sphere.diameter() == sphere.screen_width
            &&& !behind && inside && sphere.screen_width.lt(sphere.screen_height)
                ==> sphere.diameter() == sphere.screen_height
            &&& !behind && inside && sphere.screen_width == sphere.screen_height
                ==> sphere.diameter() == sphere.screen_width
            &&& !behind && !inside && outside ==> sphere.diameter() == z
            &&& !behind && !inside && !outside && z.lt(sphere.pixel_diameter)
                ==> sphere.diameter() == sphere.pixel_diameter
            &&& !behind && !inside && !outside && !z.lt(sphere.pixel_diameter)
                ==> sphere.diameter().magnitude() == 0
        }),
{
}

} // verus!
