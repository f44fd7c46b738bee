use glam::{Mat4, Vec3};
use prism::scalar::Scalar;
use prism::solver::projection::{screen_diameter, ProjectedSphere};

const CAM_POS: Vec3 = Vec3::new(0.0, 0.0, 50.0);
const FOV_Y: f32 = std::f32::consts::FRAC_PI_4;

fn s(value: f32) -> Scalar {
    Scalar::from_bits(value.to_bits())
}

fn test_vp() -> Mat4 {
    let view = Mat4::look_at_rh(CAM_POS, Vec3::ZERO, Vec3::Y);
    let proj = Mat4::perspective_rh(FOV_Y, 16.0 / 9.0, 0.1, 250.0);
    proj * view
}

fn diameter(center: Vec3, radius: f32, vp: Mat4, camera: Vec3, width: f32, height: f32) -> f32 {
    let clip = vp * center.extend(1.0);
    let ndc = clip.truncate() / clip.w;
    let dist_sq = camera.distance_squared(center);
    let rad_sq = radius * radius;
    let pixel = radius * height / ((dist_sq - rad_sq).sqrt() * (FOV_Y * 0.5).tan());
    let rx = pixel / width;
    let ry = pixel / height;
    let d = screen_diameter(&ProjectedSphere {
        clip_w: s(clip.w),
        distance_squared: s(dist_sq),
        radius_squared: s(rad_sq),
        screen_width: s(width),
        screen_height: s(height),
        pixel_diameter: s(pixel),
        left: s(ndc.x - rx),
        right: s(ndc.x + rx),
        bottom: s(ndc.y - ry),
        top: s(ndc.y + ry),
    });
    f32::from_bits(d.to_bits())
}

#[test]
fn sphere_at_origin_has_nonzero_diameter() {
    let d = diameter(Vec3::ZERO, 5.0, test_vp(), CAM_POS, 1920.0, 1080.0);
    assert!(d > 50.0, "expected large screen diameter, got {}", d);
}

#[test]
fn sphere_behind_camera_returns_zero() {
    let d = diameter(Vec3::new(0.0, 0.0, 100.0), 5.0, test_vp(), CAM_POS, 1920.0, 1080.0);
    assert!(d < 1.0, "sphere behind camera should be ~0, got {}", d);
}

#[test]
fn closer_sphere_is_larger() {
    let vp = test_vp();
    let dn = diameter(Vec3::new(0.0, 0.0, 10.0), 5.0, vp, CAM_POS, 1920.0, 1080.0);
    let df = diameter(Vec3::new(0.0, 0.0, -30.0), 5.0, vp, CAM_POS, 1920.0, 1080.0);
    assert!(dn > df, "near sphere ({}) should be larger than far sphere ({})", dn, df);
}

#[test]
fn top_down_view_still_works() {
    let cam = Vec3::new(0.0, 50.0, 0.0);
    let view = Mat4::look_at_rh(cam, Vec3::ZERO, Vec3::Z);
    let proj = Mat4::perspective_rh(FOV_Y, 16.0 / 9.0, 0.1, 250.0);
    let d = diameter(Vec3::ZERO, 5.0, proj * view, cam, 1920.0, 1080.0);
    assert!(d > 50.0, "top-down view should still produce valid diameter, got {}", d);
}

#[test]
fn wide_aspect_ratio_uses_correct_scaling() {
    let d_normal = diameter(Vec3::ZERO, 5.0, test_vp(), CAM_POS, 1920.0, 1080.0);

    let cam = CAM_POS;
    let view = Mat4::look_at_rh(cam, Vec3::ZERO, Vec3::Y);
    let proj_wide = Mat4::perspective_rh(FOV_Y, 32.0 / 9.0, 0.1, 250.0);
    let d_wide = diameter(Vec3::ZERO, 5.0, proj_wide * view, cam, 3840.0, 1080.0);

    assert!(
        (d_normal - d_wide).abs() < 1.0,
        "same vertical FOV should give same diameter: normal={}, wide={}",
        d_normal,
        d_wide
    );
}

#[test]
fn sphere_around_the_camera_fills_the_screen() {
    let d = diameter(CAM_POS - Vec3::Z, 5.0, test_vp(), CAM_POS, 1920.0, 1080.0);
    assert_eq!(d, 1920.0);
}

#[test]
fn sphere_past_the_edge_is_not_seen() {
    let d = diameter(Vec3::new(500.0, 0.0, 0.0), 5.0, test_vp(), CAM_POS, 1920.0, 1080.0);
    assert_eq!(d, 0.0);
}
