use tf_time_cache::interpolation::{
    interpolate_two_transform, interpolate_vector3, rotation_test_equal, stamp_diff,
    transform_storage_test_equal, translation_test_equal,
};
use std::f64::consts::PI;
use tf_time_cache::transform_storage::{
    Stamp, TransformStorage, Translation3, UnitQuaternion, Vector3,
};

fn render(v: f64) -> String {
    format!("{:?}", v)
}

fn vector3(x: f64, y: f64, z: f64) -> Vector3 {
    Vector3 { x: render(x), y: render(y), z: render(z) }
}

fn translation3(x: f64, y: f64, z: f64) -> Translation3 {
    Translation3 { vector: vector3(x, y, z) }
}

fn quaternion_of(q: &nalgebra::UnitQuaternion<f64>) -> UnitQuaternion {
    UnitQuaternion {
        x: render(q.coords.x),
        y: render(q.coords.y),
        z: render(q.coords.z),
        w: render(q.coords.w),
    }
}

fn quat_z() -> UnitQuaternion {
    quaternion_of(&nalgebra::UnitQuaternion::new(nalgebra::Vector3::z()))
}

fn component(s: &str) -> f64 {
    s.parse().unwrap()
}

#[test]
fn test_interpolate_two_transform_same() {
    let ta = TransformStorage {
        frame_id: 1u32,
        child_frame_id: 2u32,
        translation: translation3(0.0, 0.0, 0.0),
        rotation: quat_z(),
        stamp: Stamp::from_nanos(100),
    };

    let tb = TransformStorage {
        frame_id: 1u32,
        child_frame_id: 2u32,
        translation: translation3(0.0, 0.0, 0.0),
        rotation: quat_z(),
        stamp: Stamp::from_nanos(100),
    };

    let res = interpolate_two_transform(&ta, &tb, &Stamp::from_nanos(100)).unwrap();
    assert!(transform_storage_test_equal(&res, &ta));
}

#[test]
fn test_interpolate_two_transform_1() {
    let ta = TransformStorage {
        frame_id: 1u32,
        child_frame_id: 2u32,
        translation: translation3(1.0, 1.0, 0.0),
        rotation: quat_z(),
        stamp: Stamp::from_nanos(100),
    };

    let tb = TransformStorage {
        frame_id: 1u32,
        child_frame_id: 2u32,
        translation: translation3(2.0, 2.0, 0.0),
        rotation: quat_z(),
        stamp: Stamp::from_nanos(200),
    };

    let tc = TransformStorage {
        frame_id: 1u32,
        child_frame_id: 2u32,
        translation: translation3(1.25, 1.25, 0.0),
        rotation: quat_z(),
        stamp: Stamp::from_nanos(125),
    };

    let res = interpolate_two_transform(&ta, &tb, &Stamp::from_nanos(125)).unwrap();
    assert!(transform_storage_test_equal(&res, &tc));
}

#[test]
fn rotation_interpolation_halfway() {
    let identity = quaternion_of(&nalgebra::UnitQuaternion::identity());
    let quarter_turn =
        quaternion_of(&nalgebra::UnitQuaternion::new(nalgebra::Vector3::z() * (PI / 2.0)));
    let ta = TransformStorage {
        frame_id: 1u32,
        child_frame_id: 2u32,
        translation: translation3(0.0, 0.0, 0.0),
        rotation: identity,
        stamp: Stamp::from_nanos(100),
    };
    let tb = TransformStorage {
        frame_id: 1u32,
        child_frame_id: 2u32,
        translation: translation3(0.0, 0.0, 0.0),
        rotation: quarter_turn,
        stamp: Stamp::from_nanos(200),
    };

    let res = interpolate_two_transform(&ta, &tb, &Stamp::from_nanos(150)).unwrap();
    assert_eq!(Stamp::from_nanos(150), res.stamp);
    let close = |a: f64, b: f64| approx::AbsDiff::default().epsilon(1e-12).eq(&a, &b);
    assert!(close(component(&res.rotation.x), 0.0));
    assert!(close(component(&res.rotation.y), 0.0));
    assert!(close(component(&res.rotation.z), (PI / 8.0).sin()));
    assert!(close(component(&res.rotation.w), (PI / 8.0).cos()));
}

#[test]
fn interpolate_vector3_midpoint() {
    let va = vector3(0.0, 0.0, 0.0);
    let vb = vector3(1.0, 2.0, 4.0);
    let res = interpolate_vector3(&va, &vb, &render(0.5));
    assert_eq!(0.5, component(&res.x));
    assert_eq!(1.0, component(&res.y));
    assert_eq!(2.0, component(&res.z));
}

#[test]
fn translation_equality_tolerance() {
    let ta = translation3(1.0, 2.0, 3.0);
    let tb = translation3(1.0, 2.0, 3.0);
    let tc = translation3(1.0, 2.0, 3.001);
    assert!(translation_test_equal(&ta, &tb));
    assert!(!translation_test_equal(&ta, &tc));
}

#[test]
fn rotation_equality_tolerance() {
    let ra = quat_z();
    let rb = quat_z();
    let rc = quaternion_of(&nalgebra::UnitQuaternion::new(nalgebra::Vector3::z() * 1.001));
    assert!(rotation_test_equal(&ra, &rb));
    assert!(!rotation_test_equal(&ra, &rc));
}

#[test]
fn stamp_diff_components() {
    let a = Stamp::from_nanos(1_500_000_300);
    let b = Stamp::from_nanos(500_000_100);
    let d = stamp_diff(&a, &b);
    assert_eq!(1, d.sec);
    assert_eq!(200, d.nsec);
}

#[test]
fn stamp_from_nanos_negative() {
    let s = Stamp::from_nanos(-1_500_000_000);
    assert_eq!(-1, s.sec);
    assert_eq!(-500_000_000, s.nsec);
    assert_eq!(Stamp::from_nanos(0), Stamp::zero());
}

#[test]
fn stamp_from_nanos_extremes() {
    let top = Stamp::from_nanos(2_147_483_647_999_999_999);
    assert_eq!(2_147_483_647, top.sec);
    assert_eq!(999_999_999, top.nsec);
    let bottom = Stamp::from_nanos(-2_147_483_648_999_999_999);
    assert_eq!(-2_147_483_648, bottom.sec);
    assert_eq!(-999_999_999, bottom.nsec);
}
