use vstd::prelude::*;

use crate::transform_storage::{Stamp, TransformStorage, Translation3, UnitQuaternion, Vector3};
use nalgebra::{Quaternion as Quat, Unit};

verus! {

/// The decimal rendering of the IEEE-754 ratio `(t - a) / (b - a)` in
/// seconds, where each stamp difference is taken component-wise and read as
/// `sec + nsec * 1e-9`. A pure function of the six stamp components.
pub uninterp spec fn ratio_of(
    t_sec: int,
    t_nsec: int,
    a_sec: int,
    a_nsec: int,
    b_sec: int,
    b_nsec: int,
) -> Seq<char>;

/// The decimal rendering of the IEEE-754 blend `a + (b - a) * r` of the
/// doubles rendered by `a`, `b` and `r`. A pure function of the three texts.
pub uninterp spec fn lerp_of(a: Seq<char>, b: Seq<char>, r: Seq<char>) -> Seq<char>;

/// The component renderings of the shortest-arc spherical linear
/// interpolation of the two quaternions rendered by `(ax..aw)` and
/// `(bx..bw)` at ratio `r`, or `None` where the two rotations are nearly
/// antipodal and the arc is ambiguous. A pure function of the nine texts.
pub uninterp spec fn slerp_of(
    ax: Seq<char>,
    ay: Seq<char>,
    az: Seq<char>,
    aw: Seq<char>,
    bx: Seq<char>,
    by: Seq<char>,
    bz: Seq<char>,
    bw: Seq<char>,
    r: Seq<char>,
) -> Option<Seq<Seq<char>>>;

/// Whether the doubles rendered by `a` and `b` are equal within the default
/// absolute epsilon for doubles. A pure function of the two texts.
pub uninterp spec fn abs_diff_eq_of(a: Seq<char>, b: Seq<char>) -> bool;

/// The interpolation ratio named over whole stamps.
pub open spec fn spec_ratio(time: Stamp, a: Stamp, b: Stamp) -> Seq<char> {
    ratio_of(
        time.sec as int,
        time.nsec as int,
        a.sec as int,
        a.nsec as int,
        b.sec as int,
        b.nsec as int,
    )
}

/// The slerp name applied to whole quaternions.
pub open spec fn spec_slerp(qa: UnitQuaternion, qb: UnitQuaternion, r: Seq<char>) -> Option<
    Seq<Seq<char>>,
> {
    slerp_of(qa.x@, qa.y@, qa.z@, qa.w@, qb.x@, qb.y@, qb.z@, qb.w@, r)
}

/// The component renderings of an optional quaternion, in `(x, y, z, w)`
/// order.
pub open spec fn quat_opt_strings(q: Option<UnitQuaternion>) -> Option<Seq<Seq<char>>> {
    match q {
        Option::None => Option::None,
        Option::Some(q) => Option::Some(seq![q.x@, q.y@, q.z@, q.w@]),
    }
}

/// Component-wise difference of two stamps; no carry normalization, exactly
/// as consumers of the seconds-equivalent magnitude expect.
pub fn stamp_diff(a: &Stamp, b: &Stamp) -> (res: Stamp)
    requires
        -0x8000_0000 <= a.sec - b.sec <= 0x7fff_ffff,
        -0x8000_0000 <= a.nsec - b.nsec <= 0x7fff_ffff,
    ensures
        res.sec == a.sec - b.sec,
        res.nsec == a.nsec - b.nsec,
{
    Stamp { sec: a.sec - b.sec, nsec: a.nsec - b.nsec }
}

/// Wraps a component vector as a translation.
pub fn translation_from_vector3(v: &Vector3) -> (res: Translation3)
    ensures
        res.vector == *v,
{
    Translation3 { vector: v.clone() }
}

/// Relies on IEEE-754 double arithmetic of the host to form the ratio
/// `(time - a) / (b - a)` with both differences taken component-wise in
/// seconds; the result depends on the six stamp components alone and is
/// rendered with round-trip formatting.
#[verifier::external_body]
fn stamp_ratio(time: &Stamp, a: &Stamp, b: &Stamp) -> (res: String)
    ensures
        res@ == ratio_of(
            time.sec as int,
            time.nsec as int,
            a.sec as int,
            a.nsec as int,
            b.sec as int,
            b.nsec as int,
        ),
{
    let zero = core::time::Duration::from_secs(0).as_secs_f64();
    let nano = core::time::Duration::from_nanos(1).as_secs_f64();
    let mut num_sec = zero;
    num_sec = (time.sec as i64 - a.sec as i64) as _;
    let mut num_nsec = zero;
    num_nsec = (time.nsec as i64 - a.nsec as i64) as _;
    let mut den_sec = zero;
    den_sec = (b.sec as i64 - a.sec as i64) as _;
    let mut den_nsec = zero;
    den_nsec = (b.nsec as i64 - a.nsec as i64) as _;
    format!("{:?}", (num_sec + num_nsec * nano) / (den_sec + den_nsec * nano))
}

/// Relies on nalgebra's component-wise vector arithmetic: the result is
/// `va + (vb - va) * r` on the doubles rendered by the components, so each
/// output component depends only on the two matching inputs and the ratio (a
/// component that does not render a double is read as zero).
#[verifier::external_body]
pub fn interpolate_vector3(va: &Vector3, vb: &Vector3, r: &String) -> (res: Vector3)
    ensures
        res.x@ == lerp_of(va.x@, vb.x@, r@),
        res.y@ == lerp_of(va.y@, vb.y@, r@),
        res.z@ == lerp_of(va.z@, vb.z@, r@),
{
    let zero = core::time::Duration::from_secs(0).as_secs_f64();
    let a = nalgebra::Vector3::new(
        va.x.parse().unwrap_or(zero),
        va.y.parse().unwrap_or(zero),
        va.z.parse().unwrap_or(zero),
    );
    let b = nalgebra::Vector3::new(
        vb.x.parse().unwrap_or(zero),
        vb.y.parse().unwrap_or(zero),
        vb.z.parse().unwrap_or(zero),
    );
    let v = a + (b - a) * r.parse().unwrap_or(zero);
    Vector3 { x: format!("{:?}", v.x), y: format!("{:?}", v.y), z: format!("{:?}", v.z) }
}

/// Relies on nalgebra's `UnitQuaternion::try_slerp`: spherical linear
/// interpolation along the shortest arc (the second operand is negated when
/// the dot product of the two is negative), `None` where the rotations are
/// nearly antipodal, at the epsilon `2^-52` that nalgebra's panicking
/// `slerp` defaults to. Stored components are taken as producer-normalized
/// unit quaternions (one that does not render a double is read as zero).
#[verifier::external_body]
pub fn interpolate_quaternion(qa: &UnitQuaternion, qb: &UnitQuaternion, r: &String) -> (res:
    Option<UnitQuaternion>)
    ensures
        quat_opt_strings(res) == slerp_of(
            qa.x@,
            qa.y@,
            qa.z@,
            qa.w@,
            qb.x@,
            qb.y@,
            qb.z@,
            qb.w@,
            r@,
        ),
{
    let zero = core::time::Duration::from_secs(0).as_secs_f64();
    let mut two52 = zero;
    two52 = 4503599627370496i64 as _;
    let p = |s: &String| s.parse().unwrap_or(zero);
    let q = |s: &UnitQuaternion| Unit::new_unchecked(Quat::new(p(&s.w), p(&s.x), p(&s.y), p(&s.z)));
    match q(qa).try_slerp(&q(qb), p(r), two52.recip()) {
        None => None,
        Some(res) => {
            let c = res.coords;
            Some(UnitQuaternion {
                x: format!("{:?}", c.x), y: format!("{:?}", c.y),
                z: format!("{:?}", c.z), w: format!("{:?}", c.w),
            })
        },
    }
}

/// Blends two translations component-wise at ratio `r`.
pub fn interpolate_translation3(ta: &Translation3, tb: &Translation3, r: &String) -> (res:
    Translation3)
    ensures
        res.vector.x@ == lerp_of(ta.vector.x@, tb.vector.x@, r@),
        res.vector.y@ == lerp_of(ta.vector.y@, tb.vector.y@, r@),
        res.vector.z@ == lerp_of(ta.vector.z@, tb.vector.z@, r@),
{
    let interpolated_vec = interpolate_vector3(&ta.vector, &tb.vector, r);
    translation_from_vector3(&interpolated_vec)
}

/// What a synthesized record must look like: for a zero-width bracket, a
/// copy of the first record; otherwise the identifiers of the first record,
/// the target time as the stamp, and the named blends of translation and
/// rotation at the named ratio.
pub open spec fn is_interp_of(
    res: TransformStorage,
    ta: TransformStorage,
    tb: TransformStorage,
    time: Stamp,
) -> bool {
    if ta.stamp == tb.stamp {
        res == ta
    } else {
        let r = spec_ratio(time, ta.stamp, tb.stamp);
        &&& res.frame_id == ta.frame_id
        &&& res.child_frame_id == ta.child_frame_id
        &&& res.stamp == time
        &&& res.translation.vector.x@ == lerp_of(
            ta.translation.vector.x@,
            tb.translation.vector.x@,
            r,
        )
        &&& res.translation.vector.y@ == lerp_of(
            ta.translation.vector.y@,
            tb.translation.vector.y@,
            r,
        )
        &&& res.translation.vector.z@ == lerp_of(
            ta.translation.vector.z@,
            tb.translation.vector.z@,
            r,
        )
        &&& Option::Some(seq![res.rotation.x@, res.rotation.y@, res.rotation.z@, res.rotation.w@])
            == spec_slerp(ta.rotation, tb.rotation, r)
    }
}

/// Whether interpolating `ta` and `tb` at `time` yields a record: always for
/// a zero-width bracket, otherwise exactly when the named slerp is defined.
pub open spec fn interp_defined(ta: TransformStorage, tb: TransformStorage, time: Stamp) -> bool {
    ta.stamp == tb.stamp || spec_slerp(ta.rotation, tb.rotation, spec_ratio(time, ta.stamp, tb.stamp))
        is Some
}

/// Synthesizes the transform at `time` from two records of the same frame
/// pair: a copy of `ta` when the two stamps coincide (a zero-width bracket
/// would divide by zero), otherwise the linear translation blend and
/// shortest-arc rotation blend at ratio `(time - ta) / (tb - ta)`, stamped
/// `time` exactly. The ratio is not clamped: on a non-bracketing `time` this
/// extrapolates. `None` only where the rotation blend is undefined.
pub fn interpolate_two_transform(
    ta: &TransformStorage,
    tb: &TransformStorage,
    time: &Stamp,
) -> (res: Option<TransformStorage>)
    ensures
        res is Some <==> interp_defined(*ta, *tb, *time),
        res matches Some(t) ==> is_interp_of(t, *ta, *tb, *time),
        ta.stamp == tb.stamp ==> res == Some(*ta),
{
    if ta.stamp == tb.stamp {
        Some(ta.clone())
    } else {
        let ratio = stamp_ratio(time, &ta.stamp, &tb.stamp);
        let translation = interpolate_translation3(&ta.translation, &tb.translation, &ratio);
        match interpolate_quaternion(&ta.rotation, &tb.rotation, &ratio) {
            None => None,
            Some(rotation) => Some(
                TransformStorage {
                    frame_id: ta.frame_id,
                    child_frame_id: ta.child_frame_id,
                    translation,
                    rotation,
                    stamp: *time,
                },
            ),
        }
    }
}

/// Interpolating two records with identical stamps returns the first record
/// unchanged, whatever the target time.
pub proof fn lemma_degenerate_interpolation(
    res: TransformStorage,
    ta: TransformStorage,
    tb: TransformStorage,
    time: Stamp,
)
    requires
        ta.stamp == tb.stamp,
    ensures
        is_interp_of(res, ta, tb, time) <==> res == ta,
        interp_defined(ta, tb, time),
{
}

/// Component-wise approximate equality of two translations, within the
/// default absolute epsilon for doubles; for validation and tests only.
pub fn translation_test_equal(ta: &Translation3, tb: &Translation3) -> (res: bool)
    ensures
        res == (abs_diff_eq_of(ta.vector.x@, tb.vector.x@) && abs_diff_eq_of(
            ta.vector.y@,
            tb.vector.y@,
        ) && abs_diff_eq_of(ta.vector.z@, tb.vector.z@)),
{
    let mut equal = true;
    equal = component_abs_diff_eq(&ta.vector.x, &tb.vector.x) && equal;
    equal = component_abs_diff_eq(&ta.vector.y, &tb.vector.y) && equal;
    equal = component_abs_diff_eq(&ta.vector.z, &tb.vector.z) && equal;
    equal
}

/// Component-wise approximate equality of two rotations, within the default
/// absolute epsilon for doubles; for validation and tests only.
pub fn rotation_test_equal(ra: &UnitQuaternion, rb: &UnitQuaternion) -> (res: bool)
    ensures
        res == (abs_diff_eq_of(ra.x@, rb.x@) && abs_diff_eq_of(ra.y@, rb.y@) && abs_diff_eq_of(
            ra.z@,
            rb.z@,
        ) && abs_diff_eq_of(ra.w@, rb.w@)),
{
    let mut equal = true;
    equal = component_abs_diff_eq(&ra.x, &rb.x) && equal;
    equal = component_abs_diff_eq(&ra.y, &rb.y) && equal;
    equal = component_abs_diff_eq(&ra.z, &rb.z) && equal;
    equal = component_abs_diff_eq(&ra.w, &rb.w) && equal;
    equal
}

/// Whole-record approximate equality: identifiers and stamp exact,
/// translation and rotation within tolerance; for validation and tests only.
pub fn transform_storage_test_equal(ta: &TransformStorage, tb: &TransformStorage) -> (res: bool)
    ensures
        res == (ta.frame_id == tb.frame_id && ta.child_frame_id == tb.child_frame_id && ta.stamp
            == tb.stamp && abs_diff_eq_of(ta.translation.vector.x@, tb.translation.vector.x@)
            && abs_diff_eq_of(ta.translation.vector.y@, tb.translation.vector.y@)
            && abs_diff_eq_of(ta.translation.vector.z@, tb.translation.vector.z@)
            && abs_diff_eq_of(ta.rotation.x@, tb.rotation.x@) && abs_diff_eq_of(
            ta.rotation.y@,
            tb.rotation.y@,
        ) && abs_diff_eq_of(ta.rotation.z@, tb.rotation.z@) && abs_diff_eq_of(
            ta.rotation.w@,
            tb.rotation.w@,
        )),
{
    let mut equal = true;
    equal = ta.frame_id == tb.frame_id && equal;
    equal = ta.child_frame_id == tb.child_frame_id && equal;
    equal = ta.stamp == tb.stamp && equal;
    equal = translation_test_equal(&ta.translation, &tb.translation) && equal;
    equal = rotation_test_equal(&ta.rotation, &tb.rotation) && equal;
    equal
}

/// Relies on approx's absolute-difference comparison of two doubles at its
/// default epsilon; the verdict depends on the two rendered components alone
/// (a component that does not render a double is read as zero).
#[verifier::external_body]
fn component_abs_diff_eq(a: &String, b: &String) -> (res: bool)
    ensures
        res == abs_diff_eq_of(a@, b@),
{
    let zero = core::time::Duration::from_secs(0).as_secs_f64();
    approx::AbsDiff::default().eq(&a.parse().unwrap_or(zero), &b.parse().unwrap_or(zero))
}

} // verus!
