use keplerian::cb::CB;
use keplerian::errors::ValidationError;
use keplerian::vec3::Vec3Fx;
use keplerian::SCALE;

fn unit_x() -> Vec3Fx {
    Vec3Fx::new(SCALE, 0, 0)
}

fn unit_y() -> Vec3Fx {
    Vec3Fx::new(0, SCALE, 0)
}

fn unit_z() -> Vec3Fx {
    Vec3Fx::new(0, 0, SCALE)
}

#[test]
fn a_valid_basis_is_accepted() {
    let cb = CB::new(SCALE, unit_x(), unit_y(), unit_z()).unwrap();
    assert_eq!(cb.mu, SCALE);
    assert_eq!(cb.i, unit_x());
    assert_eq!(cb.j, unit_y());
    assert_eq!(cb.k, unit_z());
}

#[test]
fn equal_axes_are_rejected() {
    // i = j is not orthogonal: construction must fail
    let r = CB::new(SCALE, unit_x(), unit_x(), unit_z());
    assert_eq!(r, Err(ValidationError::NotOrthogonal));
}

#[test]
fn a_left_handed_triple_is_rejected() {
    // cross(i, j) = -k: construction must fail
    let r = CB::new(SCALE, unit_x(), unit_y(), Vec3Fx::new(0, 0, -SCALE));
    assert_eq!(r, Err(ValidationError::NotRightHanded));
}

#[test]
fn a_non_unit_axis_is_rejected() {
    let r = CB::new(SCALE, Vec3Fx::new(2 * SCALE, 0, 0), unit_y(), unit_z());
    assert_eq!(r, Err(ValidationError::NotUnitLength));
}

#[test]
fn a_non_positive_mu_is_rejected() {
    let r = CB::new(0, unit_x(), unit_y(), unit_z());
    assert_eq!(r, Err(ValidationError::NonPositiveMu));
}

#[test]
fn reprojection_into_a_rotated_frame() {
    let id = CB::new(SCALE, unit_x(), unit_y(), unit_z()).unwrap();
    // the same space turned a quarter turn about the pole
    let turned = CB::new(
        SCALE,
        Vec3Fx::new(0, SCALE, 0),
        Vec3Fx::new(-SCALE, 0, 0),
        unit_z(),
    )
    .unwrap();
    let v = Vec3Fx::new(SCALE, 0, 0);
    let w = id.change_cb(v, &turned);
    assert_eq!(w, Vec3Fx::new(0, SCALE, 0));
    let back = id.change_cb(Vec3Fx::new(3, -4, 5), &id);
    assert_eq!(back, Vec3Fx::new(3, -4, 5));
}
