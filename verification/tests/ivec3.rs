use coderaid::ivec3::IVec3;

#[test]
fn vectors_are_built_from_components() {
    let v = IVec3::new(1, -2, 3);
    assert_eq!((v.x, v.y, v.z), (1, -2, 3));
    assert_eq!(IVec3::splat(4), IVec3::new(4, 4, 4));
}

#[test]
fn arithmetic_works_by_component() {
    let a = IVec3::new(1, -2, 3);
    let b = IVec3::new(10, 20, -30);
    assert_eq!(a + b, IVec3::new(11, 18, -27));
    assert_eq!(a - b, IVec3::new(-9, -22, 33));
    assert_eq!(a * b, IVec3::new(10, -40, -90));
    assert_eq!(-a, IVec3::new(-1, 2, -3));
}

#[test]
fn min_and_max_work_by_component() {
    let a = IVec3::new(1, 20, -3);
    let b = IVec3::new(10, 2, -3);
    assert_eq!(a.min(b), IVec3::new(1, 2, -3));
    assert_eq!(a.max(b), IVec3::new(10, 20, -3));
}

#[test]
fn half_rounds_towards_zero() {
    assert_eq!(IVec3::new(4, 5, 1).half(), IVec3::new(2, 2, 0));
    assert_eq!(IVec3::new(-4, -5, -1).half(), IVec3::new(-2, -2, 0));
    assert_eq!(IVec3::new(i32::MAX, i32::MIN, 0).half(), IVec3::new(1073741823, -1073741824, 0));
}
