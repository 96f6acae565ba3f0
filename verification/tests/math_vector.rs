use tubereng::math::vector::{Vector2, Vector3, Vector4};

#[test]
fn vector3_new() {
    let v = Vector3::new(1, 2, 3);

    assert_eq!(v.x, 1);
    assert_eq!(v.y, 2);
    assert_eq!(v.z, 3);
}

#[test]
fn add() {
    let a = Vector3::new(1, 2, 3);
    let b = Vector3::new(4, 5, 6);

    let result = a + b;

    assert_eq!(result.x, 5);
    assert_eq!(result.y, 7);
    assert_eq!(result.z, 9);
}

#[test]
fn add_assign() {
    let mut a = Vector3::new(1, 2, 3);
    let b = Vector3::new(4, 5, 6);

    a += b;

    assert_eq!(a.x, 5);
    assert_eq!(a.y, 7);
    assert_eq!(a.z, 9);
}

#[test]
fn sub() {
    let a = Vector3::new(1, 2, 3);
    let b = Vector3::new(4, 3, 2);

    let result = a - b;

    assert_eq!(result.x, -3);
    assert_eq!(result.y, -1);
    assert_eq!(result.z, 1);
}

#[test]
fn sub_assign() {
    let mut a = Vector3::new(1, 2, 3);
    let b = Vector3::new(4, 3, 2);

    a -= b;

    assert_eq!(a.x, -3);
    assert_eq!(a.y, -1);
    assert_eq!(a.z, 1);
}

#[test]
fn mul_scalar() {
    let a = Vector3::new(1, 2, 3);
    let b = 5;

    let result = a * b;

    assert_eq!(result.x, 5);
    assert_eq!(result.y, 10);
    assert_eq!(result.z, 15);
}

#[test]
fn mul_assign_scalar() {
    let mut vec = Vector3::new(1, 2, 3);
    let scalar = 5;

    vec *= scalar;

    assert_eq!(vec.x, 5);
    assert_eq!(vec.y, 10);
    assert_eq!(vec.z, 15);
}

#[test]
fn div_scalar() {
    let a = Vector3::new(5, 10, 15);
    let b = 5;

    let result = a / b;

    assert_eq!(result.x, 1);
    assert_eq!(result.y, 2);
    assert_eq!(result.z, 3);
}

#[test]
fn div_assign_scalar() {
    let mut vec = Vector3::new(5, 10, 15);
    let scalar = 5;

    vec /= scalar;

    assert_eq!(vec.x, 1);
    assert_eq!(vec.y, 2);
    assert_eq!(vec.z, 3);
}

#[test]
fn neg() {
    let a = Vector3::new(1, 2, 3);

    let result = -a;

    assert_eq!(result.x, -1);
    assert_eq!(result.y, -2);
    assert_eq!(result.z, -3);
}

#[test]
fn display() {
    let result = Vector3::new(1, 2, 3).display_string();
    assert_eq!("(1, 2, 3)", &result);
}

#[test]
fn default() {
    let vector = Vector4::<f32>::default();

    assert!(vector.x.abs() <= 0.0);
    assert!(vector.y.abs() <= 0.0);
    assert!(vector.z.abs() <= 0.0);
    assert!(vector.w.abs() <= 0.0);
}

#[test]
fn from_tuple() {
    let tuple = (0, 1, 2, 3);
    let v = Vector4::from(tuple);

    assert_eq!(v.x, 0);
    assert_eq!(v.y, 1);
    assert_eq!(v.z, 2);
    assert_eq!(v.w, 3);
}

#[test]
fn into_tuple() {
    let v = Vector4::new(0, 1, 2, 3);
    let tuple: (i32, i32, i32, i32) = v.into();

    assert_eq!(tuple.0, 0);
    assert_eq!(tuple.1, 1);
    assert_eq!(tuple.2, 2);
    assert_eq!(tuple.3, 3);
}

#[test]
fn vector2_operations_work_componentwise() {
    let a = Vector2::new(7, -2);
    let b = Vector2::new(3, 5);
    let sum = a + b;
    let difference = a - b;
    let scaled = a * 3;
    let divided = Vector2::new(9, -6) / 3;
    assert_eq!((sum.x, sum.y), (10, 3));
    assert_eq!((difference.x, difference.y), (4, -7));
    assert_eq!((scaled.x, scaled.y), (21, -6));
    assert_eq!((divided.x, divided.y), (3, -2));
    assert_eq!(Vector2::new(4, 5).display_string(), "(4, 5)");
}

#[test]
fn vector4_display_and_negation() {
    let v = Vector4::new(1i64, -2, 3, -4);
    let n = -v;
    assert_eq!((n.x, n.y, n.z, n.w), (-1, 2, -3, 4));
    assert_eq!(v.display_string(), "(1, -2, 3, -4)");
}

#[test]
fn adding_then_subtracting_gives_back_the_vector() {
    let a = Vector3::new(10, -20, 30);
    let b = Vector3::new(-4, 8, 15);
    let back = (a + b) - b;
    assert_eq!((back.x, back.y, back.z), (10, -20, 30));
    let twice = -(-a);
    assert_eq!((twice.x, twice.y, twice.z), (10, -20, 30));
}
