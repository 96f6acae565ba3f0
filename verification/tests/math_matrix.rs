use tubereng::math::matrix::{Identity, Matrix4};
use tubereng::math::vector::{Vector3, Vector4};

#[test]
fn identity() {
    let m = Matrix4::<i32>::identity();

    for i in 0..4 {
        for j in 0..4 {
            if i == j {
                assert_eq!(m[i][j], 1);
            } else {
                assert_eq!(m[i][j], 0);
            }
        }
    }
}

#[test]
fn index_mut() {
    let mut m = Matrix4::<i32>::identity();
    m[3][2] = 5;

    assert_eq!(m[3][2], 5);
}

#[test]
fn index() {
    let m = Matrix4::<i32>::identity();

    assert_eq!(m[0][0], 1);
    assert_eq!(m[0][1], 0);
}

#[test]
fn matrix_mul() {
    let a = Matrix4::<i32>::with_values([
        1, 2, 3, 4,
        5, 6, 7, 8,
        9, 39, 11, 12,
        13, 14, 15, 16,
    ]);
    let b = Matrix4::<i32>::with_values([
        17, 18, 19, 20,
        21, 22, 23, 24,
        25, 26, 27, 28,
        29, 30, 31, 32,
    ]);

    let result = a * b;

    assert_eq!(result[0][0], 250);
    assert_eq!(result[0][1], 260);
    assert_eq!(result[0][2], 270);
    assert_eq!(result[0][3], 280);
    assert_eq!(result[1][0], 618);
    assert_eq!(result[1][1], 644);
    assert_eq!(result[1][2], 670);
    assert_eq!(result[1][3], 696);
    assert_eq!(result[2][0], 1595);
    assert_eq!(result[2][1], 1666);
    assert_eq!(result[2][2], 1737);
    assert_eq!(result[2][3], 1808);
    assert_eq!(result[3][0], 1354);
    assert_eq!(result[3][1], 1412);
    assert_eq!(result[3][2], 1470);
    assert_eq!(result[3][3], 1528);
}

#[test]
fn mul_assign() {
    let mut a = Matrix4::<i32>::with_values([
        1, 2, 3, 4,
        5, 6, 7, 8,
        9, 39, 11, 12,
        13, 14, 15, 16,
    ]);
    let b = Matrix4::<i32>::with_values([
        17, 18, 19, 20,
        21, 22, 23, 24,
        25, 26, 27, 28,
        29, 30, 31, 32,
    ]);

    a *= b;

    assert_eq!(a[0][0], 250);
    assert_eq!(a[0][1], 260);
    assert_eq!(a[0][2], 270);
    assert_eq!(a[0][3], 280);
    assert_eq!(a[1][0], 618);
    assert_eq!(a[1][1], 644);
    assert_eq!(a[1][2], 670);
    assert_eq!(a[1][3], 696);
    assert_eq!(a[2][0], 1595);
    assert_eq!(a[2][1], 1666);
    assert_eq!(a[2][2], 1737);
    assert_eq!(a[2][3], 1808);
    assert_eq!(a[3][0], 1354);
    assert_eq!(a[3][1], 1412);
    assert_eq!(a[3][2], 1470);
    assert_eq!(a[3][3], 1528);
}

#[test]
fn identity_times_matrix_is_the_matrix() {
    let a = Matrix4::<i64>::with_values([
        3, -1, 4, 1,
        5, 9, -2, 6,
        5, 3, 5, -8,
        9, 7, 9, 3,
    ]);
    let product = Matrix4::<i64>::identity() * a;
    assert_eq!(product.values(), a.values());
    let product = a * Matrix4::<i64>::identity();
    assert_eq!(product.values(), a.values());
}

#[test]
fn translation_moves_points() {
    let translation = Matrix4::<i32>::new_translation(&Vector3::new(1, 2, 3));
    let moved = translation.transform_vec(&Vector4::new(10, 20, 30, 1));
    assert_eq!((moved.x, moved.y, moved.z, moved.w), (11, 22, 33, 1));
    let moved3 = translation.transform_vec3(&Vector3::new(-1, -2, -3));
    assert_eq!((moved3.x, moved3.y, moved3.z), (0, 0, 0));
}

#[test]
fn scale_scales_each_axis() {
    let scale = Matrix4::<i32>::new_scale(&Vector3::new(2, 3, 4));
    let scaled = scale.transform_vec(&Vector4::new(1, 1, 1, 1));
    assert_eq!((scaled.x, scaled.y, scaled.z, scaled.w), (2, 3, 4, 1));
    let uniform = Matrix4::<i32>::new_scale_uniform(5);
    let scaled = uniform.transform_vec(&Vector4::new(1, 2, 3, 1));
    assert_eq!((scaled.x, scaled.y, scaled.z, scaled.w), (5, 10, 15, 1));
}

#[test]
fn appending_translations_adds_them() {
    let mut m = Matrix4::<i32>::new_translation(&Vector3::new(1, 1, 1));
    m.append_translation(&Vector3::new(2, 3, 4));
    assert_eq!((m[0][3], m[1][3], m[2][3]), (3, 4, 5));
    let added = Matrix4::<i32>::identity().add_translation(&Vector3::new(7, 8, 9));
    assert_eq!((added[0][3], added[1][3], added[2][3], added[3][3]), (7, 8, 9, 1));
}

#[test]
fn matrix_into_columns() {
    let m = Matrix4::<i32>::with_values([
        1, 2, 3, 4,
        5, 6, 7, 8,
        9, 10, 11, 12,
        13, 14, 15, 16,
    ]);
    let columns: [[i32; 4]; 4] = m.into();
    assert_eq!(columns[1], [2, 6, 10, 14]);
    assert_eq!(columns[3][0], 4);
}

#[test]
fn matrix_debug_text() {
    let m = Matrix4::<i32>::identity();
    assert_eq!(
        m.debug_string(),
        "[\n\t1, 0, 0, 0, \n\t0, 1, 0, 0, \n\t0, 0, 1, 0, \n\t0, 0, 0, 1, \n]\n"
    );
}

#[test]
fn try_inverse_of_integer_matrices() {
    let a = Matrix4::with_values([
        1i32, 1, 0, 0,
        0, 1, 0, 0,
        0, 0, 1, 2,
        0, 0, 0, 1,
    ]);
    let inverse = a.try_inverse().unwrap();
    let expected = [
        1, -1, 0, 0,
        0, 1, 0, 0,
        0, 0, 1, -2,
        0, 0, 0, 1,
    ];
    assert_eq!(*inverse.values(), expected);
    let singular = Matrix4::with_values([
        1i32, 2, 3, 4,
        2, 4, 6, 8,
        0, 0, 1, 0,
        0, 0, 0, 1,
    ]);
    assert!(singular.try_inverse().is_none());
}
