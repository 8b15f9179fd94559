use linear_algebra::matrix::matrix_2x2::Matrix2x2;
use linear_algebra::matrix::matrix_3x3::Matrix3x3;
use linear_algebra::matrix::matrix_4x4::Matrix4x4;
use linear_algebra::scalar::ScalarOp;
use linear_algebra::vector::vector_2::Vector2;
use linear_algebra::vector::vector_3::Vector3;
use linear_algebra::vector::vector_4::Vector4;
use linear_algebra::vector::VectorType;

#[test]
fn matrix_2x2_operators() {
    let matrix = Matrix2x2::new(
        Vector2::new(10, 20, VectorType::Row),
        Vector2::new(30, 40, VectorType::Row),
    )
    .unwrap();
    assert_eq!(
        matrix.scalar_op(ScalarOp::Add, 10),
        Matrix2x2::new(
            Vector2::new(20, 30, VectorType::Row),
            Vector2::new(40, 50, VectorType::Row)
        )
        .unwrap()
    );
    assert_eq!(
        matrix.scalar_op(ScalarOp::Sub, 10),
        Matrix2x2::new(
            Vector2::new(0, 10, VectorType::Row),
            Vector2::new(20, 30, VectorType::Row)
        )
        .unwrap()
    );
    assert_eq!(
        matrix.scalar_op(ScalarOp::Mul, 10),
        Matrix2x2::new(
            Vector2::new(100, 200, VectorType::Row),
            Vector2::new(300, 400, VectorType::Row)
        )
        .unwrap()
    );
    assert_eq!(
        matrix.scalar_op(ScalarOp::Div, 10),
        Matrix2x2::new(
            Vector2::new(1, 2, VectorType::Row),
            Vector2::new(3, 4, VectorType::Row)
        )
        .unwrap()
    );
}

#[test]
fn matrix_2x2_matrix_macro() {
    assert_eq!(
        Matrix2x2::new(
            Vector2::new(20 - 10, 20, VectorType::Row),
            Vector2::new(30, 40, VectorType::Row)
        )
        .unwrap(),
        Matrix2x2::new(
            Vector2::new(10, 20, VectorType::Row),
            Vector2::new(30, 40, VectorType::Row)
        )
        .unwrap()
    );
}

#[test]
#[should_panic]
fn matrix_2x2_diff_vector_types() {
    Matrix2x2::new(
        Vector2::new(10, 20, VectorType::Row),
        Vector2::new(10, 20, VectorType::Column),
    )
    .unwrap();
}

#[test]
fn matrix_2x2_display() {
    let matrix = Matrix2x2::new(
        Vector2::new(10, 20, VectorType::Row),
        Vector2::new(30, 40, VectorType::Row),
    )
    .unwrap();
    println!("{}", matrix.render());
}

#[test]
fn matrix_3x3_operators() {
    let matrix = Matrix3x3::new(
        Vector3::new(10, 20, 30, VectorType::Row),
        Vector3::new(30, 40, 50, VectorType::Row),
        Vector3::new(60, 70, 80, VectorType::Row),
    )
    .unwrap();
    assert_eq!(
        matrix.scalar_op(ScalarOp::Add, 10),
        Matrix3x3::new(
            Vector3::new(20, 30, 40, VectorType::Row),
            Vector3::new(40, 50, 60, VectorType::Row),
            Vector3::new(70, 80, 90, VectorType::Row)
        )
        .unwrap()
    );
    assert_eq!(
        matrix.scalar_op(ScalarOp::Sub, 10),
        Matrix3x3::new(
            Vector3::new(0, 10, 20, VectorType::Row),
            Vector3::new(20, 30, 40, VectorType::Row),
            Vector3::new(50, 60, 70, VectorType::Row)
        )
        .unwrap()
    );
    assert_eq!(
        matrix.scalar_op(ScalarOp::Mul, 10),
        Matrix3x3::new(
            Vector3::new(100, 200, 300, VectorType::Row),
            Vector3::new(300, 400, 500, VectorType::Row),
            Vector3::new(600, 700, 800, VectorType::Row)
        )
        .unwrap()
    );
    assert_eq!(
        matrix.scalar_op(ScalarOp::Div, 10),
        Matrix3x3::new(
            Vector3::new(1, 2, 3, VectorType::Row),
            Vector3::new(3, 4, 5, VectorType::Row),
            Vector3::new(6, 7, 8, VectorType::Row)
        )
        .unwrap()
    );
}

#[test]
fn matrix_3x3_matrix_macro() {
    assert_eq!(
        Matrix3x3::new(
            Vector3::new(10, 20, 30, VectorType::Row),
            Vector3::new(40, 50, 60, VectorType::Row),
            Vector3::new(70, 80, 90, VectorType::Row)
        )
        .unwrap(),
        Matrix3x3::new(
            Vector3::new(10, 20, 30, VectorType::Row),
            Vector3::new(40, 50, 60, VectorType::Row),
            Vector3::new(70, 80, 90, VectorType::Row)
        )
        .unwrap()
    );
}

#[test]
#[should_panic]
fn matrix_3x3_diff_vector_types() {
    Matrix3x3::new(
        Vector3::new(10, 20, 30, VectorType::Row),
        Vector3::new(10, 20, 30, VectorType::Column),
        Vector3::new(10, 20, 30, VectorType::Row),
    )
    .unwrap();
}

#[test]
fn matrix_4x4_operators() {
    let matrix = Matrix4x4::new(
        Vector4::new(10, 20, 30, 40, VectorType::Row),
        Vector4::new(50, 60, 70, 80, VectorType::Row),
        Vector4::new(90, 100, 110, 120, VectorType::Row),
        Vector4::new(130, 140, 150, 160, VectorType::Row),
    )
    .unwrap();
    assert_eq!(
        matrix.scalar_op(ScalarOp::Add, 10),
        Matrix4x4::new(
            Vector4::new(20, 30, 40, 50, VectorType::Row),
            Vector4::new(60, 70, 80, 90, VectorType::Row),
            Vector4::new(100, 110, 120, 130, VectorType::Row),
            Vector4::new(140, 150, 160, 170, VectorType::Row)
        )
        .unwrap()
    );
    assert_eq!(
        matrix.scalar_op(ScalarOp::Sub, 10),
        Matrix4x4::new(
            Vector4::new(0, 10, 20, 30, VectorType::Row),
            Vector4::new(40, 50, 60, 70, VectorType::Row),
            Vector4::new(80, 90, 100, 110, VectorType::Row),
            Vector4::new(120, 130, 140, 150, VectorType::Row)
        )
        .unwrap()
    );
    assert_eq!(
        matrix.scalar_op(ScalarOp::Mul, 10),
        Matrix4x4::new(
            Vector4::new(100, 200, 300, 400, VectorType::Row),
            Vector4::new(500, 600, 700, 800, VectorType::Row),
            Vector4::new(900, 1000, 1100, 1200, VectorType::Row),
            Vector4::new(1300, 1400, 1500, 1600, VectorType::Row)
        )
        .unwrap()
    );
    assert_eq!(
        matrix.scalar_op(ScalarOp::Div, 10),
        Matrix4x4::new(
            Vector4::new(1, 2, 3, 4, VectorType::Row),
            Vector4::new(5, 6, 7, 8, VectorType::Row),
            Vector4::new(9, 10, 11, 12, VectorType::Row),
            Vector4::new(13, 14, 15, 16, VectorType::Row)
        )
        .unwrap()
    );
}

#[test]
fn matrix_4x4_matrix_macro() {
    Matrix4x4::new(
        Vector4::new(10, 20, 30, 40, VectorType::Row),
        Vector4::new(50, 60, 70, 80, VectorType::Row),
        Vector4::new(90, 100, 110, 120, VectorType::Row),
        Vector4::new(130, 140, 150, 160, VectorType::Row),
    )
    .unwrap();
}

#[test]
#[should_panic]
fn matrix_4x4_diff_vector_types() {
    Matrix4x4::new(
        Vector4::new(10, 20, 30, 40, VectorType::Row),
        Vector4::new(10, 20, 30, 40, VectorType::Column),
        Vector4::new(10, 20, 30, 40, VectorType::Row),
        Vector4::new(10, 20, 30, 40, VectorType::Row),
    )
    .unwrap();
}

#[test]
fn matrix_nxn_operators() {
    let matrix = Matrix2x2::new(
        Vector2::new(10, 20, VectorType::Row),
        Vector2::new(30, 40, VectorType::Row),
    )
    .unwrap();
    assert_eq!(
        matrix.scalar_op(ScalarOp::Add, 10),
        Matrix2x2::new(
            Vector2::new(20, 30, VectorType::Row),
            Vector2::new(40, 50, VectorType::Row)
        )
        .unwrap()
    );
    assert_eq!(
        matrix.scalar_op(ScalarOp::Sub, 10),
        Matrix2x2::new(
            Vector2::new(0, 10, VectorType::Row),
            Vector2::new(20, 30, VectorType::Row)
        )
        .unwrap()
    );
    assert_eq!(
        matrix.scalar_op(ScalarOp::Mul, 10),
        Matrix2x2::new(
            Vector2::new(100, 200, VectorType::Row),
            Vector2::new(300, 400, VectorType::Row)
        )
        .unwrap()
    );
    assert_eq!(
        matrix.scalar_op(ScalarOp::Div, 10),
        Matrix2x2::new(
            Vector2::new(1, 2, VectorType::Row),
            Vector2::new(3, 4, VectorType::Row)
        )
        .unwrap()
    );
}

#[test]
fn matrix_nxn_matrix_macro() {
    assert_eq!(
        Matrix2x2::new(
            Vector2::new(20 - 10, 20, VectorType::Row),
            Vector2::new(30, 40, VectorType::Row)
        )
        .unwrap(),
        Matrix2x2::new(
            Vector2::new(10, 20, VectorType::Row),
            Vector2::new(30, 40, VectorType::Row)
        )
        .unwrap()
    );
}

#[test]
#[should_panic]
fn matrix_nxn_diff_vector_types() {
    Matrix2x2::new(
        Vector2::new(10, 20, VectorType::Row),
        Vector2::new(10, 20, VectorType::Column),
    )
    .unwrap();
}
