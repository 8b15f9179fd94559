use linear_algebra::matrix::matrix_2x2::Matrix2x2;
use linear_algebra::matrix::matrix_3x3::Matrix3x3;
use linear_algebra::matrix::matrix_4x4::Matrix4x4;
use linear_algebra::vector::vector_2::Vector2;
use linear_algebra::vector::vector_3::Vector3;
use linear_algebra::vector::vector_4::Vector4;
use linear_algebra::vector::vector_n::VectorN;
use linear_algebra::vector::VectorType;

#[test]
fn row_vector_render() {
    let vec = Vector2::new(10, 20, VectorType::Row);
    assert_eq!(vec.render(), "[10 20]");
}

#[test]
fn column_vector_2_render() {
    let vec = Vector2::new(10, 20, VectorType::Column);
    assert_eq!(vec.render(), "┌10┐\n└20┘");
}

#[test]
fn column_vector_render() {
    let vec = Vector3::new(1, 2, 3, VectorType::Column);
    assert_eq!(vec.render(), "┌1┐\n│2│\n└3┘");
}

#[test]
fn column_vector_4_render() {
    let vec = Vector4::new(1, 2, 3, 4, VectorType::Column);
    assert_eq!(vec.render(), "┌1┐\n│2│\n│3│\n└4┘");
}

#[test]
fn vector_n_render() {
    let vec = VectorN::new(vec![10, 20, 30, 40, 50], VectorType::Row).unwrap();
    assert_eq!(vec.render(), "[10 20 30 40 50]");
    let vec = VectorN::new(vec![10, 20, 30, 40, 50], VectorType::Column).unwrap();
    assert_eq!(vec.render(), "┌10┐\n│20│\n│30│\n│40│\n└50┘");
}

#[test]
fn matrix_render_rows() {
    let matrix = Matrix2x2::new(
        Vector2::new(10, 20, VectorType::Row),
        Vector2::new(30, 40, VectorType::Row),
    )
    .unwrap();
    assert_eq!(matrix.render(), "┌─\n│10 20\n 30 40│\n     ─┘");
}

#[test]
fn matrix_render_columns() {
    let matrix = Matrix2x2::new(
        Vector2::new(10, 20, VectorType::Column),
        Vector2::new(30, 40, VectorType::Column),
    )
    .unwrap();
    assert_eq!(matrix.render(), "┌─\n│10 30\n 20 40│\n     ─┘");
}

#[test]
fn matrix_3x3_render() {
    let matrix = Matrix3x3::new(
        Vector3::new(1, 2, 3, VectorType::Row),
        Vector3::new(4, 5, 6, VectorType::Row),
        Vector3::new(7, 8, 9, VectorType::Row),
    )
    .unwrap();
    assert_eq!(matrix.render(), "┌─\n│1 2 3\n 4 5 6│\n 7 8 9│\n     ─┘");
}

#[test]
fn matrix_4x4_render() {
    let matrix = Matrix4x4::new(
        Vector4::new(1, 2, 3, 4, VectorType::Row),
        Vector4::new(5, 6, 7, 8, VectorType::Row),
        Vector4::new(9, 10, 11, 12, VectorType::Row),
        Vector4::new(13, 14, 15, 16, VectorType::Row),
    )
    .unwrap();
    assert_eq!(
        matrix.render(),
        "┌─\n│1 2 3 4\n 5 6 7 8│\n 9 10 11 12│\n 13 14 15 16│\n           ─┘"
    );
}

#[test]
fn matrix_3x3_render_columns() {
    let matrix = Matrix3x3::new(
        Vector3::new(1, 2, 3, VectorType::Column),
        Vector3::new(4, 5, 6, VectorType::Column),
        Vector3::new(7, 8, 9, VectorType::Column),
    )
    .unwrap();
    assert_eq!(matrix.render(), "┌─\n│1 4 7\n 2 5 8│\n 3 6 9│\n     ─┘");
}
