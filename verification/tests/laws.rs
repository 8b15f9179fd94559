use linear_algebra::error::ConstructError;
use linear_algebra::matrix::matrix_2x2::Matrix2x2;
use linear_algebra::scalar::ScalarOp;
use linear_algebra::vector::vector_2::Vector2;
use linear_algebra::vector::vector_n::VectorN;
use linear_algebra::vector::VectorType;

#[test]
fn transpose_round_trip() {
    let mut vec = Vector2::new(10, 20, VectorType::Row);
    let original = vec;
    vec.transpose();
    assert_eq!(vec.vector_type, VectorType::Column);
    assert_eq!(vec.storage, original.storage);
    vec.transpose();
    assert_eq!(vec, original);

    let mut vec = VectorN::new(vec![1, 2, 3, 4, 5], VectorType::Column).unwrap();
    let original = vec.clone();
    vec.transpose();
    assert_ne!(vec, original);
    vec.transpose();
    assert_eq!(vec, original);
}

#[test]
fn scalar_inverse_round_trips() {
    let vec = Vector2::new(10, 20, VectorType::Row);
    assert_eq!(
        vec.scalar_op(ScalarOp::Add, 7).scalar_op(ScalarOp::Sub, 7),
        vec
    );
    assert_eq!(
        vec.scalar_op(ScalarOp::Mul, 7).scalar_op(ScalarOp::Div, 7),
        vec
    );

    let matrix = Matrix2x2::new(
        Vector2::new(10, 20, VectorType::Row),
        Vector2::new(30, 40, VectorType::Row),
    )
    .unwrap();
    assert_eq!(
        matrix.scalar_op(ScalarOp::Add, 7).scalar_op(ScalarOp::Sub, 7),
        matrix
    );
    assert_eq!(
        matrix.scalar_op(ScalarOp::Mul, 7).scalar_op(ScalarOp::Div, 7),
        matrix
    );
}

#[test]
fn row_column_not_equal() {
    let row = Vector2::new(10, 20, VectorType::Row);
    let column = Vector2::new(10, 20, VectorType::Column);
    assert_ne!(row, column);

    let row = VectorN::new(vec![1, 2, 3, 4, 5], VectorType::Row).unwrap();
    let column = VectorN::new(vec![1, 2, 3, 4, 5], VectorType::Column).unwrap();
    assert_ne!(row, column);
}

#[test]
fn construction_validation() {
    let mismatched = Matrix2x2::new(
        Vector2::new(10, 20, VectorType::Row),
        Vector2::new(30, 40, VectorType::Column),
    );
    assert!(matches!(
        mismatched,
        Err(ConstructError::MismatchedOrientation)
    ));

    let undersized = VectorN::new(vec![1], VectorType::Row);
    assert!(matches!(undersized, Err(ConstructError::UndersizedVector)));

    let ok = VectorN::new(vec![1, 2, 3, 4, 5], VectorType::Row);
    assert!(ok.is_ok());
}
