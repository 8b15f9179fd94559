use linear_algebra::scalar::ScalarOp;
use linear_algebra::vector::vector_2::Vector2;
use linear_algebra::vector::vector_3::Vector3;
use linear_algebra::vector::vector_4::Vector4;
use linear_algebra::vector::vector_n::VectorN;
use linear_algebra::vector::VectorType;

#[test]
fn vector_2_operators() {
    let vec = Vector2::new(10, 20, VectorType::Row);
    assert_eq!(
        vec.scalar_op(ScalarOp::Add, 10),
        Vector2::new(20, 30, VectorType::Row)
    );
    assert_eq!(
        vec.scalar_op(ScalarOp::Sub, 10),
        Vector2::new(0, 10, VectorType::Row)
    );
    assert_eq!(
        vec.scalar_op(ScalarOp::Mul, 10),
        Vector2::new(100, 200, VectorType::Row)
    );
    assert_eq!(
        vec.scalar_op(ScalarOp::Div, 10),
        Vector2::new(1, 2, VectorType::Row)
    );
}

#[test]
fn vector_2_display() {
    let vec = Vector2::new(10, 20, VectorType::Row);
    println!("{}", vec.render());
    let vec = Vector2::new(10, 20, VectorType::Column);
    println!("{}", vec.render());
}

#[test]
fn vector_3_operators() {
    let vec = Vector3::new(10, 20, 30, VectorType::Row);
    assert_eq!(
        vec.scalar_op(ScalarOp::Add, 10),
        Vector3::new(20, 30, 40, VectorType::Row)
    );
    assert_eq!(
        vec.scalar_op(ScalarOp::Sub, 10),
        Vector3::new(0, 10, 20, VectorType::Row)
    );
    assert_eq!(
        vec.scalar_op(ScalarOp::Mul, 10),
        Vector3::new(100, 200, 300, VectorType::Row)
    );
    assert_eq!(
        vec.scalar_op(ScalarOp::Div, 10),
        Vector3::new(1, 2, 3, VectorType::Row)
    );
}

#[test]
fn vector_3_display() {
    let vec = Vector3::new(10, 20, 30, VectorType::Row);
    println!("{}", vec.render());
    let vec = Vector3::new(10, 20, 30, VectorType::Column);
    println!("{}", vec.render());
}

#[test]
fn vector_4_operators() {
    let vec = Vector4::new(10, 20, 30, 40, VectorType::Row);
    assert_eq!(
        vec.scalar_op(ScalarOp::Add, 10),
        Vector4::new(20, 30, 40, 50, VectorType::Row)
    );
    assert_eq!(
        vec.scalar_op(ScalarOp::Sub, 10),
        Vector4::new(0, 10, 20, 30, VectorType::Row)
    );
    assert_eq!(
        vec.scalar_op(ScalarOp::Mul, 10),
        Vector4::new(100, 200, 300, 400, VectorType::Row)
    );
    assert_eq!(
        vec.scalar_op(ScalarOp::Div, 10),
        Vector4::new(1, 2, 3, 4, VectorType::Row)
    );
}

#[test]
fn vector_4_display() {
    let vec = Vector4::new(10, 20, 30, 40, VectorType::Row);
    println!("{}", vec.render());
    let vec = Vector4::new(10, 20, 30, 40, VectorType::Column);
    println!("{}", vec.render());
}

#[test]
fn vector_n_operators() {
    let vec = VectorN::new(vec![10, 20, 30, 40, 50], VectorType::Row).unwrap();
    assert_eq!(
        vec.clone().scalar_op(ScalarOp::Add, 10),
        VectorN::new(vec![20, 30, 40, 50, 60], VectorType::Row).unwrap()
    );
    assert_eq!(
        vec.clone().scalar_op(ScalarOp::Sub, 10),
        VectorN::new(vec![0, 10, 20, 30, 40], VectorType::Row).unwrap()
    );
    assert_eq!(
        vec.clone().scalar_op(ScalarOp::Mul, 10),
        VectorN::new(vec![100, 200, 300, 400, 500], VectorType::Row).unwrap()
    );
    assert_eq!(
        vec.scalar_op(ScalarOp::Div, 10),
        VectorN::new(vec![1, 2, 3, 4, 5], VectorType::Row).unwrap()
    );
}

#[test]
#[should_panic]
fn less_than_5() {
    VectorN::new(vec![0], VectorType::Row).unwrap();
}

#[test]
fn vector_n_display() {
    let vec = VectorN::new(vec![10, 20, 30, 40, 50], VectorType::Row).unwrap();
    println!("{}", vec.render());
    let vec = VectorN::new(vec![10, 20, 30, 40, 50], VectorType::Column).unwrap();
    println!("{}", vec.render());
}
