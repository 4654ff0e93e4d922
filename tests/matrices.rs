use three_d_bridge::prelude::{F64_ONE, F64_ZERO};
use three_d_bridge::{Matrix2, Matrix3, Matrix4, MatrixError};

fn bits(v: &[f64]) -> Vec<u64> {
    v.iter().map(|x| x.to_bits()).collect()
}

#[test]
fn identities_are_column_major_ones_on_the_diagonal() {
    assert_eq!(
        Matrix4::identity().data,
        bits(&[1.0, 0.0, 0.0, 0.0, 0.0, 1.0, 0.0, 0.0, 0.0, 0.0, 1.0, 0.0, 0.0, 0.0, 0.0, 1.0])
    );
    assert_eq!(Matrix2::identity().data, bits(&[1.0, 0.0, 0.0, 1.0]));
    assert_eq!(
        Matrix3::identity().data,
        bits(&[1.0, 0.0, 0.0, 0.0, 1.0, 0.0, 0.0, 0.0, 1.0])
    );
    assert_eq!(F64_ONE, 1.0f64.to_bits());
    assert_eq!(F64_ZERO, 0.0f64.to_bits());
}

#[test]
fn matrix4_from_fifteen_components_fails() {
    let r = Matrix4::new(Some(vec![0u64; 15]));
    assert_eq!(r.err(), Some(MatrixError::ParameterLengthMismatch { expected: 16, found: 15 }));
}

#[test]
fn matrix4_from_sixteen_components_succeeds() {
    let data = bits(&[
        1.0, 2.0, 3.0, 4.0, 5.0, 6.0, 7.0, 8.0, 9.0, 10.0, 11.0, 12.0, 13.0, 14.0, 15.0, 16.0,
    ]);
    let m = Matrix4::new(Some(data.clone())).unwrap();
    assert_eq!(m.data, data);
}

#[test]
fn matrices_without_data() {
    assert_eq!(Matrix4::new(None).unwrap().data, vec![0u64; 16]);
    assert_eq!(Matrix2::new(None).unwrap().data, Matrix2::identity().data);
    assert_eq!(Matrix3::new(None).unwrap().data, Matrix3::identity().data);
}

#[test]
fn wrong_lengths_are_rejected_not_corrected() {
    assert_eq!(
        Matrix2::new(Some(vec![0u64; 5])).err(),
        Some(MatrixError::ParameterLengthMismatch { expected: 4, found: 5 })
    );
    assert_eq!(
        Matrix3::new(Some(vec![])).err(),
        Some(MatrixError::ParameterLengthMismatch { expected: 9, found: 0 })
    );
    assert_eq!(
        Matrix4::new(Some(vec![0u64; 17])).err(),
        Some(MatrixError::ParameterLengthMismatch { expected: 16, found: 17 })
    );
    assert!(Matrix3::new(Some(vec![7u64; 9])).is_ok());
}
