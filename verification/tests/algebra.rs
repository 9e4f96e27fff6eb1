use numerics_gen::fragment::MatrixShape;
use numerics_gen::semantics::RowExpr;
use numerics_gen::semantics::Term;
use numerics_gen::semantics::matrix_product_rows;

fn term_value(t: &Term, lhs: &[f32], rhs: &[f32]) -> f32 {
    lhs[t.l] * rhs[t.r]
}

fn evaluate_rows(rows: &[RowExpr], lhs: &[f32], rhs: &[f32]) -> Vec<f32> {
    rows.iter()
        .map(|e| match e {
            RowExpr::Sum2(a, b) => term_value(a, lhs, rhs) + term_value(b, lhs, rhs),
            RowExpr::Sum2T(a, b, k) => {
                term_value(a, lhs, rhs) + term_value(b, lhs, rhs) + rhs[*k]
            }
            RowExpr::Sum4(a, b, c, d) => {
                term_value(a, lhs, rhs) + term_value(b, lhs, rhs) + term_value(c, lhs, rhs)
                    + term_value(d, lhs, rhs)
            }
        })
        .collect()
}

fn approx_eq(a: &[f32], b: &[f32]) -> bool {
    a.len() == b.len() && a.iter().zip(b.iter()).all(|(x, y)| (x - y).abs() < 1e-3)
}

fn pseudo_random_matrix(seed: &mut u32) -> Vec<f32> {
    (0..16)
        .map(|_| {
            *seed = seed.wrapping_mul(1664525).wrapping_add(1013904223);
            (*seed >> 16) as f32 / 65536.0 - 0.5
        })
        .collect()
}

#[test]
fn matrix3x2_identity_on_either_side_returns_the_matrix() {
    let rows = matrix_product_rows(MatrixShape::ThreeByTwo);
    let m: Vec<f32> = vec![3.5, -1.25, 0.75, 2.0, 10.0, -4.5];
    let identity: Vec<f32> = vec![1.0, 0.0, 0.0, 1.0, 0.0, 0.0];
    assert_eq!(evaluate_rows(&rows, &m, &identity), m);
    assert_eq!(evaluate_rows(&rows, &identity, &m), m);
}

#[test]
fn matrix3x2_translation_composes() {
    let rows = matrix_product_rows(MatrixShape::ThreeByTwo);
    let shift_a: Vec<f32> = vec![1.0, 0.0, 0.0, 1.0, 2.0, 3.0];
    let shift_b: Vec<f32> = vec![1.0, 0.0, 0.0, 1.0, -0.5, 4.0];
    let composed = evaluate_rows(&rows, &shift_a, &shift_b);
    assert_eq!(composed, vec![1.0, 0.0, 0.0, 1.0, 1.5, 7.0]);
}

#[test]
fn matrix4x4_rows_match_the_dense_product() {
    let rows = matrix_product_rows(MatrixShape::FourByFour);
    let mut seed: u32 = 7;
    let a = pseudo_random_matrix(&mut seed);
    let b = pseudo_random_matrix(&mut seed);
    let emitted = evaluate_rows(&rows, &a, &b);
    let mut dense: Vec<f32> = vec![0.0; 16];
    for i in 0..4 {
        for j in 0..4 {
            for k in 0..4 {
                dense[4 * i + j] += a[4 * i + k] * b[4 * k + j];
            }
        }
    }
    assert!(approx_eq(&emitted, &dense));
}

#[test]
fn matrix4x4_multiplication_is_associative() {
    let rows = matrix_product_rows(MatrixShape::FourByFour);
    let mut seed: u32 = 42;
    for _ in 0..8 {
        let a = pseudo_random_matrix(&mut seed);
        let b = pseudo_random_matrix(&mut seed);
        let c = pseudo_random_matrix(&mut seed);
        let ab = evaluate_rows(&rows, &a, &b);
        let bc = evaluate_rows(&rows, &b, &c);
        let left_first = evaluate_rows(&rows, &ab, &c);
        let right_first = evaluate_rows(&rows, &a, &bc);
        assert!(approx_eq(&left_first, &right_first));
    }
}

#[test]
fn matrix4x4_identity_on_either_side_returns_the_matrix() {
    let rows = matrix_product_rows(MatrixShape::FourByFour);
    let mut identity: Vec<f32> = vec![0.0; 16];
    for i in 0..4 {
        identity[4 * i + i] = 1.0;
    }
    let mut seed: u32 = 3;
    let m = pseudo_random_matrix(&mut seed);
    assert_eq!(evaluate_rows(&rows, &m, &identity), m);
    assert_eq!(evaluate_rows(&rows, &identity, &m), m);
}
