use matrix::{
    Adj, Cofactor, Cross, Det, Diag, Dot, Eig, Exclude, Herm, KroneckerMul, MAdd, MConj, MDiv,
    MInv, MMul, MSub, Matrix, Minor, Outer, QRHouseholder, Scalar, SquareMatrix, Submatrix, Trace,
    Transpose, VAbs, VAdd, VConj, VDiv, VMul, VSub, Vector,
};
use num_complex::Complex;

/// A real field element.
#[derive(Clone, Copy, Debug, PartialEq)]
struct R(f32);

impl Scalar for R {
    fn zero() -> Self {
        R(0.0)
    }
    fn one() -> Self {
        R(1.0)
    }
    fn add(&self, o: &Self) -> Self {
        R(self.0 + o.0)
    }
    fn sub(&self, o: &Self) -> Self {
        R(self.0 - o.0)
    }
    fn mul(&self, o: &Self) -> Self {
        R(self.0 * o.0)
    }
    fn div(&self, o: &Self) -> Self {
        R(self.0 / o.0)
    }
    fn neg(&self) -> Self {
        R(-self.0)
    }
    fn recip(&self) -> Self {
        R(1.0 / self.0)
    }
    fn conj(&self) -> Self {
        *self
    }
    fn norm_sqr(&self) -> Self {
        R(self.0 * self.0)
    }
    fn sqrt(&self) -> Self {
        R(self.0.sqrt())
    }
    fn phase(&self) -> Self {
        if self.0 < 0.0 {
            R(-1.0)
        } else {
            R(1.0)
        }
    }
    fn is_zero(&self) -> bool {
        self.0 == 0.0
    }
}

/// A complex field element.
#[derive(Clone, Copy, Debug, PartialEq)]
struct C(Complex<f32>);

impl Scalar for C {
    fn zero() -> Self {
        C(Complex::new(0.0, 0.0))
    }
    fn one() -> Self {
        C(Complex::new(1.0, 0.0))
    }
    fn add(&self, o: &Self) -> Self {
        C(self.0 + o.0)
    }
    fn sub(&self, o: &Self) -> Self {
        C(self.0 - o.0)
    }
    fn mul(&self, o: &Self) -> Self {
        C(self.0 * o.0)
    }
    fn div(&self, o: &Self) -> Self {
        C(self.0 / o.0)
    }
    fn neg(&self) -> Self {
        C(-self.0)
    }
    fn recip(&self) -> Self {
        C(Complex::new(1.0, 0.0) / self.0)
    }
    fn conj(&self) -> Self {
        C(self.0.conj())
    }
    fn norm_sqr(&self) -> Self {
        C(Complex::new(self.0.norm_sqr(), 0.0))
    }
    fn sqrt(&self) -> Self {
        C(self.0.sqrt())
    }
    fn phase(&self) -> Self {
        C(Complex::cis(self.0.arg()))
    }
    fn is_zero(&self) -> bool {
        self.0.re == 0.0 && self.0.im == 0.0
    }
}

fn real_matrix(rows: &[&[f32]]) -> Vec<Vec<R>> {
    rows.iter().map(|r| r.iter().map(|&x| R(x)).collect()).collect()
}

fn complex_matrix(rows: &[&[f32]]) -> Vec<Vec<C>> {
    rows.iter().map(|r| r.iter().map(|&x| C(Complex::new(x, 0.0))).collect()).collect()
}

fn show_real(m: &Vec<Vec<R>>) -> String {
    m.iter()
        .map(|r| r.iter().map(|x| x.0.to_string()).collect::<Vec<_>>().join(", "))
        .collect::<Vec<_>>()
        .join("\n")
}

fn show_complex(m: &Vec<Vec<C>>) -> String {
    m.iter()
        .map(|r| r.iter().map(|x| x.0.to_string()).collect::<Vec<_>>().join(", "))
        .collect::<Vec<_>>()
        .join("\n")
}

fn close(a: Complex<f32>, b: Complex<f32>, tol: f32) -> bool {
    (a - b).norm() <= tol
}

fn assert_real_eq(m: &Vec<Vec<R>>, expected: &[&[f32]]) {
    assert_eq!(m.len(), expected.len());
    for (row, want) in m.iter().zip(expected.iter()) {
        assert_eq!(row.iter().map(|x| x.0).collect::<Vec<_>>(), want.to_vec());
    }
}

#[test]
fn test_det() {
    let a = [R(1.0), R(0.0), R(0.0)];
    let b = [R(0.0), R(1.0), R(0.0)];
    let ab = a.cross(b);
    println!("{}\n", ab.map(|abi| abi.0.to_string()).join(", "));

    let a = real_matrix(&[&[1.0], &[2.0], &[3.0]]);
    let b = real_matrix(&[&[1.0, 2.0, 3.0]]);
    let ab = a.mul(&b);
    println!("{}\n", show_real(&ab));

    let a = real_matrix(&[&[0.5, -0.1, 0.3], &[0.7, -0.2, 0.1], &[3.0, -5.0, 1.0]]);
    println!("{}", a.det().0);
    match a.inv() {
        Some(i) => println!("{}", i.det().0),
        None => (),
    };
}

#[test]
fn system() {
    let a = real_matrix(&[&[-0.5, -0.1], &[10.0, -0.2]]);
    let b = real_matrix(&[&[1.0], &[0.0]]);
    let c = real_matrix(&[&[0.0, 1.0]]);
    let d: f32 = 0.0;

    const N: usize = 1000;
    const T: f32 = 40.0;

    let mut x: Vec<Vec<R>> = Matrix::empty(2, 1);
    let mut y: [f32; N] = [0.0; N];
    let mut u: f32 = 0.0;

    let dt = T / N as f32;

    for i in 0..N {
        let dxdt = a.mul(&x).add(&b.mul(&R(u)));

        y[i] = c.mul(&x).trace().0 + d * u;
        x = x.add(&dxdt.mul(&R(dt)));

        u = 1.0;
    }

    println!("{}", y.map(|yn| yn.to_string()).join(", "))
}

#[test]
fn eig() {
    let a = complex_matrix(&[&[1.0, -0.8], &[-3.0, 0.5]]);
    let eigs: Vec<String> = a.eig().iter().map(|yn| yn.0.to_string()).collect();
    println!("detA = {}", a.det().0);
    println!("lambda = {}", eigs.join(", "));
    println!(
        "mul lambda = {}",
        a.eig().iter().map(|l| l.0).reduce(|a, b| a * b).unwrap()
    );
}

#[test]
fn qr() {
    let a = complex_matrix(&[&[1.0, -0.8], &[-3.0, 0.5]]);
    println!("a = [\n{}\n]", show_complex(&a));
    let (q, r) = a.qr_householder();
    println!("q = [\n{}\n]", show_complex(&q));
    println!("r = [\n{}\n]", show_complex(&r));
    let qr = q.mul(&r);
    println!("qr = [\n{}\n]", show_complex(&qr));
}

#[test]
fn determinant_matches_leibniz_for_small_sizes() {
    let a = real_matrix(&[&[7.0]]);
    assert_eq!(a.det(), R(7.0));
    let a = real_matrix(&[&[2.0, 3.0], &[5.0, 7.0]]);
    assert_eq!(a.det(), R(2.0 * 7.0 - 3.0 * 5.0));
    let m = [[2.0f32, -1.0, 3.0], [4.0, 5.0, -2.0], [1.0, 6.0, 8.0]];
    let leibniz = m[0][0] * m[1][1] * m[2][2] - m[0][0] * m[1][2] * m[2][1]
        - m[0][1] * m[1][0] * m[2][2]
        + m[0][1] * m[1][2] * m[2][0]
        + m[0][2] * m[1][0] * m[2][1]
        - m[0][2] * m[1][1] * m[2][0];
    let a = real_matrix(&[&m[0], &m[1], &m[2]]);
    assert_eq!(a.det(), R(leibniz));
}

#[test]
fn two_by_two_determinant_adjugate_inverse() {
    let a = real_matrix(&[&[1.0, 2.0], &[3.0, 4.0]]);
    assert_eq!(a.det(), R(-2.0));
    assert_real_eq(&a.adj(), &[&[4.0, -2.0], &[-3.0, 1.0]]);
    assert_real_eq(&a.inv().unwrap(), &[&[-2.0, 1.0], &[1.5, -0.5]]);
    assert_real_eq(&a.cofactor(), &[&[4.0, -3.0], &[-2.0, 1.0]]);
}

#[test]
fn adjugate_times_matrix_is_determinant_times_identity() {
    let a = real_matrix(&[&[2.0, -1.0], &[4.0, 3.0]]);
    let d = a.det();
    let p = a.mul(&a.adj());
    let want = Vec::<Vec<R>>::identity(2).mul(&d);
    assert_eq!(p, want);
    let one = real_matrix(&[&[5.0]]);
    assert_eq!(one.mul(&one.adj()), real_matrix(&[&[5.0]]));
}

#[test]
fn inverse_is_two_sided() {
    let a = real_matrix(&[&[4.0, 7.0], &[2.0, 6.0]]);
    let b = a.inv().unwrap();
    for p in [a.mul(&b), b.mul(&a)] {
        for i in 0..2 {
            for j in 0..2 {
                let want = if i == j { 1.0 } else { 0.0 };
                assert!((p[i][j].0 - want).abs() < 1e-5);
            }
        }
    }
}

#[test]
fn singular_matrix_has_no_inverse() {
    let a = real_matrix(&[&[1.0, 2.0], &[2.0, 4.0]]);
    assert_eq!(a.det(), R(0.0));
    assert!(a.inv().is_none());
    let z = real_matrix(&[&[0.0]]);
    assert!(z.inv().is_none());
}

#[test]
fn three_by_three_adjugate_and_inverse() {
    let a = real_matrix(&[&[1.0, 2.0, 3.0], &[0.0, 1.0, 4.0], &[5.0, 6.0, 0.0]]);
    assert_eq!(a.det(), R(1.0));
    assert_eq!(a.minor((1, 0)), R(18.0));
    let want: &[&[f32]] = &[&[-24.0, 18.0, 5.0], &[20.0, -15.0, -4.0], &[-5.0, 4.0, 1.0]];
    assert_real_eq(&a.adj(), want);
    assert_real_eq(&a.inv().unwrap(), want);
    let id = Vec::<Vec<R>>::identity(3);
    assert_eq!(a.mul(&a.adj()), id);
    assert_eq!(a.adj().mul(&a), id);
}

#[test]
fn shear_inverse_is_two_sided() {
    let a = real_matrix(&[&[1.0, 1.0, 0.0], &[0.0, 1.0, 0.0], &[0.0, 0.0, 1.0]]);
    let b = a.inv().unwrap();
    assert_real_eq(&b, &[&[1.0, -1.0, 0.0], &[0.0, 1.0, 0.0], &[0.0, 0.0, 1.0]]);
    let id = Vec::<Vec<R>>::identity(3);
    assert_eq!(a.mul(&b), id);
    assert_eq!(b.mul(&a), id);
}

#[test]
fn four_by_four_determinant_and_adjugate() {
    let swap = real_matrix(&[
        &[0.0, 1.0, 0.0, 0.0],
        &[1.0, 0.0, 0.0, 0.0],
        &[0.0, 0.0, 1.0, 0.0],
        &[0.0, 0.0, 0.0, 1.0],
    ]);
    assert_eq!(swap.det(), R(-1.0));
    let a = real_matrix(&[
        &[2.0, -1.0, 0.0, 3.0],
        &[1.0, 4.0, -2.0, 0.0],
        &[0.0, 5.0, 1.0, -1.0],
        &[3.0, 0.0, 2.0, 1.0],
    ]);
    let d = a.det();
    let want = Vec::<Vec<R>>::identity(4).mul(&d);
    assert_eq!(a.mul(&a.adj()), want);
    assert_eq!(a.adj().mul(&a), want);
    let five = real_matrix(&[
        &[1.0, 2.0, 0.0, 0.0, 1.0],
        &[0.0, 1.0, 3.0, 0.0, 0.0],
        &[2.0, 0.0, 1.0, 1.0, 0.0],
        &[0.0, 0.0, 1.0, 2.0, 1.0],
        &[1.0, 1.0, 0.0, 0.0, 2.0],
    ]);
    let d5 = five.det();
    assert_eq!(five.mul(&five.adj()), Vec::<Vec<R>>::identity(5).mul(&d5));
}

#[test]
fn submatrix_rotates_past_the_excluded_line() {
    let a = real_matrix(&[&[1.0, 2.0, 3.0], &[4.0, 5.0, 6.0], &[7.0, 8.0, 9.0]]);
    assert_real_eq(&a.submatrix(Exclude::Cell(0, 0)), &[&[5.0, 6.0], &[8.0, 9.0]]);
    assert_real_eq(&a.submatrix(Exclude::Cell(1, 1)), &[&[9.0, 7.0], &[3.0, 1.0]]);
    assert_real_eq(
        &a.submatrix(Exclude::Row(1)),
        &[&[7.0, 8.0, 9.0], &[1.0, 2.0, 3.0]],
    );
    assert_real_eq(
        &a.submatrix(Exclude::Column(0)),
        &[&[2.0, 3.0], &[5.0, 6.0], &[8.0, 9.0]],
    );
    assert_eq!(a.minor((0, 0)), R(5.0 * 9.0 - 6.0 * 8.0));
}

#[test]
fn qr_factors_reproduce_the_matrix() {
    let a = complex_matrix(&[&[1.0, -0.8], &[-3.0, 0.5], &[2.0, 4.0]]);
    let (q, r) = a.qr_householder();
    assert_eq!(q.len(), 3);
    assert_eq!(r.len(), 3);
    assert_eq!(r[0].len(), 2);
    for i in 0..3 {
        for j in 0..2 {
            if j < i {
                assert!(r[i][j].is_zero());
            }
        }
    }
    let qr = q.mul(&r);
    for i in 0..3 {
        for j in 0..2 {
            assert!(close(qr[i][j].0, a[i][j].0, 1e-4));
        }
    }
    let qhq = q.herm().mul(&q);
    for i in 0..3 {
        for j in 0..3 {
            let want = if i == j { 1.0 } else { 0.0 };
            assert!(close(qhq[i][j].0, Complex::new(want, 0.0), 1e-4));
        }
    }
}

#[test]
fn qr_of_complex_matrices_reproduces_them() {
    let i = Complex::new(0.0f32, 1.0);
    let one = Complex::new(1.0f32, 0.0);
    let cases = vec![
        vec![vec![C(i)], vec![C(one)]],
        vec![
            vec![C(Complex::new(1.0, 2.0)), C(Complex::new(0.5, -1.0))],
            vec![C(Complex::new(-3.0, 0.5)), C(Complex::new(2.0, 1.0))],
            vec![C(Complex::new(0.0, -1.0)), C(Complex::new(1.0, 1.0))],
        ],
    ];
    for a in cases {
        let (q, r) = a.qr_householder();
        let (h, l) = (a.len(), a[0].len());
        for row in 0..h {
            for col in 0..l {
                if col < row {
                    assert!(r[row][col].is_zero());
                }
            }
        }
        let qr = q.mul(&r);
        for row in 0..h {
            for col in 0..l {
                assert!(close(qr[row][col].0, a[row][col].0, 1e-4));
            }
        }
        let qhq = q.herm().mul(&q);
        for row in 0..h {
            for col in 0..h {
                let want = if row == col { 1.0 } else { 0.0 };
                assert!(close(qhq[row][col].0, Complex::new(want, 0.0), 1e-4));
            }
        }
    }
}

#[test]
fn qr_of_a_single_row_is_trivial() {
    let a = complex_matrix(&[&[3.0]]);
    let (q, r) = a.qr_householder();
    assert_eq!(q, complex_matrix(&[&[1.0]]));
    assert_eq!(r, complex_matrix(&[&[3.0]]));
}

#[test]
fn eigenvalue_estimates_of_a_two_by_two_matrix() {
    // The eigenvalues are 2.31924 and -0.81924, with product det(A) = -1.9.
    let a = complex_matrix(&[&[1.0, -0.8], &[-3.0, 0.5]]);
    let l = a.eig();
    assert_eq!(l.len(), 2);
    assert!(close(l[0].0, Complex::new(2.31924, 0.0), 1e-3));
    assert!(close(l[1].0, Complex::new(-0.81924, 0.0), 1e-3));
    let p = l[0].0 * l[1].0;
    assert!(close(p, Complex::new(-1.9, 0.0), 1e-3));
    assert!(close(p, a.det().0, 1e-3));
}

#[test]
fn eigenvalues_of_a_diagonal_matrix() {
    let a = complex_matrix(&[&[2.0, 0.0], &[0.0, 0.5]]);
    let l = a.eig();
    assert!(close(l[0].0, Complex::new(2.0, 0.0), 1e-5));
    assert!(close(l[1].0, Complex::new(0.5, 0.0), 1e-5));
}

#[test]
fn cross_of_unit_vectors() {
    let a = [R(1.0), R(0.0), R(0.0)];
    let b = [R(0.0), R(1.0), R(0.0)];
    assert_eq!(a.cross(b), [R(0.0), R(0.0), R(1.0)]);
    let u = [R(1.0), R(2.0), R(3.0)];
    let v = [R(4.0), R(5.0), R(6.0)];
    assert_eq!(u.cross(v), [R(-3.0), R(6.0), R(-3.0)]);
}

#[test]
fn seven_dimensional_cross_of_unit_vectors() {
    let mut e0 = [R(0.0); 7];
    let mut e1 = [R(0.0); 7];
    e0[0] = R(1.0);
    e1[1] = R(1.0);
    let w = e0.cross(e1);
    let mut want = [R(0.0); 7];
    want[3] = R(1.0);
    assert_eq!(w, want);
}

#[test]
fn vector_operations() {
    let u = [R(1.0), R(2.0), R(3.0)];
    let v = [R(4.0), R(5.0), R(6.0)];
    assert_eq!(u.add(v), [R(5.0), R(7.0), R(9.0)]);
    assert_eq!(v.sub(u), [R(3.0), R(3.0), R(3.0)]);
    assert_eq!(u.mul(R(2.0)), [R(2.0), R(4.0), R(6.0)]);
    assert_eq!(u.div(R(2.0)), [R(0.5), R(1.0), R(1.5)]);
    assert_eq!(u.dot(v), R(32.0));
    assert_eq!([R(3.0), R(4.0)].abs_sqr(), R(25.0));
    assert_eq!([R(3.0), R(4.0)].abs(), R(5.0));
    assert_eq!(<[R; 3] as Vector<R>>::length(), 3);
    assert_eq!(<[R; 3] as Vector<R>>::zero(), [R(0.0); 3]);
    let z = [C(Complex::new(1.0, 1.0)), C(Complex::new(2.0, -1.0))];
    assert_eq!(z.conj(), [C(Complex::new(1.0, -1.0)), C(Complex::new(2.0, 1.0))]);
    assert_real_eq(
        &u.outer([R(1.0), R(10.0)]),
        &[&[1.0, 10.0], &[2.0, 20.0], &[3.0, 30.0]],
    );
}

#[test]
fn elementwise_matrix_operations() {
    let a = real_matrix(&[&[1.0, 2.0], &[3.0, 4.0]]);
    let b = real_matrix(&[&[4.0, 3.0], &[2.0, 1.0]]);
    assert_real_eq(&a.add(&b), &[&[5.0, 5.0], &[5.0, 5.0]]);
    assert_real_eq(&a.sub(&b), &[&[-3.0, -1.0], &[1.0, 3.0]]);
    assert_real_eq(&a.mul(&R(2.0)), &[&[2.0, 4.0], &[6.0, 8.0]]);
    assert_real_eq(&a.div(&R(2.0)), &[&[0.5, 1.0], &[1.5, 2.0]]);
    assert_eq!(a.trace(), R(5.0));
    assert_eq!(a.diag(), vec![R(1.0), R(4.0)]);
    assert_eq!(a.height(), 2);
    assert_eq!(a.length(), 2);
}

#[test]
fn structural_matrix_operations() {
    let a = real_matrix(&[&[1.0, 2.0, 3.0], &[4.0, 5.0, 6.0]]);
    assert_real_eq(&a.transpose(), &[&[1.0, 4.0], &[2.0, 5.0], &[3.0, 6.0]]);
    assert_eq!(a.diag(), vec![R(1.0), R(5.0)]);
    assert_eq!(a.height(), 2);
    assert_eq!(a.length(), 3);
    let m: Vec<Vec<R>> = Matrix::empty(2, 3);
    assert_real_eq(&m, &[&[0.0, 0.0, 0.0], &[0.0, 0.0, 0.0]]);
    assert_real_eq(&Vec::<Vec<R>>::identity(2), &[&[1.0, 0.0], &[0.0, 1.0]]);
    let z = vec![
        vec![C(Complex::new(1.0, 1.0)), C(Complex::new(2.0, -1.0))],
        vec![C(Complex::new(3.0, 1.0)), C(Complex::new(4.0, -1.0))],
    ];
    let zc = z.conj();
    assert_eq!(zc[0][1], C(Complex::new(2.0, 1.0)));
    let zh = z.herm();
    assert_eq!(zh[0][1], C(Complex::new(3.0, -1.0)));
    assert_eq!(zh[1][0], C(Complex::new(2.0, 1.0)));
}

#[test]
fn kronecker_product() {
    let a = real_matrix(&[&[1.0, 2.0], &[3.0, 4.0]]);
    assert_real_eq(
        &a.kronecker_mul(&a),
        &[
            &[1.0, 2.0, 2.0, 4.0],
            &[3.0, 4.0, 6.0, 8.0],
            &[3.0, 6.0, 4.0, 8.0],
            &[9.0, 12.0, 12.0, 16.0],
        ],
    );
    let b = real_matrix(&[&[1.0, -1.0]]);
    assert_real_eq(
        &a.kronecker_mul(&b),
        &[&[1.0, -1.0, 2.0, -2.0], &[3.0, -3.0, 4.0, -4.0]],
    );
}

#[test]
fn matrix_init_fills_by_index() {
    let m = matrix::matrix_init(2, 3, |r, c| R((r * 10 + c) as f32));
    assert_real_eq(&m, &[&[0.0, 1.0, 2.0], &[10.0, 11.0, 12.0]]);
}
