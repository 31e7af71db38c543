//! Dense matrix and vector algebra over a field of the caller's choice: determinants by
//! cofactor expansion, adjugates and inverses, Householder QR decomposition and
//! eigenvalue estimates by the unshifted QR algorithm.
//!
//! A matrix is a `Vec<Vec<T>>` of rows, all of one length; a vector is an array `[T; N]`.
//! The field `T` is any type that implements [`Scalar`].

pub mod matrix;
pub mod scalar;
pub mod vector;

pub use crate::matrix::add::MAdd;
pub use crate::matrix::adj::Adj;
pub use crate::matrix::cofactor::Cofactor;
pub use crate::matrix::conj::MConj;
pub use crate::matrix::det::Det;
pub use crate::matrix::diag::Diag;
pub use crate::matrix::div::MDiv;
pub use crate::matrix::eig::{Eig, ITERATIONS};
pub use crate::matrix::herm::Herm;
pub use crate::matrix::inv::MInv;
pub use crate::matrix::kronecker::KroneckerMul;
pub use crate::matrix::minor::Minor;
pub use crate::matrix::mul::MMul;
pub use crate::matrix::qr_householder::QRHouseholder;
pub use crate::matrix::sub::MSub;
pub use crate::matrix::submatrix::{Exclude, Submatrix};
pub use crate::matrix::trace::Trace;
pub use crate::matrix::transpose::Transpose;
pub use crate::matrix::{Matrix, SquareMatrix, matrix_init};
pub use crate::scalar::Scalar;
pub use crate::vector::abs::VAbs;
pub use crate::vector::add::VAdd;
pub use crate::vector::conj::VConj;
pub use crate::vector::cross::Cross;
pub use crate::vector::div::VDiv;
pub use crate::vector::dot::Dot;
pub use crate::vector::mul::VMul;
pub use crate::vector::outer::Outer;
pub use crate::vector::sub::VSub;
pub use crate::vector::Vector;
