//! Opaque handles on the pairing-curve arithmetic of BLS12-381, each operation
//! behind a trusted wrapper whose result is given a name.
use vstd::prelude::*;
use ark_bls12_381::{Bls12_381, Fq12, Fr, G1Affine, G1Projective, G2Affine, G2Projective};
use ark_ec::{AffineCurve, PairingEngine, ProjectiveCurve};
use ark_ff::Field;
use ark_poly::univariate::DensePolynomial;
use ark_poly::{EvaluationDomain, GeneralEvaluationDomain, UVPolynomial};
use ark_std::UniformRand;

verus! {

/// An element of the scalar field of BLS12-381.
#[verifier::external_body]
pub struct Scalar {
    pub(crate) inner: Fr,
}

/// A point of the first source group, in affine form.
#[verifier::external_body]
pub struct G1Point {
    pub(crate) inner: G1Affine,
}

/// A point of the first source group, in projective form.
#[verifier::external_body]
pub struct G1Jacobian {
    pub(crate) inner: G1Projective,
}

/// A point of the second source group, in affine form.
#[verifier::external_body]
pub struct G2Point {
    pub(crate) inner: G2Affine,
}

/// A point of the second source group, in projective form.
#[verifier::external_body]
pub struct G2Jacobian {
    pub(crate) inner: G2Projective,
}

/// An element of the pairing target group.
#[verifier::external_body]
pub struct PairingOutput {
    pub(crate) inner: Fq12,
}

/// A univariate polynomial over the scalar field, in coefficient form.
#[verifier::external_body]
pub struct Polynomial {
    pub(crate) inner: DensePolynomial<Fr>,
}

/// A multiplicative subgroup of the scalar field used for interpolation.
#[verifier::external_body]
pub struct EvalDomain {
    pub(crate) inner: GeneralEvaluationDomain<Fr>,
}

pub uninterp spec fn is_zero_scalar(x: Scalar) -> bool;

pub uninterp spec fn scalar_of_u64(n: u64) -> Scalar;

pub uninterp spec fn scalar_neg_of(x: Scalar) -> Scalar;

pub uninterp spec fn scalar_mul_of(x: Scalar, y: Scalar) -> Scalar;

pub uninterp spec fn scalar_inv_of(x: Scalar) -> Scalar;

pub uninterp spec fn g1_scale_of(p: G1Point, k: Scalar) -> G1Jacobian;

pub uninterp spec fn g1_add_of(p: G1Jacobian, q: G1Jacobian) -> G1Jacobian;

pub uninterp spec fn g1_sub_of(p: G1Jacobian, q: G1Jacobian) -> G1Jacobian;

pub uninterp spec fn g1_lift_of(p: G1Point) -> G1Jacobian;

pub uninterp spec fn g1_affine_of(p: G1Jacobian) -> G1Point;

pub uninterp spec fn g2_scale_of(p: G2Point, k: Scalar) -> G2Jacobian;

pub uninterp spec fn g2_sub_of(p: G2Jacobian, q: G2Jacobian) -> G2Jacobian;

pub uninterp spec fn g2_affine_of(p: G2Jacobian) -> G2Point;

pub uninterp spec fn pairing_of(p: G1Point, q: G2Point) -> PairingOutput;

pub uninterp spec fn target_mul_of(x: PairingOutput, y: PairingOutput) -> PairingOutput;

pub uninterp spec fn domain_size_of(d: EvalDomain) -> nat;

pub uninterp spec fn domain_element_of(d: EvalDomain, i: nat) -> Scalar;

pub uninterp spec fn interpolation_of(d: EvalDomain, evals: Seq<Scalar>) -> Seq<Scalar>;

pub uninterp spec fn poly_of(coeffs: Seq<Scalar>) -> Polynomial;

pub uninterp spec fn degree_of(p: Polynomial) -> nat;

pub uninterp spec fn poly_sub_of(p: Polynomial, q: Polynomial) -> Polynomial;

pub uninterp spec fn poly_div_of(p: Polynomial, q: Polynomial) -> Polynomial;

pub uninterp spec fn coeffs_of(p: Polynomial) -> Seq<Scalar>;

pub uninterp spec fn evals_of(p: Polynomial, d: EvalDomain) -> Seq<Scalar>;

pub uninterp spec fn scalar_text_of(x: Scalar) -> Seq<char>;

/// Relies on `UniformRand::rand` for `Fr` with the thread-local generator of
/// `rand`: a fresh uniformly drawn scalar.
#[verifier::external_body]
pub fn random_scalar() -> (r: Scalar) {
    Scalar { inner: Fr::rand(&mut rand::thread_rng()) }
}

/// Relies on `UniformRand::rand` for `G1Projective` with the thread-local
/// generator of `rand`, made affine: a fresh uniformly drawn point.
#[verifier::external_body]
pub(crate) fn random_g1_point() -> (r: G1Point) {
    G1Point { inner: G1Projective::rand(&mut rand::thread_rng()).into_affine() }
}

/// Relies on `Fr` being `Copy`: the copy is the same scalar.
#[verifier::external_body]
pub(crate) fn scalar_copy(x: &Scalar) -> (r: Scalar)
    ensures
        r == *x,
{
    Scalar { inner: x.inner }
}

/// Relies on `PartialEq` for `G1Affine`, which compares reduced coordinates:
/// equal exactly when the points are the same.
#[verifier::external_body]
pub(crate) fn g1_eq(p: &G1Point, q: &G1Point) -> (r: bool)
    ensures
        r == (*p == *q),
{
    p.inner == q.inner
}

/// Relies on `PartialEq` for `G2Affine`, which compares reduced coordinates:
/// equal exactly when the points are the same.
#[verifier::external_body]
pub(crate) fn g2_eq(p: &G2Point, q: &G2Point) -> (r: bool)
    ensures
        r == (*p == *q),
{
    p.inner == q.inner
}

/// Relies on `G1Affine` being `Copy`: the copy is the same point.
#[verifier::external_body]
pub(crate) fn g1_copy(p: &G1Point) -> (r: G1Point)
    ensures
        r == *p,
{
    G1Point { inner: p.inner }
}

/// Relies on `G2Affine` being `Copy`: the copy is the same point.
#[verifier::external_body]
pub(crate) fn g2_copy(p: &G2Point) -> (r: G2Point)
    ensures
        r == *p,
{
    G2Point { inner: p.inner }
}

/// Relies on `From<u64>` for `Fr`: a nonzero integer below the field's modulus
/// maps to a nonzero scalar.
#[verifier::external_body]
pub fn scalar_from_u64(n: u64) -> (r: Scalar)
    ensures
        r == scalar_of_u64(n),
        is_zero_scalar(r) == (n == 0),
{
    Scalar { inner: Fr::from(n) }
}

/// Relies on `Neg` for `Fr`: the additive inverse.
#[verifier::external_body]
pub(crate) fn scalar_neg(x: &Scalar) -> (r: Scalar)
    ensures
        r == scalar_neg_of(*x),
{
    Scalar { inner: -x.inner }
}

/// Relies on `Mul` for `Fr`: the field product.
#[verifier::external_body]
pub(crate) fn scalar_mul(x: &Scalar, y: &Scalar) -> (r: Scalar)
    ensures
        r == scalar_mul_of(*x, *y),
{
    Scalar { inner: x.inner * y.inner }
}

/// Relies on `Field::inverse` for `Fr`: `None` exactly for zero, else the
/// multiplicative inverse.
#[verifier::external_body]
pub(crate) fn scalar_inverse(x: &Scalar) -> (r: Option<Scalar>)
    ensures
        r is None <==> is_zero_scalar(*x),
        r matches Some(y) ==> y == scalar_inv_of(*x),
{
    x.inner.inverse().map(|y| Scalar { inner: y })
}

/// Relies on `AffineCurve::mul` for the first group: scalar multiplication.
#[verifier::external_body]
pub(crate) fn g1_scale(p: &G1Point, k: &Scalar) -> (r: G1Jacobian)
    ensures
        r == g1_scale_of(*p, *k),
{
    G1Jacobian { inner: p.inner.mul(k.inner) }
}

/// Relies on `Add` for `G1Projective`: the group law.
#[verifier::external_body]
pub(crate) fn g1_add(p: &G1Jacobian, q: &G1Jacobian) -> (r: G1Jacobian)
    ensures
        r == g1_add_of(*p, *q),
{
    G1Jacobian { inner: p.inner + q.inner }
}

/// Relies on `Sub` for `G1Projective`: the group difference.
#[verifier::external_body]
pub(crate) fn g1_sub(p: &G1Jacobian, q: &G1Jacobian) -> (r: G1Jacobian)
    ensures
        r == g1_sub_of(*p, *q),
{
    G1Jacobian { inner: p.inner - q.inner }
}

/// Relies on `AffineCurve::into_projective` for the first group.
#[verifier::external_body]
pub(crate) fn g1_lift(p: &G1Point) -> (r: G1Jacobian)
    ensures
        r == g1_lift_of(*p),
{
    G1Jacobian { inner: p.inner.into_projective() }
}

/// Relies on `ProjectiveCurve::into_affine` for the first group.
#[verifier::external_body]
pub(crate) fn g1_affine(p: &G1Jacobian) -> (r: G1Point)
    ensures
        r == g1_affine_of(*p),
{
    G1Point { inner: p.inner.into_affine() }
}

/// Relies on `AffineCurve::mul` for the second group: scalar multiplication.
#[verifier::external_body]
pub(crate) fn g2_scale(p: &G2Point, k: &Scalar) -> (r: G2Jacobian)
    ensures
        r == g2_scale_of(*p, *k),
{
    G2Jacobian { inner: p.inner.mul(k.inner) }
}

/// Relies on `Sub` for `G2Projective`: the group difference.
#[verifier::external_body]
pub(crate) fn g2_sub(p: &G2Jacobian, q: &G2Jacobian) -> (r: G2Jacobian)
    ensures
        r == g2_sub_of(*p, *q),
{
    G2Jacobian { inner: p.inner - q.inner }
}

/// Relies on `ProjectiveCurve::into_affine` for the second group.
#[verifier::external_body]
pub(crate) fn g2_affine(p: &G2Jacobian) -> (r: G2Point)
    ensures
        r == g2_affine_of(*p),
{
    G2Point { inner: p.inner.into_affine() }
}

/// Relies on `PairingEngine::pairing` of `Bls12_381`: the optimal ate pairing.
#[verifier::external_body]
pub(crate) fn pairing(p: &G1Point, q: &G2Point) -> (r: PairingOutput)
    ensures
        r == pairing_of(*p, *q),
{
    PairingOutput { inner: Bls12_381::pairing(p.inner, q.inner) }
}

/// Relies on `Mul` for `Fq12`: the product in the target group.
#[verifier::external_body]
pub(crate) fn target_mul(x: &PairingOutput, y: &PairingOutput) -> (r: PairingOutput)
    ensures
        r == target_mul_of(*x, *y),
{
    PairingOutput { inner: x.inner * y.inner }
}

/// Relies on `PartialEq` for `Fq12`, which compares the reduced (hence unique)
/// representations: equal exactly when the elements are the same.
#[verifier::external_body]
pub(crate) fn target_eq(x: &PairingOutput, y: &PairingOutput) -> (r: bool)
    ensures
        r == (*x == *y),
{
    x.inner == y.inner
}

/// `x` is a power of two.
pub open spec fn is_power_of_two(x: nat) -> bool
    decreases x,
{
    if x <= 1 {
        x == 1
    } else {
        x % 2 == 0 && is_power_of_two(x / 2)
    }
}

/// Relies on `GeneralEvaluationDomain::new`, which first tries a radix-2
/// domain: its size is the next power of two, and the scalar field of
/// BLS12-381 has two-adicity 32, so every size up to `2^32` is available.
#[verifier::external_body]
pub(crate) fn new_domain(n: usize) -> (r: Option<EvalDomain>)
    requires
        1 <= n <= 0x1_0000_0000,
    ensures
        r is Some,
        r matches Some(d) ==> is_power_of_two(domain_size_of(d)) && n <= domain_size_of(d) < 2 * n,
{
    GeneralEvaluationDomain::<Fr>::new(n).map(|d| EvalDomain { inner: d })
}

/// Relies on `EvaluationDomain::size`.
#[verifier::external_body]
pub(crate) fn domain_size(d: &EvalDomain) -> (r: usize)
    ensures
        r == domain_size_of(*d),
{
    d.inner.size()
}

/// Relies on `EvaluationDomain::element`: the `i`-th power of the generator.
#[verifier::external_body]
pub(crate) fn domain_element(d: &EvalDomain, i: usize) -> (r: Scalar)
    ensures
        r == domain_element_of(*d, i as nat),
{
    Scalar { inner: d.inner.element(i) }
}

/// Relies on `EvaluationDomain::ifft`: the coefficients of the polynomial that
/// takes the given values on the domain, one per domain element.
#[verifier::external_body]
pub(crate) fn interpolate(d: &EvalDomain, evals: &Vec<Scalar>) -> (r: Vec<Scalar>)
    ensures
        r@ == interpolation_of(*d, evals@),
        r@.len() == domain_size_of(*d),
{
    let evals: Vec<Fr> = evals.iter().map(|x| x.inner).collect();
    d.inner.ifft(&evals).into_iter().map(|x| Scalar { inner: x }).collect()
}

/// Relies on `UVPolynomial::from_coefficients_vec` and `Polynomial::degree`:
/// trailing zero coefficients are dropped, so the degree is below the number
/// of coefficients, and is exactly one less when the last one is nonzero.
#[verifier::external_body]
pub(crate) fn poly_from_coeffs(coeffs: Vec<Scalar>) -> (r: Polynomial)
    ensures
        r == poly_of(coeffs@),
        degree_of(r) + 1 <= coeffs@.len() || degree_of(r) == 0,
        coeffs@.len() > 0 && !is_zero_scalar(coeffs@.last()) ==> degree_of(r) + 1
            == coeffs@.len(),
{
    let coeffs: Vec<Fr> = coeffs.into_iter().map(|x| x.inner).collect();
    Polynomial { inner: DensePolynomial::from_coefficients_vec(coeffs) }
}

/// Relies on `Sub` for `&DensePolynomial`: the difference, whose degree is at
/// most the larger of the two degrees.
#[verifier::external_body]
pub(crate) fn poly_sub(p: &Polynomial, q: &Polynomial) -> (r: Polynomial)
    ensures
        r == poly_sub_of(*p, *q),
        degree_of(r) <= degree_of(*p) || degree_of(r) <= degree_of(*q),
{
    Polynomial { inner: &p.inner - &q.inner }
}

/// Relies on `Div` for `&DensePolynomial`: the quotient of long division,
/// whose degree is at most that of the dividend. It panics on a zero divisor,
/// which a positive degree rules out.
#[verifier::external_body]
pub(crate) fn poly_div(p: &Polynomial, q: &Polynomial) -> (r: Polynomial)
    requires
        degree_of(*q) >= 1,
    ensures
        r == poly_div_of(*p, *q),
        degree_of(r) <= degree_of(*p),
{
    Polynomial { inner: &p.inner / &q.inner }
}

/// Relies on `UVPolynomial::coeffs` for `DensePolynomial`.
#[verifier::external_body]
pub(crate) fn poly_coeffs(p: &Polynomial) -> (r: Vec<Scalar>)
    ensures
        r@ == coeffs_of(*p),
{
    p.inner.coeffs().iter().map(|x| Scalar { inner: *x }).collect()
}

/// Relies on `DensePolynomial::evaluate_over_domain`: one value per domain
/// element.
#[verifier::external_body]
pub(crate) fn poly_evals(p: &Polynomial, d: &EvalDomain) -> (r: Vec<Scalar>)
    ensures
        r@ == evals_of(*p, *d),
        r@.len() == domain_size_of(*d),
{
    p.inner.clone().evaluate_over_domain(d.inner).evals.into_iter().map(|x| Scalar { inner: x }).collect()
}

/// Relies on `Display` for `Fr`.
#[verifier::external_body]
pub(crate) fn scalar_text(x: &Scalar) -> (r: String)
    ensures
        r@ == scalar_text_of(*x),
{
    format!("{}", x.inner)
}

} // verus!

verus! {

impl Clone for Scalar {
    fn clone(&self) -> (r: Scalar)
        ensures
            r == *self,
    {
        scalar_copy(self)
    }
}

impl Scalar {
    /// The scalar as `Display` for `Fr` writes it.
    pub fn to_text(&self) -> (r: String)
        ensures
            r@ == scalar_text_of(*self),
    {
        scalar_text(self)
    }
}

impl G1Point {
    /// Whether two points of the first group are the same.
    pub fn equals(&self, other: &G1Point) -> (r: bool)
        ensures
            r == (*self == *other),
    {
        g1_eq(self, other)
    }
}

impl G2Point {
    /// Whether two points of the second group are the same.
    pub fn equals(&self, other: &G2Point) -> (r: bool)
        ensures
            r == (*self == *other),
    {
        g2_eq(self, other)
    }
}

} // verus!
