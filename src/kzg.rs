//! The structured reference string of the KZG scheme, its trimming to the
//! degree that a protocol needs, and polynomial commitment under the result.
use vstd::prelude::*;
use std::collections::BTreeMap;
use ark_bls12_381::{Bls12_381, Fr};
use ark_poly::univariate::DensePolynomial;
use ark_poly_commit::kzg10::{Powers, KZG10};
use ark_poly_commit::Error as PcError;
use crate::algebra::{degree_of, g1_copy, g2_copy, G1Point, G2Point, Polynomial};

verus! {

#[verifier::external_type_specification]
#[verifier::external_body]
pub struct ExPcError(PcError);

/// A universal reference string: powers of a secret in the first group, in
/// the plain and in the blinding base, and the secret in the second group.
pub struct Srs {
    /// `beta^i * g` for `i` from `0` to the degree.
    pub powers_of_g: Vec<G1Point>,
    /// `beta^i * gamma * g`, keyed by `i`.
    pub powers_of_gamma_g: BTreeMap<usize, G1Point>,
    /// The generator of the second group.
    pub h: G2Point,
    /// The secret times that generator.
    pub beta_h: G2Point,
}

/// The prover's part of a trimmed reference string.
pub struct CommitKey {
    pub powers_of_g: Vec<G1Point>,
    pub powers_of_gamma_g: Vec<G1Point>,
}

/// The verifier's part of a trimmed reference string.
pub struct VerifierKey {
    pub g: G1Point,
    pub gamma_g: G1Point,
    pub h: G2Point,
    pub beta_h: G2Point,
}

#[derive(Debug, PartialEq, Eq)]
pub enum SrsError {
    /// A reference string must support degree one at least.
    DegreeIsZero,
    /// The degree leaves no room for the extra blinding power.
    DegreeTooLarge,
}

#[derive(Debug, PartialEq, Eq)]
pub enum TrimError {
    /// The reference string holds fewer powers than the requested degree needs.
    DegreeTooLarge,
}

#[derive(Debug, PartialEq, Eq)]
pub enum CommitError {
    /// The polynomial has more coefficients than the key has powers.
    TooManyCoefficients,
}

/// How many powers a key trimmed to degree `d` holds: `d + 1`, except that
/// degree one is raised to two.
pub open spec fn trimmed_len(d: nat) -> nat {
    if d == 1 {
        3
    } else {
        d + 1
    }
}

impl Srs {
    /// The string holds the first `len` powers in the blinding base.
    pub open spec fn holds_gamma_powers(&self, len: nat) -> bool {
        forall|i: usize| (i as nat) < len ==> #[trigger] self.powers_of_gamma_g@.contains_key(i)
    }

    /// The string holds the first `len` powers in both bases.
    pub open spec fn holds_powers(&self, len: nat) -> bool {
        &&& len <= self.powers_of_g@.len()
        &&& self.holds_gamma_powers(len)
    }
}

pub uninterp spec fn commitment_of(p: Polynomial, powers: Seq<G1Point>) -> G1Point;

/// Relies on `KZG10::setup` with second-group powers, drawing its secrets from
/// the thread-local generator of `rand`: it fails exactly when
/// the degree is zero, and otherwise holds `d + 1` powers of `g` and the keys
/// `0..=d + 1` of the blinding powers.
#[verifier::external_body]
pub(crate) fn kzg_setup(max_degree: usize) -> (r: Result<Srs, PcError>)
    requires
        max_degree < usize::MAX,
    ensures
        r is Err <==> max_degree < 1,
        r matches Ok(srs) ==> srs.powers_of_g@.len() == max_degree + 1 && srs.holds_gamma_powers(
            max_degree as nat + 2,
        ),
{
    let rng = &mut rand::thread_rng();
    KZG10::<Bls12_381, DensePolynomial<Fr>>::setup(max_degree, true, rng).map(|pp| Srs {
        powers_of_g: pp.powers_of_g.into_iter().map(|p| G1Point { inner: p }).collect(),
        powers_of_gamma_g: pp
            .powers_of_gamma_g
            .into_iter()
            .map(|(i, p)| (i, G1Point { inner: p }))
            .collect(),
        h: G2Point { inner: pp.h },
        beta_h: G2Point { inner: pp.beta_h },
    })
}

/// Relies on `KZG10::commit` without hiding: it fails exactly when the
/// polynomial has more coefficients than the key has powers of `g`.
#[verifier::external_body]
pub(crate) fn kzg_commit(poly: &Polynomial, ck: &CommitKey) -> (r: Result<G1Point, PcError>)
    ensures
        r is Ok <==> degree_of(*poly) + 1 <= ck.powers_of_g@.len(),
        r matches Ok(c) ==> c == commitment_of(*poly, ck.powers_of_g@),
{
    let powers = Powers::<Bls12_381> {
        powers_of_g: ck.powers_of_g.iter().map(|p| p.inner).collect(),
        powers_of_gamma_g: ck.powers_of_gamma_g.iter().map(|p| p.inner).collect(),
    };
    KZG10::<Bls12_381, DensePolynomial<Fr>>::commit(&powers, &poly.inner, None, None)
        .map(|(c, _)| G1Point { inner: c.0 })
}

/// Generates a universal reference string for polynomials of degree up to
/// `max_degree`, from a fresh secret.
pub fn universal_setup(max_degree: usize) -> (r: Result<Srs, SrsError>)
    ensures
        (r matches Err(SrsError::DegreeIsZero)) <==> max_degree == 0,
        (r matches Err(SrsError::DegreeTooLarge)) <==> max_degree == usize::MAX,
        r matches Ok(srs) ==> srs.powers_of_g@.len() == max_degree + 1 && srs.holds_gamma_powers(
            max_degree as nat + 2,
        ),
{
    if max_degree == usize::MAX {
        return Err(SrsError::DegreeTooLarge);
    }
    match kzg_setup(max_degree) {
        Ok(srs) => Ok(srs),
        Err(_) => Err(SrsError::DegreeIsZero),
    }
}

/// Trims a universal reference string to the powers needed for polynomials of
/// degree `supported_degree`.
pub fn trim(srs: &Srs, supported_degree: usize) -> (r: Result<(CommitKey, VerifierKey), TrimError>)
    ensures
        r is Ok <==> srs.holds_powers(trimmed_len(supported_degree as nat)) && srs.holds_powers(1),
        r matches Ok((ck, vk)) ==> {
            let len = trimmed_len(supported_degree as nat);
            &&& ck.powers_of_g@ == srs.powers_of_g@.subrange(0, len as int)
            &&& ck.powers_of_gamma_g@.len() == len
            &&& forall|i: int|
                0 <= i < len ==> ck.powers_of_gamma_g@[i] == #[trigger] srs.powers_of_gamma_g@[i as usize]
            &&& vk.g == srs.powers_of_g@[0]
            &&& vk.gamma_g == srs.powers_of_gamma_g@[0usize]
            &&& vk.h == srs.h
            &&& vk.beta_h == srs.beta_h
        },
{
    let degree: usize = if supported_degree == 1 { 2 } else { supported_degree };
    if degree >= srs.powers_of_g.len() {
        return Err(TrimError::DegreeTooLarge);
    }
    let len: usize = degree + 1;
    let mut powers_of_g: Vec<G1Point> = Vec::new();
    let mut powers_of_gamma_g: Vec<G1Point> = Vec::new();
    let mut i: usize = 0;
    while i < len
        invariant
            len == trimmed_len(supported_degree as nat),
            len <= srs.powers_of_g@.len(),
            i <= len,
            powers_of_g@ == srs.powers_of_g@.subrange(0, i as int),
            powers_of_gamma_g@.len() == i,
            forall|j: int| 0 <= j < i ==> powers_of_gamma_g@[j] == #[trigger] srs.powers_of_gamma_g@[j as usize],
            forall|j: usize| j < i ==> #[trigger] srs.powers_of_gamma_g@.contains_key(j),
        decreases len - i,
    {
        powers_of_g.push(g1_copy(&srs.powers_of_g[i]));
        match srs.powers_of_gamma_g.get(&i) {
            Some(p) => powers_of_gamma_g.push(g1_copy(p)),
            None => return Err(TrimError::DegreeTooLarge),
        }
        proof {
            assert(powers_of_g@ =~= srs.powers_of_g@.subrange(0, i + 1));
        }
        i = i + 1;
    }
    proof {
        assert(powers_of_gamma_g@[0] == srs.powers_of_gamma_g@[0int as usize]);
    }
    let ck = CommitKey { powers_of_g, powers_of_gamma_g };
    let vk = VerifierKey {
        g: g1_copy(&ck.powers_of_g[0]),
        gamma_g: g1_copy(&ck.powers_of_gamma_g[0]),
        h: g2_copy(&srs.h),
        beta_h: g2_copy(&srs.beta_h),
    };
    Ok((ck, vk))
}

/// Commits to a polynomial under a commitment key, without hiding.
pub fn commit(poly: &Polynomial, ck: &CommitKey) -> (r: Result<G1Point, CommitError>)
    ensures
        r is Ok <==> degree_of(*poly) + 1 <= ck.powers_of_g@.len(),
        r matches Ok(c) ==> c == commitment_of(*poly, ck.powers_of_g@),
{
    match kzg_commit(poly, ck) {
        Ok(c) => Ok(c),
        Err(_) => Err(CommitError::TooManyCoefficients),
    }
}

} // verus!
