//! Setup, proving and verification of membership of a hidden value in a
//! public vector of scalars.
use vstd::prelude::*;
use crate::algebra::{
    degree_of, is_power_of_two,
    domain_element, domain_element_of, domain_size, domain_size_of, g1_add, g1_add_of, g1_affine,
    g1_affine_of, g1_copy, g1_lift, g1_lift_of, g1_scale, g1_scale_of, g1_sub, g1_sub_of,
    g2_affine, g2_affine_of, g2_scale, g2_scale_of, g2_sub, g2_sub_of, interpolate,
    interpolation_of, is_zero_scalar, new_domain, pairing, pairing_of, poly_div, poly_div_of,
    poly_from_coeffs, poly_of, poly_sub, poly_sub_of, random_g1_point, random_scalar, scalar_copy,
    scalar_from_u64, scalar_inv_of, scalar_inverse, scalar_mul, scalar_mul_of, scalar_neg,
    scalar_neg_of, scalar_of_u64, target_eq, target_mul, target_mul_of, EvalDomain, G1Point,
    G2Point, Polynomial, Scalar,
};
use crate::kzg::{commit, commitment_of, universal_setup, trim, CommitKey};

verus! {

/// Largest evaluation domain that the scalar field of BLS12-381 offers.
pub const MAX_DOMAIN: u64 = 0x1_0000_0000;

/// Public parameters shared by every prover and verifier.
pub struct Setup {
    /// The multiplicative subgroup over which the vector is interpolated.
    pub domain: EvalDomain,
    /// Generator of the first group.
    pub g1: G1Point,
    /// Generator of the second group.
    pub g2: G2Point,
    /// The setup secret times the generator of the second group.
    pub xg2: G2Point,
    /// Independent base point of the Pedersen commitment.
    pub h: G1Point,
    /// Powers of the setup secret in the first group.
    pub ck: CommitKey,
}

/// What a prover sends to a verifier.
pub struct Proof {
    /// Pedersen commitment to the prover's value.
    pub cm: G1Point,
    /// Blinded commitment to the linear factor vanishing at the index.
    pub z_comm: G2Point,
    /// Blinded commitment to the quotient polynomial.
    pub t_comm: G1Point,
    /// Commitment that ties the Pedersen opening to the rest.
    pub s_comm: G2Point,
}

#[derive(Debug, PartialEq, Eq)]
pub enum SetupError {
    /// No evaluation domain of the needed size exists.
    DomainUnavailable,
}

#[derive(Debug, PartialEq, Eq)]
pub enum ProveError {
    /// The index is not below the size of the evaluation domain.
    IndexOutOfDomain,
    /// The blinding scalar `a` is zero, so it has no inverse.
    ZeroBlinding,
}

impl Setup {
    /// The commitment key is long enough to commit to the quotient and to the
    /// interpolated vector.
    pub open spec fn wf(&self) -> bool {
        2 * domain_size_of(self.domain) + 3 <= self.ck.powers_of_g@.len()
    }

    /// Number of elements of the evaluation domain.
    pub fn domain_size(&self) -> (r: usize)
        ensures
            r == domain_size_of(self.domain),
    {
        domain_size(&self.domain)
    }
}

impl Proof {
    /// Whether two proofs consist of the same four group elements.
    pub fn same_as(&self, other: &Proof) -> (r: bool)
        ensures
            r == (self.cm == other.cm && self.z_comm == other.z_comm && self.t_comm
                == other.t_comm && self.s_comm == other.s_comm),
    {
        self.cm.equals(&other.cm) && self.z_comm.equals(&other.z_comm) && self.t_comm.equals(
            &other.t_comm,
        ) && self.s_comm.equals(&other.s_comm)
    }
}

/// Size of the commitment key that `setup` trims to for a vector of `n`
/// entries over a domain of `size` elements.
pub open spec fn key_degree(n: nat, size: nat) -> nat {
    if n >= 2 * size + 3 {
        n
    } else {
        2 * size + 3
    }
}

/// The polynomial that takes the entries' values on the domain.
pub open spec fn vector_poly(d: EvalDomain, entries: Seq<Scalar>) -> Polynomial {
    poly_of(interpolation_of(d, entries))
}

/// `(C(X) - value) / (X - w^index)`.
pub open spec fn quotient(d: EvalDomain, entries: Seq<Scalar>, index: nat, value: Scalar) -> Polynomial {
    poly_div_of(
        poly_sub_of(vector_poly(d, entries), poly_of(seq![value])),
        poly_of(seq![scalar_neg_of(domain_element_of(d, index)), scalar_of_u64(1)]),
    )
}

/// `value * g1 + r * h`.
pub open spec fn pedersen(s: Setup, value: Scalar, r: Scalar) -> G1Point {
    g1_affine_of(g1_add_of(g1_scale_of(s.g1, value), g1_scale_of(s.h, r)))
}

/// `a * [x]_2 - (a * w^index) * g2`.
pub open spec fn selector(s: Setup, index: nat, a: Scalar) -> G2Point {
    g2_affine_of(
        g2_sub_of(
            g2_scale_of(s.xg2, a),
            g2_scale_of(s.g2, scalar_mul_of(a, domain_element_of(s.domain, index))),
        ),
    )
}

/// The proof that `prove_with_blinding` builds from its arguments.
pub open spec fn proof_of(
    s: Setup,
    entries: Seq<Scalar>,
    index: nat,
    value: Scalar,
    r: Scalar,
    a: Scalar,
    b: Scalar,
) -> Proof {
    let q_comm = commitment_of(quotient(s.domain, entries, index, value), s.ck.powers_of_g@);
    let z = selector(s, index, a);
    Proof {
        cm: pedersen(s, value, r),
        z_comm: z,
        t_comm: g1_affine_of(
            g1_add_of(g1_scale_of(q_comm, scalar_inv_of(a)), g1_scale_of(s.h, b)),
        ),
        s_comm: g2_affine_of(g2_sub_of(g2_scale_of(s.g2, scalar_neg_of(r)), g2_scale_of(z, b))),
    }
}

/// `e(C_commit - cm, g2) == e(T, z) * e(h, S)`.
pub open spec fn accepts(s: Setup, entries: Seq<Scalar>, p: Proof) -> bool {
    let c_comm = commitment_of(vector_poly(s.domain, entries), s.ck.powers_of_g@);
    let left = pairing_of(g1_affine_of(g1_sub_of(g1_lift_of(c_comm), g1_lift_of(p.cm))), s.g2);
    let right = target_mul_of(pairing_of(p.t_comm, p.z_comm), pairing_of(s.h, p.s_comm));
    left == right
}

/// Interpolates the entries over the domain: the polynomial of degree below
/// the domain's size that takes `entries[j]` at the `j`-th domain element.
pub fn vector_polynomial(domain: &EvalDomain, entries: &Vec<Scalar>) -> (r: Polynomial)
    ensures
        r == vector_poly(*domain, entries@),
        degree_of(r) + 1 <= domain_size_of(*domain) || degree_of(r) == 0,
{
    poly_from_coeffs(interpolate(domain, entries))
}

/// Builds the public parameters for vectors of `n` entries.
pub fn setup(n: usize) -> (r: Result<Setup, SetupError>)
    ensures
        n + 2 > MAX_DOMAIN ==> r is Err,
        n + 2 <= MAX_DOMAIN && 2 * MAX_DOMAIN + 4 <= usize::MAX ==> r is Ok,
        r matches Ok(s) ==> {
            &&& s.wf()
            &&& domain_size_of(s.domain) >= n + 2
            &&& is_power_of_two(domain_size_of(s.domain))
            &&& domain_size_of(s.domain) < 2 * (n + 2)
            &&& s.ck.powers_of_g@.len() == key_degree(n as nat, domain_size_of(s.domain)) + 1
            &&& s.g1 == s.ck.powers_of_g@[0]
        },
{
    if n as u64 > MAX_DOMAIN - 2 || n > usize::MAX - 2 {
        return Err(SetupError::DomainUnavailable);
    }
    let domain = match new_domain(n + 2) {
        Some(d) => d,
        None => {
            // unreachable: every size up to MAX_DOMAIN has a domain
            proof {
                assert(false);
            }
            return Err(SetupError::DomainUnavailable)
        }
    };
    let size = domain_size(&domain);
    if size > (usize::MAX - 4) / 2 {
        return Err(SetupError::DomainUnavailable);
    }
    let ck_size: usize = if n >= 2 * size + 3 { n } else { 2 * size + 3 };
    let srs_degree: usize = if n >= ck_size { n } else { ck_size };
    let srs = match universal_setup(srs_degree) {
        Ok(srs) => srs,
        Err(_) => {
            // unreachable: the degree is positive and below usize::MAX
            proof {
                assert(false);
            }
            return Err(SetupError::DomainUnavailable)
        }
    };
    let (ck, vk) = match trim(&srs, ck_size) {
        Ok(keys) => keys,
        Err(_) => {
            // unreachable: the string holds ck_size + 1 powers in both bases
            proof {
                assert(false);
            }
            return Err(SetupError::DomainUnavailable)
        }
    };
    let g1 = g1_copy(&ck.powers_of_g[0]);
    let h = random_g1_point();
    Ok(Setup { domain, g1, g2: vk.h, xg2: vk.beta_h, h, ck })
}

/// Builds a proof that `value` stands at `index` of `entries`, from the three
/// blinding scalars `r`, `a` and `b`.
pub fn prove_with_blinding(
    setup: &Setup,
    entries: &Vec<Scalar>,
    index: usize,
    value: &Scalar,
    r: &Scalar,
    a: &Scalar,
    b: &Scalar,
) -> (res: Result<Proof, ProveError>)
    requires
        setup.wf(),
    ensures
        (res matches Err(ProveError::IndexOutOfDomain)) <==> index >= domain_size_of(setup.domain),
        (res matches Err(ProveError::ZeroBlinding)) <==> index < domain_size_of(setup.domain)
            && is_zero_scalar(*a),
        res matches Ok(p) ==> p == proof_of(*setup, entries@, index as nat, *value, *r, *a, *b),
{
    let size = domain_size(&setup.domain);
    if index >= size {
        return Err(ProveError::IndexOutOfDomain);
    }
    let a_inv = match scalar_inverse(a) {
        Some(x) => x,
        None => return Err(ProveError::ZeroBlinding),
    };
    let cm = g1_affine(&g1_add(&g1_scale(&setup.g1, value), &g1_scale(&setup.h, r)));

    let c_poly = vector_polynomial(&setup.domain, entries);
    let v_coeffs = vec![scalar_copy(value)];
    proof {
        assert(v_coeffs@ =~= seq![*value]);
    }
    let v_poly = poly_from_coeffs(v_coeffs);
    let omega = domain_element(&setup.domain, index);
    let d_coeffs = vec![scalar_neg(&omega), scalar_from_u64(1)];
    proof {
        assert(d_coeffs@ =~= seq![scalar_neg_of(omega), scalar_of_u64(1)]);
    }
    let d_poly = poly_from_coeffs(d_coeffs);
    let q_poly = poly_div(&poly_sub(&c_poly, &v_poly), &d_poly);
    let q_comm = match commit(&q_poly, &setup.ck) {
        Ok(c) => c,
        Err(_) => {
            // unreachable: the key has more powers than the domain has elements
            proof {
                assert(false);
            }
            return Err(ProveError::IndexOutOfDomain)
        }
    };

    let t_comm = g1_affine(&g1_add(&g1_scale(&q_comm, &a_inv), &g1_scale(&setup.h, b)));
    let z_comm = g2_affine(
        &g2_sub(&g2_scale(&setup.xg2, a), &g2_scale(&setup.g2, &scalar_mul(a, &omega))),
    );
    let s_comm = g2_affine(&g2_sub(&g2_scale(&setup.g2, &scalar_neg(r)), &g2_scale(&z_comm, b)));
    Ok(Proof { cm, z_comm, t_comm, s_comm })
}

/// Builds a proof that `value` stands at `index` of `entries`, with fresh
/// blinding scalars.
pub fn prove(setup: &Setup, entries: &Vec<Scalar>, index: usize, value: &Scalar) -> (res: Result<
    Proof,
    ProveError,
>)
    requires
        setup.wf(),
    ensures
        (res matches Err(ProveError::IndexOutOfDomain)) <==> index >= domain_size_of(setup.domain),
        res matches Err(ProveError::ZeroBlinding) ==> index < domain_size_of(setup.domain),
        res matches Ok(p) ==> exists|r: Scalar, a: Scalar, b: Scalar|
            !is_zero_scalar(a) && p == proof_of(*setup, entries@, index as nat, *value, r, a, b),
{
    let r = random_scalar();
    let a = random_scalar();
    let b = random_scalar();
    let res = prove_with_blinding(setup, entries, index, value, &r, &a, &b);
    proof {
        if res is Ok {
            let p = res->Ok_0;
            assert(!is_zero_scalar(a) && p == proof_of(*setup, entries@, index as nat, *value, r, a, b));
        }
    }
    res
}

/// Checks a proof against the public vector.
pub fn verify(setup: &Setup, entries: &Vec<Scalar>, proof: &Proof) -> (r: bool)
    requires
        setup.wf(),
    ensures
        r == accepts(*setup, entries@, *proof),
{
    let c_poly = vector_polynomial(&setup.domain, entries);
    let c_comm = match commit(&c_poly, &setup.ck) {
        Ok(c) => c,
        Err(_) => {
            // unreachable: the key has more powers than the domain has elements
            proof {
                assert(false);
            }
            return false
        }
    };
    let diff = g1_affine(&g1_sub(&g1_lift(&c_comm), &g1_lift(&proof.cm)));
    let left = pairing(&diff, &setup.g2);
    let right = target_mul(&pairing(&proof.t_comm, &proof.z_comm), &pairing(&setup.h, &proof.s_comm));
    target_eq(&left, &right)
}

} // verus!
