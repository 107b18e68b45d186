use positional_proof::algebra::{random_scalar, scalar_from_u64, Scalar};
use positional_proof::kzg::{trim, universal_setup, SrsError, TrimError};
use positional_proof::protocol::{
    prove, prove_with_blinding, setup, verify, ProveError, Setup, MAX_DOMAIN,
};

fn random_vector(n: usize) -> Vec<Scalar> {
    (0..n).map(|_| random_scalar()).collect()
}

fn scenario(n: usize) -> (Setup, Vec<Scalar>) {
    let s = setup(n).unwrap();
    (s, random_vector(n))
}

#[test]
fn completeness_at_index_47_of_100() {
    let (s, entries) = scenario(100);
    let value = entries[47].clone();
    let proof = prove(&s, &entries, 47, &value).unwrap();
    assert!(verify(&s, &entries, &proof));
}

#[test]
fn completeness_small_vectors_every_index() {
    for n in [1usize, 2, 5] {
        let (s, entries) = scenario(n);
        for i in 0..n {
            let proof = prove(&s, &entries, i, &entries[i].clone()).unwrap();
            assert!(verify(&s, &entries, &proof));
        }
    }
}

#[test]
fn tampered_entry_is_rejected() {
    let (s, mut entries) = scenario(100);
    let value = entries[47].clone();
    let proof = prove(&s, &entries, 47, &value).unwrap();
    entries[10] = random_scalar();
    assert!(!verify(&s, &entries, &proof));
}

#[test]
fn mismatched_value_is_rejected() {
    let (s, entries) = scenario(100);
    let value = entries[46].clone();
    let proof = prove(&s, &entries, 47, &value).unwrap();
    assert!(!verify(&s, &entries, &proof));
}

#[test]
fn proofs_of_same_witness_differ() {
    let (s, entries) = scenario(20);
    let value = entries[3].clone();
    let p1 = prove(&s, &entries, 3, &value).unwrap();
    let p2 = prove(&s, &entries, 3, &value).unwrap();
    assert!(!p1.cm.equals(&p2.cm));
    assert!(!p1.t_comm.equals(&p2.t_comm));
    assert!(!p1.s_comm.equals(&p2.s_comm));
    assert!(!p1.same_as(&p2));
    assert!(verify(&s, &entries, &p1));
    assert!(verify(&s, &entries, &p2));
}

#[test]
fn same_blinding_gives_same_proof() {
    let (s, entries) = scenario(10);
    let (r, a, b) = (random_scalar(), random_scalar(), random_scalar());
    let p1 = prove_with_blinding(&s, &entries, 4, &entries[4].clone(), &r, &a, &b).unwrap();
    let p2 = prove_with_blinding(&s, &entries, 4, &entries[4].clone(), &r, &a, &b).unwrap();
    assert!(p1.same_as(&p2));
    assert!(verify(&s, &entries, &p1));
}

#[test]
fn zero_blinding_is_an_error() {
    let (s, entries) = scenario(10);
    let r = random_scalar();
    let zero = scalar_from_u64(0);
    let res = prove_with_blinding(&s, &entries, 4, &entries[4].clone(), &r, &zero, &r);
    assert_eq!(res.err(), Some(ProveError::ZeroBlinding));
}

#[test]
fn index_outside_domain_is_an_error() {
    let (s, entries) = scenario(100);
    assert_eq!(s.domain_size(), 128);
    let res = prove(&s, &entries, 128, &entries[0].clone());
    assert_eq!(res.err(), Some(ProveError::IndexOutOfDomain));
    assert!(prove(&s, &entries, 127, &entries[0].clone()).is_ok());
}

#[test]
fn domain_size_covers_vector_plus_two() {
    for n in [1usize, 2, 6, 7, 30, 100] {
        let s = setup(n).unwrap();
        assert!(s.domain_size() >= n + 2);
    }
    assert_eq!(setup(6).unwrap().domain_size(), 8);
    assert_eq!(setup(7).unwrap().domain_size(), 16);
}

#[test]
fn key_length_follows_domain() {
    let s = setup(100).unwrap();
    assert_eq!(s.ck.powers_of_g.len(), 2 * 128 + 3 + 1);
    assert_eq!(s.ck.powers_of_gamma_g.len(), 2 * 128 + 3 + 1);
    assert!(s.g1.equals(&s.ck.powers_of_g[0]));
}

#[test]
fn oversized_vector_has_no_domain() {
    assert!(setup(MAX_DOMAIN as usize).is_err());
}

#[test]
fn trim_lengths() {
    let srs = universal_setup(8).unwrap();
    assert_eq!(srs.powers_of_g.len(), 9);
    let (ck, vk) = trim(&srs, 5).unwrap();
    assert_eq!(ck.powers_of_g.len(), 6);
    assert_eq!(ck.powers_of_gamma_g.len(), 6);
    assert!(vk.g.equals(&srs.powers_of_g[0]));
    assert!(vk.h.equals(&srs.h));
    let (ck, _) = trim(&srs, 1).unwrap();
    assert_eq!(ck.powers_of_g.len(), 3);
    let (ck, _) = trim(&srs, 0).unwrap();
    assert_eq!(ck.powers_of_g.len(), 1);
    let (ck, _) = trim(&srs, 8).unwrap();
    assert_eq!(ck.powers_of_g.len(), 9);
    assert_eq!(trim(&srs, 9).err(), Some(TrimError::DegreeTooLarge));
}

#[test]
fn universal_setup_degree_zero_is_an_error() {
    assert_eq!(universal_setup(0).err(), Some(SrsError::DegreeIsZero));
    assert_eq!(universal_setup(usize::MAX).err(), Some(SrsError::DegreeTooLarge));
}
