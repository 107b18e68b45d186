use positional_proof::algebra::{random_scalar, scalar_from_u64, Scalar};
use positional_proof::protocol::{setup, vector_polynomial};
use positional_proof::text::{format_poly_coeffs, format_poly_evals};

#[test]
fn evaluations_list_the_entries_then_padding() {
    let s = setup(6).unwrap();
    let entries: Vec<Scalar> = (0..6).map(|_| random_scalar()).collect();
    let poly = vector_polynomial(&s.domain, &entries);
    let mut expected: Vec<String> = entries.iter().map(|e| e.to_text()).collect();
    expected.push(scalar_from_u64(0).to_text());
    expected.push(scalar_from_u64(0).to_text());
    assert_eq!(format_poly_evals(&poly, &s.domain), expected.join("\n"));
}

#[test]
fn constant_vector_has_one_coefficient() {
    let s = setup(6).unwrap();
    let entries: Vec<Scalar> = (0..8).map(|_| scalar_from_u64(5)).collect();
    let poly = vector_polynomial(&s.domain, &entries);
    let text = format_poly_coeffs(&poly);
    assert_eq!(text, format!("{} * x^0", scalar_from_u64(5).to_text()));
    assert!(text.contains("05"));
}

#[test]
fn coefficient_lines_carry_their_exponents() {
    let s = setup(14).unwrap();
    assert_eq!(s.domain_size(), 16);
    let entries: Vec<Scalar> = (0..16).map(|_| random_scalar()).collect();
    let poly = vector_polynomial(&s.domain, &entries);
    let text = format_poly_coeffs(&poly);
    let lines: Vec<&str> = text.split('\n').collect();
    assert_eq!(lines.len(), 16);
    assert!(lines[0].ends_with(" * x^0"));
    assert!(lines[10].ends_with(" * x^10"));
    assert!(lines[15].ends_with(" * x^15"));
}

#[test]
fn zero_polynomial_lists_nothing() {
    let s = setup(1).unwrap();
    let entries: Vec<Scalar> = (0..3).map(|_| scalar_from_u64(0)).collect();
    let poly = vector_polynomial(&s.domain, &entries);
    assert_eq!(format_poly_coeffs(&poly), "");
}
