//! Human-readable listings of a polynomial's coefficients and evaluations.
use vstd::prelude::*;
use vstd::string::StringExecFns;
use crate::algebra::{
    coeffs_of, evals_of, poly_coeffs, poly_evals, scalar_text, scalar_text_of, EvalDomain,
    Polynomial, Scalar,
};

verus! {

/// The decimal digit `d`, for `d < 10`.
pub open spec fn digit_char(d: nat) -> char {
    if d == 0 { '0' }
    else if d == 1 { '1' }
    else if d == 2 { '2' }
    else if d == 3 { '3' }
    else if d == 4 { '4' }
    else if d == 5 { '5' }
    else if d == 6 { '6' }
    else if d == 7 { '7' }
    else if d == 8 { '8' }
    else { '9' }
}

/// The decimal notation of `n`, without leading zeros.
pub open spec fn decimal(n: nat) -> Seq<char>
    decreases n,
{
    if n < 10 {
        seq![digit_char(n)]
    } else {
        decimal(n / 10).push(digit_char(n % 10))
    }
}

/// The lines joined with a newline between each two.
pub open spec fn join_lines(lines: Seq<Seq<char>>) -> Seq<char>
    decreases lines.len(),
{
    if lines.len() == 0 {
        Seq::empty()
    } else if lines.len() == 1 {
        lines[0]
    } else {
        join_lines(lines.drop_last()) + seq!['\n'] + lines.last()
    }
}

/// `"<c> * x^<i>"`.
pub open spec fn term_line(c: Scalar, i: nat) -> Seq<char> {
    scalar_text_of(c) + seq![' ', '*', ' ', 'x', '^'] + decimal(i)
}

/// One line per coefficient of `p`.
pub open spec fn coeff_lines(p: Polynomial) -> Seq<Seq<char>> {
    Seq::new(coeffs_of(p).len(), |i: int| term_line(coeffs_of(p)[i], i as nat))
}

/// One line per evaluation of `p` over `d`.
pub open spec fn eval_lines(p: Polynomial, d: EvalDomain) -> Seq<Seq<char>> {
    evals_of(p, d).map_values(|c: Scalar| scalar_text_of(c))
}

/// Relies on `Display` for `usize`: decimal notation.
#[verifier::external_body]
fn usize_text(n: usize) -> (r: String)
    ensures
        r@ == decimal(n as nat),
{
    format!("{}", n)
}

/// Appends `line` to `out`, after a newline unless `out` holds no line yet.
fn push_line(out: &mut String, lines: Ghost<Seq<Seq<char>>>, first: bool, line: &String)
    requires
        old(out)@ == join_lines(lines@),
        first == (lines@.len() == 0),
    ensures
        final(out)@ == join_lines(lines@.push(line@)),
{
    proof {
        reveal_strlit("\n");
        assert(lines@.push(line@).drop_last() =~= lines@);
    }
    if !first {
        out.append("\n");
    }
    out.append(line.as_str());
}

/// Lists the coefficients of `poly`, one `"<c> * x^<i>"` per line.
pub fn format_poly_coeffs(poly: &Polynomial) -> (r: String)
    ensures
        r@ == join_lines(coeff_lines(*poly)),
{
    let coeffs = poly_coeffs(poly);
    let mut out = String::new();
    let mut i: usize = 0;
    while i < coeffs.len()
        invariant
            coeffs@ == coeffs_of(*poly),
            i <= coeffs@.len(),
            out@ == join_lines(coeff_lines(*poly).take(i as int)),
        decreases coeffs@.len() - i,
    {
        let mut line = scalar_text(&coeffs[i]);
        line.append(" * x^");
        let index = usize_text(i);
        line.append(index.as_str());
        proof {
            reveal_strlit(" * x^");
            assert(line@ =~= term_line(coeffs@[i as int], i as nat));
            assert(coeff_lines(*poly).take(i as int).push(line@) =~= coeff_lines(*poly).take(
                i + 1,
            ));
        }
        push_line(&mut out, Ghost(coeff_lines(*poly).take(i as int)), i == 0, &line);
        i = i + 1;
    }
    proof {
        assert(coeff_lines(*poly).take(i as int) =~= coeff_lines(*poly));
    }
    out
}

/// Lists the values of `poly` over `domain`, one per line.
pub fn format_poly_evals(poly: &Polynomial, domain: &EvalDomain) -> (r: String)
    ensures
        r@ == join_lines(eval_lines(*poly, *domain)),
{
    let evals = poly_evals(poly, domain);
    let mut out = String::new();
    let mut i: usize = 0;
    while i < evals.len()
        invariant
            evals@ == evals_of(*poly, *domain),
            i <= evals@.len(),
            out@ == join_lines(eval_lines(*poly, *domain).take(i as int)),
        decreases evals@.len() - i,
    {
        let line = scalar_text(&evals[i]);
        proof {
            assert(eval_lines(*poly, *domain).take(i as int).push(line@) =~= eval_lines(
                *poly,
                *domain,
            ).take(i + 1));
        }
        push_line(&mut out, Ghost(eval_lines(*poly, *domain).take(i as int)), i == 0, &line);
        i = i + 1;
    }
    proof {
        assert(eval_lines(*poly, *domain).take(i as int) =~= eval_lines(*poly, *domain));
    }
    out
}

} // verus!
