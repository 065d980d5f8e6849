use vstd::prelude::*;
use crate::primitives::ids::DaoId;
use crate::primitives::types::{DoAsEnsureOrigin, MemberCount, Policy, Proportion};

verus! {

/// The backing behind a decision: a one-shot authorization token.
///
/// A token is consumed by the call it authorizes. It is neither `Clone` nor
/// `Copy`, so a captured token cannot be presented a second time.
#[derive(Debug, PartialEq, Eq)]
pub enum RawOrigin {
    /// Condoned by a number of members of the collective out of a total.
    Members(DaoId, MemberCount, MemberCount),
    /// Condoned by a single member of the collective.
    Member(DaoId),
    /// Condoned by the DAO's root.
    Root(DaoId),
}

impl RawOrigin {
    /// The DAO that the token speaks for.
    pub open spec fn spec_dao(self) -> DaoId {
        match self {
            RawOrigin::Members(d, _, _) => d,
            RawOrigin::Member(d) => d,
            RawOrigin::Root(d) => d,
        }
    }

    /// The DAO that the token speaks for.
    pub fn dao(&self) -> (r: DaoId)
        ensures
            r == self.spec_dao(),
    {
        match self {
            RawOrigin::Members(d, _, _) => *d,
            RawOrigin::Member(d) => *d,
            RawOrigin::Root(d) => *d,
        }
    }
}

/// Whether `token` satisfies `policy` for `dao`.
///
/// The root of the DAO satisfies every policy. A share is compared by cross
/// multiplication, so nothing is rounded.
pub open spec fn spec_eval(policy: Policy, token: RawOrigin, dao: DaoId) -> bool {
    token.spec_dao() == dao && match token {
        RawOrigin::Root(_) => true,
        RawOrigin::Member(_) => policy is Member,
        RawOrigin::Members(_, a, b) => match policy {
            DoAsEnsureOrigin::Proportion(Proportion::MoreThan(n, d)) => a * d > n * b,
            DoAsEnsureOrigin::Proportion(Proportion::AtLeast(n, d)) => a * d >= n * b,
            DoAsEnsureOrigin::Members(n) => a >= n,
            _ => false,
        },
    }
}

/// The product of two counts, in a type that holds every such product.
fn wide_mul(x: MemberCount, y: MemberCount) -> (r: u64)
    ensures
        r == x * y,
{
    assert(x * y <= 0xffff_ffff * 0xffff_ffff) by (nonlinear_arith)
        requires
            0 <= x <= 0xffff_ffff,
            0 <= y <= 0xffff_ffff,
    ;
    (x as u64) * (y as u64)
}

/// Decides whether `token` satisfies `policy` for `dao`.
pub fn eval(policy: &Policy, token: &RawOrigin, dao: DaoId) -> (r: bool)
    ensures
        r == spec_eval(*policy, *token, dao),
{
    if token.dao().0 != dao.0 {
        return false;
    }
    match token {
        RawOrigin::Root(_) => true,
        RawOrigin::Member(_) => match policy {
            DoAsEnsureOrigin::Member => true,
            _ => false,
        },
        RawOrigin::Members(_, a, b) => match policy {
            DoAsEnsureOrigin::Proportion(Proportion::MoreThan(n, d)) => {
                wide_mul(*a, *d) > wide_mul(*n, *b)
            },
            DoAsEnsureOrigin::Proportion(Proportion::AtLeast(n, d)) => {
                wide_mul(*a, *d) >= wide_mul(*n, *b)
            },
            DoAsEnsureOrigin::Members(n) => *a >= *n,
            _ => false,
        },
    }
}

/// The product of two integers, taken as a real, is the product of the reals.
proof fn lemma_product_as_real(x: int, y: int)
    ensures
        (x * y) as real == (x as real) * (y as real),
{
    assert((x * y) as real == (x as real) * (y as real)) by (nonlinear_arith);
}

/// A strict-share policy accepts `a` approvals out of `b` exactly when the
/// fraction `a / b` exceeds the fraction `n / d`, for every positive
/// `a`, `b`, `n`, `d` that the types can hold.
pub proof fn lemma_more_than_is_fraction_order(
    dao: DaoId,
    n: MemberCount,
    d: MemberCount,
    a: MemberCount,
    b: MemberCount,
)
    requires
        a > 0,
        b > 0,
        n > 0,
        d > 0,
    ensures
        spec_eval(
            DoAsEnsureOrigin::Proportion(Proportion::MoreThan(n, d)),
            RawOrigin::Members(dao, a, b),
            dao,
        ) == ((a as real) / (b as real) > (n as real) / (d as real)),
{
    let ar = a as real;
    let br = b as real;
    let nr = n as real;
    let dr = d as real;
    lemma_product_as_real(a as int, d as int);
    lemma_product_as_real(n as int, b as int);
    assert((a * d > n * b) == (ar * dr > nr * br));
    assert((ar * dr > nr * br) == (ar / br > nr / dr)) by (nonlinear_arith)
        requires
            br > 0real,
            dr > 0real,
    ;
}

/// An at-least policy accepts `a` approvals out of `b` exactly when the
/// fraction `a / b` is no less than the fraction `n / d`.
pub proof fn lemma_at_least_is_fraction_order(
    dao: DaoId,
    n: MemberCount,
    d: MemberCount,
    a: MemberCount,
    b: MemberCount,
)
    requires
        a > 0,
        b > 0,
        n > 0,
        d > 0,
    ensures
        spec_eval(
            DoAsEnsureOrigin::Proportion(Proportion::AtLeast(n, d)),
            RawOrigin::Members(dao, a, b),
            dao,
        ) == ((a as real) / (b as real) >= (n as real) / (d as real)),
{
    let ar = a as real;
    let br = b as real;
    let nr = n as real;
    let dr = d as real;
    lemma_product_as_real(a as int, d as int);
    lemma_product_as_real(n as int, b as int);
    assert((a * d >= n * b) == (ar * dr >= nr * br));
    assert((ar * dr >= nr * br) == (ar / br >= nr / dr)) by (nonlinear_arith)
        requires
            br > 0real,
            dr > 0real,
    ;
}

} // verus!
