//! Exact integer arithmetic used where a result is defined over the reals.

use vstd::prelude::*;

verus! {

/// `r` is the integer square root of `n`: the largest integer whose square
/// does not exceed `n`.
pub open spec fn est_racine_entiere(r: int, n: int) -> bool {
    &&& 0 <= r
    &&& r * r <= n
    &&& n < (r + 1) * (r + 1)
}

/// Squaring keeps the order of non-negative integers.
pub proof fn lemme_carre_croissant(a: int, b: int)
    requires
        0 <= a <= b,
    ensures
        a * a <= b * b,
{
    assert(a * a <= b * b) by (nonlinear_arith)
        requires
            0 <= a <= b,
    ;
}

/// Squaring keeps the strict order of non-negative integers.
pub proof fn lemme_carre_strictement_croissant(a: int, b: int)
    requires
        0 <= a < b,
    ensures
        a * a < b * b,
{
    assert(a * a < b * b) by (nonlinear_arith)
        requires
            0 <= a < b,
    ;
}

/// A number has at most one integer square root.
pub proof fn loi_racine_unique(r1: int, r2: int, n: int)
    requires
        est_racine_entiere(r1, n),
        est_racine_entiere(r2, n),
    ensures
        r1 == r2,
{
    if r1 < r2 {
        lemme_carre_croissant(r1 + 1, r2);
    } else if r2 < r1 {
        lemme_carre_croissant(r2 + 1, r1);
    }
}

/// Every non-negative integer has an integer square root.
pub proof fn lemme_racine_existe(n: int)
    requires
        0 <= n,
    ensures
        exists|s: int| est_racine_entiere(s, n),
    decreases n,
{
    if n == 0 {
        assert(est_racine_entiere(0, 0));
    } else {
        let m = n - 1;
        lemme_racine_existe(m);
        let s = choose|s: int| est_racine_entiere(s, m);
        if n < (s + 1) * (s + 1) {
            assert(est_racine_entiere(s, n));
        } else {
            assert((s + 2) * (s + 2) > (s + 1) * (s + 1)) by (nonlinear_arith)
                requires
                    0 <= s,
            ;
            assert(est_racine_entiere(s + 1, n));
        }
    }
}

/// Integer square root, by bisection.
pub fn racine_entiere(n: u64) -> (r: u64)
    ensures
        est_racine_entiere(r as int, n as int),
        r <= 0xFFFF_FFFF,
{
    let mut bas: u64 = 0;
    let mut haut: u64 = 0x1_0000_0000;
    assert(haut * haut > n) by (nonlinear_arith)
        requires
            haut == 0x1_0000_0000,
            n <= 0xFFFF_FFFF_FFFF_FFFF,
    ;
    while haut - bas > 1
        invariant
            bas < haut <= 0x1_0000_0000,
            bas * bas <= n,
            n < haut * haut,
        decreases haut - bas,
    {
        let milieu: u64 = bas + (haut - bas) / 2;
        assert(milieu * milieu <= 0xFFFF_FFFF * 0xFFFF_FFFF) by (nonlinear_arith)
            requires
                milieu <= 0xFFFF_FFFF,
        ;
        if milieu * milieu <= n {
            bas = milieu;
        } else {
            haut = milieu;
        }
    }
    bas
}

} // verus!
