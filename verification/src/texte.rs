//! Text building: decimal digits and the joining of pieces.

use vstd::prelude::*;
use vstd::arithmetic::div_mod::lemma_fundamental_div_mod;
use vstd::string::StringExecFns;

verus! {

/// The character of a decimal digit.
pub open spec fn chiffre(d: int) -> char {
    if d == 0 {
        '0'
    } else if d == 1 {
        '1'
    } else if d == 2 {
        '2'
    } else if d == 3 {
        '3'
    } else if d == 4 {
        '4'
    } else if d == 5 {
        '5'
    } else if d == 6 {
        '6'
    } else if d == 7 {
        '7'
    } else if d == 8 {
        '8'
    } else {
        '9'
    }
}

/// The decimal writing of a natural number, without leading zeros.
pub open spec fn decimal(n: nat) -> Seq<char>
    decreases n,
{
    if n < 10 {
        seq![chiffre(n as int)]
    } else {
        decimal(n / 10).push(chiffre((n % 10) as int))
    }
}

/// The one-character text of a decimal digit.
pub fn texte_du_chiffre(d: u8) -> (texte: &'static str)
    requires
        d < 10,
    ensures
        texte@ == seq![chiffre(d as int)],
{
    proof {
        reveal_strlit("0");
        reveal_strlit("1");
        reveal_strlit("2");
        reveal_strlit("3");
        reveal_strlit("4");
        reveal_strlit("5");
        reveal_strlit("6");
        reveal_strlit("7");
        reveal_strlit("8");
        reveal_strlit("9");
    }
    let texte = if d == 0 {
        "0"
    } else if d == 1 {
        "1"
    } else if d == 2 {
        "2"
    } else if d == 3 {
        "3"
    } else if d == 4 {
        "4"
    } else if d == 5 {
        "5"
    } else if d == 6 {
        "6"
    } else if d == 7 {
        "7"
    } else if d == 8 {
        "8"
    } else {
        "9"
    };
    assert(texte@ =~= seq![chiffre(d as int)]);
    texte
}

/// Writes a number in decimal.
pub fn en_decimal(n: u128) -> (texte: String)
    ensures
        texte@ == decimal(n as nat),
    decreases n,
{
    if n < 10 {
        String::from_str(texte_du_chiffre(n as u8))
    } else {
        let mut texte = en_decimal(n / 10);
        texte.append(texte_du_chiffre((n % 10) as u8));
        assert(texte@ =~= decimal((n / 10) as nat).push(chiffre((n % 10) as int)));
        texte
    }
}

/// The nearest integer to `num / den`; a value half-way between two integers
/// goes to the even one. Meant for `num >= 0` and `den > 0`.
pub open spec fn arrondi_pair(num: int, den: int) -> int {
    let q = num / den;
    let r = num % den;
    if 2 * r > den || (2 * r == den && q % 2 == 1) {
        q + 1
    } else {
        q
    }
}

/// Rounded division, ties to even.
pub fn diviser_arrondi_pair(num: u128, den: u128) -> (q: u128)
    requires
        den > 0,
        den <= 0x7FFF_FFFF_FFFF_FFFF_FFFF_FFFF_FFFF_FFFF,
    ensures
        q == arrondi_pair(num as int, den as int),
{
    let q: u128 = num / den;
    let r: u128 = num % den;
    // `2 * r > den` without leaving 128 bits: `r > den - r`.
    if r > den - r || (r == den - r && q % 2 == 1) {
        proof {
            lemma_fundamental_div_mod(num as int, den as int);
            assert(q <= den * q) by (nonlinear_arith)
                requires
                    den >= 1,
                    q >= 0,
            ;
        }
        q + 1
    } else {
        q
    }
}

} // verus!
