//! Edge softening: the alpha of each partially transparent pixel becomes the
//! mean alpha of its square neighbourhood.
//!
//! The neighbourhood is read in the image as it was before softening; the
//! result is written to a second buffer that replaces the image at the end.

use vstd::prelude::*;
use vstd::arithmetic::div_mod::{lemma_fundamental_div_mod, lemma_multiply_divide_lt};
use crate::traitement::tampon::{lemme_rang_dans_tampon, ImageRgba, VueImage};

verus! {

/// Sum of the alphas of row `y` over the columns `x0` (included) to `x1`
/// (excluded).
pub open spec fn somme_ligne(image: VueImage, y: int, x0: int, x1: int) -> int
    decreases x1 - x0,
{
    if x1 <= x0 {
        0
    } else {
        somme_ligne(image, y, x0, x1 - 1) + image.alpha(x1 - 1, y)
    }
}

/// Sum of the alphas over the columns `x0` to `x1` of the rows `y0` to `y1`
/// (upper bounds excluded).
pub open spec fn somme_bloc(image: VueImage, x0: int, x1: int, y0: int, y1: int) -> int
    decreases y1 - y0,
{
    if y1 <= y0 {
        0
    } else {
        somme_bloc(image, x0, x1, y0, y1 - 1) + somme_ligne(image, y1 - 1, x0, x1)
    }
}

/// First coordinate of the window of radius `r` around `c`.
pub open spec fn debut_fenetre(c: int, r: int) -> int {
    if c - r < 0 {
        0
    } else {
        c - r
    }
}

/// End (excluded) of the window of radius `r` around `c`, on an axis of
/// length `n`.
pub open spec fn fin_fenetre(c: int, r: int, n: int) -> int {
    if c + r + 1 > n {
        n
    } else {
        c + r + 1
    }
}

/// Mean alpha, rounded down, over the square of radius `r` around `(x, y)`,
/// cut to the image.
pub open spec fn moyenne_voisinage(image: VueImage, x: int, y: int, r: int) -> int {
    let x0 = debut_fenetre(x, r);
    let x1 = fin_fenetre(x, r, image.largeur as int);
    let y0 = debut_fenetre(y, r);
    let y1 = fin_fenetre(y, r, image.hauteur as int);
    somme_bloc(image, x0, x1, y0, y1) / ((x1 - x0) * (y1 - y0))
}

/// Alpha of the pixel at `(x, y)` after softening with the given radius.
pub open spec fn alpha_adouci(image: VueImage, x: int, y: int, rayon: u8) -> int {
    let a = image.alpha(x, y);
    if rayon > 0 && 0 < a < 255 {
        moyenne_voisinage(image, x, y, rayon as int)
    } else {
        a as int
    }
}

/// The image after softening: every alpha is the softened one, computed in
/// the image before softening, and nothing else changes.
pub open spec fn adoucissement_spec(image: VueImage, rayon: u8) -> VueImage {
    VueImage {
        largeur: image.largeur,
        hauteur: image.hauteur,
        echantillons: Seq::new(
            image.echantillons.len(),
            |j: int|
                if j % 4 == 3 {
                    alpha_adouci(
                        image,
                        (j / 4) % (image.largeur as int),
                        (j / 4) / (image.largeur as int),
                        rayon,
                    ) as u8
                } else {
                    image.echantillons[j]
                },
        ),
    }
}

/// A sum of alphas is at most 255 for each pixel.
pub proof fn lemme_somme_ligne_bornee(image: VueImage, y: int, x0: int, x1: int)
    requires
        x0 <= x1,
    ensures
        0 <= somme_ligne(image, y, x0, x1) <= 255 * (x1 - x0),
    decreases x1 - x0,
{
    if x1 > x0 {
        lemme_somme_ligne_bornee(image, y, x0, x1 - 1);
    }
}

/// A sum of alphas over a block is at most 255 for each pixel.
pub proof fn lemme_somme_bloc_bornee(image: VueImage, x0: int, x1: int, y0: int, y1: int)
    requires
        x0 <= x1,
        y0 <= y1,
    ensures
        0 <= somme_bloc(image, x0, x1, y0, y1) <= 255 * ((x1 - x0) * (y1 - y0)),
    decreases y1 - y0,
{
    if y1 > y0 {
        lemme_somme_bloc_bornee(image, x0, x1, y0, y1 - 1);
        lemme_somme_ligne_bornee(image, y1 - 1, x0, x1);
        assert((x1 - x0) * (y1 - y0) == (x1 - x0) * (y1 - 1 - y0) + (x1 - x0))
            by (nonlinear_arith);
    } else {
        assert((x1 - x0) * (y1 - y0) == 0) by (nonlinear_arith)
            requires
                y1 == y0,
        ;
    }
}

/// The mean alpha of a neighbourhood is an alpha: it lies between 0 and 255.
pub proof fn lemme_moyenne_bornee(image: VueImage, x: int, y: int, r: int)
    requires
        0 <= x < image.largeur,
        0 <= y < image.hauteur,
        0 <= r,
    ensures
        0 <= moyenne_voisinage(image, x, y, r) <= 255,
{
    let x0 = debut_fenetre(x, r);
    let x1 = fin_fenetre(x, r, image.largeur as int);
    let y0 = debut_fenetre(y, r);
    let y1 = fin_fenetre(y, r, image.hauteur as int);
    let n = (x1 - x0) * (y1 - y0);
    let s = somme_bloc(image, x0, x1, y0, y1);
    lemme_somme_bloc_bornee(image, x0, x1, y0, y1);
    assert(n >= 1) by (nonlinear_arith)
        requires
            n == (x1 - x0) * (y1 - y0),
            x1 - x0 >= 1,
            y1 - y0 >= 1,
    ;
    lemme_quotient_borne(s, n, 255);
}

/// If `0 <= s <= m * n` with `n` positive, then `0 <= s / n <= m`.
pub proof fn lemme_quotient_borne(s: int, n: int, m: int)
    requires
        0 <= s <= m * n,
        0 < n,
    ensures
        0 <= s / n <= m,
{
    lemma_fundamental_div_mod(s, n);
    let q = s / n;
    let reste = s % n;
    assert(0 <= reste < n);
    assert(q <= m) by (nonlinear_arith)
        requires
            s == n * q + reste,
            0 <= reste,
            s <= m * n,
            0 < n,
    ;
    assert(0 <= q) by (nonlinear_arith)
        requires
            s == n * q + reste,
            reste < n,
            0 <= s,
            0 < n,
    ;
}

/// A rank splits into a column and a row of the image.
pub proof fn lemme_rang_en_coordonnees(l: int, h: int, i: int)
    requires
        0 <= i < l * h,
        0 <= l,
        0 <= h,
    ensures
        0 < l,
        0 <= i % l < l,
        0 <= i / l < h,
        (i / l) * l + i % l == i,
{
    assert(0 < l) by (nonlinear_arith)
        requires
            0 <= i < l * h,
            0 <= l,
    ;
    lemma_fundamental_div_mod(i, l);
    lemma_multiply_divide_lt(i, l, h);
    let q = i / l;
    let reste = i % l;
    assert(0 <= q) by (nonlinear_arith)
        requires
            i == l * q + reste,
            reste < l,
            0 <= i,
            0 < l,
    ;
    assert(q * l == l * q) by (nonlinear_arith);
}

/// Softens the edges of the transparency of `img`.
pub fn adoucir_bords_transparence(img: &mut ImageRgba, rayon: u8)
    ensures
        final(img)@ == adoucissement_spec(old(img)@, rayon),
{
    let n: usize = img.nombre_pixels();
    let ghost avant = img@;
    if rayon == 0 {
        proof {
            loi_rayon_nul(avant);
        }
        return ;
    }
    let largeur: u64 = img.largeur() as u64;
    let hauteur: u64 = img.hauteur() as u64;
    let r: u64 = rayon as u64;
    let mut nouvelle = img.copie();
    let mut i: usize = 0;
    while i < n
        invariant
            0 <= i <= n,
            n == avant.nombre_pixels(),
            avant.bien_formee(),
            img@ == avant,
            largeur == avant.largeur,
            hauteur == avant.hauteur,
            largeur <= 0xFFFF_FFFF,
            hauteur <= 0xFFFF_FFFF,
            r == rayon,
            rayon > 0,
            nouvelle@.largeur == avant.largeur,
            nouvelle@.hauteur == avant.hauteur,
            nouvelle@.echantillons.len() == avant.echantillons.len(),
            forall|j: int|
                0 <= j < 4 * i ==> nouvelle@.echantillons[j] == adoucissement_spec(
                    avant,
                    rayon,
                ).echantillons[j],
            forall|j: int|
                4 * i <= j < avant.echantillons.len() ==> nouvelle@.echantillons[j]
                    == avant.echantillons[j],
        decreases n - i,
    {
        proof {
            lemme_rang_en_coordonnees(largeur as int, hauteur as int, i as int);
        }
        let x: u64 = (i as u64) % largeur;
        let y: u64 = (i as u64) / largeur;
        let a: u8 = img.alpha(x as u32, y as u32);
        assert(a == avant.echantillons[4 * i + 3]);
        if a > 0 && a < 255 {
            let x0: u64 = if x < r { 0 } else { x - r };
            let x1: u64 = if x + r + 1 > largeur { largeur } else { x + r + 1 };
            let y0: u64 = if y < r { 0 } else { y - r };
            let y1: u64 = if y + r + 1 > hauteur { hauteur } else { y + r + 1 };
            let mut total: u64 = 0;
            let mut compte: u64 = 0;
            let mut ny: u64 = y0;
            assert((x1 - x0) * (ny - y0) == 0) by (nonlinear_arith)
                requires
                    ny == y0,
            ;
            while ny < y1
                invariant
                    y0 <= ny <= y1 <= hauteur,
                    x0 < x1 <= largeur,
                    x1 - x0 <= 511,
                    y1 - y0 <= 511,
                    img@ == avant,
                    largeur == avant.largeur,
                    hauteur == avant.hauteur,
                    largeur <= 0xFFFF_FFFF,
                    hauteur <= 0xFFFF_FFFF,
                    total == somme_bloc(avant, x0 as int, x1 as int, y0 as int, ny as int),
                    compte == (x1 - x0) * (ny - y0),
                    total <= 255 * compte,
                    compte <= 511 * 511,
                decreases y1 - ny,
            {
                let mut nx: u64 = x0;
                let ghost total_avant = total;
                let ghost compte_avant = compte;
                assert(compte_avant <= 511 * 510) by (nonlinear_arith)
                    requires
                        compte_avant == (x1 - x0) * (ny - y0),
                        0 <= x1 - x0 <= 511,
                        0 <= ny - y0 <= 510,
                ;
                while nx < x1
                    invariant
                        y0 <= ny < y1 <= hauteur,
                        x0 <= nx <= x1 <= largeur,
                        x1 - x0 <= 511,
                        ny - y0 <= 510,
                        img@ == avant,
                        largeur == avant.largeur,
                        hauteur == avant.hauteur,
                        largeur <= 0xFFFF_FFFF,
                        hauteur <= 0xFFFF_FFFF,
                        total == total_avant + somme_ligne(
                            avant,
                            ny as int,
                            x0 as int,
                            nx as int,
                        ),
                        compte == compte_avant + (nx - x0),
                        compte_avant == (x1 - x0) * (ny - y0),
                        compte_avant <= 511 * 510,
                        total <= 255 * compte,
                    decreases x1 - nx,
                {
                    let voisin: u8 = img.alpha(nx as u32, ny as u32);
                    total = total + voisin as u64;
                    compte = compte + 1;
                    nx = nx + 1;
                }
                assert((x1 - x0) * (ny + 1 - y0) == (x1 - x0) * (ny - y0) + (x1 - x0))
                    by (nonlinear_arith);
                assert((x1 - x0) * (ny + 1 - y0) <= 511 * 511) by (nonlinear_arith)
                    requires
                        0 <= x1 - x0 <= 511,
                        0 <= ny + 1 - y0 <= 511,
                ;
                ny = ny + 1;
            }
            proof {
                lemme_moyenne_bornee(avant, x as int, y as int, r as int);
                assert(compte >= 1) by (nonlinear_arith)
                    requires
                        compte == (x1 - x0) * (y1 - y0),
                        x1 - x0 >= 1,
                        y1 - y0 >= 1,
                ;
            }
            let moyenne: u64 = total / compte;
            assert(moyenne == moyenne_voisinage(avant, x as int, y as int, r as int));
            nouvelle.fixer_alpha_au_rang(i, moyenne as u8);
        }
        proof {
            let j = 4 * i + 3;
            assert(j / 4 == i as int);
            assert(avant.alpha(x as int, y as int) == avant.echantillons[j]);
        }
        i = i + 1;
    }
    assert(nouvelle@.echantillons =~= adoucissement_spec(avant, rayon).echantillons);
    *img = nouvelle;
}

/// Softening is computed pixel by pixel in the image as it was: it keeps the
/// dimensions and the colours, and the new alpha of the pixel at `(x, y)` is
/// its softened alpha in the image before softening.
pub proof fn loi_adoucissement_par_pixel(image: VueImage, rayon: u8, x: int, y: int)
    requires
        image.bien_formee(),
        0 <= x < image.largeur,
        0 <= y < image.hauteur,
    ensures
        adoucissement_spec(image, rayon).bien_formee(),
        adoucissement_spec(image, rayon).largeur == image.largeur,
        adoucissement_spec(image, rayon).hauteur == image.hauteur,
        adoucissement_spec(image, rayon).alpha(x, y) as int == alpha_adouci(image, x, y, rayon),
        forall|c: int|
            0 <= c < 3 ==> adoucissement_spec(image, rayon).canal(image.rang(x, y), c)
                == image.canal(image.rang(x, y), c),
{
    let l = image.largeur as int;
    let i = image.rang(x, y);
    lemme_rang_dans_tampon(image.largeur, image.hauteur, x, y);
    vstd::arithmetic::div_mod::lemma_fundamental_div_mod_converse(i, l, y, x);
    let j = 4 * i + 3;
    assert(j / 4 == i);
    if rayon > 0 && 0 < image.alpha(x, y) < 255 {
        lemme_moyenne_bornee(image, x, y, rayon as int);
    }
}

/// Softening with a radius of zero changes nothing.
pub proof fn loi_rayon_nul(image: VueImage)
    requires
        image.bien_formee(),
    ensures
        adoucissement_spec(image, 0) == image,
{
    let apres = adoucissement_spec(image, 0);
    assert forall|j: int| 0 <= j < image.echantillons.len() implies apres.echantillons[j]
        == image.echantillons[j] by {
        if j % 4 == 3 {
            let i = j / 4;
            assert(0 <= i < image.largeur * image.hauteur);
            lemme_rang_en_coordonnees(image.largeur as int, image.hauteur as int, i);
        }
    }
    assert(apres.echantillons =~= image.echantillons);
}

} // verus!
