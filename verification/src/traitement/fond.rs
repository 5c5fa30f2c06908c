//! Chroma-key removal: pixels near a key colour become transparent, with a
//! linear fade between the tolerance and one and a half times the tolerance.
//!
//! Distances are Euclidean in RGB space. Every comparison and the rounding of
//! the faded alpha are carried out on squared integers, so the result is the
//! one the real-valued formula defines, with no rounding error.

use vstd::prelude::*;
use crate::arithmetique::{
    est_racine_entiere,
    lemme_carre_croissant,
    lemme_racine_existe,
    lemme_carre_strictement_croissant,
    racine_entiere,
};
use crate::traitement::tampon::{ImageRgba, VueImage};

verus! {

/// Squared distance between a colour and the key colour.
pub open spec fn distance_carree(r: u8, g: u8, b: u8, cible: [u8; 3]) -> int {
    (r - cible[0]) * (r - cible[0]) + (g - cible[1]) * (g - cible[1]) + (b - cible[2]) * (b
        - cible[2])
}

/// `k` is the integer nearest to `a * (d - t) / (t / 2)`, where `d` is the
/// square root of `d2`; a value half-way between two integers goes up.
///
/// Stated without the square root: `k - 1/2 <= 2a(d - t)/t < k + 1/2` is
/// `(4a + 2k - 1) t <= 4a d < (4a + 2k + 1) t`, and both sides are squared.
pub open spec fn est_alpha_arrondi(k: int, a: int, d2: int, t: int) -> bool {
    &&& ((4 * a + 2 * k - 1) * t) * ((4 * a + 2 * k - 1) * t) <= 16 * (a * a) * d2
    &&& 16 * (a * a) * d2 < ((4 * a + 2 * k + 1) * t) * ((4 * a + 2 * k + 1) * t)
}

/// Alpha inside the transition band: the alpha before removal times the fade
/// factor `(d - t) / (t / 2)`, rounded to the nearest integer.
pub open spec fn alpha_transition(a: int, d2: int, t: int) -> int {
    if a == 0 {
        0
    } else {
        choose|k: int| 0 <= k <= a && est_alpha_arrondi(k, a, d2, t)
    }
}

/// Alpha of a pixel after removal, from its alpha before, its squared
/// distance to the key colour and the tolerance.
pub open spec fn alpha_apres_suppression(alpha: u8, d2: int, tolerance: u8) -> int {
    let t = tolerance as int;
    if d2 <= t * t {
        0
    } else if 4 * d2 <= 9 * (t * t) {
        alpha_transition(alpha as int, d2, t)
    } else {
        alpha as int
    }
}

/// At most one integer is the rounded alpha.
pub proof fn lemme_arrondi_unique(k1: int, k2: int, a: int, d2: int, t: int)
    requires
        1 <= a,
        1 <= t,
        0 <= k1,
        0 <= k2,
        est_alpha_arrondi(k1, a, d2, t),
        est_alpha_arrondi(k2, a, d2, t),
    ensures
        k1 == k2,
{
    if k1 < k2 {
        assert(0 <= (4 * a + 2 * k1 + 1) * t <= (4 * a + 2 * k2 - 1) * t) by (nonlinear_arith)
            requires
                1 <= a,
                1 <= t,
                0 <= k1 < k2,
        ;
        lemme_carre_croissant((4 * a + 2 * k1 + 1) * t, (4 * a + 2 * k2 - 1) * t);
    } else if k2 < k1 {
        assert(0 <= (4 * a + 2 * k2 + 1) * t <= (4 * a + 2 * k1 - 1) * t) by (nonlinear_arith)
            requires
                1 <= a,
                1 <= t,
                0 <= k2 < k1,
        ;
        lemme_carre_croissant((4 * a + 2 * k2 + 1) * t, (4 * a + 2 * k1 - 1) * t);
    }
}

/// Inside the band the rounded alpha is found from an integer square root:
/// with `s` the root of `16 a² d2`, it is `(s - (4a - 1) t) / (2t)`.
pub proof fn lemme_arrondi_par_racine(a: int, d2: int, t: int, s: int)
    requires
        1 <= a,
        1 <= t,
        t * t < d2,
        4 * d2 <= 9 * (t * t),
        est_racine_entiere(s, 16 * (a * a) * d2),
    ensures
        (4 * a) * t <= s <= (6 * a) * t,
        0 <= (s - (4 * a - 1) * t) / (2 * t) <= a,
        est_alpha_arrondi((s - (4 * a - 1) * t) / (2 * t), a, d2, t),
        alpha_transition(a, d2, t) == (s - (4 * a - 1) * t) / (2 * t),
{
    let n = 16 * (a * a) * d2;
    let bas = (4 * a) * t;
    let haut = (6 * a) * t;
    assert(bas * bas == 16 * (a * a) * (t * t)) by (nonlinear_arith)
        requires
            bas == (4 * a) * t,
    ;
    assert(haut * haut == 36 * (a * a) * (t * t)) by (nonlinear_arith)
        requires
            haut == (6 * a) * t,
    ;
    assert(bas * bas <= n) by (nonlinear_arith)
        requires
            bas * bas == 16 * (a * a) * (t * t),
            n == 16 * (a * a) * d2,
            t * t < d2,
            1 <= a,
    ;
    assert(n <= haut * haut) by (nonlinear_arith)
        requires
            haut * haut == 36 * (a * a) * (t * t),
            n == 16 * (a * a) * d2,
            4 * d2 <= 9 * (t * t),
            1 <= a,
    ;
    assert(0 <= bas && 0 <= haut) by (nonlinear_arith)
        requires
            bas == (4 * a) * t,
            haut == (6 * a) * t,
            1 <= a,
            1 <= t,
    ;
    if s < bas {
        lemme_carre_croissant(s + 1, bas);
    }
    if s > haut {
        lemme_carre_strictement_croissant(haut, s);
    }
    let c = (4 * a - 1) * t;
    assert(c == bas - t) by (nonlinear_arith)
        requires
            c == (4 * a - 1) * t,
            bas == (4 * a) * t,
    ;
    let k = (s - c) / (2 * t);
    let reste = (s - c) % (2 * t);
    assert(s - c == (2 * t) * k + reste && 0 <= reste < 2 * t) by (nonlinear_arith)
        requires
            k == (s - c) / (2 * t),
            reste == (s - c) % (2 * t),
            1 <= t,
    ;
    assert(0 <= k) by (nonlinear_arith)
        requires
            s - c == (2 * t) * k + reste,
            0 <= reste < 2 * t,
            s - c >= t,
            1 <= t,
    ;
    assert(k <= a) by (nonlinear_arith)
        requires
            s - c == (2 * t) * k + reste,
            0 <= reste,
            s <= haut,
            haut == (6 * a) * t,
            c == (4 * a - 1) * t,
            1 <= t,
            1 <= a,
    ;
    let gauche = (4 * a + 2 * k - 1) * t;
    let droite = (4 * a + 2 * k + 1) * t;
    assert(gauche == c + (2 * t) * k && droite == c + (2 * t) * k + 2 * t) by (nonlinear_arith)
        requires
            gauche == (4 * a + 2 * k - 1) * t,
            droite == (4 * a + 2 * k + 1) * t,
            c == (4 * a - 1) * t,
    ;
    assert(0 <= gauche) by (nonlinear_arith)
        requires
            gauche == (4 * a + 2 * k - 1) * t,
            1 <= a,
            0 <= k,
            1 <= t,
    ;
    lemme_carre_croissant(gauche, s);
    lemme_carre_croissant(s + 1, droite);
    assert(est_alpha_arrondi(k, a, d2, t));
    let choisi = alpha_transition(a, d2, t);
    assert(0 <= choisi <= a && est_alpha_arrondi(choisi, a, d2, t));
    lemme_arrondi_unique(k, choisi, a, d2, t);
}

/// Alpha of one pixel after removal of the key colour.
pub fn alpha_sans_fond(pixel: [u8; 4], couleur_cible: [u8; 3], tolerance: u8) -> (alpha: u8)
    ensures
        alpha as int == alpha_apres_suppression(
            pixel[3],
            distance_carree(pixel[0], pixel[1], pixel[2], couleur_cible),
            tolerance,
        ),
{
    let dr: i64 = pixel[0] as i64 - couleur_cible[0] as i64;
    let dg: i64 = pixel[1] as i64 - couleur_cible[1] as i64;
    let db: i64 = pixel[2] as i64 - couleur_cible[2] as i64;
    assert(0 <= dr * dr <= 65025 && 0 <= dg * dg <= 65025 && 0 <= db * db <= 65025)
        by (nonlinear_arith)
        requires
            -255 <= dr <= 255,
            -255 <= dg <= 255,
            -255 <= db <= 255,
    ;
    let d2: u64 = (dr * dr + dg * dg + db * db) as u64;
    let t: u64 = tolerance as u64;
    let a: u64 = pixel[3] as u64;
    assert(t * t <= 65025) by (nonlinear_arith)
        requires
            0 <= t <= 255,
    ;
    if d2 <= t * t {
        0
    } else if 4 * d2 <= 9 * (t * t) {
        if a == 0 {
            0
        } else {
            assert(1 <= a * a <= 65025) by (nonlinear_arith)
                requires
                    1 <= a <= 255,
            ;
            assert(16 * (a * a) * d2 <= 16 * 65025 * 195075) by (nonlinear_arith)
                requires
                    1 <= a * a <= 65025,
                    0 <= d2 <= 195075,
            ;
            let n: u64 = 16 * (a * a) * d2;
            let s: u64 = racine_entiere(n);
            assert((4 * a) * t <= 4 * 255 * 255 && (4 * a - 1) * t <= 4 * 255 * 255)
                by (nonlinear_arith)
                requires
                    1 <= a <= 255,
                    0 <= t <= 255,
            ;
            proof {
                lemme_arrondi_par_racine(a as int, d2 as int, t as int, s as int);
            }
            let c: u64 = (4 * a - 1) * t;
            assert(c <= s) by (nonlinear_arith)
                requires
                    c == (4 * a - 1) * t,
                    (4 * a) * t <= s,
                    0 <= t,
            ;
            let k: u64 = (s - c) / (2 * t);
            k as u8
        }
    } else {
        pixel[3]
    }
}

/// The image after removal: every alpha is replaced by the one its colour
/// calls for, and nothing else changes.
pub open spec fn suppression_spec(image: VueImage, cible: [u8; 3], tolerance: u8) -> VueImage {
    VueImage {
        largeur: image.largeur,
        hauteur: image.hauteur,
        echantillons: Seq::new(
            image.echantillons.len(),
            |j: int|
                if j % 4 == 3 {
                    alpha_apres_suppression(
                        image.echantillons[j],
                        distance_carree(
                            image.echantillons[j - 3],
                            image.echantillons[j - 2],
                            image.echantillons[j - 1],
                            cible,
                        ),
                        tolerance,
                    ) as u8
                } else {
                    image.echantillons[j]
                },
        ),
    }
}

/// Makes the pixels close to `couleur_cible` transparent.
pub fn supprimer_couleur_fond(img: &mut ImageRgba, couleur_cible: [u8; 3], tolerance: u8)
    ensures
        final(img)@ == suppression_spec(old(img)@, couleur_cible, tolerance),
{
    let n: usize = img.nombre_pixels();
    let ghost avant = img@;
    let mut i: usize = 0;
    while i < n
        invariant
            0 <= i <= n,
            n == avant.nombre_pixels(),
            avant.bien_formee(),
            img@.largeur == avant.largeur,
            img@.hauteur == avant.hauteur,
            img@.echantillons.len() == avant.echantillons.len(),
            forall|j: int|
                0 <= j < 4 * i ==> img@.echantillons[j] == suppression_spec(
                    avant,
                    couleur_cible,
                    tolerance,
                ).echantillons[j],
            forall|j: int|
                4 * i <= j < avant.echantillons.len() ==> img@.echantillons[j]
                    == avant.echantillons[j],
        decreases n - i,
    {
        let pixel = img.pixel_au_rang(i);
        let alpha = alpha_sans_fond(pixel, couleur_cible, tolerance);
        proof {
            assert(pixel[0] == img@.canal(i as int, 0));
            assert(pixel[1] == img@.canal(i as int, 1));
            assert(pixel[2] == img@.canal(i as int, 2));
            assert(pixel[3] == img@.canal(i as int, 3));
        }
        img.fixer_alpha_au_rang(i, alpha);
        i = i + 1;
    }
    assert(img@.echantillons =~= suppression_spec(avant, couleur_cible, tolerance).echantillons);
}

/// Squared distance between the colour of the pixel of rank `i` and the key
/// colour.
pub open spec fn distance_du_pixel(image: VueImage, i: int, cible: [u8; 3]) -> int {
    distance_carree(image.canal(i, 0), image.canal(i, 1), image.canal(i, 2), cible)
}

/// The pixel of rank `i` has exactly the key colour.
pub open spec fn a_la_couleur(image: VueImage, i: int, cible: [u8; 3]) -> bool {
    &&& image.canal(i, 0) == cible[0]
    &&& image.canal(i, 1) == cible[1]
    &&& image.canal(i, 2) == cible[2]
}

/// Removal is a map over pixels: it keeps the dimensions and the colours,
/// and the new alpha of a pixel depends on that pixel alone.
pub proof fn loi_suppression_par_pixel(image: VueImage, cible: [u8; 3], tolerance: u8, i: int)
    requires
        image.bien_formee(),
        0 <= i < image.nombre_pixels(),
    ensures
        suppression_spec(image, cible, tolerance).bien_formee(),
        suppression_spec(image, cible, tolerance).largeur == image.largeur,
        suppression_spec(image, cible, tolerance).hauteur == image.hauteur,
        forall|c: int|
            0 <= c < 3 ==> suppression_spec(image, cible, tolerance).canal(i, c) == image.canal(
                i,
                c,
            ),
        suppression_spec(image, cible, tolerance).alpha_rang(i) as int == alpha_apres_suppression(
            image.alpha_rang(i),
            distance_du_pixel(image, i, cible),
            tolerance,
        ),
        0 <= alpha_apres_suppression(
            image.alpha_rang(i),
            distance_du_pixel(image, i, cible),
            tolerance,
        ) <= image.alpha_rang(i),
{
    lemme_alpha_borne(image.alpha_rang(i), distance_du_pixel(image, i, cible), tolerance);
}

/// Removal never raises an alpha.
pub proof fn lemme_alpha_borne(alpha: u8, d2: int, tolerance: u8)
    ensures
        0 <= alpha_apres_suppression(alpha, d2, tolerance) <= alpha,
{
    let t = tolerance as int;
    let a = alpha as int;
    if t * t < d2 && 4 * d2 <= 9 * (t * t) && a != 0 {
        assert(t != 0) by (nonlinear_arith)
            requires
                t * t < d2,
                4 * d2 <= 9 * (t * t),
        ;
        let n = 16 * (a * a) * d2;
        assert(0 <= n) by (nonlinear_arith)
            requires
                n == 16 * (a * a) * d2,
                0 <= d2,
        ;
        let s = choose|s: int| est_racine_entiere(s, n);
        assert(est_racine_entiere(s, n)) by {
            lemme_racine_existe(n);
        }
        lemme_arrondi_par_racine(a, d2, t, s);
    }
}

/// With a tolerance of zero a pixel keeps its alpha unless its colour is
/// exactly the key colour; then its alpha becomes 0.
pub proof fn loi_tolerance_nulle(image: VueImage, cible: [u8; 3], i: int)
    requires
        image.bien_formee(),
        0 <= i < image.nombre_pixels(),
    ensures
        suppression_spec(image, cible, 0).alpha_rang(i) == (if a_la_couleur(image, i, cible) {
            0u8
        } else {
            image.alpha_rang(i)
        }),
        forall|c: int|
            0 <= c < 3 ==> suppression_spec(image, cible, 0).canal(i, c) == image.canal(i, c),
{
    loi_suppression_par_pixel(image, cible, 0, i);
    let dr = image.canal(i, 0) - cible[0];
    let dg = image.canal(i, 1) - cible[1];
    let db = image.canal(i, 2) - cible[2];
    assert(dr * dr >= 0 && dg * dg >= 0 && db * db >= 0) by (nonlinear_arith);
    assert(dr * dr == 0 ==> dr == 0) by (nonlinear_arith);
    assert(dg * dg == 0 ==> dg == 0) by (nonlinear_arith);
    assert(db * db == 0 ==> db == 0) by (nonlinear_arith);
}

/// The tolerance is a closed bound: a pixel whose distance to the key colour
/// is exactly the tolerance becomes fully transparent.
pub proof fn loi_distance_egale_tolerance(image: VueImage, cible: [u8; 3], tolerance: u8, i: int)
    requires
        image.bien_formee(),
        0 <= i < image.nombre_pixels(),
        distance_du_pixel(image, i, cible) == tolerance * tolerance,
    ensures
        suppression_spec(image, cible, tolerance).alpha_rang(i) == 0,
{
    loi_suppression_par_pixel(image, cible, tolerance, i);
}

/// At the outer edge of the transition band, a distance of exactly one and a
/// half times the tolerance, the fade factor is 1 and the alpha is kept.
///
/// With a tolerance of zero that distance is zero too, the pixel has the key
/// colour and becomes transparent: the law then holds only of a pixel that
/// was already transparent.
pub proof fn loi_bord_de_transition(image: VueImage, cible: [u8; 3], tolerance: u8, i: int)
    requires
        image.bien_formee(),
        0 <= i < image.nombre_pixels(),
        4 * distance_du_pixel(image, i, cible) == 9 * (tolerance * tolerance),
        tolerance > 0 || image.alpha_rang(i) == 0,
    ensures
        suppression_spec(image, cible, tolerance).alpha_rang(i) == image.alpha_rang(i),
{
    loi_suppression_par_pixel(image, cible, tolerance, i);
    let a = image.alpha_rang(i) as int;
    let t = tolerance as int;
    let d2 = distance_du_pixel(image, i, cible);
    if t > 0 && a > 0 {
        assert(t * t < d2) by (nonlinear_arith)
            requires
                4 * d2 == 9 * (t * t),
                t > 0,
        ;
        assert(est_alpha_arrondi(a, a, d2, t)) by (nonlinear_arith)
            requires
                4 * d2 == 9 * (t * t),
                t > 0,
                a > 0,
        {
            assert(((4 * a + 2 * a - 1) * t) * ((4 * a + 2 * a - 1) * t) == (36 * (a * a) - 12 * a
                + 1) * (t * t));
            assert(((4 * a + 2 * a + 1) * t) * ((4 * a + 2 * a + 1) * t) == (36 * (a * a) + 12 * a
                + 1) * (t * t));
            assert(16 * (a * a) * d2 == 36 * (a * a) * (t * t));
        }
        let choisi = alpha_transition(a, d2, t);
        assert(0 <= choisi <= a && est_alpha_arrondi(choisi, a, d2, t));
        lemme_arrondi_unique(a, choisi, a, d2, t);
    }
}

} // verus!
