use macgyver::traitement::bords::adoucir_bords_transparence;
use macgyver::traitement::fond::{alpha_sans_fond, supprimer_couleur_fond};
use macgyver::traitement::tampon::ImageRgba;

fn image(largeur: u32, hauteur: u32, pixels: &[[u8; 4]]) -> ImageRgba {
    let mut brut = Vec::new();
    for pixel in pixels {
        brut.extend_from_slice(pixel);
    }
    ImageRgba::depuis_brut(largeur, hauteur, brut).expect("assez d'échantillons")
}

fn image_d_alphas(largeur: u32, hauteur: u32, alphas: &[u8]) -> ImageRgba {
    let pixels: Vec<[u8; 4]> = alphas.iter().map(|a| [10, 20, 30, *a]).collect();
    image(largeur, hauteur, &pixels)
}

fn alphas(img: &ImageRgba) -> Vec<u8> {
    let mut resultat = Vec::new();
    for y in 0..img.hauteur() {
        for x in 0..img.largeur() {
            resultat.push(img.alpha(x, y));
        }
    }
    resultat
}

#[test]
fn tampon_aux_bonnes_dimensions() {
    assert!(ImageRgba::depuis_brut(2, 2, vec![0; 15]).is_none());
    let exacte = ImageRgba::depuis_brut(2, 2, vec![7; 16]).unwrap();
    assert_eq!((exacte.largeur(), exacte.hauteur(), exacte.nombre_pixels()), (2, 2, 4));
    let tronquee = ImageRgba::depuis_brut(1, 2, vec![9; 11]).unwrap();
    assert_eq!(tronquee.en_brut(), vec![9; 8]);
    let vide = ImageRgba::depuis_brut(0, 5, Vec::new()).unwrap();
    assert_eq!(vide.nombre_pixels(), 0);
    let neuve = ImageRgba::nouvelle(3, 2).unwrap();
    assert_eq!(neuve.en_brut(), vec![0; 24]);
}

#[test]
fn tampon_lecture_et_ecriture() {
    let mut img = image(2, 2, &[[1, 2, 3, 4], [5, 6, 7, 8], [9, 10, 11, 12], [13, 14, 15, 16]]);
    assert_eq!(img.pixel_au_rang(2), [9, 10, 11, 12]);
    assert_eq!(img.alpha(1, 0), 8);
    assert_eq!(img.alpha(0, 1), 12);
    img.fixer_alpha(1, 1, 99);
    img.fixer_alpha_au_rang(0, 77);
    let copie = img.copie();
    assert_eq!(
        copie.en_brut(),
        vec![1, 2, 3, 77, 5, 6, 7, 8, 9, 10, 11, 12, 13, 14, 15, 99]
    );
    assert_eq!(img.echantillons().len(), 16);
}

#[test]
fn tolerance_nulle_ne_touche_que_la_couleur_exacte() {
    let cible = [10, 20, 30];
    let mut img = image(
        4,
        1,
        &[[10, 20, 30, 255], [10, 20, 31, 255], [11, 20, 30, 128], [10, 20, 30, 7]],
    );
    supprimer_couleur_fond(&mut img, cible, 0);
    assert_eq!(
        img.en_brut(),
        vec![10, 20, 30, 0, 10, 20, 31, 255, 11, 20, 30, 128, 10, 20, 30, 0]
    );
}

#[test]
fn distance_egale_a_la_tolerance_rend_transparent() {
    // (3, 4, 0) est à la distance 5 de l'origine.
    assert_eq!(alpha_sans_fond([3, 4, 0, 255], [0, 0, 0], 5), 0);
    assert_eq!(alpha_sans_fond([0, 0, 5, 200], [0, 0, 0], 5), 0);
    // (2, 3, 6) est à la distance 7 de l'origine.
    assert_eq!(alpha_sans_fond([102, 103, 106, 90], [100, 100, 100], 7), 0);
    assert_eq!(alpha_sans_fond([255, 255, 255, 255], [0, 0, 0], 255), 255);
}

#[test]
fn distance_d_une_fois_et_demie_la_tolerance_garde_l_alpha() {
    // (9, 12, 0) est à la distance 15 de l'origine.
    for alpha in [0u8, 1, 2, 100, 200, 254, 255] {
        assert_eq!(alpha_sans_fond([9, 12, 0, alpha], [0, 0, 0], 10), alpha);
        assert_eq!(alpha_sans_fond([0, 0, 3, alpha], [0, 0, 0], 2), alpha);
    }
}

#[test]
fn bande_de_transition_lineaire() {
    // Tolérance 10, distance 12 : facteur 0.4.
    assert_eq!(alpha_sans_fond([12, 0, 0, 255], [0, 0, 0], 10), 102);
    assert_eq!(alpha_sans_fond([12, 0, 0, 200], [0, 0, 0], 10), 80);
    assert_eq!(alpha_sans_fond([12, 0, 0, 0], [0, 0, 0], 10), 0);
    // Distance 13 : facteur 0.6.
    assert_eq!(alpha_sans_fond([0, 13, 0, 255], [0, 0, 0], 10), 153);
    // Distance 11 : facteur 0.2.
    assert_eq!(alpha_sans_fond([0, 0, 11, 255], [0, 0, 0], 10), 51);
    // Distance racine de 125, environ 11.18 : facteur 0.2361, 255 donne 60.2.
    assert_eq!(alpha_sans_fond([10, 5, 0, 255], [0, 0, 0], 10), 60);
    // Le fond peut être n'importe quelle couleur.
    assert_eq!(alpha_sans_fond([88, 100, 100, 255], [100, 100, 100], 10), 102);
}

#[test]
fn alpha_de_transition_arrondi_au_plus_proche() {
    // Tolérance 10, distance 12, facteur 0.4 : 3 donne 1.2, 4 donne 1.6, 1 donne 0.4.
    assert_eq!(alpha_sans_fond([12, 0, 0, 3], [0, 0, 0], 10), 1);
    assert_eq!(alpha_sans_fond([12, 0, 0, 4], [0, 0, 0], 10), 2);
    assert_eq!(alpha_sans_fond([12, 0, 0, 1], [0, 0, 0], 10), 0);
    // Tolérance 4, distance 5, facteur 0.5 : les moitiés montent.
    assert_eq!(alpha_sans_fond([3, 4, 0, 5], [0, 0, 0], 4), 3);
    assert_eq!(alpha_sans_fond([3, 4, 0, 255], [0, 0, 0], 4), 128);
    assert_eq!(alpha_sans_fond([3, 4, 0, 1], [0, 0, 0], 4), 1);
    assert_eq!(alpha_sans_fond([3, 4, 0, 2], [0, 0, 0], 4), 1);
}

#[test]
fn au_dela_de_la_bande_rien_ne_change() {
    assert_eq!(alpha_sans_fond([16, 0, 0, 255], [0, 0, 0], 10), 255);
    assert_eq!(alpha_sans_fond([255, 255, 255, 42], [0, 0, 0], 10), 42);
    assert_eq!(alpha_sans_fond([1, 0, 0, 42], [0, 0, 0], 0), 42);
    // Tolérance 255 : la bande va jusqu'à 382.5 ; la plus grande distance est d'environ 441.7.
    assert_eq!(alpha_sans_fond([255, 255, 255, 42], [0, 0, 0], 255), 42);
    // Distance racine de 2 x 255², environ 360.6 : facteur (360.62 - 255) / 127.5 = 0.8284.
    assert_eq!(alpha_sans_fond([255, 255, 0, 100], [0, 0, 0], 255), 83);
}

#[test]
fn suppression_garde_les_couleurs_et_les_dimensions() {
    let mut img = image(
        2,
        2,
        &[[0, 0, 0, 255], [12, 0, 0, 255], [9, 12, 0, 77], [200, 200, 200, 255]],
    );
    supprimer_couleur_fond(&mut img, [0, 0, 0], 10);
    assert_eq!((img.largeur(), img.hauteur()), (2, 2));
    assert_eq!(
        img.en_brut(),
        vec![0, 0, 0, 0, 12, 0, 0, 102, 9, 12, 0, 77, 200, 200, 200, 255]
    );
}

#[test]
fn image_de_la_couleur_du_fond_devient_transparente() {
    let pixels = vec![[255u8, 0, 255, 255]; 100 * 100];
    let mut img = image(100, 100, &pixels);
    supprimer_couleur_fond(&mut img, [255, 0, 255], 10);
    assert_eq!((img.largeur(), img.hauteur()), (100, 100));
    assert!(alphas(&img).iter().all(|a| *a == 0));
}

#[test]
fn rayon_nul_ne_change_rien() {
    let valeurs = [0u8, 1, 100, 254, 255, 50, 60, 70, 80];
    let mut img = image_d_alphas(3, 3, &valeurs);
    let avant = img.copie().en_brut();
    adoucir_bords_transparence(&mut img, 0);
    assert_eq!(img.en_brut(), avant);
}

#[test]
fn adoucissement_lit_l_image_d_avant() {
    let mut img = image_d_alphas(3, 3, &[100, 200, 100, 200, 50, 200, 100, 200, 100]);
    adoucir_bords_transparence(&mut img, 1);
    // Coin : (100 + 200 + 200 + 50) / 4 = 137. Bord : 850 / 6 = 141. Centre : 1250 / 9 = 138.
    // En moyennant sur place, le deuxième pixel lirait 137 à sa gauche et vaudrait 147.
    assert_eq!(alphas(&img), vec![137, 141, 137, 141, 138, 141, 137, 141, 137]);
}

#[test]
fn adoucissement_ne_touche_que_les_alphas_partiels() {
    let mut img = image_d_alphas(3, 3, &[0, 255, 0, 255, 100, 255, 0, 255, 0]);
    adoucir_bords_transparence(&mut img, 1);
    // Seul le centre est partiel : (4 x 255 + 100) / 9 = 124.
    assert_eq!(alphas(&img), vec![0, 255, 0, 255, 124, 255, 0, 255, 0]);
    let brut = img.en_brut();
    for pixel in brut.chunks(4) {
        assert_eq!(&pixel[0..3], &[10, 20, 30]);
    }
}

#[test]
fn adoucissement_coupe_la_fenetre_aux_bords() {
    let mut img = image_d_alphas(4, 1, &[10, 20, 30, 40]);
    adoucir_bords_transparence(&mut img, 2);
    // Fenêtres : [0, 2], [0, 3], [0, 3], [1, 3].
    assert_eq!(alphas(&img), vec![20, 25, 25, 30]);
    let mut large = image_d_alphas(2, 2, &[1, 2, 3, 5]);
    adoucir_bords_transparence(&mut large, 255);
    // 11 / 4 = 2, la moyenne est tronquée.
    assert_eq!(alphas(&large), vec![2, 2, 2, 2]);
}

#[test]
fn adoucissement_d_une_image_vide() {
    let mut vide = ImageRgba::depuis_brut(0, 0, Vec::new()).unwrap();
    adoucir_bords_transparence(&mut vide, 3);
    assert_eq!(vide.nombre_pixels(), 0);
    supprimer_couleur_fond(&mut vide, [0, 0, 0], 3);
    assert_eq!(vide.en_brut(), Vec::<u8>::new());
}

#[test]
fn alpha_de_transition_comme_la_formule_reelle() {
    let mut compares = 0u32;
    for tolerance in [1u8, 2, 3, 7, 10, 50, 100, 128, 200, 254, 255] {
        for r in (0u8..=255).step_by(5) {
            for g in [0u8, 1, 9, 64, 200, 255] {
                for alpha in [0u8, 1, 2, 3, 77, 128, 254, 255] {
                    let d2 = (r as f64).powi(2) + (g as f64).powi(2) + 16.0;
                    let d = d2.sqrt();
                    let t = tolerance as f64;
                    let attendu = if d <= t {
                        0.0
                    } else if d <= 1.5 * t {
                        let valeur = alpha as f64 * ((d - t) / (0.5 * t)).min(1.0);
                        let proche = (valeur + 0.5).floor();
                        if ((valeur + 0.5) - (valeur + 0.5).round()).abs() < 1e-6 {
                            // Trop près d'une moitié pour en juger en virgule flottante.
                            continue;
                        }
                        proche
                    } else {
                        alpha as f64
                    };
                    assert_eq!(
                        alpha_sans_fond([r, g, 4, alpha], [0, 0, 0], tolerance) as f64,
                        attendu,
                        "pixel ({}, {}, 4, {}), tolérance {}",
                        r,
                        g,
                        alpha,
                        tolerance
                    );
                    compares += 1;
                }
            }
        }
    }
    assert!(compares > 20_000);
}

#[test]
fn adoucissement_comme_la_moyenne_a_deux_tampons() {
    let (largeur, hauteur) = (9u32, 7u32);
    let mut etat: u32 = 99;
    let valeurs: Vec<u8> = (0..largeur * hauteur)
        .map(|_| {
            etat = etat.wrapping_mul(1664525).wrapping_add(1013904223);
            match etat >> 30 {
                0 => 0,
                1 => 255,
                _ => (etat >> 16) as u8,
            }
        })
        .collect();
    for rayon in [1u8, 2, 3, 8, 255] {
        let mut img = image_d_alphas(largeur, hauteur, &valeurs);
        adoucir_bords_transparence(&mut img, rayon);
        let mut attendu = valeurs.clone();
        for y in 0..hauteur as i64 {
            for x in 0..largeur as i64 {
                let alpha = valeurs[(y * largeur as i64 + x) as usize];
                if alpha == 0 || alpha == 255 {
                    continue;
                }
                let (mut somme, mut nombre) = (0u32, 0u32);
                for ny in (y - rayon as i64)..=(y + rayon as i64) {
                    for nx in (x - rayon as i64)..=(x + rayon as i64) {
                        if nx >= 0 && nx < largeur as i64 && ny >= 0 && ny < hauteur as i64 {
                            somme += valeurs[(ny * largeur as i64 + nx) as usize] as u32;
                            nombre += 1;
                        }
                    }
                }
                attendu[(y * largeur as i64 + x) as usize] = (somme / nombre) as u8;
            }
        }
        assert_eq!(alphas(&img), attendu, "rayon {}", rayon);
    }
}
