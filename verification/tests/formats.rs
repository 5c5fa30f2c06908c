use macgyver::commandes::images::{
    detecter_format_image, etiquette_selon_extension, format_selon_nom, obtenir_formats_supportes,
    parser_couleur_hex, resoudre_format_sortie, Pourcentage,
};
use macgyver::commandes::images::FormatSortie;
use macgyver::erreurs::ErreurApplication;

fn message_de_validation<T>(resultat: Result<T, ErreurApplication>) -> String {
    match resultat {
        Err(ErreurApplication::Validation { message }) => message,
        Err(_) => panic!("une erreur de validation était attendue"),
        Ok(_) => panic!("un échec était attendu"),
    }
}

#[test]
fn test_detecter_format_image() {
    assert_eq!(detecter_format_image("test.jpg").unwrap(), "JPEG");
    assert_eq!(detecter_format_image("test.png").unwrap(), "PNG");
    assert_eq!(detecter_format_image("test.webp").unwrap(), "WebP");
}

#[test]
fn chaque_extension_a_son_format() {
    assert_eq!(detecter_format_image("a.jpg").unwrap(), "JPEG");
    assert_eq!(detecter_format_image("a.jpeg").unwrap(), "JPEG");
    assert_eq!(detecter_format_image("a.png").unwrap(), "PNG");
    assert_eq!(detecter_format_image("a.webp").unwrap(), "WebP");
    assert_eq!(detecter_format_image("a.bmp").unwrap(), "BMP");
    assert_eq!(detecter_format_image("a.tiff").unwrap(), "TIFF");
    assert_eq!(detecter_format_image("a.tif").unwrap(), "TIFF");
    assert_eq!(detecter_format_image("a.gif").unwrap(), "GIF");
}

#[test]
fn la_casse_de_l_extension_ne_compte_pas() {
    assert_eq!(detecter_format_image("PHOTO.JPG").unwrap(), "JPEG");
    assert_eq!(detecter_format_image("photo.JpEg").unwrap(), "JPEG");
    assert_eq!(detecter_format_image("dossier/photo.PNG").unwrap(), "PNG");
    assert_eq!(detecter_format_image("x.Tif").unwrap(), "TIFF");
}

#[test]
fn seule_la_derniere_extension_compte() {
    assert_eq!(detecter_format_image("archive.png.jpg").unwrap(), "JPEG");
    assert_eq!(detecter_format_image("dossier.gif/photo.bmp").unwrap(), "BMP");
    assert_eq!(detecter_format_image(".cache.webp").unwrap(), "WebP");
}

#[test]
fn extension_inconnue_refusee() {
    assert_eq!(
        message_de_validation(detecter_format_image("document.pdf")),
        "Extension de fichier non reconnue : pdf"
    );
    assert_eq!(
        message_de_validation(detecter_format_image("image.PnG2")),
        "Extension de fichier non reconnue : PnG2"
    );
    assert_eq!(
        message_de_validation(detecter_format_image("image.")),
        "Extension de fichier non reconnue : "
    );
}

#[test]
fn extension_absente_refusee() {
    assert_eq!(
        message_de_validation(detecter_format_image("sans_extension")),
        "Impossible de déterminer le format du fichier"
    );
    assert_eq!(
        message_de_validation(detecter_format_image(".png")),
        "Impossible de déterminer le format du fichier"
    );
    assert_eq!(
        message_de_validation(detecter_format_image("dossier.png/fichier")),
        "Impossible de déterminer le format du fichier"
    );
    assert_eq!(
        message_de_validation(detecter_format_image("")),
        "Impossible de déterminer le format du fichier"
    );
}

#[test]
fn etiquette_d_une_extension_en_minuscules() {
    assert_eq!(etiquette_selon_extension("jpg"), Some("JPEG"));
    assert_eq!(etiquette_selon_extension("tif"), Some("TIFF"));
    assert_eq!(etiquette_selon_extension("JPG"), None);
    assert_eq!(etiquette_selon_extension(""), None);
}

#[test]
fn formats_supportes_dans_l_ordre() {
    assert_eq!(
        obtenir_formats_supportes().unwrap(),
        vec!["JPEG", "PNG", "WebP", "BMP", "TIFF", "GIF"]
    );
}

#[test]
fn format_de_sortie_reconnu() {
    assert_eq!(resoudre_format_sortie("jpeg").unwrap(), FormatSortie::Jpeg);
    assert_eq!(resoudre_format_sortie("JPG").unwrap(), FormatSortie::Jpeg);
    assert_eq!(resoudre_format_sortie("Png").unwrap(), FormatSortie::Png);
    assert_eq!(resoudre_format_sortie("WEBP").unwrap(), FormatSortie::WebP);
    assert_eq!(resoudre_format_sortie("bmp").unwrap(), FormatSortie::Bmp);
    assert_eq!(resoudre_format_sortie("tiff").unwrap(), FormatSortie::Tiff);
    assert_eq!(resoudre_format_sortie("gif").unwrap(), FormatSortie::Gif);
}

#[test]
fn format_de_sortie_refuse() {
    assert_eq!(
        message_de_validation(resoudre_format_sortie("tif")),
        "Format non supporté : tif"
    );
    assert_eq!(
        message_de_validation(resoudre_format_sortie("Svg")),
        "Format non supporté : Svg"
    );
    assert_eq!(message_de_validation(resoudre_format_sortie("")), "Format non supporté : ");
    assert_eq!(format_selon_nom("PNG"), None);
}

#[test]
fn couleur_avec_ou_sans_diese() {
    assert_eq!(parser_couleur_hex("#FFFFFF").unwrap(), [255, 255, 255]);
    assert_eq!(parser_couleur_hex("000000").unwrap(), [0, 0, 0]);
    assert_eq!(parser_couleur_hex("#1a2B3c").unwrap(), [0x1a, 0x2b, 0x3c]);
    assert_eq!(parser_couleur_hex("##00ff7F").unwrap(), [0, 255, 127]);
    assert_eq!(parser_couleur_hex("#09afAF").unwrap(), [0x09, 0xaf, 0xaf]);
}

#[test]
fn couleur_de_mauvaise_longueur() {
    for texte in ["", "#", "#FFF", "#FFFFF", "#FFFFFFF", "FFFFFF#", " #FFFFFF", "#FFFFFF "] {
        assert_eq!(
            message_de_validation(parser_couleur_hex(texte)),
            "La couleur doit être au format #RRGGBB",
            "pour {:?}",
            texte
        );
    }
}

#[test]
fn couleur_avec_autre_chose_que_des_chiffres_hexadecimaux() {
    for texte in ["#GGGGGG", "#12345g", "#+1+2+3", "#-12345", "#12 456", "aé123", "#é1234"] {
        assert_eq!(
            message_de_validation(parser_couleur_hex(texte)),
            "Couleur hexadécimale invalide",
            "pour {:?}",
            texte
        );
    }
}

#[test]
fn reduction_de_taille() {
    assert_eq!(Pourcentage::reduction(1000, 400).dixiemes, 600);
    assert_eq!(Pourcentage::reduction(1000, 400).texte(), "60.0");
    assert_eq!(Pourcentage::reduction(0, 400).dixiemes, 0);
    assert_eq!(Pourcentage::reduction(0, 0).texte(), "0.0");
    assert_eq!(Pourcentage::reduction(1000, 1000).dixiemes, 0);
    assert_eq!(Pourcentage::reduction(3, 2).dixiemes, 333);
    assert_eq!(Pourcentage::reduction(3, 1).dixiemes, 667);
    assert_eq!(Pourcentage::reduction(1000, 1250).dixiemes, -250);
    assert_eq!(Pourcentage::reduction(1000, 1250).texte(), "-25.0");
    assert_eq!(Pourcentage::reduction(8, 9).texte(), "-12.5");
    assert_eq!(Pourcentage::reduction(1, u64::MAX).dixiemes, -18446744073709551614000);
    assert_eq!(Pourcentage::reduction(u64::MAX, 0).texte(), "100.0");
    assert_eq!(Pourcentage { dixiemes: -7 }.texte(), "-0.7");
    assert_eq!(
        Pourcentage { dixiemes: i128::MIN }.texte(),
        "-17014118346046923173168730371588410572.8"
    );
    assert_eq!(
        Pourcentage { dixiemes: i128::MAX }.texte(),
        "17014118346046923173168730371588410572.7"
    );
}

#[test]
fn reduction_a_mi_chemin_va_au_dixieme_pair() {
    // 1/8000 = 0.0125 %, 3/8000 = 0.0375 % : ni l'un ni l'autre à mi-chemin.
    assert_eq!(Pourcentage::reduction(8000, 7999).dixiemes, 0);
    // 1/2000 = 0.05 % est à mi-chemin entre 0.0 et 0.1.
    assert_eq!(Pourcentage::reduction(2000, 1999).dixiemes, 0);
    // 3/2000 = 0.15 % est à mi-chemin entre 0.1 et 0.2.
    assert_eq!(Pourcentage::reduction(2000, 1997).dixiemes, 2);
    assert_eq!(Pourcentage::reduction(2000, 2003).dixiemes, -2);
    assert_eq!(Pourcentage::reduction(2000, 1995).dixiemes, 2);
}
