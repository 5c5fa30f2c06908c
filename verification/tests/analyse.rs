use macgyver::commandes::analyse::{
    analyser_image, decrire_image, dire_analyse, obtenir_info_image,
};
use macgyver::commandes::source::{valider_image, LectureSource};
use macgyver::erreurs::ErreurApplication;

fn en_octets(format: image::ImageFormat) -> Vec<u8> {
    let img = image::DynamicImage::ImageRgb8(image::RgbImage::from_pixel(
        7,
        5,
        image::Rgb([1, 2, 3]),
    ));
    let mut tampon = std::io::Cursor::new(Vec::new());
    img.write_to(&mut tampon, format).expect("encodage");
    tampon.into_inner()
}

fn lecture(octets: Vec<u8>) -> LectureSource {
    LectureSource { existe: true, taille: Ok(octets.len() as u64), contenu: Ok(octets) }
}

#[test]
fn analyse_de_chaque_format() {
    let cas = [
        ("dossier/photo.jpg", image::ImageFormat::Jpeg, "JPEG"),
        ("dossier/photo.JPEG", image::ImageFormat::Jpeg, "JPEG"),
        ("dossier/photo.png", image::ImageFormat::Png, "PNG"),
        ("dossier/photo.webp", image::ImageFormat::WebP, "WebP"),
        ("dossier/photo.bmp", image::ImageFormat::Bmp, "BMP"),
        ("dossier/photo.tiff", image::ImageFormat::Tiff, "TIFF"),
        ("dossier/photo.tif", image::ImageFormat::Tiff, "TIFF"),
        ("dossier/photo.Gif", image::ImageFormat::Gif, "GIF"),
    ];
    for (chemin, format, etiquette) in cas {
        let octets = en_octets(format);
        let taille = octets.len() as u64;
        let info = analyser_image(chemin, &lecture(octets)).unwrap();
        assert_eq!(info.format, etiquette, "{}", chemin);
        assert_eq!(info.chemin, chemin);
        assert_eq!(info.nom, &chemin["dossier/".len()..]);
        assert_eq!((info.largeur, info.hauteur), (7, 5));
        assert_eq!(info.taille_octets, taille);
    }
}

#[test]
fn analyse_refuse_les_extensions_inconnues() {
    for (chemin, attendu) in [
        ("photo.pdf", "Extension de fichier non reconnue : pdf"),
        ("photo.jfif", "Extension de fichier non reconnue : jfif"),
        ("photo", "Impossible de déterminer le format du fichier"),
        ("photo.png/vue", "Impossible de déterminer le format du fichier"),
    ] {
        match analyser_image(chemin, &lecture(en_octets(image::ImageFormat::Png))) {
            Err(ErreurApplication::Validation { message }) => assert_eq!(message, attendu),
            _ => panic!("une erreur de validation était attendue pour {}", chemin),
        }
    }
}

#[test]
fn analyse_d_un_fichier_absent_ou_illisible() {
    let absente = LectureSource {
        existe: false,
        taille: Err("x".to_string()),
        contenu: Err("x".to_string()),
    };
    match analyser_image("a.png", &absente) {
        Err(ErreurApplication::Donnees { message }) => {
            assert_eq!(message, "Le fichier image n'existe pas")
        }
        _ => panic!("une erreur de données était attendue"),
    }
    let sans_taille = LectureSource {
        existe: true,
        taille: Err("accès refusé".to_string()),
        contenu: Ok(en_octets(image::ImageFormat::Png)),
    };
    match analyser_image("a.png", &sans_taille) {
        Err(ErreurApplication::Systeme { message }) => {
            assert_eq!(message, "Impossible de lire les métadonnées : accès refusé")
        }
        _ => panic!("une erreur système était attendue"),
    }
    let sans_contenu =
        LectureSource { existe: true, taille: Ok(3), contenu: Err("coupé".to_string()) };
    match analyser_image("a.png", &sans_contenu) {
        Err(ErreurApplication::Donnees { message }) => {
            assert_eq!(message, "Impossible de charger l'image : coupé")
        }
        _ => panic!("une erreur de données était attendue"),
    }
}

#[test]
fn analyse_d_un_contenu_indecodable() {
    match analyser_image("a.png", &lecture(en_octets(image::ImageFormat::Gif))) {
        Err(ErreurApplication::Donnees { message }) => {
            assert!(message.starts_with("Impossible de charger l'image : "))
        }
        _ => panic!("une erreur de données était attendue"),
    }
    assert!(analyser_image("a.png", &lecture(en_octets(image::ImageFormat::Png))).is_ok());
}

#[test]
fn description_selon_le_decodage() {
    let img = image::DynamicImage::ImageRgb8(image::RgbImage::new(11, 13));
    let info = decrire_image("/tmp/../x/vue.PNG", 42, "PNG", Ok(img)).unwrap();
    assert_eq!(info.nom, "vue.PNG");
    assert_eq!((info.largeur, info.hauteur, info.taille_octets), (11, 13, 42));
    let sans_nom = image::DynamicImage::ImageRgb8(image::RgbImage::new(1, 1));
    assert_eq!(decrire_image("..", 1, "PNG", Ok(sans_nom)).unwrap().nom, "");
    match decrire_image("a.png", 1, "PNG", Err("tronqué".to_string())) {
        Err(ErreurApplication::Donnees { message }) => {
            assert_eq!(message, "Impossible de charger l'image : tronqué")
        }
        _ => panic!("une erreur de données était attendue"),
    }
}

#[test]
fn echec_d_analyse_dit_en_une_phrase() {
    let absente = LectureSource {
        existe: false,
        taille: Err("x".to_string()),
        contenu: Err("x".to_string()),
    };
    assert_eq!(
        obtenir_info_image("a.png", &absente).unwrap_err(),
        "Impossible d'analyser l'image : Erreur de données : Le fichier image n'existe pas"
    );
    assert_eq!(
        obtenir_info_image("a.doc", &lecture(en_octets(image::ImageFormat::Png))).unwrap_err(),
        "Impossible d'analyser l'image : Erreur de validation : Extension de fichier non reconnue : doc"
    );
    let info = obtenir_info_image("a.png", &lecture(en_octets(image::ImageFormat::Png))).unwrap();
    assert_eq!((info.largeur, info.hauteur), (7, 5));
}

#[test]
fn image_decodee_sans_pixel_refusee() {
    for (largeur, hauteur) in [(0u32, 0u32), (0, 3), (3, 0)] {
        let vide = image::DynamicImage::ImageRgb8(image::RgbImage::new(largeur, hauteur));
        assert_eq!(
            valider_image(Ok(vide)).unwrap_err(),
            "L'image décodée n'a aucun pixel"
        );
    }
    let pleine = image::DynamicImage::ImageRgb8(image::RgbImage::new(1, 1));
    let gardee = valider_image(Ok(pleine)).unwrap();
    assert_eq!((gardee.width(), gardee.height()), (1, 1));
    assert_eq!(valider_image(Err("tronqué".to_string())).unwrap_err(), "tronqué");
}

#[test]
fn image_analysee_a_des_pixels() {
    let info = analyser_image("a.bmp", &lecture(en_octets(image::ImageFormat::Bmp))).unwrap();
    assert!(info.largeur >= 1 && info.hauteur >= 1);
}

#[test]
fn analyse_dite_a_l_interface() {
    let info = analyser_image("a.png", &lecture(en_octets(image::ImageFormat::Png))).unwrap();
    let dite = dire_analyse(Ok(info.clone())).unwrap();
    assert_eq!(
        (dite.nom, dite.chemin, dite.format, dite.largeur, dite.hauteur, dite.taille_octets),
        (info.nom, info.chemin, info.format, info.largeur, info.hauteur, info.taille_octets)
    );
    let erreur = ErreurApplication::Systeme { message: "x".to_string() };
    assert_eq!(
        dire_analyse(Err(erreur)).unwrap_err(),
        "Impossible d'analyser l'image : Erreur système : x"
    );
}
