use macgyver::commandes::conversion::message_echec_conversion;
use macgyver::commandes::pdf::{
    ajouter_pages, compter_pages, conclure_division, decrire_pdf, extraire_metadonnees_pdf,
    lire_champ_info, lire_dictionnaire_info, message_division_simulee, verifier_pdf_a_diviser,
    LecturePdf,
};
use macgyver::commandes::suppression::message_echec_suppression;
use macgyver::erreurs::ErreurApplication;

fn nom(texte: &str) -> lopdf::Object {
    lopdf::Object::Name(texte.as_bytes().to_vec())
}

fn document(pages: usize) -> lopdf::Document {
    let mut doc = lopdf::Document::with_version("1.5");
    let racine_des_pages = doc.new_object_id();
    let mut enfants = Vec::new();
    for _ in 0..pages {
        let mut page = lopdf::Dictionary::new();
        page.set("Type", nom("Page"));
        page.set("Parent", lopdf::Object::Reference(racine_des_pages));
        enfants.push(lopdf::Object::Reference(doc.add_object(lopdf::Object::Dictionary(page))));
    }
    let mut arbre = lopdf::Dictionary::new();
    arbre.set("Type", nom("Pages"));
    arbre.set("Count", lopdf::Object::Integer(pages as i64));
    arbre.set("Kids", lopdf::Object::Array(enfants));
    doc.objects.insert(racine_des_pages, lopdf::Object::Dictionary(arbre));
    let mut catalogue = lopdf::Dictionary::new();
    catalogue.set("Type", nom("Catalog"));
    catalogue.set("Pages", lopdf::Object::Reference(racine_des_pages));
    let racine = doc.add_object(lopdf::Object::Dictionary(catalogue));
    doc.trailer.set("Root", lopdf::Object::Reference(racine));
    doc
}

fn avec_info(mut doc: lopdf::Document, champs: &[(&str, lopdf::Object)]) -> lopdf::Document {
    let mut info = lopdf::Dictionary::new();
    for (cle, valeur) in champs {
        info.set(*cle, valeur.clone());
    }
    let reference = doc.add_object(lopdf::Object::Dictionary(info));
    doc.trailer.set("Info", lopdf::Object::Reference(reference));
    doc
}

fn chaine(texte: &[u8]) -> lopdf::Object {
    lopdf::Object::String(texte.to_vec(), lopdf::StringFormat::Literal)
}

#[test]
fn metadonnees_d_un_document_complet() {
    let doc = avec_info(
        document(1),
        &[
            ("Title", chaine(b"Rapport annuel")),
            ("Author", chaine(b"Alice")),
            ("Subject", chaine(b"Comptes")),
            ("Creator", chaine(b"Traitement de texte")),
            ("Producer", chaine(b"Imprimante PDF")),
            ("CreationDate", chaine(b"D:20240101120000")),
            ("ModDate", chaine(b"D:20240202120000")),
        ],
    );
    let metadonnees = extraire_metadonnees_pdf(&doc);
    assert_eq!(metadonnees.titre.as_deref(), Some("Rapport annuel"));
    assert_eq!(metadonnees.auteur.as_deref(), Some("Alice"));
    assert_eq!(metadonnees.sujet.as_deref(), Some("Comptes"));
    assert_eq!(metadonnees.createur.as_deref(), Some("Traitement de texte"));
    assert_eq!(metadonnees.producteur.as_deref(), Some("Imprimante PDF"));
    assert_eq!(metadonnees.date_creation.as_deref(), Some("D:20240101120000"));
    assert_eq!(metadonnees.date_modification.as_deref(), Some("D:20240202120000"));
}

#[test]
fn metadonnees_absentes_ou_d_un_autre_type() {
    let doc = avec_info(
        document(1),
        &[
            ("Title", lopdf::Object::Integer(3)),
            ("Author", chaine(b"")),
            ("Keywords", chaine(b"a, b")),
        ],
    );
    let metadonnees = extraire_metadonnees_pdf(&doc);
    assert_eq!(metadonnees.titre, None);
    assert_eq!(metadonnees.auteur.as_deref(), Some(""));
    assert_eq!(metadonnees.sujet, None);
    assert_eq!(metadonnees.createur, None);
    assert_eq!(metadonnees.producteur, None);
    assert_eq!(metadonnees.date_creation, None);
    assert_eq!(metadonnees.date_modification, None);
    assert_eq!(lire_champ_info(&doc, b"Keywords").as_deref(), Some("a, b"));
    assert_eq!(lire_champ_info(&doc, b"title"), None);
}

#[test]
fn metadonnees_sans_dictionnaire() {
    let sans_info = document(2);
    assert_eq!(extraire_metadonnees_pdf(&sans_info).titre, None);
    let mut info_directe = document(1);
    let mut info = lopdf::Dictionary::new();
    info.set("Title", chaine(b"Direct"));
    info_directe.trailer.set("Info", lopdf::Object::Dictionary(info));
    // Seule une référence vers le dictionnaire est suivie.
    assert_eq!(extraire_metadonnees_pdf(&info_directe).titre, None);
    let mut reference_perdue = document(1);
    reference_perdue.trailer.set("Info", lopdf::Object::Reference((999, 0)));
    assert_eq!(extraire_metadonnees_pdf(&reference_perdue).auteur, None);
}

#[test]
fn metadonnees_mal_encodees() {
    let doc = avec_info(document(1), &[("Title", chaine(&[b'A', 0xFF, b'B']))]);
    assert_eq!(extraire_metadonnees_pdf(&doc).titre.as_deref(), Some("A\u{FFFD}B"));
}

#[test]
fn nombre_de_pages_d_un_document() {
    assert_eq!(compter_pages(&document(0)), 0);
    assert_eq!(compter_pages(&document(1)), 1);
    assert_eq!(compter_pages(&document(7)), 7);
}

#[test]
fn total_des_pages_plafonne() {
    assert_eq!(ajouter_pages(0, 0), 0);
    assert_eq!(ajouter_pages(12, 30), 42);
    assert_eq!(ajouter_pages(u32::MAX - 1, 1), u32::MAX);
    assert_eq!(ajouter_pages(u32::MAX, 5), u32::MAX);
}

#[test]
fn division_simulee() {
    assert_eq!(message_division_simulee(12), "Division simulée : 12 pages détectées");
}

#[test]
fn echecs_dits_a_l_interface() {
    let validation = ErreurApplication::Validation { message: "Format non supporté : x".into() };
    assert_eq!(
        message_echec_conversion(&validation),
        "Échec de la conversion : Erreur de validation : Format non supporté : x"
    );
    let systeme = ErreurApplication::Systeme { message: "disque plein".into() };
    assert_eq!(
        message_echec_suppression(&systeme),
        "Échec de la suppression de fond : Erreur système : disque plein"
    );
}

fn lecture(doc: lopdf::Document) -> LecturePdf {
    LecturePdf { existe: true, taille: Ok(1234), document: Ok(doc) }
}

#[test]
fn description_d_un_pdf() {
    let doc = avec_info(document(3), &[("Title", chaine(b"Notice"))]);
    let description = decrire_pdf("docs/notice.pdf", &lecture(doc)).unwrap();
    assert_eq!(description.chemin_fichier, "docs/notice.pdf");
    assert_eq!(description.nombre_pages, 3);
    assert_eq!(description.taille_octets, 1234);
    assert_eq!(description.version, "1.5");
    assert_eq!(description.metadonnees.titre.as_deref(), Some("Notice"));
    assert_eq!(description.metadonnees.auteur, None);
}

#[test]
fn description_d_un_pdf_absent_ou_illisible() {
    let mut absente = lecture(document(1));
    absente.existe = false;
    assert_eq!(
        decrire_pdf("a.pdf", &absente).unwrap_err(),
        "Le fichier PDF n'existe pas : a.pdf"
    );
    let mut sans_taille = lecture(document(1));
    sans_taille.taille = Err("accès refusé".to_string());
    assert_eq!(
        decrire_pdf("a.pdf", &sans_taille).unwrap_err(),
        "Impossible de lire les métadonnées du fichier : accès refusé"
    );
    let mut illisible = lecture(document(1));
    illisible.document = Err("en-tête invalide".to_string());
    assert_eq!(
        decrire_pdf("a.pdf", &illisible).unwrap_err(),
        "Impossible de charger le PDF : en-tête invalide"
    );
}

#[test]
fn division_d_un_pdf() {
    assert_eq!(verifier_pdf_a_diviser("a.pdf", true), Ok(()));
    assert_eq!(
        verifier_pdf_a_diviser("a.pdf", false),
        Err("Le fichier PDF n'existe pas : a.pdf".to_string())
    );
    let bilan = conclure_division(Ok(()), Ok(document(4))).unwrap();
    assert_eq!(bilan.pages_traitees, 4);
    assert_eq!(bilan.fichiers_sortie, vec!["Division simulée : 4 pages détectées"]);
    assert_eq!(bilan.message, "Division réussie : 4 pages divisées en 1 fichiers");
    assert_eq!(
        conclure_division(Err("refus".to_string()), Ok(document(4))).unwrap_err(),
        "Impossible de créer le dossier de sortie : refus"
    );
    assert_eq!(
        conclure_division(Err("refus".to_string()), Err("x".to_string())).unwrap_err(),
        "Impossible de créer le dossier de sortie : refus"
    );
    assert_eq!(
        conclure_division(Ok(()), Err("tronqué".to_string())).unwrap_err(),
        "Impossible de charger le PDF : tronqué"
    );
}

#[test]
fn dictionnaire_d_information_derriere_une_reference() {
    let avec = avec_info(document(1), &[("Title", chaine(b"T"))]);
    assert!(lire_dictionnaire_info(&avec).unwrap().has(b"Title"));
    assert!(lire_dictionnaire_info(&document(1)).is_none());
    let mut vers_une_chaine = document(1);
    let reference = vers_une_chaine.add_object(chaine(b"pas un dictionnaire"));
    vers_une_chaine.trailer.set("Info", lopdf::Object::Reference(reference));
    assert!(lire_dictionnaire_info(&vers_une_chaine).is_none());
    let mut en_deux_sauts = avec_info(document(1), &[("Author", chaine(b"A"))]);
    let premiere = match en_deux_sauts.trailer.get(b"Info") {
        Ok(lopdf::Object::Reference(id)) => *id,
        _ => panic!("une référence était attendue"),
    };
    let relais = en_deux_sauts.add_object(lopdf::Object::Reference(premiere));
    en_deux_sauts.trailer.set("Info", lopdf::Object::Reference(relais));
    assert_eq!(extraire_metadonnees_pdf(&en_deux_sauts).auteur.as_deref(), Some("A"));
}
