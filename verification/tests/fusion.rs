use macgyver::commandes::fusion::{commencer_fusion, EchecFusion, FusionEnCours};
use macgyver::utilitaires::progression::{GestionnaireProgression, Signal};

fn journal(progression: GestionnaireProgression) -> Vec<String> {
    progression
        .en_journal()
        .into_iter()
        .map(|signal| match signal {
            Signal::Avancement { pourcentage, message } => format!("{}% {}", pourcentage, message),
            Signal::Succes { message } => format!("SUCCES {}", message),
            Signal::Erreur { message } => format!("ERREUR {}", message),
        })
        .collect()
}

fn document(pages: usize) -> lopdf::Document {
    let mut doc = lopdf::Document::with_version("1.5");
    let racine_des_pages = doc.new_object_id();
    let mut enfants = Vec::new();
    for _ in 0..pages {
        let mut page = lopdf::Dictionary::new();
        page.set("Type", lopdf::Object::Name(b"Page".to_vec()));
        page.set("Parent", lopdf::Object::Reference(racine_des_pages));
        enfants.push(lopdf::Object::Reference(doc.add_object(lopdf::Object::Dictionary(page))));
    }
    let mut arbre = lopdf::Dictionary::new();
    arbre.set("Type", lopdf::Object::Name(b"Pages".to_vec()));
    arbre.set("Count", lopdf::Object::Integer(pages as i64));
    arbre.set("Kids", lopdf::Object::Array(enfants));
    doc.objects.insert(racine_des_pages, lopdf::Object::Dictionary(arbre));
    let mut catalogue = lopdf::Dictionary::new();
    catalogue.set("Type", lopdf::Object::Name(b"Catalog".to_vec()));
    catalogue.set("Pages", lopdf::Object::Reference(racine_des_pages));
    let racine = doc.add_object(lopdf::Object::Dictionary(catalogue));
    doc.trailer.set("Root", lopdf::Object::Reference(racine));
    doc
}

fn chemins(noms: &[&str]) -> Vec<String> {
    noms.iter().map(|nom| nom.to_string()).collect()
}

fn commencee(resultat: Result<FusionEnCours, EchecFusion>) -> FusionEnCours {
    match resultat {
        Ok(fusion) => fusion,
        Err(echec) => panic!("échec inattendu : {}", echec.message),
    }
}

fn echec<T>(resultat: Result<T, EchecFusion>) -> (String, Vec<String>) {
    match resultat {
        Err(echec) => (echec.message, journal(echec.progression)),
        Ok(_) => panic!("un échec était attendu"),
    }
}

#[test]
fn fusion_de_trois_documents() {
    let noms = chemins(&["a.pdf", "b.pdf", "c.pdf"]);
    let mut fusion = commencee(commencer_fusion(&noms, &vec![true, true, true]));
    assert_eq!((fusion.total, fusion.charges, fusion.pages_totales), (3, 0, 0));
    for (nom, pages) in noms.iter().zip([2usize, 5, 1]) {
        fusion = commencee(fusion.charger(nom, Ok(document(pages))));
    }
    assert_eq!((fusion.charges, fusion.pages_totales), (3, 8));
    let prete = fusion.fusionner();
    assert_eq!(prete.document.get_pages().len(), 2);
    let issue = match prete.conclure("sortie.pdf", Ok(())) {
        Ok(issue) => issue,
        Err(echec) => panic!("échec inattendu : {}", echec.message),
    };
    assert_eq!(issue.bilan.message, "Fusion réussie : 3 fichiers fusionnés en 1");
    assert_eq!(issue.bilan.fichiers_sortie, vec!["sortie.pdf"]);
    assert_eq!(issue.bilan.pages_traitees, 8);
    assert_eq!(
        journal(issue.progression),
        [
            "20% Vérification des fichiers...",
            "40% Chargement des PDFs...",
            "40% Chargement du PDF 1 sur 3...",
            "46% Chargement du PDF 2 sur 3...",
            "53% Chargement du PDF 3 sur 3...",
            "80% Fusion en cours...",
            "100% Sauvegarde...",
            "SUCCES ✅ Fusion terminée (3 fichiers)",
        ]
    );
}

#[test]
fn fusion_de_moins_de_deux_documents() {
    for noms in [chemins(&[]), chemins(&["a.pdf"])] {
        let (message, signaux) = echec(commencer_fusion(&noms, &vec![true; noms.len()]));
        assert_eq!(message, "Il faut au moins 2 fichiers PDF pour effectuer une fusion");
        assert!(signaux.is_empty());
    }
}

#[test]
fn fusion_avec_un_fichier_absent() {
    let noms = chemins(&["a.pdf", "b.pdf", "c.pdf"]);
    for (existences, attendu) in [
        (vec![true, false, false], "b.pdf"),
        (vec![false, true, true], "a.pdf"),
        (vec![true, true], "c.pdf"),
        (vec![], "a.pdf"),
    ] {
        let (message, signaux) = echec(commencer_fusion(&noms, &existences));
        assert_eq!(message, format!("Fichier PDF introuvable : {}", attendu));
        assert_eq!(signaux, ["20% Vérification des fichiers...", "ERREUR ❌ Fichier introuvable"]);
    }
}

#[test]
fn fusion_avec_un_document_illisible() {
    let noms = chemins(&["a.pdf", "b.pdf"]);
    let fusion = commencee(commencer_fusion(&noms, &vec![true, true]));
    let fusion = commencee(fusion.charger("a.pdf", Ok(document(1))));
    let (message, signaux) = echec(fusion.charger("b.pdf", Err("en-tête invalide".to_string())));
    assert_eq!(message, "Impossible de charger b.pdf : en-tête invalide");
    assert_eq!(
        signaux,
        [
            "20% Vérification des fichiers...",
            "40% Chargement des PDFs...",
            "40% Chargement du PDF 1 sur 2...",
            "50% Chargement du PDF 2 sur 2...",
            "ERREUR ❌ Erreur de chargement",
        ]
    );
}

#[test]
fn fusion_impossible_a_sauvegarder() {
    let noms = chemins(&["a.pdf", "b.pdf"]);
    let fusion = commencee(commencer_fusion(&noms, &vec![true, true]));
    let fusion = commencee(fusion.charger("a.pdf", Ok(document(1))));
    let fusion = commencee(fusion.charger("b.pdf", Ok(document(1))));
    let (message, signaux) =
        echec(fusion.fusionner().conclure("s.pdf", Err("disque plein".to_string())));
    assert_eq!(message, "Impossible de sauvegarder le PDF fusionné : disque plein");
    assert_eq!(signaux.last().unwrap(), "ERREUR ❌ Erreur de sauvegarde");
}
