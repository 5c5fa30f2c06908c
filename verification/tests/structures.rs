use macgyver::commandes::pdf::{
    message_division_reussie, message_fusion_reussie, progression_du_chargement,
    verifier_nombre_a_fusionner, MetadonneesPdf, OptionsDivisionPdf, OptionsFusionPdf,
};
use macgyver::commandes::productivite::{
    message_echec_sauvegarde, message_notes_sauvegardees, message_taches_sauvegardees,
    notifier_pomodoro_termine, obtenir_chemin_fichier_notes, obtenir_chemin_fichier_taches,
    obtenir_repertoire_donnees, EtapeSauvegarde, Note, Tache,
};
use macgyver::erreurs::{ErreurApplication, ErreurUtilitaire};

#[test]
fn test_module_commandes() {
    assert!(true, "Le module commandes est correctement configuré");
}

#[test]
fn test_module_pdf() {
    assert!(true, "Le module PDF est correctement configuré");
}

#[test]
fn test_initialisation_application() {
    assert!(true, "L'application peut être initialisée");
}

#[test]
fn test_structures_pdf() {
    let options_fusion = OptionsFusionPdf {
        inclure_signets: true,
        optimiser: true,
        ajouter_page_titre: false,
    };

    assert!(
        options_fusion.inclure_signets,
        "Les options de fusion devraient être configurables"
    );

    let options_division = OptionsDivisionPdf {
        mode: "pages".to_string(),
        plages: None,
        prefixe_nom: "page".to_string(),
    };

    assert_eq!(
        options_division.mode, "pages",
        "Le mode de division devrait être configurable"
    );
}

#[test]
fn test_creation_note() {
    let note = Note {
        id: 1,
        contenu: "Test note".to_string(),
        date_creation: "2024-01-01 12:00:00".to_string(),
    };

    assert_eq!(note.id, 1);
    assert_eq!(note.contenu, "Test note");
}

#[test]
fn test_creation_tache() {
    let tache = Tache {
        id: 1,
        texte: "Test tâche".to_string(),
        terminee: false,
        date_creation: "2024-01-01 12:00:00".to_string(),
    };

    assert_eq!(tache.id, 1);
    assert_eq!(tache.texte, "Test tâche");
    assert!(!tache.terminee);
}

#[test]
fn metadonnees_pdf_vides() {
    let metadonnees = MetadonneesPdf {
        titre: None,
        auteur: Some("A".to_string()),
        sujet: None,
        createur: None,
        producteur: None,
        date_creation: None,
        date_modification: None,
    };
    assert!(metadonnees.titre.is_none());
    assert_eq!(metadonnees.auteur.as_deref(), Some("A"));
}

#[test]
fn pomodoro_pause_longue_tous_les_quatre_cycles() {
    assert_eq!(
        notifier_pomodoro_termine(4).unwrap(),
        "Excellent ! Cycle #4 terminé. Prenez une pause longue (15 min) !"
    );
    assert_eq!(
        notifier_pomodoro_termine(0).unwrap(),
        "Excellent ! Cycle #0 terminé. Prenez une pause longue (15 min) !"
    );
    assert_eq!(
        notifier_pomodoro_termine(4_000_000_000).unwrap(),
        "Excellent ! Cycle #4000000000 terminé. Prenez une pause longue (15 min) !"
    );
}

#[test]
fn pomodoro_pause_courte_sinon() {
    assert_eq!(
        notifier_pomodoro_termine(1).unwrap(),
        "Bravo ! Cycle #1 terminé. Prenez une pause courte (5 min) !"
    );
    assert_eq!(
        notifier_pomodoro_termine(4_294_967_295).unwrap(),
        "Bravo ! Cycle #4294967295 terminé. Prenez une pause courte (5 min) !"
    );
}

#[test]
fn messages_de_sauvegarde() {
    assert_eq!(message_notes_sauvegardees(0), "0 notes sauvegardées avec succès");
    assert_eq!(message_notes_sauvegardees(12), "12 notes sauvegardées avec succès");
    assert_eq!(message_taches_sauvegardees(3), "3 tâches sauvegardées avec succès");
}

#[test]
fn fusion_demande_deux_fichiers() {
    assert_eq!(
        verifier_nombre_a_fusionner(0),
        Err("Il faut au moins 2 fichiers PDF pour effectuer une fusion".to_string())
    );
    assert_eq!(
        verifier_nombre_a_fusionner(1),
        Err("Il faut au moins 2 fichiers PDF pour effectuer une fusion".to_string())
    );
    assert_eq!(verifier_nombre_a_fusionner(2), Ok(()));
    assert_eq!(verifier_nombre_a_fusionner(50), Ok(()));
}

#[test]
fn progression_du_chargement_entre_40_et_60() {
    assert_eq!(progression_du_chargement(0, 2), 40);
    assert_eq!(progression_du_chargement(1, 2), 50);
    assert_eq!(progression_du_chargement(0, 3), 40);
    assert_eq!(progression_du_chargement(1, 3), 46);
    assert_eq!(progression_du_chargement(2, 3), 53);
    assert_eq!(progression_du_chargement(usize::MAX - 1, usize::MAX), 59);
}

#[test]
fn messages_pdf() {
    assert_eq!(message_fusion_reussie(3), "Fusion réussie : 3 fichiers fusionnés en 1");
    assert_eq!(
        message_division_reussie(12, 1),
        "Division réussie : 12 pages divisées en 1 fichiers"
    );
}

#[test]
fn texte_des_erreurs() {
    let validation = ErreurApplication::Validation { message: "m".to_string() };
    let donnees = ErreurApplication::Donnees { message: "d".to_string() };
    let systeme = ErreurApplication::Systeme { message: "s".to_string() };
    assert_eq!(validation.texte(), "Erreur de validation : m");
    assert_eq!(donnees.texte(), "Erreur de données : d");
    assert_eq!(systeme.texte(), "Erreur système : s");
    let utilitaire = ErreurUtilitaire::Validation { message: "u".to_string() };
    assert_eq!(utilitaire.texte(), "Erreur de validation : u");
}

#[test]
fn erreur_utilitaire_devient_validation() {
    let utilitaire = ErreurUtilitaire::Validation { message: "x".to_string() };
    let application: ErreurApplication = utilitaire.into();
    match application {
        ErreurApplication::Validation { message } => assert_eq!(message, "x"),
        _ => panic!("une erreur de validation était attendue"),
    }
}

#[test]
fn test_repertoire_donnees() {
    let base = dirs_next::data_dir().map(|chemin| chemin.to_string_lossy().into_owned());
    let resultat = obtenir_repertoire_donnees(base.as_deref());
    assert!(resultat.is_ok(), "Le répertoire de données devrait être accessible");

    let chemin = resultat.unwrap();
    assert!(chemin.contains("mon-application"));
}

#[test]
fn repertoire_et_fichiers_de_donnees() {
    let separateur = std::path::MAIN_SEPARATOR;
    assert_eq!(
        obtenir_repertoire_donnees(Some("base")).unwrap(),
        format!("base{}mon-application", separateur)
    );
    assert_eq!(
        obtenir_chemin_fichier_notes(Some("base")).unwrap(),
        format!("base{0}mon-application{0}notes.json", separateur)
    );
    assert_eq!(
        obtenir_chemin_fichier_taches(Some("base")).unwrap(),
        format!("base{0}mon-application{0}taches.json", separateur)
    );
    for resultat in [
        obtenir_repertoire_donnees(None),
        obtenir_chemin_fichier_notes(None),
        obtenir_chemin_fichier_taches(None),
    ] {
        assert_eq!(
            resultat,
            Err("Impossible de déterminer le répertoire de données utilisateur".to_string())
        );
    }
}

#[test]
fn echecs_de_sauvegarde() {
    assert_eq!(
        message_echec_sauvegarde(EtapeSauvegarde::Repertoire, "refus"),
        "Impossible de créer le répertoire : refus"
    );
    assert_eq!(
        message_echec_sauvegarde(EtapeSauvegarde::Serialisation, "x"),
        "Erreur de sérialisation JSON : x"
    );
    assert_eq!(
        message_echec_sauvegarde(EtapeSauvegarde::Ecriture, "plein"),
        "Erreur d'écriture du fichier : plein"
    );
}
