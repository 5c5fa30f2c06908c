use macgyver::utilitaires::progression::{
    creer_progression_image, ConfigProgression, GestionnaireProgression, Signal, TypeProgression,
};

#[test]
fn journal_dans_l_ordre() {
    let mut progression = creer_progression_image("Conversion d'image");
    assert_eq!(progression.nombre_de_signaux(), 0);
    progression.mettre_a_jour(20, Some("Vérification du fichier..."));
    progression.mettre_a_jour(40, None);
    progression.terminer_avec_succes("fini");
    assert_eq!(progression.nombre_de_signaux(), 3);
    assert_eq!(
        progression.signal(1),
        &Signal::Avancement { pourcentage: 40, message: "Conversion d'image".to_string() }
    );
    assert_eq!(
        progression.en_journal(),
        vec![
            Signal::Avancement {
                pourcentage: 20,
                message: "Vérification du fichier...".to_string()
            },
            Signal::Avancement { pourcentage: 40, message: "Conversion d'image".to_string() },
            Signal::Succes { message: "fini".to_string() },
        ]
    );
}

#[test]
fn fin_en_succes_ou_en_erreur() {
    let config = ConfigProgression {
        type_progression: TypeProgression::ConversionImage,
        message_initial: "m".to_string(),
    };
    let mut reussie = GestionnaireProgression::nouveau(config.clone());
    reussie.terminer("bien");
    assert_eq!(reussie.en_journal(), vec![Signal::Succes { message: "bien".to_string() }]);
    let mut ratee = GestionnaireProgression::nouveau(config);
    ratee.terminer_avec_erreur("mal");
    assert_eq!(ratee.en_journal(), vec![Signal::Erreur { message: "mal".to_string() }]);
}
