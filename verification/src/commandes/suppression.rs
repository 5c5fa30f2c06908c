//! Removal of the background of an image, written as a transparent PNG.
//!
//! A removal goes through the same three steps as a conversion: the source
//! is prepared and processed, the result is encoded once the folder of the
//! output exists, and the removal is concluded once the output file is
//! written. The output is always a PNG, the one supported format that holds
//! transparency.

use vstd::prelude::*;
use vstd::string::StringExecFns;
use crate::chemins::{dossier_parent, extension, parent_du_chemin, vue_option};
use crate::codec::{
    echantillons_de, echantillons_rgba, encoder_png, fichier_png, hauteur_de, hauteur_image,
    largeur_de, largeur_image, texte_erreur_image,
};
use crate::commandes::conversion::{echec_du_dossier, message_echec_dossier, Issue};
use crate::commandes::images::{
    couleur_du_texte, format_de_l_extension, parser_couleur_hex, reduction_dixiemes,
    OptionsSuppressionFond, Pourcentage, ResultatConversion,
};
use crate::commandes::source::{
    avancement, charger_source, commence_par, echec_de_chargement, echouer,
    image_de_la_source, signal_erreur, signal_succes, source_acceptee, Echec, EchecEcriture,
    LectureSource,
};
use crate::erreurs::{composer, ErreurApplication, ErreurUtilitaire};
use crate::traitement::bords::{adoucir_bords_transparence, adoucissement_spec};
use crate::traitement::fond::{supprimer_couleur_fond, suppression_spec};
use crate::traitement::tampon::{ImageRgba, VueImage};
use crate::utilitaires::fichiers::{formater_taille_fichier, taille_formatee};
use crate::utilitaires::progression::{
    clos_par_un_succes, clos_par_une_erreur, creer_progression_image, en_cours,
    lemme_fins_apres_ajout, GestionnaireProgression, VueSignal,
};

verus! {

/// The image once its background is removed as the options ask: the key
/// colour is removed, then the edges are softened if asked for.
pub open spec fn fond_supprime(
    source: VueImage,
    couleur: [u8; 3],
    options: OptionsSuppressionFond,
) -> VueImage {
    let sans_fond = suppression_spec(source, couleur, options.tolerance);
    if options.adoucir_bords {
        adoucissement_spec(sans_fond, options.rayon_adoucissement)
    } else {
        sans_fond
    }
}

/// The message of the update that announces softening, or its absence.
pub open spec fn message_adoucissement(options: OptionsSuppressionFond) -> Seq<char> {
    if options.adoucir_bords {
        "Adoucissement des bords..."@
    } else {
        "Finalisation..."@
    }
}

/// A removal whose source is decoded and processed; nothing is written yet.
pub struct SuppressionPrete {
    pub chemin_entree: String,
    pub chemin_sortie: String,
    pub taille_avant: u64,
    pub format_origine: &'static str,
    /// The decoded source, before processing.
    pub source: Ghost<VueImage>,
    /// The processed image.
    pub image: ImageRgba,
    /// The folder of the output, to create before the output is written.
    pub dossier: Option<String>,
    pub progression: GestionnaireProgression,
}

/// A removal whose output is encoded and waits to be written.
pub struct SuppressionEncodee {
    pub chemin_entree: String,
    pub chemin_sortie: String,
    pub taille_avant: u64,
    pub format_origine: &'static str,
    /// The bytes of the output file.
    pub octets: Vec<u8>,
    pub progression: GestionnaireProgression,
}

/// The record of a removal once its source is loaded and its key colour is
/// about to be read.
pub open spec fn journal_avant_couleur() -> Seq<VueSignal> {
    Seq::<VueSignal>::empty().push(avancement(20, "Vérification du fichier..."@)).push(
        avancement(40, "Chargement de l'image..."@),
    ).push(avancement(50, "Analyse de la couleur de fond..."@))
}

/// The record of a removal once its image is processed.
pub open spec fn journal_traite(options: OptionsSuppressionFond) -> Seq<VueSignal> {
    journal_avant_couleur().push(avancement(80, "Suppression du fond..."@)).push(
        avancement(90, message_adoucissement(options)),
    ).push(avancement(100, "Sauvegarde en PNG..."@))
}

/// A decoded image as an RGBA image: its dimensions, and four samples for
/// each of its pixels, taken from its samples once brought to 8-bit RGBA.
pub open spec fn vue_rgba(image: image::DynamicImage) -> VueImage {
    VueImage {
        largeur: largeur_image(image),
        hauteur: hauteur_image(image),
        echantillons: echantillons_de(image).take(
            4 * (largeur_image(image) * hauteur_image(image)) as int,
        ),
    }
}

/// Whether a removal can be prepared: its source has an image and its key
/// colour can be read.
pub open spec fn suppression_possible(
    chemin_entree: Seq<char>,
    options: OptionsSuppressionFond,
    lecture: LectureSource,
) -> bool {
    &&& image_de_la_source(chemin_entree, lecture) is Some
    &&& couleur_du_texte(options.couleur_fond@) is Ok
}

/// What a prepared removal holds, from the inputs of the preparation: the
/// image is the image of the source, brought to RGBA, with its background
/// removed.
pub open spec fn suppression_conforme(
    chemin_entree: Seq<char>,
    chemin_sortie: Seq<char>,
    options: OptionsSuppressionFond,
    lecture: LectureSource,
    prete: SuppressionPrete,
) -> bool {
    &&& source_acceptee(chemin_entree, lecture)
    &&& prete.chemin_entree@ == chemin_entree
    &&& prete.chemin_sortie@ == chemin_sortie
    &&& lecture.taille == Ok::<u64, String>(prete.taille_avant)
    &&& format_de_l_extension(extension(chemin_entree)) == Ok::<Seq<char>, Seq<char>>(
        prete.format_origine@,
    )
    &&& prete.source@.bien_formee()
    &&& image_de_la_source(chemin_entree, lecture) matches Some(source)
    &&& prete.source@ == vue_rgba(source)
    &&& exists|couleur: [u8; 3]|
        {
            &&& couleur_du_texte(options.couleur_fond@) == Ok::<
                (int, int, int),
                Seq<char>,
            >((couleur[0] as int, couleur[1] as int, couleur[2] as int))
            &&& prete.image@ == #[trigger] fond_supprime(prete.source@, couleur, options)
        }
    &&& vue_option(prete.dossier) == dossier_parent(chemin_sortie)
    &&& prete.progression.journal() == journal_traite(options)
}

/// The failure of a removal whose key colour cannot be read.
pub open spec fn echec_de_couleur(options: OptionsSuppressionFond, echec: Echec) -> bool {
    &&& echec.erreur is Validation
    &&& couleur_du_texte(options.couleur_fond@) == Err::<(int, int, int), Seq<char>>(
        echec.erreur.message(),
    )
    &&& echec.progression.journal() == journal_avant_couleur().push(
        signal_erreur("Couleur de fond invalide"@),
    )
}

/// Removes the background of an image held in memory.
pub fn traiter_fond(image: ImageRgba, couleur: [u8; 3], options: &OptionsSuppressionFond) -> (resultat:
    ImageRgba)
    ensures
        resultat@ == fond_supprime(image@, couleur, *options),
{
    let mut image = image;
    supprimer_couleur_fond(&mut image, couleur, options.tolerance);
    if options.adoucir_bords {
        adoucir_bords_transparence(&mut image, options.rayon_adoucissement);
    }
    image
}

/// The RGBA samples of a decoded image, as an image of the library.
pub fn en_image_rgba(image: &image::DynamicImage) -> (resultat: ImageRgba)
    ensures
        resultat@.bien_formee(),
        resultat@ == vue_rgba(*image),
{
    let largeur = largeur_de(image);
    let hauteur = hauteur_de(image);
    let brut = echantillons_rgba(image);
    match ImageRgba::depuis_brut(largeur, hauteur, brut) {
        Some(resultat) => resultat,
        None => vstd::pervasive::unreached(),
    }
}

/// First step of a removal: the source is examined and decoded, the key
/// colour is read, and the background is removed. Nothing is written.
pub fn preparer_suppression(
    chemin_entree: &str,
    chemin_sortie: &str,
    options: &OptionsSuppressionFond,
    lecture: LectureSource,
) -> (resultat: Result<SuppressionPrete, Echec>)
    ensures
        match resultat {
            Ok(prete) => suppression_conforme(
                chemin_entree@,
                chemin_sortie@,
                *options,
                lecture,
                prete,
            ),
            Err(echec) => {
                ||| echec_de_chargement(chemin_entree@, lecture, Seq::empty(), echec)
                ||| source_acceptee(chemin_entree@, lecture) && echec_de_couleur(*options, echec)
            },
        },
        resultat is Ok <==> suppression_possible(chemin_entree@, *options, lecture),
        match resultat {
            Ok(prete) => en_cours(prete.progression.journal()),
            Err(echec) => clos_par_une_erreur(echec.progression.journal()),
        },
{
    let progression = creer_progression_image("Suppression de fond");
    let source = match charger_source(chemin_entree, lecture, progression) {
        Ok(source) => source,
        Err(echec) => {
            return Err(echec);
        },
    };
    let mut progression = source.progression;
    let image = en_image_rgba(&source.image);
    progression.mettre_a_jour(50, Some("Analyse de la couleur de fond..."));
    let couleur = match parser_couleur_hex(options.couleur_fond.as_str()) {
        Ok(couleur) => couleur,
        Err(erreur) => {
            return Err(echouer(progression, "Couleur de fond invalide", erreur));
        },
    };
    progression.mettre_a_jour(80, Some("Suppression du fond..."));
    let ghost avant = image@;
    let image = traiter_fond(image, couleur, options);
    if options.adoucir_bords {
        progression.mettre_a_jour(90, Some("Adoucissement des bords..."));
    } else {
        progression.mettre_a_jour(90, Some("Finalisation..."));
    }
    progression.mettre_a_jour(100, Some("Sauvegarde en PNG..."));
    assert(image@ == fond_supprime(avant, couleur, *options));
    Ok(
        SuppressionPrete {
            chemin_entree: String::from_str(chemin_entree),
            chemin_sortie: String::from_str(chemin_sortie),
            taille_avant: source.taille_avant,
            format_origine: source.format_origine,
            source: Ghost(avant),
            image,
            dossier: parent_du_chemin(chemin_sortie),
            progression,
        },
    )
}

/// The failure of a PNG that could not be saved.
pub fn echec_de_sauvegarde_png(cause: &str, progression: GestionnaireProgression) -> (echec: Echec)
    ensures
        echec.erreur is Systeme,
        echec.erreur.message() == "Erreur de sauvegarde PNG : "@ + cause@,
        echec.progression.journal() == progression.journal().push(
            signal_erreur("Erreur de sauvegarde PNG"@),
        ),
        en_cours(progression.journal()) ==> clos_par_une_erreur(echec.progression.journal()),
{
    echouer(
        progression,
        "Erreur de sauvegarde PNG",
        ErreurApplication::Systeme { message: composer("Erreur de sauvegarde PNG : ", cause) },
    )
}

/// The PNG file of an image, if the encoder writes one.
pub open spec fn png_de_l_image(image: VueImage) -> Option<Seq<u8>> {
    fichier_png(image.largeur, image.hauteur, image.echantillons)
}

/// Encodes an image as a PNG, in memory. It succeeds exactly on an image
/// that has a PNG file, and gives the bytes of that file; otherwise it gives
/// what the encoder said.
pub fn encoder_en_png(image: &ImageRgba) -> (encodage: Result<Vec<u8>, String>)
    ensures
        match encodage {
            Ok(octets) => png_de_l_image(image@) == Some(octets@),
            Err(_) => png_de_l_image(image@) is None,
        },
{
    let echantillons = image.echantillons();
    match encoder_png(image.largeur(), image.hauteur(), echantillons) {
        Ok(octets) => Ok(octets),
        Err(erreur) => Err(texte_erreur_image(&erreur)),
    }
}

/// What an encoded removal holds, from the prepared one: the PNG of the
/// processed image, the same paths and source size, and the same record.
pub open spec fn encodage_conforme(prete: SuppressionPrete, encodee: SuppressionEncodee) -> bool {
    &&& png_de_l_image(prete.image@) == Some(encodee.octets@)
    &&& encodee.chemin_entree == prete.chemin_entree
    &&& encodee.chemin_sortie == prete.chemin_sortie
    &&& encodee.taille_avant == prete.taille_avant
    &&& encodee.format_origine == prete.format_origine
    &&& encodee.progression.journal() == prete.progression.journal()
}

impl SuppressionPrete {
    /// Encodes the processed image as a PNG, in memory. It succeeds exactly
    /// when the processed image has a PNG file, and gives the bytes of that
    /// file.
    fn encoder_sortie(&self) -> (encodage: Result<Vec<u8>, String>)
        ensures
            match encodage {
                Ok(octets) => png_de_l_image(self.image@) == Some(octets@),
                Err(_) => png_de_l_image(self.image@) is None,
            },
    {
        encoder_en_png(&self.image)
    }

    /// Ends the second step, once the image went through the encoder.
    pub fn conclure_encodage(self, encodage: Result<Vec<u8>, String>) -> (resultat: Result<
        SuppressionEncodee,
        Echec,
    >)
        ensures
            match (encodage, resultat) {
                (Ok(octets), Ok(encodee)) => {
                    &&& encodee.octets == octets
                    &&& encodee.chemin_entree == self.chemin_entree
                    &&& encodee.chemin_sortie == self.chemin_sortie
                    &&& encodee.taille_avant == self.taille_avant
                    &&& encodee.format_origine == self.format_origine
                    &&& encodee.progression.journal() == self.progression.journal()
                },
                (Err(cause), Err(echec)) => {
                    &&& echec.erreur is Systeme
                    &&& echec.erreur.message() == "Erreur de sauvegarde PNG : "@ + cause@
                    &&& echec.progression.journal() == self.progression.journal().push(
                        signal_erreur("Erreur de sauvegarde PNG"@),
                    )
                    &&& en_cours(self.progression.journal()) ==> clos_par_une_erreur(
                        echec.progression.journal(),
                    )
                },
                _ => false,
            },
    {
        match encodage {
            Ok(octets) => Ok(
                SuppressionEncodee {
                    chemin_entree: self.chemin_entree,
                    chemin_sortie: self.chemin_sortie,
                    taille_avant: self.taille_avant,
                    format_origine: self.format_origine,
                    octets,
                    progression: self.progression,
                },
            ),
            Err(cause) => Err(echec_de_sauvegarde_png(cause.as_str(), self.progression)),
        }
    }

    /// Second step of a removal, once the folder of the output was asked
    /// for: the processed image is encoded as a PNG. A folder that could not
    /// be created ends the removal, and so does a failed encoding.
    pub fn encoder(self, dossier: Result<(), ErreurUtilitaire>) -> (resultat: Result<
        SuppressionEncodee,
        Echec,
    >)
        ensures
            match dossier {
                Err(cause) => {
                    &&& resultat matches Err(echec)
                    &&& echec.erreur is Systeme
                    &&& echec.erreur.message() == message_echec_dossier(cause)
                    &&& echec.progression.journal() == self.progression.journal().push(
                        signal_erreur("Impossible de créer le dossier"@),
                    )
                },
                Ok(_) => match resultat {
                    Ok(encodee) => encodage_conforme(self, encodee),
                    Err(echec) => {
                        &&& png_de_l_image(self.image@) is None
                        &&& echec.erreur is Systeme
                        &&& commence_par(echec.erreur.message(), "Erreur de sauvegarde PNG : "@)
                        &&& echec.progression.journal() == self.progression.journal().push(
                            signal_erreur("Erreur de sauvegarde PNG"@),
                        )
                    },
                },
            },
            en_cours(self.progression.journal()) ==> match resultat {
                Ok(encodee) => en_cours(encodee.progression.journal()),
                Err(echec) => clos_par_une_erreur(echec.progression.journal()),
            },
    {
        if let Err(cause) = dossier {
            return Err(echec_du_dossier(&cause, self.progression));
        }
        let encodage = self.encoder_sortie();
        let ghost encode = encodage;
        let resultat = self.conclure_encodage(encodage);
        proof {
            if let Err(cause) = encode {
                assert(resultat->Err_0.erreur.message() == "Erreur de sauvegarde PNG : "@
                    + cause@);
            }
        }
        resultat
    }
}

/// The message that closes the record of a removal.
pub open spec fn message_final_suppression(avant: u64) -> Seq<char> {
    "Fond supprimé: "@ + taille_formatee(avant as nat) + " → PNG transparent"@
}

/// The message of the result of a removal.
pub open spec fn message_resultat_suppression(format_origine: Seq<char>) -> Seq<char> {
    "Suppression de fond réussie : "@ + format_origine + " -> PNG transparent"@
}

/// The failure that the writing of the output of a removal calls for, if
/// any: a file that could not be written, then a size that could not be read
/// back.
pub open spec fn echec_de_conclusion(
    encodee: SuppressionEncodee,
    ecriture: Result<(), EchecEcriture>,
    taille_apres: Result<u64, String>,
    echec: Echec,
) -> bool {
    let journal = encodee.progression.journal();
    if let Err(cause) = ecriture {
        &&& echec.erreur is Systeme
        &&& echec.erreur.message() == "Erreur de sauvegarde PNG : "@ + cause.message@
        &&& echec.progression.journal() == journal.push(signal_erreur("Erreur de sauvegarde PNG"@))
    } else if let Err(cause) = taille_apres {
        &&& echec.erreur is Systeme
        &&& echec.erreur.message() == "Impossible de lire le fichier de sortie : "@ + cause@
        &&& echec.progression.journal() == journal.push(
            signal_erreur("Erreur de vérification du fichier"@),
        )
    } else {
        false
    }
}

/// What the result of a removal holds: the output format is PNG whatever
/// the source was.
pub open spec fn resultat_de_suppression(
    encodee: SuppressionEncodee,
    taille_apres: u64,
    issue: Issue,
) -> bool {
    let resultat = issue.resultat;
    &&& resultat.succes
    &&& resultat.fichier_origine@ == encodee.chemin_entree@
    &&& resultat.fichier_sortie@ == encodee.chemin_sortie@
    &&& resultat.format_origine@ == encodee.format_origine@
    &&& resultat.format_sortie@ == "PNG"@
    &&& resultat.taille_avant == encodee.taille_avant
    &&& resultat.taille_apres == taille_apres
    &&& resultat.reduction_pourcent.dixiemes == reduction_dixiemes(
        encodee.taille_avant as nat,
        taille_apres as nat,
    )
    &&& resultat.message@ == message_resultat_suppression(encodee.format_origine@)
    &&& issue.progression.journal() == encodee.progression.journal().push(
        signal_succes(message_final_suppression(encodee.taille_avant)),
    )
}

impl SuppressionEncodee {
    /// Last step of a removal, once the output file was written and its size
    /// read back. The removal succeeds exactly when both went well.
    pub fn conclure(self, ecriture: Result<(), EchecEcriture>, taille_apres: Result<u64, String>) -> (resultat:
        Result<Issue, Echec>)
        ensures
            resultat is Ok <==> ecriture is Ok && taille_apres is Ok,
            match resultat {
                Ok(issue) => taille_apres matches Ok(taille) && resultat_de_suppression(
                    self,
                    taille,
                    issue,
                ),
                Err(echec) => echec_de_conclusion(self, ecriture, taille_apres, echec),
            },
            en_cours(self.progression.journal()) ==> match resultat {
                Ok(issue) => clos_par_un_succes(issue.progression.journal()),
                Err(echec) => clos_par_une_erreur(echec.progression.journal()),
            },
    {
        let mut progression = self.progression;
        if let Err(cause) = ecriture {
            return Err(echec_de_sauvegarde_png(cause.message.as_str(), progression));
        }
        let taille = match taille_apres {
            Ok(taille) => taille,
            Err(cause) => {
                return Err(
                    echouer(
                        progression,
                        "Erreur de vérification du fichier",
                        ErreurApplication::Systeme {
                            message: composer(
                                "Impossible de lire le fichier de sortie : ",
                                cause.as_str(),
                            ),
                        },
                    ),
                );
            },
        };
        let reduction = Pourcentage::reduction(self.taille_avant, taille);
        let mut message_final = String::from_str("Fond supprimé: ");
        message_final.append(formater_taille_fichier(self.taille_avant).as_str());
        message_final.append(" → PNG transparent");
        progression.terminer_avec_succes(message_final.as_str());
        let mut message = String::from_str("Suppression de fond réussie : ");
        message.append(self.format_origine);
        message.append(" -> PNG transparent");
        Ok(
            Issue {
                resultat: ResultatConversion {
                    succes: true,
                    fichier_origine: self.chemin_entree,
                    fichier_sortie: self.chemin_sortie,
                    format_origine: String::from_str(self.format_origine),
                    format_sortie: String::from_str("PNG"),
                    taille_avant: self.taille_avant,
                    taille_apres: taille,
                    reduction_pourcent: reduction,
                    message,
                },
                progression,
            },
        )
    }
}

/// The record of a removal that succeeds holds the six updates of a
/// removal, at 20, 40, 50, 80, 90 and 100 percent, then the signal of the
/// success, and nothing else.
pub proof fn loi_jalons_de_suppression(
    chemin_entree: Seq<char>,
    chemin_sortie: Seq<char>,
    options: OptionsSuppressionFond,
    lecture: LectureSource,
    prete: SuppressionPrete,
    encodee: SuppressionEncodee,
    taille_apres: u64,
    issue: Issue,
)
    requires
        suppression_conforme(chemin_entree, chemin_sortie, options, lecture, prete),
        encodage_conforme(prete, encodee),
        resultat_de_suppression(encodee, taille_apres, issue),
    ensures
        issue.progression.journal() == seq![
            avancement(20, "Vérification du fichier..."@),
            avancement(40, "Chargement de l'image..."@),
            avancement(50, "Analyse de la couleur de fond..."@),
            avancement(80, "Suppression du fond..."@),
            avancement(90, message_adoucissement(options)),
            avancement(100, "Sauvegarde en PNG..."@),
            signal_succes(message_final_suppression(encodee.taille_avant)),
        ],
        clos_par_un_succes(issue.progression.journal()),
        issue.resultat.format_sortie@ == "PNG"@,
{
    let j0 = Seq::<VueSignal>::empty();
    let j1 = j0.push(avancement(20, "Vérification du fichier..."@));
    let j2 = j1.push(avancement(40, "Chargement de l'image..."@));
    let j3 = j2.push(avancement(50, "Analyse de la couleur de fond..."@));
    let j4 = j3.push(avancement(80, "Suppression du fond..."@));
    let j5 = j4.push(avancement(90, message_adoucissement(options)));
    let j6 = j5.push(avancement(100, "Sauvegarde en PNG..."@));
    let fin = signal_succes(message_final_suppression(encodee.taille_avant));
    lemme_fins_apres_ajout(j0, avancement(20, "Vérification du fichier..."@));
    lemme_fins_apres_ajout(j1, avancement(40, "Chargement de l'image..."@));
    lemme_fins_apres_ajout(j2, avancement(50, "Analyse de la couleur de fond..."@));
    lemme_fins_apres_ajout(j3, avancement(80, "Suppression du fond..."@));
    lemme_fins_apres_ajout(j4, avancement(90, message_adoucissement(options)));
    lemme_fins_apres_ajout(j5, avancement(100, "Sauvegarde en PNG..."@));
    lemme_fins_apres_ajout(j6, fin);
    assert(issue.progression.journal() == j6.push(fin));
    assert(j6.push(fin) =~= seq![
        avancement(20, "Vérification du fichier..."@),
        avancement(40, "Chargement de l'image..."@),
        avancement(50, "Analyse de la couleur de fond..."@),
        avancement(80, "Suppression du fond..."@),
        avancement(90, message_adoucissement(options)),
        avancement(100, "Sauvegarde en PNG..."@),
        fin,
    ]);
}

/// What the caller of a failed removal is told.
pub fn message_echec_suppression(erreur: &ErreurApplication) -> (message: String)
    ensures
        message@ == "Échec de la suppression de fond : "@ + erreur.texte_spec(),
{
    composer("Échec de la suppression de fond : ", erreur.texte().as_str())
}

} // verus!
