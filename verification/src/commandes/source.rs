//! The first steps of every image operation: the source file is examined,
//! its format is read in its name, and its bytes are decoded.
//!
//! The library reads no file. Whoever runs an operation reads the source and
//! hands over what was found; the library decides what it means.

use vstd::prelude::*;
use vstd::string::StringExecFns;
use crate::chemins::extension;
use crate::codec::{
    decoder_avec_format, format_du_chemin, format_selon_chemin, hauteur_de, hauteur_image,
    image_decodee, largeur_de, largeur_image, texte_erreur_image,
};
use crate::commandes::images::{detecter_format_image, format_de_l_extension};
use crate::erreurs::{composer, ErreurApplication};
use crate::utilitaires::progression::{
    clos_par_une_erreur, en_cours, GestionnaireProgression, VueSignal,
};

verus! {

/// What was found when the source file was read.
#[derive(Debug)]
pub struct LectureSource {
    /// Whether the file exists.
    pub existe: bool,
    /// Its size in bytes, or why it could not be had.
    pub taille: Result<u64, String>,
    /// Its bytes, or why they could not be read.
    pub contenu: Result<Vec<u8>, String>,
}

/// Why writing the output file failed.
#[derive(Debug)]
pub struct EchecEcriture {
    /// Whether the file could not even be created.
    pub a_la_creation: bool,
    pub message: String,
}

/// A failed operation: the error, and the record that ends with the signal
/// of the failure.
#[derive(Debug)]
pub struct Echec {
    pub erreur: ErreurApplication,
    pub progression: GestionnaireProgression,
}

/// A decoded source.
pub struct SourceChargee {
    pub taille_avant: u64,
    pub format_origine: &'static str,
    pub image: image::DynamicImage,
    pub progression: GestionnaireProgression,
}

/// An update of the record.
pub open spec fn avancement(pourcentage: u64, message: Seq<char>) -> VueSignal {
    VueSignal::Avancement { pourcentage, message }
}

/// The signal of a failure.
pub open spec fn signal_erreur(message: Seq<char>) -> VueSignal {
    VueSignal::Erreur { message }
}

/// The signal of a success.
pub open spec fn signal_succes(message: Seq<char>) -> VueSignal {
    VueSignal::Succes { message }
}

/// `texte` starts with `prefixe`.
pub open spec fn commence_par(texte: Seq<char>, prefixe: Seq<char>) -> bool {
    exists|suite: Seq<char>| texte == prefixe + suite
}

/// Ends an operation on a failure: the signal is recorded, once, before the
/// error is handed back.
pub fn echouer(progression: GestionnaireProgression, signal: &str, erreur: ErreurApplication) -> (echec:
    Echec)
    ensures
        echec.erreur == erreur,
        echec.progression.journal() == progression.journal().push(signal_erreur(signal@)),
        echec.progression.message_initial() == progression.message_initial(),
        en_cours(progression.journal()) ==> clos_par_une_erreur(echec.progression.journal()),
{
    let mut progression = progression;
    progression.terminer_avec_erreur(signal);
    Echec { erreur, progression }
}

/// The failure that the examination of the source calls for, if any: a missing
/// file, an unreadable size, a name without a supported extension, unreadable
/// bytes, in this order.
pub open spec fn echec_de_verification(
    chemin: Seq<char>,
    lecture: LectureSource,
    journal: Seq<VueSignal>,
    echec: Echec,
) -> bool {
    let verification = journal.push(avancement(20, "Vérification du fichier..."@));
    if !lecture.existe {
        &&& echec.erreur is Validation
        &&& echec.erreur.message() == "Le fichier source n'existe pas : "@ + chemin
        &&& echec.progression.journal() == verification.push(
            signal_erreur("Fichier source introuvable"@),
        )
    } else if let Err(cause) = lecture.taille {
        &&& echec.erreur is Systeme
        &&& echec.erreur.message() == "Impossible de lire le fichier d'origine : "@ + cause@
        &&& echec.progression.journal() == verification.push(
            signal_erreur("Erreur de lecture des métadonnées"@),
        )
    } else if let Err(message) = format_de_l_extension(extension(chemin)) {
        &&& echec.erreur is Validation
        &&& echec.erreur.message() == message
        &&& echec.progression.journal() == verification.push(
            signal_erreur("Format du fichier source non reconnu"@),
        )
    } else if let Err(cause) = lecture.contenu {
        &&& echec.erreur is Donnees
        &&& echec.erreur.message() == "Impossible de charger l'image : "@ + cause@
        &&& echec.progression.journal() == verification.push(
            avancement(40, "Chargement de l'image..."@),
        ).push(signal_erreur("Impossible de charger l'image"@))
    } else {
        false
    }
}

/// The examination of the source finds nothing wrong.
pub open spec fn source_acceptee(chemin: Seq<char>, lecture: LectureSource) -> bool {
    &&& lecture.existe
    &&& lecture.taille is Ok
    &&& format_de_l_extension(extension(chemin)) is Ok
    &&& lecture.contenu is Ok
}

/// The image has at least one pixel each way, as every decoded image has.
pub open spec fn a_des_pixels(image: image::DynamicImage) -> bool {
    largeur_image(image) >= 1 && hauteur_image(image) >= 1
}

/// The image of a file: the one its bytes decode to in the format that the
/// extension of its path announces, provided it has a pixel each way.
pub open spec fn image_du_fichier(chemin: Seq<char>, octets: Seq<u8>) -> Option<
    image::DynamicImage,
> {
    match format_du_chemin(chemin) {
        Some(format) => match image_decodee(octets, format) {
            Some(image) => if a_des_pixels(image) {
                Some(image)
            } else {
                None
            },
            None => None,
        },
        None => None,
    }
}

/// The image of a source: that of its file, when its examination finds
/// nothing wrong.
pub open spec fn image_de_la_source(chemin: Seq<char>, lecture: LectureSource) -> Option<
    image::DynamicImage,
> {
    if source_acceptee(chemin, lecture) {
        match lecture.contenu {
            Ok(octets) => image_du_fichier(chemin, octets@),
            Err(_) => None,
        }
    } else {
        None
    }
}

/// The failure of a source whose bytes are not a decodable image.
pub open spec fn echec_de_decodage(journal: Seq<VueSignal>, echec: Echec) -> bool {
    &&& echec.erreur is Donnees
    &&& commence_par(echec.erreur.message(), "Impossible de charger l'image : "@)
    &&& echec.progression.journal() == journal.push(
        avancement(20, "Vérification du fichier..."@),
    ).push(avancement(40, "Chargement de l'image..."@)).push(
        signal_erreur("Impossible de charger l'image"@),
    )
}

/// A failure that loading this source can end on.
pub open spec fn echec_de_chargement(
    chemin: Seq<char>,
    lecture: LectureSource,
    journal: Seq<VueSignal>,
    echec: Echec,
) -> bool {
    if source_acceptee(chemin, lecture) {
        echec_de_decodage(journal, echec)
    } else {
        echec_de_verification(chemin, lecture, journal, echec)
    }
}

/// What a loaded source holds: the image of the source, the size read, the
/// format its name gives, and a record that grew by the two updates of
/// loading.
pub open spec fn source_conforme(
    chemin: Seq<char>,
    lecture: LectureSource,
    journal: Seq<VueSignal>,
    source: SourceChargee,
) -> bool {
    &&& source_acceptee(chemin, lecture)
    &&& lecture.taille == Ok::<u64, String>(source.taille_avant)
    &&& format_de_l_extension(extension(chemin)) == Ok::<Seq<char>, Seq<char>>(
        source.format_origine@,
    )
    &&& image_de_la_source(chemin, lecture) == Some(source.image)
    &&& source.progression.journal() == journal.push(
        avancement(20, "Vérification du fichier..."@),
    ).push(avancement(40, "Chargement de l'image..."@))
}

/// Holds the outcome of the decoder to what a decoded image is: one that
/// came out without a pixel counts as undecodable.
pub fn valider_image(decodage: Result<image::DynamicImage, String>) -> (resultat: Result<
    image::DynamicImage,
    String,
>)
    ensures
        match decodage {
            Ok(image) => if a_des_pixels(image) {
                resultat == Ok::<image::DynamicImage, String>(image)
            } else {
                resultat matches Err(cause) && cause@ == "L'image décodée n'a aucun pixel"@
            },
            Err(cause) => resultat == Err::<image::DynamicImage, String>(cause),
        },
{
    match decodage {
        Ok(image) => {
            if largeur_de(&image) >= 1 && hauteur_de(&image) >= 1 {
                Ok(image)
            } else {
                Err(String::from_str("L'image décodée n'a aucun pixel"))
            }
        },
        Err(cause) => Err(cause),
    }
}

/// Decodes the bytes of a file as the image its path announces: the format
/// is the one of the extension, whatever the bytes look like. It succeeds
/// exactly on a file that has an image, and gives that image.
pub(crate) fn decoder_source(chemin: &str, octets: &[u8]) -> (decodage: Result<
    image::DynamicImage,
    String,
>)
    ensures
        match decodage {
            Ok(image) => image_du_fichier(chemin@, octets@) == Some(image),
            Err(_) => image_du_fichier(chemin@, octets@) is None,
        },
{
    let decodage = match format_selon_chemin(chemin) {
        Err(erreur) => Err(texte_erreur_image(&erreur)),
        Ok(format) => match decoder_avec_format(octets, format) {
            Ok(image) => Ok(image),
            Err(erreur) => Err(texte_erreur_image(&erreur)),
        },
    };
    valider_image(decodage)
}

/// Ends the loading of a source found acceptable, once its bytes went
/// through the decoder.
pub fn conclure_chargement(
    decodage: Result<image::DynamicImage, String>,
    taille_avant: u64,
    format_origine: &'static str,
    progression: GestionnaireProgression,
) -> (resultat: Result<SourceChargee, Echec>)
    ensures
        match (decodage, resultat) {
            (Ok(image), Ok(source)) => {
                &&& source.image == image
                &&& source.taille_avant == taille_avant
                &&& source.format_origine == format_origine
                &&& source.progression.journal() == progression.journal()
                &&& source.progression.message_initial() == progression.message_initial()
            },
            (Err(cause), Err(echec)) => {
                &&& echec.erreur is Donnees
                &&& echec.erreur.message() == "Impossible de charger l'image : "@ + cause@
                &&& echec.progression.journal() == progression.journal().push(
                    signal_erreur("Impossible de charger l'image"@),
                )
                &&& en_cours(progression.journal()) ==> clos_par_une_erreur(
                    echec.progression.journal(),
                )
            },
            _ => false,
        },
{
    match decodage {
        Ok(image) => Ok(SourceChargee { taille_avant, format_origine, image, progression }),
        Err(cause) => Err(
            echouer(
                progression,
                "Impossible de charger l'image",
                ErreurApplication::Donnees {
                    message: composer("Impossible de charger l'image : ", cause.as_str()),
                },
            ),
        ),
    }
}

/// Examines and decodes the source of an operation, and records the two
/// updates of loading.
pub fn charger_source(
    chemin_entree: &str,
    lecture: LectureSource,
    progression: GestionnaireProgression,
) -> (resultat: Result<SourceChargee, Echec>)
    ensures
        resultat is Ok <==> image_de_la_source(chemin_entree@, lecture) is Some,
        match resultat {
            Ok(source) => source_conforme(chemin_entree@, lecture, progression.journal(), source),
            Err(echec) => echec_de_chargement(
                chemin_entree@,
                lecture,
                progression.journal(),
                echec,
            ),
        },
        resultat matches Ok(source) ==> source.progression.message_initial()
            == progression.message_initial(),
        en_cours(progression.journal()) ==> match resultat {
            Ok(source) => en_cours(source.progression.journal()),
            Err(echec) => clos_par_une_erreur(echec.progression.journal()),
        },
{
    let mut progression = progression;
    progression.mettre_a_jour(20, Some("Vérification du fichier..."));
    if !lecture.existe {
        return Err(
            echouer(
                progression,
                "Fichier source introuvable",
                ErreurApplication::Validation {
                    message: composer("Le fichier source n'existe pas : ", chemin_entree),
                },
            ),
        );
    }
    let taille_avant = match &lecture.taille {
        Ok(taille) => *taille,
        Err(cause) => {
            return Err(
                echouer(
                    progression,
                    "Erreur de lecture des métadonnées",
                    ErreurApplication::Systeme {
                        message: composer(
                            "Impossible de lire le fichier d'origine : ",
                            cause.as_str(),
                        ),
                    },
                ),
            );
        },
    };
    let format_origine = match detecter_format_image(chemin_entree) {
        Ok(etiquette) => etiquette,
        Err(erreur) => {
            return Err(echouer(progression, "Format du fichier source non reconnu", erreur));
        },
    };
    progression.mettre_a_jour(40, Some("Chargement de l'image..."));
    let decodage = match &lecture.contenu {
        Ok(octets) => decoder_source(chemin_entree, octets.as_slice()),
        Err(cause) => {
            return Err(
                echouer(
                    progression,
                    "Impossible de charger l'image",
                    ErreurApplication::Donnees {
                        message: composer("Impossible de charger l'image : ", cause.as_str()),
                    },
                ),
            );
        },
    };
    let ghost decode = decodage;
    let resultat = conclure_chargement(decodage, taille_avant, format_origine, progression);
    proof {
        if let Err(cause) = decode {
            assert(resultat->Err_0.erreur.message() == "Impossible de charger l'image : "@
                + cause@);
        }
    }
    resultat
}

} // verus!
