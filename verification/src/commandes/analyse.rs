//! Analysis of an image file: its name, format, dimensions and size.

use vstd::prelude::*;
use vstd::string::StringExecFns;
use crate::chemins::{extension, nom_de_fichier, nom_fichier};
use crate::codec::{hauteur_de, hauteur_image, largeur_de, largeur_image};
use crate::commandes::images::{detecter_format_image, format_de_l_extension, InfoImage};
use crate::commandes::source::{
    commence_par, decoder_source, image_de_la_source, source_acceptee, LectureSource,
};
use crate::erreurs::{composer, ErreurApplication, ResultatApplication};

verus! {

/// The name shown for a path: its final component, or nothing when it has
/// none.
pub open spec fn nom_affiche(chemin: Seq<char>) -> Seq<char> {
    match nom_fichier(chemin) {
        Some(nom) => nom,
        None => Seq::empty(),
    }
}

/// The error that the examination of an image file calls for, if any: a missing
/// file, an unreadable size, a name without a supported extension, unreadable
/// bytes, in this order.
pub open spec fn refus_d_analyse(chemin: Seq<char>, lecture: LectureSource, erreur: ErreurApplication) -> bool {
    if !lecture.existe {
        erreur is Donnees && erreur.message() == "Le fichier image n'existe pas"@
    } else if let Err(cause) = lecture.taille {
        erreur is Systeme && erreur.message() == "Impossible de lire les métadonnées : "@ + cause@
    } else if let Err(message) = format_de_l_extension(extension(chemin)) {
        erreur is Validation && erreur.message() == message
    } else if let Err(cause) = lecture.contenu {
        erreur is Donnees && erreur.message() == "Impossible de charger l'image : "@ + cause@
    } else {
        false
    }
}

/// An error that the analysis of this file can end on: the one its
/// examination calls for, or, when it finds nothing wrong, that of bytes that
/// are not a decodable image.
pub open spec fn echec_d_analyse(chemin: Seq<char>, lecture: LectureSource, erreur: ErreurApplication) -> bool {
    if source_acceptee(chemin, lecture) {
        erreur is Donnees && commence_par(erreur.message(), "Impossible de charger l'image : "@)
    } else {
        refus_d_analyse(chemin, lecture, erreur)
    }
}

/// What the description of an analysed file holds: its name, path, format
/// and size, and the dimensions of the image of the file.
pub open spec fn analyse_conforme(chemin: Seq<char>, lecture: LectureSource, info: InfoImage) -> bool {
    &&& source_acceptee(chemin, lecture)
    &&& info.nom@ == nom_affiche(chemin)
    &&& info.chemin@ == chemin
    &&& format_de_l_extension(extension(chemin)) == Ok::<Seq<char>, Seq<char>>(info.format@)
    &&& lecture.taille == Ok::<u64, String>(info.taille_octets)
    &&& image_de_la_source(chemin, lecture) matches Some(image)
    &&& info.largeur == largeur_image(image)
    &&& info.hauteur == hauteur_image(image)
    &&& info.largeur >= 1
    &&& info.hauteur >= 1
}

/// Describes an image whose file was found acceptable, once its bytes went
/// through the decoder.
pub fn decrire_image(
    chemin: &str,
    taille_octets: u64,
    format: &str,
    decodage: Result<image::DynamicImage, String>,
) -> (resultat: ResultatApplication<InfoImage>)
    ensures
        match (decodage, resultat) {
            (Ok(image), Ok(info)) => {
                &&& info.nom@ == nom_affiche(chemin@)
                &&& info.chemin@ == chemin@
                &&& info.format@ == format@
                &&& info.largeur == largeur_image(image)
                &&& info.hauteur == hauteur_image(image)
                &&& info.taille_octets == taille_octets
            },
            (Err(cause), Err(erreur)) => {
                &&& erreur is Donnees
                &&& erreur.message() == "Impossible de charger l'image : "@ + cause@
            },
            _ => false,
        },
{
    match decodage {
        Ok(image) => {
            let nom = match nom_de_fichier(chemin) {
                Some(nom) => nom,
                None => String::new(),
            };
            Ok(
                InfoImage {
                    nom,
                    chemin: String::from_str(chemin),
                    format: String::from_str(format),
                    largeur: largeur_de(&image),
                    hauteur: hauteur_de(&image),
                    taille_octets,
                },
            )
        },
        Err(cause) => Err(
            ErreurApplication::Donnees {
                message: composer("Impossible de charger l'image : ", cause.as_str()),
            },
        ),
    }
}

/// Analyses an image file from what was read of it. The format is the one
/// of the extension of the path, whatever the decoder finds in the bytes; a
/// path whose extension is missing or is not of a supported format is
/// refused before anything is decoded.
pub fn analyser_image(chemin: &str, lecture: &LectureSource) -> (resultat: ResultatApplication<
    InfoImage,
>)
    ensures
        resultat is Ok <==> image_de_la_source(chemin@, *lecture) is Some,
        match resultat {
            Ok(info) => analyse_conforme(chemin@, *lecture, info),
            Err(erreur) => echec_d_analyse(chemin@, *lecture, erreur),
        },
{
    if !lecture.existe {
        return Err(
            ErreurApplication::Donnees {
                message: String::from_str("Le fichier image n'existe pas"),
            },
        );
    }
    let taille_octets = match &lecture.taille {
        Ok(taille) => *taille,
        Err(cause) => {
            return Err(
                ErreurApplication::Systeme {
                    message: composer("Impossible de lire les métadonnées : ", cause.as_str()),
                },
            );
        },
    };
    let format = match detecter_format_image(chemin) {
        Ok(etiquette) => etiquette,
        Err(erreur) => {
            return Err(erreur);
        },
    };
    let decodage = match &lecture.contenu {
        Ok(octets) => decoder_source(chemin, octets.as_slice()),
        Err(cause) => {
            return Err(
                ErreurApplication::Donnees {
                    message: composer("Impossible de charger l'image : ", cause.as_str()),
                },
            );
        },
    };
    let ghost decode = decodage;
    let resultat = decrire_image(chemin, taille_octets, format, decodage);
    proof {
        if let Err(cause) = decode {
            assert(resultat->Err_0.message() == "Impossible de charger l'image : "@ + cause@);
        }
    }
    resultat
}

/// What the interface is told of an analysis: a description is handed on
/// as it is, an error as its text behind fixed words.
pub fn dire_analyse(analyse: ResultatApplication<InfoImage>) -> (resultat: Result<
    InfoImage,
    String,
>)
    ensures
        match analyse {
            Ok(info) => resultat == Ok::<InfoImage, String>(info),
            Err(erreur) => resultat matches Err(message) && message@
                == "Impossible d'analyser l'image : "@ + erreur.texte_spec(),
        },
{
    match analyse {
        Ok(info) => Ok(info),
        Err(erreur) => Err(composer("Impossible d'analyser l'image : ", erreur.texte().as_str())),
    }
}

/// Analyses an image file for the interface: the description of the file,
/// or the text of the failure of its analysis.
pub fn obtenir_info_image(chemin_fichier: &str, lecture: &LectureSource) -> (resultat: Result<
    InfoImage,
    String,
>)
    ensures
        resultat is Ok <==> image_de_la_source(chemin_fichier@, *lecture) is Some,
        match resultat {
            Ok(info) => analyse_conforme(chemin_fichier@, *lecture, info),
            Err(message) => exists|erreur: ErreurApplication|
                {
                    &&& echec_d_analyse(chemin_fichier@, *lecture, erreur)
                    &&& message@ == "Impossible d'analyser l'image : "@
                        + #[trigger] erreur.texte_spec()
                },
        },
{
    dire_analyse(analyser_image(chemin_fichier, lecture))
}

} // verus!
