//! Conversion of an image to another format, with optional resizing.
//!
//! A conversion goes through three steps, between which whoever runs it does
//! the writing: the source is prepared, the result is encoded once the
//! folder of the output exists, and the conversion is concluded once the
//! output file is written.

use vstd::prelude::*;
use vstd::string::StringExecFns;
use crate::chemins::{dossier_parent, extension, parent_du_chemin, vue_option};
use crate::codec::{
    encoder_image, encoder_jpeg, fichier_encode, fichier_jpeg, hauteur_de, hauteur_image,
    image_exacte, largeur_de, largeur_image, miniature, miniature_de, redimensionner_exact,
    taille_du_pixel, taille_du_tampon, tampon_exact,
};
use crate::commandes::images::{
    format_de_l_extension, format_demande, reduction_dixiemes, resoudre_format_sortie,
    texte_pourcentage, FormatSortie, OptionsConversion, Pourcentage, ResultatConversion,
};
use crate::commandes::source::{
    avancement, charger_source, commence_par, echec_de_chargement, echouer,
    image_de_la_source, signal_erreur, signal_succes, source_acceptee, Echec, EchecEcriture,
    LectureSource,
};
use crate::erreurs::{composer, ErreurApplication, ErreurUtilitaire};
use crate::utilitaires::fichiers::{formater_taille_fichier, taille_formatee};
use crate::utilitaires::progression::{
    clos_par_un_succes, clos_par_une_erreur, creer_progression_image, en_cours,
    lemme_fins_apres_ajout, GestionnaireProgression, VueSignal,
};

verus! {

// ---------------------------------------------------------------------------
// Resizing
// ---------------------------------------------------------------------------
/// The bound handed to the resampler on one axis when the ratio is kept:
/// the bound asked for, capped by the size of the source so that nothing is
/// enlarged. A bound of zero on either axis leaves room for one pixel each
/// way.
pub open spec fn borne_utile(borne: u32, autre: u32, source: nat) -> nat {
    if borne == 0 || autre == 0 {
        1
    } else if borne <= source {
        borne as nat
    } else {
        source
    }
}

/// The image a resize gives, when it is not refused: the image itself when
/// it is left as it is, the thumbnail the resampler makes of it for the useful
/// bounds when the ratio is kept, and else the image the resampler brings to
/// exactly the bounds.
pub open spec fn image_attendue(
    image: image::DynamicImage,
    options: OptionsConversion,
) -> image::DynamicImage {
    match (options.largeur_max, options.hauteur_max) {
        (Some(largeur_max), Some(hauteur_max)) => if options.conserver_ratio {
            if image_conservee(options, largeur_image(image), hauteur_image(image)) {
                image
            } else {
                miniature_de(
                    image,
                    borne_utile(largeur_max, hauteur_max, largeur_image(image)) as u32,
                    borne_utile(hauteur_max, largeur_max, hauteur_image(image)) as u32,
                )
            }
        } else {
            image_exacte(image, largeur_max, hauteur_max)
        },
        _ => image,
    }
}

/// Whether both bounds are given, so that resizing takes place.
pub open spec fn redimensionnement_demande(options: OptionsConversion) -> bool {
    options.largeur_max is Some && options.hauteur_max is Some
}

/// Whether an exact resize to `largeur` by `hauteur` of a source `source`
/// pixels wide asks for more memory than a vector holds.
pub open spec fn dimensions_excessives(source: nat, largeur: u32, hauteur: u32) -> bool {
    16 * (source * hauteur) > isize::MAX || 16 * (largeur * hauteur) > isize::MAX
}

/// Whether resizing is refused: an exact resize to excessive dimensions.
pub open spec fn redimensionnement_refuse(options: OptionsConversion, largeur_source: nat) -> bool {
    match (options.largeur_max, options.hauteur_max) {
        (Some(l), Some(h)) => !options.conserver_ratio && dimensions_excessives(
            largeur_source,
            l,
            h,
        ),
        _ => false,
    }
}

/// Whether the image is left as it is: a bound is missing, or the image
/// already fits within the bounds of a resize that keeps its ratio, or it is
/// empty.
pub open spec fn image_conservee(options: OptionsConversion, ls: nat, hs: nat) -> bool {
    match (options.largeur_max, options.hauteur_max) {
        (Some(l), Some(h)) => options.conserver_ratio && ((ls <= l && hs <= h) || ls == 0 || hs
            == 0),
        _ => true,
    }
}

/// What the dimensions `l` by `h` of the result owe to the options and to
/// the dimensions `ls` by `hs` of the source.
pub open spec fn dimensions_conformes(
    options: OptionsConversion,
    ls: nat,
    hs: nat,
    l: nat,
    h: nat,
) -> bool {
    match (options.largeur_max, options.hauteur_max) {
        (Some(largeur_max), Some(hauteur_max)) => if options.conserver_ratio {
            if image_conservee(options, ls, hs) {
                l == ls && h == hs
            } else {
                &&& 1 <= l <= borne_utile(largeur_max, hauteur_max, ls)
                &&& 1 <= h <= borne_utile(hauteur_max, largeur_max, hs)
            }
        } else {
            l == largeur_max && h == hauteur_max
        },
        _ => l == ls && h == hs,
    }
}

/// A resize that keeps the ratio never enlarges: the result is no wider and
/// no higher than the source. When the source already fits within the bounds
/// it keeps its dimensions.
pub proof fn loi_sans_agrandissement(options: OptionsConversion, ls: nat, hs: nat, l: nat, h: nat)
    requires
        options.conserver_ratio,
        dimensions_conformes(options, ls, hs, l, h),
    ensures
        l <= ls,
        h <= hs,
        match (options.largeur_max, options.hauteur_max) {
            (Some(largeur_max), Some(hauteur_max)) => ls <= largeur_max && hs <= hauteur_max ==> l
                == ls && h == hs,
            _ => l == ls && h == hs,
        },
{
}

/// Resizes an image as the options ask. Without both bounds nothing is
/// done. With both, the image is either scaled down to fit within them, its
/// ratio kept and never enlarged, or brought to exactly the bounds.
pub fn redimensionner(image: image::DynamicImage, options: &OptionsConversion) -> (resultat:
    Result<image::DynamicImage, ErreurApplication>)
    ensures
        resultat is Err <==> redimensionnement_refuse(*options, largeur_image(image)),
        match resultat {
            Ok(nouvelle) => {
                &&& nouvelle == image_attendue(image, *options)
                &&& dimensions_conformes(
                    *options,
                    largeur_image(image),
                    hauteur_image(image),
                    largeur_image(nouvelle),
                    hauteur_image(nouvelle),
                )
            },
            Err(erreur) => erreur is Validation && erreur.message()
                == "Dimensions demandées trop grandes"@,
        },
{
    let (largeur_max, hauteur_max) = match (options.largeur_max, options.hauteur_max) {
        (Some(l), Some(h)) => (l, h),
        _ => {
            return Ok(image);
        },
    };
    let largeur = largeur_de(&image);
    let hauteur = hauteur_de(&image);
    if options.conserver_ratio {
        if (largeur <= largeur_max && hauteur <= hauteur_max) || largeur == 0 || hauteur == 0 {
            return Ok(image);
        }
        if largeur_max == 0 || hauteur_max == 0 {
            return Ok(miniature(&image, 1, 1));
        }
        let l = if largeur_max <= largeur {
            largeur_max
        } else {
            largeur
        };
        let h = if hauteur_max <= hauteur {
            hauteur_max
        } else {
            hauteur
        };
        Ok(miniature(&image, l, h))
    } else {
        let limite: u128 = isize::MAX as u128;
        assert(16 * (largeur as u128 * hauteur_max as u128) <= 16 * (0xFFFF_FFFF * 0xFFFF_FFFF))
            by (nonlinear_arith)
            requires
                largeur <= 0xFFFF_FFFF,
                hauteur_max <= 0xFFFF_FFFF,
        ;
        assert(16 * (largeur_max as u128 * hauteur_max as u128) <= 16 * (0xFFFF_FFFF
            * 0xFFFF_FFFF)) by (nonlinear_arith)
            requires
                largeur_max <= 0xFFFF_FFFF,
                hauteur_max <= 0xFFFF_FFFF,
        ;
        if 16 * (largeur as u128 * hauteur_max as u128) > limite || 16 * (largeur_max as u128
            * hauteur_max as u128) > limite {
            return Err(
                ErreurApplication::Validation {
                    message: String::from_str("Dimensions demandées trop grandes"),
                },
            );
        }
        Ok(redimensionner_exact(&image, largeur_max, hauteur_max))
    }
}

// ---------------------------------------------------------------------------
// The three steps
// ---------------------------------------------------------------------------
/// A conversion whose source is decoded and resized and whose output format
/// is known; nothing is written yet.
pub struct ConversionPrete {
    pub chemin_entree: String,
    pub chemin_sortie: String,
    /// The output format as it was asked for.
    pub format_demande: String,
    pub format: FormatSortie,
    pub qualite: u8,
    pub taille_avant: u64,
    pub format_origine: &'static str,
    pub largeur_source: u32,
    pub hauteur_source: u32,
    pub image: image::DynamicImage,
    /// The folder of the output, to create before the output is written.
    pub dossier: Option<String>,
    pub progression: GestionnaireProgression,
}

/// A conversion whose output is encoded and waits to be written.
pub struct ConversionEncodee {
    pub chemin_entree: String,
    pub chemin_sortie: String,
    pub format_demande: String,
    pub format: FormatSortie,
    pub taille_avant: u64,
    pub format_origine: &'static str,
    /// The bytes of the output file.
    pub octets: Vec<u8>,
    pub progression: GestionnaireProgression,
}

/// A finished operation: its result, and the record that ends with the
/// signal of the success.
#[derive(Debug)]
pub struct Issue {
    pub resultat: ResultatConversion,
    pub progression: GestionnaireProgression,
}

/// The quality of the lossy encoding when none is asked for.
pub const QUALITE_PAR_DEFAUT: u8 = 85;

/// The message of the update that announces resizing, or its absence.
pub open spec fn message_redimensionnement(options: OptionsConversion) -> Seq<char> {
    if redimensionnement_demande(options) {
        "Redimensionnement..."@
    } else {
        "Pas de redimensionnement nécessaire"@
    }
}

/// The record of a conversion after its source is loaded and resized.
pub open spec fn journal_redimensionne(journal: Seq<VueSignal>, options: OptionsConversion) -> Seq<
    VueSignal,
> {
    journal.push(avancement(20, "Vérification du fichier..."@)).push(
        avancement(40, "Chargement de l'image..."@),
    ).push(avancement(60, message_redimensionnement(options)))
}

/// Whether a conversion can be prepared: its source has an image, the
/// resize is not refused, and the output format is a supported one.
pub open spec fn conversion_possible(
    chemin_entree: Seq<char>,
    options: OptionsConversion,
    lecture: LectureSource,
) -> bool {
    &&& image_de_la_source(chemin_entree, lecture) matches Some(source)
    &&& !redimensionnement_refuse(options, largeur_image(source))
    &&& format_demande(options.format_sortie@) is Ok
}

/// What a prepared conversion holds, from the inputs of the preparation: the
/// image is the one the resize gives of the image of the source.
pub open spec fn conversion_conforme(
    chemin_entree: Seq<char>,
    chemin_sortie: Seq<char>,
    options: OptionsConversion,
    lecture: LectureSource,
    prete: ConversionPrete,
) -> bool {
    &&& source_acceptee(chemin_entree, lecture)
    &&& prete.chemin_entree@ == chemin_entree
    &&& prete.chemin_sortie@ == chemin_sortie
    &&& prete.format_demande@ == options.format_sortie@
    &&& format_demande(options.format_sortie@) == Ok::<FormatSortie, Seq<char>>(prete.format)
    &&& prete.qualite == match options.qualite {
        Some(q) => q,
        None => QUALITE_PAR_DEFAUT,
    }
    &&& lecture.taille == Ok::<u64, String>(prete.taille_avant)
    &&& format_de_l_extension(extension(chemin_entree)) == Ok::<Seq<char>, Seq<char>>(
        prete.format_origine@,
    )
    &&& image_de_la_source(chemin_entree, lecture) matches Some(source)
    &&& prete.largeur_source == largeur_image(source)
    &&& prete.hauteur_source == hauteur_image(source)
    &&& prete.image == image_attendue(source, options)
    &&& !redimensionnement_refuse(options, prete.largeur_source as nat)
    &&& dimensions_conformes(
        options,
        prete.largeur_source as nat,
        prete.hauteur_source as nat,
        largeur_image(prete.image),
        hauteur_image(prete.image),
    )
    &&& vue_option(prete.dossier) == dossier_parent(chemin_sortie)
    &&& prete.progression.journal() == journal_redimensionne(Seq::empty(), options).push(
        avancement(70, "Préparation de la conversion..."@),
    )
}

/// A failure that the preparation of a conversion can end on, once its
/// source is loaded: excessive dimensions, or an output format that is not
/// supported.
pub open spec fn echec_de_preparation(options: OptionsConversion, echec: Echec) -> bool {
    ||| {
        &&& redimensionnement_demande(options)
        &&& !options.conserver_ratio
        &&& echec.erreur is Validation
        &&& echec.erreur.message() == "Dimensions demandées trop grandes"@
        &&& echec.progression.journal() == journal_redimensionne(Seq::empty(), options).push(
            signal_erreur("Dimensions demandées trop grandes"@),
        )
    }
    ||| {
        &&& format_demande(options.format_sortie@) == Err::<FormatSortie, Seq<char>>(
            echec.erreur.message(),
        )
        &&& echec.erreur is Validation
        &&& echec.progression.journal() == journal_redimensionne(Seq::empty(), options).push(
            avancement(70, "Préparation de la conversion..."@),
        ).push(signal_erreur("Format non supporté"@))
    }
}

/// First step of a conversion: the source is examined, decoded and resized,
/// and the output format is read. Nothing is written.
pub fn preparer_conversion(
    chemin_entree: &str,
    chemin_sortie: &str,
    options: &OptionsConversion,
    lecture: LectureSource,
) -> (resultat: Result<ConversionPrete, Echec>)
    ensures
        match resultat {
            Ok(prete) => conversion_conforme(
                chemin_entree@,
                chemin_sortie@,
                *options,
                lecture,
                prete,
            ),
            Err(echec) => {
                ||| echec_de_chargement(chemin_entree@, lecture, Seq::empty(), echec)
                ||| source_acceptee(chemin_entree@, lecture) && echec_de_preparation(
                    *options,
                    echec,
                )
            },
        },
        resultat is Ok <==> conversion_possible(chemin_entree@, *options, lecture),
        match resultat {
            Ok(prete) => en_cours(prete.progression.journal()),
            Err(echec) => clos_par_une_erreur(echec.progression.journal()),
        },
{
    let progression = creer_progression_image("Conversion d'image");
    let source = match charger_source(chemin_entree, lecture, progression) {
        Ok(source) => source,
        Err(echec) => {
            return Err(echec);
        },
    };
    let mut progression = source.progression;
    let largeur_source = largeur_de(&source.image);
    let hauteur_source = hauteur_de(&source.image);
    if options.largeur_max.is_some() && options.hauteur_max.is_some() {
        progression.mettre_a_jour(60, Some("Redimensionnement..."));
    } else {
        progression.mettre_a_jour(60, Some("Pas de redimensionnement nécessaire"));
    }
    let image = match redimensionner(source.image, options) {
        Ok(image) => image,
        Err(erreur) => {
            return Err(echouer(progression, "Dimensions demandées trop grandes", erreur));
        },
    };
    progression.mettre_a_jour(70, Some("Préparation de la conversion..."));
    let format = match resoudre_format_sortie(options.format_sortie.as_str()) {
        Ok(format) => format,
        Err(erreur) => {
            return Err(echouer(progression, "Format non supporté", erreur));
        },
    };
    let qualite = match options.qualite {
        Some(q) => q,
        None => QUALITE_PAR_DEFAUT,
    };
    Ok(
        ConversionPrete {
            chemin_entree: String::from_str(chemin_entree),
            chemin_sortie: String::from_str(chemin_sortie),
            format_demande: options.format_sortie.clone(),
            format,
            qualite,
            taille_avant: source.taille_avant,
            format_origine: source.format_origine,
            largeur_source,
            hauteur_source,
            image,
            dossier: parent_du_chemin(chemin_sortie),
            progression,
        },
    )
}

/// The words of a failed save, by format: the signal recorded and what the
/// message of the error starts with.
pub open spec fn signal_de_sauvegarde(format: FormatSortie) -> Seq<char> {
    if format == FormatSortie::Jpeg {
        "Erreur d'encodage JPEG"@
    } else {
        "Erreur de sauvegarde"@
    }
}

/// What the message of a failed save starts with, by format.
pub open spec fn prefixe_de_sauvegarde(format: FormatSortie) -> Seq<char> {
    if format == FormatSortie::Jpeg {
        "Erreur d'encodage JPEG : "@
    } else {
        "Erreur de sauvegarde : "@
    }
}

/// The message of the error of a folder that could not be created: what
/// the helper that creates folders said, behind fixed words.
pub open spec fn message_echec_dossier(erreur: ErreurUtilitaire) -> Seq<char> {
    "Impossible de créer le dossier : "@ + erreur.texte_spec()
}

/// The failure of an operation whose output folder could not be created.
pub fn echec_du_dossier(erreur: &ErreurUtilitaire, progression: GestionnaireProgression) -> (echec:
    Echec)
    ensures
        echec.erreur is Systeme,
        echec.erreur.message() == message_echec_dossier(*erreur),
        echec.progression.journal() == progression.journal().push(
            signal_erreur("Impossible de créer le dossier"@),
        ),
        en_cours(progression.journal()) ==> clos_par_une_erreur(echec.progression.journal()),
{
    let detail = erreur.texte();
    echouer(
        progression,
        "Impossible de créer le dossier",
        ErreurApplication::Systeme {
            message: composer("Impossible de créer le dossier : ", detail.as_str()),
        },
    )
}

/// The output file of a prepared conversion, if the encoder writes one: the
/// JPEG file of the image at the quality of the conversion when the format is
/// JPEG, and else the file of the image in the format, which owes nothing to
/// the quality. An image whose buffer does not have the length its dimensions
/// ask for has no file.
pub open spec fn fichier_de_sortie(prete: ConversionPrete) -> Option<Seq<u8>> {
    if !tampon_exact(prete.image) {
        None
    } else if prete.format == FormatSortie::Jpeg {
        fichier_jpeg(prete.image, prete.qualite)
    } else {
        fichier_encode(prete.image, prete.format)
    }
}

/// What an encoded conversion holds, from the prepared one: its output
/// file, the same paths, formats and source size, and a record that grew by
/// the update of saving.
pub open spec fn encodage_conforme(prete: ConversionPrete, encodee: ConversionEncodee) -> bool {
    &&& fichier_de_sortie(prete) == Some(encodee.octets@)
    &&& encodee.chemin_entree == prete.chemin_entree
    &&& encodee.chemin_sortie == prete.chemin_sortie
    &&& encodee.format_demande == prete.format_demande
    &&& encodee.format == prete.format
    &&& encodee.taille_avant == prete.taille_avant
    &&& encodee.format_origine == prete.format_origine
    &&& encodee.progression.journal() == prete.progression.journal().push(
        avancement(90, "Sauvegarde..."@),
    )
}

impl ConversionPrete {
    /// Encodes the image in the output format, in memory. It succeeds
    /// exactly when the conversion has an output file, and gives its bytes.
    fn encoder_sortie(&self) -> (encodage: Result<Vec<u8>, String>)
        ensures
            match encodage {
                Ok(octets) => fichier_de_sortie(*self) == Some(octets@),
                Err(_) => fichier_de_sortie(*self) is None,
            },
    {
        let largeur = largeur_de(&self.image);
        let hauteur = hauteur_de(&self.image);
        let pixel = taille_du_pixel(&self.image);
        assert(largeur as u128 * hauteur as u128 <= 0xFFFF_FFFF * 0xFFFF_FFFF)
            by (nonlinear_arith)
            requires
                largeur <= 0xFFFF_FFFF,
                hauteur <= 0xFFFF_FFFF,
        ;
        let pixels: u128 = largeur as u128 * hauteur as u128;
        assert(pixels * pixel as u128 <= 0xFFFF_FFFF * 0xFFFF_FFFF * 0xFF) by (nonlinear_arith)
            requires
                pixels <= 0xFFFF_FFFF * 0xFFFF_FFFF,
                pixel <= 0xFF,
        ;
        if taille_du_tampon(&self.image) as u128 != pixels * pixel as u128 {
            return Err(
                String::from_str("Le tampon de l'image ne correspond pas à ses dimensions"),
            );
        }
        let encodage = match self.format {
            FormatSortie::Jpeg => encoder_jpeg(&self.image, self.qualite),
            _ => encoder_image(&self.image, self.format),
        };
        match encodage {
            Ok(octets) => Ok(octets),
            Err(erreur) => Err(crate::codec::texte_erreur_image(&erreur)),
        }
    }

    /// Ends the second step, once the image went through the encoder.
    pub fn conclure_encodage(self, encodage: Result<Vec<u8>, String>) -> (resultat: Result<
        ConversionEncodee,
        Echec,
    >)
        ensures
            match (encodage, resultat) {
                (Ok(octets), Ok(encodee)) => {
                    &&& encodee.octets == octets
                    &&& encodee.chemin_entree == self.chemin_entree
                    &&& encodee.chemin_sortie == self.chemin_sortie
                    &&& encodee.format_demande == self.format_demande
                    &&& encodee.format == self.format
                    &&& encodee.taille_avant == self.taille_avant
                    &&& encodee.format_origine == self.format_origine
                    &&& encodee.progression.journal() == self.progression.journal()
                },
                (Err(cause), Err(echec)) => {
                    &&& echec.erreur is Systeme
                    &&& echec.erreur.message() == prefixe_de_sauvegarde(self.format) + cause@
                    &&& echec.progression.journal() == self.progression.journal().push(
                        signal_erreur(signal_de_sauvegarde(self.format)),
                    )
                    &&& en_cours(self.progression.journal()) ==> clos_par_une_erreur(
                        echec.progression.journal(),
                    )
                },
                _ => false,
            },
    {
        match encodage {
            Ok(octets) => Ok(
                ConversionEncodee {
                    chemin_entree: self.chemin_entree,
                    chemin_sortie: self.chemin_sortie,
                    format_demande: self.format_demande,
                    format: self.format,
                    taille_avant: self.taille_avant,
                    format_origine: self.format_origine,
                    octets,
                    progression: self.progression,
                },
            ),
            Err(cause) => Err(echec_de_sauvegarde(self.format, cause.as_str(), self.progression)),
        }
    }

    /// Second step of a conversion, once the folder of the output was asked
    /// for: the image is encoded. A folder that could not be created ends the
    /// conversion, and so does a failed encoding.
    pub fn encoder(self, dossier: Result<(), ErreurUtilitaire>) -> (resultat: Result<
        ConversionEncodee,
        Echec,
    >)
        ensures
            match dossier {
                Err(cause) => {
                    &&& resultat matches Err(echec)
                    &&& echec.erreur is Systeme
                    &&& echec.erreur.message() == message_echec_dossier(cause)
                    &&& echec.progression.journal() == self.progression.journal().push(
                        signal_erreur("Impossible de créer le dossier"@),
                    )
                },
                Ok(_) => match resultat {
                    Ok(encodee) => encodage_conforme(self, encodee),
                    Err(echec) => {
                        &&& fichier_de_sortie(self) is None
                        &&& echec.erreur is Systeme
                        &&& commence_par(echec.erreur.message(), prefixe_de_sauvegarde(self.format))
                        &&& echec.progression.journal() == self.progression.journal().push(
                            avancement(90, "Sauvegarde..."@),
                        ).push(signal_erreur(signal_de_sauvegarde(self.format)))
                    },
                },
            },
            en_cours(self.progression.journal()) ==> match resultat {
                Ok(encodee) => en_cours(encodee.progression.journal()),
                Err(echec) => clos_par_une_erreur(echec.progression.journal()),
            },
    {
        let mut prete = self;
        if let Err(cause) = dossier {
            return Err(echec_du_dossier(&cause, prete.progression));
        }
        prete.progression.mettre_a_jour(90, Some("Sauvegarde..."));
        let encodage = prete.encoder_sortie();
        let ghost encode = encodage;
        let ghost format = prete.format;
        let resultat = prete.conclure_encodage(encodage);
        proof {
            if let Err(cause) = encode {
                assert(resultat->Err_0.erreur.message() == prefixe_de_sauvegarde(format)
                    + cause@);
            }
        }
        resultat
    }
}

/// The failure of a save, with the words of the format.
pub fn echec_de_sauvegarde(format: FormatSortie, cause: &str, progression: GestionnaireProgression) -> (echec:
    Echec)
    ensures
        echec.erreur is Systeme,
        echec.erreur.message() == prefixe_de_sauvegarde(format) + cause@,
        echec.progression.journal() == progression.journal().push(
            signal_erreur(signal_de_sauvegarde(format)),
        ),
        en_cours(progression.journal()) ==> clos_par_une_erreur(echec.progression.journal()),
{
    match format {
        FormatSortie::Jpeg => echouer(
            progression,
            "Erreur d'encodage JPEG",
            ErreurApplication::Systeme { message: composer("Erreur d'encodage JPEG : ", cause) },
        ),
        _ => echouer(
            progression,
            "Erreur de sauvegarde",
            ErreurApplication::Systeme { message: composer("Erreur de sauvegarde : ", cause) },
        ),
    }
}

/// The message that closes the record of a conversion.
pub open spec fn message_final_conversion(avant: u64, apres: u64) -> Seq<char> {
    "Conversion terminée: "@ + taille_formatee(avant as nat) + " → "@ + taille_formatee(
        apres as nat,
    ) + " ("@ + texte_pourcentage(reduction_dixiemes(avant as nat, apres as nat))
        + "% de réduction)"@
}

/// The message of the result of a conversion.
pub open spec fn message_resultat_conversion(
    format_origine: Seq<char>,
    format_demande: Seq<char>,
    avant: u64,
    apres: u64,
) -> Seq<char> {
    "Conversion réussie : "@ + format_origine + " -> "@ + format_demande + " ("@
        + texte_pourcentage(reduction_dixiemes(avant as nat, apres as nat)) + "% de réduction)"@
}

/// The failure that the writing of the output of a conversion calls for, if
/// any: a file that could not be created or written, then a size that could
/// not be read back.
pub open spec fn echec_de_conclusion(
    encodee: ConversionEncodee,
    ecriture: Result<(), EchecEcriture>,
    taille_apres: Result<u64, String>,
    echec: Echec,
) -> bool {
    let journal = encodee.progression.journal();
    if let Err(cause) = ecriture {
        if encodee.format == FormatSortie::Jpeg && cause.a_la_creation {
            &&& echec.erreur is Systeme
            &&& echec.erreur.message() == "Impossible de créer le fichier : "@ + cause.message@
            &&& echec.progression.journal() == journal.push(
                signal_erreur("Erreur de création du fichier"@),
            )
        } else {
            &&& echec.erreur is Systeme
            &&& echec.erreur.message() == prefixe_de_sauvegarde(encodee.format) + cause.message@
            &&& echec.progression.journal() == journal.push(
                signal_erreur(signal_de_sauvegarde(encodee.format)),
            )
        }
    } else if let Err(cause) = taille_apres {
        &&& echec.erreur is Systeme
        &&& echec.erreur.message() == "Impossible de lire le fichier de sortie : "@ + cause@
        &&& echec.progression.journal() == journal.push(avancement(100, "Finalisation..."@)).push(
            signal_erreur("Erreur de vérification du fichier"@),
        )
    } else {
        false
    }
}

/// What the result of a conversion holds.
pub open spec fn resultat_de_conversion(
    encodee: ConversionEncodee,
    taille_apres: u64,
    issue: Issue,
) -> bool {
    let resultat = issue.resultat;
    &&& resultat.succes
    &&& resultat.fichier_origine@ == encodee.chemin_entree@
    &&& resultat.fichier_sortie@ == encodee.chemin_sortie@
    &&& resultat.format_origine@ == encodee.format_origine@
    &&& resultat.format_sortie@ == encodee.format_demande@
    &&& resultat.taille_avant == encodee.taille_avant
    &&& resultat.taille_apres == taille_apres
    &&& resultat.reduction_pourcent.dixiemes == reduction_dixiemes(
        encodee.taille_avant as nat,
        taille_apres as nat,
    )
    &&& resultat.message@ == message_resultat_conversion(
        encodee.format_origine@,
        encodee.format_demande@,
        encodee.taille_avant,
        taille_apres,
    )
    &&& issue.progression.journal() == encodee.progression.journal().push(
        avancement(100, "Finalisation..."@),
    ).push(signal_succes(message_final_conversion(encodee.taille_avant, taille_apres)))
}

impl ConversionEncodee {
    /// Last step of a conversion, once the output file was written and its
    /// size read back. The conversion succeeds exactly when both went well.
    pub fn conclure(self, ecriture: Result<(), EchecEcriture>, taille_apres: Result<u64, String>) -> (resultat:
        Result<Issue, Echec>)
        ensures
            resultat is Ok <==> ecriture is Ok && taille_apres is Ok,
            match resultat {
                Ok(issue) => taille_apres matches Ok(taille) && resultat_de_conversion(
                    self,
                    taille,
                    issue,
                ),
                Err(echec) => echec_de_conclusion(self, ecriture, taille_apres, echec),
            },
            en_cours(self.progression.journal()) ==> match resultat {
                Ok(issue) => clos_par_un_succes(issue.progression.journal()),
                Err(echec) => clos_par_une_erreur(echec.progression.journal()),
            },
    {
        let mut progression = self.progression;
        if let Err(cause) = ecriture {
            if cause.a_la_creation {
                match self.format {
                    FormatSortie::Jpeg => {
                        return Err(
                            echouer(
                                progression,
                                "Erreur de création du fichier",
                                ErreurApplication::Systeme {
                                    message: composer(
                                        "Impossible de créer le fichier : ",
                                        cause.message.as_str(),
                                    ),
                                },
                            ),
                        );
                    },
                    _ => {},
                }
            }
            return Err(echec_de_sauvegarde(self.format, cause.message.as_str(), progression));
        }
        progression.mettre_a_jour(100, Some("Finalisation..."));
        let taille = match taille_apres {
            Ok(taille) => taille,
            Err(cause) => {
                return Err(
                    echouer(
                        progression,
                        "Erreur de vérification du fichier",
                        ErreurApplication::Systeme {
                            message: composer(
                                "Impossible de lire le fichier de sortie : ",
                                cause.as_str(),
                            ),
                        },
                    ),
                );
            },
        };
        let reduction = Pourcentage::reduction(self.taille_avant, taille);
        let pourcentage = reduction.texte();
        let mut message_final = String::from_str("Conversion terminée: ");
        message_final.append(formater_taille_fichier(self.taille_avant).as_str());
        message_final.append(" → ");
        message_final.append(formater_taille_fichier(taille).as_str());
        message_final.append(" (");
        message_final.append(pourcentage.as_str());
        message_final.append("% de réduction)");
        progression.terminer_avec_succes(message_final.as_str());
        let mut message = String::from_str("Conversion réussie : ");
        message.append(self.format_origine);
        message.append(" -> ");
        message.append(self.format_demande.as_str());
        message.append(" (");
        message.append(pourcentage.as_str());
        message.append("% de réduction)");
        Ok(
            Issue {
                resultat: ResultatConversion {
                    succes: true,
                    fichier_origine: self.chemin_entree,
                    fichier_sortie: self.chemin_sortie,
                    format_origine: String::from_str(self.format_origine),
                    format_sortie: self.format_demande,
                    taille_avant: self.taille_avant,
                    taille_apres: taille,
                    reduction_pourcent: reduction,
                    message,
                },
                progression,
            },
        )
    }
}

/// The record of a conversion that succeeds holds the six updates of a
/// conversion, at 20, 40, 60, 70, 90 and 100 percent, then the signal of the
/// success, and nothing else.
pub proof fn loi_jalons_de_conversion(
    chemin_entree: Seq<char>,
    chemin_sortie: Seq<char>,
    options: OptionsConversion,
    lecture: LectureSource,
    prete: ConversionPrete,
    encodee: ConversionEncodee,
    taille_apres: u64,
    issue: Issue,
)
    requires
        conversion_conforme(chemin_entree, chemin_sortie, options, lecture, prete),
        encodage_conforme(prete, encodee),
        resultat_de_conversion(encodee, taille_apres, issue),
    ensures
        issue.progression.journal() == seq![
            avancement(20, "Vérification du fichier..."@),
            avancement(40, "Chargement de l'image..."@),
            avancement(60, message_redimensionnement(options)),
            avancement(70, "Préparation de la conversion..."@),
            avancement(90, "Sauvegarde..."@),
            avancement(100, "Finalisation..."@),
            signal_succes(message_final_conversion(encodee.taille_avant, taille_apres)),
        ],
        clos_par_un_succes(issue.progression.journal()),
{
    let j0 = Seq::<VueSignal>::empty();
    let j1 = j0.push(avancement(20, "Vérification du fichier..."@));
    let j2 = j1.push(avancement(40, "Chargement de l'image..."@));
    let j3 = j2.push(avancement(60, message_redimensionnement(options)));
    let j4 = j3.push(avancement(70, "Préparation de la conversion..."@));
    let j5 = j4.push(avancement(90, "Sauvegarde..."@));
    let j6 = j5.push(avancement(100, "Finalisation..."@));
    let fin = signal_succes(message_final_conversion(encodee.taille_avant, taille_apres));
    lemme_fins_apres_ajout(j0, avancement(20, "Vérification du fichier..."@));
    lemme_fins_apres_ajout(j1, avancement(40, "Chargement de l'image..."@));
    lemme_fins_apres_ajout(j2, avancement(60, message_redimensionnement(options)));
    lemme_fins_apres_ajout(j3, avancement(70, "Préparation de la conversion..."@));
    lemme_fins_apres_ajout(j4, avancement(90, "Sauvegarde..."@));
    lemme_fins_apres_ajout(j5, avancement(100, "Finalisation..."@));
    lemme_fins_apres_ajout(j6, fin);
    assert(issue.progression.journal() == j6.push(fin));
    assert(j6.push(fin) =~= seq![
        avancement(20, "Vérification du fichier..."@),
        avancement(40, "Chargement de l'image..."@),
        avancement(60, message_redimensionnement(options)),
        avancement(70, "Préparation de la conversion..."@),
        avancement(90, "Sauvegarde..."@),
        avancement(100, "Finalisation..."@),
        fin,
    ]);
}

/// What the caller of a failed conversion is told.
pub fn message_echec_conversion(erreur: &ErreurApplication) -> (message: String)
    ensures
        message@ == "Échec de la conversion : "@ + erreur.texte_spec(),
{
    composer("Échec de la conversion : ", erreur.texte().as_str())
}

} // verus!
