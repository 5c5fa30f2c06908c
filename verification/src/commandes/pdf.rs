//! PDF operations: what describes a document and the options of a merge or
//! of a split.

use vstd::prelude::*;
use vstd::string::StringExecFns;
use crate::document_pdf::{
    en_texte_tolerant, entree, entree_du_dictionnaire, nombre_de_pages, objet, objet_du_document,
    pages_du_document, texte_tolerant, trailer_de, trailer_du_document, version_de,
    version_du_document,
};
use crate::erreurs::composer;
use crate::texte::{decimal, en_decimal};

verus! {

/// The metadata of a PDF document.
#[derive(Debug, Clone)]
pub struct MetadonneesPdf {
    pub titre: Option<String>,
    pub auteur: Option<String>,
    pub sujet: Option<String>,
    /// The software the document was written with.
    pub createur: Option<String>,
    pub producteur: Option<String>,
    pub date_creation: Option<String>,
    pub date_modification: Option<String>,
}

/// How to merge documents.
#[derive(Debug, Clone)]
pub struct OptionsFusionPdf {
    pub inclure_signets: bool,
    pub optimiser: bool,
    /// Whether a title page lists the merged files.
    pub ajouter_page_titre: bool,
}

/// How to split a document.
#[derive(Debug, Clone)]
pub struct OptionsDivisionPdf {
    /// `pages` for one page per file, `plages` for ranges of pages.
    pub mode: String,
    /// Ranges of pages, such as `1-5`.
    pub plages: Option<Vec<String>>,
    /// What the names of the files written start with.
    pub prefixe_nom: String,
}

/// What an entry of a dictionary or an object of a document is, as far as
/// the library looks: a reference to another object, a dictionary, a string,
/// or anything else.
pub enum ObjetPdf {
    Reference { numero: u32, generation: u16 },
    Dictionnaire(lopdf::Dictionary),
    Chaine(Vec<u8>),
    Autre,
}

/// An object as a value.
pub enum VueObjet {
    Reference { numero: u32, generation: u16 },
    Dictionnaire(lopdf::Dictionary),
    Chaine(Seq<u8>),
    Autre,
}

impl View for ObjetPdf {
    type V = VueObjet;

    open spec fn view(&self) -> VueObjet {
        match self {
            ObjetPdf::Reference { numero, generation } => VueObjet::Reference {
                numero: *numero,
                generation: *generation,
            },
            ObjetPdf::Dictionnaire(dictionnaire) => VueObjet::Dictionnaire(*dictionnaire),
            ObjetPdf::Chaine(octets) => VueObjet::Chaine(octets@),
            ObjetPdf::Autre => VueObjet::Autre,
        }
    }
}

/// The bytes of the key `Info`.
pub open spec fn cle_info() -> Seq<u8> {
    seq![73u8, 110, 102, 111]
}

/// The information dictionary of a document: the dictionary that the entry
/// `Info` of the trailer refers to. There is none when the trailer has no
/// such entry, when the entry is not a reference, or when the reference does
/// not lead to a dictionary.
pub open spec fn dictionnaire_info(document: lopdf::Document) -> Option<lopdf::Dictionary> {
    match entree_du_dictionnaire(trailer_du_document(document), cle_info()) {
        Some(VueObjet::Reference { numero, generation }) => match objet_du_document(
            document,
            numero,
            generation,
        ) {
            Some(VueObjet::Dictionnaire(dictionnaire)) => Some(dictionnaire),
            _ => None,
        },
        _ => None,
    }
}

/// The text of an entry of the information dictionary of a document, if
/// the document has such a dictionary and it holds a string under that key.
pub open spec fn champ_info(document: lopdf::Document, cle: Seq<u8>) -> Option<Seq<char>> {
    match dictionnaire_info(document) {
        Some(dictionnaire) => match entree_du_dictionnaire(dictionnaire, cle) {
            Some(VueObjet::Chaine(octets)) => Some(texte_tolerant(octets)),
            _ => None,
        },
        None => None,
    }
}

/// The view of an optional text.
pub open spec fn vue_champ(champ: Option<String>) -> Option<Seq<char>> {
    match champ {
        Some(texte) => Some(texte@),
        None => None,
    }
}

/// The bytes of the key `Title`.
pub open spec fn cle_titre() -> Seq<u8> {
    seq![84u8, 105, 116, 108, 101]
}

/// The bytes of the key `Author`.
pub open spec fn cle_auteur() -> Seq<u8> {
    seq![65u8, 117, 116, 104, 111, 114]
}

/// The bytes of the key `Subject`.
pub open spec fn cle_sujet() -> Seq<u8> {
    seq![83u8, 117, 98, 106, 101, 99, 116]
}

/// The bytes of the key `Creator`.
pub open spec fn cle_createur() -> Seq<u8> {
    seq![67u8, 114, 101, 97, 116, 111, 114]
}

/// The bytes of the key `Producer`.
pub open spec fn cle_producteur() -> Seq<u8> {
    seq![80u8, 114, 111, 100, 117, 99, 101, 114]
}

/// The bytes of the key `CreationDate`.
pub open spec fn cle_date_creation() -> Seq<u8> {
    seq![67u8, 114, 101, 97, 116, 105, 111, 110, 68, 97, 116, 101]
}

/// The bytes of the key `ModDate`.
pub open spec fn cle_date_modification() -> Seq<u8> {
    seq![77u8, 111, 100, 68, 97, 116, 101]
}

/// Finds the information dictionary of a document.
pub fn lire_dictionnaire_info(document: &lopdf::Document) -> (dictionnaire: Option<
    lopdf::Dictionary,
>)
    ensures
        dictionnaire == dictionnaire_info(*document),
{
    let info: [u8; 4] = [73, 110, 102, 111];
    assert(info@ =~= cle_info());
    let trailer = trailer_de(document);
    match entree(&trailer, info.as_slice()) {
        Some(ObjetPdf::Reference { numero, generation }) => match objet(
            document,
            numero,
            generation,
        ) {
            Some(ObjetPdf::Dictionnaire(dictionnaire)) => Some(dictionnaire),
            _ => None,
        },
        _ => None,
    }
}

/// Reads one text entry of the information dictionary of a document.
pub fn lire_champ_info(document: &lopdf::Document, cle: &[u8]) -> (champ: Option<String>)
    ensures
        vue_champ(champ) == champ_info(*document, cle@),
{
    match lire_dictionnaire_info(document) {
        Some(dictionnaire) => match entree(&dictionnaire, cle) {
            Some(ObjetPdf::Chaine(octets)) => Some(en_texte_tolerant(octets.as_slice())),
            _ => None,
        },
        None => None,
    }
}

/// The metadata are those of the document: each field is the text entry of
/// its key in the information dictionary.
pub open spec fn metadonnees_conformes(
    document: lopdf::Document,
    metadonnees: MetadonneesPdf,
) -> bool {
    &&& vue_champ(metadonnees.titre) == champ_info(document, cle_titre())
    &&& vue_champ(metadonnees.auteur) == champ_info(document, cle_auteur())
    &&& vue_champ(metadonnees.sujet) == champ_info(document, cle_sujet())
    &&& vue_champ(metadonnees.createur) == champ_info(document, cle_createur())
    &&& vue_champ(metadonnees.producteur) == champ_info(document, cle_producteur())
    &&& vue_champ(metadonnees.date_creation) == champ_info(document, cle_date_creation())
    &&& vue_champ(metadonnees.date_modification) == champ_info(
        document,
        cle_date_modification(),
    )
}

/// The metadata of a document: the text entries `Title`, `Author`,
/// `Subject`, `Creator`, `Producer`, `CreationDate` and `ModDate` of its
/// information dictionary, each absent when the dictionary holds no string
/// under its key.
pub fn extraire_metadonnees_pdf(document: &lopdf::Document) -> (metadonnees: MetadonneesPdf)
    ensures
        metadonnees_conformes(*document, metadonnees),
{
    let titre: [u8; 5] = [84, 105, 116, 108, 101];
    let auteur: [u8; 6] = [65, 117, 116, 104, 111, 114];
    let sujet: [u8; 7] = [83, 117, 98, 106, 101, 99, 116];
    let createur: [u8; 7] = [67, 114, 101, 97, 116, 111, 114];
    let producteur: [u8; 8] = [80, 114, 111, 100, 117, 99, 101, 114];
    let date_creation: [u8; 12] = [67, 114, 101, 97, 116, 105, 111, 110, 68, 97, 116, 101];
    let date_modification: [u8; 7] = [77, 111, 100, 68, 97, 116, 101];
    assert(titre@ =~= cle_titre());
    assert(auteur@ =~= cle_auteur());
    assert(sujet@ =~= cle_sujet());
    assert(createur@ =~= cle_createur());
    assert(producteur@ =~= cle_producteur());
    assert(date_creation@ =~= cle_date_creation());
    assert(date_modification@ =~= cle_date_modification());
    MetadonneesPdf {
        titre: lire_champ_info(document, titre.as_slice()),
        auteur: lire_champ_info(document, auteur.as_slice()),
        sujet: lire_champ_info(document, sujet.as_slice()),
        createur: lire_champ_info(document, createur.as_slice()),
        producteur: lire_champ_info(document, producteur.as_slice()),
        date_creation: lire_champ_info(document, date_creation.as_slice()),
        date_modification: lire_champ_info(document, date_modification.as_slice()),
    }
}

/// Number of pages of a document, capped at the largest 32-bit count.
pub open spec fn pages_comptees(document: lopdf::Document) -> nat {
    if pages_du_document(document) <= u32::MAX {
        pages_du_document(document)
    } else {
        u32::MAX as nat
    }
}

/// Number of pages of a document, as a 32-bit count; a document with more
/// pages than such a count holds is given the largest.
pub fn compter_pages(document: &lopdf::Document) -> (pages: u32)
    ensures
        pages == pages_comptees(*document),
{
    let nombre = nombre_de_pages(document);
    if nombre > u32::MAX as usize {
        u32::MAX
    } else {
        nombre as u32
    }
}

/// Adds the pages of one more document to a total, without exceeding what a
/// 32-bit count holds.
pub fn ajouter_pages(total: u32, pages: u32) -> (somme: u32)
    ensures
        somme == if total + pages <= u32::MAX {
            (total + pages) as nat
        } else {
            u32::MAX as nat
        },
{
    total.saturating_add(pages)
}

/// A merge takes at least two documents.
pub fn verifier_nombre_a_fusionner(nombre: usize) -> (verdict: Result<(), String>)
    ensures
        verdict is Ok <==> nombre >= 2,
        verdict matches Err(message) ==> message@
            == "Il faut au moins 2 fichiers PDF pour effectuer une fusion"@,
{
    if nombre < 2 {
        Err(String::from_str("Il faut au moins 2 fichiers PDF pour effectuer une fusion"))
    } else {
        Ok(())
    }
}

/// Progress, in percent, while the document of rank `index` out of `total`
/// is loaded: loading spans 40 to 60 percent.
pub fn progression_du_chargement(index: usize, total: usize) -> (position: u64)
    requires
        index < total,
    ensures
        position == 40 + (index * 20) / (total as int),
        40 <= position < 60,
{
    let numerateur: u128 = index as u128 * 20;
    let quotient: u128 = numerateur / (total as u128);
    assert(quotient < 20) by (nonlinear_arith)
        requires
            quotient == numerateur / (total as u128),
            numerateur == index * 20,
            index < total,
    {
        assert(numerateur < 20 * total);
        assert(numerateur / (total as u128) < 20);
    }
    40 + quotient as u64
}

/// What is said once `nombre` documents are merged.
pub fn message_fusion_reussie(nombre: usize) -> (message: String)
    ensures
        message@ == "Fusion réussie : "@ + decimal(nombre as nat) + " fichiers fusionnés en 1"@,
{
    let mut texte = String::from_str("Fusion réussie : ");
    texte.append(en_decimal(nombre as u128).as_str());
    texte.append(" fichiers fusionnés en 1");
    texte
}

/// What is said once a document of `pages` pages is split into `fichiers`
/// files.
pub fn message_division_reussie(pages: u32, fichiers: usize) -> (message: String)
    ensures
        message@ == "Division réussie : "@ + decimal(pages as nat) + " pages divisées en "@
            + decimal(fichiers as nat) + " fichiers"@,
{
    let mut texte = String::from_str("Division réussie : ");
    texte.append(en_decimal(pages as u128).as_str());
    texte.append(" pages divisées en ");
    texte.append(en_decimal(fichiers as u128).as_str());
    texte.append(" fichiers");
    texte
}

/// What stands for the files of a split while splitting only counts the
/// pages.
pub fn message_division_simulee(pages: u32) -> (message: String)
    ensures
        message@ == "Division simulée : "@ + decimal(pages as nat) + " pages détectées"@,
{
    let mut texte = String::from_str("Division simulée : ");
    texte.append(en_decimal(pages as u128).as_str());
    texte.append(" pages détectées");
    texte
}

/// What was found when a PDF file was read.
pub struct LecturePdf {
    /// Whether the file exists.
    pub existe: bool,
    /// Its size in bytes, or why it could not be had.
    pub taille: Result<u64, String>,
    /// The document parsed from it, or why it could not be loaded.
    pub document: Result<lopdf::Document, String>,
}

/// What is known of a PDF file, but for the time of its analysis.
#[derive(Debug, Clone)]
pub struct DescriptionPdf {
    pub chemin_fichier: String,
    pub nombre_pages: u32,
    pub taille_octets: u64,
    /// PDF version, such as `1.4`.
    pub version: String,
    pub metadonnees: MetadonneesPdf,
}

/// What a PDF operation did, but for its time and duration.
#[derive(Debug, Clone)]
pub struct BilanPdf {
    pub message: String,
    /// The files written.
    pub fichiers_sortie: Vec<String>,
    pub pages_traitees: u32,
}

/// The message of the failure that reading a PDF file calls for, if any: a
/// missing file, an unreadable size, a document that does not load, in this
/// order.
pub open spec fn refus_de_description(chemin: Seq<char>, lecture: LecturePdf) -> Option<Seq<char>> {
    if !lecture.existe {
        Some("Le fichier PDF n'existe pas : "@ + chemin)
    } else if let Err(cause) = lecture.taille {
        Some("Impossible de lire les métadonnées du fichier : "@ + cause@)
    } else if let Err(cause) = lecture.document {
        Some("Impossible de charger le PDF : "@ + cause@)
    } else {
        None
    }
}

/// Describes a PDF file from what was read of it.
pub fn decrire_pdf(chemin_fichier: &str, lecture: &LecturePdf) -> (resultat: Result<
    DescriptionPdf,
    String,
>)
    ensures
        match resultat {
            Ok(description) => {
                &&& refus_de_description(chemin_fichier@, *lecture) is None
                &&& lecture.document matches Ok(document)
                &&& lecture.taille == Ok::<u64, String>(description.taille_octets)
                &&& description.chemin_fichier@ == chemin_fichier@
                &&& description.nombre_pages == pages_comptees(document)
                &&& description.version@ == version_du_document(document)
                &&& metadonnees_conformes(document, description.metadonnees)
            },
            Err(message) => refus_de_description(chemin_fichier@, *lecture) == Some(message@),
        },
{
    if !lecture.existe {
        return Err(composer("Le fichier PDF n'existe pas : ", chemin_fichier));
    }
    let taille_octets = match &lecture.taille {
        Ok(taille) => *taille,
        Err(cause) => {
            return Err(
                composer("Impossible de lire les métadonnées du fichier : ", cause.as_str()),
            );
        },
    };
    let document = match &lecture.document {
        Ok(document) => document,
        Err(cause) => {
            return Err(composer("Impossible de charger le PDF : ", cause.as_str()));
        },
    };
    Ok(
        DescriptionPdf {
            chemin_fichier: String::from_str(chemin_fichier),
            nombre_pages: compter_pages(document),
            taille_octets,
            version: version_de(document),
            metadonnees: extraire_metadonnees_pdf(document),
        },
    )
}

/// A split starts from a file that exists.
pub fn verifier_pdf_a_diviser(chemin_fichier: &str, existe: bool) -> (verdict: Result<(), String>)
    ensures
        verdict is Ok <==> existe,
        verdict matches Err(message) ==> message@ == "Le fichier PDF n'existe pas : "@
            + chemin_fichier@,
{
    if existe {
        Ok(())
    } else {
        Err(composer("Le fichier PDF n'existe pas : ", chemin_fichier))
    }
}

/// The message of the failure that a split calls for once its output folder
/// was asked for and its document read, if any: a folder that could not be
/// created, then a document that does not load.
pub open spec fn refus_de_division(
    dossier: Result<(), String>,
    chargement: Result<lopdf::Document, String>,
) -> Option<Seq<char>> {
    if let Err(cause) = dossier {
        Some("Impossible de créer le dossier de sortie : "@ + cause@)
    } else if let Err(cause) = chargement {
        Some("Impossible de charger le PDF : "@ + cause@)
    } else {
        None
    }
}

/// Ends a split. Splitting only counts the pages for now: one text stands
/// for the files that would be written.
pub fn conclure_division(
    dossier: Result<(), String>,
    chargement: Result<lopdf::Document, String>,
) -> (resultat: Result<BilanPdf, String>)
    ensures
        match resultat {
            Ok(bilan) => {
                &&& refus_de_division(dossier, chargement) is None
                &&& chargement matches Ok(document)
                &&& bilan.pages_traitees == pages_comptees(document)
                &&& bilan.fichiers_sortie@.len() == 1
                &&& bilan.fichiers_sortie@[0]@ == "Division simulée : "@ + decimal(
                    pages_comptees(document),
                ) + " pages détectées"@
                &&& bilan.message@ == "Division réussie : "@ + decimal(pages_comptees(document))
                    + " pages divisées en "@ + decimal(1) + " fichiers"@
            },
            Err(message) => refus_de_division(dossier, chargement) == Some(message@),
        },
{
    if let Err(cause) = dossier {
        return Err(composer("Impossible de créer le dossier de sortie : ", cause.as_str()));
    }
    let document = match chargement {
        Ok(document) => document,
        Err(cause) => {
            return Err(composer("Impossible de charger le PDF : ", cause.as_str()));
        },
    };
    let pages = compter_pages(&document);
    let mut fichiers_sortie: Vec<String> = Vec::new();
    fichiers_sortie.push(message_division_simulee(pages));
    let message = message_division_reussie(pages, fichiers_sortie.len());
    Ok(BilanPdf { message, fichiers_sortie, pages_traitees: pages })
}

} // verus!
