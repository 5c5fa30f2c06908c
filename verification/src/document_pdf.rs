//! What the `lopdf` crate finds in a PDF document.
//!
//! Nothing in this file is proved: each function hands its arguments to the
//! `lopdf` crate or to the standard library, and its contract is taken on
//! trust. A document and a dictionary are opaque here; the library knows them
//! by what the crate tells of them.

use vstd::prelude::*;
use crate::commandes::pdf::{ObjetPdf, VueObjet};

verus! {

/// `lopdf::Document`, a parsed document, opaque to the verifier.
#[verifier::external_type_specification]
#[verifier::external_body]
pub struct ExDocument(lopdf::Document);

/// `lopdf::Dictionary`, a dictionary of a document, opaque to the verifier.
#[verifier::external_type_specification]
#[verifier::external_body]
pub struct ExDictionary(lopdf::Dictionary);

/// The trailer of a document.
pub uninterp spec fn trailer_du_document(document: lopdf::Document) -> lopdf::Dictionary;

/// What a dictionary holds under a key, if it holds anything.
pub uninterp spec fn entree_du_dictionnaire(
    dictionnaire: lopdf::Dictionary,
    cle: Seq<u8>,
) -> Option<VueObjet>;

/// The object that a document holds under a number and a generation, once
/// references are followed, if it holds one.
pub uninterp spec fn objet_du_document(
    document: lopdf::Document,
    numero: u32,
    generation: u16,
) -> Option<VueObjet>;

/// Number of pages the `lopdf` crate finds in a document.
pub uninterp spec fn pages_du_document(document: lopdf::Document) -> nat;

/// The PDF version a document announces, such as `1.4`.
pub uninterp spec fn version_du_document(document: lopdf::Document) -> Seq<char>;

/// The text of bytes read as UTF-8, as `String::from_utf8_lossy` gives it:
/// what is not valid UTF-8 is replaced.
pub uninterp spec fn texte_tolerant(octets: Seq<u8>) -> Seq<char>;

/// The view of an optional object.
pub open spec fn vue_objet(objet: Option<ObjetPdf>) -> Option<VueObjet> {
    match objet {
        Some(o) => Some(o@),
        None => None,
    }
}

/// Reads the field `trailer` of a `lopdf::Document`. Trusted: the result is
/// the trailer of the document.
#[verifier::external_body]
pub(crate) fn trailer_de(document: &lopdf::Document) -> (trailer: lopdf::Dictionary)
    ensures
        trailer == trailer_du_document(*document),
{
    document.trailer.clone()
}

/// Calls `lopdf::Dictionary::get`. Trusted: the result is what the
/// dictionary holds under the key, a reference, a dictionary and a string
/// told apart from the rest.
#[verifier::external_body]
pub(crate) fn entree(dictionnaire: &lopdf::Dictionary, cle: &[u8]) -> (objet: Option<ObjetPdf>)
    ensures
        vue_objet(objet) == entree_du_dictionnaire(*dictionnaire, cle@),
{
    match dictionnaire.get(cle) {
        Ok(lopdf::Object::Reference(id)) => Some(
            ObjetPdf::Reference { numero: id.0, generation: id.1 },
        ),
        Ok(lopdf::Object::Dictionary(d)) => Some(ObjetPdf::Dictionnaire(d.clone())),
        Ok(lopdf::Object::String(octets, _)) => Some(ObjetPdf::Chaine(octets.clone())),
        Ok(_) => Some(ObjetPdf::Autre),
        Err(_) => None,
    }
}

/// Calls `lopdf::Document::get_object`. Trusted: the result is the object
/// the document holds under the number and generation, a reference, a
/// dictionary and a string told apart from the rest.
#[verifier::external_body]
pub(crate) fn objet(document: &lopdf::Document, numero: u32, generation: u16) -> (objet: Option<
    ObjetPdf,
>)
    ensures
        vue_objet(objet) == objet_du_document(*document, numero, generation),
{
    match document.get_object((numero, generation)) {
        Ok(lopdf::Object::Reference(id)) => Some(
            ObjetPdf::Reference { numero: id.0, generation: id.1 },
        ),
        Ok(lopdf::Object::Dictionary(d)) => Some(ObjetPdf::Dictionnaire(d.clone())),
        Ok(lopdf::Object::String(octets, _)) => Some(ObjetPdf::Chaine(octets.clone())),
        Ok(_) => Some(ObjetPdf::Autre),
        Err(_) => None,
    }
}

/// Calls `lopdf::Document::get_pages` and counts the pages. Trusted: the
/// result is the number of pages of the document.
#[verifier::external_body]
pub(crate) fn nombre_de_pages(document: &lopdf::Document) -> (nombre: usize)
    ensures
        nombre == pages_du_document(*document),
{
    document.get_pages().len()
}

/// Reads the field `version` of a `lopdf::Document`. Trusted: the result
/// is the version of the document.
#[verifier::external_body]
pub(crate) fn version_de(document: &lopdf::Document) -> (version: String)
    ensures
        version@ == version_du_document(*document),
{
    document.version.clone()
}

/// Calls `String::from_utf8_lossy`. Trusted: the result is the text the
/// standard library reads in the bytes, a function of the bytes alone.
#[verifier::external_body]
pub(crate) fn en_texte_tolerant(octets: &[u8]) -> (texte: String)
    ensures
        texte@ == texte_tolerant(octets@),
{
    String::from_utf8_lossy(octets).into_owned()
}

} // verus!
