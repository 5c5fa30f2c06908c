//! What the standard library reads in a path and in the case of a text.
//!
//! Nothing in this file is proved: each function hands its argument to the
//! standard library, and its contract is taken on trust.

use vstd::prelude::*;

verus! {

/// The final component of a path, as `std::path::Path::file_name` gives it
/// on the platform the library is built for.
pub uninterp spec fn nom_fichier(chemin: Seq<char>) -> Option<Seq<char>>;

/// The path without its final component, as `std::path::Path::parent` gives
/// it on the platform the library is built for.
pub uninterp spec fn dossier_parent(chemin: Seq<char>) -> Option<Seq<char>>;

/// A path extended by one component, as `std::path::Path::join` gives it on
/// the platform the library is built for.
pub uninterp spec fn chemin_joint(base: Seq<char>, composant: Seq<char>) -> Seq<char>;

/// The lowercase form of a text, as `str::to_lowercase` gives it.
pub uninterp spec fn minuscules(texte: Seq<char>) -> Seq<char>;

/// The view of an optional text.
pub open spec fn vue_option(texte: Option<String>) -> Option<Seq<char>> {
    match texte {
        Some(t) => Some(t@),
        None => None,
    }
}

/// Rank of the last dot of a name; -1 when it has none.
pub open spec fn dernier_point(nom: Seq<char>) -> int
    decreases nom.len(),
{
    if nom.len() == 0 {
        -1
    } else if nom.last() == '.' {
        nom.len() - 1
    } else {
        dernier_point(nom.drop_last())
    }
}

/// The extension of a file name: what follows its last dot. A name without
/// a dot has none, nor has one whose only dot comes first.
pub open spec fn extension_du_nom(nom: Seq<char>) -> Option<Seq<char>> {
    let point = dernier_point(nom);
    if point <= 0 {
        None
    } else {
        Some(nom.skip(point + 1))
    }
}

/// The extension of a path: that of its final component.
pub open spec fn extension(chemin: Seq<char>) -> Option<Seq<char>> {
    match nom_fichier(chemin) {
        Some(nom) => extension_du_nom(nom),
        None => None,
    }
}

/// Calls `std::path::Path::file_name`. Trusted: the result is the final
/// component the standard library finds, a function of the path alone.
#[verifier::external_body]
pub(crate) fn nom_de_fichier(chemin: &str) -> (nom: Option<String>)
    ensures
        vue_option(nom) == nom_fichier(chemin@),
{
    std::path::Path::new(chemin).file_name().map(|nom| nom.to_string_lossy().into_owned())
}

/// Calls `std::path::Path::extension`. Trusted, as its documentation has it:
/// the extension is the part of the file name after its last dot, and there
/// is none without a file name, without a dot, or when the only dot opens the
/// name.
#[verifier::external_body]
pub(crate) fn extension_du_chemin(chemin: &str) -> (ext: Option<String>)
    ensures
        vue_option(ext) == extension(chemin@),
{
    std::path::Path::new(chemin).extension().map(|ext| ext.to_string_lossy().into_owned())
}

/// Calls `std::path::Path::parent`. Trusted: the result is the parent the
/// standard library finds, a function of the path alone.
#[verifier::external_body]
pub(crate) fn parent_du_chemin(chemin: &str) -> (parent: Option<String>)
    ensures
        vue_option(parent) == dossier_parent(chemin@),
{
    std::path::Path::new(chemin).parent().map(|parent| parent.to_string_lossy().into_owned())
}

/// Calls `std::path::Path::join`. Trusted: the result is the path the
/// standard library builds, a function of the base and of the component
/// alone.
#[verifier::external_body]
pub(crate) fn joindre(base: &str, composant: &str) -> (chemin: String)
    ensures
        chemin@ == chemin_joint(base@, composant@),
{
    std::path::Path::new(base).join(composant).to_string_lossy().into_owned()
}

/// Calls `str::to_lowercase`. Trusted: the result is the lowercase form the
/// standard library gives, a function of the text alone.
#[verifier::external_body]
pub(crate) fn en_minuscules(texte: &str) -> (resultat: String)
    ensures
        resultat@ == minuscules(texte@),
{
    texte.to_lowercase()
}

} // verus!
