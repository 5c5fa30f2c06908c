//! Productivity helpers: the Pomodoro timer, quick notes and tasks.

use vstd::prelude::*;
use vstd::string::StringExecFns;
use crate::chemins::{chemin_joint, joindre};
use crate::erreurs::composer;
use crate::texte::{decimal, en_decimal};

verus! {

/// A quick note.
#[derive(Debug, Clone)]
pub struct Note {
    pub id: u64,
    pub contenu: String,
    pub date_creation: String,
}

/// A task of the to-do list.
#[derive(Debug, Clone)]
pub struct Tache {
    pub id: u64,
    pub texte: String,
    pub terminee: bool,
    pub date_creation: String,
}

/// What is said at the end of a Pomodoro cycle: every fourth cycle earns a
/// long break, the others a short one.
pub open spec fn message_pomodoro(cycle: nat) -> Seq<char> {
    if cycle % 4 == 0 {
        "Excellent ! Cycle #"@ + decimal(cycle)
            + " terminé. Prenez une pause longue (15 min) !"@
    } else {
        "Bravo ! Cycle #"@ + decimal(cycle) + " terminé. Prenez une pause courte (5 min) !"@
    }
}

/// Announces the end of a Pomodoro cycle.
pub fn notifier_pomodoro_termine(cycle: u32) -> (message: Result<String, String>)
    ensures
        message matches Ok(texte) && texte@ == message_pomodoro(cycle as nat),
{
    let numero = en_decimal(cycle as u128);
    if cycle % 4 == 0 {
        let mut texte = String::from_str("Excellent ! Cycle #");
        texte.append(numero.as_str());
        texte.append(" terminé. Prenez une pause longue (15 min) !");
        Ok(texte)
    } else {
        let mut texte = String::from_str("Bravo ! Cycle #");
        texte.append(numero.as_str());
        texte.append(" terminé. Prenez une pause courte (5 min) !");
        Ok(texte)
    }
}

/// What is said once `nombre` notes are saved.
pub fn message_notes_sauvegardees(nombre: usize) -> (message: String)
    ensures
        message@ == decimal(nombre as nat) + " notes sauvegardées avec succès"@,
{
    let mut texte = en_decimal(nombre as u128);
    texte.append(" notes sauvegardées avec succès");
    texte
}

/// What is said once `nombre` tasks are saved.
pub fn message_taches_sauvegardees(nombre: usize) -> (message: String)
    ensures
        message@ == decimal(nombre as nat) + " tâches sauvegardées avec succès"@,
{
    let mut texte = en_decimal(nombre as u128);
    texte.append(" tâches sauvegardées avec succès");
    texte
}

/// The data folder of the application: the folder `mon-application` of the
/// data folder the system gives the user.
pub open spec fn repertoire_donnees(base: Seq<char>) -> Seq<char> {
    chemin_joint(base, "mon-application"@)
}

/// The data folder of the application, from the data folder the system
/// gives the user, if it gives one.
pub fn obtenir_repertoire_donnees(base: Option<&str>) -> (repertoire: Result<String, String>)
    ensures
        match (base, repertoire) {
            (Some(b), Ok(chemin)) => chemin@ == repertoire_donnees(b@),
            (None, Err(message)) => message@
                == "Impossible de déterminer le répertoire de données utilisateur"@,
            _ => false,
        },
{
    match base {
        Some(b) => Ok(joindre(b, "mon-application")),
        None => Err(
            String::from_str("Impossible de déterminer le répertoire de données utilisateur"),
        ),
    }
}

/// Path of the file the notes are kept in.
pub fn obtenir_chemin_fichier_notes(base: Option<&str>) -> (chemin: Result<String, String>)
    ensures
        match (base, chemin) {
            (Some(b), Ok(c)) => c@ == chemin_joint(repertoire_donnees(b@), "notes.json"@),
            (None, Err(message)) => message@
                == "Impossible de déterminer le répertoire de données utilisateur"@,
            _ => false,
        },
{
    match obtenir_repertoire_donnees(base) {
        Ok(repertoire) => Ok(joindre(repertoire.as_str(), "notes.json")),
        Err(message) => Err(message),
    }
}

/// Path of the file the tasks are kept in.
pub fn obtenir_chemin_fichier_taches(base: Option<&str>) -> (chemin: Result<String, String>)
    ensures
        match (base, chemin) {
            (Some(b), Ok(c)) => c@ == chemin_joint(repertoire_donnees(b@), "taches.json"@),
            (None, Err(message)) => message@
                == "Impossible de déterminer le répertoire de données utilisateur"@,
            _ => false,
        },
{
    match obtenir_repertoire_donnees(base) {
        Ok(repertoire) => Ok(joindre(repertoire.as_str(), "taches.json")),
        Err(message) => Err(message),
    }
}

/// Why a list could not be saved.
#[derive(Debug, Clone, Copy, PartialEq, Eq, Structural)]
pub enum EtapeSauvegarde {
    /// The data folder could not be created.
    Repertoire,
    /// The list could not be written as JSON.
    Serialisation,
    /// The file could not be written.
    Ecriture,
}

/// What a failed save starts its message with, by step.
pub open spec fn prefixe_echec_sauvegarde(etape: EtapeSauvegarde) -> Seq<char> {
    match etape {
        EtapeSauvegarde::Repertoire => "Impossible de créer le répertoire : "@,
        EtapeSauvegarde::Serialisation => "Erreur de sérialisation JSON : "@,
        EtapeSauvegarde::Ecriture => "Erreur d'écriture du fichier : "@,
    }
}

/// What is told of a save that failed at the given step.
pub fn message_echec_sauvegarde(etape: EtapeSauvegarde, cause: &str) -> (message: String)
    ensures
        message@ == prefixe_echec_sauvegarde(etape) + cause@,
{
    match etape {
        EtapeSauvegarde::Repertoire => composer("Impossible de créer le répertoire : ", cause),
        EtapeSauvegarde::Serialisation => composer("Erreur de sérialisation JSON : ", cause),
        EtapeSauvegarde::Ecriture => composer("Erreur d'écriture du fichier : ", cause),
    }
}

} // verus!
