//! Error kinds shared by every operation of the library.

use vstd::prelude::*;
use vstd::std_specs::convert::FromSpecImpl;
use vstd::string::StringExecFns;

verus! {

/// Failure of a utility helper.
#[derive(Debug)]
pub enum ErreurUtilitaire {
    Validation { message: String },
}

/// The three kinds of failure an operation can report.
#[derive(Debug)]
pub enum ErreurApplication {
    /// Malformed caller input.
    Validation { message: String },
    /// The input bytes are not a decodable image.
    Donnees { message: String },
    /// An I/O failure, with the underlying text folded in.
    Systeme { message: String },
}

pub type ResultatUtilitaire<T> = Result<T, ErreurUtilitaire>;

pub type ResultatApplication<T> = Result<T, ErreurApplication>;

/// Joins a fixed prefix and a detail into one message.
pub fn composer(prefixe: &str, detail: &str) -> (texte: String)
    ensures
        texte@ == prefixe@ + detail@,
{
    let mut texte = String::from_str(prefixe);
    texte.append(detail);
    texte
}

impl ErreurUtilitaire {
    /// The message carried by the error.
    pub open spec fn message(self) -> Seq<char> {
        match self {
            ErreurUtilitaire::Validation { message } => message@,
        }
    }

    /// The text shown to a user: the kind, then the message.
    pub open spec fn texte_spec(self) -> Seq<char> {
        "Erreur de validation : "@ + self.message()
    }

    pub fn texte(&self) -> (texte: String)
        ensures
            texte@ == self.texte_spec(),
    {
        match self {
            ErreurUtilitaire::Validation { message } => composer(
                "Erreur de validation : ",
                message.as_str(),
            ),
        }
    }
}

impl ErreurApplication {
    /// The message carried by the error, whatever its kind.
    pub open spec fn message(self) -> Seq<char> {
        match self {
            ErreurApplication::Validation { message } => message@,
            ErreurApplication::Donnees { message } => message@,
            ErreurApplication::Systeme { message } => message@,
        }
    }

    /// The fixed words that announce the kind of the error.
    pub open spec fn prefixe(self) -> Seq<char> {
        match self {
            ErreurApplication::Validation { .. } => "Erreur de validation : "@,
            ErreurApplication::Donnees { .. } => "Erreur de données : "@,
            ErreurApplication::Systeme { .. } => "Erreur système : "@,
        }
    }

    /// The text shown to a user: the kind, then the message.
    pub open spec fn texte_spec(self) -> Seq<char> {
        self.prefixe() + self.message()
    }

    pub fn texte(&self) -> (texte: String)
        ensures
            texte@ == self.texte_spec(),
    {
        match self {
            ErreurApplication::Validation { message } => composer(
                "Erreur de validation : ",
                message.as_str(),
            ),
            ErreurApplication::Donnees { message } => composer(
                "Erreur de données : ",
                message.as_str(),
            ),
            ErreurApplication::Systeme { message } => composer(
                "Erreur système : ",
                message.as_str(),
            ),
        }
    }
}

impl From<ErreurUtilitaire> for ErreurApplication {
    fn from(erreur: ErreurUtilitaire) -> (resultat: ErreurApplication) {
        match erreur {
            ErreurUtilitaire::Validation { message } => ErreurApplication::Validation { message },
        }
    }
}

impl FromSpecImpl<ErreurUtilitaire> for ErreurApplication {
    open spec fn obeys_from_spec() -> bool {
        true
    }

    open spec fn from_spec(erreur: ErreurUtilitaire) -> ErreurApplication {
        match erreur {
            ErreurUtilitaire::Validation { message } => ErreurApplication::Validation { message },
        }
    }
}

} // verus!
