//! Progress reporting for long operations.
//!
//! A manager belongs to one operation. It records, in order, the updates and
//! the closing signal the operation emits; whoever runs the operation reads
//! the record and shows it.

use vstd::prelude::*;
use vstd::string::StringExecFns;

verus! {

/// Kinds of progress display.
#[derive(Debug, Clone)]
pub enum TypeProgression {
    /// Bar for an image conversion.
    ConversionImage,
}

/// How a progress display is set up.
#[derive(Debug, Clone)]
pub struct ConfigProgression {
    pub type_progression: TypeProgression,
    pub message_initial: String,
}

/// One entry of the record of an operation.
#[derive(Debug, Clone, PartialEq, Eq)]
pub enum Signal {
    /// The operation reached `pourcentage` percent.
    Avancement { pourcentage: u64, message: String },
    /// The operation ended well.
    Succes { message: String },
    /// The operation failed.
    Erreur { message: String },
}

/// A signal as a value: its kind, its percentage and its text.
pub enum VueSignal {
    Avancement { pourcentage: u64, message: Seq<char> },
    Succes { message: Seq<char> },
    Erreur { message: Seq<char> },
}

impl View for Signal {
    type V = VueSignal;

    open spec fn view(&self) -> VueSignal {
        match self {
            Signal::Avancement { pourcentage, message } => VueSignal::Avancement {
                pourcentage: *pourcentage,
                message: message@,
            },
            Signal::Succes { message } => VueSignal::Succes { message: message@ },
            Signal::Erreur { message } => VueSignal::Erreur { message: message@ },
        }
    }
}

impl VueSignal {
    /// The signal closes the operation.
    pub open spec fn est_final(self) -> bool {
        self is Succes || self is Erreur
    }
}

/// Number of closing signals in a record.
pub open spec fn nombre_de_fins(journal: Seq<VueSignal>) -> nat
    decreases journal.len(),
{
    if journal.len() == 0 {
        0
    } else {
        nombre_de_fins(journal.drop_last()) + if journal.last().est_final() {
            1nat
        } else {
            0nat
        }
    }
}

/// The record holds no closing signal: the operation is still running.
pub open spec fn en_cours(journal: Seq<VueSignal>) -> bool {
    nombre_de_fins(journal) == 0
}

/// The record holds one closing signal, a failure, and ends with it.
pub open spec fn clos_par_une_erreur(journal: Seq<VueSignal>) -> bool {
    &&& journal.len() > 0
    &&& journal.last() is Erreur
    &&& nombre_de_fins(journal) == 1
}

/// The record holds one closing signal, a success, and ends with it.
pub open spec fn clos_par_un_succes(journal: Seq<VueSignal>) -> bool {
    &&& journal.len() > 0
    &&& journal.last() is Succes
    &&& nombre_de_fins(journal) == 1
}

/// Adding a signal to a record adds one closing signal if it closes, none
/// otherwise.
pub proof fn lemme_fins_apres_ajout(journal: Seq<VueSignal>, signal: VueSignal)
    ensures
        nombre_de_fins(journal.push(signal)) == nombre_de_fins(journal) + if signal.est_final() {
            1nat
        } else {
            0nat
        },
        journal.push(signal).last() == signal,
{
    assert(journal.push(signal).drop_last() =~= journal);
}

/// Records the progress of one operation.
#[derive(Debug)]
pub struct GestionnaireProgression {
    config: ConfigProgression,
    journal: Vec<Signal>,
}

impl GestionnaireProgression {
    /// The message shown when an update brings none.
    pub closed spec fn message_initial(&self) -> Seq<char> {
        self.config.message_initial@
    }

    /// What was recorded so far, oldest first.
    pub closed spec fn journal(&self) -> Seq<VueSignal> {
        self.journal@.map_values(|s: Signal| s@)
    }

    /// A manager with an empty record.
    pub fn nouveau(config: ConfigProgression) -> (gestionnaire: Self)
        ensures
            gestionnaire.message_initial() == config.message_initial@,
            gestionnaire.journal() == Seq::<VueSignal>::empty(),
            en_cours(gestionnaire.journal()),
    {
        let gestionnaire = GestionnaireProgression { config, journal: Vec::new() };
        assert(gestionnaire.journal() =~= Seq::<VueSignal>::empty());
        gestionnaire
    }

    /// Records that the operation reached `pourcentage` percent. Without a
    /// message of its own the update carries the initial message.
    pub fn mettre_a_jour(&mut self, pourcentage: u64, message: Option<&str>)
        ensures
            final(self).message_initial() == old(self).message_initial(),
            final(self).journal() == old(self).journal().push(
                VueSignal::Avancement {
                    pourcentage,
                    message: match message {
                        Some(m) => m@,
                        None => old(self).message_initial(),
                    },
                },
            ),
            en_cours(old(self).journal()) ==> en_cours(final(self).journal()),
    {
        proof {
            lemme_fins_apres_ajout(
                self.journal(),
                VueSignal::Avancement {
                    pourcentage,
                    message: match message {
                        Some(m) => m@,
                        None => self.message_initial(),
                    },
                },
            );
        }
        let texte = match message {
            Some(m) => String::from_str(m),
            None => self.config.message_initial.clone(),
        };
        let ghost avant = self.journal@;
        self.journal.push(Signal::Avancement { pourcentage, message: texte });
        assert(self.journal@.map_values(|s: Signal| s@) =~= avant.map_values(|s: Signal| s@).push(
            self.journal@.last()@,
        ));
    }

    /// Records that the operation ended well.
    pub fn terminer(&mut self, message: &str)
        ensures
            final(self).message_initial() == old(self).message_initial(),
            final(self).journal() == old(self).journal().push(
                VueSignal::Succes { message: message@ },
            ),
            en_cours(old(self).journal()) ==> clos_par_un_succes(final(self).journal()),
    {
        proof {
            lemme_fins_apres_ajout(self.journal(), VueSignal::Succes { message: message@ });
        }
        let ghost avant = self.journal@;
        self.journal.push(Signal::Succes { message: String::from_str(message) });
        assert(self.journal@.map_values(|s: Signal| s@) =~= avant.map_values(|s: Signal| s@).push(
            self.journal@.last()@,
        ));
    }

    /// Records that the operation ended well.
    pub fn terminer_avec_succes(&mut self, message: &str)
        ensures
            final(self).message_initial() == old(self).message_initial(),
            final(self).journal() == old(self).journal().push(
                VueSignal::Succes { message: message@ },
            ),
            en_cours(old(self).journal()) ==> clos_par_un_succes(final(self).journal()),
    {
        self.terminer(message);
    }

    /// Records that the operation failed.
    pub fn terminer_avec_erreur(&mut self, message: &str)
        ensures
            final(self).message_initial() == old(self).message_initial(),
            final(self).journal() == old(self).journal().push(
                VueSignal::Erreur { message: message@ },
            ),
            en_cours(old(self).journal()) ==> clos_par_une_erreur(final(self).journal()),
    {
        proof {
            lemme_fins_apres_ajout(self.journal(), VueSignal::Erreur { message: message@ });
        }
        let ghost avant = self.journal@;
        self.journal.push(Signal::Erreur { message: String::from_str(message) });
        assert(self.journal@.map_values(|s: Signal| s@) =~= avant.map_values(|s: Signal| s@).push(
            self.journal@.last()@,
        ));
    }

    /// Number of signals recorded so far.
    pub fn nombre_de_signaux(&self) -> (n: usize)
        ensures
            n == self.journal().len(),
    {
        self.journal.len()
    }

    /// The signal of rank `i` in the record.
    pub fn signal(&self, i: usize) -> (s: &Signal)
        requires
            i < self.journal().len(),
        ensures
            s@ == self.journal()[i as int],
    {
        &self.journal[i]
    }

    /// Hands the record over, oldest signal first.
    pub fn en_journal(self) -> (journal: Vec<Signal>)
        ensures
            journal@.map_values(|s: Signal| s@) == self.journal(),
    {
        self.journal
    }
}

/// A manager for an image operation, with `message` as its initial message.
pub fn creer_progression_image(message: &str) -> (gestionnaire: GestionnaireProgression)
    ensures
        gestionnaire.message_initial() == message@,
        gestionnaire.journal() == Seq::<VueSignal>::empty(),
        en_cours(gestionnaire.journal()),
{
    let config = ConfigProgression {
        type_progression: TypeProgression::ConversionImage,
        message_initial: String::from_str(message),
    };
    GestionnaireProgression::nouveau(config)
}

} // verus!
