//! Merge of several PDF documents into one.
//!
//! A merge goes through its documents one at a time; whoever runs it loads
//! each document and saves the result. For now the result is the first
//! document: the others are loaded and their pages counted, no more.

use vstd::prelude::*;
use vstd::string::StringExecFns;
use crate::commandes::pdf::{ajouter_pages, compter_pages, pages_comptees, BilanPdf};
use crate::commandes::source::{avancement, signal_erreur, signal_succes};
use crate::erreurs::composer;
use crate::texte::{decimal, en_decimal};
use crate::utilitaires::progression::{
    clos_par_un_succes, clos_par_une_erreur, en_cours, ConfigProgression,
    GestionnaireProgression, TypeProgression, VueSignal,
};

verus! {

/// A failed merge: what is told of the failure, and the record of the merge.
pub struct EchecFusion {
    pub message: String,
    pub progression: GestionnaireProgression,
}

/// A merge whose documents are being loaded.
pub struct FusionEnCours {
    /// Number of documents to merge.
    pub total: usize,
    /// Number of documents loaded so far.
    pub charges: usize,
    /// Number of pages of the documents loaded so far.
    pub pages_totales: u32,
    /// The first document loaded, which the result is made of.
    pub base: Option<lopdf::Document>,
    pub progression: GestionnaireProgression,
}

/// A merge whose result waits to be saved.
pub struct FusionPrete {
    pub total: usize,
    pub pages_totales: u32,
    /// The merged document, to save under the output path.
    pub document: lopdf::Document,
    pub progression: GestionnaireProgression,
}

/// A finished merge.
pub struct IssueFusion {
    pub bilan: BilanPdf,
    pub progression: GestionnaireProgression,
}

/// Whether the file of rank `i` was found; a file nothing is known of counts
/// as missing.
pub open spec fn fichier_present(existences: Seq<bool>, i: int) -> bool {
    0 <= i < existences.len() && existences[i]
}

/// Rank of the first missing file among the first `n`, from rank `i` on.
pub open spec fn premier_absent(existences: Seq<bool>, n: int, i: int) -> Option<int>
    decreases n - i,
{
    if i >= n {
        None
    } else if !fichier_present(existences, i) {
        Some(i)
    } else {
        premier_absent(existences, n, i + 1)
    }
}

/// The record of a merge once its files are found.
pub open spec fn journal_verifie() -> Seq<VueSignal> {
    Seq::<VueSignal>::empty().push(avancement(20, "Vérification des fichiers..."@)).push(
        avancement(40, "Chargement des PDFs..."@),
    )
}

/// The message of the update that announces the loading of the document of
/// rank `index` out of `total`.
pub open spec fn message_de_chargement(index: nat, total: nat) -> Seq<char> {
    "Chargement du PDF "@ + decimal(index + 1) + " sur "@ + decimal(total) + "..."@
}

/// Starts a merge: it takes at least two files, and each must exist. The
/// first missing file is the one the failure names.
pub fn commencer_fusion(chemins_fichiers: &Vec<String>, existences: &Vec<bool>) -> (resultat:
    Result<FusionEnCours, EchecFusion>)
    ensures
        match resultat {
            Ok(fusion) => {
                &&& chemins_fichiers@.len() >= 2
                &&& premier_absent(existences@, chemins_fichiers@.len() as int, 0) is None
                &&& fusion.total == chemins_fichiers@.len()
                &&& fusion.charges == 0
                &&& fusion.pages_totales == 0
                &&& fusion.base is None
                &&& fusion.progression.journal() == journal_verifie()
                &&& en_cours(fusion.progression.journal())
            },
            Err(echec) => if chemins_fichiers@.len() < 2 {
                &&& echec.message@ == "Il faut au moins 2 fichiers PDF pour effectuer une fusion"@
                &&& echec.progression.journal() == Seq::<VueSignal>::empty()
            } else {
                &&& premier_absent(existences@, chemins_fichiers@.len() as int, 0) matches Some(i)
                &&& echec.message@ == "Fichier PDF introuvable : "@ + chemins_fichiers@[i]@
                &&& echec.progression.journal() == Seq::<VueSignal>::empty().push(
                    avancement(20, "Vérification des fichiers..."@),
                ).push(signal_erreur("❌ Fichier introuvable"@))
                &&& clos_par_une_erreur(echec.progression.journal())
            },
        },
{
    let config = ConfigProgression {
        type_progression: TypeProgression::ConversionImage,
        message_initial: String::from_str("Fusion de PDFs"),
    };
    let mut progression = GestionnaireProgression::nouveau(config);
    let total = chemins_fichiers.len();
    if total < 2 {
        return Err(
            EchecFusion {
                message: String::from_str(
                    "Il faut au moins 2 fichiers PDF pour effectuer une fusion",
                ),
                progression,
            },
        );
    }
    progression.mettre_a_jour(20, Some("Vérification des fichiers..."));
    let mut i: usize = 0;
    while i < total
        invariant
            0 <= i <= total,
            2 <= total,
            total == chemins_fichiers@.len(),
            premier_absent(existences@, total as int, 0) == premier_absent(
                existences@,
                total as int,
                i as int,
            ),
            progression.journal() == Seq::<VueSignal>::empty().push(
                avancement(20, "Vérification des fichiers..."@),
            ),
            en_cours(progression.journal()),
        decreases total - i,
    {
        let present = i < existences.len() && existences[i];
        assert(present == fichier_present(existences@, i as int));
        if !present {
            assert(premier_absent(existences@, total as int, i as int) == Some(i as int));
            progression.terminer_avec_erreur("❌ Fichier introuvable");
            return Err(
                EchecFusion {
                    message: composer("Fichier PDF introuvable : ", chemins_fichiers[i].as_str()),
                    progression,
                },
            );
        }
        i = i + 1;
    }
    progression.mettre_a_jour(40, Some("Chargement des PDFs..."));
    Ok(FusionEnCours { total, charges: 0, pages_totales: 0, base: None, progression })
}

/// Sum of two page counts, capped at the largest 32-bit count.
pub open spec fn pages_ajoutees(total: u32, pages: nat) -> nat {
    if total + pages <= u32::MAX {
        (total + pages) as nat
    } else {
        u32::MAX as nat
    }
}

impl FusionEnCours {
    /// Takes in the next document of the merge, loaded from `chemin`. A
    /// document that does not load ends the merge.
    pub fn charger(self, chemin: &str, chargement: Result<lopdf::Document, String>) -> (resultat:
        Result<FusionEnCours, EchecFusion>)
        requires
            self.charges < self.total,
        ensures
            match (chargement, resultat) {
                (Ok(document), Ok(fusion)) => {
                    &&& fusion.total == self.total
                    &&& fusion.charges == self.charges + 1
                    &&& fusion.pages_totales == pages_ajoutees(
                        self.pages_totales,
                        pages_comptees(document),
                    )
                    &&& fusion.base == match self.base {
                        Some(base) => Some(base),
                        None => Some(document),
                    }
                    &&& fusion.progression.journal() == self.progression.journal().push(
                        avancement(
                            (40 + (self.charges * 20) / (self.total as int)) as u64,
                            message_de_chargement(self.charges as nat, self.total as nat),
                        ),
                    )
                    &&& en_cours(self.progression.journal()) ==> en_cours(
                        fusion.progression.journal(),
                    )
                },
                (Err(cause), Err(echec)) => {
                    &&& echec.message@ == "Impossible de charger "@ + chemin@ + " : "@ + cause@
                    &&& echec.progression.journal() == self.progression.journal().push(
                        avancement(
                            (40 + (self.charges * 20) / (self.total as int)) as u64,
                            message_de_chargement(self.charges as nat, self.total as nat),
                        ),
                    ).push(signal_erreur("❌ Erreur de chargement"@))
                    &&& en_cours(self.progression.journal()) ==> clos_par_une_erreur(
                        echec.progression.journal(),
                    )
                },
                _ => false,
            },
    {
        let mut progression = self.progression;
        let position = crate::commandes::pdf::progression_du_chargement(self.charges, self.total);
        let mut annonce = String::from_str("Chargement du PDF ");
        annonce.append(en_decimal((self.charges + 1) as u128).as_str());
        annonce.append(" sur ");
        annonce.append(en_decimal(self.total as u128).as_str());
        annonce.append("...");
        progression.mettre_a_jour(position, Some(annonce.as_str()));
        match chargement {
            Ok(document) => {
                let pages = compter_pages(&document);
                let base = match self.base {
                    Some(base) => Some(base),
                    None => Some(document),
                };
                Ok(
                    FusionEnCours {
                        total: self.total,
                        charges: self.charges + 1,
                        pages_totales: ajouter_pages(self.pages_totales, pages),
                        base,
                        progression,
                    },
                )
            },
            Err(cause) => {
                progression.terminer_avec_erreur("❌ Erreur de chargement");
                let mut message = String::from_str("Impossible de charger ");
                message.append(chemin);
                message.append(" : ");
                message.append(cause.as_str());
                Err(EchecFusion { message, progression })
            },
        }
    }

    /// Merges the documents loaded: the result is the first of them.
    pub fn fusionner(self) -> (prete: FusionPrete)
        requires
            self.base is Some,
        ensures
            Some(prete.document) == self.base,
            prete.total == self.total,
            prete.pages_totales == self.pages_totales,
            prete.progression.journal() == self.progression.journal().push(
                avancement(80, "Fusion en cours..."@),
            ).push(avancement(100, "Sauvegarde..."@)),
            en_cours(self.progression.journal()) ==> en_cours(prete.progression.journal()),
    {
        let mut progression = self.progression;
        progression.mettre_a_jour(80, Some("Fusion en cours..."));
        progression.mettre_a_jour(100, Some("Sauvegarde..."));
        let document = match self.base {
            Some(document) => document,
            None => vstd::pervasive::unreached(),
        };
        FusionPrete { total: self.total, pages_totales: self.pages_totales, document, progression }
    }
}

/// The message that closes the record of a merge.
pub open spec fn message_final_fusion(total: nat) -> Seq<char> {
    "✅ Fusion terminée ("@ + decimal(total) + " fichiers)"@
}

impl FusionPrete {
    /// Ends a merge, once its result was saved under `chemin_sortie`.
    pub fn conclure(self, chemin_sortie: &str, sauvegarde: Result<(), String>) -> (resultat:
        Result<IssueFusion, EchecFusion>)
        ensures
            match (sauvegarde, resultat) {
                (Ok(_), Ok(issue)) => {
                    &&& issue.bilan.message@ == "Fusion réussie : "@ + decimal(self.total as nat)
                        + " fichiers fusionnés en 1"@
                    &&& issue.bilan.fichiers_sortie@.len() == 1
                    &&& issue.bilan.fichiers_sortie@[0]@ == chemin_sortie@
                    &&& issue.bilan.pages_traitees == self.pages_totales
                    &&& issue.progression.journal() == self.progression.journal().push(
                        signal_succes(message_final_fusion(self.total as nat)),
                    )
                    &&& en_cours(self.progression.journal()) ==> clos_par_un_succes(
                        issue.progression.journal(),
                    )
                },
                (Err(cause), Err(echec)) => {
                    &&& echec.message@ == "Impossible de sauvegarder le PDF fusionné : "@
                        + cause@
                    &&& echec.progression.journal() == self.progression.journal().push(
                        signal_erreur("❌ Erreur de sauvegarde"@),
                    )
                    &&& en_cours(self.progression.journal()) ==> clos_par_une_erreur(
                        echec.progression.journal(),
                    )
                },
                _ => false,
            },
    {
        let mut progression = self.progression;
        match sauvegarde {
            Ok(_) => {
                let mut fin = String::from_str("✅ Fusion terminée (");
                fin.append(en_decimal(self.total as u128).as_str());
                fin.append(" fichiers)");
                progression.terminer_avec_succes(fin.as_str());
                let mut fichiers_sortie: Vec<String> = Vec::new();
                fichiers_sortie.push(String::from_str(chemin_sortie));
                Ok(
                    IssueFusion {
                        bilan: BilanPdf {
                            message: crate::commandes::pdf::message_fusion_reussie(self.total),
                            fichiers_sortie,
                            pages_traitees: self.pages_totales,
                        },
                        progression,
                    },
                )
            },
            Err(cause) => {
                progression.terminer_avec_erreur("❌ Erreur de sauvegarde");
                Err(
                    EchecFusion {
                        message: composer(
                            "Impossible de sauvegarder le PDF fusionné : ",
                            cause.as_str(),
                        ),
                        progression,
                    },
                )
            },
        }
    }
}

} // verus!
