//! Human-readable file sizes.
//!
//! A size is shown in the largest unit, up to terabytes, that leaves at
//! least 1 before the decimal point, with one decimal. The value shown is
//! the nearest one to the size as a double-precision number holds it, which
//! is the size itself below 2^53 bytes.

use vstd::prelude::*;
use vstd::arithmetic::div_mod::lemma_fundamental_div_mod;
use vstd::string::StringExecFns;
use crate::erreurs::ErreurUtilitaire;
use crate::texte::{arrondi_pair, decimal, diviser_arrondi_pair, en_decimal};

verus! {

/// Index of the unit a size is shown in: 0 for bytes up to 4 for terabytes.
pub open spec fn indice_unite(taille: nat) -> nat {
    if taille < 0x400 {
        0
    } else if taille < 0x10_0000 {
        1
    } else if taille < 0x4000_0000 {
        2
    } else if taille < 0x100_0000_0000 {
        3
    } else {
        4
    }
}

/// Number of bytes in one unit of the given index.
pub open spec fn octets_par_unite(indice: nat) -> nat {
    if indice == 0 {
        1
    } else if indice == 1 {
        0x400
    } else if indice == 2 {
        0x10_0000
    } else if indice == 3 {
        0x4000_0000
    } else {
        0x100_0000_0000
    }
}

/// Name of the unit of the given index.
pub open spec fn nom_unite(indice: nat) -> Seq<char> {
    if indice == 0 {
        "B"@
    } else if indice == 1 {
        "KB"@
    } else if indice == 2 {
        "MB"@
    } else if indice == 3 {
        "GB"@
    } else {
        "TB"@
    }
}

/// Spacing between the double-precision numbers around `taille`, found by
/// doubling `pas` until 53 bits of `taille / pas` suffice.
pub open spec fn pas_flottant(taille: nat, pas: nat) -> nat
    decreases taille - pas,
{
    if pas == 0 || taille < 0x20_0000_0000_0000 * pas {
        pas
    } else {
        pas_flottant(taille, 2 * pas)
    }
}

/// The double-precision number nearest to `taille`, ties to even.
pub open spec fn valeur_flottante(taille: nat) -> nat {
    let pas = pas_flottant(taille, 1);
    (arrondi_pair(taille as int, pas as int) * pas) as nat
}

/// Tenths of a unit shown for a size of at least 1024 bytes.
pub open spec fn dixiemes_affiches(taille: nat) -> nat {
    arrondi_pair(
        10 * (valeur_flottante(taille) as int),
        octets_par_unite(indice_unite(taille)) as int,
    ) as nat
}

/// The text of a size.
pub open spec fn taille_formatee(taille: nat) -> Seq<char> {
    let indice = indice_unite(taille);
    if indice == 0 {
        decimal(taille) + " "@ + nom_unite(0)
    } else {
        let dixiemes = dixiemes_affiches(taille);
        decimal(dixiemes / 10) + "."@ + decimal(dixiemes % 10) + " "@ + nom_unite(indice)
    }
}

/// The spacing of double-precision numbers around a 64-bit size is a power
/// of two of at most 2048.
fn pas_autour(taille: u64) -> (pas: u128)
    ensures
        pas == pas_flottant(taille as nat, 1),
        1 <= pas <= 2048,
{
    let mut pas: u128 = 1;
    while pas < 2048 && taille as u128 >= 0x20_0000_0000_0000 * pas
        invariant
            pas == 1 || pas == 2 || pas == 4 || pas == 8 || pas == 16 || pas == 32 || pas == 64
                || pas == 128 || pas == 256 || pas == 512 || pas == 1024 || pas == 2048,
            pas_flottant(taille as nat, 1) == pas_flottant(taille as nat, pas as nat),
        decreases 2048 - pas,
    {
        pas = 2 * pas;
    }
    pas
}

/// Formats a size in bytes for a reader: `0 B`, `1023 B`, `1.5 KB`.
pub fn formater_taille_fichier(taille_bytes: u64) -> (texte: String)
    ensures
        texte@ == taille_formatee(taille_bytes as nat),
{
    if taille_bytes < 1024 {
        let mut texte = en_decimal(taille_bytes as u128);
        texte.append(" ");
        texte.append("B");
        return texte;
    }
    let pas = pas_autour(taille_bytes);
    let quotient = diviser_arrondi_pair(taille_bytes as u128, pas);
    proof {
        lemma_fundamental_div_mod(taille_bytes as int, pas as int);
        assert((taille_bytes as int / pas as int) * pas == pas * (taille_bytes as int / pas as int))
            by (nonlinear_arith);
    }
    assert(quotient * pas <= taille_bytes + pas) by (nonlinear_arith)
        requires
            quotient <= taille_bytes as int / pas as int + 1,
            (taille_bytes as int / pas as int) * pas <= taille_bytes,
            pas >= 1,
    {
        assert(quotient * pas <= (taille_bytes as int / pas as int + 1) * pas);
    }
    let valeur: u128 = quotient * pas;
    let (diviseur, unite): (u128, &'static str) = if taille_bytes < 0x10_0000 {
        (0x400, "KB")
    } else if taille_bytes < 0x4000_0000 {
        (0x10_0000, "MB")
    } else if taille_bytes < 0x100_0000_0000 {
        (0x4000_0000, "GB")
    } else {
        (0x100_0000_0000, "TB")
    };
    let dixiemes = diviser_arrondi_pair(10 * valeur, diviseur);
    let mut texte = en_decimal(dixiemes / 10);
    texte.append(".");
    let decimale = en_decimal(dixiemes % 10);
    texte.append(decimale.as_str());
    texte.append(" ");
    texte.append(unite);
    texte
}

/// The message of a folder that could not be created.
pub open spec fn message_dossier_refuse(chemin: Seq<char>, cause: Seq<char>) -> Seq<char> {
    "Impossible de créer le dossier "@ + chemin + " : "@ + cause
}

/// The error of a folder that could not be created, from its path and from
/// what the system said.
pub fn erreur_creation_dossier(chemin: &str, cause: &str) -> (erreur: ErreurUtilitaire)
    ensures
        erreur.message() == message_dossier_refuse(chemin@, cause@),
{
    let mut message = String::from_str("Impossible de créer le dossier ");
    message.append(chemin);
    message.append(" : ");
    message.append(cause);
    ErreurUtilitaire::Validation { message }
}

} // verus!
