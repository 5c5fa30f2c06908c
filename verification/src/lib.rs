//! Image conversion and chroma-key background removal, with the surrounding
//! result, error and progress types, and the rules of the PDF and
//! productivity commands.

pub mod arithmetique;
pub mod chemins;
pub mod codec;
pub mod commandes;
pub mod document_pdf;
pub mod erreurs;
pub mod texte;
pub mod traitement;
pub mod utilitaires;
