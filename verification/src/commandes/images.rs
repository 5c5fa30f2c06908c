//! Image operations: what describes an image, the options and result of a
//! conversion, the formats, and the reading of a key colour.

use vstd::prelude::*;
use vstd::string::StringExecFns;
use crate::chemins::{en_minuscules, extension, extension_du_chemin, minuscules};
use crate::erreurs::{composer, ErreurApplication, ResultatApplication};
use crate::texte::{arrondi_pair, decimal, diviser_arrondi_pair, en_decimal};

verus! {

/// What is known of an image file.
#[derive(Debug, Clone)]
pub struct InfoImage {
    pub nom: String,
    pub chemin: String,
    pub format: String,
    pub largeur: u32,
    pub hauteur: u32,
    pub taille_octets: u64,
}

/// How to convert an image. Resizing takes place only when both bounds are
/// given.
#[derive(Debug, Clone)]
pub struct OptionsConversion {
    pub format_sortie: String,
    pub qualite: Option<u8>,
    pub largeur_max: Option<u32>,
    pub hauteur_max: Option<u32>,
    pub conserver_ratio: bool,
}

/// How to remove a background.
#[derive(Debug, Clone)]
pub struct OptionsSuppressionFond {
    /// Key colour, as `#RRGGBB`.
    pub couleur_fond: String,
    /// Distance to the key colour under which a pixel becomes transparent.
    pub tolerance: u8,
    /// Whether the edges of the transparency are softened.
    pub adoucir_bords: bool,
    /// Radius of the softening, in pixels.
    pub rayon_adoucissement: u8,
}

/// Formats an image can be written in.
#[derive(Debug, Clone, Copy, PartialEq, Eq, Structural)]
pub enum FormatSortie {
    Jpeg,
    Png,
    WebP,
    Bmp,
    Tiff,
    Gif,
}

/// A percentage held exactly, in tenths of a percent.
#[derive(Debug, Clone, Copy, PartialEq, Eq, Structural)]
pub struct Pourcentage {
    pub dixiemes: i128,
}

/// The outcome of a conversion or of a background removal.
#[derive(Debug, Clone)]
pub struct ResultatConversion {
    pub succes: bool,
    pub fichier_origine: String,
    pub fichier_sortie: String,
    pub format_origine: String,
    pub format_sortie: String,
    pub taille_avant: u64,
    pub taille_apres: u64,
    pub reduction_pourcent: Pourcentage,
    pub message: String,
}

/// Whether two texts are the same.
pub fn meme_texte(a: &str, b: &str) -> (egal: bool)
    ensures
        egal == (a@ == b@),
{
    String::from_str(a) == String::from_str(b)
}

// ---------------------------------------------------------------------------
// Formats
// ---------------------------------------------------------------------------
/// Names of the supported formats, in the order they are offered.
pub open spec fn formats_supportes() -> Seq<Seq<char>> {
    seq!["JPEG"@, "PNG"@, "WebP"@, "BMP"@, "TIFF"@, "GIF"@]
}

/// The formats an image can be converted to.
pub fn obtenir_formats_supportes() -> (formats: Result<Vec<String>, String>)
    ensures
        formats matches Ok(noms) && noms@.map_values(|nom: String| nom@) == formats_supportes(),
{
    let mut noms: Vec<String> = Vec::new();
    noms.push(String::from_str("JPEG"));
    noms.push(String::from_str("PNG"));
    noms.push(String::from_str("WebP"));
    noms.push(String::from_str("BMP"));
    noms.push(String::from_str("TIFF"));
    noms.push(String::from_str("GIF"));
    assert(noms@.map_values(|nom: String| nom@) =~= formats_supportes());
    Ok(noms)
}

/// Format tag of a lowercase extension; `None` for an extension that is not
/// one of an image format.
pub open spec fn etiquette_du_format(extension: Seq<char>) -> Option<Seq<char>> {
    if extension == "jpg"@ || extension == "jpeg"@ {
        Some("JPEG"@)
    } else if extension == "png"@ {
        Some("PNG"@)
    } else if extension == "webp"@ {
        Some("WebP"@)
    } else if extension == "bmp"@ {
        Some("BMP"@)
    } else if extension == "tiff"@ || extension == "tif"@ {
        Some("TIFF"@)
    } else if extension == "gif"@ {
        Some("GIF"@)
    } else {
        None
    }
}

/// The format an extension stands for, whatever its case: the tag, or the
/// message of the validation error.
pub open spec fn format_de_l_extension(ext: Option<Seq<char>>) -> Result<Seq<char>, Seq<char>> {
    match ext {
        Some(e) => match etiquette_du_format(minuscules(e)) {
            Some(etiquette) => Ok(etiquette),
            None => Err("Extension de fichier non reconnue : "@ + e),
        },
        None => Err("Impossible de déterminer le format du fichier"@),
    }
}

/// Each supported extension has its tag: `jpg` and `jpeg` are JPEG, `png` is
/// PNG, `webp` is WebP, `bmp` is BMP, `tiff` and `tif` are TIFF, `gif` is GIF.
pub proof fn loi_etiquettes_des_extensions()
    ensures
        etiquette_du_format("jpg"@) == Some("JPEG"@),
        etiquette_du_format("jpeg"@) == Some("JPEG"@),
        etiquette_du_format("png"@) == Some("PNG"@),
        etiquette_du_format("webp"@) == Some("WebP"@),
        etiquette_du_format("bmp"@) == Some("BMP"@),
        etiquette_du_format("tiff"@) == Some("TIFF"@),
        etiquette_du_format("tif"@) == Some("TIFF"@),
        etiquette_du_format("gif"@) == Some("GIF"@),
{
    reveal_strlit("jpg");
    reveal_strlit("jpeg");
    reveal_strlit("png");
    reveal_strlit("webp");
    reveal_strlit("bmp");
    reveal_strlit("tiff");
    reveal_strlit("tif");
    reveal_strlit("gif");
    assert("png"@[0] != "jpg"@[0]);
    assert("webp"@[0] != "jpg"@[0] && "webp"@[0] != "png"@[0]);
    assert("bmp"@[0] != "jpg"@[0] && "bmp"@[0] != "png"@[0] && "bmp"@[0] != "webp"@[0]);
    assert("tiff"@[0] != "jpg"@[0] && "tiff"@[0] != "png"@[0] && "tiff"@[0] != "webp"@[0]
        && "tiff"@[0] != "bmp"@[0]);
    assert("tif"@[0] != "jpg"@[0] && "tif"@[0] != "png"@[0] && "tif"@[0] != "webp"@[0]
        && "tif"@[0] != "bmp"@[0]);
    assert("gif"@[0] != "jpg"@[0] && "gif"@[0] != "png"@[0] && "gif"@[0] != "webp"@[0]
        && "gif"@[0] != "bmp"@[0] && "gif"@[0] != "tiff"@[0]);
}

/// The format of a path follows from its extension alone: an extension
/// whose lowercase form has a tag gives that tag, any other is refused, and
/// so is a path without an extension.
pub proof fn loi_format_selon_extension(ext: Option<Seq<char>>)
    ensures
        match ext {
            Some(e) => match etiquette_du_format(minuscules(e)) {
                Some(etiquette) => format_de_l_extension(ext) == Ok::<Seq<char>, Seq<char>>(
                    etiquette,
                ),
                None => format_de_l_extension(ext) is Err,
            },
            None => format_de_l_extension(ext) is Err,
        },
{
}

/// Format tag of an extension already in lowercase.
pub fn etiquette_selon_extension(extension: &str) -> (etiquette: Option<&'static str>)
    ensures
        match etiquette {
            Some(e) => etiquette_du_format(extension@) == Some(e@),
            None => etiquette_du_format(extension@) is None,
        },
{
    if meme_texte(extension, "jpg") || meme_texte(extension, "jpeg") {
        Some("JPEG")
    } else if meme_texte(extension, "png") {
        Some("PNG")
    } else if meme_texte(extension, "webp") {
        Some("WebP")
    } else if meme_texte(extension, "bmp") {
        Some("BMP")
    } else if meme_texte(extension, "tiff") || meme_texte(extension, "tif") {
        Some("TIFF")
    } else if meme_texte(extension, "gif") {
        Some("GIF")
    } else {
        None
    }
}

/// Format tag of a file, read in the extension of its path and in nothing
/// else. The case of the extension does not count. A path without an
/// extension, or with one that is not of a supported format, is refused.
pub fn detecter_format_image(chemin: &str) -> (format: ResultatApplication<&'static str>)
    ensures
        match format {
            Ok(etiquette) => format_de_l_extension(extension(chemin@)) == Ok::<
                Seq<char>,
                Seq<char>,
            >(etiquette@),
            Err(erreur) => erreur is Validation && format_de_l_extension(extension(chemin@))
                == Err::<Seq<char>, Seq<char>>(erreur.message()),
        },
{
    match extension_du_chemin(chemin) {
        Some(ext) => {
            let minuscule = en_minuscules(ext.as_str());
            match etiquette_selon_extension(minuscule.as_str()) {
                Some(etiquette) => Ok(etiquette),
                None => Err(
                    ErreurApplication::Validation {
                        message: composer("Extension de fichier non reconnue : ", ext.as_str()),
                    },
                ),
            }
        },
        None => Err(
            ErreurApplication::Validation {
                message: String::from_str("Impossible de déterminer le format du fichier"),
            },
        ),
    }
}

/// The format a lowercase name asks for; `None` for a name that is not one
/// of a supported format.
pub open spec fn format_nomme(nom: Seq<char>) -> Option<FormatSortie> {
    if nom == "jpeg"@ || nom == "jpg"@ {
        Some(FormatSortie::Jpeg)
    } else if nom == "png"@ {
        Some(FormatSortie::Png)
    } else if nom == "webp"@ {
        Some(FormatSortie::WebP)
    } else if nom == "bmp"@ {
        Some(FormatSortie::Bmp)
    } else if nom == "tiff"@ {
        Some(FormatSortie::Tiff)
    } else if nom == "gif"@ {
        Some(FormatSortie::Gif)
    } else {
        None
    }
}

/// The format a name asks for, whatever its case: the format, or the message
/// of the validation error.
pub open spec fn format_demande(nom: Seq<char>) -> Result<FormatSortie, Seq<char>> {
    match format_nomme(minuscules(nom)) {
        Some(format) => Ok(format),
        None => Err("Format non supporté : "@ + nom),
    }
}

/// The format a name already in lowercase asks for.
pub fn format_selon_nom(nom: &str) -> (format: Option<FormatSortie>)
    ensures
        format == format_nomme(nom@),
{
    if meme_texte(nom, "jpeg") || meme_texte(nom, "jpg") {
        Some(FormatSortie::Jpeg)
    } else if meme_texte(nom, "png") {
        Some(FormatSortie::Png)
    } else if meme_texte(nom, "webp") {
        Some(FormatSortie::WebP)
    } else if meme_texte(nom, "bmp") {
        Some(FormatSortie::Bmp)
    } else if meme_texte(nom, "tiff") {
        Some(FormatSortie::Tiff)
    } else if meme_texte(nom, "gif") {
        Some(FormatSortie::Gif)
    } else {
        None
    }
}

/// Reads the output format asked for. A name that is not one of a supported
/// format is refused, and the error names it.
pub fn resoudre_format_sortie(nom: &str) -> (format: ResultatApplication<FormatSortie>)
    ensures
        match format {
            Ok(f) => format_demande(nom@) == Ok::<FormatSortie, Seq<char>>(f),
            Err(erreur) => erreur is Validation && format_demande(nom@) == Err::<
                FormatSortie,
                Seq<char>,
            >(erreur.message()),
        },
{
    let minuscule = en_minuscules(nom);
    match format_selon_nom(minuscule.as_str()) {
        Some(format) => Ok(format),
        None => Err(
            ErreurApplication::Validation { message: composer("Format non supporté : ", nom) },
        ),
    }
}

// ---------------------------------------------------------------------------
// Key colour
// ---------------------------------------------------------------------------
/// Value of a hexadecimal digit given by its ASCII code.
pub open spec fn valeur_hex(c: u8) -> Option<int> {
    if 48 <= c <= 57 {
        Some(c - 48)
    } else if 97 <= c <= 102 {
        Some(c - 87)
    } else if 65 <= c <= 70 {
        Some(c - 55)
    } else {
        None
    }
}

/// The bytes of a text after its leading `#` signs.
pub open spec fn sans_dieses(octets: Seq<u8>) -> Seq<u8>
    decreases octets.len(),
{
    if octets.len() > 0 && octets[0] == 35 {
        sans_dieses(octets.drop_first())
    } else {
        octets
    }
}

/// Value of the two hexadecimal digits at ranks `i` and `i + 1`.
pub open spec fn octet_hex(chiffres: Seq<u8>, i: int) -> Option<int> {
    match (valeur_hex(chiffres[i]), valeur_hex(chiffres[i + 1])) {
        (Some(haut), Some(bas)) => Some(16 * haut + bas),
        _ => None,
    }
}

/// The colour the bytes of a text stand for: after the leading `#` signs,
/// exactly six hexadecimal digits, two for each of red, green and blue.
/// Otherwise the message of the validation error.
pub open spec fn couleur_lue(octets: Seq<u8>) -> Result<(int, int, int), Seq<char>> {
    let chiffres = sans_dieses(octets);
    if chiffres.len() != 6 {
        Err("La couleur doit être au format #RRGGBB"@)
    } else {
        match (octet_hex(chiffres, 0), octet_hex(chiffres, 2), octet_hex(chiffres, 4)) {
            (Some(r), Some(g), Some(b)) => Ok((r, g, b)),
            _ => Err("Couleur hexadécimale invalide"@),
        }
    }
}

/// The colour a text stands for, read in its bytes.
pub open spec fn couleur_du_texte(texte: Seq<char>) -> Result<(int, int, int), Seq<char>> {
    couleur_lue(vstd::utf8::encode_utf8(texte))
}

/// Value of a hexadecimal digit.
pub fn chiffre_hex(c: u8) -> (valeur: Option<u8>)
    ensures
        match valeur {
            Some(v) => valeur_hex(c) == Some(v as int) && v < 16,
            None => valeur_hex(c) is None,
        },
{
    if c >= 48 && c <= 57 {
        Some(c - 48)
    } else if c >= 97 && c <= 102 {
        Some(c - 87)
    } else if c >= 65 && c <= 70 {
        Some(c - 55)
    } else {
        None
    }
}

/// Value of two hexadecimal digits of a text.
fn lire_octet_hex(chiffres: &[u8], i: usize) -> (valeur: Option<u8>)
    requires
        i + 1 < chiffres@.len(),
    ensures
        match valeur {
            Some(v) => octet_hex(chiffres@, i as int) == Some(v as int),
            None => octet_hex(chiffres@, i as int) is None,
        },
{
    match (chiffre_hex(chiffres[i]), chiffre_hex(chiffres[i + 1])) {
        (Some(haut), Some(bas)) => Some(16 * haut + bas),
        _ => None,
    }
}

/// Reads a colour written `#RRGGBB`; the `#` may be left out.
pub fn parser_couleur_hex(hex: &str) -> (couleur: ResultatApplication<[u8; 3]>)
    ensures
        match couleur {
            Ok(c) => couleur_du_texte(hex@) == Ok::<(int, int, int), Seq<char>>(
                (c[0] as int, c[1] as int, c[2] as int),
            ),
            Err(erreur) => erreur is Validation && couleur_du_texte(hex@) == Err::<
                (int, int, int),
                Seq<char>,
            >(erreur.message()),
        },
{
    let octets = hex.as_bytes();
    let longueur = octets.len();
    let mut debut: usize = 0;
    assert(octets@.skip(0) =~= octets@);
    while debut < longueur && octets[debut] == 35
        invariant
            0 <= debut <= longueur,
            longueur == octets@.len(),
            sans_dieses(octets@) == sans_dieses(octets@.skip(debut as int)),
        decreases longueur - debut,
    {
        assert(octets@.skip(debut as int).drop_first() =~= octets@.skip(debut + 1));
        debut = debut + 1;
    }
    let ghost chiffres = octets@.skip(debut as int);
    assert(sans_dieses(chiffres) == chiffres);
    if longueur - debut != 6 {
        return Err(
            ErreurApplication::Validation {
                message: String::from_str("La couleur doit être au format #RRGGBB"),
            },
        );
    }
    let reste = vstd::slice::slice_subrange(octets, debut, longueur);
    assert(reste@ =~= chiffres);
    match (lire_octet_hex(reste, 0), lire_octet_hex(reste, 2), lire_octet_hex(reste, 4)) {
        (Some(r), Some(g), Some(b)) => Ok([r, g, b]),
        _ => Err(
            ErreurApplication::Validation {
                message: String::from_str("Couleur hexadécimale invalide"),
            },
        ),
    }
}

// ---------------------------------------------------------------------------
// Size reduction
// ---------------------------------------------------------------------------
/// Size reduction from `avant` to `apres` bytes, in tenths of a percent:
/// `(avant - apres) / avant * 100`, to the nearest tenth, and 0 when `avant`
/// is 0. It is negative when the size grew.
pub open spec fn reduction_dixiemes(avant: nat, apres: nat) -> int {
    if avant == 0 {
        0
    } else if apres <= avant {
        arrondi_pair((avant - apres) * 1000, avant as int)
    } else {
        -arrondi_pair((apres - avant) * 1000, avant as int)
    }
}

/// A source of no bytes has a reduction of zero, whatever the size of the
/// output: nothing is divided by zero.
pub proof fn loi_reduction_source_vide(apres: nat)
    ensures
        reduction_dixiemes(0, apres) == 0,
        texte_pourcentage(reduction_dixiemes(0, apres)) == "0.0"@,
{
    reveal_strlit("0.0");
    reveal_strlit(".");
    assert(decimal(0) =~= seq!['0']);
    assert(texte_pourcentage(0) =~= "0.0"@);
}

/// A percentage written with one decimal: `60.0`, `-12.5`.
pub open spec fn texte_pourcentage(dixiemes: int) -> Seq<char> {
    if dixiemes < 0 {
        "-"@ + decimal(((-dixiemes) / 10) as nat) + "."@ + decimal(((-dixiemes) % 10) as nat)
    } else {
        decimal((dixiemes / 10) as nat) + "."@ + decimal((dixiemes % 10) as nat)
    }
}

impl Pourcentage {
    /// The reduction in size from `avant` to `apres` bytes.
    pub fn reduction(avant: u64, apres: u64) -> (pourcentage: Pourcentage)
        ensures
            pourcentage.dixiemes == reduction_dixiemes(avant as nat, apres as nat),
    {
        if avant == 0 {
            Pourcentage { dixiemes: 0 }
        } else if apres <= avant {
            let q = diviser_arrondi_pair((avant - apres) as u128 * 1000, avant as u128);
            proof {
                lemme_arrondi_borne(((avant - apres) * 1000) as int, avant as int);
            }
            Pourcentage { dixiemes: q as i128 }
        } else {
            let q = diviser_arrondi_pair((apres - avant) as u128 * 1000, avant as u128);
            proof {
                lemme_arrondi_borne(((apres - avant) * 1000) as int, avant as int);
            }
            Pourcentage { dixiemes: -(q as i128) }
        }
    }

    /// The percentage written with one decimal.
    pub fn texte(&self) -> (texte: String)
        ensures
            texte@ == texte_pourcentage(self.dixiemes as int),
    {
        if self.dixiemes < 0 {
            // The opposite of the least value does not fit in the signed type.
            let valeur: u128 = if self.dixiemes == i128::MIN {
                0x8000_0000_0000_0000_0000_0000_0000_0000
            } else {
                (-self.dixiemes) as u128
            };
            let mut texte = String::from_str("-");
            texte.append(en_decimal(valeur / 10).as_str());
            texte.append(".");
            texte.append(en_decimal(valeur % 10).as_str());
            texte
        } else {
            let valeur: u128 = self.dixiemes as u128;
            let mut texte = en_decimal(valeur / 10);
            texte.append(".");
            texte.append(en_decimal(valeur % 10).as_str());
            texte
        }
    }
}

/// A rounded quotient is at most the dividend plus one.
pub proof fn lemme_arrondi_borne(num: int, den: int)
    requires
        0 <= num,
        1 <= den,
    ensures
        0 <= arrondi_pair(num, den) <= num + 1,
{
    vstd::arithmetic::div_mod::lemma_fundamental_div_mod(num, den);
    let q = num / den;
    let r = num % den;
    assert(0 <= q <= num) by (nonlinear_arith)
        requires
            num == den * q + r,
            0 <= r < den,
            0 <= num,
            1 <= den,
    ;
}

} // verus!
