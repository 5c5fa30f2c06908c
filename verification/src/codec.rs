//! Decoding, resampling and encoding, done by the `image` crate.
//!
//! Nothing in this file is proved: each function hands its arguments to the
//! `image` crate, and its contract is taken on trust. A decoded image is
//! opaque here: the library knows it by what the crate tells of it.

use vstd::prelude::*;
use crate::commandes::images::FormatSortie;

verus! {

/// `image::DynamicImage`, a decoded image, opaque to the verifier.
#[verifier::external_type_specification]
#[verifier::external_body]
pub struct ExDynamicImage(image::DynamicImage);

/// `image::ImageError`, what the crate reports, opaque to the verifier.
#[verifier::external_type_specification]
#[verifier::external_body]
pub struct ExImageError(image::ImageError);

/// `image::ImageFormat`, a format the crate knows, opaque to the verifier.
#[verifier::external_type_specification]
#[verifier::external_body]
pub struct ExImageFormat(image::ImageFormat);

/// The format the `image` crate reads in the extension of a path, if it
/// reads one.
pub uninterp spec fn format_du_chemin(chemin: Seq<char>) -> Option<image::ImageFormat>;

/// The image the `image` crate decodes from the bytes of a file taken as a
/// file of the given format, if it decodes one.
pub uninterp spec fn image_decodee(octets: Seq<u8>, format: image::ImageFormat) -> Option<
    image::DynamicImage,
>;

/// Width in pixels of a decoded image.
pub uninterp spec fn largeur_image(image: image::DynamicImage) -> nat;

/// Height in pixels of a decoded image.
pub uninterp spec fn hauteur_image(image: image::DynamicImage) -> nat;

/// Number of bytes of the buffer that holds the samples of a decoded image.
pub uninterp spec fn octets_du_tampon(image: image::DynamicImage) -> nat;

/// Number of bytes that one pixel of a decoded image takes in its buffer.
pub uninterp spec fn octets_par_pixel(image: image::DynamicImage) -> nat;

/// The samples of a decoded image once brought to 8-bit RGBA, rows first.
pub uninterp spec fn echantillons_de(image: image::DynamicImage) -> Seq<u8>;

/// The image that `image::DynamicImage::thumbnail` makes of an image for the
/// given bounds.
pub uninterp spec fn miniature_de(
    image: image::DynamicImage,
    largeur: u32,
    hauteur: u32,
) -> image::DynamicImage;

/// The image that `image::DynamicImage::resize_exact` makes of an image for
/// the given dimensions, with the Lanczos filter of window 3.
pub uninterp spec fn image_exacte(
    image: image::DynamicImage,
    largeur: u32,
    hauteur: u32,
) -> image::DynamicImage;

/// The file the `image` crate writes in memory for an image in the given
/// format, with the settings it has for that format: its bytes, or nothing
/// when the crate refuses.
pub uninterp spec fn fichier_encode(image: image::DynamicImage, format: FormatSortie) -> Option<
    Seq<u8>,
>;

/// The JPEG file the `image` crate writes in memory for an image at the
/// given quality: its bytes, or nothing when the crate refuses.
pub uninterp spec fn fichier_jpeg(image: image::DynamicImage, qualite: u8) -> Option<Seq<u8>>;

/// The PNG file the `image` crate writes in memory for an RGBA image of the
/// given dimensions and samples: its bytes, or nothing when the crate refuses
/// to encode such an image.
pub uninterp spec fn fichier_png(largeur: nat, hauteur: nat, echantillons: Seq<u8>) -> Option<
    Seq<u8>,
>;

/// The buffer of the image has exactly the bytes its dimensions ask for.
pub open spec fn tampon_exact(image: image::DynamicImage) -> bool {
    octets_du_tampon(image) == largeur_image(image) * hauteur_image(image) * octets_par_pixel(
        image,
    )
}

/// Calls `image::ImageFormat::from_path`. Trusted: the result is the format
/// the crate reads in the extension of the path, a function of the path
/// alone.
#[verifier::external_body]
pub(crate) fn format_selon_chemin(chemin: &str) -> (resultat: Result<
    image::ImageFormat,
    image::ImageError,
>)
    ensures
        match resultat {
            Ok(format) => format_du_chemin(chemin@) == Some(format),
            Err(_) => format_du_chemin(chemin@) is None,
        },
{
    image::ImageFormat::from_path(chemin)
}

/// Calls `image::load_from_memory_with_format`. Trusted: the result is the
/// image the crate decodes from the bytes as a file of the given format, a
/// function of the bytes and of the format alone.
#[verifier::external_body]
pub(crate) fn decoder_avec_format(octets: &[u8], format: image::ImageFormat) -> (resultat: Result<
    image::DynamicImage,
    image::ImageError,
>)
    ensures
        match resultat {
            Ok(image) => image_decodee(octets@, format) == Some(image),
            Err(_) => image_decodee(octets@, format) is None,
        },
{
    image::load_from_memory_with_format(octets, format)
}

/// Calls `image::DynamicImage::width`. Trusted: the result is the width.
#[verifier::external_body]
pub(crate) fn largeur_de(image: &image::DynamicImage) -> (largeur: u32)
    ensures
        largeur == largeur_image(*image),
{
    image.width()
}

/// Calls `image::DynamicImage::height`. Trusted: the result is the height.
#[verifier::external_body]
pub(crate) fn hauteur_de(image: &image::DynamicImage) -> (hauteur: u32)
    ensures
        hauteur == hauteur_image(*image),
{
    image.height()
}

/// Calls `image::DynamicImage::as_bytes` and takes the length. Trusted: the
/// result is the number of bytes of the buffer of the image.
#[verifier::external_body]
pub(crate) fn taille_du_tampon(image: &image::DynamicImage) -> (octets: usize)
    ensures
        octets == octets_du_tampon(*image),
{
    image.as_bytes().len()
}

/// Calls `image::DynamicImage::color` and `image::ColorType::bytes_per_pixel`.
/// Trusted: the result is the number of bytes one pixel takes.
#[verifier::external_body]
pub(crate) fn taille_du_pixel(image: &image::DynamicImage) -> (octets: u8)
    ensures
        octets == octets_par_pixel(*image),
{
    image.color().bytes_per_pixel()
}

/// Calls `image::DynamicImage::thumbnail`, which scales an image to fit
/// within the bounds and keeps its aspect ratio. Trusted: the result is a
/// function of the image and of the bounds alone and, for bounds of at least
/// one pixel that do not exceed the image, it has at least one pixel each way
/// and fits within the bounds.
#[verifier::external_body]
pub(crate) fn miniature(image: &image::DynamicImage, largeur: u32, hauteur: u32) -> (resultat:
    image::DynamicImage)
    requires
        1 <= largeur <= largeur_image(*image),
        1 <= hauteur <= hauteur_image(*image),
    ensures
        resultat == miniature_de(*image, largeur, hauteur),
        1 <= largeur_image(resultat) <= largeur,
        1 <= hauteur_image(resultat) <= hauteur,
{
    image.thumbnail(largeur, hauteur)
}

/// Calls `image::DynamicImage::resize_exact` with the Lanczos filter of
/// window 3. Trusted: the result is a function of the image and of the
/// dimensions alone, and it has exactly the dimensions asked for. The crate
/// allocates up to sixteen bytes for each pixel of an intermediate image as
/// wide as the source and as high as the result, and of the result; sizes
/// beyond what a vector holds are left out.
#[verifier::external_body]
pub(crate) fn redimensionner_exact(
    image: &image::DynamicImage,
    largeur: u32,
    hauteur: u32,
) -> (resultat: image::DynamicImage)
    requires
        16 * (largeur_image(*image) * hauteur) <= isize::MAX,
        16 * (largeur * hauteur) <= isize::MAX,
    ensures
        resultat == image_exacte(*image, largeur, hauteur),
        largeur_image(resultat) == largeur,
        hauteur_image(resultat) == hauteur,
{
    image.resize_exact(largeur, hauteur, image::imageops::FilterType::Lanczos3)
}

/// Calls `image::DynamicImage::write_to` on a buffer in memory. Trusted:
/// whether the crate encodes the image, and the bytes it then writes, are a
/// function of the image and of the format alone. The encoders panic on an
/// image whose buffer is longer than its dimensions ask for; such an image is
/// left out.
#[verifier::external_body]
pub(crate) fn encoder_image(image: &image::DynamicImage, format: FormatSortie) -> (resultat: Result<
    Vec<u8>,
    image::ImageError,
>)
    requires
        tampon_exact(*image),
    ensures
        match resultat {
            Ok(octets) => fichier_encode(*image, format) == Some(octets@),
            Err(_) => fichier_encode(*image, format) is None,
        },
{
    let mut tampon = std::io::Cursor::new(Vec::new());
    let format = match format {
        FormatSortie::Jpeg => image::ImageFormat::Jpeg,
        FormatSortie::Png => image::ImageFormat::Png,
        FormatSortie::WebP => image::ImageFormat::WebP,
        FormatSortie::Bmp => image::ImageFormat::Bmp,
        FormatSortie::Tiff => image::ImageFormat::Tiff,
        FormatSortie::Gif => image::ImageFormat::Gif,
    };
    image.write_to(&mut tampon, format)?;
    Ok(tampon.into_inner())
}

/// Calls `image::DynamicImage::write_with_encoder` with a JPEG encoder made
/// by `JpegEncoder::new_with_quality`, on a buffer in memory. The crate
/// brings the quality into the range 1 to 100. Trusted: whether the crate
/// encodes the image, and the bytes it then writes, are a function of the
/// image and of the quality alone. The encoder panics on an image whose buffer
/// is longer than its dimensions ask for; such an image is left out.
#[verifier::external_body]
pub(crate) fn encoder_jpeg(image: &image::DynamicImage, qualite: u8) -> (resultat: Result<
    Vec<u8>,
    image::ImageError,
>)
    requires
        tampon_exact(*image),
    ensures
        match resultat {
            Ok(octets) => fichier_jpeg(*image, qualite) == Some(octets@),
            Err(_) => fichier_jpeg(*image, qualite) is None,
        },
{
    let mut tampon = std::io::Cursor::new(Vec::new());
    let encodeur = image::codecs::jpeg::JpegEncoder::new_with_quality(&mut tampon, qualite);
    image.write_with_encoder(encodeur)?;
    Ok(tampon.into_inner())
}

/// Calls `image::DynamicImage::to_rgba8` and takes the samples of the copy.
/// Trusted: the samples are a function of the image alone, and there are at
/// least four of them for each pixel of the image.
#[verifier::external_body]
pub(crate) fn echantillons_rgba(image: &image::DynamicImage) -> (brut: Vec<u8>)
    ensures
        brut@ == echantillons_de(*image),
        4 * (largeur_image(*image) * hauteur_image(*image)) <= brut@.len(),
{
    image.to_rgba8().into_raw()
}

/// Calls `image::write_buffer_with_format` for an RGBA buffer and the PNG
/// format, on a buffer in memory. Trusted: whether the crate encodes the
/// image, and the bytes it then writes, are a function of the dimensions and
/// samples alone. Nothing is claimed of which images it encodes. The crate
/// panics on a buffer whose length is not four samples for each pixel; such a
/// buffer is left out.
#[verifier::external_body]
pub(crate) fn encoder_png(largeur: u32, hauteur: u32, echantillons: &[u8]) -> (resultat: Result<
    Vec<u8>,
    image::ImageError,
>)
    requires
        echantillons@.len() == 4 * (largeur as nat * hauteur as nat),
    ensures
        match resultat {
            Ok(octets) => fichier_png(largeur as nat, hauteur as nat, echantillons@) == Some(
                octets@,
            ),
            Err(_) => fichier_png(largeur as nat, hauteur as nat, echantillons@) is None,
        },
{
    let mut tampon = std::io::Cursor::new(Vec::new());
    image::write_buffer_with_format(
        &mut tampon,
        echantillons,
        largeur,
        hauteur,
        image::ExtendedColorType::Rgba8,
        image::ImageFormat::Png,
    )?;
    Ok(tampon.into_inner())
}

/// Calls `to_string` on an `image::ImageError`: the text the crate gives for
/// the error. Nothing is claimed of the result.
#[verifier::external_body]
pub(crate) fn texte_erreur_image(erreur: &image::ImageError) -> String {
    erreur.to_string()
}

} // verus!
