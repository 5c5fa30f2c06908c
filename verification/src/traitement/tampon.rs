//! A dense row-major buffer of 8-bit RGBA samples.

use vstd::prelude::*;

verus! {

/// What an image is, mathematically: its dimensions and its samples, four per
/// pixel (red, green, blue, alpha), rows first.
pub struct VueImage {
    pub largeur: nat,
    pub hauteur: nat,
    pub echantillons: Seq<u8>,
}

impl VueImage {
    /// There are exactly four samples for each pixel.
    pub open spec fn bien_formee(self) -> bool {
        self.echantillons.len() == 4 * (self.largeur * self.hauteur)
    }

    pub open spec fn nombre_pixels(self) -> nat {
        self.largeur * self.hauteur
    }

    /// Rank of the pixel at column `x` of row `y`.
    pub open spec fn rang(self, x: int, y: int) -> int {
        y * self.largeur + x
    }

    /// Sample `canal` (0 to 3) of the pixel of rank `i`.
    pub open spec fn canal(self, i: int, canal: int) -> u8 {
        self.echantillons[4 * i + canal]
    }

    /// Alpha of the pixel of rank `i`.
    pub open spec fn alpha_rang(self, i: int) -> u8 {
        self.echantillons[4 * i + 3]
    }

    /// Alpha of the pixel at column `x` of row `y`.
    pub open spec fn alpha(self, x: int, y: int) -> u8 {
        self.alpha_rang(self.rang(x, y))
    }
}

/// An RGBA image held in memory.
pub struct ImageRgba {
    largeur: u32,
    hauteur: u32,
    donnees: Vec<u8>,
}

/// The number of pixels of an image fits in 64 bits.
pub proof fn lemme_produit_borne(l: u32, h: u32)
    ensures
        0 <= (l as int) * (h as int) <= 0xFFFF_FFFE_0000_0001,
{
    assert(0 <= (l as int) * (h as int) <= 0xFFFF_FFFE_0000_0001) by (nonlinear_arith)
        requires
            0 <= l <= 0xFFFF_FFFF,
            0 <= h <= 0xFFFF_FFFF,
    ;
}

/// A pixel of rank below `l * h` has its four samples inside `4 * l * h`.
pub proof fn lemme_rang_dans_tampon(l: nat, h: nat, x: int, y: int)
    requires
        0 <= x < l,
        0 <= y < h,
    ensures
        0 <= y * l + x < l * h,
{
    assert(y * l + x < l * h) by (nonlinear_arith)
        requires
            0 <= x < l,
            0 <= y < h,
    {
        assert((y + 1) * l <= h * l);
    }
    assert(0 <= y * l) by (nonlinear_arith)
        requires
            0 <= y,
            0 <= l,
    ;
}

impl View for ImageRgba {
    type V = VueImage;

    closed spec fn view(&self) -> VueImage {
        VueImage {
            largeur: self.largeur as nat,
            hauteur: self.hauteur as nat,
            echantillons: self.donnees@,
        }
    }
}

impl ImageRgba {
    #[verifier::type_invariant]
    spec fn coherente(self) -> bool {
        self.donnees@.len() == 4 * (self.largeur as nat * self.hauteur as nat)
    }

    /// Builds an image from its dimensions and samples. The samples must
    /// cover the image; what lies beyond the last pixel is dropped.
    pub fn depuis_brut(largeur: u32, hauteur: u32, donnees: Vec<u8>) -> (image: Option<ImageRgba>)
        ensures
            image is Some <==> 4 * (largeur as nat * hauteur as nat) <= donnees@.len(),
            image matches Some(img) ==> {
                &&& img@.largeur == largeur
                &&& img@.hauteur == hauteur
                &&& img@.bien_formee()
                &&& img@.echantillons == donnees@.take(4 * (largeur as nat * hauteur as nat) as int)
            },
    {
        proof {
            lemme_produit_borne(largeur, hauteur);
        }
        let pixels: u64 = largeur as u64 * hauteur as u64;
        if pixels > (donnees.len() as u64) / 4 {
            return None;
        }
        let taille: usize = (pixels * 4) as usize;
        let mut donnees = donnees;
        donnees.truncate(taille);
        Some(ImageRgba { largeur, hauteur, donnees })
    }

    /// An image of the given size whose samples are all zero.
    pub fn nouvelle(largeur: u32, hauteur: u32) -> (image: Option<ImageRgba>)
        ensures
            image is Some <==> 4 * (largeur as nat * hauteur as nat) <= usize::MAX,
            image matches Some(img) ==> {
                &&& img@.largeur == largeur
                &&& img@.hauteur == hauteur
                &&& img@.bien_formee()
                &&& forall|j: int| 0 <= j < img@.echantillons.len() ==> img@.echantillons[j] == 0
            },
    {
        proof {
            lemme_produit_borne(largeur, hauteur);
        }
        let pixels: u64 = largeur as u64 * hauteur as u64;
        if pixels > (usize::MAX as u64) / 4 {
            return None;
        }
        let taille: usize = (pixels * 4) as usize;
        let donnees: Vec<u8> = vec![0u8; taille];
        Some(ImageRgba { largeur, hauteur, donnees })
    }

    pub fn largeur(&self) -> (l: u32)
        ensures
            l == self@.largeur,
    {
        self.largeur
    }

    pub fn hauteur(&self) -> (h: u32)
        ensures
            h == self@.hauteur,
    {
        self.hauteur
    }

    /// Number of pixels; an image always holds four samples for each.
    pub fn nombre_pixels(&self) -> (n: usize)
        ensures
            n == self@.nombre_pixels(),
            self@.bien_formee(),
            4 * n <= usize::MAX,
    {
        proof {
            use_type_invariant(self);
        }
        self.donnees.len() / 4
    }

    /// The four samples of the pixel of rank `i`.
    pub fn pixel_au_rang(&self, i: usize) -> (p: [u8; 4])
        requires
            i < self@.nombre_pixels(),
        ensures
            forall|c: int| 0 <= c < 4 ==> p[c] == self@.canal(i as int, c),
    {
        proof {
            use_type_invariant(self);
            assert(self.donnees.len() == self.donnees@.len());
        }
        let base: usize = 4 * i;
        [self.donnees[base], self.donnees[base + 1], self.donnees[base + 2], self.donnees[base + 3]]
    }

    /// Alpha of the pixel at column `x` of row `y`.
    pub fn alpha(&self, x: u32, y: u32) -> (a: u8)
        requires
            x < self@.largeur,
            y < self@.hauteur,
        ensures
            a == self@.alpha(x as int, y as int),
    {
        proof {
            use_type_invariant(self);
            assert(self.donnees.len() == self.donnees@.len());
            lemme_rang_dans_tampon(self.largeur as nat, self.hauteur as nat, x as int, y as int);
        }
        let rang: usize = y as usize * self.largeur as usize + x as usize;
        self.donnees[4 * rang + 3]
    }

    /// Replaces the alpha of the pixel of rank `i`; nothing else changes.
    pub fn fixer_alpha_au_rang(&mut self, i: usize, alpha: u8)
        requires
            i < old(self)@.nombre_pixels(),
        ensures
            final(self)@.largeur == old(self)@.largeur,
            final(self)@.hauteur == old(self)@.hauteur,
            final(self)@.echantillons == old(self)@.echantillons.update(4 * i + 3, alpha),
    {
        proof {
            use_type_invariant(&*self);
            assert(self.donnees.len() == self.donnees@.len());
        }
        self.donnees[4 * i + 3] = alpha;
    }

    /// Replaces the alpha of the pixel at column `x` of row `y`.
    pub fn fixer_alpha(&mut self, x: u32, y: u32, alpha: u8)
        requires
            x < old(self)@.largeur,
            y < old(self)@.hauteur,
        ensures
            final(self)@.largeur == old(self)@.largeur,
            final(self)@.hauteur == old(self)@.hauteur,
            final(self)@.echantillons == old(self)@.echantillons.update(
                4 * old(self)@.rang(x as int, y as int) + 3,
                alpha,
            ),
    {
        proof {
            use_type_invariant(&*self);
            assert(self.donnees.len() == self.donnees@.len());
            lemme_rang_dans_tampon(self.largeur as nat, self.hauteur as nat, x as int, y as int);
        }
        let rang: usize = y as usize * self.largeur as usize + x as usize;
        self.donnees[4 * rang + 3] = alpha;
    }

    /// A separate image with the same dimensions and samples.
    pub fn copie(&self) -> (image: ImageRgba)
        ensures
            image@ == self@,
    {
        proof {
            use_type_invariant(self);
        }
        ImageRgba { largeur: self.largeur, hauteur: self.hauteur, donnees: self.donnees.clone() }
    }

    /// The samples, rows first.
    pub fn echantillons(&self) -> (samples: &[u8])
        ensures
            samples@ == self@.echantillons,
            self@.bien_formee(),
    {
        proof {
            use_type_invariant(self);
        }
        self.donnees.as_slice()
    }

    /// Gives the samples back, rows first.
    pub fn en_brut(self) -> (donnees: Vec<u8>)
        ensures
            donnees@ == self@.echantillons,
    {
        self.donnees
    }
}

} // verus!
