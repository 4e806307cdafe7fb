//! The pixel model: three- or four-channel color values behind one
//! capability trait, together with the format's cache-index hash.

use crate::header::ColorChannel;
use vstd::prelude::*;

verus! {

/// Mathematical value of a pixel: four 8-bit channels.  For a three-channel
/// pixel the alpha is already materialized as 255, so pixels of either layout
/// can be compared and cached as the same kind of value.
pub ghost struct PixelView {
    pub r: u8,
    pub g: u8,
    pub b: u8,
    pub a: u8,
}

/// The pixel every encoder compares the first pixel against: opaque black.
pub open spec fn initial_pixel() -> PixelView {
    PixelView { r: 0, g: 0, b: 0, a: 255 }
}

/// The all-zero pixel that fills a fresh index cache.  Distinct from
/// `initial_pixel`, whose alpha is 255.
pub open spec fn zero_pixel() -> PixelView {
    PixelView { r: 0, g: 0, b: 0, a: 0 }
}

/// The format-mandated cache bucket of a pixel: `(r*3 + g*5 + b*7 + a*11) % 64`.
pub open spec fn spec_index_hash(p: PixelView) -> int {
    (p.r * 3 + p.g * 5 + p.b * 7 + p.a * 11) % 64
}

/// A color value with `N` stored channels, `N` being 3 (RGB) or 4 (RGBA).
/// A three-channel pixel carries its implicit alpha of 255 along, so that
/// both layouts share one representation; every constructor of a
/// three-channel pixel sets it to 255.
#[derive(Clone, Copy, Debug)]
pub struct Pixel<const N: usize> {
    r: u8,
    g: u8,
    b: u8,
    a: u8,
}

impl<const N: usize> View for Pixel<N> {
    type V = PixelView;

    closed spec fn view(&self) -> PixelView {
        PixelView { r: self.r, g: self.g, b: self.b, a: self.a }
    }
}

impl<const N: usize> PartialEq for Pixel<N> {
    /// Exact, component-wise equality, the stored alpha included.
    fn eq(&self, other: &Self) -> bool {
        self.r == other.r && self.g == other.g && self.b == other.b && self.a == other.a
    }
}

impl<const N: usize> Eq for Pixel<N> {

}

impl<const N: usize> vstd::std_specs::cmp::PartialEqSpecImpl for Pixel<N> {
    open spec fn obeys_eq_spec() -> bool {
        true
    }

    open spec fn eq_spec(&self, other: &Self) -> bool {
        self@ == other@
    }
}

impl Pixel<3> {
    /// A three-channel pixel; its alpha is the implicit 255.
    pub fn rgb(r: u8, g: u8, b: u8) -> (p: Self)
        ensures
            p@ == (PixelView { r, g, b, a: 255 }),
    {
        Self { r, g, b, a: 255 }
    }
}

impl Pixel<4> {
    /// A four-channel pixel with an explicit alpha.
    pub fn rgba(r: u8, g: u8, b: u8, a: u8) -> (p: Self)
        ensures
            p@ == (PixelView { r, g, b, a }),
    {
        Self { r, g, b, a }
    }
}

/// The capabilities the encoder needs from a pixel layout.
pub trait SupportedChannels: View<V = PixelView> + Sized + Copy {
    /// The channel-count tag this layout writes into the header.
    spec fn spec_color_channel() -> ColorChannel;

    /// Executable twin of [`Self::spec_color_channel`].
    fn color_channel() -> (c: ColorChannel)
        ensures
            c == Self::spec_color_channel(),
    ;

    /// The value the encoder's `previous pixel` starts from: opaque black.
    fn new_initial() -> (p: Self)
        ensures
            p@ == initial_pixel(),
    ;

    fn red(&self) -> (v: u8)
        ensures
            v == self@.r,
    ;

    fn green(&self) -> (v: u8)
        ensures
            v == self@.g,
    ;

    fn blue(&self) -> (v: u8)
        ensures
            v == self@.b,
    ;

    /// For a three-channel pixel this is the implicit 255.
    fn alpha(&self) -> (v: u8)
        ensures
            v == self@.a,
    ;

    /// The three raw channel bytes, in stream order.
    fn as_inner_rgb(&self) -> (bytes: [u8; 3])
        ensures
            bytes@ == seq![self@.r, self@.g, self@.b],
    ;

    /// The four raw channel bytes, in stream order.
    fn as_inner_rgba(&self) -> (bytes: [u8; 4])
        ensures
            bytes@ == seq![self@.r, self@.g, self@.b, self@.a],
    ;

    /// The same color as a four-channel pixel.
    fn as_rgba(&self) -> (p: Pixel<4>)
        ensures
            p@ == self@,
    ;
}

impl SupportedChannels for Pixel<3> {
    open spec fn spec_color_channel() -> ColorChannel {
        ColorChannel::Rgb
    }

    fn color_channel() -> ColorChannel {
        ColorChannel::Rgb
    }

    fn new_initial() -> Self {
        Self { r: 0, g: 0, b: 0, a: 255 }
    }

    fn red(&self) -> u8 {
        self.r
    }

    fn green(&self) -> u8 {
        self.g
    }

    fn blue(&self) -> u8 {
        self.b
    }

    fn alpha(&self) -> u8 {
        self.a
    }

    fn as_inner_rgb(&self) -> (bytes: [u8; 3]) {
        let bytes = [self.r, self.g, self.b];
        proof {
            assert(bytes@ =~= seq![self@.r, self@.g, self@.b]);
        }
        bytes
    }

    fn as_inner_rgba(&self) -> (bytes: [u8; 4]) {
        let bytes = [self.r, self.g, self.b, self.a];
        proof {
            assert(bytes@ =~= seq![self@.r, self@.g, self@.b, self@.a]);
        }
        bytes
    }

    fn as_rgba(&self) -> Pixel<4> {
        Pixel::<4> { r: self.r, g: self.g, b: self.b, a: self.a }
    }
}

impl SupportedChannels for Pixel<4> {
    open spec fn spec_color_channel() -> ColorChannel {
        ColorChannel::Rgba
    }

    fn color_channel() -> ColorChannel {
        ColorChannel::Rgba
    }

    fn new_initial() -> Self {
        Self { r: 0, g: 0, b: 0, a: 255 }
    }

    fn red(&self) -> u8 {
        self.r
    }

    fn green(&self) -> u8 {
        self.g
    }

    fn blue(&self) -> u8 {
        self.b
    }

    fn alpha(&self) -> u8 {
        self.a
    }

    fn as_inner_rgb(&self) -> (bytes: [u8; 3]) {
        let bytes = [self.r, self.g, self.b];
        proof {
            assert(bytes@ =~= seq![self@.r, self@.g, self@.b]);
        }
        bytes
    }

    fn as_inner_rgba(&self) -> (bytes: [u8; 4]) {
        let bytes = [self.r, self.g, self.b, self.a];
        proof {
            assert(bytes@ =~= seq![self@.r, self@.g, self@.b, self@.a]);
        }
        bytes
    }

    fn as_rgba(&self) -> Pixel<4> {
        *self
    }
}

impl Default for Pixel<3> {
    /// The default three-channel pixel is black, with the implicit alpha 255.
    fn default() -> (p: Self)
        ensures
            p@ == initial_pixel(),
    {
        Self { r: 0, g: 0, b: 0, a: 255 }
    }
}

impl Default for Pixel<4> {
    /// The default four-channel pixel is the true zero pixel, alpha included.
    fn default() -> (p: Self)
        ensures
            p@ == zero_pixel(),
    {
        Self { r: 0, g: 0, b: 0, a: 0 }
    }
}

impl<const N: usize> Pixel<N> where Pixel<N>: SupportedChannels {
    /// The cache bucket this pixel hashes to.
    pub fn index_hash(&self) -> (h: usize)
        ensures
            h == spec_index_hash(self@),
            h < 64,
    {
        (self.red() as usize * 3 + self.green() as usize * 5 + self.blue() as usize * 7
            + self.alpha() as usize * 11) % 64
    }
}

} // verus!
