use vstd::prelude::*;

verus! {

/// The premultiplied RGBA bytes that `egui::Color32` stores for a colour
/// given as unmultiplied sRGB channels and a linear alpha.
pub uninterp spec fn color32_premultiplied(r: u8, g: u8, b: u8, a: u8) -> Seq<u8>;

/// Calls `egui::Color32::from_rgba_unmultiplied` and reads the colour's
/// bytes back with `Color32::to_array`. Trusted: the result is the named
/// premultiplication of the four channels; alpha is kept as given; an opaque
/// colour keeps its channels; a fully transparent one becomes all zeros
/// (the two shortcuts the egui source takes). How the other channels are
/// rounded (a gamma-correct float computation) is left to the name.
#[verifier::external_body]
fn color32_from_rgba_unmultiplied(r: u8, g: u8, b: u8, a: u8) -> (bytes: [u8; 4])
    ensures
        bytes@ == color32_premultiplied(r, g, b, a),
        bytes[3] == a,
        a == 255 ==> bytes@ == seq![r, g, b, 255u8],
        a == 0 ==> bytes@ == seq![0u8, 0u8, 0u8, 0u8],
{
    egui::Color32::from_rgba_unmultiplied(r, g, b, a).to_array()
}

/// The alpha a surface is drawn with: the fixed translucent `glass_alpha`
/// while glassmorphism is on, else the configured alpha.
pub open spec fn surface_alpha(glassmorphism: bool, configured: u8, glass_alpha: u8) -> u8 {
    if glassmorphism {
        glass_alpha
    } else {
        configured
    }
}

/// With glassmorphism on, a surface is drawn at the fixed glass alpha
/// whatever alpha was configured; with it off, at the configured alpha.
pub proof fn lemma_glass_alpha_fixed(configured: u8, glass_alpha: u8)
    ensures
        surface_alpha(true, configured, glass_alpha) == glass_alpha,
        surface_alpha(false, configured, glass_alpha) == configured,
        forall|c1: u8, c2: u8| surface_alpha(true, c1, glass_alpha) == surface_alpha(true, c2, glass_alpha),
{
}

/// A colour's channels with its alpha replaced.
pub open spec fn with_alpha(rgba: Seq<u8>, alpha: u8) -> Seq<u8> {
    seq![rgba[0], rgba[1], rgba[2], alpha]
}

/// The egui colour bytes of an unmultiplied RGBA quadruple.
pub open spec fn color32_of(rgba: Seq<u8>) -> Seq<u8> {
    color32_premultiplied(rgba[0], rgba[1], rgba[2], rgba[3])
}

/// Alpha of the background under glassmorphism.
pub const GLASS_BG_ALPHA: u8 = 180;

/// Alpha of panels under glassmorphism.
pub const GLASS_PANEL_ALPHA: u8 = 200;

/// Universal 32-bit RGBA theme palette.
pub struct ThemeEngine {
    pub bg_rgba: [u8; 4],
    pub panel_rgba: [u8; 4],
    pub accent_rgba: [u8; 4],
    pub text_rgba: [u8; 4],
    pub is_glassmorphism: bool,
}

impl ThemeEngine {
    /// The default dark cyber theme with glassmorphism on.
    pub fn new() -> (theme: Self)
        ensures
            theme.bg_rgba@ == seq![18u8, 24u8, 38u8, 255u8],
            theme.panel_rgba@ == seq![30u8, 40u8, 60u8, 220u8],
            theme.accent_rgba@ == seq![0u8, 255u8, 180u8, 255u8],
            theme.text_rgba@ == seq![240u8, 245u8, 255u8, 255u8],
            theme.is_glassmorphism,
    {
        let theme = ThemeEngine {
            bg_rgba: [18, 24, 38, 255],
            panel_rgba: [30, 40, 60, 220],
            accent_rgba: [0, 255, 180, 255],
            text_rgba: [240, 245, 255, 255],
            is_glassmorphism: true,
        };
        assert(theme.bg_rgba@ =~= seq![18u8, 24u8, 38u8, 255u8]);
        assert(theme.panel_rgba@ =~= seq![30u8, 40u8, 60u8, 220u8]);
        assert(theme.accent_rgba@ =~= seq![0u8, 255u8, 180u8, 255u8]);
        assert(theme.text_rgba@ =~= seq![240u8, 245u8, 255u8, 255u8]);
        theme
    }

    /// The background colour, unmultiplied, with the alpha it is drawn with.
    pub fn bg_unmultiplied(&self) -> (rgba: [u8; 4])
        ensures
            rgba@ == with_alpha(
                self.bg_rgba@,
                surface_alpha(self.is_glassmorphism, self.bg_rgba[3], GLASS_BG_ALPHA),
            ),
            self.is_glassmorphism ==> rgba[3] == GLASS_BG_ALPHA,
            !self.is_glassmorphism ==> rgba[3] == self.bg_rgba[3],
            rgba[0] == self.bg_rgba[0] && rgba[1] == self.bg_rgba[1] && rgba[2] == self.bg_rgba[2],
    {
        let a = if self.is_glassmorphism {
            GLASS_BG_ALPHA
        } else {
            self.bg_rgba[3]
        };
        let rgba = [self.bg_rgba[0], self.bg_rgba[1], self.bg_rgba[2], a];
        assert(rgba@ =~= with_alpha(self.bg_rgba@, a));
        rgba
    }

    /// The panel colour, unmultiplied, with the alpha it is drawn with.
    pub fn panel_unmultiplied(&self) -> (rgba: [u8; 4])
        ensures
            rgba@ == with_alpha(
                self.panel_rgba@,
                surface_alpha(self.is_glassmorphism, self.panel_rgba[3], GLASS_PANEL_ALPHA),
            ),
            self.is_glassmorphism ==> rgba[3] == GLASS_PANEL_ALPHA,
            !self.is_glassmorphism ==> rgba[3] == self.panel_rgba[3],
            rgba[0] == self.panel_rgba[0] && rgba[1] == self.panel_rgba[1] && rgba[2] == self.panel_rgba[2],
    {
        let a = if self.is_glassmorphism {
            GLASS_PANEL_ALPHA
        } else {
            self.panel_rgba[3]
        };
        let rgba = [self.panel_rgba[0], self.panel_rgba[1], self.panel_rgba[2], a];
        assert(rgba@ =~= with_alpha(self.panel_rgba@, a));
        rgba
    }

    /// The background as egui colour bytes (premultiplied RGBA).
    pub fn bg_color32(&self) -> (bytes: [u8; 4])
        ensures
            bytes@ == color32_of(
                with_alpha(
                    self.bg_rgba@,
                    surface_alpha(self.is_glassmorphism, self.bg_rgba[3], GLASS_BG_ALPHA),
                ),
            ),
            bytes[3] == surface_alpha(self.is_glassmorphism, self.bg_rgba[3], GLASS_BG_ALPHA),
            self.is_glassmorphism ==> bytes[3] == GLASS_BG_ALPHA,
            !self.is_glassmorphism && self.bg_rgba[3] == 255 ==> bytes@ == self.bg_rgba@,
    {
        let c = self.bg_unmultiplied();
        color32_from_rgba_unmultiplied(c[0], c[1], c[2], c[3])
    }

    /// The panel colour as egui colour bytes (premultiplied RGBA).
    pub fn panel_color32(&self) -> (bytes: [u8; 4])
        ensures
            bytes@ == color32_of(
                with_alpha(
                    self.panel_rgba@,
                    surface_alpha(self.is_glassmorphism, self.panel_rgba[3], GLASS_PANEL_ALPHA),
                ),
            ),
            bytes[3] == surface_alpha(self.is_glassmorphism, self.panel_rgba[3], GLASS_PANEL_ALPHA),
            self.is_glassmorphism ==> bytes[3] == GLASS_PANEL_ALPHA,
            !self.is_glassmorphism && self.panel_rgba[3] == 255 ==> bytes@ == self.panel_rgba@,
    {
        let c = self.panel_unmultiplied();
        color32_from_rgba_unmultiplied(c[0], c[1], c[2], c[3])
    }

    /// The accent colour as egui colour bytes; glassmorphism does not touch it.
    pub fn accent_color32(&self) -> (bytes: [u8; 4])
        ensures
            bytes@ == color32_of(self.accent_rgba@),
            bytes[3] == self.accent_rgba[3],
            self.accent_rgba[3] == 255 ==> bytes@ == self.accent_rgba@,
    {
        color32_from_rgba_unmultiplied(
            self.accent_rgba[0],
            self.accent_rgba[1],
            self.accent_rgba[2],
            self.accent_rgba[3],
        )
    }

    /// The text colour as egui colour bytes; glassmorphism does not touch it.
    pub fn text_color32(&self) -> (bytes: [u8; 4])
        ensures
            bytes@ == color32_of(self.text_rgba@),
            bytes[3] == self.text_rgba[3],
            self.text_rgba[3] == 255 ==> bytes@ == self.text_rgba@,
    {
        color32_from_rgba_unmultiplied(
            self.text_rgba[0],
            self.text_rgba[1],
            self.text_rgba[2],
            self.text_rgba[3],
        )
    }
}

} // verus!
