use vstd::prelude::*;

verus! {

/// Perceived brightness of an RGB pixel, rounded to the nearest integer:
/// `round(0.299 r + 0.587 g + 0.114 b)`, always in `0..=255`.
pub open spec fn luma(r: u8, g: u8, b: u8) -> int {
    (299 * r + 587 * g + 114 * b + 500) / 1000
}

/// Position in a palette of `p` glyphs chosen for brightness `y`.
pub open spec fn palette_index(y: int, p: int) -> int {
    y * (p - 1) / 255
}

/// Brightness of one pixel.
pub fn luminance(r: u8, g: u8, b: u8) -> (y: u8)
    ensures
        y as int == luma(r, g, b),
{
    let sum: u32 = 299 * (r as u32) + 587 * (g as u32) + 114 * (b as u32) + 500;
    (sum / 1000) as u8
}

/// Index of the glyph for brightness `y` in a palette of `p` glyphs.
pub fn glyph_index(y: u8, p: usize) -> (i: usize)
    requires
        p >= 1,
    ensures
        i as int == palette_index(y as int, p as int),
        i < p,
{
    proof {
        let yy: int = y as int;
        let q: int = (p - 1) as int;
        assert(yy * q <= 255 * 0xffff_ffff_ffff_ffffint) by (nonlinear_arith)
            requires 0 <= yy <= 255, 0 <= q <= 0xffff_ffff_ffff_ffffint;
    }
    let prod: u128 = (y as u128) * ((p - 1) as u128);
    proof {
        assert(prod <= 255 * (p - 1)) by (nonlinear_arith)
            requires prod == y * (p - 1), y <= 255, p >= 1;
    }
    (prod / 255) as usize
}

/// The ramp used when no palette is given: from light to dense.
pub open spec fn standard_ramp() -> Seq<char> {
    seq![
        ' ', '.', '\'', '`', '^', '"', ',', ':', ';', 'I', 'l', '!', 'i', '>', '<', '~', '+',
        '_', '-', '?', ']', '[', '}', '{', '1', ')', '(', '|', '\\', 't', 'f', 'j', 'r', 'x',
        'n', 'u', 'v', 'c', 'z', 'X', 'Y', 'U', 'J', 'C', 'L', 'Q', '0', 'O', 'Z', 'm', 'w',
        'q', 'p', 'd', 'b', 'k', 'h', 'a', 'o', '*', '#', 'M', 'W', '&', '8', '%', 'B', '@',
        '$',
    ]
}

/// Maps pixels to glyphs by brightness over a fixed, non-empty palette
/// ordered from visually light to visually dense.
pub struct AsciiMapper {
    palette: Vec<char>,
}

impl AsciiMapper {
    #[verifier::type_invariant]
    spec fn inv(&self) -> bool {
        self.palette@.len() >= 1
    }

    /// The palette, light to dense.
    pub closed spec fn spec_palette(&self) -> Seq<char> {
        self.palette@
    }

    /// Glyph that `self` gives to the pixel `(r, g, b)`.
    pub open spec fn glyph_of(&self, r: u8, g: u8, b: u8) -> char {
        self.spec_palette()[palette_index(luma(r, g, b), self.spec_palette().len() as int)]
    }

    /// A mapper over `palette`; `None` when the palette is empty.
    pub fn new(palette: Vec<char>) -> (m: Option<AsciiMapper>)
        ensures
            m is Some <==> palette@.len() >= 1,
            m is Some ==> m->Some_0.spec_palette() == palette@,
    {
        if palette.len() == 0 {
            None
        } else {
            Some(AsciiMapper { palette })
        }
    }

    /// A mapper over the standard ramp.
    pub fn standard() -> (m: AsciiMapper)
        ensures
            m.spec_palette() == standard_ramp(),
    {
        let palette: Vec<char> = vec![
            ' ', '.', '\'', '`', '^', '"', ',', ':', ';', 'I', 'l', '!', 'i', '>', '<', '~', '+',
            '_', '-', '?', ']', '[', '}', '{', '1', ')', '(', '|', '\\', 't', 'f', 'j', 'r', 'x',
            'n', 'u', 'v', 'c', 'z', 'X', 'Y', 'U', 'J', 'C', 'L', 'Q', '0', 'O', 'Z', 'm', 'w',
            'q', 'p', 'd', 'b', 'k', 'h', 'a', 'o', '*', '#', 'M', 'W', '&', '8', '%', 'B', '@',
            '$',
        ];
        assert(palette@ =~= standard_ramp());
        AsciiMapper { palette }
    }

    /// Number of glyphs in the palette.
    pub fn palette_len(&self) -> (n: usize)
        ensures
            n == self.spec_palette().len(),
            n >= 1,
    {
        proof {
            use_type_invariant(self);
        }
        self.palette.len()
    }

    /// Glyph for the pixel `(r, g, b)`.
    pub fn ascii_for(&self, r: u8, g: u8, b: u8) -> (c: char)
        ensures
            c == self.glyph_of(r, g, b),
    {
        proof {
            use_type_invariant(self);
        }
        let y = luminance(r, g, b);
        let i = glyph_index(y, self.palette.len());
        self.palette[i]
    }
}

/// The glyph index is `0` for the darkest pixel, `p - 1` for the brightest,
/// and never decreases as brightness grows.
pub proof fn lemma_palette_index_monotone(p: int, y1: int, y2: int)
    requires
        p >= 1,
        0 <= y1 <= y2 <= 255,
    ensures
        palette_index(0, p) == 0,
        palette_index(255, p) == p - 1,
        palette_index(y1, p) <= palette_index(y2, p),
        0 <= palette_index(y1, p) < p,
{
    assert(y1 * (p - 1) <= y2 * (p - 1)) by (nonlinear_arith)
        requires y1 <= y2, p >= 1;
    vstd::arithmetic::div_mod::lemma_div_is_ordered(y1 * (p - 1), y2 * (p - 1), 255);
    assert(255 * (p - 1) / 255 == p - 1) by (nonlinear_arith)
        requires p >= 1;
    assert(0 <= y1 * (p - 1) <= 255 * (p - 1)) by (nonlinear_arith)
        requires 0 <= y1 <= 255, p >= 1;
    vstd::arithmetic::div_mod::lemma_div_is_ordered(y1 * (p - 1), 255 * (p - 1), 255);
    vstd::arithmetic::div_mod::lemma_div_pos_is_pos(y1 * (p - 1), 255);
}

/// A mapper gives black the first glyph of its palette and white the last,
/// and a brighter pixel never a lighter glyph than a darker one.
pub proof fn lemma_mapper_order(m: AsciiMapper, dark: (u8, u8, u8), bright: (u8, u8, u8))
    requires
        m.spec_palette().len() >= 1,
        luma(dark.0, dark.1, dark.2) <= luma(bright.0, bright.1, bright.2),
    ensures
        m.glyph_of(0, 0, 0) == m.spec_palette()[0],
        m.glyph_of(255, 255, 255) == m.spec_palette()[m.spec_palette().len() - 1],
        m.glyph_of(dark.0, dark.1, dark.2) == m.spec_palette()[palette_index(
            luma(dark.0, dark.1, dark.2),
            m.spec_palette().len() as int,
        )],
        palette_index(luma(dark.0, dark.1, dark.2), m.spec_palette().len() as int) <= palette_index(
            luma(bright.0, bright.1, bright.2),
            m.spec_palette().len() as int,
        ),
{
    let p = m.spec_palette().len() as int;
    lemma_luma_range(dark.0, dark.1, dark.2);
    lemma_luma_range(bright.0, bright.1, bright.2);
    lemma_palette_index_monotone(p, luma(dark.0, dark.1, dark.2), luma(bright.0, bright.1, bright.2));
}

/// Brightness lies in `0..=255`, is `0` for black and `255` for white.
pub proof fn lemma_luma_range(r: u8, g: u8, b: u8)
    ensures
        0 <= luma(r, g, b) <= 255,
        luma(0, 0, 0) == 0,
        luma(255, 255, 255) == 255,
{
}

} // verus!
