use vstd::prelude::*;

use crate::mapper::AsciiMapper;

verus! {

/// One displayed cell: the glyph and the pixel's original colour.
pub type AsciiCell = (char, u8, u8, u8);

/// Whether rows of `3 * width` bytes, `stride` bytes apart, `height` of them,
/// fit in `len` bytes.
pub open spec fn raster_fits(width: int, height: int, stride: int, len: int) -> bool {
    &&& 3 * width <= stride
    &&& height == 0 || (height - 1) * stride + 3 * width <= len
}

/// The `(r, g, b)` pixel at column `x`, row `y` of packed RGB rows `stride` bytes apart.
pub open spec fn pixel_at(data: Seq<u8>, stride: int, x: int, y: int) -> (u8, u8, u8) {
    (data[y * stride + 3 * x], data[y * stride + 3 * x + 1], data[y * stride + 3 * x + 2])
}

/// The cell that `m` makes of the pixel `px`.
pub open spec fn cell_of(m: AsciiMapper, px: (u8, u8, u8)) -> AsciiCell {
    (m.glyph_of(px.0, px.1, px.2), px.0, px.1, px.2)
}

/// A packed 8-bit RGB image: `height` rows of `width` pixels, each row
/// starting `stride` bytes after the one before.
pub struct Raster {
    width: u16,
    height: u16,
    stride: usize,
    data: Vec<u8>,
}

impl Raster {
    #[verifier::type_invariant]
    spec fn inv(&self) -> bool {
        raster_fits(self.width as int, self.height as int, self.stride as int, self.data@.len() as int)
    }

    pub closed spec fn spec_width(&self) -> u16 {
        self.width
    }

    pub closed spec fn spec_height(&self) -> u16 {
        self.height
    }

    pub closed spec fn spec_stride(&self) -> usize {
        self.stride
    }

    pub closed spec fn spec_data(&self) -> Seq<u8> {
        self.data@
    }

    /// Pixel at column `x`, row `y`.
    pub open spec fn pixel(&self, x: int, y: int) -> (u8, u8, u8) {
        pixel_at(self.spec_data(), self.spec_stride() as int, x, y)
    }

    /// A raster over `data`; `None` when the rows do not fit in it.
    pub fn new(width: u16, height: u16, stride: usize, data: Vec<u8>) -> (r: Option<Raster>)
        ensures
            r is Some <==> raster_fits(width as int, height as int, stride as int, data@.len() as int),
            r is Some ==> {
                &&& r->Some_0.spec_width() == width
                &&& r->Some_0.spec_height() == height
                &&& r->Some_0.spec_stride() == stride
                &&& r->Some_0.spec_data() == data@
            },
    {
        if height == 0 {
            if 3 * (width as u128) <= stride as u128 {
                return Some(Raster { width, height, stride, data });
            }
            return None;
        }
        let rows: u128 = (height - 1) as u128;
        proof {
            assert(rows * (stride as u128) <= 0xffff * 0xffff_ffff_ffff_ffffint) by (nonlinear_arith)
                requires rows <= 0xffff, stride <= 0xffff_ffff_ffff_ffffint;
        }
        let need: u128 = rows * (stride as u128) + 3 * (width as u128);
        if 3 * (width as u128) > stride as u128 || need > data.len() as u128 {
            return None;
        }
        Some(Raster { width, height, stride, data })
    }
}

/// Number of cells in a grid of `width` by `height`.
pub fn cell_count(width: u16, height: u16) -> (n: usize)
    ensures
        n == width * height,
{
    proof {
        assert(width * height <= 0xffff * 0xffff) by (nonlinear_arith)
            requires width <= 0xffff, height <= 0xffff;
    }
    (width as usize) * (height as usize)
}

/// A frame of glyphs: `height` rows of `width` cells, row-major.
pub struct AsciiFrame {
    w: u16,
    h: u16,
    cells: Vec<AsciiCell>,
}

impl AsciiFrame {
    #[verifier::type_invariant]
    spec fn inv(&self) -> bool {
        self.cells@.len() == self.w * self.h
    }

    pub closed spec fn spec_width(&self) -> u16 {
        self.w
    }

    pub closed spec fn spec_height(&self) -> u16 {
        self.h
    }

    pub closed spec fn spec_cells(&self) -> Seq<AsciiCell> {
        self.cells@
    }

    /// A frame of `width` by `height` cells; `None` unless there are exactly
    /// `width * height` of them.
    pub fn new(width: u16, height: u16, cells: Vec<AsciiCell>) -> (f: Option<AsciiFrame>)
        ensures
            f is Some <==> cells@.len() == width * height,
            f is Some ==> {
                &&& f->Some_0.spec_width() == width
                &&& f->Some_0.spec_height() == height
                &&& f->Some_0.spec_cells() == cells@
            },
    {
        if cells.len() == cell_count(width, height) {
            Some(AsciiFrame { w: width, h: height, cells })
        } else {
            None
        }
    }

    pub fn width(&self) -> (w: u16)
        ensures
            w == self.spec_width(),
    {
        self.w
    }

    pub fn height(&self) -> (h: u16)
        ensures
            h == self.spec_height(),
    {
        self.h
    }

    /// The cells, row-major; there are always `width * height` of them.
    pub fn cells(&self) -> (c: &Vec<AsciiCell>)
        ensures
            c@ == self.spec_cells(),
            c@.len() == self.spec_width() * self.spec_height(),
    {
        proof {
            use_type_invariant(self);
        }
        &self.cells
    }
}

/// Converts a raster to a frame of the same size: each cell carries the glyph
/// for its pixel's brightness and that pixel's original colour.
pub fn to_ascii_frame(m: &AsciiMapper, rgb: &Raster) -> (f: AsciiFrame)
    ensures
        f.spec_width() == rgb.spec_width(),
        f.spec_height() == rgb.spec_height(),
        f.spec_cells().len() == rgb.spec_width() * rgb.spec_height(),
        forall|k: int|
            0 <= k < f.spec_cells().len() ==> #[trigger] f.spec_cells()[k] == cell_of(
                *m,
                rgb.pixel(k % rgb.spec_width() as int, k / rgb.spec_width() as int),
            ),
{
    proof {
        use_type_invariant(rgb);
    }
    let w = rgb.width as usize;
    let h = rgb.height as usize;
    let stride = rgb.stride;
    let n: usize = cell_count(rgb.width, rgb.height);
    let mut cells: Vec<AsciiCell> = Vec::new();
    let mut k: usize = 0;
    while k < n
        invariant
            n == w * h,
            w == rgb.spec_width(),
            h == rgb.spec_height(),
            stride == rgb.spec_stride(),
            raster_fits(w as int, h as int, stride as int, rgb.data@.len() as int),
            k <= n,
            cells@.len() == k,
            forall|j: int|
                0 <= j < k ==> #[trigger] cells@[j] == cell_of(
                    *m,
                    rgb.pixel(j % w as int, j / w as int),
                ),
        decreases n - k,
    {
        proof {
            assert(w > 0) by (nonlinear_arith)
                requires k < w * h, w >= 0, h >= 0;
        }
        let y = k / w;
        let x = k % w;
        let len = rgb.data.len();
        proof {
            assert(y < h) by (nonlinear_arith)
                requires y == k / w, k < w * h, w > 0;
            let yy = y as int;
            let s = stride as int;
            let hh = h as int;
            assert(yy * s <= (hh - 1) * s) by (nonlinear_arith)
                requires yy <= hh - 1, s >= 0;
            assert(x < w);
            assert(y * stride + 3 * x + 2 < len);
        }
        let i = y * stride + 3 * x;
        let r = rgb.data[i];
        let g = rgb.data[i + 1];
        let b = rgb.data[i + 2];
        let ch = m.ascii_for(r, g, b);
        cells.push((ch, r, g, b));
        k = k + 1;
    }
    AsciiFrame { w: rgb.width, h: rgb.height, cells }
}

} // verus!
