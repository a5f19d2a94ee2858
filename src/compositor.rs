use vstd::prelude::*;

use crate::frame::AsciiFrame;
use crate::min_int;
use crossbeam_channel::{Receiver, Sender};
use ratatui::buffer::Buffer;
use ratatui::layout::Rect;

verus! {

#[verifier::external_type_specification]
pub struct ExRect(ratatui::layout::Rect);

#[verifier::external_type_specification]
#[verifier::external_body]
pub struct ExCell(ratatui::buffer::Cell);

#[verifier::external_type_specification]
pub struct ExBuffer(ratatui::buffer::Buffer);

#[verifier::external_type_specification]
#[verifier::external_body]
#[verifier::reject_recursive_types(T)]
pub struct ExReceiver<T>(crossbeam_channel::Receiver<T>);

#[verifier::external_type_specification]
#[verifier::external_body]
#[verifier::reject_recursive_types(T)]
pub struct ExSender<T>(crossbeam_channel::Sender<T>);

/// Opacity is counted in thousandths: `OPACITY_SCALE` is fully opaque.
pub const OPACITY_SCALE: u16 = 1000;

/// How many frames the decoder may run ahead of the display.
pub const FRAME_QUEUE_CAPACITY: usize = 8;

/// `v` clamped into `0..=OPACITY_SCALE`.
pub open spec fn clamp_opacity(v: int) -> int {
    if v < 0 {
        0
    } else if v > OPACITY_SCALE {
        OPACITY_SCALE as int
    } else {
        v
    }
}

/// Channel value `c` dimmed toward black by opacity `o` thousandths, truncated.
pub open spec fn dimmed(c: int, o: int) -> int {
    c * o / (OPACITY_SCALE as int)
}

/// A blend factor toward black, in thousandths, within `0..=OPACITY_SCALE`.
#[derive(Clone, Copy, Debug, PartialEq, Eq, Structural)]
pub struct Opacity {
    per_mille: u16,
}

impl Opacity {
    #[verifier::type_invariant]
    spec fn inv(&self) -> bool {
        self.per_mille <= OPACITY_SCALE
    }

    pub closed spec fn spec_per_mille(&self) -> int {
        self.per_mille as int
    }

    /// The opacity `v / OPACITY_SCALE`, clamped into `0..=1`.
    pub fn from_per_mille(v: i64) -> (o: Opacity)
        ensures
            o.spec_per_mille() == clamp_opacity(v as int),
    {
        let per_mille: u16 = if v < 0 {
            0
        } else if v > OPACITY_SCALE as i64 {
            OPACITY_SCALE
        } else {
            v as u16
        };
        Opacity { per_mille }
    }

    pub fn per_mille(&self) -> (v: u16)
        ensures
            v == self.spec_per_mille(),
            v <= OPACITY_SCALE,
    {
        proof {
            use_type_invariant(self);
        }
        self.per_mille
    }

    /// `c` scaled by this opacity, truncated toward zero.
    pub fn dim(&self, c: u8) -> (d: u8)
        ensures
            d == dimmed(c as int, self.spec_per_mille()),
    {
        proof {
            use_type_invariant(self);
            let o = self.per_mille as int;
            assert(c * o <= 255 * 1000) by (nonlinear_arith)
                requires c <= 255, 0 <= o <= 1000;
            assert(c * o / 1000 <= 255);
        }
        ((c as u32) * (self.per_mille as u32) / (OPACITY_SCALE as u32)) as u8
    }
}

/// Opacities above one behave as one, and below zero as zero.
pub proof fn lemma_opacity_clamp(v: int)
    ensures
        v >= OPACITY_SCALE ==> clamp_opacity(v) == clamp_opacity(OPACITY_SCALE as int),
        v <= 0 ==> clamp_opacity(v) == clamp_opacity(0),
        0 <= clamp_opacity(v) <= OPACITY_SCALE,
{
}

/// Whether `area` lies within the `u16` coordinate space.
pub open spec fn area_fits(area: Rect) -> bool {
    area.x + area.width <= 0xffff && area.y + area.height <= 0xffff
}

/// Whether `area` lies within the `u16` coordinate space, as every `Rect`
/// that `Rect::new` builds does.
pub fn area_fits_u16(area: Rect) -> (b: bool)
    ensures
        b == area_fits(area),
{
    (area.x as u32) + (area.width as u32) <= 0xffff && (area.y as u32) + (area.height as u32) <= 0xffff
}

/// The region of an area that a frame is drawn into: its size is the
/// frame's, clipped to the area, and it is centred, rounding down.
#[derive(Clone, Copy, Debug, PartialEq, Eq, Structural)]
pub struct Placement {
    pub x0: u16,
    pub y0: u16,
    pub width: u16,
    pub height: u16,
}

/// Placement of a `frame_w` by `frame_h` frame in `area`.
pub open spec fn placement_of(frame_w: int, frame_h: int, area: Rect) -> Placement {
    let w = min_int(frame_w, area.width as int);
    let h = min_int(frame_h, area.height as int);
    Placement {
        x0: (area.x + (area.width - w) / 2) as u16,
        y0: (area.y + (area.height - h) / 2) as u16,
        width: w as u16,
        height: h as u16,
    }
}

/// Where a `frame_w` by `frame_h` frame goes in `area`; the region never
/// leaves the area.
pub fn place(frame_w: u16, frame_h: u16, area: Rect) -> (p: Placement)
    requires
        area_fits(area),
    ensures
        p == placement_of(frame_w as int, frame_h as int, area),
        area.x <= p.x0,
        p.x0 + p.width <= area.x + area.width,
        area.y <= p.y0,
        p.y0 + p.height <= area.y + area.height,
{
    let w = if frame_w <= area.width {
        frame_w
    } else {
        area.width
    };
    let h = if frame_h <= area.height {
        frame_h
    } else {
        area.height
    };
    Placement { x0: area.x + (area.width - w) / 2, y0: area.y + (area.height - h) / 2, width: w, height: h }
}

/// One cell to draw: its screen position, glyph and dimmed colour.
#[derive(Clone, Copy, Debug, PartialEq, Eq, Structural)]
pub struct Glyph {
    pub x: u16,
    pub y: u16,
    pub ch: char,
    pub r: u8,
    pub g: u8,
    pub b: u8,
}

/// The `k`-th glyph drawn, row-major over placement `p`: the frame's cell at
/// the same row and column, its colour dimmed by `o` thousandths.
pub open spec fn glyph_at(f: AsciiFrame, o: int, p: Placement, k: int) -> Glyph {
    let col = k % (p.width as int);
    let row = k / (p.width as int);
    let cell = f.spec_cells()[row * f.spec_width() + col];
    Glyph {
        x: (p.x0 + col) as u16,
        y: (p.y0 + row) as u16,
        ch: cell.0,
        r: dimmed(cell.1 as int, o) as u8,
        g: dimmed(cell.2 as int, o) as u8,
        b: dimmed(cell.3 as int, o) as u8,
    }
}

/// The glyphs drawn for frame `f` at opacity `o` in `area`, row-major.
pub open spec fn composed(f: AsciiFrame, o: int, area: Rect) -> Seq<Glyph> {
    let p = placement_of(f.spec_width() as int, f.spec_height() as int, area);
    Seq::new((p.width * p.height) as nat, |k: int| glyph_at(f, o, p, k))
}

/// The glyphs that draw `f` at opacity `o`, centred and clipped to `area`.
pub fn compose(f: &AsciiFrame, o: Opacity, area: Rect) -> (gs: Vec<Glyph>)
    requires
        area_fits(area),
    ensures
        gs@ == composed(*f, o.spec_per_mille(), area),
{
    let p = place(f.width(), f.height(), area);
    let cells = f.cells();
    let fw = f.width() as usize;
    let pw = p.width as usize;
    let n = crate::frame::cell_count(p.width, p.height);
    let mut gs: Vec<Glyph> = Vec::new();
    let mut k: usize = 0;
    while k < n
        invariant
            p == placement_of(f.spec_width() as int, f.spec_height() as int, area),
            area_fits(area),
            n == p.width * p.height,
            pw == p.width,
            fw == f.spec_width(),
            cells@ == f.spec_cells(),
            cells@.len() == f.spec_width() * f.spec_height(),
            p.width <= f.spec_width(),
            p.height <= f.spec_height(),
            p.x0 + p.width <= 0xffff,
            p.y0 + p.height <= 0xffff,
            k <= n,
            gs@.len() == k,
            forall|j: int| 0 <= j < k ==> #[trigger] gs@[j] == glyph_at(*f, o.spec_per_mille(), p, j),
        decreases n - k,
    {
        proof {
            assert(pw > 0) by (nonlinear_arith)
                requires k < pw * p.height, pw >= 0, p.height >= 0;
        }
        let row = k / pw;
        let col = k % pw;
        let clen = cells.len();
        proof {
            let fh = f.spec_height() as int;
            assert(row < p.height) by (nonlinear_arith)
                requires row == k / pw, k < pw * p.height, pw > 0;
            assert(row * fw + col < fw * fh) by (nonlinear_arith)
                requires row < p.height, p.height <= fh, col < pw, pw <= fw;
            assert(row * fw + col < clen);
        }
        let cell = cells[row * fw + col];
        let gl = Glyph {
            x: p.x0 + col as u16,
            y: p.y0 + row as u16,
            ch: cell.0,
            r: o.dim(cell.1),
            g: o.dim(cell.2),
            b: o.dim(cell.3),
        };
        proof {
            assert(gl == glyph_at(*f, o.spec_per_mille(), p, k as int));
        }
        gs.push(gl);
        proof {
            assert(gs@.len() == k + 1);
        }
        k = k + 1;
    }
    proof {
        assert(gs@ =~= composed(*f, o.spec_per_mille(), area));
    }
    gs
}

/// Right or bottom edge of a span, capped at the coordinate space's end.
pub open spec fn edge(start: u16, len: u16) -> int {
    min_int(start + len, 0xffff)
}

/// Index of position `(x, y)` in the row-major cells of a buffer over `area`,
/// if the position lies in it.
pub open spec fn cell_index(area: Rect, x: u16, y: u16) -> Option<int> {
    if area.x <= x < edge(area.x, area.width) && area.y <= y < edge(area.y, area.height) {
        Some((y - area.y) * area.width + (x - area.x))
    } else {
        None
    }
}

/// What a cell becomes when glyph `ch` is written into it in colour `(r, g, b)`.
pub uninterp spec fn painted(c: ratatui::buffer::Cell, ch: char, r: u8, g: u8, b: u8) -> ratatui::buffer::Cell;

/// Cells of a buffer over `area` after glyph `gl` is written into them.
pub open spec fn paint_one(cells: Seq<ratatui::buffer::Cell>, area: Rect, gl: Glyph) -> Seq<ratatui::buffer::Cell> {
    match cell_index(area, gl.x, gl.y) {
        Some(i) => if i < cells.len() {
            cells.update(i, painted(cells[i], gl.ch, gl.r, gl.g, gl.b))
        } else {
            cells
        },
        None => cells,
    }
}

/// Cells of a buffer over `area` after the glyphs `gs` are written in order.
pub open spec fn paint_all(cells: Seq<ratatui::buffer::Cell>, area: Rect, gs: Seq<Glyph>) -> Seq<ratatui::buffer::Cell>
    decreases gs.len(),
{
    if gs.len() == 0 {
        cells
    } else {
        paint_one(paint_all(cells, area, gs.drop_last()), area, gs.last())
    }
}

/// Relies on ratatui's `Buffer::cell_mut`, which finds the cell at `(x, y)`
/// by its row-major index within the buffer's area (none outside the area or
/// past the content), and on `Cell::set_char` and `Cell::set_fg`, which set
/// that cell's symbol and foreground colour.
#[verifier::external_body]
fn paint(buf: &mut Buffer, gl: Glyph)
    ensures
        final(buf).area == old(buf).area,
        final(buf).content@ == match cell_index(old(buf).area, gl.x, gl.y) {
            Some(i) => if i < old(buf).content@.len() {
                old(buf).content@.update(i, painted(old(buf).content@[i], gl.ch, gl.r, gl.g, gl.b))
            } else {
                old(buf).content@
            },
            None => old(buf).content@,
        },
{
    if let Some(cell) = buf.cell_mut((gl.x, gl.y)) {
        cell.set_char(gl.ch);
        cell.set_fg(ratatui::style::Color::Rgb(gl.r, gl.g, gl.b));
    }
}

/// The bound of the queue that `tx` sends into, as its `capacity` reports it.
pub uninterp spec fn queue_capacity(tx: Sender<AsciiFrame>) -> Option<usize>;

/// Relies on crossbeam's `bounded`: a queue holding at most `cap` items, its
/// sender blocking while it is full; `Sender::capacity` then reports
/// `Some(cap)`. A small `cap` keeps its allocation from failing.
#[verifier::external_body]
fn bounded_queue(cap: usize) -> (q: (Sender<AsciiFrame>, Receiver<AsciiFrame>))
    requires
        cap <= FRAME_QUEUE_CAPACITY,
    ensures
        queue_capacity(q.0) == Some(cap),
{
    crossbeam_channel::bounded(cap)
}

/// Relies on crossbeam's `Receiver::try_recv`: takes the oldest queued
/// frame if there is one, without waiting.
#[verifier::external_body]
fn poll_queue(rx: &Receiver<AsciiFrame>) -> (r: Option<AsciiFrame>) {
    rx.try_recv().ok()
}

/// The queue that carries frames from the decoder to the display, holding at
/// most `FRAME_QUEUE_CAPACITY` of them.
pub fn frame_queue() -> (q: (Sender<AsciiFrame>, Receiver<AsciiFrame>))
    ensures
        queue_capacity(q.0) == Some(FRAME_QUEUE_CAPACITY),
{
    bounded_queue(FRAME_QUEUE_CAPACITY)
}

/// The display side of a looping video: it takes at most one frame from the
/// queue per tick and draws the latest one, dimmed, behind the interface.
pub struct VideoBackground {
    rx: Receiver<AsciiFrame>,
    latest: Option<AsciiFrame>,
    opacity: Opacity,
}

impl VideoBackground {
    pub closed spec fn spec_latest(&self) -> Option<AsciiFrame> {
        self.latest
    }

    pub closed spec fn spec_opacity(&self) -> Opacity {
        self.opacity
    }

    /// A background that reads frames from `rx`; nothing is shown until the
    /// first frame arrives.
    pub fn new(rx: Receiver<AsciiFrame>, opacity: Opacity) -> (v: VideoBackground)
        ensures
            v.spec_latest() is None,
            v.spec_opacity() == opacity,
    {
        VideoBackground { rx, latest: None, opacity }
    }

    pub fn opacity(&self) -> (o: Opacity)
        ensures
            o == self.spec_opacity(),
    {
        self.opacity
    }

    pub fn latest(&self) -> (f: &Option<AsciiFrame>)
        ensures
            *f == self.spec_latest(),
    {
        &self.latest
    }

    /// Keeps `polled` as the frame to show when there is one; with none,
    /// the frame shown stays as it was.
    pub fn accept(&mut self, polled: Option<AsciiFrame>)
        ensures
            final(self).spec_opacity() == old(self).spec_opacity(),
            final(self).spec_latest() == match polled {
                Some(f) => Some(f),
                None => old(self).spec_latest(),
            },
    {
        if let Some(f) = polled {
            self.latest = Some(f);
        }
    }

    /// Takes at most one waiting frame from the queue, without blocking.
    pub fn update(&mut self)
        ensures
            final(self).spec_opacity() == old(self).spec_opacity(),
            final(self).spec_latest() == old(self).spec_latest() || final(self).spec_latest() is Some,
    {
        let polled = poll_queue(&self.rx);
        self.accept(polled);
    }

    /// Draws the latest frame into `buf`, centred in `area`, clipped to it and
    /// dimmed by the opacity; cells outside the drawn region are untouched,
    /// and before any frame has arrived nothing is drawn.
    pub fn render_background(&self, buf: &mut Buffer, area: Rect)
        requires
            area_fits(area),
        ensures
            final(buf).area == old(buf).area,
            final(buf).content@ == match self.spec_latest() {
                Some(f) => paint_all(
                    old(buf).content@,
                    old(buf).area,
                    composed(f, self.spec_opacity().spec_per_mille(), area),
                ),
                None => old(buf).content@,
            },
    {
        if let Some(f) = &self.latest {
            let gs = compose(f, self.opacity, area);
            let mut k: usize = 0;
            while k < gs.len()
                invariant
                    k <= gs@.len(),
                    buf.area == old(buf).area,
                    buf.content@ == paint_all(old(buf).content@, old(buf).area, gs@.take(k as int)),
                decreases gs@.len() - k,
            {
                paint(buf, gs[k]);
                proof {
                    assert(gs@.take(k + 1).drop_last() =~= gs@.take(k as int));
                }
                k = k + 1;
            }
            proof {
                assert(gs@.take(gs@.len() as int) =~= gs@);
            }
        }
    }
}

} // verus!
