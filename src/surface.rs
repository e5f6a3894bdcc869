use vstd::prelude::*;

use crate::geometry::Rect;

verus! {

#[verifier::external_type_specification]
#[verifier::external_body]
pub struct ExBuffer(tui::buffer::Buffer);

#[verifier::external_type_specification]
#[verifier::external_body]
pub struct ExCell(tui::buffer::Cell);

/// The glyph of each cell that `Buffer::get_mut` reaches, by absolute position.
pub uninterp spec fn buffer_symbols(b: tui::buffer::Buffer) -> Map<(int, int), Seq<char>>;

/// The region that a buffer covers.
pub uninterp spec fn buffer_area(b: tui::buffer::Buffer) -> Rect;

#[verifier::external_type_specification]
#[verifier::external_body]
pub struct ExStyle(tui::style::Style);

/// The colours and modifier of each cell that `Buffer::get_mut` reaches, as
/// `Cell::style` gives them, by absolute position.
pub uninterp spec fn buffer_styles(b: tui::buffer::Buffer) -> Map<(int, int), tui::style::Style>;

/// The colours and modifier of a cell, as `Cell::style` gives them.
pub uninterp spec fn cell_style(c: tui::buffer::Cell) -> tui::style::Style;

/// The glyph that a cell shows.
pub uninterp spec fn cell_symbol(c: tui::buffer::Cell) -> Seq<char>;

/// Relies on `tui::buffer::Buffer::area`, which returns the `area` field.
#[verifier::external_body]
pub(crate) fn area_of(b: &tui::buffer::Buffer) -> (r: Rect)
    ensures
        r == buffer_area(*b),
{
    let a = b.area();
    Rect { x: a.x, y: a.y, width: a.width, height: a.height }
}

/// Relies on `tui::buffer::Buffer::content`, the cells that the buffer holds
/// in row-major order of its area: where the area's edges and its cell count
/// fit in a `u16` (`Buffer::index_of` computes in `u16`), `get_mut` reaches the
/// cell of each position of the area whose index is below the content's length,
/// and of no other position.
#[verifier::external_body]
fn stored_cells(b: &tui::buffer::Buffer) -> (r: usize)
    ensures
        small_area(buffer_area(*b)) ==> forall|x: int, y: int|
            #[trigger] buffer_symbols(*b).dom().contains((x, y)) <==> (buffer_area(*b).contains(
                x,
                y,
            ) && (y - buffer_area(*b).y) * buffer_area(*b).width + (x - buffer_area(*b).x) < r),
        small_area(buffer_area(*b)) ==> forall|x: int, y: int|
            #[trigger] buffer_styles(*b).dom().contains((x, y)) <==> (buffer_area(*b).contains(
                x,
                y,
            ) && (y - buffer_area(*b).y) * buffer_area(*b).width + (x - buffer_area(*b).x) < r),
{
    b.content().len()
}

/// The area's edges and its number of cells fit in a `u16`.
pub open spec fn small_area(area: Rect) -> bool {
    area.wf() && area.width * area.height <= u16::MAX
}

/// Relies on `tui::buffer::Buffer::get_mut`, which hands out the cell stored at
/// an absolute position of the buffer's area.
#[verifier::external_body]
fn cell_at(b: &mut tui::buffer::Buffer, x: u16, y: u16) -> (c: &mut tui::buffer::Cell)
    requires
        small_area(buffer_area(*old(b))),
        buffer_symbols(*old(b)).dom().contains((x as int, y as int)),
    ensures
        cell_symbol(*c) == buffer_symbols(*old(b))[(x as int, y as int)],
        cell_style(*c) == buffer_styles(*old(b))[(x as int, y as int)],
        buffer_styles(*final(b)) == buffer_styles(*old(b)).insert(
            (x as int, y as int),
            cell_style(*final(c)),
        ),
        buffer_area(*final(b)) == buffer_area(*old(b)),
        buffer_symbols(*final(b)) == buffer_symbols(*old(b)).insert(
            (x as int, y as int),
            cell_symbol(*final(c)),
        ),
{
    b.get_mut(x, y)
}

/// Relies on `tui::buffer::Cell::set_char`, which makes `ch` the cell's only
/// glyph and leaves its colours and modifier alone.
#[verifier::external_body]
fn put_char(c: &mut tui::buffer::Cell, ch: char)
    ensures
        cell_symbol(*final(c)) == seq![ch],
        cell_style(*final(c)) == cell_style(*old(c)),
{
    c.set_char(ch);
}

/// A view of the cell grid that clips every write to the grid's area.
///
/// Positions are local: `(0, 0)` is the area's top-left cell.
pub struct BoundedBuffer<'a> {
    pub(crate) buf: &'a mut tui::buffer::Buffer,
}

/// A handle to one cell of a [`BoundedBuffer`], or to none when the position
/// it was asked for lies outside; writes through the empty handle do nothing.
pub struct BoundedCell<'a> {
    pub target: Option<&'a mut tui::buffer::Cell>,
}

impl<'a> BoundedBuffer<'a> {
    /// The region this surface may write to.
    pub closed spec fn area(&self) -> Rect {
        buffer_area(*self.buf)
    }

    /// The glyph of each cell, by absolute position.
    pub closed spec fn symbols(&self) -> Map<(int, int), Seq<char>> {
        buffer_symbols(*self.buf)
    }

    /// The colours and modifier of each cell, by absolute position.
    pub closed spec fn styles(&self) -> Map<(int, int), tui::style::Style> {
        buffer_styles(*self.buf)
    }

    /// The glyph at the local position `(x, y)`.
    pub open spec fn symbol_at(&self, x: int, y: int) -> Seq<char> {
        self.symbols()[self.area().to_absolute(x, y)]
    }

    /// The buffer that the surface wraps.
    pub(crate) open spec fn raw(&self) -> tui::buffer::Buffer {
        *self.buf
    }

    /// Inside the crate the surface's area and glyphs are those of the buffer
    /// it wraps.
    pub(crate) proof fn lemma_views(self)
        ensures
            self.area() == buffer_area(self.raw()),
            self.symbols() == buffer_symbols(self.raw()),
            self.styles() == buffer_styles(self.raw()),
    {
    }

    pub open spec fn wf(&self) -> bool {
        &&& small_area(self.area())
        &&& self.styles().dom() == self.symbols().dom()
        &&& forall|x: int, y: int| #[trigger]
            self.area().contains(x, y) ==> self.symbols().dom().contains((x, y))
    }

    /// Wraps `buf`, or returns `None` when its area's edges or its number of
    /// cells overflow a `u16`, or it stores fewer cells than its area holds.
    pub fn new(buf: &'a mut tui::buffer::Buffer) -> (r: Option<BoundedBuffer<'a>>)
        ensures
            match r {
                Some(s) => s.wf() && s.area() == buffer_area(*old(buf)) && s.symbols()
                    == buffer_symbols(*old(buf)) && s.styles() == buffer_styles(*old(buf)),
                None => !small_area(buffer_area(*old(buf))) || exists|x: int, y: int|
                    buffer_area(*old(buf)).contains(x, y) && !buffer_symbols(
                        *old(buf),
                    ).dom().contains((x, y)),
            },
    {
        let area = area_of(buf);
        let n = stored_cells(buf);
        let (w, h) = (area.width as u64, area.height as u64);
        assert(w * h <= u16::MAX * u16::MAX) by (nonlinear_arith)
            requires
                w <= u16::MAX,
                h <= u16::MAX,
        ;
        let needed: u64 = w * h;
        if area.x as u32 + area.width as u32 > u16::MAX as u32 || area.y as u32 + area.height as u32
            > u16::MAX as u32 {
            return None;
        }
        if needed > u16::MAX as u64 {
            return None;
        }
        if (n as u64) < needed {
            proof {
                assert(area.width > 0 && area.height > 0) by (nonlinear_arith)
                    requires
                        area.width * area.height > 0,
                ;
                let x = area.x + area.width - 1;
                let y = area.y + area.height - 1;
                assert(area.width * area.height == (area.height - 1) * area.width + area.width)
                    by (nonlinear_arith);
                assert(buffer_area(*buf).contains(x, y));
                assert(!buffer_symbols(*buf).dom().contains((x, y)));
            }
            return None;
        }
        proof {
            assert forall|x: int, y: int| #[trigger]
                area.contains(x, y) implies buffer_symbols(*buf).dom().contains((x, y)) by {
                let dx = x - area.x;
                let dy = y - area.y;
                assert(dy * area.width + dx < area.width * area.height) by (nonlinear_arith)
                    requires
                        0 <= dx < area.width,
                        0 <= dy < area.height,
                ;
            }
        }
        assert forall|p: (int, int)| #[trigger]
            buffer_styles(*buf).dom().contains(p) == buffer_symbols(*buf).dom().contains(p) by {
            assert(buffer_styles(*buf).dom().contains((p.0, p.1)) == buffer_symbols(
                *buf,
            ).dom().contains((p.0, p.1)));
        }
        assert(buffer_styles(*buf).dom() =~= buffer_symbols(*buf).dom());
        Some(BoundedBuffer { buf })
    }

    /// A handle to the cell at the local position `(x, y)`: a live one if and
    /// only if `x < width` and `y < height`, else one that ignores writes.
    pub fn get_mut(&mut self, x: u16, y: u16) -> (r: BoundedCell<'_>)
        requires
            old(self).wf(),
        ensures
            r.is_live() == old(self).area().contains_local(x as int, y as int),
            final(self).area() == old(self).area(),
            r.is_live() ==> r.symbol() == old(self).symbol_at(x as int, y as int),
            r.is_live() ==> final(self).symbols() == old(self).symbols().insert(
                old(self).area().to_absolute(x as int, y as int),
                cell_symbol(*final(r.target->0)),
            ),
            !r.is_live() ==> final(self).symbols() == old(self).symbols(),
            r.is_live() ==> r.style() == old(self).styles()[old(self).area().to_absolute(
                x as int,
                y as int,
            )],
            r.is_live() ==> final(self).styles() == old(self).styles().insert(
                old(self).area().to_absolute(x as int, y as int),
                cell_style(*final(r.target->0)),
            ),
            !r.is_live() ==> final(self).styles() == old(self).styles(),
    {
        let area = area_of(self.buf);
        if x < area.width && y < area.height {
            assert(self.area().contains(area.x + x, area.y + y));
            BoundedCell { target: Some(cell_at(self.buf, area.x + x, area.y + y)) }
        } else {
            BoundedCell { target: None }
        }
    }

    /// Shows `ch` at the local position `(x, y)`: the cell there changes and
    /// no other, and outside the area nothing changes at all.
    pub fn set_char_at(&mut self, x: u16, y: u16, ch: char)
        requires
            old(self).wf(),
        ensures
            final(self).wf(),
            final(self).area() == old(self).area(),
            old(self).area().contains_local(x as int, y as int) ==> final(self).symbols()
                == old(self).symbols().insert(
                old(self).area().to_absolute(x as int, y as int),
                seq![ch],
            ),
            !old(self).area().contains_local(x as int, y as int) ==> final(self).symbols()
                == old(self).symbols(),
            final(self).styles() == old(self).styles(),
    {
        let mut cell = self.get_mut(x, y);
        cell.set_char(ch);
        proof {
            let p = old(self).area().to_absolute(x as int, y as int);
            if old(self).area().contains_local(x as int, y as int) {
                assert(old(self).area().contains(p.0, p.1));
                assert(self.styles() =~= old(self).styles());
            }
        }
    }
}

impl<'a> BoundedCell<'a> {
    /// Whether the handle refers to a cell.
    pub open spec fn is_live(&self) -> bool {
        self.target is Some
    }

    /// The colours and modifier of the cell now.
    pub open spec fn style(&self) -> tui::style::Style {
        cell_style(*self.target->0)
    }

    /// The glyph of the cell now.
    pub open spec fn symbol(&self) -> Seq<char> {
        cell_symbol(*self.target->0)
    }

    /// Shows `ch` in the cell, or does nothing when the handle is empty.
    pub fn set_char(&mut self, ch: char)
        ensures
            final(self).is_live() == old(self).is_live(),
            final(self).is_live() ==> final(self).symbol() == seq![ch],
            final(self).is_live() ==> final(self).style() == old(self).style(),
            final(self).is_live() ==> *final(final(self).target->0) == *final(old(self).target->0),
    {
        match &mut self.target {
            Some(c) => put_char(*c, ch),
            None => {},
        }
    }
}

} // verus!
