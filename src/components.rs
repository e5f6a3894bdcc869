use vstd::prelude::*;

use crate::component::Component;
use crate::geometry::Rect;
use crate::surface::{buffer_area, buffer_styles, buffer_symbols, BoundedBuffer};

verus! {

/// The glyph that a plain single-line border puts at the absolute position
/// `(x, y)` of `area`, or `None` inside the border and outside the area.
pub open spec fn border_glyph(area: Rect, x: int, y: int) -> Option<char> {
    let left = x == area.x;
    let right = x == area.x + area.width - 1;
    let top = y == area.y;
    let bottom = y == area.y + area.height - 1;
    if !area.contains(x, y) {
        None
    } else if left && top {
        Some('\u{250c}')
    } else if left && bottom {
        Some('\u{2514}')
    } else if right && top {
        Some('\u{2510}')
    } else if right && bottom {
        Some('\u{2518}')
    } else if top || bottom {
        Some('\u{2500}')
    } else if left || right {
        Some('\u{2502}')
    } else {
        None
    }
}

/// The glyphs `before` with a border drawn along the edges of `area`.
pub open spec fn framed(area: Rect, before: Map<(int, int), Seq<char>>) -> Map<
    (int, int),
    Seq<char>,
> {
    Map::new(
        |p: (int, int)| before.dom().contains(p),
        |p: (int, int)|
            match border_glyph(area, p.0, p.1) {
                Some(c) => seq![c],
                None => before[p],
            },
    )
}

/// Relies on `tui::widgets::Block::render` for a block with all four borders
/// in the plain line style and no title: it writes the border glyphs along the
/// edges of `area` and leaves every other glyph as it was. Its block and border
/// styles are the default style, which leaves each cell's colours and modifier
/// as they were. It indexes each
/// cell of `area`, and computes the area's size and each cell's index as a
/// `u16`.
#[verifier::external_body]
fn render_border(area: Rect, buf: &mut tui::buffer::Buffer)
    requires
        crate::surface::small_area(buffer_area(*old(buf))),
        area.wf(),
        area.width * area.height <= u16::MAX,
        forall|x: int, y: int| #[trigger]
            area.contains(x, y) ==> buffer_symbols(*old(buf)).dom().contains((x, y)),
    ensures
        buffer_area(*final(buf)) == buffer_area(*old(buf)),
        buffer_symbols(*final(buf)) == framed(area, buffer_symbols(*old(buf))),
        buffer_styles(*final(buf)) == buffer_styles(*old(buf)),
{
    let rect = tui::layout::Rect { x: area.x, y: area.y, width: area.width, height: area.height };
    let block = tui::widgets::Block::default().borders(tui::widgets::Borders::ALL);
    tui::widgets::Widget::render(block, rect, buf);
}

/// A component that draws a single-line border along the edges of its area.
pub struct Frame {}

impl Frame {
    pub fn new() -> (r: Frame)
        ensures
            r == (Frame {  }),
    {
        Frame {  }
    }
}

impl Default for Frame {
    fn default() -> (r: Frame)
        ensures
            r == (Frame {  }),
    {
        Frame {  }
    }
}

/// The absolute region of the surface that the local region `area` covers.
pub open spec fn placed(buf_area: Rect, area: Rect) -> Rect {
    Rect {
        x: (buf_area.x + area.x) as u16,
        y: (buf_area.y + area.y) as u16,
        width: area.width,
        height: area.height,
    }
}

/// Whether the local region `area` fits the surface and is small enough for a
/// border to be drawn on it.
pub open spec fn border_fits(buf_area: Rect, area: Rect) -> bool {
    &&& area.x + area.width <= buf_area.width
    &&& area.y + area.height <= buf_area.height
    &&& area.width * area.height <= u16::MAX
}

impl Frame {
    /// Draws the border along the edges of the local region `area`; draws
    /// nothing where `area` does not fit the surface.
    pub fn draw_border(&self, area: Rect, buf: &mut BoundedBuffer<'_>)
        requires
            old(buf).wf(),
        ensures
            final(buf).wf(),
            final(buf).area() == old(buf).area(),
            border_fits(old(buf).area(), area) ==> final(buf).symbols() == framed(
                placed(old(buf).area(), area),
                old(buf).symbols(),
            ),
            !border_fits(old(buf).area(), area) ==> final(buf).symbols() == old(buf).symbols(),
            final(buf).styles() == old(buf).styles(),
    {
        let whole = crate::surface::area_of(buf.buf);
        let local = Rect { x: 0, y: 0, width: whole.width, height: whole.height };
        proof {
            old(buf).lemma_views();
        }
        assert(area.width * area.height <= u16::MAX * u16::MAX) by (nonlinear_arith)
            requires
                area.width <= u16::MAX,
                area.height <= u16::MAX,
        ;
        let size: u32 = area.width as u32 * area.height as u32;
        if !area.is_inside(&local) || size > u16::MAX as u32 {
            return ;
        }
        let target = Rect {
            x: whole.x + area.x,
            y: whole.y + area.y,
            width: area.width,
            height: area.height,
        };
        assert forall|x: int, y: int| #[trigger]
            target.contains(x, y) implies buffer_symbols(*buf.buf).dom().contains((x, y)) by {
            assert(buf.area().contains(x, y));
        }
        render_border(target, buf.buf);
        proof {
            buf.lemma_views();
            assert(buf.symbols().dom() =~= old(buf).symbols().dom());
        }
        assert forall|x: int, y: int| #[trigger]
            buf.area().contains(x, y) implies buf.symbols().dom().contains((x, y)) by {
            assert(old(buf).area().contains(x, y));
        }
    }
}

impl Component for Frame {
    fn draw(&self, area: Rect, buf: &mut BoundedBuffer<'_>)
        ensures
            border_fits(old(buf).area(), area) ==> final(buf).symbols() == framed(
                placed(old(buf).area(), area),
                old(buf).symbols(),
            ),
            !border_fits(old(buf).area(), area) ==> final(buf).symbols() == old(buf).symbols(),
            final(buf).styles() == old(buf).styles(),
    {
        self.draw_border(area, buf);
    }
}

/// Drawing the border again over a drawn border changes nothing.
pub proof fn framed_twice(area: Rect, before: Map<(int, int), Seq<char>>)
    ensures
        framed(area, framed(area, before)) == framed(area, before),
{
    assert(framed(area, framed(area, before)) =~= framed(area, before));
}

} // verus!
