//! Layout engine: places the six controls of the main window.
//!
//! Lengths are computed in layout units, ninety-six to a device pixel, so that scaling a
//! length by `dpi / 96` loses nothing. A rectangle is turned into device pixels only at
//! the end, by rounding each of its four numbers toward zero.

use crate::control::{
    is_control, ControlRect, ControlRegistry, ID_BTN_PATH, ID_BTN_RUN, ID_PROGRESS_BAR,
    ID_PROGRESS_TXT, ID_TEXTBOX_PATH, ID_TEXTBOX_RESULT,
};
use vstd::prelude::*;

verus! {

/// Dots per inch at which one layout pixel is one device pixel.
pub const REFERENCE_DPI: u32 = 96;

/// Layout units in one device pixel.
pub const UNITS_PER_PIXEL: i64 = 96;

/// Width of a button at the reference density, in pixels.
pub const BASE_BTN_WIDTH: i64 = 80;

/// Width of the progress text at the reference density, in pixels.
pub const BASE_PROGRESS_TXT_WIDTH: i64 = 80;

/// Height of a single-line control at the reference density, in pixels.
pub const BASE_ONELINE_HEIGHT: i64 = 24;

/// Gap between controls at the reference density, in pixels.
pub const BASE_PADDING: i64 = 5;

/// Height of the control font at the reference density, in pixels.
pub const BASE_FONT_HEIGHT: i64 = 14;

/// Largest value a layout constant may take, in layout units.
pub const METRIC_MAX: i64 = 0x100_0000_0000;

/// Quotient of `v` by `d`, rounded toward zero.
pub open spec fn div_toward_zero(v: int, d: int) -> int
    recommends
        d > 0,
{
    if v >= 0 {
        v / d
    } else {
        -((-v) / d)
    }
}

/// Whole device pixels in `units` layout units: rounded toward zero, and held to the
/// range of `i32`.
pub open spec fn pixels(units: int) -> int {
    let q = div_toward_zero(units, UNITS_PER_PIXEL as int);
    if q > i32::MAX {
        i32::MAX as int
    } else if q < i32::MIN {
        i32::MIN as int
    } else {
        q
    }
}

/// Computes `pixels`.
pub fn to_pixels(units: i64) -> (px: i32)
    ensures
        px == pixels(units as int),
{
    let q: i64 = units / UNITS_PER_PIXEL;
    if q > i32::MAX as i64 {
        i32::MAX
    } else if q < i32::MIN as i64 {
        i32::MIN
    } else {
        q as i32
    }
}

/// A length of `pixels_at_reference` pixels seen at `dpi` dots per inch, in whole device
/// pixels: rounded toward zero, and held to the range of `u32`.
pub open spec fn scaled_length(pixels_at_reference: u32, dpi: u32) -> int {
    let q = (pixels_at_reference * dpi) / (REFERENCE_DPI as int);
    if q > u32::MAX {
        u32::MAX as int
    } else {
        q
    }
}

/// Computes `scaled_length`.
pub fn scale_length(pixels_at_reference: u32, dpi: u32) -> (r: u32)
    ensures
        r == scaled_length(pixels_at_reference, dpi),
{
    assert(pixels_at_reference * dpi <= 0xffff_ffff * 0xffff_ffff) by (nonlinear_arith)
        requires
            pixels_at_reference <= 0xffff_ffff,
            dpi <= 0xffff_ffff,
    ;
    let product: u64 = pixels_at_reference as u64 * dpi as u64;
    let q: u64 = product / (REFERENCE_DPI as u64);
    if q > u32::MAX as u64 {
        u32::MAX
    } else {
        q as u32
    }
}

/// Height handed to the toolkit for the control font at `dpi` dots per inch. It is
/// negative, which asks for a character height rather than a cell height.
pub open spec fn font_height_at(dpi: u32) -> int {
    -((BASE_FONT_HEIGHT * dpi) / (REFERENCE_DPI as int))
}

/// Computes `font_height_at`.
pub fn font_height(dpi: u32) -> (h: i32)
    ensures
        h == font_height_at(dpi),
        h <= 0,
{
    let q: i64 = (BASE_FONT_HEIGHT * dpi as i64) / (REFERENCE_DPI as i64);
    -(q as i32)
}

/// The layout constants, in layout units.
#[derive(Clone, Copy, Debug, PartialEq, Eq, Structural)]
pub struct Metrics {
    pub btn_width: i64,
    pub progress_txt_width: i64,
    pub oneline_height: i64,
    pub padding: i64,
}

impl Metrics {
    /// Every constant is a length: not negative, and small enough to be added up.
    pub open spec fn wf(&self) -> bool {
        &&& 0 <= self.btn_width <= METRIC_MAX
        &&& 0 <= self.progress_txt_width <= METRIC_MAX
        &&& 0 <= self.oneline_height <= METRIC_MAX
        &&& 0 <= self.padding <= METRIC_MAX
    }

    /// The constants at `dpi` dots per inch: each base length times `dpi / 96`, exactly.
    pub open spec fn at_dpi(dpi: u32) -> Metrics {
        Metrics {
            btn_width: (BASE_BTN_WIDTH * dpi) as i64,
            progress_txt_width: (BASE_PROGRESS_TXT_WIDTH * dpi) as i64,
            oneline_height: (BASE_ONELINE_HEIGHT * dpi) as i64,
            padding: (BASE_PADDING * dpi) as i64,
        }
    }

    /// Computes `at_dpi`.
    pub fn scaled(dpi: u32) -> (m: Metrics)
        ensures
            m == Metrics::at_dpi(dpi),
            m.wf(),
    {
        Metrics {
            btn_width: BASE_BTN_WIDTH * dpi as i64,
            progress_txt_width: BASE_PROGRESS_TXT_WIDTH * dpi as i64,
            oneline_height: BASE_ONELINE_HEIGHT * dpi as i64,
            padding: BASE_PADDING * dpi as i64,
        }
    }

    /// The constants at the reference density.
    pub fn reference() -> (m: Metrics)
        ensures
            m == Metrics::at_dpi(REFERENCE_DPI),
            m.wf(),
    {
        Metrics::scaled(REFERENCE_DPI)
    }

    /// Layout units that the first row needs: two buttons and their padding.
    pub open spec fn row_units(&self) -> int {
        2 * self.btn_width + 4 * self.padding
    }

    /// Layout units that the second row needs: the progress text and the outer padding.
    pub open spec fn progress_units(&self) -> int {
        2 * self.padding + self.progress_txt_width
    }

    /// Layout units that the two single-line rows and their padding take from the height.
    pub open spec fn rows_units(&self) -> int {
        2 * self.oneline_height + 4 * self.padding
    }

    /// A window of `width` by `height` pixels is usable when every control keeps a width
    /// and a height that are not negative.
    pub open spec fn usable(&self, width: u32, height: u32) -> bool {
        &&& width * UNITS_PER_PIXEL >= self.row_units()
        &&& width * UNITS_PER_PIXEL >= self.progress_units()
        &&& height * UNITS_PER_PIXEL >= self.rows_units()
    }

    /// Computes `usable`.
    pub fn is_usable(&self, width: u32, height: u32) -> (b: bool)
        requires
            self.wf(),
        ensures
            b == self.usable(width, height),
    {
        let w: i64 = width as i64 * UNITS_PER_PIXEL;
        let h: i64 = height as i64 * UNITS_PER_PIXEL;
        w >= 2 * self.btn_width + 4 * self.padding && w >= 2 * self.padding
            + self.progress_txt_width && h >= 2 * self.oneline_height + 4 * self.padding
    }

    /// The least width, in pixels, of a usable window.
    pub open spec fn min_width(&self) -> int {
        let need = if self.row_units() >= self.progress_units() {
            self.row_units()
        } else {
            self.progress_units()
        };
        (need + UNITS_PER_PIXEL - 1) / (UNITS_PER_PIXEL as int)
    }

    /// The least height, in pixels, of a usable window.
    pub open spec fn min_height(&self) -> int {
        (self.rows_units() + UNITS_PER_PIXEL - 1) / (UNITS_PER_PIXEL as int)
    }

    /// Computes `min_width`.
    pub fn minimum_width(&self) -> (w: i64)
        requires
            self.wf(),
        ensures
            w == self.min_width(),
    {
        let row: i64 = 2 * self.btn_width + 4 * self.padding;
        let progress: i64 = 2 * self.padding + self.progress_txt_width;
        let need: i64 = if row >= progress {
            row
        } else {
            progress
        };
        (need + UNITS_PER_PIXEL - 1) / UNITS_PER_PIXEL
    }

    /// Computes `min_height`.
    pub fn minimum_height(&self) -> (h: i64)
        requires
            self.wf(),
        ensures
            h == self.min_height(),
    {
        let rows: i64 = 2 * self.oneline_height + 4 * self.padding;
        (rows + UNITS_PER_PIXEL - 1) / UNITS_PER_PIXEL
    }
}

/// The rectangle whose four numbers, in layout units, are `x`, `y`, `width`, `height`.
pub open spec fn rect_of_units(x: int, y: int, width: int, height: int) -> ControlRect {
    ControlRect {
        x: pixels(x) as i32,
        y: pixels(y) as i32,
        width: pixels(width) as i32,
        height: pixels(height) as i32,
    }
}

/// Where the control `id` stands in a window of `width` by `height` pixels.
///
/// The path field is at the top left and leaves room for the two buttons to its right;
/// the progress bar and its text share the second row, the text at a fixed width; the
/// result log takes what is left below.
pub open spec fn control_rect(id: usize, width: u32, height: u32, m: Metrics) -> ControlRect {
    let w = width * UNITS_PER_PIXEL;
    let h = height * UNITS_PER_PIXEL;
    let p = m.padding as int;
    let b = m.btn_width as int;
    let t = m.progress_txt_width as int;
    let l = m.oneline_height as int;
    if id == ID_TEXTBOX_PATH {
        rect_of_units(p, p, w - 2 * b - 4 * p, l)
    } else if id == ID_PROGRESS_BAR {
        rect_of_units(p, p + l + p, w - 2 * p - t, l)
    } else if id == ID_PROGRESS_TXT {
        rect_of_units(p + (w - 2 * p - t), p + l + p, t, l)
    } else if id == ID_TEXTBOX_RESULT {
        rect_of_units(p, p + 2 * l + 2 * p, w - 2 * p, h - 2 * l - 4 * p)
    } else if id == ID_BTN_PATH {
        rect_of_units(p + (w - 2 * b - 4 * p) + p, p, b, l)
    } else {
        rect_of_units(p + (w - 2 * b - 4 * p) + p + b + p, p, b, l)
    }
}

/// The order in which the controls are laid out and created.
pub open spec fn layout_order() -> Seq<usize> {
    seq![
        ID_TEXTBOX_PATH,
        ID_PROGRESS_BAR,
        ID_PROGRESS_TXT,
        ID_TEXTBOX_RESULT,
        ID_BTN_PATH,
        ID_BTN_RUN,
    ]
}

/// The registry for a window of `width` by `height` pixels: the six controls, each at
/// its `control_rect`.
pub open spec fn layout_map(width: u32, height: u32, m: Metrics) -> Map<usize, ControlRect> {
    Map::new(
        |id: usize| is_control(id),
        |id: usize| control_rect(id, width, height, m),
    )
}

fn rect_from_units(x: i64, y: i64, width: i64, height: i64) -> (r: ControlRect)
    ensures
        r == rect_of_units(x as int, y as int, width as int, height as int),
{
    ControlRect {
        x: to_pixels(x),
        y: to_pixels(y),
        width: to_pixels(width),
        height: to_pixels(height),
    }
}

/// Computes `control_rect` for one of the six controls.
pub fn place_control(id: usize, width: u32, height: u32, m: &Metrics) -> (r: ControlRect)
    requires
        m.wf(),
    ensures
        r == control_rect(id, width, height, *m),
{
    let w: i64 = width as i64 * UNITS_PER_PIXEL;
    let h: i64 = height as i64 * UNITS_PER_PIXEL;
    let p: i64 = m.padding;
    let b: i64 = m.btn_width;
    let t: i64 = m.progress_txt_width;
    let l: i64 = m.oneline_height;
    if id == ID_TEXTBOX_PATH {
        rect_from_units(p, p, w - 2 * b - 4 * p, l)
    } else if id == ID_PROGRESS_BAR {
        rect_from_units(p, p + l + p, w - 2 * p - t, l)
    } else if id == ID_PROGRESS_TXT {
        rect_from_units(p + (w - 2 * p - t), p + l + p, t, l)
    } else if id == ID_TEXTBOX_RESULT {
        rect_from_units(p, p + 2 * l + 2 * p, w - 2 * p, h - 2 * l - 4 * p)
    } else if id == ID_BTN_PATH {
        rect_from_units(p + (w - 2 * b - 4 * p) + p, p, b, l)
    } else {
        rect_from_units(p + (w - 2 * b - 4 * p) + p + b + p, p, b, l)
    }
}

/// Lays the six controls out afresh for a window of `width` by `height` pixels.
pub fn layout(width: u32, height: u32, m: &Metrics) -> (r: ControlRegistry)
    requires
        m.wf(),
    ensures
        r.wf(),
        r@ == layout_map(width, height, *m),
        r.ids() == layout_order(),
{
    let mut r = ControlRegistry::new();
    r.insert(ID_TEXTBOX_PATH, place_control(ID_TEXTBOX_PATH, width, height, m));
    r.insert(ID_PROGRESS_BAR, place_control(ID_PROGRESS_BAR, width, height, m));
    r.insert(ID_PROGRESS_TXT, place_control(ID_PROGRESS_TXT, width, height, m));
    r.insert(ID_TEXTBOX_RESULT, place_control(ID_TEXTBOX_RESULT, width, height, m));
    r.insert(ID_BTN_PATH, place_control(ID_BTN_PATH, width, height, m));
    r.insert(ID_BTN_RUN, place_control(ID_BTN_RUN, width, height, m));
    assert(r.ids() =~= layout_order());
    assert(r@ =~= layout_map(width, height, *m));
    r
}

/// Moves each of the six controls to where a window of `width` by `height` pixels wants
/// it. Whatever else the registry holds stays as it is; a registry that holds all six
/// keeps its keys and their order.
pub fn relayout(registry: &mut ControlRegistry, width: u32, height: u32, m: &Metrics)
    requires
        m.wf(),
        old(registry).wf(),
    ensures
        final(registry).wf(),
        final(registry)@ == old(registry)@.union_prefer_right(layout_map(width, height, *m)),
        layout_map(width, height, *m).dom().subset_of(old(registry)@.dom())
            ==> final(registry).ids() == old(registry).ids(),
{
    proof {
        let keys = layout_map(width, height, *m).dom();
        assert(keys.contains(ID_TEXTBOX_PATH) && keys.contains(ID_PROGRESS_BAR)
            && keys.contains(ID_PROGRESS_TXT) && keys.contains(ID_TEXTBOX_RESULT)
            && keys.contains(ID_BTN_PATH) && keys.contains(ID_BTN_RUN));
    }
    registry.insert(ID_TEXTBOX_PATH, place_control(ID_TEXTBOX_PATH, width, height, m));
    registry.insert(ID_PROGRESS_BAR, place_control(ID_PROGRESS_BAR, width, height, m));
    registry.insert(ID_PROGRESS_TXT, place_control(ID_PROGRESS_TXT, width, height, m));
    registry.insert(ID_TEXTBOX_RESULT, place_control(ID_TEXTBOX_RESULT, width, height, m));
    registry.insert(ID_BTN_PATH, place_control(ID_BTN_PATH, width, height, m));
    registry.insert(ID_BTN_RUN, place_control(ID_BTN_RUN, width, height, m));
    assert(registry@ =~= old(registry)@.union_prefer_right(layout_map(width, height, *m)));
}

/// Layout units that are not negative make pixels that are not negative.
pub proof fn lemma_pixels_non_negative(units: int)
    requires
        units >= 0,
    ensures
        pixels(units) >= 0,
{
}

/// In a usable window no control has a negative width or height.
pub proof fn lemma_layout_non_negative(id: usize, width: u32, height: u32, m: Metrics)
    requires
        m.wf(),
        m.usable(width, height),
    ensures
        control_rect(id, width, height, m).non_negative(),
        is_control(id) ==> layout_map(width, height, m)[id].non_negative(),
{
    let w = width * UNITS_PER_PIXEL;
    let h = height * UNITS_PER_PIXEL;
    lemma_pixels_non_negative(w - 2 * m.btn_width - 4 * m.padding);
    lemma_pixels_non_negative(w - 2 * m.padding - m.progress_txt_width);
    lemma_pixels_non_negative(w - 2 * m.padding);
    lemma_pixels_non_negative(h - 2 * m.oneline_height - 4 * m.padding);
    lemma_pixels_non_negative(m.btn_width as int);
    lemma_pixels_non_negative(m.progress_txt_width as int);
    lemma_pixels_non_negative(m.oneline_height as int);
}

/// A window is usable exactly when it is at least as wide as `min_width` and at least as
/// high as `min_height`.
pub proof fn lemma_usable_is_minimum(width: u32, height: u32, m: Metrics)
    requires
        m.wf(),
    ensures
        m.usable(width, height) <==> (width >= m.min_width() && height >= m.min_height()),
{
}

} // verus!
