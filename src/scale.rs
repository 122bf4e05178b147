use vstd::prelude::*;

verus! {

/// A font size in half points.
#[derive(Clone, Copy, Debug, PartialEq, Eq, Hash, Structural)]
pub struct Size(pub i16);

impl Size {
    /// The size whose value is `half_points / 2` points.
    pub fn from_half_points(half_points: i16) -> (r: Size)
        ensures
            r.0 == half_points,
    {
        Size(half_points)
    }

    pub fn half_points(&self) -> (r: i16)
        ensures
            r == self.0,
    {
        self.0
    }
}

/// The device pixel ratio, as the fraction `numer / denom`; fixed when a
/// rasterizer is made.
#[derive(Clone, Copy, Debug, PartialEq, Eq, Hash, Structural)]
pub struct PixelRatio {
    pub numer: u32,
    pub denom: u32,
}

impl PixelRatio {
    pub open spec fn wf(self) -> bool {
        self.denom > 0
    }

    /// The ratio `numer / denom`; none when `denom` is zero.
    pub fn new(numer: u32, denom: u32) -> (r: Option<PixelRatio>)
        ensures
            denom == 0 <==> r.is_none(),
            r matches Some(p) ==> p.numer == numer && p.denom == denom && p.wf(),
    {
        if denom == 0 {
            None
        } else {
            Some(PixelRatio { numer, denom })
        }
    }
}

/// An exact value `numer / denom`, with `denom > 0`.
#[derive(Clone, Copy, Debug, PartialEq, Eq, Hash, Structural)]
pub struct Ratio {
    pub numer: i128,
    pub denom: i128,
}

/// Font-wide design metrics of a face, in design units, together with the
/// advance of its uppercase Latin "A". No average character width is exposed
/// by the engine, so the advance of "A" stands for it.
#[derive(Clone, Copy, Debug, PartialEq, Eq, Hash, Structural)]
pub struct FaceMetrics {
    pub units_per_em: u16,
    pub ascent: u16,
    pub descent: u16,
    pub cap_height: u16,
    pub reference_advance: u32,
}

impl FaceMetrics {
    pub open spec fn wf(self) -> bool {
        self.units_per_em > 0
    }

    /// Total vertical extent used for the line height, in design units.
    pub open spec fn extent(self) -> int {
        self.ascent - self.descent + self.cap_height
    }
}

/// Design-space metrics of one glyph, in design units.
#[derive(Clone, Copy, Debug, PartialEq, Eq, Hash, Structural)]
pub struct GlyphMetrics {
    pub left_side_bearing: i32,
    pub advance_width: u32,
    pub right_side_bearing: i32,
    pub top_side_bearing: i32,
    pub advance_height: u32,
    pub bottom_side_bearing: i32,
    pub vertical_origin_y: i32,
}

impl GlyphMetrics {
    /// Width of the ink box, in design units.
    pub open spec fn ink_width(self) -> int {
        self.advance_width - (self.left_side_bearing + self.right_side_bearing)
    }

    /// Height of the ink box, in design units.
    pub open spec fn ink_height(self) -> int {
        self.advance_height - (self.top_side_bearing + self.bottom_side_bearing)
    }
}

/// Layout metrics in device pixels.
#[derive(Clone, Copy, Debug, PartialEq, Eq, Hash, Structural)]
pub struct Metrics {
    pub average_advance: Ratio,
    pub line_height: Ratio,
}

/// Numerator of `design` design units at `size` and `dpr`, over
/// `metrics_denom`: `design * dpr * points / units_per_em`.
pub open spec fn metrics_numer(design: int, size: Size, dpr: PixelRatio) -> int {
    design * dpr.numer * size.0
}

pub open spec fn metrics_denom(em: int, dpr: PixelRatio) -> int {
    2 * dpr.denom * em
}

/// Device-pixel metrics of a face at `size` and `dpr`.
pub open spec fn metrics_of(face: FaceMetrics, size: Size, dpr: PixelRatio) -> Metrics {
    Metrics {
        average_advance: Ratio {
            numer: metrics_numer(face.reference_advance as int, size, dpr) as i128,
            denom: metrics_denom(face.units_per_em as int, dpr) as i128,
        },
        line_height: Ratio {
            numer: metrics_numer(face.extent(), size, dpr) as i128,
            denom: metrics_denom(face.units_per_em as int, dpr) as i128,
        },
    }
}

/// Average advance and line height of a face at `size` and `dpr`, each the
/// design value times `dpr * points / units_per_em`, exactly.
pub fn scaled_metrics(face: &FaceMetrics, size: Size, dpr: PixelRatio) -> (r: Metrics)
    requires
        face.wf(),
        dpr.wf(),
    ensures
        r == metrics_of(*face, size, dpr),
        r.average_advance.numer == metrics_numer(face.reference_advance as int, size, dpr),
        r.line_height.numer == metrics_numer(face.extent(), size, dpr),
        r.average_advance.denom == metrics_denom(face.units_per_em as int, dpr),
        r.line_height.denom == r.average_advance.denom,
        r.average_advance.denom > 0,
{
    let n = dpr.numer as i128;
    let s = size.0 as i128;
    let w = face.reference_advance as i128;
    let h = face.ascent as i128 - face.descent as i128 + face.cap_height as i128;
    proof {
        lemma_product_bound(w as int, n as int, s as int);
        lemma_product_bound(h as int, n as int, s as int);
    }
    let ns = n * s;
    proof {
        lemma_denom_fits(face.units_per_em as int, dpr);
        assert(0 <= 2 * (dpr.denom as i128) <= 0x2_0000_0000);
        assert(2 * (dpr.denom as int) * (face.units_per_em as int) == metrics_denom(face.units_per_em as int, dpr));
    }
    let denom = 2 * (dpr.denom as i128) * (face.units_per_em as i128);
    proof {
        assert(denom == metrics_denom(face.units_per_em as int, dpr));
        assert(denom > 0) by (nonlinear_arith)
            requires denom == 2 * dpr.denom * face.units_per_em, dpr.denom > 0, face.units_per_em > 0;
        assert(w * ns == metrics_numer(w as int, size, dpr)) by (nonlinear_arith)
            requires ns == n * s, n == dpr.numer, s == size.0;
        assert(h * ns == metrics_numer(h as int, size, dpr)) by (nonlinear_arith)
            requires ns == n * s, n == dpr.numer, s == size.0;
    }
    Metrics {
        average_advance: Ratio { numer: w * ns, denom },
        line_height: Ratio { numer: h * ns, denom },
    }
}

proof fn lemma_product_bound(a: int, b: int, c: int)
    requires
        -0x1_0000_0000 <= a <= 0x1_0000_0000,
        0 <= b <= 0x1_0000_0000,
        -0x8000 <= c <= 0x8000,
    ensures
        -0x1_0000_0000_0000 <= b * c <= 0x1_0000_0000_0000,
        -0x1_0000_0000_0000_0000_0000 <= a * (b * c) <= 0x1_0000_0000_0000_0000_0000,
        a * (b * c) == a * b * c,
{
    assert(-0x1_0000_0000_0000 <= b * c <= 0x1_0000_0000_0000) by (nonlinear_arith)
        requires 0 <= b <= 0x1_0000_0000, -0x8000 <= c <= 0x8000;
    assert(-0x1_0000_0000_0000_0000_0000 <= a * (b * c) <= 0x1_0000_0000_0000_0000_0000)
        by (nonlinear_arith)
        requires -0x1_0000_0000 <= a <= 0x1_0000_0000, -0x1_0000_0000_0000 <= b * c <= 0x1_0000_0000_0000;
    assert(a * (b * c) == a * b * c) by (nonlinear_arith);
}

/// Monotonicity in size: at a fixed face and ratio, a larger size never gives
/// a smaller average advance, nor a smaller line height where the face's
/// vertical extent is not negative (both share one positive denominator).
pub proof fn lemma_metrics_monotone_in_size(face: FaceMetrics, dpr: PixelRatio, small: Size, large: Size)
    requires
        face.wf(),
        dpr.wf(),
        small.0 <= large.0,
    ensures
        metrics_of(face, small, dpr).average_advance.denom == metrics_of(face, large, dpr).average_advance.denom,
        metrics_of(face, small, dpr).average_advance.numer <= metrics_of(face, large, dpr).average_advance.numer,
        face.extent() >= 0 ==> metrics_of(face, small, dpr).line_height.numer <= metrics_of(face, large, dpr).line_height.numer,
{
    lemma_monotone_numer(face.reference_advance as int, dpr, small, large);
    if face.extent() >= 0 {
        lemma_monotone_numer(face.extent(), dpr, small, large);
    }
    lemma_numer_fits(face.reference_advance as int, dpr, small);
    lemma_numer_fits(face.reference_advance as int, dpr, large);
    lemma_numer_fits(face.extent(), dpr, small);
    lemma_numer_fits(face.extent(), dpr, large);
}

proof fn lemma_monotone_numer(design: int, dpr: PixelRatio, small: Size, large: Size)
    requires
        design >= 0,
        small.0 <= large.0,
    ensures
        metrics_numer(design, small, dpr) <= metrics_numer(design, large, dpr),
{
    let k = design * dpr.numer;
    assert(k >= 0) by (nonlinear_arith) requires design >= 0, dpr.numer >= 0, k == design * dpr.numer;
    assert(k * small.0 <= k * large.0) by (nonlinear_arith) requires k >= 0, small.0 <= large.0;
}

proof fn lemma_numer_fits(design: int, dpr: PixelRatio, size: Size)
    requires
        -0x1_0000_0000 <= design <= 0x1_0000_0000,
    ensures
        i128::MIN <= metrics_numer(design, size, dpr) <= i128::MAX,
{
    lemma_product_bound(design, dpr.numer as int, size.0 as int);
}

/// Doubling the device pixel ratio, with the face and size fixed, doubles the
/// average advance and the line height, as exact fractions.
pub proof fn lemma_metrics_double_ratio(face: FaceMetrics, size: Size, dpr: PixelRatio, doubled: PixelRatio)
    requires
        face.wf(),
        dpr.wf(),
        doubled.wf(),
        doubled.numer * dpr.denom == 2 * dpr.numer * doubled.denom,
    ensures
        ({
            let m = metrics_of(face, size, dpr);
            let d = metrics_of(face, size, doubled);
            &&& d.average_advance.numer * m.average_advance.denom == 2 * m.average_advance.numer * d.average_advance.denom
            &&& d.line_height.numer * m.line_height.denom == 2 * m.line_height.numer * d.line_height.denom
        }),
{
    lemma_double_one(face.reference_advance as int, face.units_per_em as int, size, dpr, doubled);
    lemma_double_one(face.extent(), face.units_per_em as int, size, dpr, doubled);
    lemma_numer_fits(face.reference_advance as int, dpr, size);
    lemma_numer_fits(face.reference_advance as int, doubled, size);
    lemma_numer_fits(face.extent(), dpr, size);
    lemma_numer_fits(face.extent(), doubled, size);
    lemma_denom_fits(face.units_per_em as int, dpr);
    lemma_denom_fits(face.units_per_em as int, doubled);
}

proof fn lemma_denom_fits(em: int, dpr: PixelRatio)
    requires
        0 <= em <= 0x1_0000,
    ensures
        0 <= metrics_denom(em, dpr) <= i128::MAX,
{
    assert(0 <= 2 * dpr.denom * em <= 0x1_0000_0000_0000_0000) by (nonlinear_arith)
        requires 0 <= dpr.denom <= 0x1_0000_0000, 0 <= em <= 0x1_0000;
}

proof fn lemma_double_one(design: int, em: int, size: Size, dpr: PixelRatio, doubled: PixelRatio)
    requires
        doubled.numer * dpr.denom == 2 * dpr.numer * doubled.denom,
    ensures
        metrics_numer(design, size, doubled) * metrics_denom(em, dpr)
            == 2 * metrics_numer(design, size, dpr) * metrics_denom(em, doubled),
{
    let a = doubled.numer as int;
    let b = dpr.denom as int;
    let c = dpr.numer as int;
    let d = doubled.denom as int;
    let s = size.0 as int;
    let k = design * s * (2 * em);
    assert((design * a * s) * (2 * b * em) == k * (a * b)) by (nonlinear_arith)
        requires k == design * s * (2 * em);
    assert(2 * (design * c * s) * (2 * d * em) == k * (2 * c * d)) by (nonlinear_arith)
        requires k == design * s * (2 * em);
}

/// `n / d` rounded toward zero, for `d > 0`.
pub open spec fn trunc_div(n: int, d: int) -> int {
    if n >= 0 {
        n / d
    } else {
        -((-n) / d)
    }
}

/// `v` saturated into the range of `i32`.
pub open spec fn clamp_i32(v: int) -> i32 {
    if v > i32::MAX {
        i32::MAX
    } else if v < i32::MIN {
        i32::MIN
    } else {
        v as i32
    }
}

/// `v` saturated into the range of `u32`.
pub open spec fn clamp_u32(v: int) -> u32 {
    if v > u32::MAX {
        u32::MAX
    } else if v < 0 {
        0
    } else {
        v as u32
    }
}

/// Placement and size of one glyph in device pixels.
#[derive(Clone, Copy, Debug, PartialEq, Eq, Hash, Structural)]
pub struct GlyphLayout {
    /// Em size at which the glyph run is drawn: points times the pixel ratio.
    pub em_size: Ratio,
    /// Exact horizontal origin of the glyph run in the bitmap.
    pub origin_x: Ratio,
    /// Exact vertical origin of the glyph run in the bitmap.
    pub origin_y: Ratio,
    /// `origin_x` rounded toward zero.
    pub left: i32,
    /// `origin_y` rounded toward zero.
    pub top: i32,
    /// Ink width rounded toward zero.
    pub width: i32,
    /// Ink height rounded toward zero.
    pub height: i32,
    /// Width of the off-screen target: the ink width, no less than zero.
    pub target_width: u32,
    /// Height of the off-screen target: the ink height, no less than zero.
    pub target_height: u32,
}

/// Numerator of the glyph scale, `size * 16 / units_per_em`, whose denominator
/// is `glyph_denom`; the size is `points * dpr`, that is `half_points * dpr / 2`.
/// The 16 is a fixed reference scale of glyph layout (one pixel is
/// `units_per_em / 16` design units at unit size), a policy and not a tunable.
pub open spec fn glyph_numer(size: Size, dpr: PixelRatio) -> int {
    8 * size.0 * dpr.numer
}

pub open spec fn glyph_denom(em: int, dpr: PixelRatio) -> int {
    dpr.denom * em
}

/// `design` design units as a device-pixel fraction at the glyph scale.
pub open spec fn glyph_scaled(design: int, em: int, size: Size, dpr: PixelRatio) -> Ratio {
    Ratio { numer: (design * glyph_numer(size, dpr)) as i128, denom: glyph_denom(em, dpr) as i128 }
}

pub open spec fn truncated(r: Ratio) -> int {
    trunc_div(r.numer as int, r.denom as int)
}

/// Layout of a glyph with metrics `gm` in a face of `em` units per em.
pub open spec fn glyph_layout_of(gm: GlyphMetrics, em: int, size: Size, dpr: PixelRatio) -> GlyphLayout {
    let w = glyph_scaled(gm.ink_width(), em, size, dpr);
    let h = glyph_scaled(gm.ink_height(), em, size, dpr);
    let x = glyph_scaled(-gm.left_side_bearing, em, size, dpr);
    let y = glyph_scaled(gm.vertical_origin_y - gm.top_side_bearing, em, size, dpr);
    GlyphLayout {
        em_size: Ratio { numer: (size.0 * dpr.numer) as i128, denom: (2 * dpr.denom) as i128 },
        origin_x: x,
        origin_y: y,
        left: clamp_i32(truncated(x)),
        top: clamp_i32(truncated(y)),
        width: clamp_i32(truncated(w)),
        height: clamp_i32(truncated(h)),
        target_width: clamp_u32(truncated(w)),
        target_height: clamp_u32(truncated(h)),
    }
}

fn div_toward_zero(n: i128, d: i128) -> (r: i128)
    requires
        d > 0,
        n > i128::MIN,
    ensures
        r == trunc_div(n as int, d as int),
{
    if n >= 0 {
        n / d
    } else {
        let m = -n;
        -(m / d)
    }
}

fn saturate_i32(v: i128) -> (r: i32)
    ensures
        r == clamp_i32(v as int),
{
    if v > i32::MAX as i128 {
        i32::MAX
    } else if v < i32::MIN as i128 {
        i32::MIN
    } else {
        v as i32
    }
}

fn saturate_u32(v: i128) -> (r: u32)
    ensures
        r == clamp_u32(v as int),
{
    if v > u32::MAX as i128 {
        u32::MAX
    } else if v < 0 {
        0
    } else {
        v as u32
    }
}

proof fn lemma_glyph_term_fits(design: int, em: int, size: Size, dpr: PixelRatio)
    requires
        -0x4_0000_0000 <= design <= 0x4_0000_0000,
        0 < em <= 0x1_0000,
        dpr.wf(),
    ensures
        -0x8_0000_0000_0000 <= glyph_numer(size, dpr) <= 0x8_0000_0000_0000,
        -0x20_0000_0000_0000_0000_0000 <= design * glyph_numer(size, dpr) <= 0x20_0000_0000_0000_0000_0000,
        0 < glyph_denom(em, dpr) <= 0x1_0000_0000_0000,
{
    let k = glyph_numer(size, dpr);
    assert(-0x8_0000_0000_0000 <= k <= 0x8_0000_0000_0000) by (nonlinear_arith)
        requires k == 8 * size.0 * dpr.numer, -0x8000 <= size.0 <= 0x8000, 0 <= dpr.numer <= 0x1_0000_0000;
    assert(-0x20_0000_0000_0000_0000_0000 <= design * k <= 0x20_0000_0000_0000_0000_0000) by (nonlinear_arith)
        requires -0x4_0000_0000 <= design <= 0x4_0000_0000, -0x8_0000_0000_0000 <= k <= 0x8_0000_0000_0000;
    assert(0 < glyph_denom(em, dpr) <= 0x1_0000_0000_0000) by (nonlinear_arith)
        requires 0 < em <= 0x1_0000, 0 < dpr.denom <= 0x1_0000_0000;
}

/// Scales `design` units and rounds toward zero.
fn scale_design(design: i128, k: i128, den: i128) -> (r: (Ratio, i128))
    requires
        -0x4_0000_0000 <= design <= 0x4_0000_0000,
        -0x8_0000_0000_0000 <= k <= 0x8_0000_0000_0000,
        0 < den,
    ensures
        r.0 == (Ratio { numer: (design * k) as i128, denom: den }),
        r.1 == truncated(r.0),
{
    assert(-0x20_0000_0000_0000_0000_0000 <= design * k <= 0x20_0000_0000_0000_0000_0000) by (nonlinear_arith)
        requires -0x4_0000_0000 <= design <= 0x4_0000_0000, -0x8_0000_0000_0000 <= k <= 0x8_0000_0000_0000;
    let numer = design * k;
    let q = div_toward_zero(numer, den);
    (Ratio { numer, denom: den }, q)
}

/// Places a glyph: its ink box, origin and off-screen target size at `size`
/// and `dpr`, in a face of `units_per_em` design units per em.
pub fn layout_glyph(gm: &GlyphMetrics, units_per_em: u16, size: Size, dpr: PixelRatio) -> (r: GlyphLayout)
    requires
        units_per_em > 0,
        dpr.wf(),
    ensures
        r == glyph_layout_of(*gm, units_per_em as int, size, dpr),
{
    let em = units_per_em as i128;
    proof {
        lemma_glyph_term_fits(0, em as int, size, dpr);
    }
    let k = 8 * (size.0 as i128) * (dpr.numer as i128);
    let den = (dpr.denom as i128) * em;
    let ink_w = gm.advance_width as i128 - (gm.left_side_bearing as i128 + gm.right_side_bearing as i128);
    let ink_h = gm.advance_height as i128 - (gm.top_side_bearing as i128 + gm.bottom_side_bearing as i128);
    let dx = -(gm.left_side_bearing as i128);
    let dy = gm.vertical_origin_y as i128 - gm.top_side_bearing as i128;
    let (w, wq) = scale_design(ink_w, k, den);
    let (h, hq) = scale_design(ink_h, k, den);
    let (x, xq) = scale_design(dx, k, den);
    let (y, yq) = scale_design(dy, k, den);
    assert(-0x1_0000_0000_0000 <= (size.0 as int) * (dpr.numer as int) <= 0x1_0000_0000_0000) by (nonlinear_arith)
        requires -0x8000 <= size.0 <= 0x8000, 0 <= dpr.numer <= 0x1_0000_0000;
    let em_numer = (size.0 as i128) * (dpr.numer as i128);
    let em_denom = 2 * (dpr.denom as i128);
    GlyphLayout {
        em_size: Ratio { numer: em_numer, denom: em_denom },
        origin_x: x,
        origin_y: y,
        left: saturate_i32(xq),
        top: saturate_i32(yq),
        width: saturate_i32(wq),
        height: saturate_i32(hq),
        target_width: saturate_u32(wq),
        target_height: saturate_u32(hq),
    }
}

/// A glyph whose ink box is not narrower than zero design units, laid out at a
/// size that is not negative, has a width that is not negative.
pub proof fn lemma_glyph_width_nonnegative(gm: GlyphMetrics, em: int, size: Size, dpr: PixelRatio)
    requires
        0 < em <= 0x1_0000,
        dpr.wf(),
        size.0 >= 0,
        gm.ink_width() >= 0,
    ensures
        glyph_layout_of(gm, em, size, dpr).width >= 0,
{
    lemma_glyph_term_fits(gm.ink_width(), em, size, dpr);
    let k = glyph_numer(size, dpr);
    assert(k >= 0) by (nonlinear_arith) requires k == 8 * size.0 * dpr.numer, size.0 >= 0, dpr.numer >= 0;
    assert(gm.ink_width() * k >= 0) by (nonlinear_arith) requires gm.ink_width() >= 0, k >= 0;
    let w = glyph_scaled(gm.ink_width(), em, size, dpr);
    assert(w.numer >= 0);
    assert(truncated(w) >= 0) by (nonlinear_arith)
        requires w.numer >= 0, w.denom > 0, truncated(w) == (w.numer as int) / (w.denom as int);
}

} // verus!
