use vstd::prelude::*;

use crate::desc::{get_face, query_of, FaceQuery, FontDesc};
use crate::registry::{find_desc, key_in, lemma_find_desc_in_range, FaceEntry, FaceRegistry, FontKey};
use crate::scale::{
    glyph_layout_of, layout_glyph, metrics_of, scaled_metrics, FaceMetrics, GlyphLayout,
    GlyphMetrics, Metrics, PixelRatio, Size,
};

verus! {

/// Errors of the rasterizer.
#[derive(Clone, Debug, PartialEq, Eq)]
pub enum Error {
    /// Couldn't find a font matching the description.
    MissingFont(FontDesc),
    /// An operation named a `FontKey` that this rasterizer never issued.
    FontNotLoaded,
}

impl Error {
    /// A short description of the error.
    pub fn description(&self) -> (r: &'static str)
        ensures
            self is MissingFont ==> r@ == "couldn't find the requested font"@,
            self is FontNotLoaded ==> r@ == "tried to operate on font that hasn't been loaded"@,
    {
        match self {
            Error::MissingFont(_) => "couldn't find the requested font",
            Error::FontNotLoaded => "tried to operate on font that hasn't been loaded",
        }
    }
}

/// One glyph to rasterize: the face it comes from, the character and the size.
#[derive(Clone, Copy, Debug, PartialEq, Eq, Hash, Structural)]
pub struct GlyphKey {
    pub font_key: FontKey,
    pub c: char,
    pub size: Size,
}

/// A rasterized glyph: an 8-bit coverage mask, row by row, and its placement
/// relative to the glyph origin, in device pixels.
#[derive(Clone, Debug, PartialEq, Eq)]
pub struct RasterizedGlyph {
    pub c: char,
    pub top: i32,
    pub left: i32,
    pub width: i32,
    pub height: i32,
    pub buf: Vec<u8>,
}

impl GlyphLayout {
    /// The glyph for `c` whose coverage mask, drawn at this layout, is `buf`.
    /// Its height is the glyph's own ink height, not its width: the bitmap is
    /// not taken to be square.
    pub fn rasterized(&self, c: char, buf: Vec<u8>) -> (r: RasterizedGlyph)
        ensures
            r.c == c,
            r.top == self.top,
            r.left == self.left,
            r.width == self.width,
            r.height == self.height,
            r.buf == buf,
    {
        RasterizedGlyph { c, top: self.top, left: self.left, width: self.width, height: self.height, buf }
    }
}

/// A face that the engine resolved, with its design metrics.
pub struct LoadedFace<F> {
    pub face: F,
    pub design: FaceMetrics,
}

/// Registry after loading `desc`, and the result, when the engine resolved it
/// to `resolved` (none: the family or face could not be found). A cached
/// descriptor keeps its key and creates no face; a face whose design metrics
/// have no units per em cannot be scaled and counts as not found.
pub open spec fn load_outcome<F>(
    id: u64,
    entries: Seq<FaceEntry<F>>,
    desc: FontDesc,
    resolved: Option<LoadedFace<F>>,
) -> (Seq<FaceEntry<F>>, Result<FontKey, Error>) {
    match key_in(id, entries, desc@) {
        Some(k) => (entries, Ok(k)),
        None => match resolved {
            Some(l) if l.design.wf() => (
                entries.push(FaceEntry { desc, face: l.face, design: l.design }),
                Ok(FontKey { registry: id, token: entries.len() as usize }),
            ),
            _ => (entries, Err(Error::MissingFont(desc))),
        },
    }
}

/// Resolves font descriptors to faces, keeps them behind keys, and computes
/// metrics and glyph layouts at a device pixel ratio fixed at construction.
/// The faces are handles of type `F` of the native engine, which the caller
/// drives.
pub struct DwroteRasterizer<F> {
    faces: FaceRegistry<F>,
    dpi_x: u32,
    dpi_y: u32,
    dpr: PixelRatio,
}

impl<F> DwroteRasterizer<F> {
    /// The loaded faces; the key of the face at position `i` has token `i`.
    pub closed spec fn entries(&self) -> Seq<FaceEntry<F>> {
        self.faces.entries()
    }

    /// The id stamped on the keys this rasterizer issues.
    pub closed spec fn id(&self) -> u64 {
        self.faces.id()
    }

    /// Whether `key` was issued by this rasterizer.
    pub open spec fn issued(&self, key: FontKey) -> bool {
        key.registry == self.id() && key.token < self.entries().len()
    }

    /// The device pixel ratio.
    pub closed spec fn ratio(&self) -> PixelRatio {
        self.dpr
    }

    /// Horizontal and vertical resolution given at construction.
    pub closed spec fn resolution(&self) -> (u32, u32) {
        (self.dpi_x, self.dpi_y)
    }

    pub closed spec fn wf(&self) -> bool {
        &&& self.dpr.wf()
        &&& forall|i: int| 0 <= i < self.faces.entries().len() ==> (#[trigger] self.faces.entries()[i]).design.wf()
    }

    /// A rasterizer with no face loaded, whose keys carry `id`; rasterizers
    /// that live at the same time are to be given distinct ids. The stroke
    /// setting is accepted for parity with other backends and has no effect.
    pub fn new(
        id: u64,
        dpi_x: u32,
        dpi_y: u32,
        device_pixel_ratio: PixelRatio,
        use_thin_strokes: bool,
    ) -> (r: Result<DwroteRasterizer<F>, Error>)
        requires
            device_pixel_ratio.wf(),
        ensures
            r matches Ok(d) && d.wf() && d.entries() == Seq::<FaceEntry<F>>::empty() && d.id() == id
                && d.ratio() == device_pixel_ratio && d.resolution() == (dpi_x, dpi_y),
    {
        Ok(DwroteRasterizer { faces: FaceRegistry::new(id), dpi_x, dpi_y, dpr: device_pixel_ratio })
    }

    pub fn device_pixel_ratio(&self) -> (r: PixelRatio)
        ensures
            r == self.ratio(),
    {
        self.dpr
    }

    pub fn dpi(&self) -> (r: (u32, u32))
        ensures
            r == self.resolution(),
    {
        (self.dpi_x, self.dpi_y)
    }

    /// Number of faces loaded.
    pub fn face_count(&self) -> (r: usize)
        ensures
            r == self.entries().len(),
    {
        self.faces.len()
    }

    /// The key already issued for `desc`, if any; no side effect.
    pub fn lookup(&self, desc: &FontDesc) -> (r: Option<FontKey>)
        ensures
            r == key_in(self.id(), self.entries(), desc@),
    {
        self.faces.lookup_by_descriptor(desc)
    }

    /// The (weight, stretch, style) query under which the engine is to pick
    /// the face for `desc` within its family.
    pub fn get_face(&self, desc: &FontDesc) -> (r: FaceQuery)
        ensures
            r == query_of(desc@.style),
    {
        get_face(desc)
    }

    /// The face loaded under `key`; none for a key never issued here.
    pub fn face(&self, key: FontKey) -> (r: Option<&F>)
        ensures
            self.issued(key) <==> r.is_some(),
            r matches Some(f) ==> *f == self.entries()[key.token as int].face,
    {
        self.faces.get_face(key)
    }

    /// Loads `desc`. A descriptor loaded before returns its key at once and
    /// `resolved` is dropped. Otherwise `resolved` is the face the engine
    /// found for `desc` under the query of `get_face`, or none where the
    /// family is missing, which fails with `MissingFont(desc)`.
    pub fn load_font(&mut self, desc: FontDesc, resolved: Option<LoadedFace<F>>) -> (r: Result<FontKey, Error>)
        requires
            old(self).wf(),
        ensures
            final(self).wf(),
            final(self).ratio() == old(self).ratio(),
            final(self).id() == old(self).id(),
            final(self).resolution() == old(self).resolution(),
            (final(self).entries(), r) == load_outcome(old(self).id(), old(self).entries(), desc, resolved),
            old(self).lookup_spec(desc) matches Some(k) ==> r == Ok::<FontKey, Error>(k),
            r matches Ok(k) ==> final(self).issued(k),
            old(self).lookup_spec(desc) is None && resolved is None ==> r == Err::<FontKey, Error>(Error::MissingFont(desc)),
    {
        proof {
            lemma_find_desc_in_range(self.entries(), desc@);
        }
        match self.faces.lookup_by_descriptor(&desc) {
            Some(k) => Ok(k),
            None => match resolved {
                Some(l) => {
                    if l.design.units_per_em == 0 {
                        Err(Error::MissingFont(desc))
                    } else {
                        let k = self.faces.insert(desc, l.face, l.design);
                        assert(self.faces.entries().last().design.wf());
                        Ok(k)
                    }
                },
                None => Err(Error::MissingFont(desc)),
            },
        }
    }

    pub open spec fn lookup_spec(&self, desc: FontDesc) -> Option<FontKey> {
        key_in(self.id(), self.entries(), desc@)
    }

    /// Average advance (the advance of "A") and line height of the face under
    /// `key` at `size`, in device pixels; `FontNotLoaded` for a key never
    /// issued here.
    pub fn metrics(&self, key: FontKey, size: Size) -> (r: Result<Metrics, Error>)
        requires
            self.wf(),
        ensures
            !self.issued(key) ==> r == Err::<Metrics, Error>(Error::FontNotLoaded),
            self.issued(key) ==> r == Ok::<Metrics, Error>(
                metrics_of(self.entries()[key.token as int].design, size, self.ratio()),
            ),
    {
        match self.faces.get_entry(key) {
            Some(e) => Ok(scaled_metrics(&e.design, size, self.dpr)),
            None => Err(Error::FontNotLoaded),
        }
    }

    /// Layout of the glyph of `glyph_key`, whose design metrics in its face
    /// are `gm`; `FontNotLoaded` for a face key never issued here.
    pub fn get_glyph(&self, glyph_key: &GlyphKey, gm: &GlyphMetrics) -> (r: Result<GlyphLayout, Error>)
        requires
            self.wf(),
        ensures
            !self.issued(glyph_key.font_key) ==> r == Err::<GlyphLayout, Error>(Error::FontNotLoaded),
            self.issued(glyph_key.font_key) ==> r == Ok::<GlyphLayout, Error>(
                glyph_layout_of(
                    *gm,
                    self.entries()[glyph_key.font_key.token as int].design.units_per_em as int,
                    glyph_key.size,
                    self.ratio(),
                ),
            ),
    {
        match self.faces.get_entry(glyph_key.font_key) {
            Some(e) => Ok(layout_glyph(gm, e.design.units_per_em, glyph_key.size, self.dpr)),
            None => Err(Error::FontNotLoaded),
        }
    }
}

/// Loading a descriptor twice gives the same key both times and creates one
/// face at most: once the first load succeeded, the second changes nothing,
/// whatever the engine would resolve it to.
pub proof fn lemma_load_idempotent<F>(
    id: u64,
    entries: Seq<FaceEntry<F>>,
    desc: FontDesc,
    first: Option<LoadedFace<F>>,
    again: FontDesc,
    second: Option<LoadedFace<F>>,
)
    requires
        again@ == desc@,
    ensures
        ({
            let (after, r1) = load_outcome(id, entries, desc, first);
            let (twice, r2) = load_outcome(id, after, again, second);
            r1 is Ok ==> twice == after && r2 == r1 && after.len() <= entries.len() + 1
        }),
{
    lemma_find_desc_in_range(entries, desc@);
    if key_in(id, entries, desc@) is None {
        if let Some(l) = first {
            let after = entries.push(FaceEntry { desc, face: l.face, design: l.design });
            assert(after.drop_last() =~= entries);
            assert(find_desc(after, desc@) == Some(entries.len() as int));
        }
    }
}

} // verus!
