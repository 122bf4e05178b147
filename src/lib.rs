//! Face resolution, face registry and glyph geometry for a DirectWrite-backed
//! font rasterizer. The native engine itself is driven by the caller; this
//! crate decides which face to ask for, owns the faces it is handed, and
//! computes every metric and glyph placement exactly, as ratios of integers.

pub mod desc;
pub mod rasterizer;
pub mod registry;
pub mod scale;

pub use desc::{FaceQuery, FaceStretch, FaceStyle, FaceWeight, FontDesc, Slant, Style, Weight};
pub use scale::{FaceMetrics, GlyphLayout, GlyphMetrics, Metrics, PixelRatio, Ratio, Size};
pub use registry::{FaceEntry, FaceRegistry, FontKey};
pub use rasterizer::{DwroteRasterizer, Error, GlyphKey, LoadedFace, RasterizedGlyph};
