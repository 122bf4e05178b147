use vstd::prelude::*;

verus! {

/// Requested slant of a described font.
#[derive(Clone, Copy, Debug, PartialEq, Eq, Hash, Structural)]
pub enum Slant {
    Normal,
    Italic,
    Oblique,
}

/// Requested weight of a described font.
#[derive(Clone, Copy, Debug, PartialEq, Eq, Hash, Structural)]
pub enum Weight {
    Normal,
    Bold,
}

/// How a face is selected within a family.
#[derive(Clone, Debug, PartialEq, Eq, Hash)]
pub enum Style {
    /// An engine style name such as "Bold" or "Italic".
    Specific(String),
    /// A symbolic slant and weight, matched to the closest face.
    Description { slant: Slant, weight: Weight },
}

/// Identity of a requested logical font.
#[derive(Clone, Debug, PartialEq, Eq, Hash)]
pub struct FontDesc {
    pub name: String,
    pub style: Style,
}

/// Value of a `Style`.
pub enum StyleModel {
    Specific(Seq<char>),
    Description { slant: Slant, weight: Weight },
}

/// Value of a `FontDesc`.
pub struct DescModel {
    pub name: Seq<char>,
    pub style: StyleModel,
}

impl View for Style {
    type V = StyleModel;

    open spec fn view(&self) -> StyleModel {
        match self {
            Style::Specific(s) => StyleModel::Specific(s@),
            Style::Description { slant, weight } => StyleModel::Description {
                slant: *slant,
                weight: *weight,
            },
        }
    }
}

impl View for FontDesc {
    type V = DescModel;

    open spec fn view(&self) -> DescModel {
        DescModel { name: self.name@, style: self.style@ }
    }
}

impl Style {
    /// Whether two styles have the same value.
    pub fn same(&self, other: &Style) -> (r: bool)
        ensures
            r == (self@ == other@),
    {
        match (self, other) {
            (Style::Specific(a), Style::Specific(b)) => *a == *b,
            (
                Style::Description { slant: s1, weight: w1 },
                Style::Description { slant: s2, weight: w2 },
            ) => *s1 == *s2 && *w1 == *w2,
            _ => false,
        }
    }
}

impl FontDesc {
    pub fn new(name: String, style: Style) -> (r: FontDesc)
        ensures
            r.name == name,
            r.style == style,
    {
        FontDesc { name, style }
    }

    /// Whether two descriptors name the same logical font.
    pub fn same(&self, other: &FontDesc) -> (r: bool)
        ensures
            r == (self@ == other@),
    {
        self.name == other.name && self.style.same(&other.style)
    }
}

/// Weight asked of the engine's face matcher.
#[derive(Clone, Copy, Debug, PartialEq, Eq, Hash, Structural)]
pub enum FaceWeight {
    Regular,
    Bold,
}

/// Stretch asked of the engine's face matcher.
#[derive(Clone, Copy, Debug, PartialEq, Eq, Hash, Structural)]
pub enum FaceStretch {
    Normal,
}

/// Style asked of the engine's face matcher.
#[derive(Clone, Copy, Debug, PartialEq, Eq, Hash, Structural)]
pub enum FaceStyle {
    Normal,
    Italic,
    Oblique,
}

/// The (weight, stretch, style) triple handed to the engine's closest-match
/// face selection within a family.
#[derive(Clone, Copy, Debug, PartialEq, Eq, Hash, Structural)]
pub struct FaceQuery {
    pub weight: FaceWeight,
    pub stretch: FaceStretch,
    pub style: FaceStyle,
}

pub open spec fn face_style_of(slant: Slant) -> FaceStyle {
    match slant {
        Slant::Normal => FaceStyle::Normal,
        Slant::Italic => FaceStyle::Italic,
        Slant::Oblique => FaceStyle::Oblique,
    }
}

pub open spec fn face_weight_of(weight: Weight) -> FaceWeight {
    match weight {
        Weight::Normal => FaceWeight::Regular,
        Weight::Bold => FaceWeight::Bold,
    }
}

/// The query for a symbolic slant and weight, always at normal stretch.
pub open spec fn matching_query(slant: Slant, weight: Weight) -> FaceQuery {
    FaceQuery {
        weight: face_weight_of(weight),
        stretch: FaceStretch::Normal,
        style: face_style_of(slant),
    }
}

/// The query for an engine style name. "Normal", "Bold" and "Italic" are
/// recognised; any other name falls back, on purpose, to a regular, upright
/// face of normal stretch.
pub open spec fn specific_query(name: Seq<char>) -> FaceQuery {
    if name == "Bold"@ {
        FaceQuery { weight: FaceWeight::Bold, stretch: FaceStretch::Normal, style: FaceStyle::Normal }
    } else if name == "Italic"@ {
        FaceQuery { weight: FaceWeight::Regular, stretch: FaceStretch::Normal, style: FaceStyle::Italic }
    } else {
        FaceQuery { weight: FaceWeight::Regular, stretch: FaceStretch::Normal, style: FaceStyle::Normal }
    }
}

/// The query that resolves a descriptor's style within its family.
pub open spec fn query_of(style: StyleModel) -> FaceQuery {
    match style {
        StyleModel::Specific(name) => specific_query(name),
        StyleModel::Description { slant, weight } => matching_query(slant, weight),
    }
}

/// Closest-match query for a symbolic slant and weight.
pub fn get_matching_face(slant: Slant, weight: Weight) -> (r: FaceQuery)
    ensures
        r == matching_query(slant, weight),
{
    let style = match slant {
        Slant::Normal => FaceStyle::Normal,
        Slant::Italic => FaceStyle::Italic,
        Slant::Oblique => FaceStyle::Oblique,
    };
    let weight = match weight {
        Weight::Normal => FaceWeight::Regular,
        Weight::Bold => FaceWeight::Bold,
    };
    FaceQuery { weight, stretch: FaceStretch::Normal, style }
}

/// Query for an engine style name, with the regular fallback for names that
/// are not recognised.
pub fn get_specific_face(style: &String) -> (r: FaceQuery)
    ensures
        r == specific_query(style@),
{
    let normal = "Normal".to_owned();
    let bold = "Bold".to_owned();
    let italic = "Italic".to_owned();
    proof {
        lemma_style_names_distinct();
    }
    if *style == normal {
        FaceQuery { weight: FaceWeight::Regular, stretch: FaceStretch::Normal, style: FaceStyle::Normal }
    } else if *style == bold {
        FaceQuery { weight: FaceWeight::Bold, stretch: FaceStretch::Normal, style: FaceStyle::Normal }
    } else if *style == italic {
        FaceQuery { weight: FaceWeight::Regular, stretch: FaceStretch::Normal, style: FaceStyle::Italic }
    } else {
        FaceQuery { weight: FaceWeight::Regular, stretch: FaceStretch::Normal, style: FaceStyle::Normal }
    }
}

/// The query that resolves `desc` within its family.
pub fn get_face(desc: &FontDesc) -> (r: FaceQuery)
    ensures
        r == query_of(desc@.style),
{
    match &desc.style {
        Style::Description { slant, weight } => get_matching_face(*slant, *weight),
        Style::Specific(name) => get_specific_face(name),
    }
}

/// A style name that is not recognised resolves exactly as "Normal" does, so
/// loading it never fails for that reason and picks the same face.
pub proof fn lemma_unrecognised_style_is_normal(name: Seq<char>)
    requires
        name != "Normal"@,
        name != "Bold"@,
        name != "Italic"@,
    ensures
        query_of(StyleModel::Specific(name)) == query_of(StyleModel::Specific("Normal"@)),
{
    lemma_style_names_distinct();
}

proof fn lemma_style_names_distinct()
    ensures
        "Normal"@ != "Bold"@,
        "Normal"@ != "Italic"@,
        "Bold"@ != "Italic"@,
{
    reveal_strlit("Normal");
    reveal_strlit("Bold");
    reveal_strlit("Italic");
    assert("Normal"@.len() != "Bold"@.len());
    assert("Normal"@[0] != "Italic"@[0]);
    assert("Bold"@.len() != "Italic"@.len());
}

} // verus!
