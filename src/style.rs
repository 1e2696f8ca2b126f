//! Rendering modes of a plotted series.
use vstd::prelude::*;

verus! {

/// How the external program draws one series.
#[derive(Clone, Copy, Debug, PartialEq, Eq, Structural)]
pub enum Style {
    Points,
    Lines,
    LinesPoints,
}

/// The keyword that the external program reads for a style.
pub open spec fn style_name(s: Style) -> Seq<char> {
    match s {
        Style::Points => "points"@,
        Style::Lines => "lines"@,
        Style::LinesPoints => "linespoints"@,
    }
}

impl Style {
    /// The keyword of this style.
    pub fn to_string(&self) -> (r: String)
        ensures
            r@ == style_name(*self),
    {
        match self {
            Style::Points => "points".to_string(),
            Style::Lines => "lines".to_string(),
            Style::LinesPoints => "linespoints".to_string(),
        }
    }
}

} // verus!
