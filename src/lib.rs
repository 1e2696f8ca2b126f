//! A builder for a single plot directive piped to an external plotting
//! program: flags, a list of inputs and an optional range, rendered into
//! one line of text.
pub mod input;
pub mod laws;
pub mod plot;
pub mod style;

pub use input::{FileInput, Input};
pub use plot::Plot;
pub use style::Style;
