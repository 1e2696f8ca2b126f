//! The terms of a plot directive: raw expressions and data files.
use vstd::prelude::*;

use crate::style::{style_name, Style};

verus! {

/// The text of a path as the external program's grammar quotes it:
/// the path's debug form.
pub uninterp spec fn quoted_path_text(path: Seq<char>) -> Seq<char>;

/// Relies on `Debug` for `std::path::Path`: the quoted, escaped form of a
/// path, which depends on the path's text alone.
#[verifier::external_body]
fn quoted_path(path: &str) -> (r: String)
    ensures
        r@ == quoted_path_text(path@),
{
    format!("{:?}", std::path::Path::new(path))
}

/// A data file to plot, with an optional column selector and style.
#[derive(Debug)]
pub struct FileInput {
    path: String,
    using: Option<String>,
    with: Option<Style>,
}

/// What a `FileInput` holds.
pub struct FileInputView {
    pub path: Seq<char>,
    pub using: Option<Seq<char>>,
    pub with: Option<Style>,
}

impl View for FileInput {
    type V = FileInputView;

    closed spec fn view(&self) -> FileInputView {
        FileInputView {
            path: self.path@,
            using: match self.using {
                Some(u) => Some(u@),
                None => None,
            },
            with: self.with,
        }
    }
}

/// `" using <selector>"` when a column selector is set, else nothing.
pub open spec fn using_clause(using: Option<Seq<char>>) -> Seq<char> {
    match using {
        Some(u) => " using "@ + u,
        None => Seq::empty(),
    }
}

/// `" with <style>"` when a style is set, else nothing.
pub open spec fn with_clause(with: Option<Style>) -> Seq<char> {
    match with {
        Some(s) => " with "@ + style_name(s),
        None => Seq::empty(),
    }
}

/// The text of a file input: quoted path, then its `using` and `with` clauses.
pub open spec fn file_input_text(f: FileInputView) -> Seq<char> {
    quoted_path_text(f.path) + using_clause(f.using) + with_clause(f.with)
}

impl FileInput {
    /// A file input for `path`, with no selector and no style.
    pub fn new(path: &str) -> (r: FileInput)
        ensures
            r@ == (FileInputView { path: path@, using: None, with: None }),
    {
        FileInput { path: path.to_string(), using: None, with: None }
    }

    /// Sets the column selector, replacing any earlier one.
    pub fn using(self, using: &str) -> (r: FileInput)
        ensures
            r@ == (FileInputView { using: Some(using@), ..self@ }),
    {
        let mut f = self;
        f.using = Some(using.to_string());
        f
    }

    /// Sets the style, replacing any earlier one.
    pub fn with(self, style: Style) -> (r: FileInput)
        ensures
            r@ == (FileInputView { with: Some(style), ..self@ }),
    {
        let mut f = self;
        f.with = Some(style);
        f
    }

    /// The text of this input in a plot directive.
    pub fn to_string(&self) -> (r: String)
        ensures
            r@ == file_input_text(self@),
    {
        let mut r = quoted_path(self.path.as_str());
        match &self.using {
            Some(u) => {
                r.append(" using ");
                r.append(u.as_str());
            },
            None => {},
        }
        match &self.with {
            Some(s) => {
                r.append(" with ");
                let name = s.to_string();
                r.append(name.as_str());
            },
            None => {},
        }
        r
    }
}

/// One term of a plot directive.
#[derive(Debug)]
pub enum Input {
    /// An expression or data spec, written as it is.
    Raw(String),
    /// A data file.
    File(FileInput),
}

/// What an `Input` holds.
pub enum InputView {
    Raw(Seq<char>),
    File(FileInputView),
}

impl View for Input {
    type V = InputView;

    open spec fn view(&self) -> InputView {
        match self {
            Input::Raw(s) => InputView::Raw(s@),
            Input::File(f) => InputView::File(f@),
        }
    }
}

/// The text of an input in a plot directive.
pub open spec fn input_text(i: InputView) -> Seq<char> {
    match i {
        InputView::Raw(s) => s,
        InputView::File(f) => file_input_text(f),
    }
}

impl Input {
    /// The text of this input in a plot directive.
    pub fn to_string(&self) -> (r: String)
        ensures
            r@ == input_text(self@),
    {
        match self {
            Input::Raw(s) => s.clone(),
            Input::File(f) => f.to_string(),
        }
    }
}

impl<'a> From<&'a str> for Input {
    fn from(f: &'a str) -> (r: Input)
        ensures
            r@ == InputView::Raw(f@),
    {
        Input::Raw(f.to_string())
    }
}

// Spec code cannot build a `String`, so this conversion is described by the
// `ensures` of `from` above rather than by a spec function.
impl<'a> vstd::std_specs::convert::FromSpecImpl<&'a str> for Input {
    open spec fn obeys_from_spec() -> bool {
        false
    }

    open spec fn from_spec(v: &'a str) -> Input {
        arbitrary()
    }
}

impl From<FileInput> for Input {
    fn from(f: FileInput) -> (r: Input)
        ensures
            r@ == InputView::File(f@),
    {
        Input::File(f)
    }
}

impl vstd::std_specs::convert::FromSpecImpl<FileInput> for Input {
    open spec fn obeys_from_spec() -> bool {
        true
    }

    open spec fn from_spec(v: FileInput) -> Input {
        Input::File(v)
    }
}

} // verus!
