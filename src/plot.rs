//! The plot builder and the directive it renders.
use vstd::prelude::*;

use crate::input::{input_text, Input, InputView};

verus! {

/// The flag that keeps the plot window open after the program exits.
pub open spec fn persist_flag() -> Seq<char> {
    "--persist"@
}

/// Comma-separated concatenation of `parts`, in order.
pub open spec fn join_comma(parts: Seq<Seq<char>>) -> Seq<char>
    decreases parts.len(),
{
    if parts.len() == 0 {
        Seq::empty()
    } else if parts.len() == 1 {
        parts[0]
    } else {
        parts[0] + ","@ + join_comma(parts.drop_first())
    }
}

/// Appending a part to a non-empty list appends a comma and the part to
/// the joined text.
pub proof fn lemma_join_comma_push(parts: Seq<Seq<char>>, x: Seq<char>)
    requires
        parts.len() > 0,
    ensures
        join_comma(parts.push(x)) == join_comma(parts) + ","@ + x,
    decreases parts.len(),
{
    let longer = parts.push(x);
    assert(longer.drop_first() =~= parts.drop_first().push(x));
    if parts.len() == 1 {
        assert(longer.drop_first() =~= seq![x]);
        assert(join_comma(longer.drop_first()) == x);
    } else {
        lemma_join_comma_push(parts.drop_first(), x);
        assert(join_comma(longer) =~= join_comma(parts) + ","@ + x);
    }
}

/// The texts of `inputs`, in order.
pub open spec fn input_texts(inputs: Seq<InputView>) -> Seq<Seq<char>> {
    inputs.map_values(|i: InputView| input_text(i))
}

/// The input list of a directive: the inputs' texts joined by commas.
pub open spec fn inputs_text(inputs: Seq<InputView>) -> Seq<char> {
    join_comma(input_texts(inputs))
}

/// The range token with its trailing space, or nothing when no range is set.
pub open spec fn range_token(range: Option<Seq<char>>) -> Seq<char> {
    match range {
        Some(r) => r + " "@,
        None => Seq::empty(),
    }
}

/// What a `Plot` holds.
pub struct PlotView {
    pub args: Seq<Seq<char>>,
    pub inputs: Seq<InputView>,
    pub range: Option<Seq<char>>,
}

impl PlotView {
    /// The empty builder.
    pub open spec fn empty() -> PlotView {
        PlotView { args: Seq::empty(), inputs: Seq::empty(), range: None }
    }

    /// This builder with the persist flag appended to its arguments.
    pub open spec fn persisted(self) -> PlotView {
        PlotView { args: self.args.push(persist_flag()), ..self }
    }

    /// This builder with `i` appended to its inputs.
    pub open spec fn with_input(self, i: InputView) -> PlotView {
        PlotView { inputs: self.inputs.push(i), ..self }
    }

    /// This builder with its range set to `r`.
    pub open spec fn with_range(self, r: Seq<char>) -> PlotView {
        PlotView { range: Some(r), ..self }
    }

    /// The directive line: `plot `, the range token, the input list, a
    /// space and a newline.
    pub open spec fn rendered(self) -> Seq<char> {
        "plot "@ + range_token(self.range) + inputs_text(self.inputs) + " \n"@
    }
}

/// Builds one plot directive and the program's argument list.
#[derive(Debug)]
pub struct Plot {
    args: Vec<String>,
    inputs: Vec<Input>,
    range: Option<String>,
}

impl View for Plot {
    type V = PlotView;

    closed spec fn view(&self) -> PlotView {
        PlotView {
            args: self.args@.map_values(|a: String| a@),
            inputs: self.inputs@.map_values(|i: Input| i@),
            range: match self.range {
                Some(r) => Some(r@),
                None => None,
            },
        }
    }
}

impl Plot {
    /// An empty builder: no flags, no inputs, no range.
    pub fn new() -> (r: Plot)
        ensures
            r@ == PlotView::empty(),
    {
        let r = Plot { args: Vec::new(), inputs: Vec::new(), range: None };
        assert(r@.args =~= Seq::empty());
        assert(r@.inputs =~= Seq::empty());
        r
    }

    /// Appends the persist flag; a second call appends it again.
    pub fn persist(&mut self) -> (r: &mut Plot)
        ensures
            r@ == old(self)@.persisted(),
            *final(self) == *final(r),
    {
        self.args.push("--persist".to_string());
        assert(self@.args =~= old(self)@.persisted().args);
        self
    }

    /// Appends one input, converted to an `Input`: the appended value is
    /// the one that the conversion's own contract describes.
    pub fn input<T: Into<Input>>(&mut self, input: T) -> (r: &mut Plot)
        ensures
            exists|i: Input|
                call_ensures(T::into, (input,), i) && r@ == old(self)@.with_input(i@),
            *final(self) == *final(r),
    {
        let i: Input = input.into();
        self.inputs.push(i);
        assert(self@.inputs =~= old(self)@.with_input(i@).inputs);
        self
    }

    /// Sets the range, replacing any earlier one.
    pub fn range(&mut self, range: &str) -> (r: &mut Plot)
        ensures
            r@ == old(self)@.with_range(range@),
            *final(self) == *final(r),
    {
        self.range = Some(range.to_string());
        self
    }

    /// The directive line that `show` writes to the program.
    pub fn render(&self) -> (r: String)
        ensures
            r@ == self@.rendered(),
    {
        let ghost texts = input_texts(self@.inputs);
        let mut r = "plot ".to_string();
        match &self.range {
            Some(g) => {
                r.append(g.as_str());
                r.append(" ");
            },
            None => {},
        }
        let ghost head = r@;
        assert(head == "plot "@ + range_token(self@.range));
        let mut k: usize = 0;
        while k < self.inputs.len()
            invariant
                k <= self.inputs.len(),
                texts == input_texts(self@.inputs),
                texts.len() == self.inputs@.len(),
                r@ == head + join_comma(texts.take(k as int)),
            decreases self.inputs.len() - k,
        {
            let t = self.inputs[k].to_string();
            assert(t@ == texts[k as int]);
            proof {
                assert(texts.take(k + 1) =~= texts.take(k as int).push(t@));
                if k > 0 {
                    lemma_join_comma_push(texts.take(k as int), t@);
                } else {
                    assert(texts.take(1) =~= seq![t@]);
                }
            }
            if k > 0 {
                r.append(",");
            }
            r.append(t.as_str());
            k = k + 1;
        }
        assert(texts.take(k as int) =~= texts);
        r.append(" \n");
        r
    }

    /// The program's arguments, in the order they were added.
    pub fn args(&self) -> (r: &Vec<String>)
        ensures
            r@.map_values(|a: String| a@) == self@.args,
    {
        &self.args
    }
}

} // verus!
