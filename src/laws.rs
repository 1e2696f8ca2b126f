//! Properties that relate the builder's operations to the rendered line.
use vstd::prelude::*;

use crate::input::{input_text, InputView};
use crate::plot::{inputs_text, input_texts, join_comma, lemma_join_comma_push, persist_flag, range_token, PlotView};

verus! {

/// Adding an input puts its text last in the input list: alone when it is
/// the first input, otherwise after the earlier inputs' list and a comma.
/// Whatever the mix of raw and file inputs, the list is the inputs' texts
/// joined by commas in the order they were added.
pub proof fn law_input_joins_in_order(p: PlotView, i: InputView)
    ensures
        p.with_input(i).rendered() == "plot "@ + range_token(p.range) + (if p.inputs.len() == 0 {
            input_text(i)
        } else {
            inputs_text(p.inputs) + ","@ + input_text(i)
        }) + " \n"@,
        inputs_text(p.with_input(i).inputs) == join_comma(input_texts(p.inputs).push(input_text(i))),
{
    let texts = input_texts(p.inputs);
    assert(input_texts(p.inputs.push(i)) =~= texts.push(input_text(i)));
    if p.inputs.len() == 0 {
        assert(texts.push(input_text(i)) =~= seq![input_text(i)]);
    } else {
        lemma_join_comma_push(texts, input_text(i));
    }
}

/// Without a range the line is `plot `, the input list, a space and a
/// newline; with a range set, the range and one space come right before
/// the input list.
pub proof fn law_range_before_inputs(p: PlotView, r: Seq<char>)
    ensures
        p.range is None ==> p.rendered() == "plot "@ + inputs_text(p.inputs) + " \n"@,
        p.with_range(r).rendered() == "plot "@ + r + " "@ + inputs_text(p.inputs) + " \n"@,
{
    assert(range_token(None) + inputs_text(p.inputs) =~= inputs_text(p.inputs));
    assert("plot "@ + range_token(Some(r)) + inputs_text(p.inputs) =~= "plot "@ + r + " "@
        + inputs_text(p.inputs));
}

/// The persist flag is not deduplicated: two calls add it twice.
pub proof fn law_persist_twice(p: PlotView)
    ensures
        p.persisted().persisted().args == p.args + seq![persist_flag(), persist_flag()],
        p.persisted().persisted().inputs == p.inputs,
        p.persisted().persisted().range == p.range,
{
    assert(p.persisted().persisted().args =~= p.args + seq![persist_flag(), persist_flag()]);
}

} // verus!
