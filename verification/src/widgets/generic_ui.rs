//! Decisions made by the generic UI: which parameters get a row, and which slider style each
//! row's widget uses.

use crate::widgets::param_slider::ParamSliderStyle;
use vstd::prelude::*;

verus! {

/// The indices of the parameters that get a row, in their order: every parameter not flagged as
/// hidden from generic UIs.
pub open spec fn spec_visible_params(hidden: Seq<bool>) -> Seq<usize>
    decreases hidden.len(),
{
    if hidden.len() == 0 {
        Seq::empty()
    } else {
        let rest = spec_visible_params(hidden.drop_last());
        if hidden.last() {
            rest
        } else {
            rest.push((hidden.len() - 1) as usize)
        }
    }
}

/// Lists, in order, the indices of the parameters that a generic UI shows: `hidden[i]` tells
/// whether parameter `i` is flagged as hidden from generic UIs.
pub fn visible_params(hidden: &Vec<bool>) -> (r: Vec<usize>)
    ensures
        r@ == spec_visible_params(hidden@),
{
    let n = hidden.len();
    let mut out: Vec<usize> = Vec::new();
    let mut i: usize = 0;
    while i < n
        invariant
            n == hidden@.len(),
            i <= n,
            out@ == spec_visible_params(hidden@.take(i as int)),
        decreases n - i,
    {
        assert(hidden@.take(i + 1).drop_last() == hidden@.take(i as int));
        if !hidden[i] {
            out.push(i);
        }
        i = i + 1;
    }
    assert(hidden@.take(n as int) == hidden@);
    out
}

/// A parameter gets a row exactly when it is not hidden, and rows keep the parameters' order.
pub proof fn lemma_visible_params_exact(hidden: Seq<bool>)
    requires
        hidden.len() <= usize::MAX,
    ensures
        forall|i: int| 0 <= i < hidden.len() ==> (spec_visible_params(
            hidden,
        ).contains(i as usize) <==> !#[trigger] hidden[i]),
        forall|a: int, b: int|
            0 <= a < b < spec_visible_params(hidden).len() ==> spec_visible_params(hidden)[a]
                < spec_visible_params(hidden)[b],
        forall|a: int|
            0 <= a < spec_visible_params(hidden).len() ==> spec_visible_params(hidden)[a]
                < hidden.len(),
    decreases hidden.len(),
{
    if hidden.len() > 0 {
        let init = hidden.drop_last();
        lemma_visible_params_exact(init);
        let rest = spec_visible_params(init);
        let n = hidden.len() - 1;
        assert forall|i: int| 0 <= i < hidden.len() implies (
        spec_visible_params(hidden).contains(i as usize) <==> !#[trigger] hidden[i]) by {
            if i < n {
                assert(init[i] == hidden[i]);
                if spec_visible_params(hidden).contains(i as usize) && !rest.contains(i as usize) {
                    let k = choose|k: int|
                        0 <= k < spec_visible_params(hidden).len() && spec_visible_params(hidden)[k]
                            == i as usize;
                    assert(k == rest.len());
                }
                if rest.contains(i as usize) {
                    let k = choose|k: int| 0 <= k < rest.len() && rest[k] == i as usize;
                    assert(spec_visible_params(hidden)[k] == i as usize);
                }
            } else {
                if !hidden.last() {
                    assert(spec_visible_params(hidden)[rest.len() as int] == n as usize);
                } else if rest.contains(i as usize) {
                    let k = choose|k: int| 0 <= k < rest.len() && rest[k] == i as usize;
                    assert(rest[k] < init.len());
                }
            }
        }
    }
}

/// The style that a generic UI gives a slider, by the parameter's step count.
pub open spec fn spec_generic_ui_style(step_count: Option<usize>) -> ParamSliderStyle {
    match step_count {
        Some(n) => if n <= 1 {
            ParamSliderStyle::CurrentStepLabeled { even: true }
        } else if n <= 2 {
            ParamSliderStyle::CurrentStep { even: true }
        } else {
            ParamSliderStyle::FromLeft
        },
        None => ParamSliderStyle::Centered,
    }
}

/// Picks the slider style that a generic UI uses for a parameter with the given step count.
pub fn generic_ui_style(step_count: Option<usize>) -> (style: ParamSliderStyle)
    ensures
        style == spec_generic_ui_style(step_count),
        step_count is None ==> style == ParamSliderStyle::Centered,
        (step_count is Some && step_count->0 <= 1) ==> style == (ParamSliderStyle::CurrentStepLabeled { even: true }),
        step_count == Some(2usize) ==> style == (ParamSliderStyle::CurrentStep { even: true }),
        (step_count is Some && step_count->0 >= 3) ==> style == ParamSliderStyle::FromLeft,
{
    match step_count {
        Some(n) => if n <= 1 {
            ParamSliderStyle::CurrentStepLabeled { even: true }
        } else if n <= 2 {
            ParamSliderStyle::CurrentStep { even: true }
        } else {
            ParamSliderStyle::FromLeft
        },
        None => ParamSliderStyle::Centered,
    }
}

/// A generic UI labels every step only for parameters with at most two values, shows the current
/// step for three values, fills from the left for anything with more steps, and centres the fill
/// for continuous parameters. Styles always spread steps evenly.
pub proof fn lemma_generic_ui_style_by_step_count()
    ensures
        spec_generic_ui_style(None) == ParamSliderStyle::Centered,
        forall|n: usize|
            n <= 1 ==> #[trigger] spec_generic_ui_style(Some(n)) == (
            ParamSliderStyle::CurrentStepLabeled { even: true }),
        spec_generic_ui_style(Some(2usize)) == (ParamSliderStyle::CurrentStep { even: true }),
        forall|n: usize| n >= 3 ==> #[trigger] spec_generic_ui_style(Some(n)) == ParamSliderStyle::FromLeft,
        forall|s: Option<usize>|
            (#[trigger] spec_generic_ui_style(s) is CurrentStepLabeled) ==> (s is Some && s->0 <= 1),
{
}

} // verus!
