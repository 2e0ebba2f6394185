//! Laws of compiling and matching, proved from the definitions that the
//! functions' contracts use.

use crate::api::parse_outcome;
use crate::init::InputView;
use crate::input::ComponentsView;
use crate::matching::{
    component_result, inner_captures, middle_of, pattern_matches, pattern_result, rule_captures,
};
use crate::pattern::{ComponentView, InnerView, PatternView, RuleView};
use vstd::prelude::*;

verus! {

/// The rule that the pattern `*` stands for: no prefix, no suffix, and a
/// capture of whatever is there.
pub open spec fn full_wildcard() -> RuleView {
    RuleView {
        prefix: Seq::empty(),
        suffix: Seq::empty(),
        inner: InnerView::SingleCapture { filter: None, allow_empty: true },
    }
}

/// The text that the captures of a rule without a regular expression stand
/// for: the rule's fixed text, with the capture put back in its place.
pub open spec fn rebuilt(rule: RuleView, captures: Seq<Option<Seq<char>>>) -> Seq<char> {
    match rule.inner {
        InnerView::Literal { literal } => rule.prefix + literal + rule.suffix,
        InnerView::SingleCapture { .. } => rule.prefix + captures[0]->0 + rule.suffix,
        InnerView::RegExp { .. } => rule.prefix + rule.suffix,
    }
}

/// A match is a match of the whole text: the text is the rule's prefix,
/// then what the inner rule accepted, then the rule's suffix.
pub proof fn law_match_covers_whole_text(rule: RuleView, input: Seq<char>)
    requires
        rule_captures(rule, input) is Some,
    ensures
        middle_of(rule, input) is Some,
        input == rule.prefix + middle_of(rule, input)->0 + rule.suffix,
        inner_captures(rule.inner, middle_of(rule, input)->0) == rule_captures(rule, input),
{
    let middle = middle_of(rule, input)->0;
    assert(input =~= rule.prefix + middle + rule.suffix);
}

/// Where a rule without a regular expression matches, putting its captures
/// back into its fixed text gives the matched text again.
pub proof fn law_captures_rebuild_text(rule: RuleView, input: Seq<char>)
    requires
        !(rule.inner is RegExp),
        rule_captures(rule, input) is Some,
    ensures
        rebuilt(rule, rule_captures(rule, input)->0) == input,
{
    law_match_covers_whole_text(rule, input);
}

/// A rule of fixed text matches its own text and no other.
pub proof fn law_fixed_text_matches_only_itself(rule: RuleView, input: Seq<char>)
    requires
        rule.inner is Literal,
    ensures
        rule_captures(rule, input) is Some <==> input == rule.prefix + rule.inner->literal
            + rule.suffix,
        rule_captures(rule, input) is Some ==> rule_captures(rule, input)->0.len() == 0,
{
    let whole = rule.prefix + rule.inner->literal + rule.suffix;
    if rule_captures(rule, input) is Some {
        law_match_covers_whole_text(rule, input);
    }
    if input == whole {
        assert(whole.subrange(0, rule.prefix.len() as int) =~= rule.prefix);
        assert(whole.subrange(whole.len() - rule.suffix.len(), whole.len() as int)
            =~= rule.suffix);
        assert(whole.subrange(rule.prefix.len() as int, whole.len() - rule.suffix.len())
            =~= rule.inner->literal);
    }
}

/// The result of a component names the very text that was tested.
pub proof fn law_result_keeps_text(component: ComponentView, input: Seq<char>)
    requires
        component_result(component, input) is Some,
    ensures
        component_result(component, input)->0.input == input,
{
}

/// `*` matches every text, of any length and with any separators in it,
/// and captures all of it.
pub proof fn law_full_wildcard_takes_any_text(input: Seq<char>)
    ensures
        rule_captures(full_wildcard(), input) == Some(seq![Some(input)]),
{
    let rule = full_wildcard();
    assert(rule.prefix.is_prefix_of(input));
    assert(rule.suffix.is_suffix_of(input));
    assert(input.subrange(0, input.len() as int) == input);
}

/// A captured segment never holds the separator that its rule filters:
/// where the text between prefix and suffix holds it, there is no match,
/// and where there is a match, the one capture is that text.
pub proof fn law_segment_stops_at_separator(rule: RuleView, input: Seq<char>)
    requires
        rule.inner matches InnerView::SingleCapture { filter, .. } && filter is Some,
    ensures
        match rule_captures(rule, input) {
            Some(captures) => {
                &&& captures == seq![middle_of(rule, input)]
                &&& !middle_of(rule, input)->0.contains(rule.inner->SingleCapture_filter->0)
            },
            None => true,
        },
        middle_of(rule, input) is Some && middle_of(rule, input)->0.contains(
            rule.inner->SingleCapture_filter->0,
        ) ==> rule_captures(rule, input) is None,
{
}

/// In the result of a well-formed component no name occurs twice, so the
/// named captures are a map from names to what was captured.
pub proof fn law_result_names_are_distinct(component: ComponentView, input: Seq<char>)
    requires
        component.well_formed(),
        component_result(component, input) is Some,
    ensures
        forall|i: int, j: int|
            #![trigger component_result(component, input)->0.groups[i], component_result(component, input)->0.groups[j]]
            0 <= i < j < component_result(component, input)->0.groups.len()
                ==> component_result(component, input)->0.groups[i].0 != component_result(
                component,
                input,
            )->0.groups[j].0,
{
}

/// Compiling depends on nothing but the input and the base URL: two
/// compilations of the same pattern end alike, and where they succeed the
/// two patterns give the same result on every candidate.
pub proof fn law_compiling_twice_agrees(
    first: InputView,
    first_base: Option<Seq<char>>,
    second: InputView,
    second_base: Option<Seq<char>>,
    candidate: ComponentsView,
)
    requires
        first == second,
        first_base == second_base,
    ensures
        parse_outcome(first, first_base) == parse_outcome(second, second_base),
        match (parse_outcome(first, first_base), parse_outcome(second, second_base)) {
            (Ok(p), Ok(q)) => pattern_result(p, candidate) == pattern_result(q, candidate),
            (Err(e), Err(f)) => e == f,
            _ => false,
        },
{
}

/// There are no partial results: a pattern has a result exactly where all
/// eight components match.
pub proof fn law_result_needs_all_components(pattern: PatternView, input: ComponentsView)
    ensures
        pattern_result(pattern, input) is Some <==> pattern_matches(pattern, input),
        component_result(pattern.pathname, input.pathname) is None ==> pattern_result(
            pattern,
            input,
        ) is None,
{
}

} // verus!
