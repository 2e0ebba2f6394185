//! The pattern engine (the `urlpattern` crate) and its regular-expression
//! adapter, as this crate sees them. Nothing in this file is proved: each
//! item states what the engine's source shows, and the rest of the crate is
//! verified against these statements.

use crate::init::{admissible, InitView, InputView};
use crate::input::ComponentsView;
use crate::pattern::{ComponentView, InnerView, PatternView, RuleView};
use crate::text::{found_view, opt_text, texts_of};
use vstd::prelude::*;

verus! {

// The engine's plain records. They are declared with their fields, so
// that Verus reads them as the engine defines them.
#[verifier::external_type_specification]
pub struct ExEngineInit(urlpattern::quirks::UrlPatternInit);

#[verifier::external_type_specification]
pub struct ExEngineInput<'a>(urlpattern::quirks::StringOrInit<'a>);

#[verifier::external_type_specification]
pub struct ExEngineInner(urlpattern::quirks::InnerMatcher);

#[verifier::external_type_specification]
pub struct ExEngineMatcher(urlpattern::quirks::Matcher);

#[verifier::external_type_specification]
pub struct ExEngineComponent(urlpattern::quirks::UrlPatternComponent);

#[verifier::external_type_specification]
pub struct ExEnginePattern(urlpattern::quirks::UrlPattern);

#[verifier::external_type_specification]
pub struct ExEngineMatchInput(urlpattern::quirks::MatchInput);

// Values that are only carried from one engine call to the next.
#[verifier::external_type_specification]
#[verifier::external_body]
pub struct ExProcessedInit(urlpattern::UrlPatternInit);

#[verifier::external_type_specification]
#[verifier::external_body]
pub struct ExResolvedInput(urlpattern::UrlPatternMatchInput);

#[verifier::external_type_specification]
#[verifier::external_body]
pub struct ExRegex(regex::Regex);

/// The value of the engine's record of pattern components.
pub open spec fn engine_init_view(init: urlpattern::quirks::UrlPatternInit) -> InitView {
    InitView {
        protocol: opt_text(init.protocol),
        username: opt_text(init.username),
        password: opt_text(init.password),
        hostname: opt_text(init.hostname),
        port: opt_text(init.port),
        pathname: opt_text(init.pathname),
        search: opt_text(init.search),
        hash: opt_text(init.hash),
        base_url: opt_text(init.base_url),
    }
}

/// The value of the engine's input.
pub open spec fn engine_input_view(input: urlpattern::quirks::StringOrInit<'_>) -> InputView {
    match input {
        urlpattern::quirks::StringOrInit::String(text) => InputView::String(text@),
        urlpattern::quirks::StringOrInit::Init(init) => InputView::Init(engine_init_view(init)),
    }
}

/// The value of the engine's matcher.
pub open spec fn engine_matcher_view(matcher: urlpattern::quirks::Matcher) -> RuleView {
    RuleView {
        prefix: matcher.prefix@,
        suffix: matcher.suffix@,
        inner: match matcher.inner {
            urlpattern::quirks::InnerMatcher::Literal { literal } => InnerView::Literal {
                literal: literal@,
            },
            urlpattern::quirks::InnerMatcher::SingleCapture {
                filter,
                allow_empty,
            } => InnerView::SingleCapture { filter, allow_empty },
            urlpattern::quirks::InnerMatcher::RegExp { regexp } => InnerView::RegExp {
                regexp: regexp@,
            },
        },
    }
}

/// The value of the engine's compiled component.
pub open spec fn engine_component_view(
    component: urlpattern::quirks::UrlPatternComponent,
) -> ComponentView {
    ComponentView {
        pattern_string: component.pattern_string@,
        regexp_string: component.regexp_string@,
        matcher: engine_matcher_view(component.matcher),
        group_name_list: texts_of(component.group_name_list@),
    }
}

/// The value of the engine's compiled pattern.
pub open spec fn engine_pattern_view(pattern: urlpattern::quirks::UrlPattern) -> PatternView {
    PatternView {
        protocol: engine_component_view(pattern.protocol),
        username: engine_component_view(pattern.username),
        password: engine_component_view(pattern.password),
        hostname: engine_component_view(pattern.hostname),
        port: engine_component_view(pattern.port),
        pathname: engine_component_view(pattern.pathname),
        search: engine_component_view(pattern.search),
        hash: engine_component_view(pattern.hash),
        has_regexp_groups: pattern.has_regexp_groups,
    }
}

/// The value of the engine's resolved components.
pub open spec fn engine_match_input_view(input: urlpattern::quirks::MatchInput) -> ComponentsView {
    ComponentsView {
        protocol: input.protocol@,
        username: input.username@,
        password: input.password@,
        hostname: input.hostname@,
        port: input.port@,
        pathname: input.pathname@,
        search: input.search@,
        hash: input.hash@,
    }
}

/// The message of the engine's error for components given together with a
/// separate base URL.
pub open spec fn base_url_with_init_message() -> Seq<char> {
    "specifying both an init object, and a separate base URL is not valid"@
}

/// What `urlpattern::quirks::process_construct_pattern_input` returns for
/// an input and a base URL: the pattern components that the input stands
/// for, or the message of the engine's error.
pub uninterp spec fn constructed_init(input: InputView, base_url: Option<Seq<char>>) -> Result<
    urlpattern::UrlPatternInit,
    Seq<char>,
>;

/// What `urlpattern::quirks::parse_pattern` returns for pattern components:
/// the compiled pattern, or the message of the engine's error.
pub uninterp spec fn compiled_pattern(init: urlpattern::UrlPatternInit) -> Result<
    PatternView,
    Seq<char>,
>;

/// What `urlpattern::quirks::process_match_input` resolves an input and a
/// base URL to; `None` where the input is no URL.
pub uninterp spec fn resolved_input(input: InputView, base_url: Option<Seq<char>>) -> Option<
    urlpattern::UrlPatternMatchInput,
>;

/// What `urlpattern::quirks::parse_match_input` reads from a resolved
/// input: the text of each component, or `None` where a component cannot
/// be brought into canonical form.
pub uninterp spec fn input_components(input: urlpattern::UrlPatternMatchInput) -> Option<
    ComponentsView,
>;

/// What the engine's adapter for the `regex` crate compiles a source text
/// to; `None` where `regex` refuses the source.
pub uninterp spec fn built_regex(source: Seq<char>) -> Option<regex::Regex>;

/// What the engine's adapter for the `regex` crate captures in a text: one
/// entry for each capture group of the expression, in order and without
/// the whole match; `None` where the expression finds no match.
pub uninterp spec fn regex_captures(regex: regex::Regex, text: Seq<char>) -> Option<
    Seq<Option<Seq<char>>>,
>;

/// Calls `urlpattern::quirks::process_construct_pattern_input` and turns
/// its error into the error's message.
///
/// Claimed: the result is a function of the input and the base URL, and
/// components that come with a separate base URL are refused with the
/// message above, which is the first thing the engine tests for them.
/// On a single string the engine may take one from a bracket count that
/// stands at zero, and stop the program; `requires` keeps out every string
/// on which it could, by the scan of [`crate::guard`].
#[verifier::external_body]
pub(crate) fn construct_init(
    input: urlpattern::quirks::StringOrInit<'static>,
    base_url: &Option<String>,
) -> (r: Result<urlpattern::UrlPatternInit, String>)
    requires
        admissible(engine_input_view(input)),
    ensures
        match r {
            Ok(init) => constructed_init(engine_input_view(input), opt_text(*base_url)) == Ok::<
                urlpattern::UrlPatternInit,
                Seq<char>,
            >(init),
            Err(message) => constructed_init(engine_input_view(input), opt_text(*base_url))
                == Err::<urlpattern::UrlPatternInit, Seq<char>>(message@),
        },
        input is Init && base_url is Some ==> r is Err && r->Err_0@
            == base_url_with_init_message(),
{
    urlpattern::quirks::process_construct_pattern_input(input, base_url.as_deref()).map_err(
        |e| e.to_string(),
    )
}

/// Calls `urlpattern::quirks::parse_pattern`, with the `regex` crate as the
/// regular-expression engine and the default options (matching is
/// case-sensitive), and turns its error into the error's message.
///
/// Claimed: the result is a function of the pattern components, and no
/// component of a compiled pattern names two capture groups alike: the
/// engine's parser refuses a name that an earlier part of the component
/// bears, and the list of names holds one name for each capturing part.
#[verifier::external_body]
pub(crate) fn compile_init(init: urlpattern::UrlPatternInit) -> (r: Result<
    urlpattern::quirks::UrlPattern,
    String,
>)
    ensures
        match r {
            Ok(pattern) => {
                &&& compiled_pattern(init) == Ok::<PatternView, Seq<char>>(
                    engine_pattern_view(pattern),
                )
                &&& engine_pattern_view(pattern).well_formed()
            },
            Err(message) => compiled_pattern(init) == Err::<PatternView, Seq<char>>(message@),
        },
{
    urlpattern::quirks::parse_pattern::<regex::Regex>(
        init,
        urlpattern::UrlPatternOptions::default(),
    ).map_err(|e| e.to_string())
}

/// Calls `urlpattern::quirks::process_match_input` and turns its error
/// into the error's message.
///
/// Claimed, as the engine's source shows: the only error is the one for
/// components that come with a separate base URL; an input that is no URL
/// gives `None`; otherwise the resolved input is a function of the input
/// and the base URL, and it comes with a copy of both.
#[verifier::external_body]
pub(crate) fn resolve_input(
    input: urlpattern::quirks::StringOrInit<'static>,
    base_url: &Option<String>,
) -> (r: Result<
    Option<
        (
            urlpattern::UrlPatternMatchInput,
            (urlpattern::quirks::StringOrInit<'static>, Option<String>),
        ),
    >,
    String,
>)
    ensures
        match r {
            Err(message) => {
                &&& input is Init
                &&& base_url is Some
                &&& message@ == base_url_with_init_message()
            },
            Ok(None) => {
                &&& !(input is Init && base_url is Some)
                &&& resolved_input(engine_input_view(input), opt_text(*base_url)) is None
            },
            Ok(Some(found)) => {
                &&& !(input is Init && base_url is Some)
                &&& resolved_input(engine_input_view(input), opt_text(*base_url)) == Some(found.0)
                &&& engine_input_view(found.1.0) == engine_input_view(input)
                &&& opt_text(found.1.1) == opt_text(*base_url)
            },
        },
{
    urlpattern::quirks::process_match_input(input, base_url.as_deref()).map_err(
        |e| e.to_string(),
    )
}

/// `urlpattern::quirks::parse_match_input`: the result is a function of
/// the resolved input.
pub assume_specification[ urlpattern::quirks::parse_match_input ](
    input: urlpattern::UrlPatternMatchInput,
) -> (r: Option<urlpattern::quirks::MatchInput>)
    ensures
        match r {
            Some(parts) => input_components(input) == Some(engine_match_input_view(parts)),
            None => input_components(input) is None,
        },
;

/// Calls `urlpattern::regexp::RegExp::parse` for `regex::Regex`, which
/// hands the source to `regex::Regex::new`.
///
/// Claimed: the result is a function of the source.
#[verifier::external_body]
pub(crate) fn build_regex(source: &str) -> (r: Option<regex::Regex>)
    ensures
        r == built_regex(source@),
{
    <regex::Regex as urlpattern::regexp::RegExp>::parse(source, "u", false).ok()
}

/// Calls `urlpattern::regexp::RegExp::matches` for `regex::Regex` and
/// copies each capture.
///
/// Claimed: the result is a function of the expression and the text.
#[verifier::external_body]
pub(crate) fn capture_groups(regex: &regex::Regex, text: &str) -> (r: Option<
    Vec<Option<String>>,
>)
    ensures
        found_view(r) == regex_captures(*regex, text@),
{
    urlpattern::regexp::RegExp::matches(regex, text).map(
        |groups| groups.into_iter().map(|g| g.map(str::to_owned)).collect(),
    )
}

} // verus!
