//! Conversions between this crate's types and the engine's plain records.
//! Each one moves the fields over, and says so.

use crate::engine::{
    engine_component_view, engine_init_view, engine_input_view, engine_match_input_view,
    engine_matcher_view, engine_pattern_view,
};
use crate::init::{UrlInit, UrlInput};
use crate::input::UrlComponents;
use crate::pattern::{CompiledPattern, ComponentMatcher, InnerRule, MatchRule};
use vstd::prelude::*;

verus! {

/// The engine's record of the same components.
pub fn init_to_engine(init: UrlInit) -> (r: urlpattern::quirks::UrlPatternInit)
    ensures
        engine_init_view(r) == init@,
{
    urlpattern::quirks::UrlPatternInit {
        protocol: init.protocol,
        username: init.username,
        password: init.password,
        hostname: init.hostname,
        port: init.port,
        pathname: init.pathname,
        search: init.search,
        hash: init.hash,
        base_url: init.base_url,
    }
}

/// The components of the engine's record.
pub fn init_from_engine(init: urlpattern::quirks::UrlPatternInit) -> (r: UrlInit)
    ensures
        r@ == engine_init_view(init),
{
    UrlInit {
        protocol: init.protocol,
        username: init.username,
        password: init.password,
        hostname: init.hostname,
        port: init.port,
        pathname: init.pathname,
        search: init.search,
        hash: init.hash,
        base_url: init.base_url,
    }
}

/// The engine's input of the same shape and content.
pub fn input_to_engine(input: UrlInput) -> (r: urlpattern::quirks::StringOrInit<'static>)
    ensures
        engine_input_view(r) == input@,
{
    match input {
        UrlInput::String(text) => urlpattern::quirks::StringOrInit::String(
            std::borrow::Cow::Owned(text),
        ),
        UrlInput::Init(init) => urlpattern::quirks::StringOrInit::Init(init_to_engine(init)),
    }
}

/// The input that the engine's input stands for.
pub fn input_from_engine(input: urlpattern::quirks::StringOrInit<'static>) -> (r: UrlInput)
    ensures
        r@ == engine_input_view(input),
{
    match input {
        urlpattern::quirks::StringOrInit::String(text) => match text {
            std::borrow::Cow::Borrowed(s) => UrlInput::String(s.to_owned()),
            std::borrow::Cow::Owned(s) => UrlInput::String(s),
        },
        urlpattern::quirks::StringOrInit::Init(init) => UrlInput::Init(init_from_engine(init)),
    }
}

/// The rule that the engine's matcher states.
pub fn rule_from_engine(matcher: urlpattern::quirks::Matcher) -> (r: MatchRule)
    ensures
        r@ == engine_matcher_view(matcher),
{
    let inner = match matcher.inner {
        urlpattern::quirks::InnerMatcher::Literal { literal } => InnerRule::Literal { literal },
        urlpattern::quirks::InnerMatcher::SingleCapture {
            filter,
            allow_empty,
        } => InnerRule::SingleCapture { filter, allow_empty },
        urlpattern::quirks::InnerMatcher::RegExp { regexp } => InnerRule::RegExp { regexp },
    };
    MatchRule { prefix: matcher.prefix, suffix: matcher.suffix, inner }
}

/// The compiled component that the engine's record holds.
pub fn component_from_engine(component: urlpattern::quirks::UrlPatternComponent) -> (r:
    ComponentMatcher)
    ensures
        r@ == engine_component_view(component),
{
    ComponentMatcher {
        pattern_string: component.pattern_string,
        regexp_string: component.regexp_string,
        matcher: rule_from_engine(component.matcher),
        group_name_list: component.group_name_list,
    }
}

/// The compiled pattern that the engine's record holds.
pub fn pattern_from_engine(pattern: urlpattern::quirks::UrlPattern) -> (r: CompiledPattern)
    ensures
        r@ == engine_pattern_view(pattern),
{
    CompiledPattern {
        protocol: component_from_engine(pattern.protocol),
        username: component_from_engine(pattern.username),
        password: component_from_engine(pattern.password),
        hostname: component_from_engine(pattern.hostname),
        port: component_from_engine(pattern.port),
        pathname: component_from_engine(pattern.pathname),
        search: component_from_engine(pattern.search),
        hash: component_from_engine(pattern.hash),
        has_regexp_groups: pattern.has_regexp_groups,
    }
}

/// The component texts that the engine's record holds.
pub fn components_from_engine(input: urlpattern::quirks::MatchInput) -> (r: UrlComponents)
    ensures
        r@ == engine_match_input_view(input),
{
    UrlComponents {
        protocol: input.protocol,
        username: input.username,
        password: input.password,
        hostname: input.hostname,
        port: input.port,
        pathname: input.pathname,
        search: input.search,
        hash: input.hash,
    }
}

} // verus!
