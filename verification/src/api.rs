//! The boundary operations: compiling a pattern, resolving a match input,
//! and matching.

use crate::convert::{
    components_from_engine, input_from_engine, input_to_engine, pattern_from_engine,
};
use crate::engine::{
    base_url_with_init_message, compile_init, compiled_pattern, construct_init,
    constructed_init, input_components, resolve_input, resolved_input,
};
use crate::error::{error_of, is_syntax_message, ErrorKind, ErrorView, PatternError};
use crate::init::{admissible, InputView, UrlInput};
use crate::input::{ComponentsView, Inputs, UrlComponents};
use crate::matching::{pattern_matches, pattern_result, MatchResult, MatchResultView};
use crate::pattern::{CompiledPattern, PatternView};
use crate::text::opt_text;
use vstd::prelude::*;

verus! {

/// What compiling an input with a base URL ends in: the engine first turns
/// the input into pattern components, then compiles them; the first error
/// ends the work.
pub open spec fn parse_outcome(input: InputView, base_url: Option<Seq<char>>) -> Result<
    PatternView,
    ErrorView,
> {
    match constructed_init(input, base_url) {
        Ok(init) => match compiled_pattern(init) {
            Ok(pattern) => Ok(pattern),
            Err(message) => Err(error_of(message)),
        },
        Err(message) => Err(error_of(message)),
    }
}

/// The message of the error for an input that does not resolve.
pub open spec fn unresolved_input_message() -> Seq<char> {
    "the input does not resolve to the components of a URL"@
}

/// What resolving a match input with a base URL ends in: an error where
/// components come with a separate base URL, and where the input is no URL
/// or a component cannot be brought into canonical form; else the text of
/// each component.
pub open spec fn match_input_outcome(input: InputView, base_url: Option<Seq<char>>) -> Result<
    ComponentsView,
    ErrorView,
> {
    if input is Init && base_url is Some {
        Err(error_of(base_url_with_init_message()))
    } else {
        match resolved_input(input, base_url) {
            Some(found) => match input_components(found) {
                Some(parts) => Ok(parts),
                None => Err(error_of(unresolved_input_message())),
            },
            None => Err(error_of(unresolved_input_message())),
        }
    }
}

/// What matching a pattern against an input with a base URL ends in: the
/// error of resolving the input; nothing where the input resolves and some
/// component does not match; else the result.
pub open spec fn exec_outcome(
    pattern: PatternView,
    input: InputView,
    base_url: Option<Seq<char>>,
) -> Result<Option<MatchResultView>, ErrorView> {
    match match_input_outcome(input, base_url) {
        Ok(parts) => Ok(pattern_result(pattern, parts)),
        Err(e) => Err(e),
    }
}

/// The error for components that come with a separate base URL is of the
/// second class.
pub proof fn lemma_base_url_with_init_is_type_error()
    ensures
        error_of(base_url_with_init_message()).kind == ErrorKind::Type,
{
    reveal_strlit("specifying both an init object, and a separate base URL is not valid");
    reveal_strlit("tokenizer error: ");
    reveal_strlit("parser error: ");
    reveal_strlit("regexp error");
    let message = base_url_with_init_message();
    assert(message[0] == 's');
    assert("tokenizer error: "@[0] == 't');
    assert("parser error: "@[0] == 'p');
    assert("regexp error"@[0] == 'r');
    if "tokenizer error: "@.is_prefix_of(message) {
        assert(message.subrange(0, "tokenizer error: "@.len() as int)[0] == 't');
    }
    if "parser error: "@.is_prefix_of(message) {
        assert(message.subrange(0, "parser error: "@.len() as int)[0] == 'p');
    }
    assert(!is_syntax_message(message));
}

/// The error for an input that does not resolve is of the second class.
pub proof fn lemma_unresolved_input_is_type_error()
    ensures
        error_of(unresolved_input_message()).kind == ErrorKind::Type,
{
    reveal_strlit("the input does not resolve to the components of a URL");
    reveal_strlit("tokenizer error: ");
    reveal_strlit("parser error: ");
    reveal_strlit("regexp error");
    let message = unresolved_input_message();
    assert(message[1] == 'h');
    assert("tokenizer error: "@[1] == 'o');
    assert("parser error: "@[1] == 'a');
    assert("regexp error"@[1] == 'e');
    if "tokenizer error: "@.is_prefix_of(message) {
        assert(message.subrange(0, "tokenizer error: "@.len() as int)[1] == 'o');
    }
    if "parser error: "@.is_prefix_of(message) {
        assert(message.subrange(0, "parser error: "@.len() as int)[1] == 'a');
    }
    assert(!is_syntax_message(message));
}

/// The error for an input that does not resolve.
fn unresolved_input() -> (e: PatternError)
    ensures
        e@ == error_of(unresolved_input_message()),
        e.kind == ErrorKind::Type,
{
    proof {
        lemma_unresolved_input_is_type_error();
    }
    PatternError::from_message("the input does not resolve to the components of a URL".to_owned())
}

/// Compiles a pattern, given as one string or component by component, with
/// an optional base URL.
pub fn urlpattern_parse(input: UrlInput, base_url: Option<String>) -> (r: Result<
    CompiledPattern,
    PatternError,
>)
    requires
        admissible(input@),
    ensures
        match r {
            Ok(pattern) => parse_outcome(input@, opt_text(base_url)) == Ok::<
                PatternView,
                ErrorView,
            >(pattern@),
            Err(e) => parse_outcome(input@, opt_text(base_url)) == Err::<PatternView, ErrorView>(
                e@,
            ),
        },
        r matches Ok(pattern) ==> pattern@.well_formed(),
        input is Init && base_url is Some ==> r is Err && r->Err_0@ == (ErrorView {
            kind: ErrorKind::Type,
            message: base_url_with_init_message(),
        }),
{
    proof {
        lemma_base_url_with_init_is_type_error();
    }
    let init = match construct_init(input_to_engine(input), &base_url) {
        Ok(init) => init,
        Err(message) => { return Err(PatternError::from_message(message)); },
    };
    match compile_init(init) {
        Ok(pattern) => Ok(pattern_from_engine(pattern)),
        Err(message) => Err(PatternError::from_message(message)),
    }
}

/// Compiles a pattern where the input is admissible, and says where it is
/// not by returning `None`.
pub fn urlpattern_parse_guarded(input: UrlInput, base_url: Option<String>) -> (r: Option<
    Result<CompiledPattern, PatternError>,
>)
    ensures
        r is Some <==> admissible(input@),
        match r {
            Some(Ok(pattern)) => parse_outcome(input@, opt_text(base_url)) == Ok::<
                PatternView,
                ErrorView,
            >(pattern@),
            Some(Err(e)) => parse_outcome(input@, opt_text(base_url)) == Err::<
                PatternView,
                ErrorView,
            >(e@),
            None => true,
        },
        r matches Some(Ok(pattern)) ==> pattern@.well_formed(),
{
    if input.is_admissible() {
        Some(urlpattern_parse(input, base_url))
    } else {
        None
    }
}

/// Resolves a match input, given as one URL string or component by
/// component, with an optional base URL, into the text of each component.
/// The input and the base URL come back with it. An input that does not
/// resolve is an error of the second class.
pub fn urlpattern_process_match_input(input: UrlInput, base_url: Option<String>) -> (r: Result<
    (UrlComponents, Inputs),
    PatternError,
>)
    ensures
        match r {
            Ok(found) => {
                &&& match_input_outcome(input@, opt_text(base_url)) == Ok::<
                    ComponentsView,
                    ErrorView,
                >(found.0@)
                &&& found.1.0@ == input@
                &&& opt_text(found.1.1) == opt_text(base_url)
            },
            Err(e) => {
                &&& match_input_outcome(input@, opt_text(base_url)) == Err::<
                    ComponentsView,
                    ErrorView,
                >(e@)
                &&& e.kind == ErrorKind::Type
            },
        },
{
    proof {
        lemma_base_url_with_init_is_type_error();
    }
    let (resolved, echo) = match resolve_input(input_to_engine(input), &base_url) {
        Ok(Some(found)) => found,
        Ok(None) => { return Err(unresolved_input()); },
        Err(message) => { return Err(PatternError::from_message(message)); },
    };
    match urlpattern::quirks::parse_match_input(resolved) {
        Some(parts) => Ok((components_from_engine(parts), (input_from_engine(echo.0), echo.1))),
        None => Err(unresolved_input()),
    }
}

/// Matches a compiled pattern against an input with an optional base URL.
/// An input that does not resolve is an error; one that resolves and does
/// not match gives `None`.
pub fn urlpattern_exec(pattern: &CompiledPattern, input: UrlInput, base_url: Option<String>) -> (r:
    Result<Option<MatchResult>, PatternError>)
    ensures
        match r {
            Ok(Some(found)) => exec_outcome(pattern@, input@, opt_text(base_url)) == Ok::<
                Option<MatchResultView>,
                ErrorView,
            >(Some(found@)),
            Ok(None) => exec_outcome(pattern@, input@, opt_text(base_url)) == Ok::<
                Option<MatchResultView>,
                ErrorView,
            >(None),
            Err(e) => {
                &&& exec_outcome(pattern@, input@, opt_text(base_url)) == Err::<
                    Option<MatchResultView>,
                    ErrorView,
                >(e@)
                &&& e.kind == ErrorKind::Type
            },
        },
{
    match urlpattern_process_match_input(input, base_url) {
        Ok(found) => Ok(pattern.exec(&found.0)),
        Err(e) => Err(e),
    }
}

/// Tells whether a compiled pattern matches an input with an optional base
/// URL. An input that does not resolve is an error.
pub fn urlpattern_test(pattern: &CompiledPattern, input: UrlInput, base_url: Option<String>) -> (r:
    Result<bool, PatternError>)
    ensures
        match r {
            Ok(matched) => match_input_outcome(input@, opt_text(base_url)) is Ok && matched
                == pattern_matches(pattern@, match_input_outcome(input@, opt_text(base_url))->Ok_0),
            Err(e) => match_input_outcome(input@, opt_text(base_url)) == Err::<
                ComponentsView,
                ErrorView,
            >(e@),
        },
{
    match urlpattern_process_match_input(input, base_url) {
        Ok(found) => Ok(pattern.test(&found.0)),
        Err(e) => Err(e),
    }
}

} // verus!
