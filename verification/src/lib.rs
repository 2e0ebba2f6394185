//! Compiling URL patterns and matching URLs against them.
//!
//! A pattern describes a family of URLs, component by component. It is
//! compiled once, by [`urlpattern_parse`], into a matcher for each of
//! the eight components of a URL; [`urlpattern_exec`] then resolves a
//! candidate into its components and runs the matchers on them.

pub mod api;
pub mod convert;
pub mod engine;
pub mod error;
pub mod guard;
pub mod init;
pub mod input;
pub mod laws;
pub mod matching;
pub mod pattern;
pub mod text;

pub use api::{
    urlpattern_exec, urlpattern_parse, urlpattern_parse_guarded, urlpattern_process_match_input,
    urlpattern_test,
};
pub use error::{ErrorKind, PatternError};
pub use init::{UrlInit, UrlInput};
pub use input::{Inputs, UrlComponents};
pub use matching::{ComponentResult, MatchResult};
pub use pattern::{CompiledPattern, ComponentMatcher, InnerRule, MatchRule};
