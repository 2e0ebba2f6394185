//! What a caller hands in: a pattern or a URL as one string, or component by
//! component.

use crate::guard::{brackets_guarded, is_guarded};
use crate::text::{chars_of, copy_opt_text, opt_text};
use vstd::prelude::*;

verus! {

/// The eight components of a URL, each one optional, and an optional base
/// URL. In a pattern each component holds pattern text; in a match input it
/// holds the component's own text.
#[derive(Debug, PartialEq, Eq)]
pub struct UrlInit {
    pub protocol: Option<String>,
    pub username: Option<String>,
    pub password: Option<String>,
    pub hostname: Option<String>,
    pub port: Option<String>,
    pub pathname: Option<String>,
    pub search: Option<String>,
    pub hash: Option<String>,
    pub base_url: Option<String>,
}

/// The mathematical value of a [`UrlInit`].
pub struct InitView {
    pub protocol: Option<Seq<char>>,
    pub username: Option<Seq<char>>,
    pub password: Option<Seq<char>>,
    pub hostname: Option<Seq<char>>,
    pub port: Option<Seq<char>>,
    pub pathname: Option<Seq<char>>,
    pub search: Option<Seq<char>>,
    pub hash: Option<Seq<char>>,
    pub base_url: Option<Seq<char>>,
}

impl View for UrlInit {
    type V = InitView;

    open spec fn view(&self) -> InitView {
        InitView {
            protocol: opt_text(self.protocol),
            username: opt_text(self.username),
            password: opt_text(self.password),
            hostname: opt_text(self.hostname),
            port: opt_text(self.port),
            pathname: opt_text(self.pathname),
            search: opt_text(self.search),
            hash: opt_text(self.hash),
            base_url: opt_text(self.base_url),
        }
    }
}

impl InitView {
    /// No component is given, and no base URL.
    pub open spec fn unset() -> InitView {
        InitView {
            protocol: None,
            username: None,
            password: None,
            hostname: None,
            port: None,
            pathname: None,
            search: None,
            hash: None,
            base_url: None,
        }
    }
}

impl Default for UrlInit {
    fn default() -> (r: Self)
        ensures
            r@ == InitView::unset(),
    {
        UrlInit {
            protocol: None,
            username: None,
            password: None,
            hostname: None,
            port: None,
            pathname: None,
            search: None,
            hash: None,
            base_url: None,
        }
    }
}

impl Clone for UrlInit {
    fn clone(&self) -> (r: Self)
        ensures
            r@ == self@,
    {
        UrlInit {
            protocol: copy_opt_text(&self.protocol),
            username: copy_opt_text(&self.username),
            password: copy_opt_text(&self.password),
            hostname: copy_opt_text(&self.hostname),
            port: copy_opt_text(&self.port),
            pathname: copy_opt_text(&self.pathname),
            search: copy_opt_text(&self.search),
            hash: copy_opt_text(&self.hash),
            base_url: copy_opt_text(&self.base_url),
        }
    }
}

/// The two shapes of an input.
#[derive(Debug, PartialEq, Eq)]
pub enum UrlInput {
    /// One string: a whole pattern, or a whole URL.
    String(String),
    /// The components, one by one.
    Init(UrlInit),
}

/// The mathematical value of a [`UrlInput`].
pub enum InputView {
    String(Seq<char>),
    Init(InitView),
}

impl View for UrlInput {
    type V = InputView;

    open spec fn view(&self) -> InputView {
        match self {
            UrlInput::String(s) => InputView::String(s@),
            UrlInput::Init(init) => InputView::Init(init@),
        }
    }
}

impl Clone for UrlInput {
    fn clone(&self) -> (r: Self)
        ensures
            r@ == self@,
    {
        match self {
            UrlInput::String(s) => UrlInput::String(s.clone()),
            UrlInput::Init(init) => UrlInput::Init(init.clone()),
        }
    }
}

/// A pattern input that the engine can take: given as one string, its
/// closing brackets pass the scan of [`crate::guard`]. Components given one
/// by one are always taken.
pub open spec fn admissible(input: InputView) -> bool {
    match input {
        InputView::String(text) => brackets_guarded(text),
        InputView::Init(_) => true,
    }
}

impl UrlInput {
    /// Tells whether this input can be compiled as a pattern.
    pub fn is_admissible(&self) -> (r: bool)
        ensures
            r == admissible(self@),
    {
        match self {
            UrlInput::String(s) => {
                let text = chars_of(s.as_str());
                is_guarded(&text)
            },
            UrlInput::Init(_) => true,
        }
    }
}

} // verus!
