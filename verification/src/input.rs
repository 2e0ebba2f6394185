//! A match input resolved into the text of each component.

use crate::init::UrlInput;
use vstd::prelude::*;

verus! {

/// The eight components of a concrete URL, as the matchers are to see them.
#[derive(Clone, Debug, PartialEq, Eq)]
pub struct UrlComponents {
    pub protocol: String,
    pub username: String,
    pub password: String,
    pub hostname: String,
    pub port: String,
    pub pathname: String,
    pub search: String,
    pub hash: String,
}

/// The mathematical value of a [`UrlComponents`].
pub struct ComponentsView {
    pub protocol: Seq<char>,
    pub username: Seq<char>,
    pub password: Seq<char>,
    pub hostname: Seq<char>,
    pub port: Seq<char>,
    pub pathname: Seq<char>,
    pub search: Seq<char>,
    pub hash: Seq<char>,
}

impl View for UrlComponents {
    type V = ComponentsView;

    open spec fn view(&self) -> ComponentsView {
        ComponentsView {
            protocol: self.protocol@,
            username: self.username@,
            password: self.password@,
            hostname: self.hostname@,
            port: self.port@,
            pathname: self.pathname@,
            search: self.search@,
            hash: self.hash@,
        }
    }
}

impl Default for UrlComponents {
    fn default() -> (r: Self)
        ensures
            r.protocol@.len() == 0,
            r.username@.len() == 0,
            r.password@.len() == 0,
            r.hostname@.len() == 0,
            r.port@.len() == 0,
            r.pathname@.len() == 0,
            r.search@.len() == 0,
            r.hash@.len() == 0,
    {
        UrlComponents {
            protocol: String::new(),
            username: String::new(),
            password: String::new(),
            hostname: String::new(),
            port: String::new(),
            pathname: String::new(),
            search: String::new(),
            hash: String::new(),
        }
    }
}

/// What a match was asked of: the input and the base URL, as they came in.
pub type Inputs = (UrlInput, Option<String>);

} // verus!
