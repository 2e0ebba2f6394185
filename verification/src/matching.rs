//! Running a compiled pattern: each component's rule is tried against the
//! whole text of that component, never against a part of it.

use crate::engine::{build_regex, built_regex, capture_groups, regex_captures};
use crate::input::{ComponentsView, UrlComponents};
use crate::pattern::{
    CompiledPattern, ComponentMatcher, ComponentView, InnerRule, InnerView, MatchRule,
    PatternView, RuleView,
};
use crate::text::{
    chars_of, copy_opt_text, found_at, found_view, holds_char, opt_text, opt_texts_of, texts_of,
};
use vstd::prelude::*;

verus! {

/// What stands in `input` between the rule's prefix and its suffix, where
/// `input` begins with the one and ends with the other without the two
/// overlapping.
pub open spec fn middle_of(rule: RuleView, input: Seq<char>) -> Option<Seq<char>> {
    if rule.prefix.len() + rule.suffix.len() <= input.len() && rule.prefix.is_prefix_of(input)
        && rule.suffix.is_suffix_of(input) {
        Some(input.subrange(rule.prefix.len() as int, input.len() - rule.suffix.len()))
    } else {
        None
    }
}

/// The captures of the regular expression with this source in `text`. An
/// empty source stands for an expression that could not be compiled; like a
/// source that the regular-expression engine refuses, it matches nothing.
pub open spec fn regexp_captures(source: Seq<char>, text: Seq<char>) -> Option<
    Seq<Option<Seq<char>>>,
> {
    if source.len() == 0 {
        None
    } else {
        match built_regex(source) {
            Some(regex) => regex_captures(regex, text),
            None => None,
        }
    }
}

/// The captures of an inner rule in the text between prefix and suffix, or
/// `None` where the rule does not accept that text.
pub open spec fn inner_captures(inner: InnerView, middle: Seq<char>) -> Option<
    Seq<Option<Seq<char>>>,
> {
    match inner {
        InnerView::Literal { literal } => if middle == literal {
            Some(Seq::empty())
        } else {
            None
        },
        InnerView::SingleCapture { filter, allow_empty } => if middle.len() == 0 && !allow_empty {
            None
        } else if filter is Some && middle.contains(filter->0) {
            None
        } else {
            Some(seq![Some(middle)])
        },
        InnerView::RegExp { regexp } => regexp_captures(regexp, middle),
    }
}

/// The captures of a rule in a component's text, or `None` where the rule
/// does not match the whole text.
pub open spec fn rule_captures(rule: RuleView, input: Seq<char>) -> Option<
    Seq<Option<Seq<char>>>,
> {
    match middle_of(rule, input) {
        Some(middle) => inner_captures(rule.inner, middle),
        None => None,
    }
}

/// Runs the regular expression with this source on `text`.
pub fn regexp_groups(source: &str, text: &str) -> (r: Option<Vec<Option<String>>>)
    ensures
        found_view(r) == regexp_captures(source@, text@),
{
    if source.is_empty() {
        return None;
    }
    match build_regex(source) {
        Some(regex) => capture_groups(&regex, text),
        None => None,
    }
}

impl MatchRule {
    /// Tries the rule against the whole of `input` and returns what it
    /// captured.
    pub fn matches(&self, input: &str) -> (r: Option<Vec<Option<String>>>)
        ensures
            found_view(r) == rule_captures(self@, input@),
    {
        let text = chars_of(input);
        let prefix = chars_of(self.prefix.as_str());
        let suffix = chars_of(self.suffix.as_str());
        let n: usize = text.len();
        let p: usize = prefix.len();
        let s: usize = suffix.len();
        if n < p || n - p < s {
            return None;
        }
        if !found_at(&text, 0, &prefix) {
            return None;
        }
        if !found_at(&text, n - s, &suffix) {
            return None;
        }
        let end: usize = n - s;
        let ghost middle = input@.subrange(p as int, end as int);
        assert(middle_of(self@, input@) == Some(middle));
        match &self.inner {
            InnerRule::Literal { literal } => {
                let wanted = chars_of(literal.as_str());
                if wanted.len() == end - p && found_at(&text, p, &wanted) {
                    let none: Vec<Option<String>> = Vec::new();
                    assert(opt_texts_of(none@) == Seq::<Option<Seq<char>>>::empty());
                    Some(none)
                } else {
                    None
                }
            },
            InnerRule::SingleCapture { filter, allow_empty } => {
                if end - p == 0 && !*allow_empty {
                    return None;
                }
                match filter {
                    Some(c) => {
                        if holds_char(&text, p, end, *c) {
                            return None;
                        }
                    },
                    None => {},
                }
                let captured = input.substring_char(p, end).to_owned();
                let mut one: Vec<Option<String>> = Vec::new();
                one.push(Some(captured));
                assert(opt_texts_of(one@) == seq![Some(middle)]);
                Some(one)
            },
            InnerRule::RegExp { regexp } => regexp_groups(
                regexp.as_str(),
                input.substring_char(p, end),
            ),
        }
    }
}

/// What one component of a match result says: the text that was tested and
/// each capture group's name with what it captured. A group inside an
/// optional or repeated part that took no part in the match has no value.
#[derive(Clone, Debug, PartialEq, Eq)]
pub struct ComponentResult {
    pub input: String,
    pub groups: Vec<(String, Option<String>)>,
}

/// The mathematical value of a [`ComponentResult`].
pub struct ComponentResultView {
    pub input: Seq<char>,
    pub groups: Seq<(Seq<char>, Option<Seq<char>>)>,
}

/// The value of a list of named captures.
pub open spec fn groups_view(groups: Seq<(String, Option<String>)>) -> Seq<
    (Seq<char>, Option<Seq<char>>),
> {
    Seq::new(groups.len(), |i: int| (groups[i].0@, opt_text(groups[i].1)))
}

impl View for ComponentResult {
    type V = ComponentResultView;

    open spec fn view(&self) -> ComponentResultView {
        ComponentResultView { input: self.input@, groups: groups_view(self.groups@) }
    }
}

/// Names and captures paired in order, as far as both lists reach.
pub open spec fn paired(names: Seq<Seq<char>>, captures: Seq<Option<Seq<char>>>) -> Seq<
    (Seq<char>, Option<Seq<char>>),
> {
    Seq::new(
        if names.len() <= captures.len() {
            names.len()
        } else {
            captures.len()
        },
        |i: int| (names[i], captures[i]),
    )
}

/// Pairs each capture with the name of its group.
pub fn pair_groups(names: &Vec<String>, captures: &Vec<Option<String>>) -> (r: Vec<
    (String, Option<String>),
>)
    ensures
        groups_view(r@) == paired(texts_of(names@), opt_texts_of(captures@)),
{
    let count: usize = if names.len() <= captures.len() {
        names.len()
    } else {
        captures.len()
    };
    let mut groups: Vec<(String, Option<String>)> = Vec::new();
    let mut i: usize = 0;
    while i < count
        invariant
            i <= count,
            count <= names.len(),
            count <= captures.len(),
            groups.len() == i,
            forall|k: int|
                0 <= k < i ==> groups@[k].0@ == names@[k]@ && opt_text(groups@[k].1) == opt_text(
                    captures@[k],
                ),
        decreases count - i,
    {
        let name = names[i].clone();
        let value = copy_opt_text(&captures[i]);
        groups.push((name, value));
        i += 1;
    }
    assert(groups_view(groups@) =~= paired(texts_of(names@), opt_texts_of(captures@)));
    groups
}

/// What a component's matcher finds in `input`.
pub open spec fn component_result(component: ComponentView, input: Seq<char>) -> Option<
    ComponentResultView,
> {
    match rule_captures(component.matcher, input) {
        Some(captures) => Some(
            ComponentResultView { input, groups: paired(component.group_name_list, captures) },
        ),
        None => None,
    }
}

impl ComponentMatcher {
    /// Tells whether the component matches the whole of `input`.
    pub fn test(&self, input: &str) -> (r: bool)
        ensures
            r == component_result(self@, input@).is_some(),
    {
        self.matcher.matches(input).is_some()
    }

    /// Matches the component against the whole of `input`.
    pub fn exec(&self, input: &str) -> (r: Option<ComponentResult>)
        ensures
            match r {
                Some(found) => component_result(self@, input@) == Some(found@),
                None => component_result(self@, input@) is None,
            },
    {
        match self.matcher.matches(input) {
            Some(captures) => Some(
                ComponentResult {
                    input: input.to_owned(),
                    groups: pair_groups(&self.group_name_list, &captures),
                },
            ),
            None => None,
        }
    }
}

/// The result of a match: one entry for each component.
#[derive(Clone, Debug, PartialEq, Eq)]
pub struct MatchResult {
    pub protocol: ComponentResult,
    pub username: ComponentResult,
    pub password: ComponentResult,
    pub hostname: ComponentResult,
    pub port: ComponentResult,
    pub pathname: ComponentResult,
    pub search: ComponentResult,
    pub hash: ComponentResult,
}

/// The mathematical value of a [`MatchResult`].
pub struct MatchResultView {
    pub protocol: ComponentResultView,
    pub username: ComponentResultView,
    pub password: ComponentResultView,
    pub hostname: ComponentResultView,
    pub port: ComponentResultView,
    pub pathname: ComponentResultView,
    pub search: ComponentResultView,
    pub hash: ComponentResultView,
}

impl View for MatchResult {
    type V = MatchResultView;

    open spec fn view(&self) -> MatchResultView {
        MatchResultView {
            protocol: self.protocol@,
            username: self.username@,
            password: self.password@,
            hostname: self.hostname@,
            port: self.port@,
            pathname: self.pathname@,
            search: self.search@,
            hash: self.hash@,
        }
    }
}

/// All eight components match.
pub open spec fn pattern_matches(pattern: PatternView, input: ComponentsView) -> bool {
    &&& component_result(pattern.protocol, input.protocol) is Some
    &&& component_result(pattern.username, input.username) is Some
    &&& component_result(pattern.password, input.password) is Some
    &&& component_result(pattern.hostname, input.hostname) is Some
    &&& component_result(pattern.port, input.port) is Some
    &&& component_result(pattern.pathname, input.pathname) is Some
    &&& component_result(pattern.search, input.search) is Some
    &&& component_result(pattern.hash, input.hash) is Some
}

/// The result of matching a pattern against resolved components: every
/// component's result where all eight match, and nothing where one does
/// not.
pub open spec fn pattern_result(pattern: PatternView, input: ComponentsView) -> Option<
    MatchResultView,
> {
    if pattern_matches(pattern, input) {
        Some(
            MatchResultView {
                protocol: component_result(pattern.protocol, input.protocol)->0,
                username: component_result(pattern.username, input.username)->0,
                password: component_result(pattern.password, input.password)->0,
                hostname: component_result(pattern.hostname, input.hostname)->0,
                port: component_result(pattern.port, input.port)->0,
                pathname: component_result(pattern.pathname, input.pathname)->0,
                search: component_result(pattern.search, input.search)->0,
                hash: component_result(pattern.hash, input.hash)->0,
            },
        )
    } else {
        None
    }
}

impl CompiledPattern {
    /// Tells whether every component of `input` matches.
    pub fn test(&self, input: &UrlComponents) -> (r: bool)
        ensures
            r == pattern_matches(self@, input@),
    {
        self.protocol.test(input.protocol.as_str()) && self.username.test(
            input.username.as_str(),
        ) && self.password.test(input.password.as_str()) && self.hostname.test(
            input.hostname.as_str(),
        ) && self.port.test(input.port.as_str()) && self.pathname.test(input.pathname.as_str())
            && self.search.test(input.search.as_str()) && self.hash.test(input.hash.as_str())
    }

    /// Matches the components of `input` in their fixed order and stops at
    /// the first that does not match.
    pub fn exec(&self, input: &UrlComponents) -> (r: Option<MatchResult>)
        ensures
            match r {
                Some(found) => pattern_result(self@, input@) == Some(found@),
                None => pattern_result(self@, input@) is None,
            },
    {
        let protocol = match self.protocol.exec(input.protocol.as_str()) {
            Some(found) => found,
            None => { return None; },
        };
        let username = match self.username.exec(input.username.as_str()) {
            Some(found) => found,
            None => { return None; },
        };
        let password = match self.password.exec(input.password.as_str()) {
            Some(found) => found,
            None => { return None; },
        };
        let hostname = match self.hostname.exec(input.hostname.as_str()) {
            Some(found) => found,
            None => { return None; },
        };
        let port = match self.port.exec(input.port.as_str()) {
            Some(found) => found,
            None => { return None; },
        };
        let pathname = match self.pathname.exec(input.pathname.as_str()) {
            Some(found) => found,
            None => { return None; },
        };
        let search = match self.search.exec(input.search.as_str()) {
            Some(found) => found,
            None => { return None; },
        };
        let hash = match self.hash.exec(input.hash.as_str()) {
            Some(found) => found,
            None => { return None; },
        };
        Some(MatchResult { protocol, username, password, hostname, port, pathname, search, hash })
    }
}

} // verus!
