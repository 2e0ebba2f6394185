//! A compiled pattern: one matcher for each of the eight URL components.

use crate::text::texts_of;
use vstd::prelude::*;

verus! {

/// How the part of a component between a matcher's fixed prefix and suffix
/// is matched.
#[derive(Clone, Debug, PartialEq, Eq)]
pub enum InnerRule {
    /// The part must be exactly `literal`.
    Literal { literal: String },
    /// The part is captured whole. It must not hold `filter`, and may be
    /// empty only where `allow_empty` says so.
    SingleCapture { filter: Option<char>, allow_empty: bool },
    /// The part is handed to a regular expression, given by its source.
    RegExp { regexp: String },
}

/// The mathematical value of an [`InnerRule`].
pub enum InnerView {
    Literal { literal: Seq<char> },
    SingleCapture { filter: Option<char>, allow_empty: bool },
    RegExp { regexp: Seq<char> },
}

impl View for InnerRule {
    type V = InnerView;

    open spec fn view(&self) -> InnerView {
        match self {
            InnerRule::Literal { literal } => InnerView::Literal { literal: literal@ },
            InnerRule::SingleCapture { filter, allow_empty } => InnerView::SingleCapture {
                filter: *filter,
                allow_empty: *allow_empty,
            },
            InnerRule::RegExp { regexp } => InnerView::RegExp { regexp: regexp@ },
        }
    }
}

/// The matcher of one component: a fixed prefix, a fixed suffix, and a rule
/// for what stands between them.
#[derive(Clone, Debug, PartialEq, Eq)]
pub struct MatchRule {
    pub prefix: String,
    pub suffix: String,
    pub inner: InnerRule,
}

/// The mathematical value of a [`MatchRule`].
pub struct RuleView {
    pub prefix: Seq<char>,
    pub suffix: Seq<char>,
    pub inner: InnerView,
}

impl View for MatchRule {
    type V = RuleView;

    open spec fn view(&self) -> RuleView {
        RuleView { prefix: self.prefix@, suffix: self.suffix@, inner: self.inner@ }
    }
}

/// One compiled component.
#[derive(Clone, Debug, PartialEq, Eq)]
pub struct ComponentMatcher {
    /// The pattern in canonical form.
    pub pattern_string: String,
    /// The source of the regular expression that the whole component
    /// compiles to.
    pub regexp_string: String,
    /// The matcher that decides a match.
    pub matcher: MatchRule,
    /// The names of the capture groups, in the order of the captures.
    pub group_name_list: Vec<String>,
}

/// The mathematical value of a [`ComponentMatcher`].
pub struct ComponentView {
    pub pattern_string: Seq<char>,
    pub regexp_string: Seq<char>,
    pub matcher: RuleView,
    pub group_name_list: Seq<Seq<char>>,
}

impl ComponentView {
    /// No capture name occurs twice.
    pub open spec fn well_formed(self) -> bool {
        self.group_name_list.no_duplicates()
    }
}

impl View for ComponentMatcher {
    type V = ComponentView;

    open spec fn view(&self) -> ComponentView {
        ComponentView {
            pattern_string: self.pattern_string@,
            regexp_string: self.regexp_string@,
            matcher: self.matcher@,
            group_name_list: texts_of(self.group_name_list@),
        }
    }
}

/// A compiled pattern.
#[derive(Clone, Debug, PartialEq, Eq)]
pub struct CompiledPattern {
    pub protocol: ComponentMatcher,
    pub username: ComponentMatcher,
    pub password: ComponentMatcher,
    pub hostname: ComponentMatcher,
    pub port: ComponentMatcher,
    pub pathname: ComponentMatcher,
    pub search: ComponentMatcher,
    pub hash: ComponentMatcher,
    /// Some component holds a regular expression that the pattern's author
    /// wrote.
    pub has_regexp_groups: bool,
}

/// The mathematical value of a [`CompiledPattern`].
pub struct PatternView {
    pub protocol: ComponentView,
    pub username: ComponentView,
    pub password: ComponentView,
    pub hostname: ComponentView,
    pub port: ComponentView,
    pub pathname: ComponentView,
    pub search: ComponentView,
    pub hash: ComponentView,
    pub has_regexp_groups: bool,
}

impl PatternView {
    /// Every component is well formed.
    pub open spec fn well_formed(self) -> bool {
        &&& self.protocol.well_formed()
        &&& self.username.well_formed()
        &&& self.password.well_formed()
        &&& self.hostname.well_formed()
        &&& self.port.well_formed()
        &&& self.pathname.well_formed()
        &&& self.search.well_formed()
        &&& self.hash.well_formed()
    }
}

impl View for CompiledPattern {
    type V = PatternView;

    open spec fn view(&self) -> PatternView {
        PatternView {
            protocol: self.protocol@,
            username: self.username@,
            password: self.password@,
            hostname: self.hostname@,
            port: self.port@,
            pathname: self.pathname@,
            search: self.search@,
            hash: self.hash@,
            has_regexp_groups: self.has_regexp_groups,
        }
    }
}

} // verus!
