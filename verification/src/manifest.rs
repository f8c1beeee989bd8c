//! The manifest model: profiles nested to any depth, each with its own test
//! cases, and the checks that turn raw manifest records into that model.

use vstd::prelude::*;
use vstd::string::*;

use crate::collect::{collected, collected_error_stays, collected_step};
use crate::outcome::{outcome_named, ExpectedOutcome};
use crate::text::{copy_optional, text_of};

verus! {

/// One test of a manifest.
#[derive(Debug)]
pub struct TestCase {
    /// The document, relative to the base of the enclosing profile.
    pub uri: String,
    /// The identifier used in diagnostics.
    pub id: String,
    /// Which entities the test depends on, if the manifest says so.
    pub entities: Option<String>,
    /// The sections of the recommendation that the test refers to.
    pub sections: String,
    /// What the manifest expects of the document.
    pub expected_outcome: ExpectedOutcome,
    /// The expected canonical output, if the manifest names one.
    pub output: Option<String>,
    /// The free-text description.
    pub description: String,
}

/// A test case as plain values.
pub struct TestCaseView {
    pub uri: Seq<char>,
    pub id: Seq<char>,
    pub entities: Option<Seq<char>>,
    pub sections: Seq<char>,
    pub expected_outcome: ExpectedOutcome,
    pub output: Option<Seq<char>>,
    pub description: Seq<char>,
}

impl View for TestCase {
    type V = TestCaseView;

    open spec fn view(&self) -> TestCaseView {
        TestCaseView {
            uri: self.uri@,
            id: self.id@,
            entities: text_of(self.entities),
            sections: self.sections@,
            expected_outcome: self.expected_outcome,
            output: text_of(self.output),
            description: self.description@,
        }
    }
}

impl TestCase {
    /// A copy of the test case.
    pub fn duplicate(&self) -> (copy: TestCase)
        ensures
            copy == *self,
    {
        TestCase {
            uri: self.uri.clone(),
            id: self.id.clone(),
            entities: copy_optional(&self.entities),
            sections: self.sections.clone(),
            expected_outcome: self.expected_outcome,
            output: copy_optional(&self.output),
            description: self.description.clone(),
        }
    }
}

/// One profile of a manifest: its own test cases, then its nested profiles.
#[derive(Debug)]
pub struct ManifestNode {
    /// The profile's label; descriptive only.
    pub profile: String,
    /// The base directory of the profile's documents, where it overrides
    /// that of the enclosing profile.
    pub base: Option<String>,
    /// The profile's own test cases, in document order.
    pub tests: Vec<TestCase>,
    /// The nested profiles, in document order.
    pub children: Vec<ManifestNode>,
}

/// A profile as plain values.
pub struct NodeView {
    pub profile: Seq<char>,
    pub base: Option<Seq<char>>,
    pub tests: Seq<TestCaseView>,
    pub children: Seq<NodeView>,
}

/// The test cases of a list as plain values.
pub open spec fn case_views(cases: Seq<TestCase>) -> Seq<TestCaseView> {
    Seq::new(cases.len(), |i: int| cases[i]@)
}

/// A profile as plain values, with everything nested in it.
pub open spec fn node_view(node: ManifestNode) -> NodeView
    decreases node,
{
    NodeView {
        profile: node.profile@,
        base: text_of(node.base),
        tests: case_views(node.tests@),
        children: node_views(node.children@),
    }
}

/// The profiles of a list as plain values. (The sequence is read within
/// its range only; the other branch serves the termination argument.)
pub open spec fn node_views(nodes: Seq<ManifestNode>) -> Seq<NodeView>
    decreases nodes,
{
    Seq::new(
        nodes.len(),
        |i: int|
            if 0 <= i < nodes.len() {
                node_view(nodes[i])
            } else {
                arbitrary()
            },
    )
}

impl View for ManifestNode {
    type V = NodeView;

    open spec fn view(&self) -> NodeView {
        node_view(*self)
    }
}

/// The attributes that a manifest element must carry.
#[derive(Clone, Copy, Debug, PartialEq, Eq, Structural)]
pub enum Attribute {
    /// `URI` of a test.
    Uri,
    /// `ID` of a test.
    Id,
    /// `SECTIONS` of a test.
    Sections,
    /// `TYPE` of a test.
    Type,
    /// `PROFILE` of a group of tests.
    Profile,
}

impl Attribute {
    /// The attribute's name as a manifest writes it.
    pub open spec fn name_text(self) -> Seq<char> {
        match self {
            Attribute::Uri => "URI"@,
            Attribute::Id => "ID"@,
            Attribute::Sections => "SECTIONS"@,
            Attribute::Type => "TYPE"@,
            Attribute::Profile => "PROFILE"@,
        }
    }

    /// The attribute's name as a manifest writes it.
    pub fn name(self) -> (text: &'static str)
        ensures
            text@ == self.name_text(),
    {
        match self {
            Attribute::Uri => "URI",
            Attribute::Id => "ID",
            Attribute::Sections => "SECTIONS",
            Attribute::Type => "TYPE",
            Attribute::Profile => "PROFILE",
        }
    }
}

/// Why a manifest is refused.
#[derive(Debug)]
pub enum ManifestError {
    /// An element lacks a required attribute.
    MissingAttribute(Attribute),
    /// A test's `TYPE` is none of the four lexical values.
    UnknownOutcome(String),
}

/// A manifest error as plain values.
pub enum ManifestErrorView {
    MissingAttribute(Attribute),
    UnknownOutcome(Seq<char>),
}

impl View for ManifestError {
    type V = ManifestErrorView;

    open spec fn view(&self) -> ManifestErrorView {
        match self {
            ManifestError::MissingAttribute(attribute) => ManifestErrorView::MissingAttribute(
                *attribute,
            ),
            ManifestError::UnknownOutcome(label) => ManifestErrorView::UnknownOutcome(label@),
        }
    }
}

/// What tells of a manifest error: the attribute that is missing, or the
/// `TYPE` that is not known.
pub open spec fn manifest_error_text(error: ManifestErrorView) -> Seq<char> {
    match error {
        ManifestErrorView::MissingAttribute(attribute) => "missing attribute "@
            + attribute.name_text(),
        ManifestErrorView::UnknownOutcome(label) => "unknown test type "@ + label,
    }
}

impl ManifestError {
    /// What tells of this error.
    pub fn message(&self) -> (text: String)
        ensures
            text@ == manifest_error_text(self@),
    {
        match self {
            ManifestError::MissingAttribute(attribute) => {
                let mut text = String::from_str("missing attribute ");
                text.append(attribute.name());
                text
            },
            ManifestError::UnknownOutcome(label) => {
                let mut text = String::from_str("unknown test type ");
                text.append(label.as_str());
                text
            },
        }
    }
}

/// A test element as it was read, before any check: each attribute is
/// there or not.
#[derive(Debug)]
pub struct RawTestCase {
    pub uri: Option<String>,
    pub id: Option<String>,
    pub entities: Option<String>,
    pub sections: Option<String>,
    pub outcome: Option<String>,
    pub output: Option<String>,
    pub description: String,
}

/// A group of tests as it was read, before any check.
#[derive(Debug)]
pub struct RawNode {
    pub profile: Option<String>,
    pub base: Option<String>,
    pub tests: Vec<RawTestCase>,
    pub children: Vec<RawNode>,
}

/// The test case that a raw test element stands for, or why it stands for
/// none: a `TYPE` that is none of the four lexical values, else the first
/// of `URI`, `ID`, `SECTIONS`, `TYPE` that is absent.
pub open spec fn checked_case(raw: RawTestCase) -> Result<TestCaseView, ManifestErrorView> {
    if raw.outcome is Some && outcome_named(raw.outcome->0@) is None {
        Err(ManifestErrorView::UnknownOutcome(raw.outcome->0@))
    } else if raw.uri is None {
        Err(ManifestErrorView::MissingAttribute(Attribute::Uri))
    } else if raw.id is None {
        Err(ManifestErrorView::MissingAttribute(Attribute::Id))
    } else if raw.sections is None {
        Err(ManifestErrorView::MissingAttribute(Attribute::Sections))
    } else if raw.outcome is None {
        Err(ManifestErrorView::MissingAttribute(Attribute::Type))
    } else {
        Ok(
            TestCaseView {
                uri: raw.uri->0@,
                id: raw.id->0@,
                entities: text_of(raw.entities),
                sections: raw.sections->0@,
                expected_outcome: outcome_named(raw.outcome->0@)->0,
                output: text_of(raw.output),
                description: raw.description@,
            },
        )
    }
}

/// The test cases of a list of raw test elements, in order, or the error of
/// the first element that is refused.
pub open spec fn checked_cases(raws: Seq<RawTestCase>) -> Result<
    Seq<TestCaseView>,
    ManifestErrorView,
> {
    collected(Seq::new(raws.len(), |i: int| checked_case(raws[i])))
}

/// The profile that a raw group stands for, or why it stands for none: a
/// missing `PROFILE`, else the first error among its own tests, else the
/// first error among its nested groups, each taken in document order.
pub open spec fn checked_node(raw: RawNode) -> Result<NodeView, ManifestErrorView>
    decreases raw,
{
    if raw.profile is None {
        Err(ManifestErrorView::MissingAttribute(Attribute::Profile))
    } else {
        match checked_cases(raw.tests@) {
            Err(error) => Err(error),
            Ok(tests) => match collected(checked_each(raw.children@)) {
                Err(error) => Err(error),
                Ok(children) => Ok(
                    NodeView { profile: raw.profile->0@, base: text_of(raw.base), tests, children },
                ),
            },
        }
    }
}

/// What each raw group of a list stands for. (The sequence is read within
/// its range only; the other branch serves the termination argument.)
pub open spec fn checked_each(raws: Seq<RawNode>) -> Seq<Result<NodeView, ManifestErrorView>>
    decreases raws,
{
    Seq::new(
        raws.len(),
        |i: int|
            if 0 <= i < raws.len() {
                checked_node(raws[i])
            } else {
                arbitrary()
            },
    )
}

/// The profile that a manifest without a root group stands for: its tests
/// under an empty label, with no base of its own and nothing nested.
pub open spec fn checked_flat(raws: Seq<RawTestCase>) -> Result<NodeView, ManifestErrorView> {
    match checked_cases(raws) {
        Err(error) => Err(error),
        Ok(tests) => Ok(
            NodeView { profile: Seq::empty(), base: None, tests, children: Seq::empty() },
        ),
    }
}

/// A built test case, or its error, as plain values.
pub open spec fn case_outcome(built: Result<TestCase, ManifestError>) -> Result<
    TestCaseView,
    ManifestErrorView,
> {
    match built {
        Ok(case) => Ok(case@),
        Err(error) => Err(error@),
    }
}

/// A built profile, or its error, as plain values.
pub open spec fn node_outcome(built: Result<ManifestNode, ManifestError>) -> Result<
    NodeView,
    ManifestErrorView,
> {
    match built {
        Ok(node) => Ok(node@),
        Err(error) => Err(error@),
    }
}

/// Checks one raw test element.
pub fn build_case(raw: &RawTestCase) -> (built: Result<TestCase, ManifestError>)
    ensures
        case_outcome(built) == checked_case(*raw),
{
    let expected_outcome = match &raw.outcome {
        None => None,
        Some(label) => match ExpectedOutcome::from_label(label.as_str()) {
            None => { return Err(ManifestError::UnknownOutcome(label.clone())); },
            Some(outcome) => Some(outcome),
        },
    };
    let uri = match &raw.uri {
        None => { return Err(ManifestError::MissingAttribute(Attribute::Uri)); },
        Some(uri) => uri.clone(),
    };
    let id = match &raw.id {
        None => { return Err(ManifestError::MissingAttribute(Attribute::Id)); },
        Some(id) => id.clone(),
    };
    let sections = match &raw.sections {
        None => { return Err(ManifestError::MissingAttribute(Attribute::Sections)); },
        Some(sections) => sections.clone(),
    };
    match expected_outcome {
        None => Err(ManifestError::MissingAttribute(Attribute::Type)),
        Some(expected_outcome) => Ok(
            TestCase {
                uri,
                id,
                entities: copy_optional(&raw.entities),
                sections,
                expected_outcome,
                output: copy_optional(&raw.output),
                description: raw.description.clone(),
            },
        ),
    }
}

/// Checks a list of raw test elements, in order, and stops at the first
/// one that is refused.
pub fn build_cases(raws: &Vec<RawTestCase>) -> (built: Result<Vec<TestCase>, ManifestError>)
    ensures
        match built {
            Ok(cases) => checked_cases(raws@) == Ok::<Seq<TestCaseView>, ManifestErrorView>(
                case_views(cases@),
            ),
            Err(error) => checked_cases(raws@) == Err::<Seq<TestCaseView>, ManifestErrorView>(
                error@,
            ),
        },
{
    let ghost checks = Seq::new(raws@.len(), |i: int| checked_case(raws@[i]));
    let mut cases: Vec<TestCase> = Vec::new();
    let mut done: usize = 0;
    proof {
        assert(checks.take(0) =~= Seq::empty());
        assert(case_views(cases@) =~= Seq::empty());
    }
    while done < raws.len()
        invariant
            done <= raws.len(),
            checks == Seq::new(raws@.len(), |i: int| checked_case(raws@[i])),
            collected(checks.take(done as int)) == Ok::<Seq<TestCaseView>, ManifestErrorView>(
                case_views(cases@),
            ),
        decreases raws.len() - done,
    {
        proof {
            collected_step(checks, done as int);
        }
        match build_case(&raws[done]) {
            Err(error) => {
                proof {
                    collected_error_stays(checks, done + 1);
                }
                return Err(error);
            },
            Ok(case) => {
                let ghost before = case_views(cases@);
                cases.push(case);
                assert(case_views(cases@) =~= before.push(case@));
            },
        }
        done += 1;
    }
    proof {
        assert(checks.take(done as int) =~= checks);
    }
    Ok(cases)
}

/// Builds the profile of a manifest that lists its tests without a root
/// group.
pub fn build_flat(raws: &Vec<RawTestCase>) -> (built: Result<ManifestNode, ManifestError>)
    ensures
        node_outcome(built) == checked_flat(raws@),
{
    match build_cases(raws) {
        Err(error) => Err(error),
        Ok(tests) => {
            let node = ManifestNode {
                profile: String::new(),
                base: None,
                tests,
                children: Vec::new(),
            };
            assert(node@.children =~= Seq::empty());
            Ok(node)
        },
    }
}

/// Builds the profile that a raw group stands for, with everything nested
/// in it, and stops at the first element that is refused.
pub fn build_node(raw: &RawNode) -> (built: Result<ManifestNode, ManifestError>)
    ensures
        node_outcome(built) == checked_node(*raw),
    decreases raw,
{
    let profile = match &raw.profile {
        None => { return Err(ManifestError::MissingAttribute(Attribute::Profile)); },
        Some(profile) => profile.clone(),
    };
    let tests = match build_cases(&raw.tests) {
        Err(error) => { return Err(error); },
        Ok(tests) => tests,
    };
    let ghost checks = checked_each(raw.children@);
    let mut children: Vec<ManifestNode> = Vec::new();
    let mut done: usize = 0;
    proof {
        assert(checks.take(0) =~= Seq::empty());
        assert(node_views(children@) =~= Seq::empty());
    }
    while done < raw.children.len()
        invariant
            done <= raw.children.len(),
            checks == checked_each(raw.children@),
            raw.profile is Some,
            checked_cases(raw.tests@) is Ok,
            collected(checks.take(done as int)) == Ok::<Seq<NodeView>, ManifestErrorView>(
                node_views(children@),
            ),
        decreases raw.children.len() - done,
    {
        proof {
            collected_step(checks, done as int);
        }
        assert(checks[done as int] == checked_node(raw.children@[done as int]));
        match build_node(&raw.children[done]) {
            Err(error) => {
                proof {
                    collected_error_stays(checks, done + 1);
                }
                return Err(error);
            },
            Ok(child) => {
                let ghost before = node_views(children@);
                children.push(child);
                assert(node_views(children@) =~= before.push(child@));
            },
        }
        done += 1;
    }
    proof {
        assert(checks.take(done as int) =~= checks);
    }
    Ok(ManifestNode { profile, base: copy_optional(&raw.base), tests, children })
}

} // verus!
