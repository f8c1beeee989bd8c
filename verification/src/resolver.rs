//! Resolving a manifest: every test case of every profile, paired with the
//! base directory that its profile is read against.

use vstd::prelude::*;
use vstd::string::*;

use crate::manifest::{ManifestNode, NodeView, TestCase, TestCaseView};
use crate::paths::{join_path, joined};

verus! {

/// A test case with the base directory of its profile.
#[derive(Debug)]
pub struct ResolvedCase {
    /// The effective base of the profile that holds the test case.
    pub base: String,
    /// The test case.
    pub case: TestCase,
}

/// A resolved test case as plain values.
pub struct ResolvedView {
    pub base: Seq<char>,
    pub case: TestCaseView,
}

impl View for ResolvedCase {
    type V = ResolvedView;

    open spec fn view(&self) -> ResolvedView {
        ResolvedView { base: self.base@, case: self.case@ }
    }
}

impl ResolvedView {
    /// The document that the test case names: its URI read against the base.
    pub open spec fn document_path(self) -> Seq<char> {
        joined(self.base, self.case.uri)
    }
}

impl ResolvedCase {
    /// The document that the test case names: its URI read against the base.
    pub fn document_path(&self) -> (path: String)
        ensures
            path@ == self@.document_path(),
    {
        join_path(self.base.as_str(), self.case.uri.as_str())
    }
}

/// The resolved cases of a list as plain values.
pub open spec fn resolved_views(cases: Seq<ResolvedCase>) -> Seq<ResolvedView> {
    Seq::new(cases.len(), |i: int| cases[i]@)
}

/// The base that a profile's documents are read against: its own override
/// where it has one, else the base of the enclosing profile.
pub open spec fn effective_base(node: NodeView, parent_base: Seq<char>) -> Seq<char> {
    match node.base {
        Some(base) => base,
        None => parent_base,
    }
}

/// Each test case of a list, paired with one base.
pub open spec fn paired(tests: Seq<TestCaseView>, base: Seq<char>) -> Seq<ResolvedView> {
    Seq::new(tests.len(), |i: int| ResolvedView { base, case: tests[i] })
}

/// Every test case below a profile, depth first in document order: the
/// profile's own test cases with its effective base, then those of each
/// nested profile, which inherits that base.
pub open spec fn resolved(node: NodeView, parent_base: Seq<char>) -> Seq<ResolvedView>
    decreases node,
{
    let base = effective_base(node, parent_base);
    paired(node.tests, base) + resolved_each(node.children, base)
}

/// Every test case below the profiles of a list, one profile after the
/// other, all read against the same enclosing base.
pub open spec fn resolved_each(nodes: Seq<NodeView>, base: Seq<char>) -> Seq<ResolvedView>
    decreases nodes,
{
    if nodes.len() == 0 {
        Seq::empty()
    } else {
        resolved_each(nodes.drop_last(), base) + resolved(nodes.last(), base)
    }
}

/// The number of test cases below a profile.
pub open spec fn case_count(node: NodeView) -> nat
    decreases node,
{
    node.tests.len() + case_count_each(node.children)
}

/// The number of test cases below the profiles of a list.
pub open spec fn case_count_each(nodes: Seq<NodeView>) -> nat
    decreases nodes,
{
    if nodes.len() == 0 {
        0
    } else {
        case_count_each(nodes.drop_last()) + case_count(nodes.last())
    }
}

/// The profile that is reached from `root` by going, at each step of
/// `path`, to the nested profile of that index; `None` where an index
/// names no nested profile.
pub open spec fn node_at(root: NodeView, path: Seq<int>) -> Option<NodeView>
    decreases path.len(),
{
    if path.len() == 0 {
        Some(root)
    } else if 0 <= path[0] < root.children.len() {
        node_at(root.children[path[0]], path.skip(1))
    } else {
        None
    }
}

/// The effective base of the profile that `path` reaches from `root`,
/// where `root` itself is read against `parent_base`.
pub open spec fn base_at(root: NodeView, parent_base: Seq<char>, path: Seq<int>) -> Seq<char>
    decreases path.len(),
{
    let own = effective_base(root, parent_base);
    if path.len() > 0 && 0 <= path[0] < root.children.len() {
        base_at(root.children[path[0]], own, path.skip(1))
    } else {
        own
    }
}

/// Where, among the resolved cases of `root`, the own test cases of the
/// profile that `path` reaches begin.
pub open spec fn offset_at(root: NodeView, path: Seq<int>) -> int
    decreases path.len(),
{
    if path.len() > 0 && 0 <= path[0] < root.children.len() {
        root.tests.len() + case_count_each(root.children.take(path[0])) + offset_at(
            root.children[path[0]],
            path.skip(1),
        )
    } else {
        0
    }
}

/// Appends every test case below `node` to `cases`.
fn resolve_into(node: &ManifestNode, parent_base: &str, cases: &mut Vec<ResolvedCase>)
    ensures
        resolved_views(final(cases)@) == resolved_views(old(cases)@) + resolved(
            node@,
            parent_base@,
        ),
    decreases node,
{
    let ghost start = resolved_views(cases@);
    let base: &str = match &node.base {
        Some(own) => own.as_str(),
        None => parent_base,
    };
    assert(base@ == effective_base(node@, parent_base@));
    let mut i: usize = 0;
    assert(paired(node@.tests.take(0), base@) =~= Seq::empty());
    assert(resolved_views(cases@) =~= start + paired(node@.tests.take(0), base@));
    while i < node.tests.len()
        invariant
            i <= node.tests.len(),
            node@.tests.len() == node.tests@.len(),
            forall|k: int| 0 <= k < node.tests@.len() ==> node@.tests[k] == node.tests@[k]@,
            resolved_views(cases@) == start + paired(node@.tests.take(i as int), base@),
        decreases node.tests.len() - i,
    {
        let ghost before = resolved_views(cases@);
        let entry = ResolvedCase { base: String::from_str(base), case: node.tests[i].duplicate() };
        cases.push(entry);
        proof {
            assert(resolved_views(cases@) =~= before.push(entry@));
            assert(paired(node@.tests.take(i + 1), base@) =~= paired(
                node@.tests.take(i as int),
                base@,
            ).push(entry@));
        }
        i += 1;
    }
    assert(node@.tests.take(i as int) =~= node@.tests);
    let mut j: usize = 0;
    assert(node@.children.take(0) =~= Seq::empty());
    while j < node.children.len()
        invariant
            j <= node.children.len(),
            node@.children.len() == node.children@.len(),
            forall|k: int| 0 <= k < node.children@.len() ==> node@.children[k] == node.children@[k]@,
            resolved_views(cases@) == start + paired(node@.tests, base@) + resolved_each(
                node@.children.take(j as int),
                base@,
            ),
        decreases node.children.len() - j,
    {
        resolve_into(&node.children[j], base, cases);
        proof {
            let longer = node@.children.take(j + 1);
            assert(longer.drop_last() =~= node@.children.take(j as int));
            assert(longer.last() == node.children@[j as int]@);
        }
        j += 1;
    }
    assert(node@.children.take(j as int) =~= node@.children);
}

/// Resolves a manifest: every test case below `root`, depth first in
/// document order, each with the effective base of its profile. The root
/// is read against `manifest_dir`, the directory that holds the manifest.
pub fn resolve(root: &ManifestNode, manifest_dir: &str) -> (cases: Vec<ResolvedCase>)
    ensures
        resolved_views(cases@) == resolved(root@, manifest_dir@),
{
    let mut cases: Vec<ResolvedCase> = Vec::new();
    assert(resolved_views(cases@) =~= Seq::empty());
    resolve_into(root, manifest_dir, &mut cases);
    cases
}

/// A profile without an override is read against the base of the profile
/// that encloses it, and the root against the manifest's directory; a
/// profile with an override is read against its own.
pub proof fn base_is_inherited_unless_overridden(node: NodeView, parent_base: Seq<char>)
    ensures
        node.base is None ==> effective_base(node, parent_base) == parent_base,
        node.base is Some ==> effective_base(node, parent_base) == node.base->0,
{
}

/// The resolved cases of a profile start with its own test cases, in
/// order, each with the profile's effective base, and each names the
/// document that its URI gives against that base.
pub proof fn own_cases_come_first(node: NodeView, parent_base: Seq<char>, i: int)
    requires
        0 <= i < node.tests.len(),
    ensures
        i < resolved(node, parent_base).len(),
        resolved(node, parent_base)[i].case == node.tests[i],
        resolved(node, parent_base)[i].base == effective_base(node, parent_base),
        resolved(node, parent_base)[i].document_path() == joined(
            effective_base(node, parent_base),
            node.tests[i].uri,
        ),
{
}

/// Resolving a list of profiles is resolving its parts one after the other.
pub proof fn resolved_each_splits(first: Seq<NodeView>, second: Seq<NodeView>, base: Seq<char>)
    ensures
        resolved_each(first + second, base) == resolved_each(first, base) + resolved_each(
            second,
            base,
        ),
    decreases second.len(),
{
    if second.len() == 0 {
        assert(first + second =~= first);
        assert(resolved_each(first, base) + resolved_each(second, base) =~= resolved_each(
            first,
            base,
        ));
    } else {
        let whole = first + second;
        assert(whole.drop_last() =~= first + second.drop_last());
        assert(whole.last() == second.last());
        resolved_each_splits(first, second.drop_last(), base);
        assert(resolved_each(whole, base) =~= resolved_each(first, base) + resolved_each(
            second,
            base,
        ));
    }
}

/// Nothing leaks between siblings: among the profiles of a list, the part
/// that one of them contributes is what that profile resolves to against
/// the enclosing base, whatever stands before or after it.
pub proof fn sibling_is_resolved_alone(nodes: Seq<NodeView>, at: int, base: Seq<char>)
    requires
        0 <= at < nodes.len(),
    ensures
        resolved_each(nodes, base) == resolved_each(nodes.take(at), base) + resolved(
            nodes[at],
            base,
        ) + resolved_each(nodes.skip(at + 1), base),
{
    let one = seq![nodes[at]];
    assert(one.drop_last() =~= Seq::empty());
    assert(one.last() == nodes[at]);
    assert(resolved_each(one.drop_last(), base) =~= Seq::empty());
    assert(resolved_each(one, base) =~= resolved(nodes[at], base));
    assert(nodes =~= nodes.take(at) + one + nodes.skip(at + 1));
    resolved_each_splits(nodes.take(at) + one, nodes.skip(at + 1), base);
    resolved_each_splits(nodes.take(at), one, base);
}

/// At any depth, the effective base of a nested profile is its own
/// override where it has one, else the effective base of the profile that
/// encloses it.
pub proof fn base_at_any_depth(root: NodeView, parent_base: Seq<char>, path: Seq<int>, child: int)
    requires
        node_at(root, path.push(child)) is Some,
    ensures
        node_at(root, path) is Some,
        0 <= child < node_at(root, path)->0.children.len(),
        node_at(root, path.push(child)) == Some(node_at(root, path)->0.children[child]),
        base_at(root, parent_base, path.push(child)) == effective_base(
            node_at(root, path.push(child))->0,
            base_at(root, parent_base, path),
        ),
        node_at(root, path.push(child))->0.base is None ==> base_at(
            root,
            parent_base,
            path.push(child),
        ) == base_at(root, parent_base, path),
    decreases path.len(),
{
    let longer = path.push(child);
    let own = effective_base(root, parent_base);
    if path.len() == 0 {
        assert(longer.skip(1) =~= Seq::<int>::empty());
        assert(longer[0] == child);
        let below = root.children[child];
        assert(node_at(below, longer.skip(1)) == Some(below));
        assert(base_at(below, own, longer.skip(1)) == effective_base(below, own));
    } else {
        assert(longer[0] == path[0]);
        assert(longer.skip(1) =~= path.skip(1).push(child));
        base_at_any_depth(root.children[path[0]], own, path.skip(1), child);
    }
}

/// At any depth, every test case is resolved with the effective base of
/// the profile that holds it, and names the document that its URI gives
/// against that base: the own test cases of the profile that `path`
/// reaches stand, in order, from `offset_at(root, path)` on.
pub proof fn case_at_any_depth(root: NodeView, parent_base: Seq<char>, path: Seq<int>, i: int)
    requires
        node_at(root, path) is Some,
        0 <= i < node_at(root, path)->0.tests.len(),
    ensures
        0 <= offset_at(root, path) + i < resolved(root, parent_base).len(),
        resolved(root, parent_base)[offset_at(root, path) + i].case == node_at(
            root,
            path,
        )->0.tests[i],
        resolved(root, parent_base)[offset_at(root, path) + i].base == base_at(
            root,
            parent_base,
            path,
        ),
        resolved(root, parent_base)[offset_at(root, path) + i].document_path() == joined(
            base_at(root, parent_base, path),
            node_at(root, path)->0.tests[i].uri,
        ),
    decreases path.len(),
{
    if path.len() == 0 {
        own_cases_come_first(root, parent_base, i);
    } else {
        let at = path[0];
        let own = effective_base(root, parent_base);
        let below = root.children[at];
        case_at_any_depth(below, own, path.skip(1), i);
        sibling_is_resolved_alone(root.children, at, own);
        resolved_each_covers_every_case(root.children.take(at), own);
        let before = paired(root.tests, own) + resolved_each(root.children.take(at), own);
        let inner = resolved(below, own);
        let after = resolved_each(root.children.skip(at + 1), own);
        assert(resolved(root, parent_base) =~= before + inner + after);
        let inside = offset_at(below, path.skip(1)) + i;
        assert(offset_at(root, path) + i == before.len() + inside);
        assert((before + inner + after)[before.len() + inside] == inner[inside]);
    }
}

/// A profile with no test case and no nested profile resolves to nothing.
pub proof fn empty_profile_resolves_to_nothing(node: NodeView, parent_base: Seq<char>)
    requires
        node.tests.len() == 0,
        node.children.len() == 0,
    ensures
        resolved(node, parent_base) == Seq::<ResolvedView>::empty(),
{
    assert(resolved(node, parent_base) =~= Seq::<ResolvedView>::empty());
}

/// At any depth of nesting, a profile resolves to exactly as many cases as
/// there are test cases below it.
pub proof fn resolved_covers_every_case(node: NodeView, parent_base: Seq<char>)
    ensures
        resolved(node, parent_base).len() == case_count(node),
    decreases node,
{
    resolved_each_covers_every_case(node.children, effective_base(node, parent_base));
}

/// A list of profiles resolves to exactly as many cases as there are test
/// cases below them.
pub proof fn resolved_each_covers_every_case(nodes: Seq<NodeView>, base: Seq<char>)
    ensures
        resolved_each(nodes, base).len() == case_count_each(nodes),
    decreases nodes,
{
    if nodes.len() > 0 {
        resolved_each_covers_every_case(nodes.drop_last(), base);
        resolved_covers_every_case(nodes.last(), base);
    }
}

} // verus!
