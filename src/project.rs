//! The project descriptor model, its normalisation, and the dependency-graph diagram.
use vstd::prelude::*;

use crate::dotnet::is_digit;
use crate::text::{
    after_last, after_last_char, contains, lemma_after_last_free_of, lemma_contains_middle,
    matches_at,
};

verus! {

#[derive(Debug, Clone, Copy, PartialEq, Eq, Structural)]
pub enum ParseError {
    /// The descriptor file could not be opened or read.
    Io,
    /// The descriptor's content could not be decoded into the expected shape.
    Malformed,
    /// No property group of the descriptor names a target framework.
    NoFramework,
}

pub struct PropertyGroup {
    pub target_framework: String,
}

/// A reference from one project onto another, by the other's descriptor path.
pub struct ProjectReference {
    pub reference_path: String,
}

pub struct ItemGroup {
    pub project_reference: Vec<ProjectReference>,
}

/// One parsed project descriptor.
pub struct Project {
    pub name: String,
    pub property_group: Vec<PropertyGroup>,
    pub items_groups: Vec<ItemGroup>,
}

/// The last segment of a reference path, with `\` and `/` both taken as separators.
pub open spec fn display_name(path: Seq<char>) -> Seq<char> {
    after_last(after_last(path, '\\'), '/')
}

/// The characters of `s` that are decimal digits or dots, in order.
pub open spec fn version_chars(s: Seq<char>) -> Seq<char> {
    s.filter(|c: char| is_digit(c) || c == '.')
}

/// The first non-empty framework value.
pub open spec fn first_framework(frameworks: Seq<Seq<char>>) -> Option<Seq<char>>
    decreases frameworks.len(),
{
    if frameworks.len() == 0 {
        None
    } else if frameworks[0].len() > 0 {
        Some(frameworks[0])
    } else {
        first_framework(frameworks.skip(1))
    }
}

/// The version that a descriptor with these framework values builds for.
pub open spec fn dotnet_version(frameworks: Seq<Seq<char>>) -> Option<Seq<char>> {
    match first_framework(frameworks) {
        Some(f) => Some(version_chars(f)),
        None => None,
    }
}

pub open spec fn has_references(refs: Seq<Seq<char>>) -> bool {
    refs.len() > 0
}

impl ItemGroup {
    /// The raw reference paths of this group, in order.
    pub open spec fn reference_paths(&self) -> Seq<Seq<char>> {
        self.project_reference@.map_values(|r: ProjectReference| r.reference_path@)
    }
}

impl Project {
    /// The target-framework values of the property groups, in order.
    pub open spec fn frameworks(&self) -> Seq<Seq<char>> {
        self.property_group@.map_values(|g: PropertyGroup| g.target_framework@)
    }

    /// The reference paths of each item group, in order.
    pub open spec fn groups(&self) -> Seq<Seq<Seq<char>>> {
        self.items_groups@.map_values(|g: ItemGroup| g.reference_paths())
    }
}

impl ProjectReference {
    /// The name of the referenced project: the last segment of its path.
    pub fn get_include(&self) -> (r: String)
        ensures
            r@ == display_name(self.reference_path@),
            !r@.contains('\\'),
            !r@.contains('/'),
    {
        let tail = after_last_char(self.reference_path.as_str(), '\\');
        let r = after_last_char(tail.as_str(), '/');
        proof {
            lemma_after_last_free_of(tail@, '/');
            lemma_after_last_free_of(self.reference_path@, '\\');
            assert forall|j: int| 0 <= j < r@.len() implies r@[j] != '\\' by {
                lemma_after_last_is_suffix(tail@, '/');
                assert(r@[j] == tail@[tail@.len() - r@.len() + j]);
            }
        }
        r
    }
}

/// `after_last` keeps a suffix of its input.
pub proof fn lemma_after_last_is_suffix(s: Seq<char>, sep: char)
    ensures
        after_last(s, sep).len() <= s.len(),
        after_last(s, sep) == s.subrange(s.len() - after_last(s, sep).len(), s.len() as int),
    decreases s.len(),
{
    if s.len() == 0 {
        assert(s.subrange(0, 0) =~= s);
    } else if s.last() == sep {
        assert(s.subrange(s.len() as int, s.len() as int) =~= Seq::<char>::empty());
    } else {
        lemma_after_last_is_suffix(s.drop_last(), sep);
        let a = after_last(s.drop_last(), sep);
        assert(a.push(s.last()) =~= s.subrange(s.len() - a.len() - 1, s.len() as int));
    }
}

fn copy_item_group(g: &ItemGroup) -> (r: ItemGroup)
    ensures
        r.reference_paths() == g.reference_paths(),
{
    let mut refs: Vec<ProjectReference> = Vec::new();
    let mut i: usize = 0;
    while i < g.project_reference.len()
        invariant
            i <= g.project_reference@.len(),
            refs@.map_values(|r: ProjectReference| r.reference_path@) == g.reference_paths().subrange(
                0,
                i as int,
            ),
        decreases g.project_reference@.len() - i,
    {
        let path = g.project_reference[i].reference_path.clone();
        let ghost before = refs@;
        refs.push(ProjectReference { reference_path: path });
        proof {
            assert(refs@ == before.push(ProjectReference { reference_path: path }));
            assert(path@ == g.reference_paths()[i as int]);
            assert(refs@.map_values(|r: ProjectReference| r.reference_path@) =~= before.map_values(
                |r: ProjectReference| r.reference_path@,
            ).push(path@));
            assert(refs@.map_values(|r: ProjectReference| r.reference_path@) =~= g.reference_paths().subrange(
                0,
                i + 1,
            ));
        }
        i += 1;
    }
    proof {
        assert(g.reference_paths().subrange(0, i as int) =~= g.reference_paths());
    }
    ItemGroup { project_reference: refs }
}

impl Project {
    /// The project's version: the first non-empty target framework, with every character
    /// that is neither a decimal digit nor a dot left out.
    pub fn get_dotnet_version(&self) -> (r: Result<String, ParseError>)
        ensures
            dotnet_version(self.frameworks()) matches Some(v) ==> r matches Ok(s) && s@ == v,
            dotnet_version(self.frameworks()) is None ==> r == Err::<String, ParseError>(
                ParseError::NoFramework,
            ),
    {
        let mut i: usize = 0;
        proof {
            assert(self.frameworks().skip(0) =~= self.frameworks());
        }
        while i < self.property_group.len()
            invariant
                i <= self.property_group@.len(),
                first_framework(self.frameworks()) == first_framework(
                    self.frameworks().skip(i as int),
                ),
            decreases self.property_group@.len() - i,
        {
            let framework = self.property_group[i].target_framework.as_str();
            let ghost rest = self.frameworks().skip(i as int);
            proof {
                assert(rest[0] == framework@);
                assert(rest.skip(1) =~= self.frameworks().skip(i + 1));
            }
            if framework.unicode_len() > 0 {
                return Ok(keep_version_chars(framework));
            }
            i += 1;
        }
        proof {
            assert(self.frameworks().skip(i as int).len() == 0);
        }
        Err(ParseError::NoFramework)
    }

    /// Names the project after the last `separator`-segment of its descriptor path.
    pub fn update_project_name(&mut self, project_full_name: &str, separator: char)
        ensures
            final(self).name@ == after_last(project_full_name@, separator),
            final(self).frameworks() == old(self).frameworks(),
            final(self).groups() == old(self).groups(),
    {
        self.name = after_last_char(project_full_name, separator);
    }

    /// Copies of the item groups that hold at least one reference, in order.
    pub fn filter_only_item_groups_with_reference(&self) -> (r: Vec<ItemGroup>)
        ensures
            r@.map_values(|g: ItemGroup| g.reference_paths()) == self.groups().filter(
                |refs: Seq<Seq<char>>| has_references(refs),
            ),
    {
        let mut kept: Vec<ItemGroup> = Vec::new();
        let mut i: usize = 0;
        let ghost groups = self.groups();
        proof {
            reveal(Seq::filter);
            assert(groups.subrange(0, 0) =~= Seq::<Seq<Seq<char>>>::empty());
            assert(kept@.map_values(|g: ItemGroup| g.reference_paths()) =~= Seq::<
                Seq<Seq<char>>,
            >::empty());
        }
        while i < self.items_groups.len()
            invariant
                i <= self.items_groups@.len(),
                groups == self.groups(),
                kept@.map_values(|g: ItemGroup| g.reference_paths()) == groups.subrange(
                    0,
                    i as int,
                ).filter(|refs: Seq<Seq<char>>| has_references(refs)),
            decreases self.items_groups@.len() - i,
        {
            let group = &self.items_groups[i];
            proof {
                assert(groups.subrange(0, i + 1) =~= groups.subrange(0, i as int).push(
                    group.reference_paths(),
                ));
                groups.subrange(0, i as int).lemma_filter_push(
                    group.reference_paths(),
                    |refs: Seq<Seq<char>>| has_references(refs),
                );
            }
            if group.project_reference.len() > 0 {
                kept.push(copy_item_group(group));
            }
            proof {
                assert(kept@.map_values(|g: ItemGroup| g.reference_paths()) =~= groups.subrange(
                    0,
                    i + 1,
                ).filter(|refs: Seq<Seq<char>>| has_references(refs)));
            }
            i += 1;
        }
        proof {
            assert(groups.subrange(0, i as int) =~= groups);
        }
        kept
    }

    /// Drops the item groups that hold no reference.
    pub fn update_items_groups(&mut self)
        ensures
            final(self).groups() == old(self).groups().filter(
                |refs: Seq<Seq<char>>| has_references(refs),
            ),
            final(self).name@ == old(self).name@,
            final(self).frameworks() == old(self).frameworks(),
    {
        let new_item_groups = self.filter_only_item_groups_with_reference();
        self.items_groups = new_item_groups;
    }
}

/// The characters of `s` that are decimal digits or dots, in order.
pub fn keep_version_chars(s: &str) -> (r: String)
    ensures
        r@ == version_chars(s@),
{
    let n = s.unicode_len();
    let mut out = String::new();
    let mut i: usize = 0;
    proof {
        reveal(Seq::filter);
        assert(s@.subrange(0, 0) =~= Seq::<char>::empty());
    }
    while i < n
        invariant
            n == s@.len(),
            i <= n,
            out@ == version_chars(s@.subrange(0, i as int)),
        decreases n - i,
    {
        let c = s.get_char(i);
        proof {
            assert(s@.subrange(0, i + 1) =~= s@.subrange(0, i as int).push(c));
            s@.subrange(0, i as int).lemma_filter_push(c, |c: char| is_digit(c) || c == '.');
        }
        if ('0' <= c && c <= '9') || c == '.' {
            out.append(s.substring_char(i, i + 1));
            proof {
                assert(s@.subrange(i as int, i + 1) =~= seq![c]);
            }
        }
        i += 1;
    }
    proof {
        assert(s@.subrange(0, n as int) =~= s@);
    }
    out
}

/// One edge line of the diagram: `<project> --> <referenced project>`.
pub open spec fn edge_line(name: Seq<char>, path: Seq<char>) -> Seq<char> {
    "\t\t"@ + name + " --> "@ + display_name(path) + "\n"@
}

/// The edge lines of one item group, in order.
pub open spec fn group_lines(name: Seq<char>, refs: Seq<Seq<char>>) -> Seq<char>
    decreases refs.len(),
{
    if refs.len() == 0 {
        Seq::empty()
    } else {
        group_lines(name, refs.drop_last()) + edge_line(name, refs.last())
    }
}

/// The edge lines of one project, group after group.
pub open spec fn project_lines(name: Seq<char>, groups: Seq<Seq<Seq<char>>>) -> Seq<char>
    decreases groups.len(),
{
    if groups.len() == 0 {
        Seq::empty()
    } else {
        project_lines(name, groups.drop_last()) + group_lines(name, groups.last())
    }
}

/// A project as the diagram sees it: its name and the reference paths of each item group.
pub type GraphNode = (Seq<char>, Seq<Seq<Seq<char>>>);

pub open spec fn node_of(p: Project) -> GraphNode {
    (p.name@, p.groups())
}

pub open spec fn nodes_of(projects: Seq<Project>) -> Seq<GraphNode> {
    projects.map_values(|p: Project| node_of(p))
}

/// The edge lines of every project, project after project.
pub open spec fn all_lines(nodes: Seq<GraphNode>) -> Seq<char>
    decreases nodes.len(),
{
    if nodes.len() == 0 {
        Seq::empty()
    } else {
        all_lines(nodes.drop_last()) + project_lines(nodes.last().0, nodes.last().1)
    }
}

pub open spec fn graph_header() -> Seq<char> {
    "graph LR\n"@ + "\tsubgraph Dependencias\n"@ + "\t\tdirection LR\n"@
}

pub open spec fn graph_footer() -> Seq<char> {
    "\tend\n"@
}

/// The dependency diagram of `nodes`.
pub open spec fn graph_of(nodes: Seq<GraphNode>) -> Seq<char> {
    graph_header() + all_lines(nodes) + graph_footer()
}

/// The dependency diagram of `projects`.
pub open spec fn graph_text(projects: Seq<Project>) -> Seq<char> {
    graph_of(nodes_of(projects))
}

/// Renders a collection of projects as a dependency diagram.
pub trait Mermaid {
    spec fn mermaid_view(&self) -> Seq<char>;

    fn to_mermaid(&self) -> (r: String)
        ensures
            r@ == self.mermaid_view(),
    ;
}

impl Mermaid for Vec<Project> {
    open spec fn mermaid_view(&self) -> Seq<char> {
        graph_text(self@)
    }

    fn to_mermaid(&self) -> (r: String) {
        let mut mermaid = String::from_str("graph LR\n");
        mermaid.append("\tsubgraph Dependencias\n");
        mermaid.append("\t\tdirection LR\n");
        let ghost head = mermaid@;
        let ghost ps = nodes_of(self@);
        proof {
            assert(ps.subrange(0, 0) =~= Seq::<GraphNode>::empty());
            assert(mermaid@ =~= head + all_lines(ps.subrange(0, 0)));
        }
        let mut p: usize = 0;
        while p < self.len()
            invariant
                ps == nodes_of(self@),
                ps.len() == self@.len(),
                p <= ps.len(),
                head == graph_header(),
                mermaid@ == head + all_lines(ps.subrange(0, p as int)),
            decreases ps.len() - p,
        {
            let project = &self[p];
            let ghost name = project.name@;
            let ghost groups = project.groups();
            let ghost done = mermaid@;
            proof {
                assert(groups.subrange(0, 0) =~= Seq::<Seq<Seq<char>>>::empty());
                assert(mermaid@ =~= done + project_lines(name, groups.subrange(0, 0)));
            }
            let mut g: usize = 0;
            while g < project.items_groups.len()
                invariant
                    g <= groups.len(),
                    groups == project.groups(),
                    name == project.name@,
                    mermaid@ == done + project_lines(name, groups.subrange(0, g as int)),
                decreases groups.len() - g,
            {
                let group = &project.items_groups[g];
                let ghost refs = group.reference_paths();
                let ghost before = mermaid@;
                proof {
                    assert(refs.subrange(0, 0) =~= Seq::<Seq<char>>::empty());
                    assert(mermaid@ =~= before + group_lines(name, refs.subrange(0, 0)));
                }
                let mut k: usize = 0;
                while k < group.project_reference.len()
                    invariant
                        k <= refs.len(),
                        refs == group.reference_paths(),
                        name == project.name@,
                        mermaid@ == before + group_lines(name, refs.subrange(0, k as int)),
                    decreases refs.len() - k,
                {
                    let target = group.project_reference[k].get_include();
                    let ghost so_far = mermaid@;
                    mermaid.append("\t\t");
                    mermaid.append(project.name.as_str());
                    mermaid.append(" --> ");
                    mermaid.append(target.as_str());
                    mermaid.append("\n");
                    proof {
                        let next = refs.subrange(0, k + 1);
                        assert(next.drop_last() =~= refs.subrange(0, k as int));
                        assert(next.last() == refs[k as int]);
                        assert(mermaid@ =~= before + group_lines(name, next));
                    }
                    k += 1;
                }
                proof {
                    assert(refs.subrange(0, k as int) =~= refs);
                    let next = groups.subrange(0, g + 1);
                    assert(next.drop_last() =~= groups.subrange(0, g as int));
                    assert(next.last() == refs);
                    assert(mermaid@ =~= done + project_lines(name, next));
                }
                g += 1;
            }
            proof {
                assert(groups.subrange(0, g as int) =~= groups);
                let next = ps.subrange(0, p + 1);
                assert(next.drop_last() =~= ps.subrange(0, p as int));
                assert(next.last() == node_of(*project));
                assert(mermaid@ =~= head + all_lines(next));
            }
            p += 1;
        }
        proof {
            assert(ps.subrange(0, p as int) =~= ps);
        }
        mermaid.append("\tend\n");
        mermaid
    }
}

/// An edge of the diagram: the referencing project's name and the reference path.
pub type Edge = (Seq<char>, Seq<char>);

/// The edges of one node, group after group, reference after reference.
pub open spec fn node_edges(name: Seq<char>, groups: Seq<Seq<Seq<char>>>) -> Seq<Edge>
    decreases groups.len(),
{
    if groups.len() == 0 {
        Seq::empty()
    } else {
        node_edges(name, groups.drop_last()) + groups.last().map_values(
            |path: Seq<char>| (name, path),
        )
    }
}

/// Every edge of `nodes`, node after node.
pub open spec fn edges_of(nodes: Seq<GraphNode>) -> Seq<Edge>
    decreases nodes.len(),
{
    if nodes.len() == 0 {
        Seq::empty()
    } else {
        edges_of(nodes.drop_last()) + node_edges(nodes.last().0, nodes.last().1)
    }
}

/// The number of references in `groups`.
pub open spec fn reference_count(groups: Seq<Seq<Seq<char>>>) -> nat
    decreases groups.len(),
{
    if groups.len() == 0 {
        0
    } else {
        reference_count(groups.drop_last()) + groups.last().len()
    }
}

/// The number of references over all of `nodes`.
pub open spec fn total_references(nodes: Seq<GraphNode>) -> nat
    decreases nodes.len(),
{
    if nodes.len() == 0 {
        0
    } else {
        total_references(nodes.drop_last()) + reference_count(nodes.last().1)
    }
}

proof fn lemma_node_edges_len(name: Seq<char>, groups: Seq<Seq<Seq<char>>>)
    ensures
        node_edges(name, groups).len() == reference_count(groups),
    decreases groups.len(),
{
    if groups.len() > 0 {
        lemma_node_edges_len(name, groups.drop_last());
    }
}

proof fn lemma_edges_of_len(nodes: Seq<GraphNode>)
    ensures
        edges_of(nodes).len() == total_references(nodes),
    decreases nodes.len(),
{
    if nodes.len() > 0 {
        lemma_edges_of_len(nodes.drop_last());
        lemma_node_edges_len(nodes.last().0, nodes.last().1);
    }
}

/// One line per edge, in order.
pub open spec fn lines_of(edges: Seq<Edge>) -> Seq<char>
    decreases edges.len(),
{
    if edges.len() == 0 {
        Seq::empty()
    } else {
        lines_of(edges.drop_last()) + edge_line(edges.last().0, edges.last().1)
    }
}

/// Each edge has its line among the lines of all edges.
pub proof fn lemma_lines_of_contains(edges: Seq<Edge>, i: int)
    requires
        0 <= i < edges.len(),
    ensures
        contains(lines_of(edges), edge_line(edges[i].0, edges[i].1)),
    decreases edges.len(),
{
    let line = edge_line(edges[i].0, edges[i].1);
    let rest = edges.drop_last();
    if i == edges.len() - 1 {
        lemma_contains_middle(lines_of(rest), line, Seq::empty());
        assert(lines_of(rest) + line + Seq::<char>::empty() =~= lines_of(edges));
    } else {
        lemma_lines_of_contains(rest, i);
        assert(rest[i] == edges[i]);
        let k = choose|k: int| matches_at(lines_of(rest), line, k);
        assert(lines_of(edges).subrange(k, k + line.len()) =~= lines_of(rest).subrange(
            k,
            k + line.len(),
        ));
        assert(matches_at(lines_of(edges), line, k));
    }
}

proof fn lemma_lines_of_append(a: Seq<Edge>, b: Seq<Edge>)
    ensures
        lines_of(a + b) == lines_of(a) + lines_of(b),
    decreases b.len(),
{
    if b.len() == 0 {
        assert(a + b =~= a);
        assert(lines_of(a) + Seq::<char>::empty() =~= lines_of(a));
    } else {
        lemma_lines_of_append(a, b.drop_last());
        assert((a + b).drop_last() =~= a + b.drop_last());
        assert((a + b).last() == b.last());
        assert(lines_of(a + b) =~= lines_of(a) + lines_of(b));
    }
}

proof fn lemma_group_lines(name: Seq<char>, refs: Seq<Seq<char>>)
    ensures
        group_lines(name, refs) == lines_of(refs.map_values(|path: Seq<char>| (name, path))),
    decreases refs.len(),
{
    let es = refs.map_values(|path: Seq<char>| (name, path));
    if refs.len() > 0 {
        lemma_group_lines(name, refs.drop_last());
        assert(es.drop_last() =~= refs.drop_last().map_values(|path: Seq<char>| (name, path)));
    } else {
        assert(es =~= Seq::<Edge>::empty());
    }
}

proof fn lemma_project_lines(name: Seq<char>, groups: Seq<Seq<Seq<char>>>)
    ensures
        project_lines(name, groups) == lines_of(node_edges(name, groups)),
    decreases groups.len(),
{
    if groups.len() > 0 {
        lemma_project_lines(name, groups.drop_last());
        lemma_group_lines(name, groups.last());
        lemma_lines_of_append(
            node_edges(name, groups.drop_last()),
            groups.last().map_values(|path: Seq<char>| (name, path)),
        );
    }
}

/// The diagram holds one edge line for every reference edge, duplicates included, in the
/// order of the projects, then of their item groups, then of the references: as many edges
/// as references. Since it is a function of the projects alone, rendering the same
/// projects twice gives the same text.
pub proof fn lemma_graph_lists_every_edge_in_order(nodes: Seq<GraphNode>)
    ensures
        graph_of(nodes) == graph_header() + lines_of(edges_of(nodes)) + graph_footer(),
        edges_of(nodes).len() == total_references(nodes),
{
    lemma_all_lines(nodes);
    lemma_edges_of_len(nodes);
}

proof fn lemma_all_lines(nodes: Seq<GraphNode>)
    ensures
        all_lines(nodes) == lines_of(edges_of(nodes)),
    decreases nodes.len(),
{
    if nodes.len() > 0 {
        lemma_all_lines(nodes.drop_last());
        lemma_project_lines(nodes.last().0, nodes.last().1);
        lemma_lines_of_append(
            edges_of(nodes.drop_last()),
            node_edges(nodes.last().0, nodes.last().1),
        );
    }
}

} // verus!
