//! Drives one generation run: from the discovered and decoded descriptors to the
//! Dockerfile text and the dependency diagram.
use vstd::prelude::*;

use crate::dockerfile_builder::{
    compiled_artifact_name, instruction, relative_folder_path, relative_full_path, DecomposeError,
    DockerFilePath, DockerfileBuilder,
};
use crate::dotnet::{copy_line, dotnet_body, dotnet_header};
use crate::project::{
    dotnet_version, edge_line, edges_of, graph_footer, graph_header, graph_of, has_references,
    lemma_graph_lists_every_edge_in_order, lemma_lines_of_contains, lines_of, node_of, nodes_of,
    GraphNode, Mermaid, ParseError, Project,
};
use crate::text::{after_last, contains, lemma_contains_middle};

verus! {

/// The kind of project a Dockerfile is generated for.
#[derive(Debug, Clone, Copy, PartialEq, Eq, Structural)]
pub enum ProjectType {
    Dotnet,
    Next,
    Vite,
}

/// What went wrong with one discovered descriptor file.
#[derive(Debug, Clone, Copy, PartialEq, Eq, Structural)]
pub enum Problem {
    Parse(ParseError),
    Decompose(DecomposeError),
}

/// A descriptor file that was left out of the run, and why.
pub struct Warning {
    pub path: String,
    pub problem: Problem,
}

/// Why a run produced no Dockerfile.
#[derive(Debug, Clone, Copy, PartialEq, Eq, Structural)]
pub enum GenerateError {
    /// A .NET run was asked for without a startup project.
    MissingStartupProject,
    Parse(ParseError),
    Decompose(DecomposeError),
}

/// A descriptor file found under the root, with the outcome of decoding it.
pub struct DiscoveredProject {
    pub path: String,
    pub parsed: Result<Project, ParseError>,
}

/// The result of a run.
pub struct Output {
    pub dockerfile: String,
    pub mermaid: Option<String>,
    pub warnings: Vec<Warning>,
}

pub struct GenerateDockerfile {
    pub maybe_startup_project: Option<String>,
    pub project_type: ProjectType,
    pub project_root: String,
}

/// The diagram nodes of the decoded descriptors, in discovery order: each named after
/// its file, with its empty item groups left out.
pub open spec fn graph_nodes(ds: Seq<DiscoveredProject>, sep: char) -> Seq<GraphNode>
    decreases ds.len(),
{
    if ds.len() == 0 {
        Seq::empty()
    } else {
        let rest = graph_nodes(ds.drop_last(), sep);
        match ds.last().parsed {
            Ok(p) => rest.push(
                (
                    after_last(ds.last().path@, sep),
                    p.groups().filter(|refs: Seq<Seq<char>>| has_references(refs)),
                ),
            ),
            Err(_) => rest,
        }
    }
}

/// The version of the first decoded descriptor, in discovery order, that names one.
pub open spec fn found_version(ds: Seq<DiscoveredProject>) -> Option<Seq<char>>
    decreases ds.len(),
{
    if ds.len() == 0 {
        None
    } else {
        match found_version(ds.drop_last()) {
            Some(v) => Some(v),
            None => match ds.last().parsed {
                Ok(p) => dotnet_version(p.frameworks()),
                Err(_) => None,
            },
        }
    }
}

/// A decoded descriptor whose path lies under the root.
pub open spec fn is_copied(d: DiscoveredProject, root: Seq<char>) -> bool {
    d.parsed is Ok && contains(d.path@, root)
}

/// The descriptor copy lines, one per copied project, in discovery order.
pub open spec fn descriptor_copies(ds: Seq<DiscoveredProject>, root: Seq<char>, sep: char) -> Seq<
    char,
>
    decreases ds.len(),
{
    if ds.len() == 0 {
        Seq::empty()
    } else if is_copied(ds.last(), root) {
        descriptor_copies(ds.drop_last(), root, sep) + copy_line(
            relative_full_path(ds.last().path@, root, sep),
        )
    } else {
        descriptor_copies(ds.drop_last(), root, sep)
    }
}

/// The folder copy lines, one per copied project, in discovery order.
pub open spec fn folder_copies(ds: Seq<DiscoveredProject>, root: Seq<char>, sep: char) -> Seq<
    char,
>
    decreases ds.len(),
{
    if ds.len() == 0 {
        Seq::empty()
    } else if is_copied(ds.last(), root) {
        folder_copies(ds.drop_last(), root, sep) + copy_line(
            relative_folder_path(ds.last().path@, root, sep),
        )
    } else {
        folder_copies(ds.drop_last(), root, sep)
    }
}

/// The files left out of a run, in discovery order, with the reason.
pub open spec fn warnings_of(ds: Seq<DiscoveredProject>, root: Seq<char>) -> Seq<
    (Seq<char>, Problem),
>
    decreases ds.len(),
{
    if ds.len() == 0 {
        Seq::empty()
    } else {
        let rest = warnings_of(ds.drop_last(), root);
        let d = ds.last();
        match d.parsed {
            Err(e) => rest.push((d.path@, Problem::Parse(e))),
            Ok(_) => if contains(d.path@, root) {
                rest
            } else {
                rest.push((d.path@, Problem::Decompose(DecomposeError::RootNotFound)))
            },
        }
    }
}

pub open spec fn warning_views(ws: Seq<Warning>) -> Seq<(Seq<char>, Problem)> {
    ws.map_values(|w: Warning| (w.path@, w.problem))
}

/// Why a .NET run fails, checked in this order; `None` when it succeeds. A root where no
/// descriptor names a framework, including one with no descriptor at all, has no version,
/// and that is reported whatever the startup path is.
pub open spec fn dotnet_failure(
    root: Seq<char>,
    startup: Seq<char>,
    ds: Seq<DiscoveredProject>,
    sep: char,
) -> Option<GenerateError> {
    if found_version(ds) is None {
        Some(GenerateError::Parse(ParseError::NoFramework))
    } else if !contains(startup, root) {
        Some(GenerateError::Decompose(DecomposeError::RootNotFound))
    } else if compiled_artifact_name(relative_full_path(startup, root, sep)) is None {
        Some(GenerateError::Decompose(DecomposeError::MissingProjectExtension))
    } else {
        None
    }
}

/// The Dockerfile of a successful .NET run.
pub open spec fn dotnet_dockerfile(
    root: Seq<char>,
    startup: Seq<char>,
    ds: Seq<DiscoveredProject>,
    sep: char,
) -> Seq<char> {
    let cs_proj = relative_full_path(startup, root, sep);
    dotnet_header(found_version(ds)->0) + dotnet_body(
        descriptor_copies(ds, root, sep),
        cs_proj,
        folder_copies(ds, root, sep),
        compiled_artifact_name(cs_proj)->0,
    )
}

/// What a .NET run returns for its inputs.
pub open spec fn dotnet_outcome(
    root: Seq<char>,
    startup: Seq<char>,
    ds: Seq<DiscoveredProject>,
    sep: char,
    r: Result<Output, GenerateError>,
) -> bool {
    match dotnet_failure(root, startup, ds, sep) {
        Some(e) => r == Err::<Output, GenerateError>(e),
        None => match r {
            Ok(o) => {
                &&& o.dockerfile@ == dotnet_dockerfile(root, startup, ds, sep)
                &&& o.mermaid is Some
                &&& o.mermaid->0@ == graph_of(graph_nodes(ds, sep))
                &&& warning_views(o.warnings@) == warnings_of(ds, root)
            },
            Err(_) => false,
        },
    }
}

/// The Dockerfile of a Next.js frontend.
pub open spec fn nextjs_dockerfile() -> Seq<char> {
    instruction("FROM"@, "node:18-alpine AS build"@) + instruction("WORKDIR"@, "/app"@)
        + instruction("COPY"@, "package*.json ./"@) + instruction("RUN"@, "npm ci"@)
        + instruction("COPY"@, ". ."@) + instruction("RUN"@, "npm run build"@) + instruction(
        "FROM"@,
        "node:18-alpine AS production"@,
    ) + instruction("WORKDIR"@, "/app"@) + instruction(
        "COPY"@,
        "--from=build /app/package*.json ./"@,
    ) + instruction("RUN"@, "npm ci"@) + instruction("COPY"@, "--from=build /app/.next ./.next"@)
        + instruction("COPY"@, "--from=build /app/public ./public"@) + instruction(
        "ENTRYPOINT"@,
        "[\"npm\", \"start\"]"@,
    )
}

/// The Dockerfile of a Vite frontend served by nginx.
pub open spec fn vite_dockerfile() -> Seq<char> {
    instruction("FROM"@, "node:18-alpine AS build"@) + instruction("WORKDIR"@, "/build"@)
        + instruction("COPY"@, "package*.json ./"@) + instruction("RUN"@, "npm ci"@)
        + instruction("COPY"@, ". ."@) + instruction("RUN"@, "npm run build"@) + instruction(
        "FROM"@,
        "nginx:alpine AS production"@,
    ) + instruction("COPY"@, "--from=build /build/dist /usr/share/nginx/html"@)
}

/// The .NET run over the descriptors discovered under `project_root`, in discovery order.
pub fn dotnet(
    project_root: &str,
    startup_project: &str,
    discovered: Vec<DiscoveredProject>,
    separator: char,
) -> (r: Result<Output, GenerateError>)
    ensures
        dotnet_outcome(project_root@, startup_project@, discovered@, separator, r),
{
    let ghost root = project_root@;
    let ghost ds = discovered@;
    let n = discovered.len();
    let mut rest = discovered;
    let mut builder = crate::dotnet::new();
    let mut projects: Vec<Project> = Vec::new();
    let mut warnings: Vec<Warning> = Vec::new();
    let mut version: Option<String> = None;
    let mut k: usize = 0;
    proof {
        assert(ds.subrange(0, 0) =~= Seq::<DiscoveredProject>::empty());
        assert(ds.subrange(0, n as int) =~= ds);
        assert(nodes_of(projects@) =~= Seq::<GraphNode>::empty());
        assert(warning_views(warnings@) =~= Seq::<(Seq<char>, Problem)>::empty());
    }
    while k < n
        invariant
            n == ds.len(),
            k <= n,
            rest@ == ds.subrange(k as int, n as int),
            nodes_of(projects@) == graph_nodes(ds.subrange(0, k as int), separator),
            builder.copy_csproj@ == descriptor_copies(ds.subrange(0, k as int), root, separator),
            builder.copy_project@ == folder_copies(ds.subrange(0, k as int), root, separator),
            warning_views(warnings@) == warnings_of(ds.subrange(0, k as int), root),
            match version {
                Some(v) => found_version(ds.subrange(0, k as int)) == Some(v@),
                None => found_version(ds.subrange(0, k as int)) is None,
            },
            project_root@ == root,
        decreases n - k,
    {
        let item = rest.remove(0);
        let ghost d = ds[k as int];
        let ghost next = ds.subrange(0, k + 1);
        proof {
            assert(item == d);
            assert(next.drop_last() =~= ds.subrange(0, k as int));
            assert(next.last() == d);
            assert(rest@ =~= ds.subrange(k + 1, n as int));
        }
        let DiscoveredProject { path, parsed } = item;
        match parsed {
            Ok(project) => {
                let mut project = project;
                if version.is_none() {
                    match project.get_dotnet_version() {
                        Ok(v) => {
                            version = Some(v);
                        },
                        Err(_) => {},
                    }
                }
                project.update_items_groups();
                project.update_project_name(path.as_str(), separator);
                let ghost before = projects@;
                let ghost node = node_of(project);
                projects.push(project);
                proof {
                    assert(nodes_of(projects@) =~= nodes_of(before).push(node));
                }
                match DockerFilePath::new(path.as_str(), project_root, separator) {
                    Ok(p) => {
                        builder.copy_csproj(&p).copy_csproj_folder(&p);
                    },
                    Err(e) => {
                        let ghost wb = warnings@;
                        warnings.push(Warning { path, problem: Problem::Decompose(e) });
                        proof {
                            assert(warning_views(warnings@) =~= warning_views(wb).push(
                                (d.path@, Problem::Decompose(DecomposeError::RootNotFound)),
                            ));
                        }
                    },
                }
            },
            Err(e) => {
                let ghost wb = warnings@;
                warnings.push(Warning { path, problem: Problem::Parse(e) });
                proof {
                    assert(warning_views(warnings@) =~= warning_views(wb).push(
                        (d.path@, Problem::Parse(e)),
                    ));
                }
            },
        }
        k += 1;
    }
    let version = match version {
        Some(v) => v,
        None => {
            return Err(GenerateError::Parse(ParseError::NoFramework));
        },
    };
    let startup = match DockerFilePath::new(startup_project, project_root, separator) {
        Ok(p) => p,
        Err(e) => {
            return Err(GenerateError::Decompose(e));
        },
    };
    let dockerfile = match builder.dotnet(version.as_str()).build(&startup) {
        Ok(text) => text,
        Err(e) => {
            return Err(GenerateError::Decompose(e));
        },
    };
    let mermaid = projects.to_mermaid();
    Ok(Output { dockerfile, mermaid: Some(mermaid), warnings })
}

/// The Next.js recipe: a build stage, then a production stage that keeps the build output
/// and the public assets.
pub fn frontend_nextjs() -> (r: Output)
    ensures
        r.dockerfile@ == nextjs_dockerfile(),
        r.mermaid is None,
        r.warnings@.len() == 0,
{
    let docker_file = DockerfileBuilder::new().from("node:18-alpine AS build").workdir("/app").copy(
        "package*.json ./",
    ).run("npm ci").copy(". .").run("npm run build").from("node:18-alpine AS production").workdir(
        "/app",
    ).copy("--from=build /app/package*.json ./").run("npm ci").copy(
        "--from=build /app/.next ./.next",
    ).copy("--from=build /app/public ./public").entrypoint("[\"npm\", \"start\"]").build();
    proof {
        assert(docker_file@ =~= nextjs_dockerfile());
    }
    Output { dockerfile: docker_file, mermaid: None, warnings: Vec::new() }
}

/// The Vite recipe: a build stage, then an nginx stage that serves the build output.
pub fn frontend_vite() -> (r: Output)
    ensures
        r.dockerfile@ == vite_dockerfile(),
        r.mermaid is None,
        r.warnings@.len() == 0,
{
    let docker_file = DockerfileBuilder::new().from("node:18-alpine AS build").workdir(
        "/build",
    ).copy("package*.json ./").run("npm ci").copy(". .").run("npm run build").from(
        "nginx:alpine AS production",
    ).copy("--from=build /build/dist /usr/share/nginx/html").build();
    proof {
        assert(docker_file@ =~= vite_dockerfile());
    }
    Output { dockerfile: docker_file, mermaid: None, warnings: Vec::new() }
}

impl GenerateDockerfile {
    pub fn new(
        project_root: String,
        project_type: ProjectType,
        startup_project: Option<String>,
    ) -> (r: Self)
        ensures
            r.project_root == project_root,
            r.project_type == project_type,
            r.maybe_startup_project == startup_project,
    {
        Self { maybe_startup_project: startup_project, project_type, project_root }
    }

    /// Runs the recipe that the project type selects. `discovered` holds the descriptor
    /// files found under the root, in discovery order, each with the outcome of decoding
    /// it; only a .NET run reads it. `separator` separates the segments of its paths.
    pub fn execute(&self, discovered: Vec<DiscoveredProject>, separator: char) -> (r: Result<
        Output,
        GenerateError,
    >)
        ensures
            self.project_type == ProjectType::Dotnet && self.maybe_startup_project is None ==> r
                == Err::<Output, GenerateError>(GenerateError::MissingStartupProject),
            self.project_type == ProjectType::Dotnet && self.maybe_startup_project is Some
                ==> dotnet_outcome(
                self.project_root@,
                self.maybe_startup_project->0@,
                discovered@,
                separator,
                r,
            ),
            self.project_type == ProjectType::Next ==> (r matches Ok(o) && o.dockerfile@
                == nextjs_dockerfile() && o.mermaid is None && o.warnings@.len() == 0),
            self.project_type == ProjectType::Vite ==> (r matches Ok(o) && o.dockerfile@
                == vite_dockerfile() && o.mermaid is None && o.warnings@.len() == 0),
    {
        match self.project_type {
            ProjectType::Dotnet => match &self.maybe_startup_project {
                Some(startup_project) => dotnet(
                    self.project_root.as_str(),
                    startup_project.as_str(),
                    discovered,
                    separator,
                ),
                None => Err(GenerateError::MissingStartupProject),
            },
            ProjectType::Next => Ok(frontend_nextjs()),
            ProjectType::Vite => Ok(frontend_vite()),
        }
    }
}

/// Every successful .NET run builds on the SDK image of the version it found, restores the
/// startup project, and draws one diagram line for every reference edge of the decoded
/// projects.
pub proof fn lemma_dotnet_run_shape(
    root: Seq<char>,
    startup: Seq<char>,
    ds: Seq<DiscoveredProject>,
    sep: char,
)
    requires
        dotnet_failure(root, startup, ds, sep) is None,
    ensures
        contains(
            dotnet_dockerfile(root, startup, ds, sep),
            instruction(
                "FROM"@,
                "mcr.microsoft.com/dotnet/sdk:"@ + found_version(ds)->0 + " AS build"@,
            ),
        ),
        contains(
            dotnet_dockerfile(root, startup, ds, sep),
            instruction("RUN"@, "dotnet restore ./"@ + relative_full_path(startup, root, sep)),
        ),
        forall|i: int|
            0 <= i < edges_of(graph_nodes(ds, sep)).len() ==> contains(
                graph_of(graph_nodes(ds, sep)),
                edge_line(
                    #[trigger] edges_of(graph_nodes(ds, sep))[i].0,
                    edges_of(graph_nodes(ds, sep))[i].1,
                ),
            ),
{
    let v = found_version(ds)->0;
    let cs_proj = relative_full_path(startup, root, sep);
    let dll = compiled_artifact_name(cs_proj)->0;
    let text = dotnet_dockerfile(root, startup, ds, sep);
    let header = dotnet_header(v);
    let body = dotnet_body(descriptor_copies(ds, root, sep), cs_proj, folder_copies(ds, root, sep), dll);
    let sdk = instruction("FROM"@, "mcr.microsoft.com/dotnet/sdk:"@ + v + " AS build"@);
    let restore = instruction("RUN"@, "dotnet restore ./"@ + cs_proj);
    let before_sdk = instruction("FROM"@, "mcr.microsoft.com/dotnet/aspnet:"@ + v + " AS base"@)
        + instruction("EXPOSE"@, crate::dockerfile_builder::decimal(crate::dotnet::http_port(v)))
        + instruction("EXPOSE"@, crate::dockerfile_builder::decimal(crate::dotnet::https_port(v)))
        + instruction("WORKDIR"@, "/app"@);
    let after_sdk = instruction("ARG"@, "BUILD_CONFIGURATION=Release"@) + instruction(
        "WORKDIR"@,
        "/src"@,
    );
    assert(text =~= before_sdk + sdk + (after_sdk + body));
    lemma_contains_middle(before_sdk, sdk, after_sdk + body);
    let copies = descriptor_copies(ds, root, sep);
    assert(body =~= copies + restore + body.subrange(
        (copies.len() + restore.len()) as int,
        body.len() as int,
    ));
    assert(text =~= (header + copies) + restore + body.subrange(
        (copies.len() + restore.len()) as int,
        body.len() as int,
    ));
    lemma_contains_middle(
        header + copies,
        restore,
        body.subrange((copies.len() + restore.len()) as int, body.len() as int),
    );
    let nodes = graph_nodes(ds, sep);
    lemma_graph_lists_every_edge_in_order(nodes);
    assert forall|i: int| 0 <= i < edges_of(nodes).len() implies contains(
        graph_of(nodes),
        edge_line(#[trigger] edges_of(nodes)[i].0, edges_of(nodes)[i].1),
    ) by {
        let es = edges_of(nodes);
        lemma_lines_of_contains(es, i);
        let line = edge_line(es[i].0, es[i].1);
        let k = choose|k: int| crate::text::matches_at(lines_of(es), line, k);
        let g = graph_of(nodes);
        assert(g.subrange(graph_header().len() + k, graph_header().len() + k + line.len())
            =~= lines_of(es).subrange(k, k + line.len()));
        assert(crate::text::matches_at(g, line, graph_header().len() + k));
    }
}

} // verus!
