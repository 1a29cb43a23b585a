//! Generates Dockerfiles for .NET services and JavaScript frontends: project descriptor
//! discovery, the project-reference graph, and multi-stage Dockerfile assembly.
use vstd::prelude::*;

pub mod discovery;
pub mod dockerfile_builder;
pub mod dotnet;
pub mod generate_dockerfile;
pub mod project;
pub mod text;
pub mod write_dockerfile;

pub use dockerfile_builder::{DecomposeError, DockerFilePath, DockerfileBuilder};
pub use generate_dockerfile::{
    DiscoveredProject, GenerateDockerfile, GenerateError, Output, Problem, ProjectType, Warning,
};
pub use project::{ItemGroup, Mermaid, ParseError, Project, ProjectReference, PropertyGroup};

verus! {

} // verus!
