use dockerfile_gen::generate_dockerfile::{frontend_nextjs, frontend_vite};
use dockerfile_gen::write_dockerfile::{Input, WriteDockerfile, DOCKERIGNORE, NGINX_CONF};
use dockerfile_gen::{
    DecomposeError, DiscoveredProject, GenerateDockerfile, GenerateError, ItemGroup, ParseError,
    Problem, Project, ProjectReference, ProjectType, PropertyGroup,
};

fn project(frameworks: &[&str], refs: &[&str]) -> Project {
    Project {
        name: String::new(),
        property_group: frameworks
            .iter()
            .map(|f| PropertyGroup { target_framework: f.to_string() })
            .collect(),
        items_groups: vec![
            ItemGroup { project_reference: Vec::new() },
            ItemGroup {
                project_reference: refs
                    .iter()
                    .map(|r| ProjectReference { reference_path: r.to_string() })
                    .collect(),
            },
        ],
    }
}

fn found(path: &str, parsed: Result<Project, ParseError>) -> DiscoveredProject {
    DiscoveredProject { path: path.to_string(), parsed }
}

fn two_projects(framework: &str) -> Vec<DiscoveredProject> {
    vec![
        found("/sln/Api/Api.csproj", Ok(project(&[framework], &["..\\Core\\Core.csproj"]))),
        found("/sln/Core/Core.csproj", Ok(project(&[framework], &[]))),
    ]
}

fn dotnet_run(startup: Option<&str>, discovered: Vec<DiscoveredProject>) -> Result<dockerfile_gen::Output, GenerateError> {
    GenerateDockerfile::new("/sln".to_string(), ProjectType::Dotnet, startup.map(|s| s.to_string()))
        .execute(discovered, '/')
}

#[test]
fn end_to_end_two_projects_net7() {
    let out = dotnet_run(Some("/sln/Api/Api.csproj"), two_projects("net7.0")).unwrap();
    assert!(out.dockerfile.contains("FROM mcr.microsoft.com/dotnet/sdk:7.0 AS build\n"));
    assert!(out.dockerfile.contains("FROM mcr.microsoft.com/dotnet/aspnet:7.0 AS base\nEXPOSE 80\nEXPOSE 443\n"));
    assert_eq!(out.dockerfile.matches("RUN dotnet restore ./Api/Api.csproj\n").count(), 1);
    assert!(out.dockerfile.contains("COPY ./Api/Api.csproj ./Api/Api.csproj\nCOPY ./Core/Core.csproj ./Core/Core.csproj\n"));
    assert!(out.dockerfile.contains("COPY ./Api ./Api\nCOPY ./Core ./Core\n"));
    assert!(out.dockerfile.ends_with("ENTRYPOINT [\"dotnet\", \"Api.dll\"]\n"));
    let graph = out.mermaid.unwrap();
    assert_eq!(graph.matches(" --> ").count(), 1);
    assert!(graph.contains("\t\tApi.csproj --> Core.csproj\n"));
    assert!(out.warnings.is_empty());
}

#[test]
fn no_framework_anywhere_is_fatal() {
    let discovered = vec![
        found("/sln/Api/Api.csproj", Ok(project(&[""], &[]))),
        found("/sln/Core/Core.csproj", Ok(project(&[], &[]))),
    ];
    let r = dotnet_run(Some("/sln/Api/Api.csproj"), discovered);
    assert!(matches!(r, Err(GenerateError::Parse(ParseError::NoFramework))));
}

#[test]
fn undecodable_files_only_yield_no_framework() {
    let discovered = vec![found("/sln/Api/Api.csproj", Err(ParseError::Malformed))];
    let r = dotnet_run(Some("/sln/Api/Api.csproj"), discovered);
    assert!(matches!(r, Err(GenerateError::Parse(ParseError::NoFramework))));
}

#[test]
fn no_discovered_files_yield_no_framework() {
    let r = dotnet_run(Some("/sln/Api/Api.csproj"), Vec::new());
    assert!(matches!(r, Err(GenerateError::Parse(ParseError::NoFramework))));
}

#[test]
fn dotnet_without_startup_project_is_rejected() {
    let r = dotnet_run(None, two_projects("net8.0"));
    assert!(matches!(r, Err(GenerateError::MissingStartupProject)));
}

#[test]
fn startup_outside_root_is_rejected() {
    let r = dotnet_run(Some("/elsewhere/Api/Api.csproj"), two_projects("net8.0"));
    assert!(matches!(r, Err(GenerateError::Decompose(DecomposeError::RootNotFound))));
}

#[test]
fn startup_without_descriptor_extension_is_rejected() {
    let r = dotnet_run(Some("/sln/Api/Api.txt"), two_projects("net8.0"));
    assert!(matches!(r, Err(GenerateError::Decompose(DecomposeError::MissingProjectExtension))));
}

#[test]
fn broken_files_become_warnings() {
    let discovered = vec![
        found("/sln/Bad/Bad.csproj", Err(ParseError::Io)),
        found("/sln/Api/Api.csproj", Ok(project(&["net8.0"], &[]))),
        found("/outside/Lib/Lib.csproj", Ok(project(&["net6.0"], &[]))),
    ];
    let out = dotnet_run(Some("/sln/Api/Api.csproj"), discovered).unwrap();
    assert_eq!(out.warnings.len(), 2);
    assert_eq!(out.warnings[0].path, "/sln/Bad/Bad.csproj");
    assert_eq!(out.warnings[0].problem, Problem::Parse(ParseError::Io));
    assert_eq!(out.warnings[1].path, "/outside/Lib/Lib.csproj");
    assert_eq!(out.warnings[1].problem, Problem::Decompose(DecomposeError::RootNotFound));
    assert!(out.dockerfile.contains("EXPOSE 8080\n"));
    assert!(!out.dockerfile.contains("Lib"));
}

#[test]
fn version_comes_from_first_descriptor_that_names_one() {
    let discovered = vec![
        found("/sln/A/A.csproj", Ok(project(&[""], &[]))),
        found("/sln/B/B.csproj", Ok(project(&["net6.0"], &[]))),
        found("/sln/C/C.csproj", Ok(project(&["net8.0"], &[]))),
    ];
    let out = dotnet_run(Some("/sln/C/C.csproj"), discovered).unwrap();
    assert!(out.dockerfile.starts_with("FROM mcr.microsoft.com/dotnet/aspnet:6.0 AS base\n"));
}

const NEXT: &str = "FROM node:18-alpine AS build\nWORKDIR /app\nCOPY package*.json ./\nRUN npm ci\nCOPY . .\nRUN npm run build\nFROM node:18-alpine AS production\nWORKDIR /app\nCOPY --from=build /app/package*.json ./\nRUN npm ci\nCOPY --from=build /app/.next ./.next\nCOPY --from=build /app/public ./public\nENTRYPOINT [\"npm\", \"start\"]\n";

const VITE: &str = "FROM node:18-alpine AS build\nWORKDIR /build\nCOPY package*.json ./\nRUN npm ci\nCOPY . .\nRUN npm run build\nFROM nginx:alpine AS production\nCOPY --from=build /build/dist /usr/share/nginx/html\n";

#[test]
fn nextjs_recipe_text() {
    let out = frontend_nextjs();
    assert_eq!(out.dockerfile, NEXT);
    assert!(out.mermaid.is_none());
}

#[test]
fn vite_recipe_text() {
    let out = frontend_vite();
    assert_eq!(out.dockerfile, VITE);
    assert!(out.mermaid.is_none());
}

#[test]
fn frontends_ignore_discovered_files() {
    let g = GenerateDockerfile::new("/app".to_string(), ProjectType::Next, None);
    let out = g.execute(two_projects("net8.0"), '/').unwrap();
    assert_eq!(out.dockerfile, NEXT);
    let g = GenerateDockerfile::new("/app".to_string(), ProjectType::Vite, None);
    let out = g.execute(Vec::new(), '/').unwrap();
    assert_eq!(out.dockerfile, VITE);
    assert!(out.warnings.is_empty());
}

#[test]
fn written_files_follow_the_project_type() {
    let w = WriteDockerfile::new();
    let input = Input {
        project_root: "/app".to_string(),
        dockerfile: "FROM x\n".to_string(),
        should_override: true,
        project_type: ProjectType::Vite,
    };
    let files = w.files(&input);
    assert_eq!(files.len(), 3);
    assert_eq!(files[0].path, "/app/Dockerfile");
    assert_eq!(files[0].contents, "FROM x\n");
    assert_eq!(files[1].path, "/app/.dockerignore");
    assert_eq!(files[1].contents, DOCKERIGNORE);
    assert_eq!(files[2].path, "/app/nginx.conf");
    assert_eq!(files[2].contents, NGINX_CONF);
    let input = Input { project_type: ProjectType::Dotnet, ..input };
    assert_eq!(w.files(&input).len(), 2);
}

#[test]
fn written_files_carry_their_failure_messages() {
    let input = Input {
        project_root: "/app".to_string(),
        dockerfile: String::new(),
        should_override: true,
        project_type: ProjectType::Vite,
    };
    let files = WriteDockerfile::new().files(&input);
    let messages: Vec<(&str, &str)> = files
        .iter()
        .map(|f| (f.create_error.as_str(), f.write_error.as_str()))
        .collect();
    assert_eq!(
        messages,
        vec![
            ("Houve um erro ao criar Dockerfile", "Erro ao escrever Dockerfile"),
            ("Erro ao criar .dockerignore", "Erro ao escrever .dockerignore"),
            ("Erro ao criar nginx.conf", "Erro ao escrever nginx.conf"),
        ]
    );
}

#[test]
fn empty_root_yields_no_framework_whatever_the_startup() {
    let r = dotnet_run(Some(""), Vec::new());
    assert!(matches!(r, Err(GenerateError::Parse(ParseError::NoFramework))));
    let r = dotnet_run(Some("/elsewhere/Api/Api.csproj"), vec![found("/sln/A/A.csproj", Ok(project(&[""], &[])))]);
    assert!(matches!(r, Err(GenerateError::Parse(ParseError::NoFramework))));
}
