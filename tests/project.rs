use dockerfile_gen::discovery::{is_excluded_path, is_project_file_name, select_project_files};
use dockerfile_gen::project::keep_version_chars;
use dockerfile_gen::{ItemGroup, Mermaid, ParseError, Project, ProjectReference, PropertyGroup};

fn project(name: &str, frameworks: &[&str], groups: &[&[&str]]) -> Project {
    Project {
        name: name.to_string(),
        property_group: frameworks
            .iter()
            .map(|f| PropertyGroup { target_framework: f.to_string() })
            .collect(),
        items_groups: groups
            .iter()
            .map(|g| ItemGroup {
                project_reference: g
                    .iter()
                    .map(|r| ProjectReference { reference_path: r.to_string() })
                    .collect(),
            })
            .collect(),
    }
}

#[test]
fn version_of_net8_is_8_0() {
    let p = project("a", &["net8.0"], &[]);
    assert_eq!(p.get_dotnet_version().unwrap(), "8.0");
}

#[test]
fn version_of_net481_is_481() {
    let p = project("a", &["net481"], &[]);
    assert_eq!(p.get_dotnet_version().unwrap(), "481");
}

#[test]
fn version_comes_from_first_non_empty_framework() {
    let p = project("a", &["", "net6.0", "net8.0"], &[]);
    assert_eq!(p.get_dotnet_version().unwrap(), "6.0");
}

#[test]
fn version_without_any_framework_is_an_error() {
    let p = project("a", &["", ""], &[]);
    assert_eq!(p.get_dotnet_version(), Err(ParseError::NoFramework));
    let q = project("a", &[], &[]);
    assert_eq!(q.get_dotnet_version(), Err(ParseError::NoFramework));
}

#[test]
fn version_chars_keep_digits_and_dots_in_order() {
    assert_eq!(keep_version_chars("netcoreapp3.1"), "3.1");
    assert_eq!(keep_version_chars("v1.2-rc.3"), "1.2.3");
    assert_eq!(keep_version_chars("net"), "");
}

#[test]
fn include_name_is_last_segment() {
    let r = ProjectReference { reference_path: "..\\Core\\Core.csproj".to_string() };
    assert_eq!(r.get_include(), "Core.csproj");
    let r = ProjectReference { reference_path: "../Shared/Shared.csproj".to_string() };
    assert_eq!(r.get_include(), "Shared.csproj");
    let r = ProjectReference { reference_path: "Plain.csproj".to_string() };
    assert_eq!(r.get_include(), "Plain.csproj");
}

#[test]
fn project_name_is_last_path_segment() {
    let mut p = project("", &["net8.0"], &[]);
    p.update_project_name("/sln/Api/Api.csproj", '/');
    assert_eq!(p.name, "Api.csproj");
    p.update_project_name("C:\\sln\\Web\\Web.csproj", '\\');
    assert_eq!(p.name, "Web.csproj");
}

#[test]
fn empty_item_groups_are_dropped() {
    let mut p = project("a", &["net8.0"], &[&[], &["x.csproj"], &[], &["y.csproj", "z.csproj"]]);
    let kept = p.filter_only_item_groups_with_reference();
    assert_eq!(kept.len(), 2);
    p.update_items_groups();
    assert_eq!(p.items_groups.len(), 2);
    assert_eq!(p.items_groups[0].project_reference[0].reference_path, "x.csproj");
    assert_eq!(p.items_groups[1].project_reference.len(), 2);
}

#[test]
fn graph_lists_edges_in_input_order() {
    let projects = vec![
        project("Api.csproj", &[], &[&["..\\Core\\Core.csproj"], &["..\\Data\\Data.csproj"]]),
        project("Core.csproj", &[], &[&["..\\Data\\Data.csproj"]]),
    ];
    let expected = "graph LR\n\tsubgraph Dependencias\n\t\tdirection LR\n\t\tApi.csproj --> Core.csproj\n\t\tApi.csproj --> Data.csproj\n\t\tCore.csproj --> Data.csproj\n\tend\n";
    assert_eq!(projects.to_mermaid(), expected);
    assert_eq!(projects.to_mermaid(), projects.to_mermaid());
}

#[test]
fn graph_keeps_duplicate_edges() {
    let projects = vec![project(
        "Api.csproj",
        &[],
        &[&["..\\Core\\Core.csproj", "..\\Core\\Core.csproj"]],
    )];
    let text = projects.to_mermaid();
    assert_eq!(text.matches("Api.csproj --> Core.csproj").count(), 2);
}

#[test]
fn graph_of_no_projects_has_only_the_frame() {
    let projects: Vec<Project> = Vec::new();
    assert_eq!(
        projects.to_mermaid(),
        "graph LR\n\tsubgraph Dependencias\n\t\tdirection LR\n\tend\n"
    );
}

#[test]
fn test_paths_are_excluded() {
    assert!(is_excluded_path("/sln/tests/A/A.csproj"));
    assert!(is_excluded_path("/sln/A.unittests/A.csproj"));
    assert!(!is_excluded_path("/sln/A.UnitTests/A.csproj"));
    assert!(is_excluded_path("/sln/src/latest/A.csproj"));
    assert!(!is_excluded_path("/sln/src/A/A.csproj"));
    assert!(!is_excluded_path("/sln/Test/A.csproj"));
}

#[test]
fn project_file_names_need_a_stem_and_the_extension() {
    assert!(is_project_file_name("A.csproj"));
    assert!(is_project_file_name("a.b.csproj"));
    assert!(!is_project_file_name(".csproj"));
    assert!(!is_project_file_name("A.csproj.user"));
    assert!(!is_project_file_name("A.fsproj"));
}

#[test]
fn selection_keeps_descriptors_outside_test_paths_in_order() {
    let paths: Vec<String> = [
        "/sln",
        "/sln/Api",
        "/sln/Api/Api.csproj",
        "/sln/Api/Program.cs",
        "/sln/api.tests/api.tests.csproj",
        "/sln/Api.Tests/Api.Tests.csproj",
        "/sln/tests/Deep/Deeper/Deep.csproj",
        "/sln/Core/Core.csproj",
    ]
    .iter()
    .map(|s| s.to_string())
    .collect();
    let selected = select_project_files(&paths, '/');
    assert_eq!(
        selected,
        vec![
            "/sln/Api/Api.csproj".to_string(),
            "/sln/Api.Tests/Api.Tests.csproj".to_string(),
            "/sln/Core/Core.csproj".to_string()
        ]
    );
}
