use dockerfile_gen::{DecomposeError, DockerFilePath};

#[test]
fn docker_file_path_should_be_able_to_parse_windows_cs_project() {
    let sut = DockerFilePath::new(
        "C:\\Users\\user\\sln_folder\\project_folder\\project_folder.csproj",
        "C:\\Users\\user\\sln_folder",
        '\\',
    );

    assert_eq!(sut.is_ok(), true);
    let result = sut.unwrap();
    assert_eq!(result.cs_proj, "project_folder/project_folder.csproj");
    assert_eq!(result.cs_proj_folder, "project_folder");
}

#[test]
fn docker_file_path_should_be_able_to_parse_linx_cs_project() {
    let sut = DockerFilePath::new(
        "/home/user/sln_folder/project_folder/project_folder.csproj",
        "/home/user/sln_folder",
        '/',
    );
    assert_eq!(sut.is_ok(), true);
    let result = sut.unwrap();
    assert_eq!(result.cs_proj, "project_folder/project_folder.csproj");
    assert_eq!(result.cs_proj_folder, "project_folder");
}

#[test]
fn dockerfile_path_should_be_able_to_parse_projects_inside_nested_folder() {
    let sut = DockerFilePath::new(
        "/home/user/sln_folder/src/project_folder/project_folder.csproj",
        "/home/user/sln_folder",
        '/',
    );
    assert_eq!(sut.is_ok(), true);
    let result = sut.unwrap();
    assert_eq!(result.cs_proj, "src/project_folder/project_folder.csproj");
    assert_eq!(result.cs_proj_folder, "src/project_folder");
}

#[test]
fn root_with_trailing_separator_decomposes() {
    let result = DockerFilePath::new("/home/user/sln/src/proj/proj.csproj", "/home/user/sln/", '/')
        .unwrap();
    assert_eq!(result.cs_proj, "src/proj/proj.csproj");
    assert_eq!(result.cs_proj_folder, "src/proj");
}

#[test]
fn descriptor_directly_under_root_has_empty_folder() {
    let result = DockerFilePath::new("/sln/app.csproj", "/sln", '/').unwrap();
    assert_eq!(result.cs_proj, "app.csproj");
    assert_eq!(result.cs_proj_folder, "");
}

#[test]
fn deeply_nested_descriptor_keeps_every_directory() {
    let result = DockerFilePath::new("/sln/a/b/c/d/app.csproj", "/sln", '/').unwrap();
    assert_eq!(result.cs_proj, "a/b/c/d/app.csproj");
    assert_eq!(result.cs_proj_folder, "a/b/c/d");
}

#[test]
fn repeated_separators_give_no_empty_segments() {
    let result = DockerFilePath::new("/sln//src///app//app.csproj", "/sln", '/').unwrap();
    assert_eq!(result.cs_proj, "src/app/app.csproj");
    assert_eq!(result.cs_proj_folder, "src/app");
}

#[test]
fn path_outside_root_is_rejected() {
    let result = DockerFilePath::new("/other/app/app.csproj", "/sln", '/');
    assert!(matches!(result, Err(DecomposeError::RootNotFound)));
}

#[test]
fn last_occurrence_of_root_is_where_the_relative_path_starts() {
    let result = DockerFilePath::new("/x/sln/y/sln/app/app.csproj", "/sln", '/').unwrap();
    assert_eq!(result.cs_proj, "app/app.csproj");
}

#[test]
fn dll_replaces_the_descriptor_extension() {
    let result = DockerFilePath::new("/sln/src/proj/proj.csproj", "/sln", '/').unwrap();
    assert_eq!(result.dll().unwrap(), "proj.dll");
}

#[test]
fn dll_without_descriptor_extension_is_an_error() {
    let result = DockerFilePath::new("/sln/src/proj/readme.txt", "/sln", '/').unwrap();
    assert!(matches!(result.dll(), Err(DecomposeError::MissingProjectExtension)));
}

#[test]
fn dll_replaces_only_the_extension() {
    let result = DockerFilePath::new("/sln/csproj.tools/csproj.tools.csproj", "/sln", '/').unwrap();
    assert_eq!(result.dll().unwrap(), "csproj.tools.dll");
}

#[test]
fn dll_of_a_file_named_after_the_extension() {
    let result = DockerFilePath::new("/sln/csproj/csproj.csproj", "/sln", '/').unwrap();
    assert_eq!(result.dll().unwrap(), "csproj.dll");
}
