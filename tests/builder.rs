use dockerfile_gen::dotnet;
use dockerfile_gen::{DockerFilePath, DockerfileBuilder};

#[test]
fn primitives_append_one_line_each() {
    let text = DockerfileBuilder::new()
        .from("img")
        .workdir("/app")
        .arg("A=1")
        .expose(80)
        .copy(". .")
        .run("npm ci")
        .entrypoint("[\"x\"]")
        .build();
    assert_eq!(
        text,
        "FROM img\nWORKDIR /app\nARG A=1\nEXPOSE 80\nCOPY . .\nRUN npm ci\nENTRYPOINT [\"x\"]\n"
    );
}

#[test]
fn build_leaves_the_builder_usable() {
    let mut b = DockerfileBuilder::new();
    b.from("a");
    assert_eq!(b.build(), "FROM a\n");
    b.run("b");
    assert_eq!(b.build(), "FROM a\nRUN b\n");
}

#[test]
fn expose_writes_decimal_ports() {
    let mut b = DockerfileBuilder::new();
    b.expose(0).expose(8081).expose(-5).expose(i32::MIN);
    assert_eq!(
        b.build(),
        "EXPOSE 0\nEXPOSE 8081\nEXPOSE -5\nEXPOSE -2147483648\n"
    );
}

fn header(version: &str, http: u32, https: u32) -> String {
    format!(
        "FROM mcr.microsoft.com/dotnet/aspnet:{v} AS base\nEXPOSE {h}\nEXPOSE {s}\nWORKDIR /app\nFROM mcr.microsoft.com/dotnet/sdk:{v} AS build\nARG BUILD_CONFIGURATION=Release\nWORKDIR /src\n",
        v = version,
        h = http,
        s = https
    )
}

fn startup() -> DockerFilePath {
    DockerFilePath::new("/sln/Api/Api.csproj", "/sln", '/').unwrap()
}

#[test]
fn dotnet_six_exposes_80_and_443() {
    let mut b = dotnet::new();
    let text = b.dotnet("6.0").build(&startup()).unwrap();
    assert!(text.starts_with(&header("6.0", 80, 443)));
}

#[test]
fn dotnet_eight_exposes_8080_and_8081() {
    let mut b = dotnet::new();
    let text = b.dotnet("8.0").build(&startup()).unwrap();
    assert!(text.starts_with(&header("8.0", 8080, 8081)));
}

#[test]
fn dotnet_ports_follow_the_major_version() {
    for (v, http, https) in [("7.9", 80, 443), ("10.0", 8080, 8081), ("8", 8080, 8081), ("", 80, 443)] {
        let mut b = dotnet::new();
        let text = b.dotnet(v).build(&startup()).unwrap();
        assert!(text.starts_with(&header(v, http, https)), "version {:?}", v);
    }
}

#[test]
fn dotnet_recipe_is_complete() {
    let api = startup();
    let core = DockerFilePath::new("/sln/Core/Core.csproj", "/sln", '/').unwrap();
    let mut b = dotnet::new();
    b.copy_csproj(&api).copy_csproj_folder(&api);
    b.copy_csproj(&core).copy_csproj_folder(&core);
    let text = b.dotnet("8.0").build(&api).unwrap();
    let expected = header("8.0", 8080, 8081)
        + "COPY ./Api/Api.csproj ./Api/Api.csproj\n"
        + "COPY ./Core/Core.csproj ./Core/Core.csproj\n"
        + "RUN dotnet restore ./Api/Api.csproj\n"
        + "COPY ./Api ./Api\n"
        + "COPY ./Core ./Core\n"
        + "RUN dotnet build ./Api/Api.csproj -c $BUILD_CONFIGURATION -o /app/build\n"
        + "\n"
        + "FROM build AS publish\n"
        + "RUN dotnet publish ./Api/Api.csproj -c $BUILD_CONFIGURATION -o /app/publish /p:UseAppHost=false\n"
        + "\n"
        + "FROM base AS final\n"
        + "WORKDIR /app\n"
        + "COPY --from=publish /app/publish .\n"
        + "ENTRYPOINT [\"dotnet\", \"Api.dll\"]\n";
    assert_eq!(text, expected);
}

#[test]
fn dotnet_build_fails_without_a_descriptor_startup() {
    let bad = DockerFilePath::new("/sln/Api/readme.md", "/sln", '/').unwrap();
    let mut b = dotnet::new();
    assert!(b.dotnet("8.0").build(&bad).is_err());
}
