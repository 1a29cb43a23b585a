//! The multi-stage Dockerfile recipe for a .NET service.
use vstd::prelude::*;

use crate::dockerfile_builder::{
    compiled_artifact_name, decimal, instruction, DecomposeError, DockerFilePath,
    DockerfileBuilder,
};

verus! {

pub open spec fn is_digit(c: char) -> bool {
    '0' <= c && c <= '9'
}

/// The number spelled by the digits at the start of `s`, read after `acc`.
pub open spec fn leading_number(s: Seq<char>, acc: int) -> int
    decreases s.len(),
{
    if s.len() > 0 && is_digit(s[0]) {
        leading_number(s.skip(1), acc * 10 + (s[0] as int - '0' as int))
    } else {
        acc
    }
}

/// The major version of a version string such as `8.0` (0 when it starts with no digit).
pub open spec fn major_version(v: Seq<char>) -> int {
    leading_number(v, 0)
}

/// The HTTP port that the runtime image listens on for version `v`.
pub open spec fn http_port(v: Seq<char>) -> int {
    if major_version(v) < 8 {
        80
    } else {
        8080
    }
}

/// The HTTPS port that the runtime image listens on for version `v`.
pub open spec fn https_port(v: Seq<char>) -> int {
    if major_version(v) < 8 {
        443
    } else {
        8081
    }
}

/// The base and build stages' opening lines for version `v`.
pub open spec fn dotnet_header(v: Seq<char>) -> Seq<char> {
    instruction("FROM"@, "mcr.microsoft.com/dotnet/aspnet:"@ + v + " AS base"@) + instruction(
        "EXPOSE"@,
        decimal(http_port(v)),
    ) + instruction("EXPOSE"@, decimal(https_port(v))) + instruction("WORKDIR"@, "/app"@)
        + instruction("FROM"@, "mcr.microsoft.com/dotnet/sdk:"@ + v + " AS build"@) + instruction(
        "ARG"@,
        "BUILD_CONFIGURATION=Release"@,
    ) + instruction("WORKDIR"@, "/src"@)
}

/// `COPY ./<path> ./<path>`.
pub open spec fn copy_line(path: Seq<char>) -> Seq<char> {
    instruction("COPY"@, "./"@ + path + " ./"@ + path)
}

/// The restore, build, publish and final stages for the startup project at `cs_proj`,
/// whose assembly is `dll`, around the two groups of copy lines.
pub open spec fn dotnet_body(
    csproj_copies: Seq<char>,
    cs_proj: Seq<char>,
    project_copies: Seq<char>,
    dll: Seq<char>,
) -> Seq<char> {
    csproj_copies + instruction("RUN"@, "dotnet restore ./"@ + cs_proj) + project_copies
        + instruction(
        "RUN"@,
        "dotnet build ./"@ + cs_proj + " -c $BUILD_CONFIGURATION -o /app/build"@,
    ) + "\n"@ + instruction("FROM"@, "build AS publish"@) + instruction(
        "RUN"@,
        "dotnet publish ./"@ + cs_proj
            + " -c $BUILD_CONFIGURATION -o /app/publish /p:UseAppHost=false"@,
    ) + "\n"@ + instruction("FROM"@, "base AS final"@) + instruction("WORKDIR"@, "/app"@)
        + instruction("COPY"@, "--from=publish /app/publish ."@) + instruction(
        "ENTRYPOINT"@,
        "[\"dotnet\", \""@ + dll + "\"]"@,
    )
}

proof fn lemma_leading_number_capped(t: Seq<char>, a: int)
    requires
        a >= 0,
    ensures
        (leading_number(t, a) >= 8) == (leading_number(t, if a < 8 {
            a
        } else {
            8
        }) >= 8),
    decreases t.len(),
{
    if t.len() > 0 && is_digit(t[0]) {
        let d = t[0] as int - '0' as int;
        let c = if a < 8 {
            a
        } else {
            8
        };
        lemma_leading_number_capped(t.skip(1), a * 10 + d);
        lemma_leading_number_capped(t.skip(1), c * 10 + d);
    }
}

/// Whether version `v` is at least major version 8.
pub fn is_major_at_least_8(v: &str) -> (r: bool)
    ensures
        r == (major_version(v@) >= 8),
{
    let n = v.unicode_len();
    let mut acc: u64 = 0;
    let mut i: usize = 0;
    proof {
        assert(v@.subrange(0, n as int) =~= v@);
    }
    while i < n
        invariant
            n == v@.len(),
            i <= n,
            acc <= 8,
            (major_version(v@) >= 8) == (leading_number(
                v@.subrange(i as int, n as int),
                acc as int,
            ) >= 8),
        decreases n - i,
    {
        let c = v.get_char(i);
        let ghost t = v@.subrange(i as int, n as int);
        if !('0' <= c && c <= '9') {
            return acc >= 8;
        }
        let d = (c as u32 - '0' as u32) as u64;
        let next = acc * 10 + d;
        proof {
            assert(t.skip(1) =~= v@.subrange(i + 1, n as int));
            lemma_leading_number_capped(t.skip(1), next as int);
        }
        acc = if next < 8 {
            next
        } else {
            8
        };
        i += 1;
    }
    acc >= 8
}

/// Assembles the Dockerfile of a .NET service: the stage header, then the copy lines
/// gathered per discovered project, then the restore, build, publish and final stages.
pub struct Builder {
    pub docker_file_builder: DockerfileBuilder,
    pub copy_csproj: String,
    pub copy_project: String,
}

pub fn new() -> (r: Builder)
    ensures
        r.docker_file_builder.text() == Seq::<char>::empty(),
        r.copy_csproj@ == Seq::<char>::empty(),
        r.copy_project@ == Seq::<char>::empty(),
{
    Builder {
        docker_file_builder: DockerfileBuilder::new(),
        copy_csproj: String::new(),
        copy_project: String::new(),
    }
}

fn copy_instruction(path: &str) -> (r: String)
    ensures
        r@ == copy_line(path@),
{
    let mut b = DockerfileBuilder::new();
    let mut arg = String::from_str("./");
    arg.append(path);
    arg.append(" ./");
    arg.append(path);
    b.copy(arg.as_str());
    b.build()
}

fn stage_image(prefix: &str, version: &str, suffix: &str) -> (r: String)
    ensures
        r@ == prefix@ + version@ + suffix@,
{
    let mut s = String::from_str(prefix);
    s.append(version);
    s.append(suffix);
    s
}

impl Builder {
    /// Starts the text over with the base and build stages for `dotnet_version`.
    pub fn dotnet(&mut self, dotnet_version: &str) -> (r: &mut Builder)
        ensures
            r.docker_file_builder.text() == dotnet_header(dotnet_version@),
            r.copy_csproj@ == old(self).copy_csproj@,
            r.copy_project@ == old(self).copy_project@,
            *final(self) == *final(r),
    {
        let current = is_major_at_least_8(dotnet_version);
        let http: i32 = if current {
            8080
        } else {
            80
        };
        let https: i32 = if current {
            8081
        } else {
            443
        };
        let base = stage_image("mcr.microsoft.com/dotnet/aspnet:", dotnet_version, " AS base");
        let sdk = stage_image("mcr.microsoft.com/dotnet/sdk:", dotnet_version, " AS build");
        self.docker_file_builder.dockerfile = DockerfileBuilder::new().from(base.as_str()).expose(
            http,
        ).expose(https).workdir("/app").from(sdk.as_str()).arg("BUILD_CONFIGURATION=Release").workdir(
            "/src",
        ).build();
        proof {
            assert(self.docker_file_builder.text() =~= dotnet_header(dotnet_version@));
        }
        self
    }

    /// Adds the copy of a project's descriptor file, used before the restore.
    pub fn copy_csproj(&mut self, docker_file_path: &DockerFilePath) -> (r: &mut Builder)
        ensures
            r.copy_csproj@ == old(self).copy_csproj@ + copy_line(docker_file_path.cs_proj@),
            r.copy_project@ == old(self).copy_project@,
            r.docker_file_builder.text() == old(self).docker_file_builder.text(),
            *final(self) == *final(r),
    {
        let line = copy_instruction(docker_file_path.cs_proj.as_str());
        self.copy_csproj.append(line.as_str());
        self
    }

    /// Adds the copy of a project's folder, used after the restore.
    pub fn copy_csproj_folder(&mut self, docker_file_path: &DockerFilePath) -> (r: &mut Builder)
        ensures
            r.copy_project@ == old(self).copy_project@ + copy_line(
                docker_file_path.cs_proj_folder@,
            ),
            r.copy_csproj@ == old(self).copy_csproj@,
            r.docker_file_builder.text() == old(self).docker_file_builder.text(),
            *final(self) == *final(r),
    {
        let line = copy_instruction(docker_file_path.cs_proj_folder.as_str());
        self.copy_project.append(line.as_str());
        self
    }

    /// Finishes the Dockerfile for the startup project and returns its text; fails, and
    /// leaves the builder as it was, when the startup path names no descriptor file.
    pub fn build(&mut self, startup_docker_file_path: &DockerFilePath) -> (r: Result<
        String,
        DecomposeError,
    >)
        ensures
            compiled_artifact_name(startup_docker_file_path.cs_proj@) matches Some(dll) ==> r matches Ok(
                s,
            ) && s@ == old(self).docker_file_builder.text() + dotnet_body(
                old(self).copy_csproj@,
                startup_docker_file_path.cs_proj@,
                old(self).copy_project@,
                dll,
            ) && final(self).docker_file_builder.text() == s@,
            compiled_artifact_name(startup_docker_file_path.cs_proj@) is None ==> r == Err::<
                String,
                DecomposeError,
            >(DecomposeError::MissingProjectExtension) && final(self).docker_file_builder.text() == old(self).docker_file_builder.text(),
            final(self).copy_csproj@ == old(self).copy_csproj@,
            final(self).copy_project@ == old(self).copy_project@,
    {
        let dll = match startup_docker_file_path.dll() {
            Ok(name) => name,
            Err(e) => {
                return Err(e);
            },
        };
        let cs_proj = startup_docker_file_path.cs_proj.as_str();
        let ghost start = self.docker_file_builder.text();
        let restore = stage_image("dotnet restore ./", cs_proj, "");
        let build = stage_image("dotnet build ./", cs_proj, " -c $BUILD_CONFIGURATION -o /app/build");
        let publish = stage_image(
            "dotnet publish ./",
            cs_proj,
            " -c $BUILD_CONFIGURATION -o /app/publish /p:UseAppHost=false",
        );
        let entry = stage_image("[\"dotnet\", \"", dll.as_str(), "\"]");
        let b = &mut self.docker_file_builder;
        b.dockerfile.append(self.copy_csproj.as_str());
        b.run(restore.as_str());
        b.dockerfile.append(self.copy_project.as_str());
        b.run(build.as_str());
        b.dockerfile.append("\n");
        b.from("build AS publish").run(publish.as_str());
        b.dockerfile.append("\n");
        b.from("base AS final").workdir("/app").copy("--from=publish /app/publish .").entrypoint(
            entry.as_str(),
        );
        proof {
            reveal_strlit("");
            assert("dotnet restore ./"@ + cs_proj@ + ""@ =~= "dotnet restore ./"@ + cs_proj@);
            assert(self.docker_file_builder.text() =~= start + dotnet_body(
                self.copy_csproj@,
                cs_proj@,
                self.copy_project@,
                dll@,
            ));
        }
        Ok(self.docker_file_builder.build())
    }
}

} // verus!
