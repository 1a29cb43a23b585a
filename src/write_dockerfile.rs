//! The files that a generation run leaves in the project root.
use vstd::prelude::*;

use crate::generate_dockerfile::ProjectType;

verus! {

pub struct Input {
    pub project_root: String,
    pub dockerfile: String,
    pub should_override: bool,
    pub project_type: ProjectType,
}

/// One file to create: where, what it holds, and the messages for failing to create it
/// or to write it.
pub struct FileToWrite {
    pub path: String,
    pub contents: String,
    pub create_error: String,
    pub write_error: String,
}

pub struct WriteDockerfile {}

/// A planned file: its path, its contents, and its two failure messages.
pub type PlannedFile = (Seq<char>, Seq<char>, Seq<char>, Seq<char>);

pub open spec fn file_view(f: FileToWrite) -> PlannedFile {
    (f.path@, f.contents@, f.create_error@, f.write_error@)
}

/// The files for `input`, in the order they are written: the Dockerfile, the ignore file,
/// and for a Vite project the nginx configuration; writing stops at the first failure,
/// which is reported by that file's message.
pub open spec fn planned_files(root: Seq<char>, dockerfile: Seq<char>, project_type: ProjectType) -> Seq<
    PlannedFile,
> {
    let common = seq![
        (
            root + "/Dockerfile"@,
            dockerfile,
            "Houve um erro ao criar Dockerfile"@,
            "Erro ao escrever Dockerfile"@,
        ),
        (
            root + "/.dockerignore"@,
            DOCKERIGNORE@,
            "Erro ao criar .dockerignore"@,
            "Erro ao escrever .dockerignore"@,
        ),
    ];
    if project_type == ProjectType::Vite {
        common.push(
            (
                root + "/nginx.conf"@,
                NGINX_CONF@,
                "Erro ao criar nginx.conf"@,
                "Erro ao escrever nginx.conf"@,
            ),
        )
    } else {
        common
    }
}

pub const DOCKERIGNORE: &'static str = "
node_modules/
dist/
.next/
**/node_modules
**/dist
**/.next        
**/.classpath
**/.dockerignore
**/.env
**/.git
**/.gitignore
**/.project
**/.settings
**/.toolstarget
**/.vs
**/.vscode
**/*.*proj.user
**/*.dbmdl
**/*.jfm
**/azds.yaml
**/bin
**/charts
**/docker-compose*
**/Dockerfile*
**/node_modules
**/npm-debug.log
**/obj
**/secrets.dev.yaml
**/values.dev.yaml
LICENSE
README.md
!**/.gitignore
!.git/HEAD
!.git/config
!.git/packed-refs
!.git/refs/heads/**
        ";

pub const NGINX_CONF: &'static str = "
                server {
                    listen 80;
                    location / {
                        root   /usr/share/nginx/html;
                        index  index.html index.htm;
                        try_files $uri /index.html;
                    }
                }
                ";

fn file(root: &str, name: &str, contents: &str, create_error: &str, write_error: &str) -> (r:
    FileToWrite)
    ensures
        r.path@ == root@ + name@,
        r.contents@ == contents@,
        r.create_error@ == create_error@,
        r.write_error@ == write_error@,
{
    let mut path = String::from_str(root);
    path.append(name);
    FileToWrite {
        path,
        contents: String::from_str(contents),
        create_error: String::from_str(create_error),
        write_error: String::from_str(write_error),
    }
}

impl WriteDockerfile {
    pub fn new() -> Self {
        Self {  }
    }

    /// The files that writing `input` creates, in order.
    pub fn files(&self, input: &Input) -> (r: Vec<FileToWrite>)
        ensures
            r@.map_values(|f: FileToWrite| file_view(f)) == planned_files(
                input.project_root@,
                input.dockerfile@,
                input.project_type,
            ),
    {
        let root = input.project_root.as_str();
        let mut files: Vec<FileToWrite> = Vec::new();
        files.push(
            file(
                root,
                "/Dockerfile",
                input.dockerfile.as_str(),
                "Houve um erro ao criar Dockerfile",
                "Erro ao escrever Dockerfile",
            ),
        );
        files.push(
            file(
                root,
                "/.dockerignore",
                DOCKERIGNORE,
                "Erro ao criar .dockerignore",
                "Erro ao escrever .dockerignore",
            ),
        );
        if input.project_type == ProjectType::Vite {
            files.push(
                file(
                    root,
                    "/nginx.conf",
                    NGINX_CONF,
                    "Erro ao criar nginx.conf",
                    "Erro ao escrever nginx.conf",
                ),
            );
        }
        proof {
            assert(files@.map_values(|f: FileToWrite| file_view(f)) =~= planned_files(
                input.project_root@,
                input.dockerfile@,
                input.project_type,
            ));
        }
        files
    }
}

} // verus!
