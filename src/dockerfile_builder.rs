//! Path decomposition for copy instructions, and the line-oriented Dockerfile builder.
use vstd::prelude::*;

use crate::text::{
    after_last, after_last_char, contains, contains_str, join, join_with, last_piece,
    is_last_match, last_occurrence, last_piece_of, lemma_after_last_at, matches_at, segments,
    split_segments, views,
};

verus! {

/// The extension token of a project descriptor file.
pub open spec fn project_ext() -> Seq<char> {
    "csproj"@
}

/// The extension token of a compiled assembly.
pub open spec fn compiled_ext() -> Seq<char> {
    "dll"@
}

/// The non-empty segments of `full` that follow the declared root.
pub open spec fn relative_segments(full: Seq<char>, root: Seq<char>, sep: char) -> Seq<
    Seq<char>,
> {
    segments(last_piece(full, root), sep)
}

/// The segments that name a directory rather than a project descriptor.
pub open spec fn folder_segments(segs: Seq<Seq<char>>) -> Seq<Seq<char>> {
    segs.filter(|seg: Seq<char>| !contains(seg, project_ext()))
}

/// The relative descriptor path, segments joined with `/`.
pub open spec fn relative_full_path(full: Seq<char>, root: Seq<char>, sep: char) -> Seq<char> {
    join(relative_segments(full, root, sep), "/"@)
}

/// The relative folder path, descriptor segments left out, joined with `/`.
pub open spec fn relative_folder_path(full: Seq<char>, root: Seq<char>, sep: char) -> Seq<char> {
    join(folder_segments(relative_segments(full, root, sep)), "/"@)
}

/// `s` with the occurrence of `p` at `i` replaced by `r`.
pub open spec fn replace_at(s: Seq<char>, p: Seq<char>, i: int, r: Seq<char>) -> Seq<char> {
    s.subrange(0, i) + r + s.subrange(i + p.len(), s.len() as int)
}

/// The compiled assembly's name for a relative descriptor path: its last `/`-segment with
/// the last occurrence of the descriptor extension, and only that one, replaced; `None`
/// when that segment lacks the extension.
pub open spec fn compiled_artifact_name(cs_proj: Seq<char>) -> Option<Seq<char>> {
    let last = after_last(cs_proj, '/');
    if contains(last, project_ext()) {
        let i = choose|i: int| is_last_match(last, project_ext(), i);
        Some(replace_at(last, project_ext(), i, compiled_ext()))
    } else {
        None
    }
}

#[derive(Debug, Clone, Copy, PartialEq, Eq, Structural)]
pub enum DecomposeError {
    /// The path does not contain the declared root.
    RootNotFound,
    /// The last segment of the path does not hold the descriptor extension.
    MissingProjectExtension,
}

/// The path fragments that copy instructions need for one project descriptor file.
pub struct DockerFilePath {
    /// The descriptor's path relative to the root, segments joined with `/`.
    pub cs_proj: String,
    /// The same path without the descriptor segment.
    pub cs_proj_folder: String,
}

impl DockerFilePath {
    /// Decomposes `system_path` relative to `root_path`, whose segments are separated by
    /// `main_separator`.
    pub fn new(system_path: &str, root_path: &str, main_separator: char) -> (r: Result<
        DockerFilePath,
        DecomposeError,
    >)
        ensures
            r is Err <==> !contains(system_path@, root_path@),
            r is Err ==> r == Err::<DockerFilePath, DecomposeError>(DecomposeError::RootNotFound),
            r matches Ok(p) ==> p.cs_proj@ == relative_full_path(
                system_path@,
                root_path@,
                main_separator,
            ) && p.cs_proj_folder@ == relative_folder_path(
                system_path@,
                root_path@,
                main_separator,
            ),
    {
        if !contains_str(system_path, root_path) {
            return Err(DecomposeError::RootNotFound);
        }
        let relative = last_piece_of(system_path, root_path);
        let path_segments = split_segments(relative.as_str(), main_separator);
        let ghost segs = views(path_segments@);
        let mut folders: Vec<String> = Vec::new();
        let mut i: usize = 0;
        proof {
            reveal(Seq::filter);
            assert(segs.subrange(0, 0) =~= Seq::<Seq<char>>::empty());
            assert(views(folders@) =~= Seq::<Seq<char>>::empty());
        }
        while i < path_segments.len()
            invariant
                i <= path_segments@.len(),
                segs == views(path_segments@),
                views(folders@) == folder_segments(segs.subrange(0, i as int)),
            decreases path_segments@.len() - i,
        {
            let seg = &path_segments[i];
            let keep = !contains_str(seg.as_str(), "csproj");
            proof {
                let next = segs.subrange(0, i + 1);
                assert(next =~= segs.subrange(0, i as int).push(seg@));
                segs.subrange(0, i as int).lemma_filter_push(
                    seg@,
                    |seg: Seq<char>| !contains(seg, project_ext()),
                );
            }
            if keep {
                folders.push(seg.clone());
            }
            proof {
                assert(views(folders@) =~= folder_segments(segs.subrange(0, i + 1)));
            }
            i += 1;
        }
        proof {
            assert(segs.subrange(0, segs.len() as int) =~= segs);
        }
        let cs_proj = join_with(&path_segments, "/");
        let cs_proj_folder = join_with(&folders, "/");
        Ok(DockerFilePath { cs_proj, cs_proj_folder })
    }

    /// The name of the compiled assembly that the descriptor at `cs_proj` produces.
    pub fn dll(&self) -> (r: Result<String, DecomposeError>)
        ensures
            compiled_artifact_name(self.cs_proj@) matches Some(name) ==> r matches Ok(s) && s@
                == name,
            compiled_artifact_name(self.cs_proj@) is None ==> r == Err::<String, DecomposeError>(
                DecomposeError::MissingProjectExtension,
            ),
    {
        let last = after_last_char(self.cs_proj.as_str(), '/');
        let ext = "csproj";
        match last_occurrence(last.as_str(), ext) {
            None => Err(DecomposeError::MissingProjectExtension),
            Some(i) => {
                let n = last.as_str().unicode_len();
                let m = ext.unicode_len();
                proof {
                    let k = choose|k: int| is_last_match(last@, project_ext(), k);
                    assert(is_last_match(last@, project_ext(), k));
                    assert(k == i);
                }
                let mut name = String::from_str(last.as_str().substring_char(0, i));
                name.append("dll");
                name.append(last.as_str().substring_char(i + m, n));
                Ok(name)
            },
        }
    }
}

/// One instruction line: `keyword`, a space, `arg`, a line break.
pub open spec fn instruction(keyword: Seq<char>, arg: Seq<char>) -> Seq<char> {
    keyword + " "@ + arg + "\n"@
}

/// The decimal digits of a natural number.
pub open spec fn digits(n: nat) -> Seq<char>
    decreases n,
{
    if n < 10 {
        seq![digit_char(n)]
    } else {
        digits(n / 10).push(digit_char(n % 10))
    }
}

pub open spec fn digit_char(d: nat) -> char {
    "0123456789"@[d as int]
}

/// The decimal text of an integer, with a leading `-` when it is negative.
pub open spec fn decimal(n: int) -> Seq<char> {
    if n < 0 {
        "-"@ + digits((-n) as nat)
    } else {
        digits(n as nat)
    }
}

fn digits_of(n: u64) -> (r: String)
    ensures
        r@ == digits(n as nat),
    decreases n,
{
    let table = "0123456789";
    proof {
        reveal_strlit("0123456789");
    }
    let d = (n % 10) as usize;
    let last = table.substring_char(d, d + 1);
    proof {
        assert(last@ =~= seq![digit_char((n % 10) as nat)]);
    }
    if n < 10 {
        String::from_str(last)
    } else {
        let mut head = digits_of(n / 10);
        head.append(last);
        head
    }
}

/// The decimal text of `n`.
pub fn decimal_of(n: i32) -> (r: String)
    ensures
        r@ == decimal(n as int),
{
    if n < 0 {
        let magnitude: u64 = (-(n as i64)) as u64;
        let mut r = String::from_str("-");
        r.append(digits_of(magnitude).as_str());
        r
    } else {
        digits_of(n as u64)
    }
}

/// A Dockerfile under construction: each primitive appends one instruction line.
pub struct DockerfileBuilder {
    pub dockerfile: String,
}

impl DockerfileBuilder {
    pub open spec fn text(&self) -> Seq<char> {
        self.dockerfile@
    }

    pub fn new() -> (r: DockerfileBuilder)
        ensures
            r.text() == Seq::<char>::empty(),
    {
        DockerfileBuilder { dockerfile: String::new() }
    }

    fn push_instruction(&mut self, keyword: &str, arg: &str)
        ensures
            final(self).text() == old(self).text() + instruction(keyword@, arg@),
    {
        self.dockerfile.append(keyword);
        self.dockerfile.append(" ");
        self.dockerfile.append(arg);
        self.dockerfile.append("\n");
    }

    /// Appends `COPY <command>`.
    pub fn copy(&mut self, command: &str) -> (r: &mut DockerfileBuilder)
        ensures
            r.text() == old(self).text() + instruction("COPY"@, command@),
            *final(self) == *final(r),
    {
        self.push_instruction("COPY", command);
        self
    }

    /// Appends `RUN <command>`.
    pub fn run(&mut self, command: &str) -> (r: &mut DockerfileBuilder)
        ensures
            r.text() == old(self).text() + instruction("RUN"@, command@),
            *final(self) == *final(r),
    {
        self.push_instruction("RUN", command);
        self
    }

    /// Appends `ENTRYPOINT <command>`.
    pub fn entrypoint(&mut self, command: &str) -> (r: &mut DockerfileBuilder)
        ensures
            r.text() == old(self).text() + instruction("ENTRYPOINT"@, command@),
            *final(self) == *final(r),
    {
        self.push_instruction("ENTRYPOINT", command);
        self
    }

    /// Appends `FROM <image>`.
    pub fn from(&mut self, image: &str) -> (r: &mut DockerfileBuilder)
        ensures
            r.text() == old(self).text() + instruction("FROM"@, image@),
            *final(self) == *final(r),
    {
        self.push_instruction("FROM", image);
        self
    }

    /// Appends `WORKDIR <workdir>`.
    pub fn workdir(&mut self, workdir: &str) -> (r: &mut DockerfileBuilder)
        ensures
            r.text() == old(self).text() + instruction("WORKDIR"@, workdir@),
            *final(self) == *final(r),
    {
        self.push_instruction("WORKDIR", workdir);
        self
    }

    /// Appends `ARG <arg>`.
    pub fn arg(&mut self, arg: &str) -> (r: &mut DockerfileBuilder)
        ensures
            r.text() == old(self).text() + instruction("ARG"@, arg@),
            *final(self) == *final(r),
    {
        self.push_instruction("ARG", arg);
        self
    }

    /// Appends `EXPOSE <port>`.
    pub fn expose(&mut self, port: i32) -> (r: &mut DockerfileBuilder)
        ensures
            r.text() == old(self).text() + instruction("EXPOSE"@, decimal(port as int)),
            *final(self) == *final(r),
    {
        let text = decimal_of(port);
        self.push_instruction("EXPOSE", text.as_str());
        self
    }

    /// The text accumulated so far; the builder stays usable.
    pub fn build(&self) -> (r: String)
        ensures
            r@ == self.text(),
    {
        self.dockerfile.clone()
    }
}

proof fn lemma_filter_keeps_all(segs: Seq<Seq<char>>)
    requires
        forall|i: int| 0 <= i < segs.len() ==> !contains(#[trigger] segs[i], project_ext()),
    ensures
        folder_segments(segs) == segs,
    decreases segs.len(),
{
    reveal(Seq::filter);
    if segs.len() > 0 {
        lemma_filter_keeps_all(segs.drop_last());
        assert(segs.drop_last().push(segs.last()) =~= segs);
    }
}

/// No segment of a folder path holds the descriptor extension.
pub proof fn lemma_folder_segments_free_of_descriptor(segs: Seq<Seq<char>>)
    ensures
        forall|i: int|
            0 <= i < folder_segments(segs).len() ==> !contains(
                #[trigger] folder_segments(segs)[i],
                project_ext(),
            ),
{
    assert forall|i: int| 0 <= i < folder_segments(segs).len() implies !contains(
        #[trigger] folder_segments(segs)[i],
        project_ext(),
    ) by {
        segs.lemma_filter_pred(|seg: Seq<char>| !contains(seg, project_ext()), i);
    }
}

/// Whatever the number of directories between the root and a descriptor file, the
/// folder path is exactly those directories: the descriptor segment is left out, and
/// the full path keeps it.
pub proof fn lemma_folder_path_drops_descriptor(
    full: Seq<char>,
    root: Seq<char>,
    sep: char,
    dirs: Seq<Seq<char>>,
    file: Seq<char>,
)
    requires
        relative_segments(full, root, sep) == dirs.push(file),
        forall|i: int| 0 <= i < dirs.len() ==> !contains(#[trigger] dirs[i], project_ext()),
        contains(file, project_ext()),
    ensures
        relative_folder_path(full, root, sep) == join(dirs, "/"@),
        relative_full_path(full, root, sep) == join(dirs.push(file), "/"@),
{
    lemma_filter_keeps_all(dirs);
    dirs.lemma_filter_push(file, |seg: Seq<char>| !contains(seg, project_ext()));
}

/// For a relative descriptor path whose file name is a stem followed by the descriptor
/// extension, the compiled name is the stem followed by the compiled extension: the
/// extension is replaced exactly once, and the stem is kept as it is.
pub proof fn lemma_compiled_name_replaces_extension_once(dir: Seq<char>, stem: Seq<char>)
    requires
        dir.len() == 0 || dir.last() == '/',
        !stem.contains('/'),
    ensures
        compiled_artifact_name(dir + stem + project_ext()) == Some(stem + compiled_ext()),
{
    reveal_strlit("csproj");
    let ext = project_ext();
    let s = dir + stem + ext;
    assert forall|j: int| dir.len() <= j < s.len() implies s[j] != '/' by {
        if j < dir.len() + stem.len() {
            assert(s[j] == stem[j - dir.len()]);
        } else {
            assert(s[j] == ext[j - dir.len() - stem.len()]);
        }
    }
    if dir.len() > 0 {
        assert(s[dir.len() - 1] == '/');
    }
    lemma_after_last_at(s, '/', dir.len() as int);
    assert(s.subrange(dir.len() as int, s.len() as int) =~= stem + ext);
    let last = stem + ext;
    assert(last.subrange(stem.len() as int, (stem.len() + ext.len()) as int) =~= ext);
    assert(matches_at(last, ext, stem.len() as int));
    assert(is_last_match(last, ext, stem.len() as int));
    let k = choose|k: int| is_last_match(last, ext, k);
    assert(k == stem.len());
    assert(last.subrange(0, stem.len() as int) =~= stem);
    assert(last.subrange((stem.len() + ext.len()) as int, last.len() as int) =~= Seq::<char>::empty());
    assert(replace_at(last, ext, k, compiled_ext()) =~= stem + compiled_ext());
}

} // verus!
