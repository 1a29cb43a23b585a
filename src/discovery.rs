//! Which walked paths are project descriptor files to generate from.
use vstd::prelude::*;

use crate::text::{after_last, after_last_char, contains, contains_str, matches_at, views};

verus! {

/// Paths that look like test directories or files are never used.
pub open spec fn excluded_path(path: Seq<char>) -> bool {
    contains(path, "test"@)
}

/// A file name whose extension is the descriptor extension: a non-empty stem, then
/// `.csproj`.
pub open spec fn has_project_extension(name: Seq<char>) -> bool {
    name.len() > ".csproj"@.len() && name.subrange(
        name.len() - ".csproj"@.len(),
        name.len() as int,
    ) == ".csproj"@
}

/// A walked path that names a descriptor file outside any excluded path.
pub open spec fn is_project_path(path: Seq<char>, sep: char) -> bool {
    !excluded_path(path) && has_project_extension(after_last(path, sep))
}

/// Whether the walk skips `path` together with everything below it.
pub fn is_excluded_path(path: &str) -> (r: bool)
    ensures
        r == excluded_path(path@),
{
    contains_str(path, "test")
}

/// Whether `name` is the file name of a project descriptor.
pub fn is_project_file_name(name: &str) -> (r: bool)
    ensures
        r == has_project_extension(name@),
{
    let ext = ".csproj";
    let n = name.unicode_len();
    let m = ext.unicode_len();
    if n <= m {
        return false;
    }
    let r = crate::text::occurs_at(name, ext, n - m);
    proof {
        assert(r == matches_at(name@, ext@, (n - m) as int));
    }
    r
}

/// The descriptor files among the walked `paths`, in walk order.
pub fn select_project_files(paths: &Vec<String>, separator: char) -> (r: Vec<String>)
    ensures
        views(r@) == views(paths@).filter(|p: Seq<char>| is_project_path(p, separator)),
        forall|i: int| 0 <= i < r@.len() ==> !excluded_path(#[trigger] r@[i]@),
{
    let mut out: Vec<String> = Vec::new();
    let mut i: usize = 0;
    let ghost all = views(paths@);
    proof {
        reveal(Seq::filter);
        assert(all.subrange(0, 0) =~= Seq::<Seq<char>>::empty());
        assert(views(out@) =~= Seq::<Seq<char>>::empty());
    }
    while i < paths.len()
        invariant
            i <= paths@.len(),
            all == views(paths@),
            views(out@) == all.subrange(0, i as int).filter(
                |p: Seq<char>| is_project_path(p, separator),
            ),
            forall|j: int| 0 <= j < out@.len() ==> !excluded_path(#[trigger] out@[j]@),
        decreases paths@.len() - i,
    {
        let path = paths[i].as_str();
        proof {
            assert(all.subrange(0, i + 1) =~= all.subrange(0, i as int).push(path@));
            all.subrange(0, i as int).lemma_filter_push(
                path@,
                |p: Seq<char>| is_project_path(p, separator),
            );
        }
        let keep = if is_excluded_path(path) {
            false
        } else {
            let name = after_last_char(path, separator);
            is_project_file_name(name.as_str())
        };
        if keep {
            let ghost before = out@;
            out.push(paths[i].clone());
            proof {
                assert(views(out@) =~= views(before).push(path@));
            }
        }
        i += 1;
    }
    proof {
        assert(all.subrange(0, i as int) =~= all);
    }
    out
}

/// A path with a segment that holds `test` is excluded, at any depth and whatever
/// surrounds that segment, so it is never selected.
pub proof fn lemma_test_segment_excluded(
    before: Seq<char>,
    segment: Seq<char>,
    after: Seq<char>,
    sep: char,
)
    requires
        contains(segment, "test"@),
    ensures
        excluded_path(before + segment + after),
        !is_project_path(before + segment + after, sep),
{
    let path = before + segment + after;
    let i = choose|i: int| matches_at(segment, "test"@, i);
    let k = before.len() + i;
    assert(path.subrange(k, k + "test"@.len()) =~= segment.subrange(i, i + "test"@.len()));
    assert(matches_at(path, "test"@, k));
}

} // verus!
