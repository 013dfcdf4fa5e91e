//! Client-side project packing: which files an upload keeps, the archive
//! built from them, and the checksum that identifies the content.
//! Walking the project directory happens outside the library, which is
//! handed the files as plain (path, contents) pairs.

use vstd::prelude::*;
use vstd::string::StrSliceExecFns;
use vstd::string::StringExecFns;

use crate::archive::build_tar_gz;
use crate::archive::entry_views;
use crate::archive::sha256_hex;
use crate::archive::sha256_of;
use crate::text::hex_of;
use crate::archive::targz_buildable;
use crate::archive::targz_of;
use crate::text::contains_chars;
use crate::text::has_suffix_chars;
use crate::text::str_contains;
use crate::text::str_ends_with;
use crate::text::str_starts_with;

verus! {

/// Whether one exclude pattern matches a path: a leading `*` matches a
/// suffix, a trailing `*` a prefix, anything else any substring.
pub open spec fn spec_pattern_matches(path: Seq<char>, pat: Seq<char>) -> bool {
    if pat.len() > 0 && pat[0] == '*' {
        has_suffix_chars(path, pat.skip(1))
    } else if pat.len() > 0 && pat.last() == '*' {
        pat.len() - 1 <= path.len() && path.subrange(0, pat.len() - 1) == pat.take(pat.len() - 1)
    } else {
        contains_chars(path, pat)
    }
}

/// A path is excluded when any pattern matches it.
pub open spec fn spec_excluded(path: Seq<char>, pats: Seq<Seq<char>>) -> bool {
    exists|i: int| 0 <= i < pats.len() && spec_pattern_matches(path, #[trigger] pats[i])
}

/// Whether a path is excluded from sync by the given patterns.
pub fn should_exclude(path: &str, patterns: &Vec<String>) -> (r: bool)
    ensures
        r == spec_excluded(path@, patterns@.map_values(|p: String| p@)),
{
    let ghost pats = patterns@.map_values(|p: String| p@);
    let n = patterns.len();
    let mut i: usize = 0;
    while i < n
        invariant
            0 <= i <= n,
            n == pats.len(),
            n == patterns@.len(),
            pats == patterns@.map_values(|p: String| p@),
            forall|j: int| 0 <= j < i ==> !spec_pattern_matches(path@, #[trigger] pats[j]),
        decreases n - i,
    {
        let pat = patterns[i].as_str();
        let m = pat.unicode_len();
        assert(pats[i as int] == pat@);
        let hit: bool = if m > 0 && pat.get_char(0) == '*' {
            let suffix = pat.substring_char(1, m);
            assert(suffix@ =~= pat@.skip(1));
            str_ends_with(path, suffix)
        } else if m > 0 && pat.get_char(m - 1) == '*' {
            let prefix = pat.substring_char(0, m - 1);
            assert(prefix@ =~= pat@.take(m - 1));
            str_starts_with(path, prefix)
        } else {
            str_contains(path, pat)
        };
        if hit {
            assert(spec_pattern_matches(path@, pats[i as int]));
            return true;
        }
        assert(!spec_pattern_matches(path@, pats[i as int]));
        i = i + 1;
    }
    false
}

/// `s` without its trailing path separators.
pub open spec fn spec_drop_trailing_slashes(s: Seq<char>) -> Seq<char>
    decreases s.len(),
{
    if s.len() > 0 && s.last() == '/' {
        spec_drop_trailing_slashes(s.drop_last())
    } else {
        s
    }
}

/// The part of `s` after its last path separator.
pub open spec fn spec_after_last_slash(s: Seq<char>) -> Seq<char>
    decreases s.len(),
{
    if s.len() == 0 {
        Seq::empty()
    } else if s.last() == '/' {
        Seq::empty()
    } else {
        spec_after_last_slash(s.drop_last()).push(s.last())
    }
}

/// The display name of a project directory: its final path component,
/// or "project" when the path has none.
pub open spec fn spec_project_name(s: Seq<char>) -> Seq<char> {
    let t = spec_after_last_slash(spec_drop_trailing_slashes(s));
    if t.len() == 0 {
        "project"@
    } else {
        t
    }
}

proof fn lemma_drop_trailing(s: Seq<char>, b: int)
    requires
        0 <= b <= s.len(),
        forall|j: int| b <= j < s.len() ==> s[j] == '/',
        b == 0 || s[b - 1] != '/',
    ensures
        spec_drop_trailing_slashes(s) == s.take(b),
    decreases s.len(),
{
    if b < s.len() {
        assert(s.last() == '/');
        lemma_drop_trailing(s.drop_last(), b);
        assert(s.drop_last().take(b) =~= s.take(b));
    } else {
        if s.len() > 0 && s.last() == '/' {
            assert(s[b - 1] == '/');
            assert(false);
        }
        assert(s.take(b) =~= s);
    }
}

proof fn lemma_after_last(s: Seq<char>, a: int)
    requires
        0 <= a <= s.len(),
        forall|j: int| a <= j < s.len() ==> s[j] != '/',
        a == 0 || s[a - 1] == '/',
    ensures
        spec_after_last_slash(s) == s.skip(a),
    decreases s.len(),
{
    if a < s.len() {
        assert(s.last() != '/');
        lemma_after_last(s.drop_last(), a);
        assert(s.drop_last().skip(a).push(s.last()) =~= s.skip(a));
    } else {
        if s.len() == 0 {
            assert(s.skip(a) =~= Seq::<char>::empty());
        } else {
            assert(s.last() == s[a - 1]);
            assert(s.skip(a) =~= Seq::<char>::empty());
        }
    }
}

/// The project name read from a directory path: its final component,
/// with trailing separators ignored; "project" when nothing is left.
pub fn get_project_name(project_path: &str) -> (r: String)
    ensures
        r@ == spec_project_name(project_path@),
{
    let n = project_path.unicode_len();
    let mut b: usize = n;
    while b > 0 && project_path.get_char(b - 1) == '/'
        invariant
            0 <= b <= n,
            n == project_path@.len(),
            forall|j: int| b <= j < n ==> project_path@[j] == '/',
        decreases b,
    {
        b = b - 1;
    }
    let mut a: usize = b;
    while a > 0 && project_path.get_char(a - 1) != '/'
        invariant
            0 <= a <= b <= n,
            n == project_path@.len(),
            forall|j: int| a <= j < b ==> project_path@[j] != '/',
        decreases a,
    {
        a = a - 1;
    }
    proof {
        lemma_drop_trailing(project_path@, b as int);
        let t = project_path@.take(b as int);
        lemma_after_last(t, a as int);
        assert(t.skip(a as int) =~= project_path@.subrange(a as int, b as int));
    }
    if a == b {
        String::from_str("project")
    } else {
        project_path.substring_char(a, b).to_owned()
    }
}

/// The first workspace descriptor among the directory's entries, else
/// the first project descriptor, else nothing.
pub fn find_xcode_project(listing: &Vec<String>) -> (r: Option<String>)
    ensures
        match r {
            Some(p) => (exists|i: int|
                0 <= i < listing@.len() && p@ == (#[trigger] listing@[i])@
                    && (crate::xcode::spec_is_workspace_entry(listing@[i]@)
                    || crate::xcode::spec_is_project_entry(listing@[i]@))),
            None => forall|j: int|
                0 <= j < listing@.len() ==> !crate::xcode::spec_is_workspace_entry(
                    (#[trigger] listing@[j])@,
                ) && !crate::xcode::spec_is_project_entry(listing@[j]@),
        },
{
    let n = listing.len();
    let mut i: usize = 0;
    while i < n
        invariant
            0 <= i <= n,
            n == listing@.len(),
            forall|j: int|
                0 <= j < i ==> !crate::xcode::spec_is_workspace_entry((#[trigger] listing@[j])@),
        decreases n - i,
    {
        if str_ends_with(listing[i].as_str(), ".xcworkspace") {
            return Some(crate::api::clone_string(&listing[i]));
        }
        i = i + 1;
    }
    let mut i: usize = 0;
    while i < n
        invariant
            0 <= i <= n,
            n == listing@.len(),
            forall|j: int|
                0 <= j < i ==> !crate::xcode::spec_is_project_entry((#[trigger] listing@[j])@),
            forall|j: int|
                0 <= j < n ==> !crate::xcode::spec_is_workspace_entry((#[trigger] listing@[j])@),
        decreases n - i,
    {
        if str_ends_with(listing[i].as_str(), ".xcodeproj") {
            return Some(crate::api::clone_string(&listing[i]));
        }
        i = i + 1;
    }
    None
}

/// The scheme names among a scheme directory's entries: each file named
/// `<scheme>.xcscheme`, with the extension stripped, in order.
pub open spec fn spec_scheme_names(files: Seq<Seq<char>>) -> Seq<Seq<char>>
    decreases files.len(),
{
    if files.len() == 0 {
        Seq::empty()
    } else {
        let rest = spec_scheme_names(files.drop_last());
        let f = files.last();
        if has_suffix_chars(f, ".xcscheme"@) {
            rest.push(f.take(f.len() - ".xcscheme"@.len()))
        } else {
            rest
        }
    }
}

/// Reads the scheme names out of a scheme directory's entries.
pub fn find_schemes(scheme_files: &Vec<String>) -> (r: Vec<String>)
    ensures
        r@.map_values(|s: String| s@) == spec_scheme_names(
            scheme_files@.map_values(|s: String| s@),
        ),
{
    proof {
        reveal_strlit(".xcscheme");
    }
    let ghost all = scheme_files@.map_values(|s: String| s@);
    let mut r: Vec<String> = Vec::new();
    let n = scheme_files.len();
    let mut i: usize = 0;
    while i < n
        invariant
            0 <= i <= n,
            n == all.len(),
            n == scheme_files@.len(),
            all == scheme_files@.map_values(|s: String| s@),
            ".xcscheme"@.len() == 9,
            r@.map_values(|s: String| s@) == spec_scheme_names(all.subrange(0, i as int)),
        decreases n - i,
    {
        let f = scheme_files[i].as_str();
        let ghost prev = r@.map_values(|s: String| s@);
        if str_ends_with(f, ".xcscheme") {
            let m = f.unicode_len();
            let name = f.substring_char(0, m - 9).to_owned();
            assert(name@ =~= all[i as int].take(all[i as int].len() - 9));
            r.push(name);
        }
        proof {
            let cur = all.subrange(0, i + 1);
            assert(cur.drop_last() =~= all.subrange(0, i as int));
            assert(cur.last() == all[i as int]);
            if has_suffix_chars(all[i as int], ".xcscheme"@) {
                assert(r@.map_values(|s: String| s@) =~= prev.push(
                    all[i as int].take(all[i as int].len() - 9),
                ));
            }
        }
        i = i + 1;
    }
    proof {
        assert(all.subrange(0, n as int) =~= all);
    }
    r
}

/// The files kept for upload: the entries no pattern excludes, in order.
pub open spec fn spec_kept_files(
    entries: Seq<(Seq<char>, Seq<u8>)>,
    pats: Seq<Seq<char>>,
) -> Seq<(Seq<char>, Seq<u8>)>
    decreases entries.len(),
{
    if entries.len() == 0 {
        Seq::empty()
    } else {
        let rest = spec_kept_files(entries.drop_last(), pats);
        if spec_excluded(entries.last().0, pats) {
            rest
        } else {
            rest.push(entries.last())
        }
    }
}

/// The kept files' contents, concatenated in order: what the content
/// checksum is computed over.
pub open spec fn spec_concat_contents(entries: Seq<(Seq<char>, Seq<u8>)>) -> Seq<u8>
    decreases entries.len(),
{
    if entries.len() == 0 {
        Seq::empty()
    } else {
        spec_concat_contents(entries.drop_last()) + entries.last().1
    }
}

/// The file mode every archived file carries.
pub const TAR_FILE_MODE: u32 = 0o644;

/// Packs a project's files for upload: drops the excluded paths, hashes
/// the kept contents in order, and builds the archive with a fixed mode
/// and timestamp so that identical content gives identical bytes.
/// Returns the archive bytes and the content checksum.
pub fn create_tarball(
    files: Vec<(String, Vec<u8>)>,
    exclude_patterns: &Vec<String>,
) -> (r: Result<(Vec<u8>, String), String>)
    ensures
        r is Ok <==> targz_buildable(
            spec_kept_files(entry_views(files@), exclude_patterns@.map_values(|p: String| p@)),
        ),
        r matches Ok((data, checksum)) ==> {
            let kept = spec_kept_files(
                entry_views(files@),
                exclude_patterns@.map_values(|p: String| p@),
            );
            &&& data@ == targz_of(kept, TAR_FILE_MODE, 0)
            &&& checksum@ == hex_of(sha256_of(spec_concat_contents(kept)))
            &&& checksum@.len() == 64
        },
{
    let ghost all = entry_views(files@);
    let ghost pats = exclude_patterns@.map_values(|p: String| p@);
    let mut kept: Vec<(String, Vec<u8>)> = Vec::new();
    let mut hash_input: Vec<u8> = Vec::new();
    let n = files.len();
    let mut files = files;
    let mut i: usize = 0;
    while i < n
        invariant
            0 <= i <= n,
            n == all.len(),
            files@.len() == n - i,
            forall|j: int|
                0 <= j < files@.len() ==> #[trigger] entry_views(files@)[j] == all[i + j],
            pats == exclude_patterns@.map_values(|p: String| p@),
            entry_views(kept@) == spec_kept_files(all.subrange(0, i as int), pats),
            hash_input@ == spec_concat_contents(spec_kept_files(all.subrange(0, i as int), pats)),
        decreases n - i,
    {
        assert(entry_views(files@)[0] == all[i as int]);
        let ghost fprev = files@;
        let (path, contents) = files.remove(0);
        let ghost prev_kept = entry_views(kept@);
        assert(path@ == all[i as int].0);
        let excluded = should_exclude(path.as_str(), exclude_patterns);
        if !excluded {
            let mut body = crate::storage::copy_bytes(&contents);
            hash_input.append(&mut body);
            kept.push((path, contents));
        }
        proof {
            let cur = all.subrange(0, i + 1);
            assert(cur.drop_last() =~= all.subrange(0, i as int));
            assert(cur.last() == all[i as int]);
            if !spec_excluded(all[i as int].0, pats) {
                assert(entry_views(kept@) =~= prev_kept.push(all[i as int]));
                assert(spec_concat_contents(prev_kept.push(all[i as int]))
                    == spec_concat_contents(prev_kept) + all[i as int].1) by {
                    assert(prev_kept.push(all[i as int]).drop_last() =~= prev_kept);
                }
            }
            assert forall|j: int|
                0 <= j < files@.len() implies #[trigger] entry_views(files@)[j] == all[i + 1
                + j] by {
                assert(files@[j] == fprev[j + 1]);
                assert(entry_views(fprev)[j + 1] == all[i + 1 + j]);
            }
        }
        i = i + 1;
    }
    proof {
        assert(all.subrange(0, n as int) =~= all);
    }
    let checksum = sha256_hex(&hash_input);
    match build_tar_gz(&kept, TAR_FILE_MODE, 0) {
        Ok(data) => Ok((data, checksum)),
        Err(e) => Err(e),
    }
}

} // verus!
