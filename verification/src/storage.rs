//! The project cache's extraction logic. An uploaded archive is untrusted
//! input: entries whose paths would escape the extraction root — a
//! parent-directory segment, or an absolute path — are silently skipped,
//! never written. The planner decides, for the whole archive, exactly
//! which files are written and where; writing the bytes to disk happens
//! outside the library, pair by pair.

use vstd::prelude::*;
use vstd::string::StrSliceExecFns;
use vstd::string::StringExecFns;

use crate::archive::ENTRY_DIR;
use crate::archive::ENTRY_FILE;
use crate::archive::archive_entries_of;
use crate::archive::entry_views;
use crate::archive::read_tar_gz;
use crate::archive::targz_wellformed;
use crate::archive::typed_entry_views;

verus! {

/// A parent-directory segment `..` stands in `s` at position `i`.
pub open spec fn dotdot_at(s: Seq<char>, i: int) -> bool {
    &&& 0 <= i
    &&& i + 2 <= s.len()
    &&& s[i] == '.'
    &&& s[i + 1] == '.'
    &&& (i == 0 || s[i - 1] == '/')
    &&& (i + 2 == s.len() || s[i + 2] == '/')
}

/// `s` holds a parent-directory traversal segment.
pub open spec fn spec_has_traversal(s: Seq<char>) -> bool {
    exists|i: int| dotdot_at(s, i)
}

/// An entry path that may be written: non-empty, relative, and free of
/// parent-directory segments.
pub open spec fn spec_entry_safe(s: Seq<char>) -> bool {
    s.len() > 0 && s[0] != '/' && !spec_has_traversal(s)
}

/// Whether this entry path may be written under the extraction root.
pub fn entry_is_safe(path: &str) -> (r: bool)
    ensures
        r == spec_entry_safe(path@),
{
    let n = path.unicode_len();
    if n == 0 {
        return false;
    }
    if path.get_char(0) == '/' {
        return false;
    }
    let mut i: usize = 0;
    while i < n
        invariant
            0 <= i <= n,
            n == path@.len(),
            forall|j: int| 0 <= j < i ==> !dotdot_at(path@, j),
        decreases n - i,
    {
        if n - i >= 2 && path.get_char(i) == '.' && path.get_char(i + 1) == '.' && (i == 0
            || path.get_char(i - 1) == '/') && (n - i == 2 || path.get_char(i + 2) == '/') {
            assert(dotdot_at(path@, i as int));
            return false;
        }
        assert(!dotdot_at(path@, i as int));
        i = i + 1;
    }
    assert forall|j: int| !dotdot_at(path@, j) by {
        if 0 <= j < n {
            assert(!dotdot_at(path@, j));
        }
    }
    true
}

/// The destination of an entry under the root: `root/path`.
pub fn join_under_root(root: &str, path: &str) -> (r: String)
    ensures
        r@ == root@ + "/"@ + path@,
{
    String::from_str(root).concat("/").concat(path)
}

/// The file writes an archive's entries produce: each regular-file
/// entry with a safe path, joined under the root, in archive order.
/// Entries with unsafe paths are dropped, and so — deliberately — are
/// links and special entries: from an untrusted archive a link is a
/// path-escape vector, so only plain files and directories are ever
/// materialized.
pub open spec fn spec_safe_writes(root: Seq<char>, entries: Seq<(Seq<char>, Seq<u8>, u8)>) -> Seq<
    (Seq<char>, Seq<u8>),
>
    decreases entries.len(),
{
    if entries.len() == 0 {
        Seq::empty()
    } else {
        let rest = spec_safe_writes(root, entries.drop_last());
        let e = entries.last();
        if e.2 == ENTRY_FILE && spec_entry_safe(e.0) {
            rest.push((root + "/"@ + e.0, e.1))
        } else {
            rest
        }
    }
}

/// The directories an archive's entries create: each directory entry
/// with a safe path, joined under the root, in archive order — so empty
/// directories in an upload appear on disk as they did in the archive.
pub open spec fn spec_safe_dirs(root: Seq<char>, entries: Seq<(Seq<char>, Seq<u8>, u8)>) -> Seq<
    Seq<char>,
>
    decreases entries.len(),
{
    if entries.len() == 0 {
        Seq::empty()
    } else {
        let rest = spec_safe_dirs(root, entries.drop_last());
        let e = entries.last();
        if e.2 == ENTRY_DIR && spec_entry_safe(e.0) {
            rest.push(root + "/"@ + e.0)
        } else {
            rest
        }
    }
}

/// What an extraction materializes: the planner's output.
pub struct ExtractionPlan {
    /// Destination path and contents of each file to write, in order.
    pub writes: Vec<(String, Vec<u8>)>,
    /// Destination path of each directory to create, in order.
    pub dirs: Vec<String>,
    /// The number of entries materialized: written files plus created
    /// directories.
    pub files_extracted: u32,
}

/// Plans the extraction of already-listed entries: exactly the safe
/// regular-file entries are written and exactly the safe directory
/// entries created, in order, each under the root; the count reports
/// how many entries are materialized.
pub fn plan_extraction(root: &str, entries: Vec<(String, Vec<u8>, u8)>) -> (r: ExtractionPlan)
    requires
        entries@.len() <= u32::MAX,
    ensures
        entry_views(r.writes@) == spec_safe_writes(root@, typed_entry_views(entries@)),
        r.dirs@.map_values(|d: String| d@) == spec_safe_dirs(root@, typed_entry_views(entries@)),
        r.files_extracted == r.writes@.len() + r.dirs@.len(),
{
    let ghost all = typed_entry_views(entries@);
    let mut writes: Vec<(String, Vec<u8>)> = Vec::new();
    let mut dirs: Vec<String> = Vec::new();
    let mut count: u32 = 0;
    let n = entries.len();
    let mut entries = entries;
    let mut i: usize = 0;
    // Consume the entries front to back, planning the safe ones.
    while i < n
        invariant
            0 <= i <= n,
            n <= u32::MAX,
            n == all.len(),
            entries@.len() == n,
            typed_entry_views(entries@) == all,
            count == writes@.len() + dirs@.len(),
            count <= i,
            entry_views(writes@) == spec_safe_writes(root@, all.subrange(0, i as int)),
            dirs@.map_values(|d: String| d@) == spec_safe_dirs(root@, all.subrange(0, i as int)),
        decreases n - i,
    {
        let (path, contents, kind) = entries_at(&entries, i);
        let ghost prev_writes = entry_views(writes@);
        let ghost prev_dirs = dirs@.map_values(|d: String| d@);
        if kind == ENTRY_FILE && entry_is_safe(path) {
            let dest = join_under_root(root, path);
            let bytes = copy_bytes(contents);
            writes.push((dest, bytes));
            count = count + 1;
        } else if kind == ENTRY_DIR && entry_is_safe(path) {
            dirs.push(join_under_root(root, path));
            count = count + 1;
        }
        proof {
            let pre2 = all.subrange(0, i as int);
            let cur = all.subrange(0, i + 1);
            assert(cur.drop_last() =~= pre2);
            assert(cur.last() == all[i as int]);
            if all[i as int].2 == ENTRY_FILE && spec_entry_safe(all[i as int].0) {
                assert(entry_views(writes@) =~= prev_writes.push(
                    (root@ + "/"@ + all[i as int].0, all[i as int].1),
                ));
            }
            if all[i as int].2 == ENTRY_DIR && spec_entry_safe(all[i as int].0) {
                assert(dirs@.map_values(|d: String| d@) =~= prev_dirs.push(
                    root@ + "/"@ + all[i as int].0,
                ));
            }
        }
        i = i + 1;
    }
    proof {
        assert(all.subrange(0, n as int) =~= all);
    }
    ExtractionPlan { writes, dirs, files_extracted: count }
}

/// The entry at one index, by reference.
fn entries_at(entries: &Vec<(String, Vec<u8>, u8)>, i: usize) -> (r: (&str, &Vec<u8>, u8))
    requires
        i < entries@.len(),
    ensures
        r.0@ == entries@[i as int].0@,
        r.1@ == entries@[i as int].1@,
        r.2 == entries@[i as int].2,
{
    let e = &entries[i];
    (e.0.as_str(), &e.1, e.2)
}

/// A copy of a byte vector with the same bytes.
pub fn copy_bytes(v: &Vec<u8>) -> (r: Vec<u8>)
    ensures
        r@ == v@,
{
    let mut out: Vec<u8> = Vec::new();
    let n = v.len();
    let mut i: usize = 0;
    while i < n
        invariant
            0 <= i <= n,
            n == v@.len(),
            out@.len() == i,
            forall|j: int| 0 <= j < i ==> out@[j] == v@[j],
        decreases n - i,
    {
        out.push(v[i]);
        i = i + 1;
    }
    assert(out@ =~= v@);
    out
}

/// Reads an uploaded archive and plans its extraction under the root.
/// Succeeds exactly when the bytes parse as an archive whose entries can
/// be counted; the plan then holds exactly the archive's safe
/// regular-file and directory entries.
pub fn extract_project(root: &str, data: &Vec<u8>) -> (r: Result<ExtractionPlan, String>)
    ensures
        r is Ok <==> (targz_wellformed(data@) && archive_entries_of(data@).len() <= u32::MAX),
        r matches Ok(p) ==> {
            &&& entry_views(p.writes@) == spec_safe_writes(root@, archive_entries_of(data@))
            &&& p.dirs@.map_values(|d: String| d@) == spec_safe_dirs(
                root@,
                archive_entries_of(data@),
            )
            &&& p.files_extracted == spec_safe_writes(root@, archive_entries_of(data@)).len()
                + spec_safe_dirs(root@, archive_entries_of(data@)).len()
        },
{
    let entries = match read_tar_gz(data) {
        Ok(v) => v,
        Err(e) => {
            return Err(e);
        },
    };
    if entries.len() > u32::MAX as usize {
        return Err(entries_limit_message());
    }
    Ok(plan_extraction(root, entries))
}

/// The message refusing an archive with more entries than the counter
/// can report.
fn entries_limit_message() -> (r: String)
    ensures
        r@ == "Archive holds more entries than can be counted"@,
{
    String::from_str("Archive holds more entries than can be counted")
}

/// Every planned write lies under the extraction root: its destination
/// is the root, a separator, and the path of a safe entry of the
/// archive — and so never names a path outside the root.
pub proof fn lemma_extraction_confined(
    root: Seq<char>,
    entries: Seq<(Seq<char>, Seq<u8>, u8)>,
    i: int,
)
    requires
        0 <= i < spec_safe_writes(root, entries).len(),
    ensures
        spec_safe_writes(root, entries)[i].0.subrange(0, root.len() as int) == root,
        exists|j: int|
            0 <= j < entries.len() && (#[trigger] entries[j]).2 == ENTRY_FILE && spec_entry_safe(
                entries[j].0,
            ) && spec_safe_writes(root, entries)[i] == ((root + "/"@ + entries[j].0), entries[
                j].1,
            ),
    decreases entries.len(),
{
    if entries.len() > 0 {
        let rest = spec_safe_writes(root, entries.drop_last());
        let e = entries.last();
        if i < rest.len() {
            lemma_extraction_confined(root, entries.drop_last(), i);
            let j = choose|j: int|
                0 <= j < entries.drop_last().len() && (#[trigger] entries.drop_last()[j]).2
                    == ENTRY_FILE && spec_entry_safe(entries.drop_last()[j].0) && rest[i] == ((root
                    + "/"@ + entries.drop_last()[j].0), entries.drop_last()[j].1,
                );
            assert(entries[j] == entries.drop_last()[j]);
            assert(spec_entry_safe(entries[j].0));
        } else {
            assert(e.2 == ENTRY_FILE && spec_entry_safe(e.0));
            let j = entries.len() - 1;
            assert(entries[j] == e);
            assert(spec_safe_writes(root, entries)[i] == ((root + "/"@ + e.0), e.1));
            assert((root + "/"@ + e.0).subrange(0, root.len() as int) =~= root);
        }
    }
}

/// Every planned directory creation lies under the extraction root, in
/// the same way.
pub proof fn lemma_dir_creation_confined(
    root: Seq<char>,
    entries: Seq<(Seq<char>, Seq<u8>, u8)>,
    i: int,
)
    requires
        0 <= i < spec_safe_dirs(root, entries).len(),
    ensures
        spec_safe_dirs(root, entries)[i].subrange(0, root.len() as int) == root,
        exists|j: int|
            0 <= j < entries.len() && (#[trigger] entries[j]).2 == ENTRY_DIR && spec_entry_safe(
                entries[j].0,
            ) && spec_safe_dirs(root, entries)[i] == root + "/"@ + entries[j].0,
    decreases entries.len(),
{
    if entries.len() > 0 {
        let rest = spec_safe_dirs(root, entries.drop_last());
        let e = entries.last();
        if i < rest.len() {
            lemma_dir_creation_confined(root, entries.drop_last(), i);
            let j = choose|j: int|
                0 <= j < entries.drop_last().len() && (#[trigger] entries.drop_last()[j]).2
                    == ENTRY_DIR && spec_entry_safe(entries.drop_last()[j].0) && rest[i] == root
                    + "/"@ + entries.drop_last()[j].0;
            assert(entries[j] == entries.drop_last()[j]);
            assert(spec_entry_safe(entries[j].0));
        } else {
            assert(e.2 == ENTRY_DIR && spec_entry_safe(e.0));
            let j = entries.len() - 1;
            assert(entries[j] == e);
            assert(spec_safe_dirs(root, entries)[i] == root + "/"@ + e.0);
            assert((root + "/"@ + e.0).subrange(0, root.len() as int) =~= root);
        }
    }
}

/// An archive entry holding a parent-directory traversal segment is
/// never written: no planned destination is the join of such an entry.
pub proof fn lemma_traversal_never_written(
    root: Seq<char>,
    entries: Seq<(Seq<char>, Seq<u8>, u8)>,
    j: int,
    i: int,
)
    requires
        0 <= j < entries.len(),
        spec_has_traversal(entries[j].0),
        0 <= i < spec_safe_writes(root, entries).len(),
    ensures
        spec_safe_writes(root, entries)[i].0 != root + "/"@ + entries[j].0,
{
    reveal_strlit("/");
    lemma_extraction_confined(root, entries, i);
    let j2 = choose|j2: int|
        0 <= j2 < entries.len() && (#[trigger] entries[j2]).2 == ENTRY_FILE && spec_entry_safe(
            entries[j2].0,
        ) && spec_safe_writes(root, entries)[i] == ((root + "/"@ + entries[j2].0), entries[
            j2].1,
        );
    if spec_safe_writes(root, entries)[i].0 == root + "/"@ + entries[j].0 {
        assert((root + "/"@ + entries[j2].0) =~= (root + "/"@ + entries[j].0));
        assert(entries[j2].0 =~= (root + "/"@ + entries[j2].0).subrange(
            root.len() as int + 1,
            (root + "/"@ + entries[j2].0).len() as int,
        ));
        assert(entries[j].0 =~= (root + "/"@ + entries[j].0).subrange(
            root.len() as int + 1,
            (root + "/"@ + entries[j].0).len() as int,
        ));
        assert(entries[j2].0 == entries[j].0);
        assert(spec_entry_safe(entries[j].0));
        assert(false);
    }
}

/// The cutoff before which a cached project counts as stale: the given
/// time minus the configured age, saturating at the epoch distance the
/// clock can express.
pub fn cleanup_cutoff_millis(now: i64, hours: u32) -> (r: i64)
    ensures
        r == now - (hours as int) * 3600000 || (r == i64::MIN && now - (hours as int) * 3600000
            < i64::MIN),
{
    let age: i64 = (hours as i64) * 3600000;
    if now >= i64::MIN + age {
        now - age
    } else {
        i64::MIN
    }
}

/// The total of a list of file sizes, saturating at the largest
/// expressible total.
pub fn total_size(sizes: &Vec<u64>) -> (r: u64)
    ensures
        r == spec_total_size(sizes@),
{
    let mut total: u64 = 0;
    let n = sizes.len();
    let mut i: usize = 0;
    while i < n
        invariant
            0 <= i <= n,
            n == sizes@.len(),
            total == spec_total_size(sizes@.subrange(0, i as int)),
        decreases n - i,
    {
        let s = sizes[i];
        if total <= u64::MAX - s {
            total = total + s;
        } else {
            total = u64::MAX;
        }
        proof {
            assert(sizes@.subrange(0, i + 1).drop_last() =~= sizes@.subrange(0, i as int));
        }
        i = i + 1;
    }
    proof {
        assert(sizes@.subrange(0, n as int) =~= sizes@);
    }
    total
}

/// The saturating total of a list of sizes.
pub open spec fn spec_total_size(sizes: Seq<u64>) -> u64
    decreases sizes.len(),
{
    if sizes.len() == 0 {
        0
    } else {
        let rest = spec_total_size(sizes.drop_last());
        if rest + sizes.last() <= u64::MAX {
            (rest + sizes.last()) as u64
        } else {
            u64::MAX
        }
    }
}

} // verus!
