//! The project cache's archive handling: packing, checksumming,
//! extraction planning, and the traversal-safety policy on untrusted
//! archives.

use xscape::project::create_tarball;
use xscape::project::get_project_name;
use xscape::project::should_exclude;
use xscape::storage::entry_is_safe;
use xscape::storage::extract_project;
use xscape::storage::plan_extraction;
use xscape::storage::cleanup_cutoff_millis;
use xscape::storage::total_size;

fn pairs(entries: &[(&str, &[u8])]) -> Vec<(String, Vec<u8>)> {
    entries.iter().map(|(p, c)| (String::from(*p), c.to_vec())).collect()
}

#[test]
fn archive_round_trip_recovers_entries() {
    let files = pairs(&[("a.txt", b"hello"), ("dir/b.txt", b"world")]);
    let (data, checksum) = create_tarball(files, &Vec::new()).unwrap();
    assert_eq!(
        checksum,
        "936a185caaa266bb9cbe981e9e05cb78cd732b0b3280eb944412bb6f8f8f07af"
    );
    let plan = extract_project("/tmp/root", &data).unwrap();
    assert_eq!(plan.files_extracted, 2);
    assert_eq!(plan.writes.len(), 2);
    assert_eq!(plan.writes[0].0, "/tmp/root/a.txt");
    assert_eq!(plan.writes[0].1, b"hello".to_vec());
    assert_eq!(plan.writes[1].0, "/tmp/root/dir/b.txt");
    assert_eq!(plan.writes[1].1, b"world".to_vec());
}

#[test]
fn identical_content_gives_identical_archives_and_checksums() {
    let one = create_tarball(pairs(&[("a", b"x"), ("b", b"y")]), &Vec::new()).unwrap();
    let two = create_tarball(pairs(&[("a", b"x"), ("b", b"y")]), &Vec::new()).unwrap();
    assert_eq!(one.0, two.0);
    assert_eq!(one.1, two.1);
}

#[test]
fn empty_archive_checksum_is_the_empty_digest() {
    let (_, checksum) = create_tarball(Vec::new(), &Vec::new()).unwrap();
    assert_eq!(
        checksum,
        "e3b0c44298fc1c149afbf4c8996fb92427ae41e4649b934ca495991b7852b855"
    );
}

#[test]
fn excluded_files_leave_archive_and_checksum() {
    let excludes = vec![String::from("*.o"), String::from(".git")];
    let files = pairs(&[("main.rs", b"hello"), ("main.o", b"junk"), (".git/HEAD", b"ref")]);
    let (data, checksum) = create_tarball(files, &excludes).unwrap();
    // Only main.rs stays, so the checksum covers "hello" alone.
    assert_eq!(
        checksum,
        "2cf24dba5fb0a30e26e83b2ac5b9e29e1b161e5c1fa7425e73043362938b9824"
    );
    let plan = extract_project("/r", &data).unwrap();
    assert_eq!(plan.files_extracted, 1);
    assert_eq!(plan.writes[0].0, "/r/main.rs");
}

fn file_entries(entries: &[(&str, &[u8])]) -> Vec<(String, Vec<u8>, u8)> {
    entries.iter().map(|(p, c)| (String::from(*p), c.to_vec(), 0u8)).collect()
}

#[test]
fn traversal_entries_are_never_written() {
    let mut entries = file_entries(&[
        ("../evil.txt", b"escape"),
        ("ok.txt", b"fine"),
        ("nested/../also-evil", b"escape"),
        ("/absolute.txt", b"escape"),
        ("..", b"escape"),
    ]);
    entries.push((String::from("subdir/"), Vec::new(), 1u8));
    entries.push((String::from("../escape-dir/"), Vec::new(), 1u8));
    entries.push((String::from("evil-link"), Vec::new(), 2u8));
    let plan = plan_extraction("/srv/projects/p1", entries);
    assert_eq!(plan.writes.len(), 1);
    assert_eq!(plan.writes[0].0, "/srv/projects/p1/ok.txt");
    assert_eq!(plan.dirs, vec![String::from("/srv/projects/p1/subdir/")]);
    assert_eq!(plan.files_extracted, 2);
    for (dest, _) in &plan.writes {
        assert!(dest.starts_with("/srv/projects/p1/"));
        assert!(!dest.contains(".."));
    }
    for dir in &plan.dirs {
        assert!(dir.starts_with("/srv/projects/p1/"));
        assert!(!dir.contains(".."));
    }
}

#[test]
fn directory_entries_are_created_not_written_as_files() {
    // An archive holding a directory entry and one file, laid out the
    // way ordinary tar tools write project trees: the directory is
    // created, not written as a file, and both entries are counted.
    let enc = flate2::write::GzEncoder::new(Vec::new(), flate2::Compression::default());
    let mut builder = tar::Builder::new(enc);
    let mut dir = tar::Header::new_gnu();
    dir.set_path("src/").unwrap();
    dir.set_entry_type(tar::EntryType::dir());
    dir.set_size(0);
    dir.set_mode(0o755);
    dir.set_cksum();
    builder.append(&dir, std::io::empty()).unwrap();
    let mut file = tar::Header::new_gnu();
    file.set_path("src/main.swift").unwrap();
    file.set_size(5);
    file.set_mode(0o644);
    file.set_cksum();
    builder.append(&file, &b"hello"[..]).unwrap();
    let data = builder.into_inner().unwrap().finish().unwrap();
    let plan = extract_project("/r", &data).unwrap();
    assert_eq!(plan.files_extracted, 2);
    assert_eq!(plan.writes.len(), 1);
    assert_eq!(plan.writes[0].0, "/r/src/main.swift");
    assert_eq!(plan.writes[0].1, b"hello".to_vec());
    assert_eq!(plan.dirs, vec![String::from("/r/src/")]);
}

#[test]
fn bytes_that_are_no_archive_are_refused() {
    let junk = vec![0u8, 1, 2, 3, 4, 5];
    assert!(extract_project("/r", &junk).is_err());
}

#[test]
fn entry_safety_judges_paths() {
    assert!(entry_is_safe("a/b/c.txt"));
    assert!(entry_is_safe("a..b/c"));
    assert!(entry_is_safe("..a/b"));
    assert!(!entry_is_safe("../x"));
    assert!(!entry_is_safe("a/../b"));
    assert!(!entry_is_safe("a/.."));
    assert!(!entry_is_safe(".."));
    assert!(!entry_is_safe("/etc/passwd"));
    assert!(!entry_is_safe(""));
}

#[test]
fn twelve_files_extract_as_twelve() {
    let mut files: Vec<(String, Vec<u8>)> = Vec::new();
    for i in 0..12 {
        files.push((format!("src/file{}.swift", i), vec![b'x'; 10]));
    }
    let (data, _) = create_tarball(files, &Vec::new()).unwrap();
    let plan = extract_project("/p", &data).unwrap();
    assert_eq!(plan.files_extracted, 12);
}

#[test]
fn exclude_patterns_match_as_documented() {
    let patterns = vec![
        String::from(".git"),
        String::from("build"),
        String::from("*.xcuserstate"),
        String::from("Pods*"),
    ];
    assert!(should_exclude(".git/config", &patterns));
    assert!(should_exclude("deep/build/out", &patterns));
    assert!(should_exclude("x/UserInterfaceState.xcuserstate", &patterns));
    assert!(should_exclude("Pods/Manifest.lock", &patterns));
    assert!(!should_exclude("Sources/App.swift", &patterns));
}

#[test]
fn project_name_is_final_path_component() {
    assert_eq!(get_project_name("/home/dev/MyApp"), "MyApp");
    assert_eq!(get_project_name("/home/dev/MyApp/"), "MyApp");
    assert_eq!(get_project_name("MyApp"), "MyApp");
    assert_eq!(get_project_name("/"), "project");
    assert_eq!(get_project_name(""), "project");
}

#[test]
fn cleanup_cutoff_subtracts_the_configured_age() {
    assert_eq!(cleanup_cutoff_millis(100_000_000, 24), 100_000_000 - 24 * 3_600_000);
    assert_eq!(cleanup_cutoff_millis(i64::MIN + 5, 1), i64::MIN);
}

#[test]
fn storage_size_totals_and_saturates() {
    assert_eq!(total_size(&vec![1, 2, 3]), 6);
    assert_eq!(total_size(&Vec::new()), 0);
    assert_eq!(total_size(&vec![u64::MAX, 10]), u64::MAX);
}

#[test]
fn scheme_files_yield_scheme_names() {
    let files = vec![
        String::from("MyApp.xcscheme"),
        String::from("notes.txt"),
        String::from("MyAppTests.xcscheme"),
    ];
    let schemes = xscape::project::find_schemes(&files);
    assert_eq!(schemes, vec![String::from("MyApp"), String::from("MyAppTests")]);
    assert!(xscape::project::find_schemes(&Vec::new()).is_empty());
}
