//! Build orchestration decisions: locating the build descriptor,
//! assembling the build tool's arguments, classifying its output lines,
//! locating the produced app bundle, and turning exits into outcomes.
//! Spawning the subprocess and reading its streams happen outside the
//! library; every decision on what they produced is made here.

use vstd::prelude::*;
use vstd::string::StrSliceExecFns;
use vstd::string::StringExecFns;

use crate::api::BuildConfiguration;
use crate::api::BuildOutcome;
use crate::api::BuildRequest;
use crate::api::clone_strings;
use crate::api::spec_configuration_name;
use crate::api::spec_destination_arg;
use crate::error::IosSimError;
use crate::logs::LogLevel;
use crate::text::contains_chars;
use crate::text::contains_chars_ci;
use crate::text::has_suffix_chars;
use crate::text::spec_trim;
use crate::text::str_contains;
use crate::text::str_contains_ci;
use crate::text::str_ends_with;
use crate::text::str_starts_with;
use crate::text::trim_str;

verus! {

/// Information about the installed toolchain.
pub struct XcodeInfo {
    pub version: String,
    pub path: String,
}

/// The toolchain path as reported on standard output: the text, trimmed.
pub fn parse_xcode_path(output: &str) -> (r: String)
    ensures
        r@ == spec_trim(output@),
{
    trim_str(output)
}

/// `e` bounds the first line of `s`: the position of its first line
/// feed, or its length when it has none.
pub open spec fn spec_line_end(s: Seq<char>, e: int) -> bool {
    &&& 0 <= e <= s.len()
    &&& (e == s.len() || s[e] == '\n')
    &&& forall|j: int| 0 <= j < e ==> s[j] != '\n'
}

/// The version read from a first line bounded by `e`: the line, with a
/// leading tool name stripped.
pub open spec fn spec_version_of(s: Seq<char>, e: int) -> Seq<char> {
    let line = s.subrange(0, e);
    if line.len() >= 6 && line.subrange(0, 6) == "Xcode "@ {
        line.subrange(6, line.len() as int)
    } else {
        line
    }
}

/// The toolchain version from the version tool's first output line, with
/// the leading tool name stripped; "Unknown" when there is no output.
pub fn parse_xcode_version(output: &str) -> (r: String)
    ensures
        output@.len() == 0 ==> r@ == "Unknown"@,
        output@.len() > 0 ==> exists|e: int|
            #[trigger] spec_line_end(output@, e) && r@ == spec_version_of(output@, e),
{
    let n = output.unicode_len();
    if n == 0 {
        return String::from_str("Unknown");
    }
    let mut e: usize = 0;
    while e < n && output.get_char(e) != '\n'
        invariant
            0 <= e <= n,
            n == output@.len(),
            forall|j: int| 0 <= j < e ==> output@[j] != '\n',
        decreases n - e,
    {
        e = e + 1;
    }
    let line = output.substring_char(0, e);
    proof {
        reveal_strlit("Xcode ");
    }
    let r = if e >= 6 && str_starts_with(line, "Xcode ") {
        line.substring_char(6, e).to_owned()
    } else {
        line.to_owned()
    };
    proof {
        let lv = output@.subrange(0, e as int);
        assert(spec_line_end(output@, e as int));
        if lv.len() >= 6 && lv.subrange(0, 6) == "Xcode "@ {
            assert(line@.subrange(6, line@.len() as int) =~= lv.subrange(6, lv.len() as int));
        }
        assert(r@ == spec_version_of(output@, e as int));
    }
    r
}

/// The severity a build-tool output line is classified as, by substring
/// inspection of the line, independent of the exit status.
pub open spec fn spec_line_level(s: Seq<char>) -> LogLevel {
    if contains_chars_ci(s, "error:"@) || contains_chars_ci(s, "fatal error"@) {
        LogLevel::Error
    } else if contains_chars_ci(s, "warning:"@) {
        LogLevel::Warning
    } else if contains_chars_ci(s, "note:"@) {
        LogLevel::Debug
    } else {
        LogLevel::Info
    }
}

/// Classifies one build-tool output line and hands the line back.
pub fn parse_xcodebuild_line(line: &str) -> (r: (LogLevel, String))
    ensures
        r.0 == spec_line_level(line@),
        r.1@ == line@,
{
    let level = if str_contains_ci(line, "error:") || str_contains_ci(line, "fatal error") {
        LogLevel::Error
    } else if str_contains_ci(line, "warning:") {
        LogLevel::Warning
    } else if str_contains_ci(line, "note:") {
        LogLevel::Debug
    } else {
        LogLevel::Info
    };
    (level, line.to_owned())
}

/// A directory entry naming a workspace descriptor.
pub open spec fn spec_is_workspace_entry(s: Seq<char>) -> bool {
    has_suffix_chars(s, ".xcworkspace"@)
}

/// A directory entry naming a project descriptor.
pub open spec fn spec_is_project_entry(s: Seq<char>) -> bool {
    has_suffix_chars(s, ".xcodeproj"@)
}

/// Picks the build descriptor from the project directory's entries: the
/// first workspace if any (workspace preferred), else the first project
/// file, else the no-descriptor error.
pub fn find_xcode_project(project_dir: &str, listing: &Vec<String>) -> (r: Result<
    (String, bool),
    IosSimError,
>)
    ensures
        match r {
            Ok((p, true)) => exists|i: int|
                {
                    &&& 0 <= i < listing@.len()
                    &&& spec_is_workspace_entry(#[trigger] listing@[i]@)
                    &&& (forall|j: int| 0 <= j < i ==> !spec_is_workspace_entry(listing@[j]@))
                    &&& p@ == project_dir@ + "/"@ + listing@[i]@
                },
            Ok((p, false)) => {
                &&& (forall|j: int|
                    0 <= j < listing@.len() ==> !spec_is_workspace_entry(#[trigger] listing@[j]@))
                &&& exists|i: int|
                    {
                        &&& 0 <= i < listing@.len()
                        &&& spec_is_project_entry(#[trigger] listing@[i]@)
                        &&& (forall|j: int| 0 <= j < i ==> !spec_is_project_entry(listing@[j]@))
                        &&& p@ == project_dir@ + "/"@ + listing@[i]@
                    }
            },
            Err(e) => {
                &&& (forall|j: int|
                    0 <= j < listing@.len() ==> !spec_is_workspace_entry(#[trigger] listing@[j]@))
                &&& (forall|j: int|
                    0 <= j < listing@.len() ==> !spec_is_project_entry(#[trigger] listing@[j]@))
                &&& e is NoXcodeProject
            },
        },
{
    let n = listing.len();
    let mut i: usize = 0;
    while i < n
        invariant
            0 <= i <= n,
            n == listing@.len(),
            forall|j: int| 0 <= j < i ==> !spec_is_workspace_entry(#[trigger] listing@[j]@),
        decreases n - i,
    {
        if str_ends_with(listing[i].as_str(), ".xcworkspace") {
            let p = crate::storage::join_under_root(project_dir, listing[i].as_str());
            return Ok((p, true));
        }
        i = i + 1;
    }
    let mut i: usize = 0;
    while i < n
        invariant
            0 <= i <= n,
            n == listing@.len(),
            forall|j: int| 0 <= j < n ==> !spec_is_workspace_entry(#[trigger] listing@[j]@),
            forall|j: int| 0 <= j < i ==> !spec_is_project_entry(#[trigger] listing@[j]@),
        decreases n - i,
    {
        if str_ends_with(listing[i].as_str(), ".xcodeproj") {
            let p = crate::storage::join_under_root(project_dir, listing[i].as_str());
            return Ok((p, false));
        }
        i = i + 1;
    }
    Err(IosSimError::NoXcodeProject)
}

/// Resolves a descriptor path the client named explicitly: accepted
/// whenever it exists in the project tree, a workspace when so named.
pub fn specified_project_file(project_dir: &str, file: &str, file_exists: bool) -> (r: Result<
    (String, bool),
    IosSimError,
>)
    ensures
        file_exists <==> r is Ok,
        r matches Ok((p, is_ws)) ==> p@ == project_dir@ + "/"@ + file@ && is_ws
            == spec_is_workspace_entry(file@),
        r matches Err(e) ==> e matches IosSimError::InvalidProject(m) && m@
            == "Specified project file not found: "@ + file@,
{
    if file_exists {
        let p = crate::storage::join_under_root(project_dir, file);
        let is_ws = str_ends_with(file, ".xcworkspace");
        Ok((p, is_ws))
    } else {
        Err(
            IosSimError::InvalidProject(
                String::from_str("Specified project file not found: ").concat(file),
            ),
        )
    }
}

/// The argument list handed to the build tool for one request.
pub open spec fn spec_xcodebuild_args(
    req: BuildRequest,
    project_file: Seq<char>,
    is_workspace: bool,
) -> Seq<Seq<char>> {
    seq![
        (if is_workspace {
            "-workspace"@
        } else {
            "-project"@
        }),
        project_file,
        "-scheme"@,
        req.scheme@,
        "-configuration"@,
        spec_configuration_name(req.configuration),
        "-sdk"@,
        "iphonesimulator"@,
        "-destination"@,
        spec_destination_arg(req.destination),
    ] + (if req.clean {
        seq!["clean"@]
    } else {
        Seq::empty()
    }) + seq!["build"@] + req.extra_args@.map_values(|s: String| s@)
}

/// Assembles the build tool's arguments: the descriptor flag, scheme,
/// configuration, simulator SDK and destination, an optional clean step,
/// the build step, and the request's passthrough arguments.
pub fn xcodebuild_args(req: &BuildRequest, project_file: &str, is_workspace: bool) -> (r: Vec<
    String,
>)
    ensures
        r@.map_values(|s: String| s@) == spec_xcodebuild_args(*req, project_file@, is_workspace),
{
    let mut args: Vec<String> = Vec::new();
    if is_workspace {
        args.push(String::from_str("-workspace"));
    } else {
        args.push(String::from_str("-project"));
    }
    args.push(String::from_str(project_file));
    args.push(String::from_str("-scheme"));
    args.push(crate::api::clone_string(&req.scheme));
    args.push(String::from_str("-configuration"));
    args.push(String::from_str(req.configuration.as_str()));
    args.push(String::from_str("-sdk"));
    args.push(String::from_str("iphonesimulator"));
    args.push(String::from_str("-destination"));
    args.push(req.destination.to_xcodebuild_arg());
    if req.clean {
        args.push(String::from_str("clean"));
    }
    args.push(String::from_str("build"));
    let extra = clone_strings(&req.extra_args);
    let n = extra.len();
    let ghost base = args@.map_values(|s: String| s@);
    let mut extra = extra;
    let mut i: usize = 0;
    while i < n
        invariant
            0 <= i <= n,
            n == req.extra_args@.len(),
            extra@.len() == n - i,
            forall|j: int|
                0 <= j < extra@.len() ==> #[trigger] extra@[j]@ == req.extra_args@[i + j]@,
            args@.map_values(|s: String| s@) =~= base + req.extra_args@.map_values(
                |s: String| s@,
            ).subrange(0, i as int),
        decreases n - i,
    {
        assert(extra@[0]@ == req.extra_args@[i as int]@);
        let e = extra.remove(0);
        let ghost prev = args@;
        args.push(e);
        proof {
            let m = req.extra_args@.map_values(|s: String| s@);
            assert(args@ == prev.push(e));
            assert(args@.map_values(|s: String| s@) =~= prev.map_values(|s: String| s@).push(e@));
            assert(e@ == m[i as int]);
            assert((base + m.subrange(0, i as int)).push(m[i as int]) =~= base + m.subrange(
                0,
                i + 1,
            ));
            assert(args@.map_values(|s: String| s@) =~= base + m.subrange(0, i + 1));
        }
        i = i + 1;
    }
    proof {
        let m = req.extra_args@.map_values(|s: String| s@);
        assert(m.subrange(0, n as int) =~= m);
        assert(args@.map_values(|s: String| s@) =~= spec_xcodebuild_args(
            *req,
            project_file@,
            is_workspace,
        ));
    }
    args
}

/// A path naming a produced app bundle for the requested configuration
/// on the simulator platform.
pub open spec fn spec_app_candidate(p: Seq<char>, cfg: Seq<char>) -> bool {
    has_suffix_chars(p, ".app"@) && contains_chars(p, cfg) && contains_chars(
        p,
        "iphonesimulator"@,
    )
}

/// The first walked path that names an app bundle for this
/// configuration, if any.
pub fn select_app_bundle(paths: &Vec<String>, config: &BuildConfiguration) -> (r: Option<String>)
    ensures
        match r {
            Some(p) => exists|i: int|
                {
                    &&& 0 <= i < paths@.len()
                    &&& p@ == #[trigger] paths@[i]@
                    &&& spec_app_candidate(paths@[i]@, spec_configuration_name(*config))
                    &&& (forall|j: int|
                        0 <= j < i ==> !spec_app_candidate(
                            #[trigger] paths@[j]@,
                            spec_configuration_name(*config),
                        ))
                },
            None => forall|j: int|
                0 <= j < paths@.len() ==> !spec_app_candidate(
                    #[trigger] paths@[j]@,
                    spec_configuration_name(*config),
                ),
        },
{
    let cfg = config.as_str();
    let n = paths.len();
    let mut i: usize = 0;
    while i < n
        invariant
            0 <= i <= n,
            n == paths@.len(),
            forall|j: int|
                0 <= j < i ==> !spec_app_candidate(
                    #[trigger] paths@[j]@,
                    spec_configuration_name(*config),
                ),
            cfg@ == spec_configuration_name(*config),
        decreases n - i,
    {
        let p = paths[i].as_str();
        if str_ends_with(p, ".app") && str_contains(p, cfg) && str_contains(
            p,
            "iphonesimulator",
        ) {
            return Some(p.to_owned());
        }
        i = i + 1;
    }
    None
}

/// Relies on walkdir's `WalkDir`: the paths under a directory, to the
/// given depth. What is on disk cannot be promised, so nothing is.
#[verifier::external_body]
fn walk_paths(root: &str, max_depth: usize) -> Vec<String> {
    walkdir::WalkDir::new(root).max_depth(max_depth).into_iter().filter_map(
        |e| e.ok(),
    ).map(|e| e.path().to_string_lossy().into_owned()).collect()
}

/// Searches the known build-output roots for the produced app bundle:
/// the project's own output directories first, then the user-level one.
/// Whatever is on disk, a returned path names an app bundle matching the
/// configuration on the simulator platform; the error names the scheme
/// and says that no bundle was found, not that the build tool failed.
pub fn find_built_app(
    project_dir: &str,
    home: Option<&str>,
    scheme: &str,
    config: &BuildConfiguration,
) -> (r: Result<String, String>)
    ensures
        r matches Ok(p) ==> spec_app_candidate(p@, spec_configuration_name(*config)),
        r matches Err(e) ==> e@ == "Could not find built app for scheme '"@ + scheme@
            + "' in DerivedData"@,
{
    let mut roots: Vec<String> = Vec::new();
    roots.push(crate::storage::join_under_root(project_dir, "DerivedData"));
    roots.push(crate::storage::join_under_root(project_dir, "build"));
    if let Some(h) = home {
        roots.push(crate::storage::join_under_root(h, "Library/Developer/Xcode/DerivedData"));
    }
    let nroots = roots.len();
    let mut i: usize = 0;
    while i < nroots
        invariant
            0 <= i <= nroots,
            nroots == roots@.len(),
        decreases nroots - i,
    {
        let paths = walk_paths(roots[i].as_str(), 6);
        if let Some(p) = select_app_bundle(&paths, config) {
            return Ok(p);
        }
        i = i + 1;
    }
    Err(
        String::from_str("Could not find built app for scheme '").concat(scheme).concat(
            "' in DerivedData",
        ),
    )
}

/// The terminal outcome for a subprocess that exited unsuccessfully: a
/// failure whose message carries the exit description verbatim.
pub fn exit_failure_outcome(exit_desc: &str) -> (r: BuildOutcome)
    ensures
        r matches BuildOutcome::Failure { message } && message@ == "Build failed with exit code: "@
            + exit_desc@,
{
    BuildOutcome::Failure {
        message: String::from_str("Build failed with exit code: ").concat(exit_desc),
    }
}

/// The terminal outcome for a clean exit that produced no matching app
/// bundle: a failure whose message names the missing artifact, not the
/// exit code.
pub fn artifact_missing_outcome(scheme: &str) -> (r: BuildOutcome)
    ensures
        r matches BuildOutcome::Failure { message } && message@
            == "Could not find built app for scheme '"@ + scheme@ + "' in DerivedData"@,
{
    BuildOutcome::Failure {
        message: String::from_str("Could not find built app for scheme '").concat(scheme).concat(
            "' in DerivedData",
        ),
    }
}

/// The terminal outcome for a located app bundle: success when its
/// manifest yielded a bundle identifier, and a failure naming the
/// unreadable manifest when it did not — a bundle whose identifier
/// cannot be read is not a usable artifact.
pub fn success_outcome(
    app_path: String,
    bundle_id: Option<String>,
    warnings: Vec<String>,
) -> (r: BuildOutcome)
    ensures
        bundle_id matches Some(b) ==> (r matches BuildOutcome::Success {
            app_path: a,
            bundle_id: b2,
            warnings: w,
        } && a == app_path && b2 == b && w == warnings),
        bundle_id is None ==> (r matches BuildOutcome::Failure { message } && message@
            == "Failed to read bundle ID from Info.plist"@),
{
    match bundle_id {
        Some(b) => BuildOutcome::Success { app_path, bundle_id: b, warnings },
        None => BuildOutcome::Failure {
            message: String::from_str("Failed to read bundle ID from Info.plist"),
        },
    }
}

/// The bundle identifier as the manifest tool prints it: the output,
/// trimmed.
pub fn parse_bundle_id(output: &str) -> (r: String)
    ensures
        r@ == spec_trim(output@),
{
    trim_str(output)
}

} // verus!
