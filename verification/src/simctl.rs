//! Simulator adapter logic: normalizing the device-control tool's
//! records, parsing its state vocabulary, reading a launch pid from its
//! output, and the benign-failure policy for boot and shutdown. Shelling
//! out to the tool happens outside the library; every judgment on its
//! output is made here.

use vstd::prelude::*;
use vstd::string::StrSliceExecFns;
use vstd::string::StringExecFns;

use crate::api::SimulatorDevice;
use crate::api::SimulatorRuntime;
use crate::api::SimulatorState;
use crate::text::char_eq_ci;
use crate::text::contains_chars;
use crate::text::dec_val_chars;
use crate::text::all_digit_chars;
use crate::text::find_chars;
use crate::text::parse_u32_chars;
use crate::text::str_contains;
use crate::text::str_contains_ci;
use crate::text::str_eq_ci;
use crate::text::str_starts_with;
use crate::text::to_chars;

verus! {

/// A raw device record as the tool reports it, before normalization.
#[derive(Debug, Clone)]
pub struct RawSimctlDevice {
    pub udid: String,
    pub name: String,
    pub device_type_identifier: Option<String>,
    pub state: String,
    pub is_available: Option<bool>,
}

/// A raw runtime record as the tool reports it, before normalization.
#[derive(Debug, Clone)]
pub struct RawSimctlRuntime {
    pub identifier: String,
    pub name: String,
    pub version: String,
    pub build_version: Option<String>,
    pub is_available: bool,
}

/// Two character sequences equal up to ASCII case.
pub open spec fn seq_eq_ci(a: Seq<char>, b: Seq<char>) -> bool {
    a.len() == b.len() && forall|k: int| 0 <= k < a.len() ==> char_eq_ci(#[trigger] a[k], b[k])
}

/// The closed state enum a state word is normalized to; anything
/// unrecognized defaults to shut down.
pub open spec fn spec_parse_state(s: Seq<char>) -> SimulatorState {
    if seq_eq_ci(s, "booted"@) {
        SimulatorState::Booted
    } else if seq_eq_ci(s, "booting"@) {
        SimulatorState::Booting
    } else if seq_eq_ci(s, "shuttingdown"@) || seq_eq_ci(s, "shutting down"@) {
        SimulatorState::ShuttingDown
    } else {
        SimulatorState::Shutdown
    }
}

/// Normalizes the tool's state word to the closed state enum.
pub fn parse_state(state: &str) -> (r: SimulatorState)
    ensures
        r == spec_parse_state(state@),
{
    if str_eq_ci(state, "booted") {
        SimulatorState::Booted
    } else if str_eq_ci(state, "booting") {
        SimulatorState::Booting
    } else if str_eq_ci(state, "shuttingdown") || str_eq_ci(state, "shutting down") {
        SimulatorState::ShuttingDown
    } else {
        SimulatorState::Shutdown
    }
}

/// The runtime identifier's prefix that is stripped for display.
pub open spec fn spec_runtime_prefix() -> Seq<char> {
    "com.apple.CoreSimulator.SimRuntime."@
}

/// A dash or dot shown as a space; every other character kept.
pub open spec fn spec_space_for_sep(c: char) -> char {
    if c == '-' || c == '.' {
        ' '
    } else {
        c
    }
}

/// The human-readable runtime name of a runtime identifier: the
/// well-known prefix stripped, dashes and dots turned into spaces.
pub open spec fn spec_runtime_name(id: Seq<char>) -> Seq<char> {
    let tail = if id.len() >= spec_runtime_prefix().len() && id.subrange(
        0,
        spec_runtime_prefix().len() as int,
    ) == spec_runtime_prefix() {
        id.skip(spec_runtime_prefix().len() as int)
    } else {
        id
    };
    tail.map_values(|c: char| spec_space_for_sep(c))
}

/// Renders a runtime identifier as its human-readable name.
pub fn runtime_display_name(id: &str) -> (r: String)
    ensures
        r@ == spec_runtime_name(id@),
{
    proof {
        reveal_strlit("com.apple.CoreSimulator.SimRuntime.");
    }
    let n = id.unicode_len();
    let start: usize = if n >= 35 && str_starts_with(id, "com.apple.CoreSimulator.SimRuntime.") {
        35
    } else {
        0
    };
    let tail = id.substring_char(start, n);
    let ghost tv = id@.skip(start as int);
    assert(tail@ =~= tv);
    let m = tail.unicode_len();
    let mut out = String::new();
    let mut seg: usize = 0;
    let mut i: usize = 0;
    while i < m
        invariant
            0 <= seg <= i <= m,
            m == tail@.len(),
            forall|k: int| seg <= k < i ==> tail@[k] != '-' && tail@[k] != '.',
            out@ + tail@.subrange(seg as int, i as int) =~= tail@.map_values(
                |c: char| spec_space_for_sep(c),
            ).take(i as int),
        decreases m - i,
    {
        let c = tail.get_char(i);
        if c == '-' || c == '.' {
            let ghost before = out@;
            out.append(tail.substring_char(seg, i));
            out.append(" ");
            proof {
                reveal_strlit(" ");
                let mapped = tail@.map_values(|c: char| spec_space_for_sep(c));
                assert(out@ =~= before + tail@.subrange(seg as int, i as int) + " "@);
                assert(" "@ =~= seq![' ']);
                assert(mapped.take(i + 1) =~= mapped.take(i as int).push(mapped[i as int]));
                assert(out@ + tail@.subrange(i + 1, i + 1) =~= mapped.take(i + 1));
            }
            seg = i + 1;
        } else {
            proof {
                let mapped = tail@.map_values(|c: char| spec_space_for_sep(c));
                assert(mapped.take(i + 1) =~= mapped.take(i as int).push(mapped[i as int]));
                assert(out@ + tail@.subrange(seg as int, i + 1) =~= mapped.take(i + 1));
            }
        }
        i = i + 1;
    }
    out.append(tail.substring_char(seg, m));
    proof {
        let mapped = tail@.map_values(|c: char| spec_space_for_sep(c));
        assert(mapped.take(m as int) =~= mapped);
        assert(out@ =~= mapped);
        assert(spec_runtime_name(id@) =~= mapped);
    }
    out
}

/// Normalizes one raw device record against its runtime identifier and
/// display name: missing fields defaulted, the state word parsed.
pub fn normalize_device(raw: RawSimctlDevice, runtime_id: &str, runtime_name: &str) -> (r:
    SimulatorDevice)
    ensures
        r.udid == raw.udid,
        r.name == raw.name,
        (match raw.device_type_identifier {
            Some(s) => r.device_type_identifier == s,
            None => r.device_type_identifier@ == Seq::<char>::empty(),
        }),
        r.runtime_identifier@ == runtime_id@,
        r.runtime@ == runtime_name@,
        r.state == spec_parse_state(raw.state@),
        r.is_available == (match raw.is_available {
            Some(b) => b,
            None => true,
        }),
{
    let state = parse_state(raw.state.as_str());
    let dti = match raw.device_type_identifier {
        Some(s) => s,
        None => String::new(),
    };
    SimulatorDevice {
        udid: raw.udid,
        name: raw.name,
        device_type_identifier: dti,
        runtime_identifier: String::from_str(runtime_id),
        runtime: String::from_str(runtime_name),
        state,
        is_available: match raw.is_available {
            Some(b) => b,
            None => true,
        },
    }
}

/// Normalizes the raw devices of one runtime group.
pub fn normalize_group(runtime_id: &str, devs: Vec<RawSimctlDevice>) -> (r: Vec<SimulatorDevice>)
    ensures
        r@.len() == devs@.len(),
        forall|k: int|
            0 <= k < devs@.len() ==> {
                let d = #[trigger] r@[k];
                let raw = devs@[k];
                &&& d.udid == raw.udid
                &&& d.name == raw.name
                &&& d.runtime_identifier@ == runtime_id@
                &&& d.runtime@ == spec_runtime_name(runtime_id@)
                &&& d.state == spec_parse_state(raw.state@)
                &&& d.is_available == (match raw.is_available {
                    Some(b) => b,
                    None => true,
                })
            },
{
    let name = runtime_display_name(runtime_id);
    let mut r: Vec<SimulatorDevice> = Vec::new();
    let n = devs.len();
    let mut devs = devs;
    let ghost all = devs@;
    let mut i: usize = 0;
    while i < n
        invariant
            0 <= i <= n,
            n == all.len(),
            devs@ =~= all.skip(i as int),
            name@ == spec_runtime_name(runtime_id@),
            r@.len() == i,
            forall|k: int|
                0 <= k < i ==> {
                    let d = #[trigger] r@[k];
                    let raw = all[k];
                    &&& d.udid == raw.udid
                    &&& d.name == raw.name
                    &&& d.runtime_identifier@ == runtime_id@
                    &&& d.runtime@ == spec_runtime_name(runtime_id@)
                    &&& d.state == spec_parse_state(raw.state@)
                    &&& d.is_available == (match raw.is_available {
                        Some(b) => b,
                        None => true,
                    })
                },
        decreases n - i,
    {
        assert(devs@[0] == all[i as int]);
        let raw = devs.remove(0);
        let d = normalize_device(raw, runtime_id, name.as_str());
        r.push(d);
        proof {
            assert(devs@ =~= all.skip(i + 1));
        }
        i = i + 1;
    }
    r
}

/// Normalizes one raw runtime record: a missing build version becomes
/// empty.
pub fn normalize_runtime(raw: RawSimctlRuntime) -> (r: SimulatorRuntime)
    ensures
        r.identifier == raw.identifier,
        r.name == raw.name,
        r.version == raw.version,
        (match raw.build_version {
            Some(s) => r.build_version == s,
            None => r.build_version@ == Seq::<char>::empty(),
        }),
        r.is_available == raw.is_available,
{
    SimulatorRuntime {
        identifier: raw.identifier,
        name: raw.name,
        version: raw.version,
        build_version: match raw.build_version {
            Some(s) => s,
            None => String::new(),
        },
        is_available: raw.is_available,
    }
}

/// The boot call's outcome policy: a clean exit is success, and so is a
/// failure whose text names the already-booted state — the tool's error
/// text for that benign no-op is otherwise indistinguishable from a real
/// failure. Anything else is the failure, text preserved.
pub fn boot_outcome(exit_success: bool, stderr: &str) -> (r: Result<(), String>)
    ensures
        r is Ok <==> (exit_success || contains_chars(stderr@, "Booted"@)),
        r matches Err(e) ==> e@ == "simctl boot failed: "@ + stderr@,
{
    if exit_success || str_contains(stderr, "Booted") {
        Ok(())
    } else {
        Err(String::from_str("simctl boot failed: ").concat(stderr))
    }
}

/// The shutdown call's outcome policy: success on a clean exit or on the
/// already-shut-down text; anything else is the failure, text preserved.
pub fn shutdown_outcome(exit_success: bool, stderr: &str) -> (r: Result<(), String>)
    ensures
        r is Ok <==> (exit_success || contains_chars(stderr@, "Shutdown"@)),
        r matches Err(e) ==> e@ == "simctl shutdown failed: "@ + stderr@,
{
    if exit_success || str_contains(stderr, "Shutdown") {
        Ok(())
    } else {
        Err(String::from_str("simctl shutdown failed: ").concat(stderr))
    }
}

/// The install call's outcome: success exactly on a clean exit.
pub fn install_outcome(exit_success: bool, stderr: &str) -> (r: Result<(), String>)
    ensures
        r is Ok <==> exit_success,
        r matches Err(e) ==> e@ == "simctl install failed: "@ + stderr@,
{
    if exit_success {
        Ok(())
    } else {
        Err(String::from_str("simctl install failed: ").concat(stderr))
    }
}

/// The uninstall call's outcome: success exactly on a clean exit.
pub fn uninstall_outcome(exit_success: bool, stderr: &str) -> (r: Result<(), String>)
    ensures
        r is Ok <==> exit_success,
        r matches Err(e) ==> e@ == "simctl uninstall failed: "@ + stderr@,
{
    if exit_success {
        Ok(())
    } else {
        Err(String::from_str("simctl uninstall failed: ").concat(stderr))
    }
}

/// The launch call's outcome: success exactly on a clean exit.
pub fn launch_outcome(exit_success: bool, stderr: &str) -> (r: Result<(), String>)
    ensures
        r is Ok <==> exit_success,
        r matches Err(e) ==> e@ == "simctl launch failed: "@ + stderr@,
{
    if exit_success {
        Ok(())
    } else {
        Err(String::from_str("simctl launch failed: ").concat(stderr))
    }
}

/// The decimal value of a pid token: an optional leading plus sign,
/// then digits, within `u32` — what the launch tool's trailing token
/// reads as.
pub open spec fn spec_token_value(tok: Seq<char>) -> Option<u32> {
    let digits = if tok.len() > 0 && tok[0] == '+' {
        tok.skip(1)
    } else {
        tok
    };
    if digits.len() > 0 && all_digit_chars(digits) && dec_val_chars(digits) <= u32::MAX {
        Some(dec_val_chars(digits) as u32)
    } else {
        None
    }
}

/// The pid a line yields: the value of its trailing whitespace-
/// separated token, when it has one that reads as a number.
pub open spec fn spec_line_pid(line: Seq<char>) -> Option<u32> {
    spec_token_value(crate::text::spec_last_token(crate::text::spec_trim_end(line)))
}

/// The length of the first line of `s`: the distance to its first line
/// feed, or its whole length when it has none.
pub open spec fn spec_first_line_len(s: Seq<char>) -> nat
    decreases s.len(),
{
    if s.len() == 0 {
        0
    } else if s[0] == '\n' {
        0
    } else {
        (1 + spec_first_line_len(s.skip(1))) as nat
    }
}

proof fn lemma_first_line_len_is(s: Seq<char>, b: int)
    requires
        0 <= b <= s.len(),
        forall|k: int| 0 <= k < b ==> s[k] != '\n',
        b == s.len() || s[b] == '\n',
    ensures
        spec_first_line_len(s) == b,
    decreases b,
{
    if b == 0 {
    } else {
        assert(s[0] != '\n');
        assert forall|k: int| 0 <= k < b - 1 implies #[trigger] s.skip(1)[k] != '\n' by {
            assert(s.skip(1)[k] == s[k + 1]);
        }
        if b < s.len() {
            assert(s.skip(1)[b - 1] == s[b as int]);
        }
        lemma_first_line_len_is(s.skip(1), b - 1);
    }
}

/// The pid the launch tool's output yields for a bundle id: the lines
/// are scanned in order, and the first line that names the bundle id
/// and whose trailing token reads as a number decides; nothing when no
/// such line exists. A missing or unreadable pid is not an error; the
/// pid is optional.
pub open spec fn spec_launch_pid(out: Seq<char>, bundle: Seq<char>) -> Option<u32>
    decreases out.len(),
{
    let b = spec_first_line_len(out) as int;
    let line = out.take(b);
    if contains_chars(line, bundle) && spec_line_pid(line) is Some {
        spec_line_pid(line)
    } else if b < out.len() {
        spec_launch_pid(out.skip(b + 1), bundle)
    } else {
        None
    }
}

/// The pid one full line yields, by its trailing token.
fn line_pid(line: &Vec<char>) -> (r: Option<u32>)
    ensures
        r == spec_line_pid(line@),
{
    let n = line.len();
    let mut u: usize = n;
    while u > 0 && is_ws_at(line, u - 1)
        invariant
            0 <= u <= n,
            n == line@.len(),
            forall|k: int| u <= k < n ==> crate::text::is_ws(#[trigger] line@[k]),
        decreases u,
    {
        u = u - 1;
    }
    proof {
        crate::text::lemma_trim_end_take(line@, u as int);
    }
    if u == 0 {
        proof {
            assert(crate::text::spec_trim_end(line@) =~= Seq::<char>::empty());
        }
        return None;
    }
    let mut t: usize = u;
    while t > 0 && !is_ws_at(line, t - 1)
        invariant
            0 <= t <= u <= n,
            n == line@.len(),
            forall|k: int| t <= k < u ==> !crate::text::is_ws(#[trigger] line@[k]),
        decreases t,
    {
        t = t - 1;
    }
    proof {
        // The token is non-empty: the character before `u` is not
        // whitespace, so the scan moved at least one step.
        if t == u {
            assert(crate::text::is_ws(line@[u - 1]));
            assert(!crate::text::is_ws(line@[u - 1]));
        }
        let trimmed = line@.take(u as int);
        assert forall|k: int| t <= k < trimmed.len() implies !crate::text::is_ws(
            #[trigger] trimmed[k],
        ) by {
            assert(trimmed[k] == line@[k]);
        }
        if t > 0 {
            assert(crate::text::is_ws(trimmed[t - 1])) by {
                assert(trimmed[t - 1] == line@[t - 1]);
            }
        }
        crate::text::lemma_last_token_skip(trimmed, t as int);
        assert(crate::text::spec_last_token(trimmed) =~= line@.subrange(t as int, u as int));
    }
    // The token, with an optional leading plus sign stripped.
    let start: usize = if line[t] == '+' {
        t + 1
    } else {
        t
    };
    let mut tok: Vec<char> = Vec::new();
    let mut k: usize = start;
    while k < u
        invariant
            start <= k <= u <= n,
            n == line@.len(),
            tok@.len() == k - start,
            forall|j: int| 0 <= j < tok@.len() ==> tok@[j] == line@[start + j],
        decreases u - k,
    {
        tok.push(line[k]);
        k = k + 1;
    }
    proof {
        let full = line@.subrange(t as int, u as int);
        if line@[t as int] == '+' {
            assert(full[0] == '+');
            assert(tok@ =~= full.skip(1));
        } else {
            assert(tok@ =~= full);
        }
    }
    parse_u32_chars(&tok)
}

/// Reads a process id from the launch tool's output, scanning the lines
/// in order for the first one that names the bundle id and ends in a
/// readable pid.
pub fn parse_launch_pid(stdout: &str, bundle_id: &str) -> (r: Option<u32>)
    ensures
        r == spec_launch_pid(stdout@, bundle_id@),
{
    let hay = to_chars(stdout);
    let needle = to_chars(bundle_id);
    let n = hay.len();
    proof {
        assert(hay@.skip(0) =~= hay@);
    }
    let mut ls: usize = 0;
    loop
        invariant
            0 <= ls <= n,
            n == hay@.len(),
            hay@ == stdout@,
            needle@ == bundle_id@,
            spec_launch_pid(hay@.skip(ls as int), needle@) == spec_launch_pid(
                stdout@,
                bundle_id@,
            ),
        decreases n - ls,
    {
        // The current line's end.
        let mut le: usize = ls;
        while le < n && hay[le] != '\n'
            invariant
                ls <= le <= n,
                n == hay@.len(),
                forall|k: int| ls <= k < le ==> hay@[k] != '\n',
            decreases n - le,
        {
            le = le + 1;
        }
        let mut line: Vec<char> = Vec::new();
        let mut k: usize = ls;
        while k < le
            invariant
                ls <= k <= le <= n,
                n == hay@.len(),
                line@.len() == k - ls,
                forall|j: int| 0 <= j < line@.len() ==> line@[j] == hay@[ls + j],
            decreases le - k,
        {
            line.push(hay[k]);
            k = k + 1;
        }
        proof {
            assert(line@ =~= hay@.subrange(ls as int, le as int));
            let suffix = hay@.skip(ls as int);
            assert forall|j: int| 0 <= j < (le - ls) implies #[trigger] suffix[j] != '\n' by {
                assert(suffix[j] == hay@[ls + j]);
            }
            if le < n {
                assert(suffix[le - ls] == hay@[le as int]);
            }
            lemma_first_line_len_is(suffix, le - ls);
            assert(suffix.take(le - ls) =~= line@);
        }
        let found = find_chars(&line, &needle, false);
        if found.is_some() {
            proof {
                assert(contains_chars(line@, needle@));
            }
            let pid = line_pid(&line);
            if pid.is_some() {
                return pid;
            }
        }
        if le == n {
            return None;
        }
        proof {
            assert(hay@.skip(ls as int).skip((le - ls) + 1) =~= hay@.skip(le + 1));
        }
        ls = le + 1;
    }
}

/// Whether the character at `i` is ASCII whitespace.
fn is_ws_at(hay: &Vec<char>, i: usize) -> (r: bool)
    requires
        i < hay@.len(),
    ensures
        r == crate::text::is_ws(hay@[i as int]),
{
    let c = hay[i];
    c == ' ' || c == '\t' || c == '\n' || c == '\r'
}

/// The first available device whose name contains the query, up to
/// ASCII case.
pub fn find_device_by_name<'a>(devices: &'a Vec<SimulatorDevice>, name: &str) -> (r: Option<
    &'a SimulatorDevice,
>)
    ensures
        match r {
            Some(d) => exists|i: int|
                {
                    &&& 0 <= i < devices@.len()
                    &&& *d == #[trigger] devices@[i]
                    &&& devices@[i].is_available
                    &&& crate::text::contains_chars_ci(devices@[i].name@, name@)
                    &&& (forall|j: int|
                        0 <= j < i ==> !((#[trigger] devices@[j]).is_available
                            && crate::text::contains_chars_ci(devices@[j].name@, name@)))
                },
            None => forall|j: int|
                0 <= j < devices@.len() ==> !((#[trigger] devices@[j]).is_available
                    && crate::text::contains_chars_ci(devices@[j].name@, name@)),
        },
{
    let n = devices.len();
    let mut i: usize = 0;
    while i < n
        invariant
            0 <= i <= n,
            n == devices@.len(),
            forall|j: int|
                0 <= j < i ==> !((#[trigger] devices@[j]).is_available
                    && crate::text::contains_chars_ci(devices@[j].name@, name@)),
        decreases n - i,
    {
        let d = &devices[i];
        if d.is_available && str_contains_ci(d.name.as_str(), name) {
            return Some(d);
        }
        i = i + 1;
    }
    None
}

} // verus!
