//! The shared state store: registries of projects, builds, artifacts and
//! log channels, keyed by id. Identifiers are allocated from counters
//! that never repeat, so a record's id is never reused. Each operation
//! touches one key; replacing a build record is a single visible write.

use std::collections::HashMap;
use vstd::prelude::*;

use crate::api::BuildArtifacts;
use crate::api::BuildOutcome;
use crate::api::BuildRequest;
use crate::api::BuildResponse;
use crate::api::BuildStatus;
use crate::api::BuildStatusResponse;
use crate::api::ProjectInfo;
use crate::api::SyncProjectResponse;
use crate::api::clone_string;
use crate::api::clone_strings;
use crate::api::spec_duration;
use crate::api::spec_outcome_status;
use crate::config::AgentServerConfig;
use crate::error::ApiError;
use crate::fanout::LOG_CHANNEL_CAPACITY;
use crate::fanout::LogChannel;
use crate::fanout::RecvOutcome;
use crate::logs::LogMessage;
use crate::text::u64_to_string;
use vstd::string::StringExecFns;

verus! {

broadcast use vstd::std_specs::hash::group_hash_axioms;

/// Shared application state: the registries every request handler works
/// against.
pub struct AppState {
    /// Agent configuration.
    pub config: AgentServerConfig,
    projects: HashMap<u64, ProjectInfo>,
    project_order: Vec<u64>,
    builds: HashMap<u64, BuildStatusResponse>,
    artifacts: HashMap<u64, BuildArtifacts>,
    channels: HashMap<u64, LogChannel>,
    next_project_id: u64,
    next_build_id: u64,
}

impl AppState {
    /// The registered projects, by id.
    pub closed spec fn spec_projects(self) -> Map<u64, ProjectInfo> {
        self.projects@
    }

    /// The build records, by build id.
    pub closed spec fn spec_builds(self) -> Map<u64, BuildStatusResponse> {
        self.builds@
    }

    /// The stored artifacts, by build id.
    pub closed spec fn spec_artifacts(self) -> Map<u64, BuildArtifacts> {
        self.artifacts@
    }

    /// The log channels, by build id.
    pub closed spec fn spec_channels(self) -> Map<u64, LogChannel> {
        self.channels@
    }

    /// The next project id to be allocated.
    pub closed spec fn spec_next_project_id(self) -> u64 {
        self.next_project_id
    }

    /// The next build id to be allocated.
    pub closed spec fn spec_next_build_id(self) -> u64 {
        self.next_build_id
    }

    /// Well-formedness of the store: ids below their counters and keyed
    /// consistently; checksums unique across projects; build records
    /// well-formed; an artifact stored exactly for succeeded builds; all
    /// channels well-formed.
    pub closed spec fn wf(self) -> bool {
        &&& forall|id: u64|
            #[trigger] self.projects@.contains_key(id) ==> id < self.next_project_id
                && self.projects@[id].project_id == id
        &&& forall|a: u64, b: u64|
            #[trigger] self.projects@.contains_key(a) && #[trigger] self.projects@.contains_key(b)
                && a != b ==> self.projects@[a].checksum@ != self.projects@[b].checksum@
        &&& forall|i: int|
            0 <= i < self.project_order@.len() ==> self.projects@.contains_key(
                #[trigger] self.project_order@[i],
            )
        &&& forall|id: u64|
            #[trigger] self.projects@.contains_key(id) ==> self.project_order@.contains(id)
        &&& forall|id: u64|
            #[trigger] self.builds@.contains_key(id) ==> id < self.next_build_id
                && self.builds@[id].build_id == id && self.builds@[id].wf()
        &&& forall|id: u64|
            #[trigger] self.artifacts@.contains_key(id) <==> (self.builds@.contains_key(id)
                && self.builds@[id].status == BuildStatus::Succeeded)
        &&& forall|id: u64|
            #[trigger] self.channels@.contains_key(id) ==> self.channels@[id].wf()
                && self.builds@.contains_key(id)
    }

    /// A fresh store holding only the configuration.
    pub fn new(config: AgentServerConfig) -> (r: AppState)
        ensures
            r.wf(),
            r.spec_projects() == Map::<u64, ProjectInfo>::empty(),
            r.spec_builds() == Map::<u64, BuildStatusResponse>::empty(),
            r.spec_artifacts() == Map::<u64, BuildArtifacts>::empty(),
            r.spec_channels() == Map::<u64, LogChannel>::empty(),
            r.spec_next_project_id() == 0,
            r.spec_next_build_id() == 0,
    {
        AppState {
            config,
            projects: HashMap::new(),
            project_order: Vec::new(),
            builds: HashMap::new(),
            artifacts: HashMap::new(),
            channels: HashMap::new(),
            next_project_id: 0,
            next_build_id: 0,
        }
    }

    /// Whether a further project id can be allocated. False only after
    /// the counter is exhausted, a machine limit.
    pub open spec fn spec_can_allocate_project(self) -> bool {
        self.spec_next_project_id() < u64::MAX
    }

    /// Whether a further build id can be allocated.
    pub open spec fn spec_can_allocate_build(self) -> bool {
        self.spec_next_build_id() < u64::MAX
    }

    pub fn can_allocate_project(&self) -> (r: bool)
        ensures
            r == self.spec_can_allocate_project(),
    {
        self.next_project_id < u64::MAX
    }

    pub fn can_allocate_build(&self) -> (r: bool)
        ensures
            r == self.spec_can_allocate_build(),
    {
        self.next_build_id < u64::MAX
    }

    /// The project registered under this id, if any.
    pub fn get_project(&self, id: u64) -> (r: Option<&ProjectInfo>)
        ensures
            match r {
                Some(p) => self.spec_projects().contains_key(id) && *p == self.spec_projects()[id],
                None => !self.spec_projects().contains_key(id),
            },
    {
        self.projects.get(&id)
    }

    /// Some project already registered with this checksum, if any.
    pub fn find_project_by_checksum(&self, checksum: &String) -> (r: Option<&ProjectInfo>)
        requires
            self.wf(),
        ensures
            match r {
                Some(p) => self.spec_projects().contains_key(p.project_id) && *p
                    == self.spec_projects()[p.project_id] && p.checksum@ == checksum@,
                None => !self.spec_has_checksum(checksum@),
            },
    {
        let n = self.project_order.len();
        let mut i: usize = 0;
        while i < n
            invariant
                self.wf(),
                0 <= i <= n,
                n == self.project_order@.len(),
                forall|j: int|
                    0 <= j < i ==> self.spec_projects()[#[trigger] self.project_order@[j]].checksum@
                        != checksum@,
            decreases n - i,
        {
            let id = self.project_order[i];
            let p = self.projects.get(&id).unwrap();
            if p.checksum == *checksum {
                return Some(p);
            }
            i = i + 1;
        }
        proof {
            assert forall|id: u64| self.spec_projects().contains_key(id) implies (
            #[trigger] self.spec_projects()[id]).checksum@ != checksum@ by {
                assert(self.project_order@.contains(id));
                let j = choose|j: int|
                    0 <= j < self.project_order@.len() && self.project_order@[j] == id;
                assert(self.spec_projects()[self.project_order@[j]].checksum@ != checksum@);
            }
        }
        None
    }

    /// Some registered project carries this checksum.
    pub open spec fn spec_has_checksum(self, c: Seq<char>) -> bool {
        exists|id: u64|
            #[trigger] self.spec_projects().contains_key(id) && self.spec_projects()[id].checksum@
                == c
    }

    /// Registers the result of a sync: when the checksum is already
    /// cached, answers with the existing project and no new files;
    /// otherwise registers a fresh project under a fresh id.
    pub fn sync_register(
        &mut self,
        project_name: String,
        checksum: String,
        path: String,
        synced_at: i64,
        files_extracted: u32,
    ) -> (r: SyncProjectResponse)
        requires
            old(self).wf(),
            !old(self).spec_has_checksum(checksum@) ==> old(self).spec_can_allocate_project(),
        ensures
            final(self).wf(),
            sync_rel(
                *old(self),
                project_name@,
                checksum@,
                path@,
                synced_at,
                files_extracted,
                *final(self),
                r,
            ),
            final(self).spec_builds() == old(self).spec_builds(),
            final(self).spec_artifacts() == old(self).spec_artifacts(),
            final(self).spec_channels() == old(self).spec_channels(),
            final(self).spec_next_build_id() == old(self).spec_next_build_id(),
    {
        let ghost pre = *self;
        let cached: Option<(u64, String)> = match self.find_project_by_checksum(&checksum) {
            Some(p) => Some((p.project_id, clone_string(&p.path))),
            None => None,
        };
        match cached {
            Some((id, existing_path)) => {
                SyncProjectResponse {
                    project_id: id,
                    path: existing_path,
                    files_extracted: 0,
                    was_cached: true,
                }
            },
            None => {
                assert(!pre.spec_has_checksum(checksum@));
                let id = self.next_project_id;
                self.next_project_id = id + 1;
                let info = ProjectInfo {
                    project_id: id,
                    project_name,
                    checksum,
                    path: clone_string(&path),
                    synced_at,
                };
                self.projects.insert(id, info);
                self.project_order.push(id);
                proof {
                    assert(self.projects@.dom() =~= pre.projects@.dom().insert(id));
                    assert forall|k: u64| self.projects@.contains_key(k) implies k
                        < self.next_project_id && (#[trigger] self.projects@[k]).project_id
                        == k by {
                        if k != id {
                            assert(pre.projects@.contains_key(k));
                            assert((pre.projects@[k]).project_id == k);
                        }
                    }
                    assert forall|i: int|
                        0 <= i < self.project_order@.len() implies self.projects@.contains_key(
                        #[trigger] self.project_order@[i],
                    ) by {
                        if i < pre.project_order@.len() {
                            assert(pre.projects@.contains_key(pre.project_order@[i]));
                        }
                    }
                    assert forall|k: u64| #[trigger]
                        self.projects@.contains_key(k) implies self.project_order@.contains(k) by {
                        if k == id {
                            assert(self.project_order@[self.project_order@.len() - 1] == id);
                        } else {
                            assert(pre.projects@.contains_key(k));
                            let j = choose|j: int|
                                0 <= j < pre.project_order@.len() && pre.project_order@[j] == k;
                            assert(self.project_order@[j] == k);
                        }
                    }
                    assert forall|a: u64, b: u64|
                        self.projects@.contains_key(a) && self.projects@.contains_key(b) && a
                            != b implies (#[trigger] self.projects@[a]).checksum@ != (
                    #[trigger] self.projects@[b]).checksum@ by {
                        if a == id {
                            assert(pre.spec_projects().contains_key(b));
                            if pre.spec_projects()[b].checksum@ == checksum@ {
                                assert(pre.spec_has_checksum(checksum@));
                            }
                        } else if b == id {
                            assert(pre.spec_projects().contains_key(a));
                            if pre.spec_projects()[a].checksum@ == checksum@ {
                                assert(pre.spec_has_checksum(checksum@));
                            }
                        } else {
                            assert(pre.spec_projects().contains_key(a));
                            assert(pre.spec_projects().contains_key(b));
                        }
                    }
                    assert forall|k: u64| self.builds@.contains_key(k) implies k
                        < self.next_build_id && (#[trigger] self.builds@[k]).build_id == k
                        && self.builds@[k].wf() by {
                        assert(pre.builds@.contains_key(k));
                        assert((pre.builds@[k]).build_id == k);
                    }
                    assert forall|k: u64| #[trigger]
                        self.artifacts@.contains_key(k) <==> (self.builds@.contains_key(k)
                        && self.builds@[k].status == BuildStatus::Succeeded) by {
                        if pre.builds@.contains_key(k) {
                            assert((pre.builds@[k]).build_id == k);
                        }
                        assert(pre.artifacts@.contains_key(k) <==> (pre.builds@.contains_key(k)
                            && pre.builds@[k].status == BuildStatus::Succeeded));
                    }
                    assert forall|k: u64| #[trigger] self.channels@.contains_key(k) implies (
                    self.channels@[k]).wf() && self.builds@.contains_key(k) by {
                        assert(pre.channels@.contains_key(k));
                        assert((pre.channels@[k]).wf() && pre.builds@.contains_key(k));
                    }
                }
                SyncProjectResponse { project_id: id, path, files_extracted, was_cached: false }
            },
        }
    }
}

impl AppState {
    /// The build record stored under this id, if any.
    pub fn get_build(&self, id: u64) -> (r: Option<&BuildStatusResponse>)
        ensures
            match r {
                Some(b) => self.spec_builds().contains_key(id) && *b == self.spec_builds()[id],
                None => !self.spec_builds().contains_key(id),
            },
    {
        self.builds.get(&id)
    }

    /// The build record, or the `NOT_FOUND` error the API answers with.
    pub fn build_status_or_error(&self, build_id: u64) -> (r: Result<
        &BuildStatusResponse,
        ApiError,
    >)
        ensures
            r is Ok <==> self.spec_builds().contains_key(build_id),
            r matches Ok(b) ==> *b == self.spec_builds()[build_id],
            r matches Err(e) ==> e.code@ == "NOT_FOUND"@ && e.message@ == "Build not found: "@
                + crate::text::dec_seq(build_id as nat),
    {
        match self.builds.get(&build_id) {
            Some(b) => Ok(b),
            None => {
                let e = ApiError::not_found("Build", u64_to_string(build_id).as_str());
                proof {
                    reveal_strlit("Build");
                    reveal_strlit(" not found: ");
                    reveal_strlit("Build not found: ");
                    assert("Build"@ + " not found: "@ =~= "Build not found: "@);
                    assert(e.message@ =~= "Build not found: "@ + crate::text::dec_seq(
                        build_id as nat,
                    ));
                }
                Err(e)
            },
        }
    }

    /// The artifacts stored for this build, if it succeeded.
    pub fn get_artifacts(&self, build_id: u64) -> (r: Option<&BuildArtifacts>)
        ensures
            match r {
                Some(a) => self.spec_artifacts().contains_key(build_id) && *a
                    == self.spec_artifacts()[build_id],
                None => !self.spec_artifacts().contains_key(build_id),
            },
    {
        self.artifacts.get(&build_id)
    }

    /// Creates the log channel for a build, keeping any channel already
    /// registered under the id.
    pub fn create_log_channel(&mut self, build_id: u64)
        requires
            old(self).wf(),
            old(self).spec_builds().contains_key(build_id),
        ensures
            final(self).wf(),
            final(self).spec_projects() == old(self).spec_projects(),
            final(self).spec_builds() == old(self).spec_builds(),
            final(self).spec_artifacts() == old(self).spec_artifacts(),
            final(self).spec_next_project_id() == old(self).spec_next_project_id(),
            final(self).spec_next_build_id() == old(self).spec_next_build_id(),
            old(self).spec_channels().contains_key(build_id) ==> final(self).spec_channels()
                == old(self).spec_channels(),
            !old(self).spec_channels().contains_key(build_id) ==> {
                &&& final(self).spec_channels().dom() == old(self).spec_channels().dom().insert(
                    build_id,
                )
                &&& forall|k: u64|
                    k != build_id && old(self).spec_channels().contains_key(k) ==> final(self).spec_channels()[k] == old(self).spec_channels()[k]
                &&& final(self).spec_channels()[build_id].wf()
                &&& final(self).spec_channels()[build_id].spec_total() == 0
                &&& !final(self).spec_channels()[build_id].spec_closed()
            },
    {
        let ghost pre = *self;
        if !self.channels.contains_key(&build_id) {
            self.channels.insert(build_id, LogChannel::create(LOG_CHANNEL_CAPACITY));
            proof {
                assert(self.channels@.dom() =~= pre.channels@.dom().insert(build_id));
                assert forall|k: u64| #[trigger] self.channels@.contains_key(k) implies (
                self.channels@[k]).wf() && self.builds@.contains_key(k) by {
                    if k != build_id {
                        assert(pre.channels@.contains_key(k));
                    }
                }
            }
        }
    }

    /// Accepts a build: checks the project, allocates a fresh build id,
    /// stores the queued record, and creates the build's log channel.
    /// Fails exactly when the project id is unknown.
    pub fn start_build(&mut self, request: &BuildRequest, now: i64) -> (r: Result<
        BuildResponse,
        ApiError,
    >)
        requires
            old(self).wf(),
            old(self).spec_can_allocate_build(),
        ensures
            final(self).wf(),
            r is Ok <==> old(self).spec_projects().contains_key(request.project_id),
            r matches Err(e) ==> {
                &&& e.code@ == "NOT_FOUND"@
                &&& e.message@ == "Project not found: "@ + crate::text::dec_seq(
                    request.project_id as nat,
                )
                &&& *final(self) == *old(self)
            },
            r matches Ok(resp) ==> {
                &&& resp.build_id == old(self).spec_next_build_id()
                &&& !old(self).spec_builds().contains_key(resp.build_id)
                &&& resp.status == BuildStatus::Queued
                &&& resp.started_at == now
                &&& final(self).spec_next_build_id() == old(self).spec_next_build_id() + 1
                &&& final(self).spec_builds().dom() == old(self).spec_builds().dom().insert(
                    resp.build_id,
                )
                &&& forall|k: u64|
                    k != resp.build_id && old(self).spec_builds().contains_key(k) ==> final(self).spec_builds()[k] == old(self).spec_builds()[k]
                &&& {
                    let rec = final(self).spec_builds()[resp.build_id];
                    &&& rec.wf()
                    &&& rec.build_id == resp.build_id
                    &&& rec.project_id == request.project_id
                    &&& rec.scheme@ == request.scheme@
                    &&& rec.status == BuildStatus::Queued
                    &&& rec.started_at == now
                    &&& rec.warnings@.len() == 0
                }
                &&& final(self).spec_channels().contains_key(resp.build_id)
                &&& final(self).spec_channels()[resp.build_id].wf()
                &&& final(self).spec_channels()[resp.build_id].spec_total() == 0
                &&& !final(self).spec_channels()[resp.build_id].spec_closed()
                &&& final(self).spec_projects() == old(self).spec_projects()
                &&& final(self).spec_artifacts() == old(self).spec_artifacts()
                &&& final(self).spec_next_project_id() == old(self).spec_next_project_id()
                &&& start_rel(*old(self), request.project_id, resp.build_id, *final(self))
            },
    {
        let ghost pre = *self;
        if !self.projects.contains_key(&request.project_id) {
            let e = ApiError::not_found("Project", u64_to_string(request.project_id).as_str());
            proof {
                reveal_strlit("Project");
                reveal_strlit(" not found: ");
                reveal_strlit("Project not found: ");
                assert("Project"@ + " not found: "@ =~= "Project not found: "@);
                assert(e.message@ =~= "Project not found: "@ + crate::text::dec_seq(
                    request.project_id as nat,
                ));
            }
            return Err(e);
        }
        let build_id = self.next_build_id;
        self.next_build_id = build_id + 1;
        let record = BuildStatusResponse::queued(
            build_id,
            request.project_id,
            clone_string(&request.scheme),
            now,
        );
        self.builds.insert(build_id, record);
        proof {
            assert(self.builds@.dom() =~= pre.builds@.dom().insert(build_id));
            assert forall|k: u64| #[trigger] self.artifacts@.contains_key(k) <==> (
            self.builds@.contains_key(k) && self.builds@[k].status == BuildStatus::Succeeded) by {
                assert(pre.artifacts@.contains_key(k) <==> (pre.builds@.contains_key(k)
                    && pre.builds@[k].status == BuildStatus::Succeeded));
            }
        }
        self.create_log_channel(build_id);
        Ok(BuildResponse { build_id, status: BuildStatus::Queued, started_at: now })
    }

    /// Replaces a build's record with its terminal record, storing the
    /// artifacts when the outcome is success. The one mutation a build
    /// record ever sees after creation.
    pub fn complete_build(&mut self, build_id: u64, outcome: BuildOutcome, now: i64)
        requires
            old(self).wf(),
            old(self).spec_builds().contains_key(build_id),
            !old(self).spec_builds()[build_id].status.spec_is_terminal(),
        ensures
            final(self).wf(),
            complete_rel(*old(self), build_id, outcome, now, *final(self)),
            final(self).spec_projects() == old(self).spec_projects(),
            final(self).spec_channels() == old(self).spec_channels(),
            final(self).spec_next_project_id() == old(self).spec_next_project_id(),
            final(self).spec_next_build_id() == old(self).spec_next_build_id(),
    {
        let ghost pre = *self;
        if let BuildOutcome::Success { app_path, bundle_id, warnings } = &outcome {
            let art = BuildArtifacts {
                app_path: clone_string(app_path),
                bundle_id: Some(clone_string(bundle_id)),
                warnings: clone_strings(warnings),
            };
            self.artifacts.insert(build_id, art);
        }
        let rec = self.builds.remove(&build_id).unwrap();
        let newrec = rec.complete_record(outcome, now);
        self.builds.insert(build_id, newrec);
        proof {
            assert(self.builds@.dom() =~= pre.builds@.dom());
            if outcome is Success {
                assert(self.artifacts@.dom() =~= pre.artifacts@.dom().insert(build_id));
            }
            assert forall|k: u64| #[trigger] self.builds@.contains_key(k) implies k
                < self.next_build_id && self.builds@[k].build_id == k && self.builds@[k].wf() by {
                assert(pre.builds@.contains_key(k));
            }
            assert forall|k: u64| #[trigger] self.artifacts@.contains_key(k) <==> (
            self.builds@.contains_key(k) && self.builds@[k].status == BuildStatus::Succeeded) by {
                assert(pre.artifacts@.contains_key(k) <==> (pre.builds@.contains_key(k)
                    && pre.builds@[k].status == BuildStatus::Succeeded));
            }
        }
    }

    /// Publishes one message on a build's log channel. Returns false,
    /// changing nothing, when the channel is missing, closed, or full to
    /// the counting limit; the writer never waits.
    pub fn publish_log(&mut self, build_id: u64, m: LogMessage) -> (ok: bool)
        requires
            old(self).wf(),
        ensures
            final(self).wf(),
            final(self).spec_projects() == old(self).spec_projects(),
            final(self).spec_builds() == old(self).spec_builds(),
            final(self).spec_artifacts() == old(self).spec_artifacts(),
            final(self).spec_next_project_id() == old(self).spec_next_project_id(),
            final(self).spec_next_build_id() == old(self).spec_next_build_id(),
            ok <==> (old(self).spec_channels().contains_key(build_id) && !old(self).spec_channels()[build_id].spec_closed() && old(self).spec_channels()[build_id].spec_total() < u64::MAX),
            ok ==> {
                &&& final(self).spec_channels().dom() == old(self).spec_channels().dom()
                &&& forall|k: u64|
                    k != build_id && old(self).spec_channels().contains_key(k) ==> final(self).spec_channels()[k] == old(self).spec_channels()[k]
                &&& final(self).spec_channels()[build_id].spec_history() == old(self).spec_channels()[build_id].spec_history().push(m)
                &&& !final(self).spec_channels()[build_id].spec_closed()
            },
            !ok ==> final(self).spec_channels() == old(self).spec_channels(),
    {
        let ghost pre = *self;
        match self.channels.remove(&build_id) {
            Some(mut ch) => {
                if !ch.is_closed() && ch.can_publish() {
                    ch.publish(m);
                    self.channels.insert(build_id, ch);
                    proof {
                        assert(self.channels@.dom() =~= pre.channels@.dom());
                    }
                    true
                } else {
                    self.channels.insert(build_id, ch);
                    proof {
                        assert(self.channels@ =~= pre.channels@);
                    }
                    false
                }
            },
            None => false,
        }
    }

    /// Marks a build's log channel closed: its readers observe
    /// end-of-stream once they catch up. A missing channel is left as is.
    pub fn close_log(&mut self, build_id: u64)
        requires
            old(self).wf(),
        ensures
            final(self).wf(),
            final(self).spec_projects() == old(self).spec_projects(),
            final(self).spec_builds() == old(self).spec_builds(),
            final(self).spec_artifacts() == old(self).spec_artifacts(),
            final(self).spec_next_project_id() == old(self).spec_next_project_id(),
            final(self).spec_next_build_id() == old(self).spec_next_build_id(),
            !old(self).spec_channels().contains_key(build_id) ==> final(self).spec_channels()
                == old(self).spec_channels(),
            old(self).spec_channels().contains_key(build_id) ==> {
                &&& final(self).spec_channels().dom() == old(self).spec_channels().dom()
                &&& forall|k: u64|
                    k != build_id && old(self).spec_channels().contains_key(k) ==> final(self).spec_channels()[k] == old(self).spec_channels()[k]
                &&& final(self).spec_channels()[build_id].spec_history() == old(self).spec_channels()[build_id].spec_history()
                &&& final(self).spec_channels()[build_id].spec_closed()
            },
    {
        let ghost pre = *self;
        match self.channels.remove(&build_id) {
            Some(mut ch) => {
                ch.close();
                self.channels.insert(build_id, ch);
                proof {
                    assert(self.channels@.dom() =~= pre.channels@.dom());
                }
            },
            None => {},
        }
    }

    /// A new reader's cursor on a build's log channel, or nothing when no
    /// channel is registered under the id.
    pub fn subscribe_logs(&self, build_id: u64) -> (r: Option<u64>)
        requires
            self.wf(),
        ensures
            match r {
                Some(c) => self.spec_channels().contains_key(build_id) && c
                    == self.spec_channels()[build_id].spec_total(),
                None => !self.spec_channels().contains_key(build_id),
            },
    {
        match self.channels.get(&build_id) {
            Some(ch) => Some(ch.subscribe()),
            None => None,
        }
    }

    /// Polls a reader's cursor on a build's log channel; nothing when no
    /// channel is registered under the id.
    pub fn recv_log(&self, build_id: u64, cursor: u64) -> (r: Option<RecvOutcome<'_>>)
        requires
            self.wf(),
        ensures
            r is Some <==> self.spec_channels().contains_key(build_id),
            r matches Some(o) ==> {
                let ch = self.spec_channels()[build_id];
                match o {
                    RecvOutcome::Message(m, next) => {
                        &&& ch.spec_oldest_retained() <= cursor < ch.spec_total()
                        &&& *m == ch.spec_history()[cursor as int]
                        &&& next == cursor + 1
                    },
                    RecvOutcome::Lagged(next) => cursor < ch.spec_oldest_retained() && next
                        == ch.spec_oldest_retained(),
                    RecvOutcome::Pending => cursor >= ch.spec_total() && !ch.spec_closed(),
                    RecvOutcome::Closed => cursor >= ch.spec_total() && ch.spec_closed(),
                }
            },
    {
        match self.channels.get(&build_id) {
            Some(ch) => Some(ch.recv(cursor)),
            None => None,
        }
    }
}

/// The one error payload sent to a log subscriber whose build id has no
/// registered channel, before the connection is closed.
pub fn logs_error_message(build_id: u64) -> (r: String)
    ensures
        r@ == "{\"error\": \"Build "@ + crate::text::dec_seq(build_id as nat)
            + " not found or already finished\"}"@,
{
    String::from_str("{\"error\": \"Build ").concat(u64_to_string(build_id).as_str()).concat(
        " not found or already finished\"}",
    )
}

/// What completing a build does to the store: the build's record is
/// replaced, in one visible write, by the terminal record its outcome
/// dictates; artifacts appear exactly on success; nothing else moves.
pub open spec fn complete_rel(
    pre: AppState,
    build_id: u64,
    outcome: BuildOutcome,
    now: i64,
    post: AppState,
) -> bool {
    &&& pre.spec_builds().contains_key(build_id)
    &&& !pre.spec_builds()[build_id].status.spec_is_terminal()
    &&& post.spec_builds().dom() == pre.spec_builds().dom()
    &&& forall|k: u64|
        k != build_id && pre.spec_builds().contains_key(k) ==> post.spec_builds()[k]
            == pre.spec_builds()[k]
    &&& {
        let was = pre.spec_builds()[build_id];
        let rec = post.spec_builds()[build_id];
        &&& rec.wf()
        &&& rec.build_id == was.build_id
        &&& rec.project_id == was.project_id
        &&& rec.scheme == was.scheme
        &&& rec.started_at == was.started_at
        &&& rec.status == spec_outcome_status(outcome)
        &&& rec.status.spec_is_terminal()
        &&& rec.finished_at == Some(now)
        &&& rec.duration_millis == Some(spec_duration(was.started_at as int, now as int) as i64)
        &&& (outcome matches BuildOutcome::Success { app_path, bundle_id, warnings } ==> {
            &&& rec.app_path == Some(app_path)
            &&& rec.bundle_id == Some(bundle_id)
            &&& rec.warnings == warnings
            &&& rec.error_message is None
        })
        &&& (outcome matches BuildOutcome::Failure { message } ==> rec.error_message == Some(
            message,
        ) && rec.warnings == was.warnings)
        &&& (outcome matches BuildOutcome::Cancelled { message } ==> rec.error_message == Some(
            message,
        ) && rec.warnings == was.warnings)
    }
    &&& (outcome matches BuildOutcome::Success { app_path, bundle_id, warnings } ==> {
        &&& post.spec_artifacts().dom() == pre.spec_artifacts().dom().insert(build_id)
        &&& forall|k: u64|
            k != build_id && pre.spec_artifacts().contains_key(k) ==> post.spec_artifacts()[k]
                == pre.spec_artifacts()[k]
        &&& post.spec_artifacts()[build_id].app_path@ == app_path@
        &&& post.spec_artifacts()[build_id].bundle_id matches Some(b) && b@ == bundle_id@
        &&& post.spec_artifacts()[build_id].warnings@.len() == warnings@.len()
    })
    &&& (!(outcome is Success) ==> post.spec_artifacts() == pre.spec_artifacts())
}

/// What accepting a build does to the id space: the new record takes
/// the next id, which named no record before, and the counter moves past
/// it.
pub open spec fn start_rel(pre: AppState, project_id: u64, build_id: u64, post: AppState) -> bool {
    &&& pre.spec_projects().contains_key(project_id)
    &&& build_id == pre.spec_next_build_id()
    &&& !pre.spec_builds().contains_key(build_id)
    &&& post.spec_next_build_id() == pre.spec_next_build_id() + 1
    &&& post.spec_builds().dom() == pre.spec_builds().dom().insert(build_id)
}

/// A build id is never reused: builds accepted one after another get
/// distinct ids, and a fresh id never names a record that already
/// exists.
pub proof fn lemma_build_ids_never_reused(
    s0: AppState,
    p1: u64,
    b1: u64,
    s1: AppState,
    p2: u64,
    b2: u64,
    s2: AppState,
)
    requires
        start_rel(s0, p1, b1, s1),
        start_rel(s1, p2, b2, s2),
    ensures
        b2 != b1,
        s1.spec_builds().contains_key(b1),
{
    assert(s1.spec_builds().dom().contains(b1));
}

/// A stored log channel is well-formed, belongs to a registered build,
/// and keeps its retained window within its stream — so a fresh
/// subscriber is never behind the window, and once the writer closed
/// the channel a caught-up reader observes end-of-stream, not a lag.
pub proof fn lemma_stored_channel_wf(s: AppState, build_id: u64)
    requires
        s.wf(),
        s.spec_channels().contains_key(build_id),
    ensures
        s.spec_channels()[build_id].wf(),
        s.spec_builds().contains_key(build_id),
        0 <= s.spec_channels()[build_id].spec_oldest_retained()
            <= s.spec_channels()[build_id].spec_total(),
{
    crate::fanout::lemma_oldest_retained_bounded(s.spec_channels()[build_id]);
}

/// A stored build record is well-formed and keyed by its own id.
pub proof fn lemma_stored_record_keyed(s: AppState, build_id: u64)
    requires
        s.wf(),
        s.spec_builds().contains_key(build_id),
    ensures
        s.spec_builds()[build_id].wf(),
        s.spec_builds()[build_id].build_id == build_id,
{
}

/// Every build that completes reaches a terminal, finished record — and
/// can never be completed a second time: exactly one terminal transition.
pub proof fn lemma_one_terminal_transition(
    pre: AppState,
    build_id: u64,
    outcome: BuildOutcome,
    now: i64,
    post: AppState,
)
    requires
        complete_rel(pre, build_id, outcome, now, post),
    ensures
        post.spec_builds()[build_id].status.spec_is_terminal(),
        post.spec_builds()[build_id].finished_at is Some,
        forall|o2: BuildOutcome, n2: i64, q: AppState|
            !(#[trigger] complete_rel(post, build_id, o2, n2, q)),
{
}

/// A status poll never sees a half-updated record: a stored record is
/// finished exactly when its status is terminal, and carries a duration
/// exactly then.
pub proof fn lemma_finished_iff_terminal(s: AppState, build_id: u64)
    requires
        s.wf(),
        s.spec_builds().contains_key(build_id),
    ensures
        s.spec_builds()[build_id].finished_at is Some
            <==> s.spec_builds()[build_id].status.spec_is_terminal(),
        s.spec_builds()[build_id].duration_millis is Some
            <==> s.spec_builds()[build_id].status.spec_is_terminal(),
{
}

/// An artifact is stored for a build exactly when that build succeeded.
pub proof fn lemma_artifact_iff_succeeded(s: AppState, build_id: u64)
    requires
        s.wf(),
    ensures
        s.spec_artifacts().contains_key(build_id) <==> (s.spec_builds().contains_key(build_id)
            && s.spec_builds()[build_id].status == BuildStatus::Succeeded),
{
}

/// What a run request needs before the tool is invoked: the artifact's
/// app path and bundle id, and whether the device must be booted first.
#[derive(Debug)]
pub struct RunPlan {
    pub app_path: String,
    pub bundle_id: String,
    pub needs_boot: bool,
}

impl AppState {
    /// Decides a run request against the store and the current device
    /// snapshot: the build must have stored artifacts with a bundle id,
    /// and the device must appear in the snapshot; the device is booted
    /// first exactly when the snapshot does not show it booted.
    pub fn plan_run_app(
        &self,
        request: &crate::api::RunAppRequest,
        devices: &Vec<crate::api::SimulatorDevice>,
    ) -> (r: Result<RunPlan, ApiError>)
        requires
            self.wf(),
        ensures
            r is Ok ==> {
                &&& self.spec_artifacts().contains_key(request.build_id)
                &&& self.spec_artifacts()[request.build_id].bundle_id is Some
                &&& exists|i: int|
                    0 <= i < devices@.len() && (#[trigger] devices@[i]).udid@
                        == request.device_udid@
            },
            r matches Ok(plan) ==> {
                &&& plan.app_path@ == self.spec_artifacts()[request.build_id].app_path@
                &&& plan.bundle_id@ == self.spec_artifacts()[request.build_id].bundle_id->0@
                &&& exists|i: int|
                    {
                        &&& 0 <= i < devices@.len()
                        &&& (#[trigger] devices@[i]).udid@ == request.device_udid@
                        &&& (forall|j: int|
                            0 <= j < i ==> (#[trigger] devices@[j]).udid@ != request.device_udid@)
                        &&& plan.needs_boot == (devices@[i].state
                            != crate::api::SimulatorState::Booted)
                    }
            },
            !self.spec_artifacts().contains_key(request.build_id) ==> (r matches Err(e) && e.code@
                == "NOT_FOUND"@),
            (self.spec_artifacts().contains_key(request.build_id)
                && self.spec_artifacts()[request.build_id].bundle_id is None) ==> (r matches Err(
            e) && e.code@ == "BAD_REQUEST"@ && e.message@ == "Build has no bundle ID"@),
            (self.spec_artifacts().contains_key(request.build_id)
                && self.spec_artifacts()[request.build_id].bundle_id is Some && (forall|i: int|
                0 <= i < devices@.len() ==> (#[trigger] devices@[i]).udid@
                    != request.device_udid@)) ==> (r matches Err(e) && e.code@ == "NOT_FOUND"@),
            (self.spec_artifacts().contains_key(request.build_id)
                && self.spec_artifacts()[request.build_id].bundle_id is Some && (exists|i: int|
                0 <= i < devices@.len() && (#[trigger] devices@[i]).udid@
                    == request.device_udid@)) ==> r is Ok,
    {
        let artifacts = match self.get_artifacts(request.build_id) {
            Some(a) => a,
            None => {
                return Err(
                    ApiError::not_found("Build", u64_to_string(request.build_id).as_str()),
                );
            },
        };
        let bundle_id = match &artifacts.bundle_id {
            Some(b) => clone_string(b),
            None => {
                return Err(ApiError::bad_request(bundle_missing_message()));
            },
        };
        let n = devices.len();
        let mut i: usize = 0;
        while i < n
            invariant
                0 <= i <= n,
                n == devices@.len(),
                forall|j: int|
                    0 <= j < i ==> (#[trigger] devices@[j]).udid@ != request.device_udid@,
                self.wf(),
                self.spec_artifacts().contains_key(request.build_id),
                self.spec_artifacts()[request.build_id].bundle_id is Some,
                artifacts == self.spec_artifacts()[request.build_id],
                bundle_id@ == self.spec_artifacts()[request.build_id].bundle_id->0@,
            decreases n - i,
        {
            if devices[i].udid == request.device_udid {
                let needs_boot = match devices[i].state {
                    crate::api::SimulatorState::Booted => false,
                    _ => true,
                };
                return Ok(
                    RunPlan { app_path: clone_string(&artifacts.app_path), bundle_id, needs_boot },
                );
            }
            i = i + 1;
        }
        Err(ApiError::not_found("Simulator", request.device_udid.as_str()))
    }
}

/// The message refusing a run of a build whose artifacts carry no
/// bundle identifier.
fn bundle_missing_message() -> (r: String)
    ensures
        r@ == "Build has no bundle ID"@,
{
    String::from_str("Build has no bundle ID")
}


/// What one sync does to the store: a cached checksum answers with the
/// project it already has and extracts nothing; a new checksum registers
/// a fresh project under the next id.
pub open spec fn sync_rel(
    pre: AppState,
    project_name: Seq<char>,
    checksum: Seq<char>,
    path: Seq<char>,
    synced_at: i64,
    files_extracted: u32,
    post: AppState,
    r: SyncProjectResponse,
) -> bool {
    if pre.spec_has_checksum(checksum) {
        &&& r.was_cached == true
        &&& r.files_extracted == 0
        &&& pre.spec_projects().contains_key(r.project_id)
        &&& pre.spec_projects()[r.project_id].checksum@ == checksum
        &&& r.path@ == pre.spec_projects()[r.project_id].path@
        &&& post.spec_projects() == pre.spec_projects()
        &&& post.spec_next_project_id() == pre.spec_next_project_id()
    } else {
        &&& r.was_cached == false
        &&& r.files_extracted == files_extracted
        &&& r.project_id == pre.spec_next_project_id()
        &&& !pre.spec_projects().contains_key(r.project_id)
        &&& r.path@ == path
        &&& post.spec_projects().dom() == pre.spec_projects().dom().insert(r.project_id)
        &&& forall|k: u64|
            k != r.project_id && pre.spec_projects().contains_key(k) ==> post.spec_projects()[k]
                == pre.spec_projects()[k]
        &&& post.spec_projects()[r.project_id].project_id == r.project_id
        &&& post.spec_projects()[r.project_id].project_name@ == project_name
        &&& post.spec_projects()[r.project_id].checksum@ == checksum
        &&& post.spec_projects()[r.project_id].path@ == path
        &&& post.spec_projects()[r.project_id].synced_at == synced_at
        &&& post.spec_next_project_id() == pre.spec_next_project_id() + 1
    }
}

/// Uploading two archives with distinct checksums creates two distinct
/// project ids; uploading the same checksum again returns the id it got
/// the first time, marked cached, with no files extracted.
pub proof fn lemma_sync_project_laws(
    s0: AppState,
    n1: Seq<char>,
    ck1: Seq<char>,
    p1: Seq<char>,
    t1: i64,
    f1: u32,
    s1: AppState,
    r1: SyncProjectResponse,
    n2: Seq<char>,
    ck2: Seq<char>,
    p2: Seq<char>,
    t2: i64,
    f2: u32,
    s2: AppState,
    r2: SyncProjectResponse,
)
    requires
        s0.wf(),
        s1.wf(),
        sync_rel(s0, n1, ck1, p1, t1, f1, s1, r1),
        sync_rel(s1, n2, ck2, p2, t2, f2, s2, r2),
    ensures
        ck1 != ck2 ==> r1.project_id != r2.project_id,
        ck1 == ck2 ==> r2.was_cached && r2.project_id == r1.project_id && r2.files_extracted == 0,
{
    // After the first sync, some project carries ck1 under r1's id.
    assert(s1.spec_projects().contains_key(r1.project_id));
    assert(s1.spec_projects()[r1.project_id].checksum@ == ck1);
    if ck1 == ck2 {
        assert(s1.spec_has_checksum(ck2));
        // By checksum uniqueness the cached id is r1's id.
        assert(r2.project_id == r1.project_id);
    } else {
        if s1.spec_has_checksum(ck2) {
            // r2's project carries ck2, r1's carries ck1: different keys.
            assert(s1.spec_projects()[r2.project_id].checksum@ == ck2);
        } else {
            // A fresh id is above every registered id, r1's included.
            assert(r2.project_id == s1.spec_next_project_id());
        }
    }
}

} // verus!
