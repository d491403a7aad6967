//! One open merge request: its two tracks, the state they add up to, and the
//! steps of testing and landing it. Network and repository work is left to
//! the caller; each step here says what to write to the service.

use vstd::prelude::*;
use crate::build_state::{
    approval_kind_info, decode_approval, decode_test, opt_approval_view,
    opt_test_view, test_kind_info, written_record, Approval, ApprovalInfo,
    approval_json, ApprovalInfoView, ApprovalKind, ApprovalKindView, Error, State as Track, Test, TestInfo,
    TestInfoView, TestKind, TestKindView, TrackView, test_json,
};
use crate::text::{push_decimal, push_str, string_of};
use crate::command::{fold_directives, note_views, reviewer_approval, reviewer_notes, CommitNote, CommitNoteView, Member};
use crate::status::{
    sync_plan, spec_sync_plan, Build, CommitStatus, CommitStatusInfo,
    CommitStatusView, StatusInfoView, StatusState, SyncPlan,
};

verus! {

/// Whether the service finds that the source merges cleanly into the target.
#[derive(Clone, Copy, Debug, PartialEq, Eq, Structural)]
pub enum MergeStatus {
    Unchecked,
    CanBeMerged,
    CannotBeMerged,
}

/// The fields of an open merge request that the agent reads.
#[derive(Debug)]
pub struct MergeRequestInfo {
    /// The number shown as `!<id>`.
    pub id: u64,
    pub source_project_id: u64,
    pub source_branch: String,
    pub target_project_id: u64,
    pub target_branch: String,
    /// The source commit.
    pub sha: String,
    pub title: String,
    pub description: Option<String>,
    pub merge_status: MergeStatus,
}

pub struct MergeRequestInfoView {
    pub id: u64,
    pub source_project_id: u64,
    pub source_branch: Seq<char>,
    pub target_project_id: u64,
    pub target_branch: Seq<char>,
    pub sha: Seq<char>,
    pub title: Seq<char>,
    pub description: Option<Seq<char>>,
    pub merge_status: MergeStatus,
}

impl View for MergeRequestInfo {
    type V = MergeRequestInfoView;

    open spec fn view(&self) -> MergeRequestInfoView {
        MergeRequestInfoView {
            id: self.id,
            source_project_id: self.source_project_id,
            source_branch: self.source_branch@,
            target_project_id: self.target_project_id,
            target_branch: self.target_branch@,
            sha: self.sha@,
            title: self.title@,
            description: crate::status::opt_view(self.description),
            merge_status: self.merge_status,
        }
    }
}

/// The state a merge request is in, from its tracks.
#[derive(Debug, PartialEq, Eq)]
pub enum State {
    Init,
    Approved(ApprovalInfo),
    Running(ApprovalInfo),
    Success(ApprovalInfo),
    Merged(ApprovalInfo),
    Failed(Option<ApprovalInfo>),
    Errored,
}

pub enum StateView {
    Init,
    Approved(ApprovalInfoView),
    Running(ApprovalInfoView),
    Success(ApprovalInfoView),
    Merged(ApprovalInfoView),
    Failed(Option<ApprovalInfoView>),
    Errored,
}

impl View for State {
    type V = StateView;

    open spec fn view(&self) -> StateView {
        match self {
            State::Init => StateView::Init,
            State::Approved(a) => StateView::Approved(a@),
            State::Running(a) => StateView::Running(a@),
            State::Success(a) => StateView::Success(a@),
            State::Merged(a) => StateView::Merged(a@),
            State::Failed(a) => StateView::Failed(opt_approval_view(*a)),
            State::Errored => StateView::Errored,
        }
    }
}

impl State {
    /// The state's name, as shown in logs.
    pub fn as_str(&self) -> (r: &'static str)
        ensures
            r@ == match self@ {
                StateView::Init => "init"@,
                StateView::Approved(_) => "approved"@,
                StateView::Running(_) => "running"@,
                StateView::Success(_) => "success"@,
                StateView::Merged(_) => "merged"@,
                StateView::Failed(_) => "failed"@,
                StateView::Errored => "errored"@,
            },
    {
        match self {
            State::Init => "init",
            State::Approved(_) => "approved",
            State::Running(_) => "running",
            State::Success(_) => "success",
            State::Merged(_) => "merged",
            State::Failed(_) => "failed",
            State::Errored => "errored",
        }
    }
}

fn same_info(a: &ApprovalInfo, b: &ApprovalInfo) -> (r: bool)
    ensures
        r == (a@ == b@),
{
    a.priority == b.priority && a.time == b.time && a.username == b.username
}

/// Whether two states are the same, approvals included.
fn same_state(a: &State, b: &State) -> (r: bool)
    ensures
        r == (a@ == b@),
{
    match (a, b) {
        (State::Init, State::Init) => true,
        (State::Errored, State::Errored) => true,
        (State::Approved(x), State::Approved(y)) => same_info(x, y),
        (State::Running(x), State::Running(y)) => same_info(x, y),
        (State::Success(x), State::Success(y)) => same_info(x, y),
        (State::Merged(x), State::Merged(y)) => same_info(x, y),
        (State::Failed(None), State::Failed(None)) => true,
        (State::Failed(Some(x)), State::Failed(Some(y))) => same_info(x, y),
        _ => false,
    }
}

/// The state that the mergeability flag, the two kinds and the merged flag
/// add up to.
pub open spec fn spec_next_state(can_merge: bool, a: ApprovalKindView, t: TestKindView, merged: bool) -> StateView {
    if !can_merge {
        StateView::Failed(approval_kind_info(a))
    } else {
        match approval_kind_info(a) {
            None => StateView::Init,
            Some(i) => match t {
                TestKindView::Pending => StateView::Approved(i),
                TestKindView::Running { .. } => StateView::Running(i),
                TestKindView::Success { .. } => if merged {
                    StateView::Merged(i)
                } else {
                    StateView::Success(i)
                },
                _ => StateView::Failed(Some(i)),
            },
        }
    }
}

pub open spec fn can_be_merged(s: MergeStatus) -> bool {
    s != MergeStatus::CannotBeMerged
}

/// A write of one commit-status record.
#[derive(Debug)]
pub struct StatusWrite {
    pub project_id: u64,
    pub sha: String,
    pub state: StatusState,
    pub info: CommitStatusInfo,
}

pub struct StatusWriteView {
    pub project_id: u64,
    pub sha: Seq<char>,
    pub state: StatusState,
    pub info: StatusInfoView,
}

impl View for StatusWrite {
    type V = StatusWriteView;

    open spec fn view(&self) -> StatusWriteView {
        StatusWriteView { project_id: self.project_id, sha: self.sha@, state: self.state, info: self.info@ }
    }
}

pub open spec fn write_views(ws: Seq<StatusWrite>) -> Seq<StatusWriteView> {
    ws.map_values(|w: StatusWrite| w@)
}

/// The writes that bring a track's record in step: nothing when it already
/// matches; else the new record, after a `Canceled` one where required.
pub open spec fn track_writes(
    project_id: u64,
    sha: Seq<char>,
    state: StatusState,
    info: StatusInfoView,
    existing: Option<CommitStatusView>,
) -> Seq<StatusWriteView> {
    match spec_sync_plan(existing, state, info) {
        SyncPlan::Keep => seq![],
        SyncPlan::Write { cancel_first } => {
            let last = StatusWriteView { project_id, sha, state, info };
            if cancel_first {
                seq![StatusWriteView { state: StatusState::Canceled, ..last }, last]
            } else {
                seq![last]
            }
        },
    }
}

/// The record kept for a track once its writes are done.
pub open spec fn record_after(
    state: StatusState,
    info: StatusInfoView,
    sha: Seq<char>,
    existing: Option<CommitStatusView>,
) -> Option<CommitStatusView> {
    match spec_sync_plan(existing, state, info) {
        SyncPlan::Keep => existing,
        SyncPlan::Write { .. } => Some(
            written_record(state, info, sha, match existing {
                Some(r) => r.id,
                None => 0,
            }),
        ),
    }
}

pub open spec fn opt_record_view(o: Option<CommitStatus>) -> Option<CommitStatusView> {
    match o {
        Some(r) => Some(r@),
        None => None,
    }
}

/// Brings the record of one track in step, appending the writes that takes.
pub fn sync_track<T: Track>(track: &T, record: &mut Option<CommitStatus>, writes: &mut Vec<StatusWrite>)
    requires
        track.spec_status_info().name is Some,
    ensures
        write_views(final(writes)@) == write_views(old(writes)@) + track_writes(
            track.spec_project_id(),
            track.spec_sha(),
            track.spec_status_state(),
            track.spec_status_info(),
            opt_record_view(*old(record)),
        ),
        opt_record_view(*final(record)) == record_after(
            track.spec_status_state(),
            track.spec_status_info(),
            track.spec_sha(),
            opt_record_view(*old(record)),
        ),
{
    let state = track.to_status_state();
    let info = track.to_commit_status_info();
    let plan = match record {
        Some(r) => sync_plan(Some(&*r), state, &info),
        None => sync_plan(None, state, &info),
    };
    let ghost w0 = write_views(writes@);
    match plan {
        SyncPlan::Keep => {
            assert(write_views(writes@) =~= w0 + seq![]);
        },
        SyncPlan::Write { cancel_first } => {
            if cancel_first {
                let cancel = StatusWrite {
                    project_id: track.project_id(),
                    sha: track.sha().clone(),
                    state: StatusState::Canceled,
                    info: track.to_commit_status_info(),
                };
                writes.push(cancel);
            }
            let id: u64 = match record {
                Some(r) => r.id,
                None => 0,
            };
            let name = match &info.name {
                Some(n) => n.clone(),
                None => String::new(),
            };
            let rec = CommitStatus {
                id,
                sha: track.sha().clone(),
                ref_: crate::status::opt_str_clone(&info.refname),
                status: state,
                name,
                description: crate::status::opt_str_clone(&info.description),
                target_url: crate::status::opt_str_clone(&info.target_url),
            };
            let ghost w1 = write_views(writes@);
            writes.push(StatusWrite { project_id: track.project_id(), sha: track.sha().clone(), state, info });
            assert(write_views(writes@) =~= w1.push(writes@.last()@));
            if cancel_first {
                assert(write_views(writes@) =~= w0 + track_writes(
                    track.spec_project_id(),
                    track.spec_sha(),
                    track.spec_status_state(),
                    track.spec_status_info(),
                    opt_record_view(*old(record)),
                ));
            } else {
                assert(write_views(writes@) =~= w0 + track_writes(
                    track.spec_project_id(),
                    track.spec_sha(),
                    track.spec_status_state(),
                    track.spec_status_info(),
                    opt_record_view(*old(record)),
                ));
            }
            *record = Some(rec);
        },
    }
}

/// The track read from the pipeline's record, or a fresh one when there is
/// no record or it does not decode.
pub open spec fn loaded_approval(
    project_id: u64,
    refname: Seq<char>,
    sha: Seq<char>,
    record: Option<CommitStatusView>,
    parsed: Option<ApprovalInfoView>,
) -> TrackView<ApprovalKindView> {
    match record {
        Some(r) => match decode_approval(project_id, r, parsed) {
            Ok(t) => t,
            Err(_) => TrackView { project_id, refname, sha, kind: ApprovalKindView::NotApproved },
        },
        None => TrackView { project_id, refname, sha, kind: ApprovalKindView::NotApproved },
    }
}

/// The track read from the pipeline's record, or a fresh one when there is
/// no record or it does not decode.
pub open spec fn loaded_test(
    project_id: u64,
    refname: Seq<char>,
    sha: Seq<char>,
    record: Option<CommitStatusView>,
    parsed: Option<TestInfoView>,
) -> TrackView<TestKindView> {
    match record {
        Some(r) => match decode_test(project_id, r, parsed) {
            Ok(t) => t,
            Err(_) => TrackView { project_id, refname, sha, kind: TestKindView::Pending },
        },
        None => TrackView { project_id, refname, sha, kind: TestKindView::Pending },
    }
}

/// The approval track of `mr`, read from `record` where it decodes.
pub fn create_approval_state(mr: &MergeRequestInfo, record: &Option<CommitStatus>, parsed: Option<ApprovalInfo>) -> (r: Approval)
    ensures
        r@ == loaded_approval(mr.source_project_id, mr.source_branch@, mr.sha@, opt_record_view(*record), opt_approval_view(parsed)),
{
    let loaded = match record {
        Some(rec) => match Approval::from_commit_status(mr.source_project_id, rec, parsed) {
            Ok(t) => Some(t),
            Err(_) => None,
        },
        None => None,
    };
    match loaded {
        Some(t) => t,
        None => Approval::init_state(mr.source_project_id, mr.source_branch.clone(), mr.sha.clone()),
    }
}

/// The test track of `mr`, read from `record` where it decodes.
pub fn create_test_state(mr: &MergeRequestInfo, record: &Option<CommitStatus>, parsed: Option<TestInfo>) -> (r: Test)
    ensures
        r@ == loaded_test(mr.source_project_id, mr.source_branch@, mr.sha@, opt_record_view(*record), opt_test_view(parsed)),
{
    let loaded = match record {
        Some(rec) => match Test::from_commit_status(mr.source_project_id, rec, parsed) {
            Ok(t) => Some(t),
            Err(_) => None,
        },
        None => None,
    };
    match loaded {
        Some(t) => t,
        None => Test::init_state(mr.source_project_id, mr.source_branch.clone(), mr.sha.clone()),
    }
}

/// The records of the source commit's last pipeline for the two tracks,
/// with what their descriptions decode to.
#[derive(Debug)]
pub struct PipelineState {
    pub approval: Option<CommitStatus>,
    pub approval_parsed: Option<ApprovalInfo>,
    pub test: Option<CommitStatus>,
    pub test_parsed: Option<TestInfo>,
}

/// An open merge request and the agent's view of it.
#[derive(Debug)]
pub struct MergeRequest {
    pub merge_request: MergeRequestInfo,
    pub state: State,
    pub approval_state: Approval,
    pub test_state: Test,
    pub merged: bool,
    /// The record last known for the approval track.
    pub approval_status: Option<CommitStatus>,
    /// The record last known for the test track.
    pub test_status: Option<CommitStatus>,
}

impl MergeRequest {
    /// The state its fields add up to.
    pub open spec fn derived_state(&self) -> StateView {
        spec_next_state(
            can_be_merged(self.merge_request.merge_status),
            self.approval_state@.kind,
            self.test_state@.kind,
            self.merged,
        )
    }

    /// The state field agrees with the tracks.
    pub open spec fn settled(&self) -> bool {
        self.state@ == self.derived_state()
    }

    /// Whether the state field agrees with the tracks.
    pub fn is_settled(&self) -> (r: bool)
        ensures
            r == self.settled(),
    {
        let next = self.next_state();
        let r = same_state(&self.state, &next);
        r
    }

    /// Builds the request from the source commit's last pipeline, or marks it
    /// errored when the pipeline could not be read (`None`).
    pub fn from_gitlab_mr(mr: MergeRequestInfo, pipeline: Option<PipelineState>) -> (r: Self)
        ensures
            r.merge_request@ == mr@,
            !r.merged,
            match pipeline {
                Some(p) => {
                    &&& r.approval_state@ == loaded_approval(mr.source_project_id, mr.source_branch@, mr.sha@,
                        opt_record_view(p.approval), opt_approval_view(p.approval_parsed))
                    &&& r.test_state@ == loaded_test(mr.source_project_id, mr.source_branch@, mr.sha@,
                        opt_record_view(p.test), opt_test_view(p.test_parsed))
                    &&& opt_record_view(r.approval_status) == opt_record_view(p.approval)
                    &&& opt_record_view(r.test_status) == opt_record_view(p.test)
                    &&& r.settled()
                },
                None => {
                    &&& r.approval_state@ == loaded_approval(mr.source_project_id, mr.source_branch@, mr.sha@, None, None)
                    &&& r.test_state@ == loaded_test(mr.source_project_id, mr.source_branch@, mr.sha@, None, None)
                    &&& r.approval_status is None
                    &&& r.test_status is None
                    &&& r.state@ == StateView::Errored
                },
            },
    {
        let failed = pipeline.is_none();
        let p = match pipeline {
            Some(p) => p,
            None => PipelineState { approval: None, approval_parsed: None, test: None, test_parsed: None },
        };
        let approval_state = create_approval_state(&mr, &p.approval, p.approval_parsed);
        let test_state = create_test_state(&mr, &p.test, p.test_parsed);
        let mut obj = MergeRequest {
            merge_request: mr,
            state: State::Init,
            approval_state,
            test_state,
            merged: false,
            approval_status: p.approval,
            test_status: p.test,
        };
        if failed {
            obj.state = State::Errored;
        } else {
            obj.state = obj.next_state();
        }
        obj
    }

    pub fn state(&self) -> (r: &State)
        ensures
            r@ == self.state@,
    {
        &self.state
    }

    pub fn merge_request(&self) -> (r: &MergeRequestInfo)
        ensures
            r@ == self.merge_request@,
    {
        &self.merge_request
    }

    /// The state that the tracks, the mergeability flag and the merged flag
    /// add up to.
    pub fn next_state(&self) -> (r: State)
        ensures
            r@ == self.derived_state(),
    {
        let can_be_merged = match self.merge_request.merge_status {
            MergeStatus::Unchecked | MergeStatus::CanBeMerged => true,
            MergeStatus::CannotBeMerged => false,
        };
        let approval = self.approval_state.kind().info();
        if !can_be_merged {
            return State::Failed(
                match approval {
                    Some(a) => Some(a.duplicate()),
                    None => None,
                },
            );
        }
        match approval {
            Some(a) => match self.test_state.kind() {
                TestKind::Pending => State::Approved(a.duplicate()),
                TestKind::Running { .. } => State::Running(a.duplicate()),
                TestKind::Success { .. } => if self.merged {
                    State::Merged(a.duplicate())
                } else {
                    State::Success(a.duplicate())
                },
                TestKind::Failed(_) | TestKind::Canceled { .. } => State::Failed(Some(a.duplicate())),
            },
            None => State::Init,
        }
    }

    /// Sets the state from the tracks.
    pub fn trans_state(&mut self)
        ensures
            final(self).settled(),
            final(self).merge_request@ == old(self).merge_request@,
            final(self).approval_state@ == old(self).approval_state@,
            final(self).test_state@ == old(self).test_state@,
            final(self).merged == old(self).merged,
            opt_record_view(final(self).approval_status) == opt_record_view(old(self).approval_status),
            opt_record_view(final(self).test_status) == opt_record_view(old(self).test_status),
    {
        self.state = self.next_state();
    }

    /// Marks the request errored for this tick.
    pub fn mark_errored(&mut self)
        ensures
            final(self).state@ == StateView::Errored,
            final(self).merge_request@ == old(self).merge_request@,
            final(self).approval_state@ == old(self).approval_state@,
            final(self).test_state@ == old(self).test_state@,
            final(self).merged == old(self).merged,
            opt_record_view(final(self).approval_status) == opt_record_view(old(self).approval_status),
            opt_record_view(final(self).test_status) == opt_record_view(old(self).test_status),
    {
        self.state = State::Errored;
    }

    /// The writes that bring both records in step with the tracks, against
    /// the records `ar` (approval) and `tr` (test).
    pub open spec fn writes_against(&self, ar: Option<CommitStatus>, tr: Option<CommitStatus>) -> Seq<StatusWriteView> {
        track_writes(
            self.approval_state.spec_project_id(),
            self.approval_state.spec_sha(),
            self.approval_state.spec_status_state(),
            self.approval_state.spec_status_info(),
            opt_record_view(ar),
        ) + track_writes(
            self.test_state.spec_project_id(),
            self.test_state.spec_sha(),
            self.test_state.spec_status_state(),
            self.test_state.spec_status_info(),
            opt_record_view(tr),
        )
    }

    /// The records are those kept once the tracks were synced against `ar`
    /// and `tr`.
    pub open spec fn synced_from(&self, ar: Option<CommitStatus>, tr: Option<CommitStatus>) -> bool {
        &&& opt_record_view(self.approval_status) == record_after(
            self.approval_state.spec_status_state(),
            self.approval_state.spec_status_info(),
            self.approval_state.spec_sha(),
            opt_record_view(ar),
        )
        &&& opt_record_view(self.test_status) == record_after(
            self.test_state.spec_status_state(),
            self.test_state.spec_status_info(),
            self.test_state.spec_sha(),
            opt_record_view(tr),
        )
    }

    /// Brings both records in step with the tracks; returns the writes to
    /// make, in order.
    pub fn sync_commit_status(&mut self) -> (r: Vec<StatusWrite>)
        ensures
            write_views(r@) == final(self).writes_against(old(self).approval_status, old(self).test_status),
            final(self).synced_from(old(self).approval_status, old(self).test_status),
            final(self).state@ == old(self).state@,
            final(self).merge_request@ == old(self).merge_request@,
            final(self).approval_state@ == old(self).approval_state@,
            final(self).test_state@ == old(self).test_state@,
            final(self).merged == old(self).merged,
    {
        let mut writes: Vec<StatusWrite> = Vec::new();
        assert(write_views(writes@) =~= seq![]);
        sync_track(&self.approval_state, &mut self.approval_status, &mut writes);
        sync_track(&self.test_state, &mut self.test_status, &mut writes);
        writes
    }

    /// Takes the approval that the comments add up to.
    pub fn update_approval_status(&mut self, next_kind: ApprovalKind)
        ensures
            final(self).approval_state@ == (TrackView { kind: next_kind@, ..old(self).approval_state@ }),
            final(self).settled(),
            final(self).merge_request@ == old(self).merge_request@,
            final(self).test_state@ == old(self).test_state@,
            final(self).merged == old(self).merged,
            opt_record_view(final(self).approval_status) == opt_record_view(old(self).approval_status),
            opt_record_view(final(self).test_status) == opt_record_view(old(self).test_status),
    {
        self.approval_state.update_kind(next_kind);
        self.trans_state();
    }

    /// Takes in the approval the comments add up to and the verdict of the
    /// trial commit's builds, then brings both records in step. When the
    /// approval cannot be written out, the request is errored instead.
    pub fn refresh(&mut self, comments: Vec<CommitNote>, members: &Vec<Member>, me: &str, builds: &Vec<Build>) -> (r: Result<Vec<StatusWrite>, Error>)
        ensures
            match comments_approval(note_views(comments@), members@, me@) {
                None => {
                    &&& r is Err
                    &&& final(self).state@ == StateView::Errored
                    &&& final(self).approval_state@ == old(self).approval_state@
                    &&& final(self).test_state@ == old(self).test_state@
                    &&& opt_record_view(final(self).approval_status) == opt_record_view(old(self).approval_status)
                    &&& opt_record_view(final(self).test_status) == opt_record_view(old(self).test_status)
                },
                Some(k) => {
                    &&& r matches Ok(w) && final(self).after_sync(w@, old(self).approval_status, old(self).test_status)
                    &&& final(self).approval_state@ == (TrackView { kind: k, ..old(self).approval_state@ })
                    &&& final(self).test_state@ == (TrackView {
                        kind: tested_kind(old(self).test_state@.kind, old(self).merge_request@, builds@),
                        ..old(self).test_state@
                    })
                },
            },
            final(self).merge_request@ == old(self).merge_request@,
            final(self).merged == old(self).merged,
    {
        match reviewer_approval(comments, members, me) {
            Err(e) => {
                self.mark_errored();
                Err(e)
            },
            Ok(kind) => {
                self.update_approval_status(kind);
                self.update_test_status(builds);
                Ok(self.sync_commit_status())
            },
        }
    }

    /// Takes the verdict of the trial commit's builds, or goes back to
    /// `Pending` when the request no longer points where the trial did.
    pub fn update_test_status(&mut self, builds: &Vec<Build>)
        ensures
            final(self).test_state@ == (TrackView {
                kind: tested_kind(old(self).test_state@.kind, old(self).merge_request@, builds@),
                ..old(self).test_state@
            }),
            test_kind_info(old(self).test_state@.kind) is None ==> final(self).state@ == old(self).state@,
            test_kind_info(old(self).test_state@.kind) is Some ==> final(self).settled(),
            final(self).merge_request@ == old(self).merge_request@,
            final(self).approval_state@ == old(self).approval_state@,
            final(self).merged == old(self).merged,
            opt_record_view(final(self).approval_status) == opt_record_view(old(self).approval_status),
            opt_record_view(final(self).test_status) == opt_record_view(old(self).test_status),
    {
        let info = match self.test_state.info() {
            Some(i) => i.duplicate(),
            None => return,
        };
        let mr = &self.merge_request;
        if info.source_project_id != mr.source_project_id || !info.source_branch.eq(&mr.source_branch)
            || info.target_project_id != mr.target_project_id || !info.target_branch.eq(&mr.target_branch) {
            self.test_state.update_kind(TestKind::Pending);
            self.trans_state();
            return;
        }
        let next_kind = match build_verdict(builds) {
            StatusState::Canceled => TestKind::new_canceled(info),
            StatusState::Failed => TestKind::new_failed(info),
            StatusState::Success => TestKind::new_success(info),
            _ => TestKind::new_running(info),
        };
        match next_kind {
            Ok(k) => {
                self.test_state.update_kind(k);
            },
            Err(_) => {},
        }
        self.trans_state();
    }
}

/// What a step of testing or landing leaves to do.
#[derive(Debug)]
pub enum Progress {
    /// Go on with the next step.
    Proceed,
    /// The attempt is over: make these writes, and the request is re-queued.
    Stopped(Vec<StatusWrite>),
}

/// What landing a tested request takes once its trial branch was fetched.
#[derive(Debug)]
pub enum Landing {
    /// Push with this refspec: the trial branch onto the target branch,
    /// without force, so that a moved target refuses it.
    Push(String),
    /// The trial branch moved: make these writes; the request is tested again.
    Stopped(Vec<StatusWrite>),
}

/// The name of the branch trial merges into `target` are built on.
pub open spec fn spec_merge_branch_name(target: Seq<char>) -> Seq<char> {
    "auto-"@ + target
}

/// `s` without its trailing white space.
pub open spec fn trim_end(s: Seq<char>) -> Seq<char>
    decreases s.len(),
{
    if s.len() > 0 && crate::text::white_space(s.last()) {
        trim_end(s.drop_last())
    } else {
        s
    }
}

/// The message of the merge commit for request `mr`, approved by
/// `approver`, whose source project lies in namespace `namespace`.
pub open spec fn spec_merge_commit_message(mr: MergeRequestInfoView, namespace: Seq<char>, approver: Seq<char>) -> Seq<char> {
    let desc = match mr.description {
        Some(d) => d,
        None => seq![],
    };
    "Auto merge of !"@ + crate::text::decimal(mr.id as nat) + " - "@ + namespace + ":"@ + mr.source_branch
        + ", r="@ + approver + "\n\n"@ + trim_end(mr.title + "\n\n"@ + desc) + "\n\n"@
        + "See merge request !"@ + crate::text::decimal(mr.id as nat)
}

/// The trial's info: built from `mr` at `merge_sha` in the project at
/// `web_url`, from source commit `source_sha` onto target commit `target_sha`.
pub open spec fn spec_trial_info(
    mr: MergeRequestInfoView,
    web_url: Seq<char>,
    merge_sha: Seq<char>,
    source_sha: Seq<char>,
    target_sha: Seq<char>,
) -> TestInfoView {
    TestInfoView {
        build_url: web_url + "/commit/"@ + merge_sha + "/builds"@,
        merge_sha,
        merge_branch: spec_merge_branch_name(mr.target_branch),
        source_project_id: mr.source_project_id,
        source_branch: mr.source_branch,
        source_sha,
        target_project_id: mr.target_project_id,
        target_branch: mr.target_branch,
        target_sha,
    }
}

/// Removes the trailing white space of `s`.
pub fn trim_end_chars(s: &Vec<char>) -> (r: Vec<char>)
    ensures
        r@ == trim_end(s@),
{
    let mut n = s.len();
    assert(s@.take(n as int) =~= s@);
    while n > 0 && crate::text::is_whitespace(s[n - 1])
        invariant
            n <= s@.len(),
            trim_end(s@.take(n as int)) == trim_end(s@),
        decreases n,
    {
        assert(s@.take(n as int).drop_last() =~= s@.take(n - 1));
        n -= 1;
    }
    let mut out: Vec<char> = Vec::new();
    let mut i: usize = 0;
    while i < n
        invariant
            n <= s@.len(),
            i <= n,
            out@ == s@.take(i as int),
        decreases n - i,
    {
        out.push(s[i]);
        i += 1;
        assert(out@ =~= s@.take(i as int));
    }
    out
}

impl MergeRequest {
    /// The writes and records once the tracks are synced.
    pub open spec fn after_sync(&self, writes: Seq<StatusWrite>, old_ar: Option<CommitStatus>, old_tr: Option<CommitStatus>) -> bool {
        &&& write_views(writes) == self.writes_against(old_ar, old_tr)
        &&& self.synced_from(old_ar, old_tr)
        &&& self.settled()
    }

    /// Resets the test track to `Pending` and syncs.
    fn retry_test(&mut self) -> (r: Vec<StatusWrite>)
        ensures
            final(self).test_state@ == (TrackView { kind: TestKindView::Pending, ..old(self).test_state@ }),
            final(self).after_sync(r@, old(self).approval_status, old(self).test_status),
            final(self).merge_request@ == old(self).merge_request@,
            final(self).approval_state@ == old(self).approval_state@,
            final(self).merged == old(self).merged,
    {
        self.test_state.update_kind(TestKind::Pending);
        self.trans_state();
        self.sync_commit_status()
    }

    /// Takes the target branch's tip: a trial built on another commit is
    /// dropped, and the request waits to be tested again.
    pub fn update_target_branch(&mut self, target_sha: &String) -> (r: Vec<StatusWrite>)
        ensures
            match test_kind_info(old(self).test_state@.kind) {
                Some(i) if i.target_sha != target_sha@ => {
                    &&& final(self).test_state@ == (TrackView { kind: TestKindView::Pending, ..old(self).test_state@ })
                    &&& final(self).after_sync(r@, old(self).approval_status, old(self).test_status)
                },
                _ => {
                    &&& r@.len() == 0
                    &&& final(self).test_state@ == old(self).test_state@
                    &&& final(self).state@ == old(self).state@
                    &&& opt_record_view(final(self).approval_status) == opt_record_view(old(self).approval_status)
                    &&& opt_record_view(final(self).test_status) == opt_record_view(old(self).test_status)
                },
            },
            final(self).merge_request@ == old(self).merge_request@,
            final(self).approval_state@ == old(self).approval_state@,
            final(self).merged == old(self).merged,
    {
        let moved = match self.test_state.info() {
            Some(info) => !info.target_sha.eq(target_sha),
            None => false,
        };
        if moved {
            self.retry_test()
        } else {
            Vec::new()
        }
    }

    /// The name of the branch the trial merge is built on.
    pub fn merge_branch_name(&self) -> (r: String)
        ensures
            r@ == spec_merge_branch_name(self.merge_request.target_branch@),
    {
        String::from_str("auto-").concat(self.merge_request.target_branch.as_str())
    }

    /// The message of the merge commit, naming the approver.
    pub fn merge_commit_message(&self, source_namespace: &str) -> (r: String)
        requires
            approval_kind_info(self.approval_state@.kind) is Some,
        ensures
            r@ == spec_merge_commit_message(
                self.merge_request@,
                source_namespace@,
                approval_kind_info(self.approval_state@.kind)->0.username,
            ),
    {
        let approval = match self.approval_state.kind().info() {
            Some(a) => a,
            None => return String::new(),
        };
        let mr = &self.merge_request;
        let mut body: Vec<char> = Vec::new();
        push_str(&mut body, mr.title.as_str());
        push_str(&mut body, "\n\n");
        match &mr.description {
            Some(d) => push_str(&mut body, d.as_str()),
            None => {},
        }
        let ghost desc = match mr@.description {
            Some(d) => d,
            None => seq![],
        };
        assert(body@ =~= mr.title@ + "\n\n"@ + desc);
        let body = trim_end_chars(&body);
        let mut out: Vec<char> = Vec::new();
        push_str(&mut out, "Auto merge of !");
        push_decimal(&mut out, mr.id);
        push_str(&mut out, " - ");
        push_str(&mut out, source_namespace);
        push_str(&mut out, ":");
        push_str(&mut out, mr.source_branch.as_str());
        push_str(&mut out, ", r=");
        push_str(&mut out, approval.username.as_str());
        push_str(&mut out, "\n\n");
        let ghost before = out@;
        let mut i: usize = 0;
        while i < body.len()
            invariant
                i <= body@.len(),
                out@ == before + body@.take(i as int),
            decreases body.len() - i,
        {
            out.push(body[i]);
            i += 1;
            assert(out@ =~= before + body@.take(i as int));
        }
        assert(body@.take(i as int) =~= body@);
        push_str(&mut out, "\n\n");
        push_str(&mut out, "See merge request !");
        push_decimal(&mut out, mr.id);
        let r = string_of(&out);
        assert(r@ =~= spec_merge_commit_message(mr@, source_namespace@, approval@.username));
        r
    }

    /// The refspec that force-pushes the trial branch.
    pub fn trial_refspec(&self) -> (r: String)
        ensures
            r@ == "+refs/heads/"@ + spec_merge_branch_name(self.merge_request.target_branch@),
    {
        let name = self.merge_branch_name();
        String::from_str("+refs/heads/").concat(name.as_str())
    }

    /// The trial merge conflicted: the test fails with no trial commit.
    pub fn test_conflicted(&mut self) -> (r: Vec<StatusWrite>)
        requires
            old(self).state@ is Approved,
            old(self).test_state@.kind is Pending,
        ensures
            final(self).test_state@ == (TrackView { kind: TestKindView::Failed(None), ..old(self).test_state@ }),
            final(self).after_sync(r@, old(self).approval_status, old(self).test_status),
            final(self).merge_request@ == old(self).merge_request@,
            final(self).approval_state@ == old(self).approval_state@,
            final(self).merged == old(self).merged,
    {
        self.test_state.update_kind(TestKind::Failed(None));
        self.trans_state();
        self.sync_commit_status()
    }

    /// The trial commit `merge_sha` was pushed: the test is running.
    pub fn test_started(&mut self, web_url: &str, merge_sha: String, source_sha: String, target_sha: String) -> (r: Vec<StatusWrite>)
        requires
            old(self).state@ is Approved,
            old(self).test_state@.kind is Pending,
        ensures
            ({
                let i = spec_trial_info(old(self).merge_request@, web_url@, merge_sha@, source_sha@, target_sha@);
                final(self).test_state@ == (TrackView {
                    kind: TestKindView::Running { desc: test_json(i), info: i },
                    ..old(self).test_state@
                })
            }),
            final(self).after_sync(r@, old(self).approval_status, old(self).test_status),
            final(self).merge_request@ == old(self).merge_request@,
            final(self).approval_state@ == old(self).approval_state@,
            final(self).merged == old(self).merged,
    {
        let mr = &self.merge_request;
        let build_url = String::from_str(web_url).concat("/commit/").concat(merge_sha.as_str()).concat("/builds");
        let info = TestInfo {
            build_url,
            merge_sha,
            merge_branch: self.merge_branch_name(),
            source_project_id: mr.source_project_id,
            source_branch: mr.source_branch.clone(),
            source_sha,
            target_project_id: mr.target_project_id,
            target_branch: mr.target_branch.clone(),
            target_sha,
        };
        match TestKind::new_running(info) {
            Ok(k) => self.test_state.update_kind(k),
            Err(_) => {},
        }
        self.trans_state();
        self.sync_commit_status()
    }

    /// Before landing: the target's tip must still be the commit the trial
    /// was built on, else the request goes back to be tested again.
    pub fn push_merged(&mut self, target_sha: &String) -> (r: Progress)
        requires
            old(self).state@ is Success,
            old(self).test_state@.kind is Success,
        ensures
            ({
                let i = test_kind_info(old(self).test_state@.kind)->0;
                if i.target_sha == target_sha@ {
                    &&& r is Proceed
                    &&& *final(self) == *old(self)
                } else {
                    &&& r matches Progress::Stopped(w) && final(self).after_sync(w@, old(self).approval_status, old(self).test_status)
                    &&& final(self).test_state@ == (TrackView { kind: TestKindView::Pending, ..old(self).test_state@ })
                }
            }),
            final(self).merge_request@ == old(self).merge_request@,
            final(self).approval_state@ == old(self).approval_state@,
            final(self).merged == old(self).merged,
    {
        let matches_target = match self.test_state.info() {
            Some(info) => info.target_sha.eq(target_sha),
            None => true,
        };
        if matches_target {
            Progress::Proceed
        } else {
            Progress::Stopped(self.retry_test())
        }
    }

    /// The trial branch was fetched back at `remote_sha`: it must still be
    /// the commit that was tested, else the request is tested again.
    pub fn merge_branch_fetched(&mut self, remote_sha: &String) -> (r: Landing)
        requires
            old(self).test_state@.kind is Success,
        ensures
            ({
                let i = test_kind_info(old(self).test_state@.kind)->0;
                if i.merge_sha == remote_sha@ {
                    &&& r matches Landing::Push(refspec)
                        && refspec@ == "refs/heads/"@ + i.merge_branch + ":refs/heads/"@ + i.target_branch
                    &&& *final(self) == *old(self)
                } else {
                    &&& r matches Landing::Stopped(w) && final(self).after_sync(w@, old(self).approval_status, old(self).test_status)
                    &&& final(self).test_state@ == (TrackView { kind: TestKindView::Pending, ..old(self).test_state@ })
                }
            }),
            final(self).merge_request@ == old(self).merge_request@,
            final(self).approval_state@ == old(self).approval_state@,
            final(self).merged == old(self).merged,
    {
        let same = match self.test_state.info() {
            Some(info) => info.merge_sha.eq(remote_sha),
            None => true,
        };
        if same {
            Landing::Push(self.land_refspec())
        } else {
            Landing::Stopped(self.retry_test())
        }
    }

    /// The refspec that lands the tested trial branch on the target branch.
    pub fn land_refspec(&self) -> (r: String)
        requires
            test_kind_info(self.test_state@.kind) is Some,
        ensures
            ({
                let i = test_kind_info(self.test_state@.kind)->0;
                r@ == "refs/heads/"@ + i.merge_branch + ":refs/heads/"@ + i.target_branch
            }),
    {
        match self.test_state.info() {
            Some(info) => String::from_str("refs/heads/")
                .concat(info.merge_branch.as_str())
                .concat(":refs/heads/")
                .concat(info.target_branch.as_str()),
            None => String::new(),
        }
    }

    /// The push of the trial branch onto the target ended: on success the
    /// request is merged; if the push was refused the request is tested again.
    pub fn push_finished(&mut self, pushed: bool) -> (r: Vec<StatusWrite>)
        ensures
            pushed ==> final(self).merged && final(self).test_state@ == old(self).test_state@,
            !pushed ==> final(self).merged == old(self).merged
                && final(self).test_state@ == (TrackView { kind: TestKindView::Pending, ..old(self).test_state@ }),
            final(self).after_sync(r@, old(self).approval_status, old(self).test_status),
            final(self).merge_request@ == old(self).merge_request@,
            final(self).approval_state@ == old(self).approval_state@,
    {
        if pushed {
            self.merged = true;
            self.trans_state();
            self.sync_commit_status()
        } else {
            self.retry_test()
        }
    }
}

/// The verdict of a trial commit's builds: any still pending or running, or
/// none at all, is `Running`; else any canceled is `Canceled`; else any
/// failed is `Failed`; else all succeeded.
pub open spec fn spec_build_verdict(bs: Seq<Build>) -> StatusState {
    if bs.len() == 0 {
        StatusState::Running
    } else if exists|i: int| 0 <= i < bs.len() && (#[trigger] bs[i].status == StatusState::Pending || bs[i].status == StatusState::Running) {
        StatusState::Running
    } else if exists|i: int| 0 <= i < bs.len() && #[trigger] bs[i].status == StatusState::Canceled {
        StatusState::Canceled
    } else if exists|i: int| 0 <= i < bs.len() && #[trigger] bs[i].status == StatusState::Failed {
        StatusState::Failed
    } else if forall|i: int| 0 <= i < bs.len() ==> #[trigger] bs[i].status == StatusState::Success {
        StatusState::Success
    } else {
        StatusState::Running
    }
}

/// The approval kind the comments of members who may approve add up to, or
/// `None` when its time cannot be written out.
pub open spec fn comments_approval(cs: Seq<CommitNoteView>, members: Seq<Member>, login: Seq<char>) -> Option<ApprovalKindView> {
    match fold_directives(reviewer_notes(cs, members), login) {
        None => Some(ApprovalKindView::NotApproved),
        Some(i) => match approval_json(i) {
            Some(j) => Some(ApprovalKindView::Approved { desc: j, info: i }),
            None => None,
        },
    }
}

/// Whether the request no longer has the source and target the trial used.
pub open spec fn retargeted(i: TestInfoView, mr: MergeRequestInfoView) -> bool {
    ||| i.source_project_id != mr.source_project_id
    ||| i.source_branch != mr.source_branch
    ||| i.target_project_id != mr.target_project_id
    ||| i.target_branch != mr.target_branch
}

/// The test kind after the builds of the trial commit were read.
pub open spec fn tested_kind(t: TestKindView, mr: MergeRequestInfoView, bs: Seq<Build>) -> TestKindView {
    match test_kind_info(t) {
        None => t,
        Some(i) => if retargeted(i, mr) {
            TestKindView::Pending
        } else {
            match spec_build_verdict(bs) {
                StatusState::Canceled => TestKindView::Canceled { desc: test_json(i), info: i },
                StatusState::Failed => TestKindView::Failed(Some((test_json(i), i))),
                StatusState::Success => TestKindView::Success { desc: test_json(i), info: i },
                _ => TestKindView::Running { desc: test_json(i), info: i },
            }
        },
    }
}

/// The verdict of a trial commit's builds.
pub fn build_verdict(builds: &Vec<Build>) -> (r: StatusState)
    ensures
        r == spec_build_verdict(builds@),
{
    let n = builds.len();
    if n == 0 {
        return StatusState::Running;
    }
    let mut active = false;
    let mut canceled = false;
    let mut failed = false;
    let mut all_success = true;
    let mut i: usize = 0;
    while i < n
        invariant
            n == builds@.len(),
            i <= n,
            active == exists|j: int| 0 <= j < i && (#[trigger] builds@[j].status == StatusState::Pending || builds@[j].status == StatusState::Running),
            canceled == exists|j: int| 0 <= j < i && #[trigger] builds@[j].status == StatusState::Canceled,
            failed == exists|j: int| 0 <= j < i && #[trigger] builds@[j].status == StatusState::Failed,
            all_success == forall|j: int| 0 <= j < i ==> #[trigger] builds@[j].status == StatusState::Success,
        decreases n - i,
    {
        let st = builds[i].status;
        if st == StatusState::Pending || st == StatusState::Running {
            active = true;
        }
        if st == StatusState::Canceled {
            canceled = true;
        }
        if st == StatusState::Failed {
            failed = true;
        }
        if st != StatusState::Success {
            all_success = false;
        }
        i += 1;
    }
    if active {
        StatusState::Running
    } else if canceled {
        StatusState::Canceled
    } else if failed {
        StatusState::Failed
    } else if all_success {
        StatusState::Success
    } else {
        StatusState::Running
    }
}

} // verus!
