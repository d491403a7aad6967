//! The two tracks a merge request carries (approval and test), their kinds,
//! and how each is written to and read back from a commit-status record.

use vstd::prelude::*;
use crate::status::{
    need_sync, opt_view, spec_need_sync, CommitStatus, CommitStatusInfo, CommitStatusView,
    StatusInfoView, StatusState,
};
use crate::text::{decimal, json_quoted, push_decimal, push_quoted, push_str, rfc3339, rfc3339_of, string_of};

verus! {

/// Why a track could not be built or read back.
#[derive(Clone, Copy, Debug, PartialEq, Eq, Structural)]
pub enum Error {
    /// The record's state cannot belong to this track.
    InvalidStatus(StatusState),
    /// The record carries no description where one is required.
    MissingDescription,
    /// The record's description does not decode to the track's info.
    BadDescription,
    /// The record carries no ref.
    MissingRef,
    /// An approval time outside the range that can be written out.
    TimeOutOfRange,
}

/// A UTC instant: seconds and nanoseconds since the Unix epoch.
#[derive(Clone, Copy, Debug, PartialEq, Eq, Structural)]
pub struct Timestamp {
    pub secs: i64,
    pub nanos: u32,
}

/// `a` is strictly earlier than `b`.
pub open spec fn time_lt(a: Timestamp, b: Timestamp) -> bool {
    a.secs < b.secs || (a.secs == b.secs && a.nanos < b.nanos)
}

/// Who approved a request, when, and at what priority.
#[derive(Debug, PartialEq, Eq)]
pub struct ApprovalInfo {
    pub priority: u64,
    pub time: Timestamp,
    pub username: String,
}

pub struct ApprovalInfoView {
    pub priority: u64,
    pub time: Timestamp,
    pub username: Seq<char>,
}

impl View for ApprovalInfo {
    type V = ApprovalInfoView;

    open spec fn view(&self) -> ApprovalInfoView {
        ApprovalInfoView { priority: self.priority, time: self.time, username: self.username@ }
    }
}

impl ApprovalInfo {
    /// A copy with the same fields.
    pub fn duplicate(&self) -> (r: Self)
        ensures
            r@ == self@,
    {
        ApprovalInfo { priority: self.priority, time: self.time, username: self.username.clone() }
    }
}

/// The JSON description of an approval, `None` when its time cannot be written.
pub open spec fn approval_json(i: ApprovalInfoView) -> Option<Seq<char>> {
    match rfc3339_of(i.time.secs, i.time.nanos) {
        Some(t) => Some(
            "{\"priority\":"@ + decimal(i.priority as nat) + ",\"time\":"@ + json_quoted(t)
                + ",\"username\":"@ + json_quoted(i.username) + "}"@,
        ),
        None => None,
    }
}

/// Writes the JSON description of an approval.
pub fn encode_approval_info(info: &ApprovalInfo) -> (r: Option<String>)
    ensures
        opt_view(r) == approval_json(info@),
{
    match rfc3339(info.time.secs, info.time.nanos) {
        None => None,
        Some(t) => {
            let mut out: Vec<char> = Vec::new();
            push_str(&mut out, "{\"priority\":");
            push_decimal(&mut out, info.priority);
            push_str(&mut out, ",\"time\":");
            push_quoted(&mut out, t.as_str());
            push_str(&mut out, ",\"username\":");
            push_quoted(&mut out, info.username.as_str());
            push_str(&mut out, "}");
            let s = string_of(&out);
            assert(s@ =~= approval_json(info@)->0);
            Some(s)
        },
    }
}

/// The approval track's kind.
#[derive(Debug, PartialEq, Eq)]
pub enum ApprovalKind {
    NotApproved,
    Approved { desc: String, info: ApprovalInfo },
}

pub enum ApprovalKindView {
    NotApproved,
    Approved { desc: Seq<char>, info: ApprovalInfoView },
}

impl View for ApprovalKind {
    type V = ApprovalKindView;

    open spec fn view(&self) -> ApprovalKindView {
        match self {
            ApprovalKind::NotApproved => ApprovalKindView::NotApproved,
            ApprovalKind::Approved { desc, info } => ApprovalKindView::Approved {
                desc: desc@,
                info: info@,
            },
        }
    }
}

pub open spec fn approval_kind_info(k: ApprovalKindView) -> Option<ApprovalInfoView> {
    match k {
        ApprovalKindView::NotApproved => None,
        ApprovalKindView::Approved { info, .. } => Some(info),
    }
}

pub open spec fn approval_kind_state(k: ApprovalKindView) -> StatusState {
    match k {
        ApprovalKindView::NotApproved => StatusState::Pending,
        ApprovalKindView::Approved { .. } => StatusState::Success,
    }
}

pub open spec fn approval_kind_desc(k: ApprovalKindView) -> Option<Seq<char>> {
    match k {
        ApprovalKindView::NotApproved => None,
        ApprovalKindView::Approved { desc, .. } => Some(desc),
    }
}

/// The kind read back from a record: `parsed` is what the record's
/// description decodes to, if it decodes.
pub open spec fn decode_approval_kind(r: CommitStatusView, parsed: Option<ApprovalInfoView>) -> Result<ApprovalKindView, Error> {
    match r.status {
        StatusState::Pending => Ok(ApprovalKindView::NotApproved),
        StatusState::Success => match r.description {
            None => Err(Error::MissingDescription),
            Some(_) => match parsed {
                None => Err(Error::BadDescription),
                Some(info) => match approval_json(info) {
                    Some(desc) => Ok(ApprovalKindView::Approved { desc, info }),
                    None => Err(Error::TimeOutOfRange),
                },
            },
        },
        s => Err(Error::InvalidStatus(s)),
    }
}

pub open spec fn opt_approval_view(o: Option<ApprovalInfo>) -> Option<ApprovalInfoView> {
    match o {
        Some(i) => Some(i@),
        None => None,
    }
}

impl ApprovalKind {
    /// `Approved` with `info` and its JSON description.
    pub fn new_approved(info: ApprovalInfo) -> (r: Result<Self, Error>)
        ensures
            match approval_json(info@) {
                Some(j) => r matches Ok(k) && k@ == (ApprovalKindView::Approved { desc: j, info: info@ }),
                None => r == Err::<Self, Error>(Error::TimeOutOfRange),
            },
    {
        match encode_approval_info(&info) {
            Some(desc) => Ok(ApprovalKind::Approved { desc, info }),
            None => Err(Error::TimeOutOfRange),
        }
    }

    pub fn info(&self) -> (r: Option<&ApprovalInfo>)
        ensures
            match r {
                Some(i) => approval_kind_info(self@) == Some(i@),
                None => approval_kind_info(self@) is None,
            },
    {
        match self {
            ApprovalKind::Approved { info, .. } => Some(info),
            ApprovalKind::NotApproved => None,
        }
    }

    pub fn from_commit_status(commit_status: &CommitStatus, parsed: Option<ApprovalInfo>) -> (r: Result<Self, Error>)
        ensures
            match r {
                Ok(k) => decode_approval_kind(commit_status@, opt_approval_view(parsed)) == Ok::<ApprovalKindView, Error>(k@),
                Err(e) => decode_approval_kind(commit_status@, opt_approval_view(parsed)) == Err::<ApprovalKindView, Error>(e),
            },
    {
        match commit_status.status {
            StatusState::Pending => Ok(ApprovalKind::NotApproved),
            StatusState::Success => match &commit_status.description {
                None => Err(Error::MissingDescription),
                Some(_) => match parsed {
                    None => Err(Error::BadDescription),
                    Some(info) => ApprovalKind::new_approved(info),
                },
            },
            s => Err(Error::InvalidStatus(s)),
        }
    }

    /// The kind's name, as shown in logs.
    pub fn as_str(&self) -> (r: &'static str)
        ensures
            r@ == (if self@ is NotApproved { "not_approved"@ } else { "approved"@ }),
    {
        match self {
            ApprovalKind::NotApproved => "not_approved",
            ApprovalKind::Approved { .. } => "approved",
        }
    }

    pub fn to_status_state(&self) -> (r: StatusState)
        ensures
            r == approval_kind_state(self@),
    {
        match self {
            ApprovalKind::NotApproved => StatusState::Pending,
            ApprovalKind::Approved { .. } => StatusState::Success,
        }
    }
}

/// The identity of a trial merge: where it came from and what it was built on.
#[derive(Debug, PartialEq, Eq)]
pub struct TestInfo {
    pub build_url: String,
    pub merge_sha: String,
    pub merge_branch: String,
    pub source_project_id: u64,
    pub source_branch: String,
    pub source_sha: String,
    pub target_project_id: u64,
    pub target_branch: String,
    pub target_sha: String,
}

pub struct TestInfoView {
    pub build_url: Seq<char>,
    pub merge_sha: Seq<char>,
    pub merge_branch: Seq<char>,
    pub source_project_id: u64,
    pub source_branch: Seq<char>,
    pub source_sha: Seq<char>,
    pub target_project_id: u64,
    pub target_branch: Seq<char>,
    pub target_sha: Seq<char>,
}

impl View for TestInfo {
    type V = TestInfoView;

    open spec fn view(&self) -> TestInfoView {
        TestInfoView {
            build_url: self.build_url@,
            merge_sha: self.merge_sha@,
            merge_branch: self.merge_branch@,
            source_project_id: self.source_project_id,
            source_branch: self.source_branch@,
            source_sha: self.source_sha@,
            target_project_id: self.target_project_id,
            target_branch: self.target_branch@,
            target_sha: self.target_sha@,
        }
    }
}

impl TestInfo {
    /// A copy with the same fields.
    pub fn duplicate(&self) -> (r: Self)
        ensures
            r@ == self@,
    {
        TestInfo {
            build_url: self.build_url.clone(),
            merge_sha: self.merge_sha.clone(),
            merge_branch: self.merge_branch.clone(),
            source_project_id: self.source_project_id,
            source_branch: self.source_branch.clone(),
            source_sha: self.source_sha.clone(),
            target_project_id: self.target_project_id,
            target_branch: self.target_branch.clone(),
            target_sha: self.target_sha.clone(),
        }
    }
}

/// The JSON description of a trial merge.
pub open spec fn test_json(i: TestInfoView) -> Seq<char> {
    "{\"build_url\":"@ + json_quoted(i.build_url)
        + ",\"merge_sha\":"@ + json_quoted(i.merge_sha)
        + ",\"merge_branch\":"@ + json_quoted(i.merge_branch)
        + ",\"source_project_id\":"@ + decimal(i.source_project_id as nat)
        + ",\"source_branch\":"@ + json_quoted(i.source_branch)
        + ",\"source_sha\":"@ + json_quoted(i.source_sha)
        + ",\"target_project_id\":"@ + decimal(i.target_project_id as nat)
        + ",\"target_branch\":"@ + json_quoted(i.target_branch)
        + ",\"target_sha\":"@ + json_quoted(i.target_sha) + "}"@
}

/// Writes the JSON description of a trial merge.
pub fn encode_test_info(info: &TestInfo) -> (r: String)
    ensures
        r@ == test_json(info@),
{
    let mut out: Vec<char> = Vec::new();
    push_str(&mut out, "{\"build_url\":");
    push_quoted(&mut out, info.build_url.as_str());
    push_str(&mut out, ",\"merge_sha\":");
    push_quoted(&mut out, info.merge_sha.as_str());
    push_str(&mut out, ",\"merge_branch\":");
    push_quoted(&mut out, info.merge_branch.as_str());
    push_str(&mut out, ",\"source_project_id\":");
    push_decimal(&mut out, info.source_project_id);
    push_str(&mut out, ",\"source_branch\":");
    push_quoted(&mut out, info.source_branch.as_str());
    push_str(&mut out, ",\"source_sha\":");
    push_quoted(&mut out, info.source_sha.as_str());
    push_str(&mut out, ",\"target_project_id\":");
    push_decimal(&mut out, info.target_project_id);
    push_str(&mut out, ",\"target_branch\":");
    push_quoted(&mut out, info.target_branch.as_str());
    push_str(&mut out, ",\"target_sha\":");
    push_quoted(&mut out, info.target_sha.as_str());
    push_str(&mut out, "}");
    let s = string_of(&out);
    assert(s@ =~= test_json(info@));
    s
}

/// The test track's kind. `Failed(None)` is a merge conflict found before
/// any trial commit existed.
#[derive(Debug, PartialEq, Eq)]
pub enum TestKind {
    Pending,
    Running { desc: String, info: TestInfo },
    Success { desc: String, info: TestInfo },
    Failed(Option<(String, TestInfo)>),
    Canceled { desc: String, info: TestInfo },
}

pub enum TestKindView {
    Pending,
    Running { desc: Seq<char>, info: TestInfoView },
    Success { desc: Seq<char>, info: TestInfoView },
    Failed(Option<(Seq<char>, TestInfoView)>),
    Canceled { desc: Seq<char>, info: TestInfoView },
}

impl View for TestKind {
    type V = TestKindView;

    open spec fn view(&self) -> TestKindView {
        match self {
            TestKind::Pending => TestKindView::Pending,
            TestKind::Running { desc, info } => TestKindView::Running { desc: desc@, info: info@ },
            TestKind::Success { desc, info } => TestKindView::Success { desc: desc@, info: info@ },
            TestKind::Failed(None) => TestKindView::Failed(None),
            TestKind::Failed(Some((desc, info))) => TestKindView::Failed(Some((desc@, info@))),
            TestKind::Canceled { desc, info } => TestKindView::Canceled { desc: desc@, info: info@ },
        }
    }
}

/// The description and info a test kind carries, if any.
pub open spec fn test_kind_payload(k: TestKindView) -> Option<(Seq<char>, TestInfoView)> {
    match k {
        TestKindView::Pending => None,
        TestKindView::Running { desc, info } => Some((desc, info)),
        TestKindView::Success { desc, info } => Some((desc, info)),
        TestKindView::Failed(p) => p,
        TestKindView::Canceled { desc, info } => Some((desc, info)),
    }
}

pub open spec fn test_kind_info(k: TestKindView) -> Option<TestInfoView> {
    match test_kind_payload(k) {
        Some(p) => Some(p.1),
        None => None,
    }
}

pub open spec fn test_kind_state(k: TestKindView) -> StatusState {
    match k {
        TestKindView::Pending => StatusState::Pending,
        TestKindView::Running { .. } => StatusState::Running,
        TestKindView::Success { .. } => StatusState::Success,
        TestKindView::Failed(_) => StatusState::Failed,
        TestKindView::Canceled { .. } => StatusState::Canceled,
    }
}

/// The kind read back from a record: `parsed` is what the record's
/// description decodes to, if it decodes.
pub open spec fn decode_test_kind(r: CommitStatusView, parsed: Option<TestInfoView>) -> Result<TestKindView, Error> {
    if r.status == StatusState::Pending {
        Ok(TestKindView::Pending)
    } else if r.status == StatusState::Failed && r.description is None {
        Ok(TestKindView::Failed(None))
    } else {
        match r.description {
            None => Err(Error::MissingDescription),
            Some(_) => match parsed {
                None => Err(Error::BadDescription),
                Some(info) => Ok({
                    let desc = test_json(info);
                    match r.status {
                        StatusState::Running => TestKindView::Running { desc, info },
                        StatusState::Success => TestKindView::Success { desc, info },
                        StatusState::Failed => TestKindView::Failed(Some((desc, info))),
                        _ => TestKindView::Canceled { desc, info },
                    }
                }),
            },
        }
    }
}

pub open spec fn opt_test_view(o: Option<TestInfo>) -> Option<TestInfoView> {
    match o {
        Some(i) => Some(i@),
        None => None,
    }
}

impl TestKind {
    pub fn new_running(info: TestInfo) -> (r: Result<Self, Error>)
        ensures
            r matches Ok(k) && k@ == (TestKindView::Running { desc: test_json(info@), info: info@ }),
    {
        let desc = encode_test_info(&info);
        Ok(TestKind::Running { desc, info })
    }

    pub fn new_success(info: TestInfo) -> (r: Result<Self, Error>)
        ensures
            r matches Ok(k) && k@ == (TestKindView::Success { desc: test_json(info@), info: info@ }),
    {
        let desc = encode_test_info(&info);
        Ok(TestKind::Success { desc, info })
    }

    pub fn new_failed(info: TestInfo) -> (r: Result<Self, Error>)
        ensures
            r matches Ok(k) && k@ == TestKindView::Failed(Some((test_json(info@), info@))),
    {
        let desc = encode_test_info(&info);
        Ok(TestKind::Failed(Some((desc, info))))
    }

    pub fn new_canceled(info: TestInfo) -> (r: Result<Self, Error>)
        ensures
            r matches Ok(k) && k@ == (TestKindView::Canceled { desc: test_json(info@), info: info@ }),
    {
        let desc = encode_test_info(&info);
        Ok(TestKind::Canceled { desc, info })
    }

    pub fn info(&self) -> (r: Option<&TestInfo>)
        ensures
            match r {
                Some(i) => test_kind_info(self@) == Some(i@),
                None => test_kind_info(self@) is None,
            },
    {
        match self {
            TestKind::Pending => None,
            TestKind::Failed(None) => None,
            TestKind::Running { info, .. } => Some(info),
            TestKind::Success { info, .. } => Some(info),
            TestKind::Failed(Some((_, info))) => Some(info),
            TestKind::Canceled { info, .. } => Some(info),
        }
    }

    /// The description this kind carries, if any.
    pub fn desc(&self) -> (r: Option<&String>)
        ensures
            match r {
                Some(d) => test_kind_payload(self@) matches Some(p) && p.0 == d@,
                None => test_kind_payload(self@) is None,
            },
    {
        match self {
            TestKind::Pending => None,
            TestKind::Failed(None) => None,
            TestKind::Running { desc, .. } => Some(desc),
            TestKind::Success { desc, .. } => Some(desc),
            TestKind::Failed(Some((desc, _))) => Some(desc),
            TestKind::Canceled { desc, .. } => Some(desc),
        }
    }

    pub fn from_commit_status(commit_status: &CommitStatus, parsed: Option<TestInfo>) -> (r: Result<Self, Error>)
        ensures
            match r {
                Ok(k) => decode_test_kind(commit_status@, opt_test_view(parsed)) == Ok::<TestKindView, Error>(k@),
                Err(e) => decode_test_kind(commit_status@, opt_test_view(parsed)) == Err::<TestKindView, Error>(e),
            },
    {
        if commit_status.status == StatusState::Pending {
            return Ok(TestKind::Pending);
        }
        if commit_status.status == StatusState::Failed && commit_status.description.is_none() {
            return Ok(TestKind::Failed(None));
        }
        match &commit_status.description {
            None => Err(Error::MissingDescription),
            Some(_) => match parsed {
                None => Err(Error::BadDescription),
                Some(info) => match commit_status.status {
                    StatusState::Running => TestKind::new_running(info),
                    StatusState::Success => TestKind::new_success(info),
                    StatusState::Failed => TestKind::new_failed(info),
                    _ => TestKind::new_canceled(info),
                },
            },
        }
    }

    /// The kind's name, as shown in logs.
    pub fn as_str(&self) -> (r: &'static str)
        ensures
            r@ == match self@ {
                TestKindView::Pending => "pending"@,
                TestKindView::Running { .. } => "running"@,
                TestKindView::Success { .. } => "success"@,
                TestKindView::Failed(_) => "failed"@,
                TestKindView::Canceled { .. } => "canceled"@,
            },
    {
        match self {
            TestKind::Pending => "pending",
            TestKind::Running { .. } => "running",
            TestKind::Success { .. } => "success",
            TestKind::Failed(_) => "failed",
            TestKind::Canceled { .. } => "canceled",
        }
    }

    pub fn to_status_state(&self) -> (r: StatusState)
        ensures
            r == test_kind_state(self@),
    {
        match self {
            TestKind::Pending => StatusState::Pending,
            TestKind::Running { .. } => StatusState::Running,
            TestKind::Success { .. } => StatusState::Success,
            TestKind::Failed(_) => StatusState::Failed,
            TestKind::Canceled { .. } => StatusState::Canceled,
        }
    }
}

/// A track of a merge request, held as the view of its fields.
pub struct TrackView<K> {
    pub project_id: u64,
    pub refname: Seq<char>,
    pub sha: Seq<char>,
    pub kind: K,
}

/// What the two tracks share: each publishes one commit-status record.
pub trait State: Sized {
    /// The state this track's record should be in.
    spec fn spec_status_state(&self) -> StatusState;

    /// The other fields this track's record should have.
    spec fn spec_status_info(&self) -> StatusInfoView;

    spec fn spec_project_id(&self) -> u64;

    spec fn spec_sha(&self) -> Seq<char>;

    fn project_id(&self) -> (r: u64)
        ensures
            r == self.spec_project_id(),
    ;

    fn sha(&self) -> (r: &String)
        ensures
            r@ == self.spec_sha(),
    ;

    fn to_status_state(&self) -> (r: StatusState)
        ensures
            r == self.spec_status_state(),
    ;

    fn to_commit_status_info(&self) -> (r: CommitStatusInfo)
        ensures
            r@ == self.spec_status_info(),
    ;

    /// Whether `commit_status` differs from what this track projects.
    fn need_sync(&self, commit_status: &CommitStatus) -> (r: bool)
        ensures
            r == spec_need_sync(self.spec_status_state(), self.spec_status_info(), commit_status@),
    ;
}

pub open spec fn approval_status_name() -> Seq<char> {
    "jaba:approval"@
}

pub open spec fn test_status_name() -> Seq<char> {
    "jaba:test"@
}

/// The record the service keeps once `(state, info)` has been written for
/// commit `sha`, under record id `id`.
pub open spec fn written_record(state: StatusState, info: StatusInfoView, sha: Seq<char>, id: u64) -> CommitStatusView {
    CommitStatusView {
        id,
        sha,
        ref_: info.refname,
        status: state,
        name: info.name->0,
        description: info.description,
        target_url: info.target_url,
    }
}

pub open spec fn approval_projection(t: TrackView<ApprovalKindView>) -> StatusInfoView {
    StatusInfoView {
        refname: Some(t.refname),
        name: Some(approval_status_name()),
        target_url: None,
        description: approval_kind_desc(t.kind),
    }
}

pub open spec fn test_projection(t: TrackView<TestKindView>) -> StatusInfoView {
    StatusInfoView {
        refname: Some(t.refname),
        name: Some(test_status_name()),
        target_url: match test_kind_payload(t.kind) {
            Some(p) => Some(p.1.build_url),
            None => None,
        },
        description: match test_kind_payload(t.kind) {
            Some(p) => Some(p.0),
            None => None,
        },
    }
}

/// The approval track read back from record `r` of project `project_id`.
pub open spec fn decode_approval(project_id: u64, r: CommitStatusView, parsed: Option<ApprovalInfoView>) -> Result<TrackView<ApprovalKindView>, Error> {
    match decode_approval_kind(r, parsed) {
        Err(e) => Err(e),
        Ok(kind) => match r.ref_ {
            None => Err(Error::MissingRef),
            Some(refname) => Ok(TrackView { project_id, refname, sha: r.sha, kind }),
        },
    }
}

/// The test track read back from record `r` of project `project_id`.
pub open spec fn decode_test(project_id: u64, r: CommitStatusView, parsed: Option<TestInfoView>) -> Result<TrackView<TestKindView>, Error> {
    match decode_test_kind(r, parsed) {
        Err(e) => Err(e),
        Ok(kind) => match r.ref_ {
            None => Err(Error::MissingRef),
            Some(refname) => Ok(TrackView { project_id, refname, sha: r.sha, kind }),
        },
    }
}

/// The approval track of a merge request's source commit.
#[derive(Debug)]
pub struct Approval {
    pub project_id: u64,
    pub refname: String,
    pub sha: String,
    pub kind: ApprovalKind,
}

impl View for Approval {
    type V = TrackView<ApprovalKindView>;

    open spec fn view(&self) -> TrackView<ApprovalKindView> {
        TrackView { project_id: self.project_id, refname: self.refname@, sha: self.sha@, kind: self.kind@ }
    }
}

impl Approval {
    pub fn init_state(project_id: u64, refname: String, sha: String) -> (r: Self)
        ensures
            r@ == (TrackView { project_id, refname: refname@, sha: sha@, kind: ApprovalKindView::NotApproved }),
    {
        Approval { project_id, refname, sha, kind: ApprovalKind::NotApproved }
    }

    /// Reads the track back from its record; `parsed` is what the record's
    /// description decodes to, if it decodes.
    pub fn from_commit_status(project_id: u64, commit_status: &CommitStatus, parsed: Option<ApprovalInfo>) -> (r: Result<Self, Error>)
        ensures
            match r {
                Ok(t) => decode_approval(project_id, commit_status@, opt_approval_view(parsed)) == Ok::<TrackView<ApprovalKindView>, Error>(t@),
                Err(e) => decode_approval(project_id, commit_status@, opt_approval_view(parsed)) == Err::<TrackView<ApprovalKindView>, Error>(e),
            },
    {
        let kind = match ApprovalKind::from_commit_status(commit_status, parsed) {
            Ok(k) => k,
            Err(e) => return Err(e),
        };
        let refname = match &commit_status.ref_ {
            Some(r) => r.clone(),
            None => return Err(Error::MissingRef),
        };
        Ok(Approval { project_id, refname, sha: commit_status.sha.clone(), kind })
    }

    pub fn status_name() -> (r: &'static str)
        ensures
            r@ == approval_status_name(),
    {
        "jaba:approval"
    }

    pub fn kind(&self) -> (r: &ApprovalKind)
        ensures
            r@ == self@.kind,
    {
        &self.kind
    }

    pub fn update_kind(&mut self, kind: ApprovalKind)
        ensures
            final(self)@ == (TrackView { kind: kind@, ..old(self)@ }),
    {
        self.kind = kind;
    }
}

impl State for Approval {
    open spec fn spec_status_state(&self) -> StatusState {
        approval_kind_state(self@.kind)
    }

    open spec fn spec_status_info(&self) -> StatusInfoView {
        approval_projection(self@)
    }

    open spec fn spec_project_id(&self) -> u64 {
        self.project_id
    }

    open spec fn spec_sha(&self) -> Seq<char> {
        self.sha@
    }

    fn project_id(&self) -> (r: u64) {
        self.project_id
    }

    fn sha(&self) -> (r: &String) {
        &self.sha
    }

    fn to_status_state(&self) -> (r: StatusState) {
        self.kind.to_status_state()
    }

    fn to_commit_status_info(&self) -> (r: CommitStatusInfo) {
        let description = match &self.kind {
            ApprovalKind::NotApproved => None,
            ApprovalKind::Approved { desc, .. } => Some(desc.clone()),
        };
        CommitStatusInfo {
            refname: Some(self.refname.clone()),
            name: Some(String::from_str(Approval::status_name())),
            target_url: None,
            description,
        }
    }

    fn need_sync(&self, commit_status: &CommitStatus) -> (r: bool) {
        let info = self.to_commit_status_info();
        need_sync(self.to_status_state(), &info, commit_status)
    }
}

/// The test track of a merge request's source commit.
#[derive(Debug)]
pub struct Test {
    pub project_id: u64,
    pub refname: String,
    pub sha: String,
    pub kind: TestKind,
}

impl View for Test {
    type V = TrackView<TestKindView>;

    open spec fn view(&self) -> TrackView<TestKindView> {
        TrackView { project_id: self.project_id, refname: self.refname@, sha: self.sha@, kind: self.kind@ }
    }
}

impl Test {
    pub fn init_state(project_id: u64, refname: String, sha: String) -> (r: Self)
        ensures
            r@ == (TrackView { project_id, refname: refname@, sha: sha@, kind: TestKindView::Pending }),
    {
        Test { project_id, refname, sha, kind: TestKind::Pending }
    }

    /// Reads the track back from its record; `parsed` is what the record's
    /// description decodes to, if it decodes.
    pub fn from_commit_status(project_id: u64, commit_status: &CommitStatus, parsed: Option<TestInfo>) -> (r: Result<Self, Error>)
        ensures
            match r {
                Ok(t) => decode_test(project_id, commit_status@, opt_test_view(parsed)) == Ok::<TrackView<TestKindView>, Error>(t@),
                Err(e) => decode_test(project_id, commit_status@, opt_test_view(parsed)) == Err::<TrackView<TestKindView>, Error>(e),
            },
    {
        let kind = match TestKind::from_commit_status(commit_status, parsed) {
            Ok(k) => k,
            Err(e) => return Err(e),
        };
        let refname = match &commit_status.ref_ {
            Some(r) => r.clone(),
            None => return Err(Error::MissingRef),
        };
        Ok(Test { project_id, refname, sha: commit_status.sha.clone(), kind })
    }

    pub fn status_name() -> (r: &'static str)
        ensures
            r@ == test_status_name(),
    {
        "jaba:test"
    }

    pub fn kind(&self) -> (r: &TestKind)
        ensures
            r@ == self@.kind,
    {
        &self.kind
    }

    pub fn info(&self) -> (r: Option<&TestInfo>)
        ensures
            match r {
                Some(i) => test_kind_info(self@.kind) == Some(i@),
                None => test_kind_info(self@.kind) is None,
            },
    {
        self.kind.info()
    }

    pub fn update_kind(&mut self, kind: TestKind)
        ensures
            final(self)@ == (TrackView { kind: kind@, ..old(self)@ }),
    {
        self.kind = kind;
    }
}

impl State for Test {
    open spec fn spec_status_state(&self) -> StatusState {
        test_kind_state(self@.kind)
    }

    open spec fn spec_status_info(&self) -> StatusInfoView {
        test_projection(self@)
    }

    open spec fn spec_project_id(&self) -> u64 {
        self.project_id
    }

    open spec fn spec_sha(&self) -> Seq<char> {
        self.sha@
    }

    fn project_id(&self) -> (r: u64) {
        self.project_id
    }

    fn sha(&self) -> (r: &String) {
        &self.sha
    }

    fn to_status_state(&self) -> (r: StatusState) {
        self.kind.to_status_state()
    }

    fn to_commit_status_info(&self) -> (r: CommitStatusInfo) {
        let (target_url, description) = match self.kind.info() {
            None => (None, None),
            Some(info) => {
                let d = self.kind.desc();
                (Some(info.build_url.clone()), match d {
                    Some(d) => Some(d.clone()),
                    None => None,
                })
            },
        };
        CommitStatusInfo {
            refname: Some(self.refname.clone()),
            name: Some(String::from_str(Test::status_name())),
            target_url,
            description,
        }
    }

    fn need_sync(&self, commit_status: &CommitStatus) -> (r: bool) {
        let info = self.to_commit_status_info();
        need_sync(self.to_status_state(), &info, commit_status)
    }
}

/// An approval kind whose description is the JSON of its info, as every
/// kind built by `new_approved` or read back from a record is.
pub open spec fn approval_kind_canonical(k: ApprovalKindView) -> bool {
    k matches ApprovalKindView::Approved { desc, info } ==> approval_json(info) == Some(desc)
}

/// A test kind whose description is the JSON of its info, as every kind
/// built by the `new_*` constructors or read back from a record is.
pub open spec fn test_kind_canonical(k: TestKindView) -> bool {
    test_kind_payload(k) matches Some(p) ==> p.0 == test_json(p.1)
}

/// Writing an approval track and reading the record back gives the same
/// track, when the description decodes to the info it was written from.
pub proof fn lemma_approval_round_trip(t: TrackView<ApprovalKindView>, id: u64)
    requires
        approval_kind_canonical(t.kind),
    ensures
        decode_approval(
            t.project_id,
            written_record(approval_kind_state(t.kind), approval_projection(t), t.sha, id),
            approval_kind_info(t.kind),
        ) == Ok::<TrackView<ApprovalKindView>, Error>(t),
{
}

/// Writing a test track and reading the record back gives the same track,
/// when the description decodes to the info it was written from.
pub proof fn lemma_test_round_trip(t: TrackView<TestKindView>, id: u64)
    requires
        test_kind_canonical(t.kind),
    ensures
        decode_test(
            t.project_id,
            written_record(test_kind_state(t.kind), test_projection(t), t.sha, id),
            test_kind_info(t.kind),
        ) == Ok::<TrackView<TestKindView>, Error>(t),
{
}

/// A record written from a track never needs syncing against that track.
pub proof fn lemma_written_record_in_sync(state: StatusState, info: StatusInfoView, sha: Seq<char>, id: u64)
    requires
        info.name is Some,
    ensures
        !spec_need_sync(state, info, written_record(state, info, sha, id)),
{
}

} // verus!
