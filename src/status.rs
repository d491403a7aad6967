//! Commit-status records and the rules that keep them in step with a track.

use vstd::prelude::*;

verus! {

/// State of a commit-status record (or of a CI build).
#[derive(Clone, Copy, Debug, PartialEq, Eq, Structural)]
pub enum StatusState {
    Pending,
    Running,
    Success,
    Failed,
    Canceled,
}

/// The view of an optional string.
pub open spec fn opt_view(o: Option<String>) -> Option<Seq<char>> {
    match o {
        Some(s) => Some(s@),
        None => None,
    }
}

/// A commit-status record as the review service keeps it.
#[derive(Debug)]
pub struct CommitStatus {
    pub id: u64,
    pub sha: String,
    pub ref_: Option<String>,
    pub status: StatusState,
    pub name: String,
    pub description: Option<String>,
    pub target_url: Option<String>,
}

pub struct CommitStatusView {
    pub id: u64,
    pub sha: Seq<char>,
    pub ref_: Option<Seq<char>>,
    pub status: StatusState,
    pub name: Seq<char>,
    pub description: Option<Seq<char>>,
    pub target_url: Option<Seq<char>>,
}

impl View for CommitStatus {
    type V = CommitStatusView;

    open spec fn view(&self) -> CommitStatusView {
        CommitStatusView {
            id: self.id,
            sha: self.sha@,
            ref_: opt_view(self.ref_),
            status: self.status,
            name: self.name@,
            description: opt_view(self.description),
            target_url: opt_view(self.target_url),
        }
    }
}

impl CommitStatus {
    /// A copy with the same fields.
    pub fn duplicate(&self) -> (r: Self)
        ensures
            r@ == self@,
    {
        CommitStatus {
            id: self.id,
            sha: self.sha.clone(),
            ref_: opt_str_clone(&self.ref_),
            status: self.status,
            name: self.name.clone(),
            description: opt_str_clone(&self.description),
            target_url: opt_str_clone(&self.target_url),
        }
    }
}

/// The fields of a record that a track projects, besides its state.
#[derive(Debug)]
pub struct CommitStatusInfo {
    pub refname: Option<String>,
    pub name: Option<String>,
    pub target_url: Option<String>,
    pub description: Option<String>,
}

pub struct StatusInfoView {
    pub refname: Option<Seq<char>>,
    pub name: Option<Seq<char>>,
    pub target_url: Option<Seq<char>>,
    pub description: Option<Seq<char>>,
}

impl View for CommitStatusInfo {
    type V = StatusInfoView;

    open spec fn view(&self) -> StatusInfoView {
        StatusInfoView {
            refname: opt_view(self.refname),
            name: opt_view(self.name),
            target_url: opt_view(self.target_url),
            description: opt_view(self.description),
        }
    }
}

/// A CI build of a commit.
#[derive(Clone, Copy, Debug, PartialEq, Eq, Structural)]
pub struct Build {
    pub id: u64,
    pub pipeline_id: u64,
    pub status: StatusState,
}

/// Whether a record differs from the projection `(state, info)` in any field.
pub open spec fn spec_need_sync(state: StatusState, info: StatusInfoView, r: CommitStatusView) -> bool {
    ||| state != r.status
    ||| info.refname != r.ref_
    ||| info.name != Some(r.name)
    ||| info.target_url != r.target_url
    ||| info.description != r.description
}

/// Whether going from the record's state `old` to `new` needs a `Canceled`
/// record written first.
pub open spec fn spec_needs_cancel(old: Option<StatusState>, new: StatusState) -> bool {
    match old {
        None => false,
        Some(StatusState::Pending) => new == StatusState::Pending,
        Some(StatusState::Running) => new == StatusState::Pending || new == StatusState::Running,
        Some(StatusState::Success) => new == StatusState::Pending || new == StatusState::Running
            || new == StatusState::Success,
        Some(StatusState::Failed) => new == StatusState::Failed,
        Some(StatusState::Canceled) => false,
    }
}

/// Compares two optional strings by their characters.
pub fn opt_str_eq(a: &Option<String>, b: &Option<String>) -> (r: bool)
    ensures
        r == (opt_view(*a) == opt_view(*b)),
{
    match a {
        Some(x) => match b {
            Some(y) => x.eq(y),
            None => false,
        },
        None => b.is_none(),
    }
}

/// Clones an optional string, keeping its characters.
pub fn opt_str_clone(a: &Option<String>) -> (r: Option<String>)
    ensures
        opt_view(r) == opt_view(*a),
{
    match a {
        Some(x) => Some(x.clone()),
        None => None,
    }
}

/// Whether `record` differs from the projection `(state, info)`.
pub fn need_sync(state: StatusState, info: &CommitStatusInfo, record: &CommitStatus) -> (r: bool)
    ensures
        r == spec_need_sync(state, info@, record@),
{
    if state != record.status {
        return true;
    }
    let name_matches = match &info.name {
        Some(n) => *n == record.name,
        None => false,
    };
    !opt_str_eq(&info.refname, &record.ref_) || !name_matches
        || !opt_str_eq(&info.target_url, &record.target_url)
        || !opt_str_eq(&info.description, &record.description)
}

/// Whether a `Canceled` record must precede the new one.
pub fn needs_cancel(old: Option<StatusState>, new: StatusState) -> (r: bool)
    ensures
        r == spec_needs_cancel(old, new),
{
    match old {
        None => false,
        Some(StatusState::Pending) => new == StatusState::Pending,
        Some(StatusState::Running) => new == StatusState::Pending || new == StatusState::Running,
        Some(StatusState::Success) => new == StatusState::Pending || new == StatusState::Running
            || new == StatusState::Success,
        Some(StatusState::Failed) => new == StatusState::Failed,
        Some(StatusState::Canceled) => false,
    }
}

/// What syncing a track against its recorded status has to write.
#[derive(Clone, Copy, Debug, PartialEq, Eq, Structural)]
pub enum SyncPlan {
    /// The record already matches: nothing to write.
    Keep,
    /// Write the new record, after a `Canceled` one when `cancel_first`.
    Write { cancel_first: bool },
}

pub open spec fn spec_sync_plan(
    existing: Option<CommitStatusView>,
    state: StatusState,
    info: StatusInfoView,
) -> SyncPlan {
    match existing {
        None => SyncPlan::Write { cancel_first: false },
        Some(r) => if !spec_need_sync(state, info, r) {
            SyncPlan::Keep
        } else {
            SyncPlan::Write { cancel_first: spec_needs_cancel(Some(r.status), state) }
        },
    }
}

pub open spec fn opt_status_view(o: Option<&CommitStatus>) -> Option<CommitStatusView> {
    match o {
        Some(r) => Some(r@),
        None => None,
    }
}

/// Decides what to write so that the record for a track matches `(state, info)`.
pub fn sync_plan(existing: Option<&CommitStatus>, state: StatusState, info: &CommitStatusInfo) -> (r: SyncPlan)
    ensures
        r == spec_sync_plan(opt_status_view(existing), state, info@),
{
    match existing {
        None => SyncPlan::Write { cancel_first: false },
        Some(rec) => if !need_sync(state, info, rec) {
            SyncPlan::Keep
        } else {
            SyncPlan::Write { cancel_first: needs_cancel(Some(rec.status), state) }
        },
    }
}

/// Build `bs[k]` is the first build of the last pipeline: no build has a
/// later pipeline, nor an earlier id in the same pipeline.
pub open spec fn is_first_of_last_pipeline(bs: Seq<Build>, k: int) -> bool {
    &&& 0 <= k < bs.len()
    &&& forall|j: int| 0 <= j < bs.len() ==> (#[trigger] bs[j].pipeline_id < bs[k].pipeline_id
        || (bs[j].pipeline_id == bs[k].pipeline_id && bs[j].id >= bs[k].id))
}

/// The lowest record id that belongs to the last pipeline: the id of its
/// first build, or 0 when there are no builds.
pub fn pipeline_floor(builds: &Vec<Build>) -> (r: u64)
    ensures
        builds@.len() == 0 ==> r == 0,
        builds@.len() > 0 ==> exists|k: int| is_first_of_last_pipeline(builds@, k) && r == builds@[k].id,
{
    if builds.len() == 0 {
        return 0;
    }
    let mut best: usize = 0;
    let mut i: usize = 1;
    while i < builds.len()
        invariant
            1 <= i <= builds@.len(),
            best < i,
            forall|j: int| 0 <= j < i ==> (#[trigger] builds@[j].pipeline_id < builds@[best as int].pipeline_id
                || (builds@[j].pipeline_id == builds@[best as int].pipeline_id && builds@[j].id >= builds@[best as int].id)),
        decreases builds.len() - i,
    {
        let b = builds[i];
        let cur = builds[best];
        if b.pipeline_id > cur.pipeline_id || (b.pipeline_id == cur.pipeline_id && b.id < cur.id) {
            best = i;
        }
        i += 1;
    }
    assert(is_first_of_last_pipeline(builds@, best as int));
    builds[best].id
}

/// Record `r` belongs to the last pipeline (id at least `floor`) of ref
/// `refname` and is named `name`.
pub open spec fn kept_record(r: CommitStatusView, floor: u64, refname: Seq<char>, name: Seq<char>) -> bool {
    r.id >= floor && r.ref_ == Some(refname) && r.name == name
}

/// The index of the last record in `ss` that is kept.
pub open spec fn last_kept(ss: Seq<CommitStatusView>, floor: u64, refname: Seq<char>, name: Seq<char>) -> Option<int>
    decreases ss.len(),
{
    if ss.len() == 0 {
        None
    } else if kept_record(ss.last(), floor, refname, name) {
        Some(ss.len() - 1)
    } else {
        last_kept(ss.drop_last(), floor, refname, name)
    }
}

pub open spec fn status_views(ss: Seq<CommitStatus>) -> Seq<CommitStatusView> {
    ss.map_values(|s: CommitStatus| s@)
}

/// The record named `name` for ref `refname` in the last pipeline; the last
/// one listed where there are several.
pub fn last_pipeline_status(floor: u64, statuses: &Vec<CommitStatus>, refname: &str, name: &str) -> (r: Option<CommitStatus>)
    ensures
        match last_kept(status_views(statuses@), floor, refname@, name@) {
            Some(k) => r matches Some(s) && s@ == statuses@[k]@,
            None => r is None,
        },
{
    let ghost ss = status_views(statuses@);
    let mut i: usize = statuses.len();
    assert(ss.take(i as int) =~= ss);
    while i > 0
        invariant
            i <= statuses@.len(),
            ss == status_views(statuses@),
            last_kept(ss, floor, refname@, name@) == last_kept(ss.take(i as int), floor, refname@, name@),
        decreases i,
    {
        let s = &statuses[i - 1];
        let ghost t = ss.take(i as int);
        assert(t.last() == s@);
        assert(t.drop_last() =~= ss.take(i - 1));
        let keep = s.id >= floor && match &s.ref_ {
            Some(rf) => str_eq(rf.as_str(), refname),
            None => false,
        } && str_eq(s.name.as_str(), name);
        if keep {
            return Some(s.duplicate());
        }
        i -= 1;
    }
    None
}

/// Whether two strings hold the same characters.
pub fn str_eq(a: &str, b: &str) -> (r: bool)
    ensures
        r == (a@ == b@),
{
    let n = a.unicode_len();
    if n != b.unicode_len() {
        return false;
    }
    let mut i: usize = 0;
    while i < n
        invariant
            n == a@.len(),
            n == b@.len(),
            i <= n,
            forall|j: int| 0 <= j < i ==> a@[j] == b@[j],
        decreases n - i,
    {
        if a.get_char(i) != b.get_char(i) {
            return false;
        }
        i += 1;
    }
    assert(a@ =~= b@);
    true
}

} // verus!
