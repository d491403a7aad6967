use jaba::build_state::{Approval, ApprovalInfo, ApprovalKind, Error, State, Test, TestInfo, TestKind, Timestamp};
use jaba::status::StatusState::{Canceled, Failed, Pending, Running, Success};
use jaba::status::{need_sync, needs_cancel, pipeline_floor, last_pipeline_status, sync_plan, Build, CommitStatus, StatusState, SyncPlan};

fn info() -> TestInfo {
    TestInfo {
        build_url: "https://git.example/g/p/commit/m1/builds".to_string(),
        merge_sha: "m1".to_string(),
        merge_branch: "auto-master".to_string(),
        source_project_id: 3,
        source_branch: "feature".to_string(),
        source_sha: "s1".to_string(),
        target_project_id: 4,
        target_branch: "master".to_string(),
        target_sha: "t1".to_string(),
    }
}

fn record_of<T: State>(t: &T, id: u64) -> CommitStatus {
    let i = t.to_commit_status_info();
    CommitStatus {
        id,
        sha: t.sha().clone(),
        ref_: i.refname,
        status: t.to_status_state(),
        name: i.name.unwrap(),
        description: i.description,
        target_url: i.target_url,
    }
}

#[test]
fn test_info_description() {
    assert_eq!(
        jaba::build_state::encode_test_info(&info()),
        "{\"build_url\":\"https://git.example/g/p/commit/m1/builds\",\"merge_sha\":\"m1\",\"merge_branch\":\"auto-master\",\"source_project_id\":3,\"source_branch\":\"feature\",\"source_sha\":\"s1\",\"target_project_id\":4,\"target_branch\":\"master\",\"target_sha\":\"t1\"}"
    );
}

#[test]
fn approval_round_trip() {
    let mut a = Approval::init_state(3, "feature".to_string(), "s1".to_string());
    let ai = ApprovalInfo { priority: 7, time: Timestamp { secs: 60, nanos: 0 }, username: "alice".to_string() };
    a.update_kind(ApprovalKind::new_approved(ai).unwrap());
    let r = record_of(&a, 11);
    assert_eq!(r.status, StatusState::Success);
    assert_eq!(r.name, "jaba:approval");
    assert_eq!(r.target_url, None);
    assert!(!a.need_sync(&r));
    let parsed = ApprovalInfo { priority: 7, time: Timestamp { secs: 60, nanos: 0 }, username: "alice".to_string() };
    let back = Approval::from_commit_status(3, &r, Some(parsed)).unwrap();
    assert_eq!(back.kind, a.kind);
    assert_eq!(back.refname, "feature");
    assert_eq!(back.sha, "s1");

    let fresh = Approval::init_state(3, "feature".to_string(), "s1".to_string());
    let r2 = record_of(&fresh, 12);
    assert_eq!(r2.status, StatusState::Pending);
    assert_eq!(r2.description, None);
    assert_eq!(Approval::from_commit_status(3, &r2, None).unwrap().kind, ApprovalKind::NotApproved);
}

#[test]
fn test_round_trip() {
    let mut t = Test::init_state(3, "feature".to_string(), "s1".to_string());
    for kind in [
        TestKind::new_running(info()).unwrap(),
        TestKind::new_success(info()).unwrap(),
        TestKind::new_failed(info()).unwrap(),
        TestKind::new_canceled(info()).unwrap(),
        TestKind::Failed(None),
        TestKind::Pending,
    ] {
        t.update_kind(kind);
        let r = record_of(&t, 5);
        assert!(!t.need_sync(&r));
        let parsed = t.info().map(|_| info());
        let back = Test::from_commit_status(3, &r, parsed).unwrap();
        assert_eq!(back.kind, t.kind);
    }
}

#[test]
fn test_record_fields() {
    let mut t = Test::init_state(3, "feature".to_string(), "s1".to_string());
    t.update_kind(TestKind::Failed(None));
    let r = record_of(&t, 1);
    assert_eq!(r.status, StatusState::Failed);
    assert_eq!(r.description, None);
    assert_eq!(r.target_url, None);
    t.update_kind(TestKind::new_running(info()).unwrap());
    let r = record_of(&t, 1);
    assert_eq!(r.status, StatusState::Running);
    assert_eq!(r.target_url.as_deref(), Some("https://git.example/g/p/commit/m1/builds"));
    assert_eq!(r.name, "jaba:test");
}

#[test]
fn decode_errors() {
    let mut r = CommitStatus {
        id: 1,
        sha: "s1".to_string(),
        ref_: Some("feature".to_string()),
        status: StatusState::Running,
        name: "jaba:approval".to_string(),
        description: None,
        target_url: None,
    };
    assert_eq!(Approval::from_commit_status(3, &r, None).unwrap_err(), Error::InvalidStatus(StatusState::Running));
    r.status = StatusState::Success;
    assert_eq!(Approval::from_commit_status(3, &r, None).unwrap_err(), Error::MissingDescription);
    r.description = Some("not json".to_string());
    assert_eq!(Approval::from_commit_status(3, &r, None).unwrap_err(), Error::BadDescription);
    r.status = StatusState::Canceled;
    r.description = None;
    assert_eq!(Test::from_commit_status(3, &r, None).unwrap_err(), Error::MissingDescription);
    r.status = StatusState::Pending;
    r.ref_ = None;
    assert_eq!(Test::from_commit_status(3, &r, None).unwrap_err(), Error::MissingRef);
}

#[test]
fn need_sync_per_field() {
    let t = Test::init_state(3, "feature".to_string(), "s1".to_string());
    let base = record_of(&t, 1);
    let i = t.to_commit_status_info();
    assert!(!need_sync(StatusState::Pending, &i, &base));
    assert!(need_sync(StatusState::Running, &i, &base));
    let mut other = record_of(&t, 1);
    other.ref_ = Some("elsewhere".to_string());
    assert!(need_sync(StatusState::Pending, &i, &other));
    let mut other = record_of(&t, 1);
    other.name = "jaba:approval".to_string();
    assert!(need_sync(StatusState::Pending, &i, &other));
    let mut other = record_of(&t, 1);
    other.description = Some("x".to_string());
    assert!(need_sync(StatusState::Pending, &i, &other));
    let mut other = record_of(&t, 1);
    other.target_url = Some("x".to_string());
    assert!(need_sync(StatusState::Pending, &i, &other));
}

#[test]
fn cancel_set() {
    let all = [Pending, Running, Success, Failed, Canceled];
    for new in all {
        assert!(!needs_cancel(None, new));
        assert!(!needs_cancel(Some(Canceled), new));
        assert_eq!(needs_cancel(Some(Pending), new), new == Pending);
        assert_eq!(needs_cancel(Some(Running), new), new == Pending || new == Running);
        assert_eq!(needs_cancel(Some(Success), new), new == Pending || new == Running || new == Success);
        assert_eq!(needs_cancel(Some(Failed), new), new == Failed);
    }
}

#[test]
fn sync_plans() {
    let t = Test::init_state(3, "feature".to_string(), "s1".to_string());
    let i = t.to_commit_status_info();
    assert_eq!(sync_plan(None, StatusState::Pending, &i), SyncPlan::Write { cancel_first: false });
    let rec = record_of(&t, 1);
    assert_eq!(sync_plan(Some(&rec), StatusState::Pending, &i), SyncPlan::Keep);
    let mut stale = record_of(&t, 1);
    stale.description = Some("old".to_string());
    assert_eq!(sync_plan(Some(&stale), StatusState::Pending, &i), SyncPlan::Write { cancel_first: true });
    stale.status = StatusState::Failed;
    assert_eq!(sync_plan(Some(&stale), StatusState::Pending, &i), SyncPlan::Write { cancel_first: false });
}

#[test]
fn last_pipeline_selection() {
    let builds = vec![
        Build { id: 10, pipeline_id: 1, status: StatusState::Success },
        Build { id: 21, pipeline_id: 2, status: StatusState::Success },
        Build { id: 20, pipeline_id: 2, status: StatusState::Running },
    ];
    assert_eq!(pipeline_floor(&builds), 20);
    assert_eq!(pipeline_floor(&Vec::new()), 0);
    let mk = |id: u64, r: &str, name: &str, d: &str| CommitStatus {
        id,
        sha: "s1".to_string(),
        ref_: Some(r.to_string()),
        status: StatusState::Success,
        name: name.to_string(),
        description: Some(d.to_string()),
        target_url: None,
    };
    let statuses = vec![
        mk(15, "feature", "jaba:test", "too old"),
        mk(22, "feature", "jaba:test", "first"),
        mk(23, "other", "jaba:test", "other ref"),
        mk(24, "feature", "jaba:test", "second"),
        mk(25, "feature", "jaba:approval", "approval"),
    ];
    let t = last_pipeline_status(20, &statuses, "feature", "jaba:test").unwrap();
    assert_eq!(t.description.as_deref(), Some("second"));
    let a = last_pipeline_status(20, &statuses, "feature", "jaba:approval").unwrap();
    assert_eq!(a.id, 25);
    assert!(last_pipeline_status(30, &statuses, "feature", "jaba:test").is_none());
}

#[test]
fn decoded_description_is_rewritten() {
    let parsed = ApprovalInfo { priority: 7, time: Timestamp { secs: 60, nanos: 0 }, username: "alice".to_string() };
    let r = CommitStatus {
        id: 1,
        sha: "s1".to_string(),
        ref_: Some("feature".to_string()),
        status: StatusState::Success,
        name: "jaba:approval".to_string(),
        description: Some(" {\"priority\":7,\"time\":\"1970-01-01T00:01:00Z\",\"username\":\"alice\"}".to_string()),
        target_url: None,
    };
    let a = Approval::from_commit_status(3, &r, Some(parsed)).unwrap();
    match &a.kind {
        ApprovalKind::Approved { desc, .. } => {
            assert_eq!(desc, "{\"priority\":7,\"time\":\"1970-01-01T00:01:00Z\",\"username\":\"alice\"}")
        }
        other => panic!("unexpected {:?}", other),
    }
    assert!(a.need_sync(&r));

    let mut t = r;
    t.status = StatusState::Running;
    t.name = "jaba:test".to_string();
    t.description = Some(format!(" {}", jaba::build_state::encode_test_info(&info())));
    let back = Test::from_commit_status(3, &t, Some(info())).unwrap();
    assert_eq!(back.kind, TestKind::new_running(info()).unwrap());
    assert!(back.need_sync(&t));
}
