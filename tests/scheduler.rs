use jaba::build_state::{ApprovalInfo, ApprovalKind, TestKind, Timestamp};
use jaba::command::{CommitNote, Member};
use jaba::merge_request::{build_verdict, Landing, MergeRequest, MergeRequestInfo, MergeStatus, PipelineState, Progress, State};
use jaba::queue::{approval_lt_exec, Action, ApprovalHeap, Attempt, Queue};
use jaba::status::StatusState::{Canceled, Failed, Pending, Running, Success};
use jaba::status::{Build, StatusState};

fn mr_info(id: u64, status: MergeStatus) -> MergeRequestInfo {
    MergeRequestInfo {
        id,
        source_project_id: 3,
        source_branch: format!("feature-{}", id),
        target_project_id: 4,
        target_branch: "master".to_string(),
        sha: format!("s{}", id),
        title: "Add things".to_string(),
        description: Some("Body text.  \n\n".to_string()),
        merge_status: status,
    }
}

fn approval(p: u64, secs: i64, who: &str) -> ApprovalInfo {
    ApprovalInfo { priority: p, time: Timestamp { secs, nanos: 0 }, username: who.to_string() }
}

fn empty_pipeline() -> Option<PipelineState> {
    Some(PipelineState { approval: None, approval_parsed: None, test: None, test_parsed: None })
}

fn approved_mr(id: u64, p: u64, secs: i64, who: &str) -> MergeRequest {
    let mut mr = MergeRequest::from_gitlab_mr(mr_info(id, MergeStatus::CanBeMerged), empty_pipeline());
    assert_eq!(*mr.state(), State::Init);
    mr.update_approval_status(ApprovalKind::new_approved(approval(p, secs, who)).unwrap());
    let w = mr.sync_commit_status();
    assert_eq!(w.len(), 2);
    mr
}

fn running_mr(id: u64, target: &str) -> MergeRequest {
    let mut mr = approved_mr(id, 1, 100, "alice");
    mr.test_started("https://git.example/g/p", format!("m{}", id), format!("s{}", id), target.to_string());
    mr
}

fn success_mr(id: u64, p: u64, target: &str) -> MergeRequest {
    let mut mr = approved_mr(id, p, 100, "alice");
    mr.test_started("https://git.example/g/p", format!("m{}", id), format!("s{}", id), target.to_string());
    mr.update_test_status(&vec![Build { id: 1, pipeline_id: 1, status: StatusState::Success }]);
    assert_eq!(mr.sync_commit_status().len(), 1);
    assert!(matches!(mr.state(), State::Success(_)));
    mr
}

#[test]
fn tie_break_by_time_then_name() {
    let a = approval(1, 36000, "alice");
    let b = approval(1, 32400, "bob");
    assert!(approval_lt_exec(&a, &b));
    assert!(!approval_lt_exec(&b, &a));
    let mut h: ApprovalHeap<&str> = ApprovalHeap::new();
    h.push(a, "A");
    h.push(b, "B");
    assert_eq!(h.pop().unwrap().1, "B");
    assert_eq!(h.pop().unwrap().1, "A");
    assert!(h.pop().is_none());

    let mut h: ApprovalHeap<&str> = ApprovalHeap::new();
    h.push(approval(1, 32400, "alice"), "A");
    h.push(approval(1, 32400, "bob"), "B");
    h.push(approval(0, 0, "zed"), "Z");
    assert_eq!(h.len(), 3);
    assert_eq!(h.pop().unwrap().1, "B");
    assert_eq!(h.pop().unwrap().1, "A");
    assert_eq!(h.pop().unwrap().1, "Z");
    assert!(h.is_empty());
}

#[test]
fn higher_priority_first() {
    let mut h: ApprovalHeap<u32> = ApprovalHeap::new();
    h.push(approval(1, 0, "a"), 1);
    h.push(approval(9, 500, "a"), 9);
    h.push(approval(3, 0, "a"), 3);
    assert_eq!(h.pop().unwrap().1, 9);
    assert_eq!(h.pop().unwrap().1, 3);
}

#[test]
fn conflict_path() {
    let mut mr = approved_mr(1, 2, 100, "alice");
    assert!(matches!(mr.state(), State::Approved(_)));
    let writes = mr.test_conflicted();
    assert_eq!(mr.test_state.kind, TestKind::Failed(None));
    assert_eq!(*mr.state(), State::Failed(Some(approval(2, 100, "alice"))));
    assert_eq!(writes.len(), 1);
    assert_eq!(writes[0].state, StatusState::Failed);
    assert_eq!(writes[0].info.name.as_deref(), Some("jaba:test"));
    assert_eq!(writes[0].info.description, None);
}

#[test]
fn cannot_be_merged_fails() {
    let mut mr = MergeRequest::from_gitlab_mr(mr_info(1, MergeStatus::CannotBeMerged), empty_pipeline());
    assert_eq!(*mr.state(), State::Failed(None));
    mr.update_approval_status(ApprovalKind::new_approved(approval(2, 100, "alice")).unwrap());
    assert_eq!(*mr.state(), State::Failed(Some(approval(2, 100, "alice"))));
}

#[test]
fn pipeline_unreadable_is_errored() {
    let mr = MergeRequest::from_gitlab_mr(mr_info(1, MergeStatus::Unchecked), None);
    assert_eq!(*mr.state(), State::Errored);
}

#[test]
fn target_moved_mid_test() {
    let mut mr = running_mr(1, "X");
    assert!(matches!(mr.state(), State::Running(_)));
    assert!(mr.update_target_branch(&"X".to_string()).is_empty());
    assert!(matches!(mr.state(), State::Running(_)));
    let writes = mr.update_target_branch(&"Y".to_string());
    assert_eq!(mr.test_state.kind, TestKind::Pending);
    assert!(matches!(mr.state(), State::Approved(_)));
    // Running -> Pending is written after a Canceled record.
    assert_eq!(writes.len(), 2);
    assert_eq!(writes[0].state, StatusState::Canceled);
    assert_eq!(writes[1].state, StatusState::Pending);
}

#[test]
fn trial_details() {
    let mr = running_mr(7, "t7");
    let info = mr.test_state.info().unwrap();
    assert_eq!(info.build_url, "https://git.example/g/p/commit/m7/builds");
    assert_eq!(info.merge_branch, "auto-master");
    assert_eq!(info.target_sha, "t7");
    assert_eq!(mr.trial_refspec(), "+refs/heads/auto-master");
    assert_eq!(mr.land_refspec(), "refs/heads/auto-master:refs/heads/master");
    assert_eq!(
        mr.merge_commit_message("group"),
        "Auto merge of !7 - group:feature-7, r=alice\n\nAdd things\n\nBody text.\n\nSee merge request !7"
    );
}

#[test]
fn ci_verdicts() {
    let b = |s| Build { id: 1, pipeline_id: 1, status: s };
    assert_eq!(build_verdict(&vec![]), Running);
    assert_eq!(build_verdict(&vec![b(Success), b(Pending)]), Running);
    assert_eq!(build_verdict(&vec![b(Failed), b(Running)]), Running);
    assert_eq!(build_verdict(&vec![b(Failed), b(Canceled)]), Canceled);
    assert_eq!(build_verdict(&vec![b(Success), b(Failed)]), Failed);
    assert_eq!(build_verdict(&vec![b(Success), b(Success)]), Success);
}

#[test]
fn retargeted_request_retests() {
    let mut mr = running_mr(1, "X");
    mr.merge_request.target_branch = "release".to_string();
    mr.update_test_status(&vec![Build { id: 1, pipeline_id: 1, status: StatusState::Success }]);
    assert_eq!(mr.test_state.kind, TestKind::Pending);
    assert!(matches!(mr.state(), State::Approved(_)));
}

#[test]
fn success_then_pushed() {
    let mut q = Queue::new("X".to_string());
    q.push(success_mr(1, 1, "X"));
    q.push(approved_mr(2, 9, 100, "bob"));
    let mut mr = match q.next_action() {
        Action::PushMerged(mr) => mr,
        other => panic!("unexpected {:?}", other),
    };
    assert!(matches!(mr.push_merged(&"X".to_string()), Progress::Proceed));
    match mr.merge_branch_fetched(&"m1".to_string()) {
        Landing::Push(refspec) => assert_eq!(refspec, "refs/heads/auto-master:refs/heads/master"),
        Landing::Stopped(_) => panic!("should land"),
    }
    let writes = mr.push_finished(true);
    assert!(mr.merged);
    assert!(matches!(mr.state(), State::Merged(_)));
    // The test record already says Success: nothing is written.
    assert!(writes.is_empty());
    q.settle(mr, Attempt::Advanced);
    assert!(q.tick_over);
    assert!(matches!(q.next_action(), Action::Idle));
    assert_eq!(q.approved.len(), 1);
    assert_eq!(q.merged.len(), 1);
}

#[test]
fn race_loss_on_final_push() {
    let mut q = Queue::new("X".to_string());
    q.push(success_mr(1, 5, "X"));
    q.push(success_mr(2, 1, "X"));
    let mut first = match q.next_action() {
        Action::PushMerged(mr) => mr,
        other => panic!("unexpected {:?}", other),
    };
    assert_eq!(first.merge_request().id, 1);
    assert!(matches!(first.push_merged(&"X".to_string()), Progress::Proceed));
    assert!(matches!(first.merge_branch_fetched(&"m1".to_string()), Landing::Push(_)));
    let writes = first.push_finished(false);
    assert_eq!(first.test_state.kind, TestKind::Pending);
    assert!(matches!(first.state(), State::Approved(_)));
    assert_eq!(writes.len(), 2);
    assert_eq!(writes[0].state, StatusState::Canceled);
    q.settle(first, Attempt::NotAdvanced);
    assert!(!q.tick_over);
    match q.next_action() {
        Action::PushMerged(mr) => assert_eq!(mr.merge_request().id, 2),
        other => panic!("unexpected {:?}", other),
    }
}

#[test]
fn moved_target_stops_landing() {
    let mut mr = success_mr(1, 1, "X");
    match mr.push_merged(&"Y".to_string()) {
        Progress::Stopped(w) => assert_eq!(w.len(), 2),
        Progress::Proceed => panic!("should stop"),
    }
    assert!(matches!(mr.state(), State::Approved(_)));
    let mut mr = success_mr(2, 1, "X");
    assert!(matches!(mr.merge_branch_fetched(&"other".to_string()), Landing::Stopped(_)));
    assert_eq!(mr.test_state.kind, TestKind::Pending);
}

#[test]
fn running_blocks_target() {
    let mut q = Queue::new("X".to_string());
    q.push(running_mr(1, "X"));
    q.push(approved_mr(2, 9, 100, "bob"));
    assert!(matches!(q.next_action(), Action::Idle));
    assert!(q.tick_over);
    assert_eq!(q.running.len(), 1);
    assert_eq!(q.approved.len(), 1);
}

#[test]
fn approved_started_in_merge_order() {
    let mut q = Queue::new("X".to_string());
    q.push(approved_mr(1, 1, 100, "alice"));
    q.push(approved_mr(2, 3, 100, "bob"));
    q.push(MergeRequest::from_gitlab_mr(mr_info(3, MergeStatus::CanBeMerged), empty_pipeline()));
    assert_eq!(q.init.len(), 1);
    let mut mr = match q.next_action() {
        Action::StartTest(mr) => mr,
        other => panic!("unexpected {:?}", other),
    };
    assert_eq!(mr.merge_request().id, 2);
    mr.test_conflicted();
    q.settle(mr, Attempt::NotAdvanced);
    assert_eq!(q.failed.len(), 1);
    let mut mr = match q.next_action() {
        Action::StartTest(mr) => mr,
        other => panic!("unexpected {:?}", other),
    };
    assert_eq!(mr.merge_request().id, 1);
    mr.test_started("https://git.example/g/p", "m1".to_string(), "s1".to_string(), "X".to_string());
    q.settle(mr, Attempt::Advanced);
    assert_eq!(q.running.len(), 1);
    assert!(matches!(q.next_action(), Action::Idle));
}

#[test]
fn errored_attempt_goes_to_errored() {
    let mut q = Queue::new("X".to_string());
    q.push(approved_mr(1, 1, 100, "alice"));
    let mr = match q.next_action() {
        Action::StartTest(mr) => mr,
        other => panic!("unexpected {:?}", other),
    };
    q.settle(mr, Attempt::Errored);
    assert_eq!(q.errored.len(), 1);
    assert!(matches!(q.next_action(), Action::Idle));
    assert!(q.tick_over);
}

#[test]
fn state_names() {
    assert_eq!(State::Init.as_str(), "init");
    assert_eq!(State::Errored.as_str(), "errored");
    assert_eq!(State::Failed(None).as_str(), "failed");
    assert_eq!(TestKind::Pending.as_str(), "pending");
    assert_eq!(TestKind::Failed(None).as_str(), "failed");
    assert_eq!(ApprovalKind::NotApproved.as_str(), "not_approved");
    let mr = approved_mr(1, 1, 100, "alice");
    assert_eq!(mr.state().as_str(), "approved");
    assert_eq!(mr.approval_state.kind().as_str(), "approved");
}

#[test]
fn settled_until_errored() {
    let mut mr = approved_mr(1, 1, 100, "alice");
    assert!(mr.is_settled());
    mr.mark_errored();
    assert_eq!(*mr.state(), State::Errored);
    assert!(!mr.is_settled());
}

#[test]
fn refresh_takes_comments_and_builds() {
    let mut mr = running_mr(1, "X");
    let members = vec![Member { id: 7, access_level: 40 }];
    let comments = vec![CommitNote {
        author_id: 7,
        author_username: "carol".to_string(),
        created_at: Timestamp { secs: 500, nanos: 0 },
        note: "@bot r+ p=4".to_string(),
    }];
    let builds = vec![Build { id: 1, pipeline_id: 1, status: StatusState::Success }];
    let writes = mr.refresh(comments, &members, "bot", &builds).unwrap();
    assert_eq!(*mr.state(), State::Success(approval(4, 500, "carol")));
    assert!(matches!(mr.test_state.kind, TestKind::Success { .. }));
    // Approval Success -> Success with a new description, test Running -> Success.
    assert_eq!(writes.len(), 3);
    assert_eq!(writes[0].state, StatusState::Canceled);
    assert_eq!(writes[1].state, StatusState::Success);
    assert_eq!(writes[2].state, StatusState::Success);
    assert!(mr.sync_commit_status().is_empty());

    let bad = vec![CommitNote {
        author_id: 7,
        author_username: "carol".to_string(),
        created_at: Timestamp { secs: i64::MAX, nanos: 0 },
        note: "@bot r+".to_string(),
    }];
    assert!(mr.refresh(bad, &members, "bot", &Vec::new()).is_err());
    assert_eq!(*mr.state(), State::Errored);
}

#[test]
fn push_files_by_state() {
    let mut q = Queue::new("X".to_string());
    q.push(MergeRequest::from_gitlab_mr(mr_info(1, MergeStatus::CanBeMerged), empty_pipeline()));
    let mut errored = approved_mr(2, 1, 100, "alice");
    errored.mark_errored();
    q.push(errored);
    q.push(MergeRequest::from_gitlab_mr(mr_info(3, MergeStatus::CannotBeMerged), empty_pipeline()));
    assert_eq!(q.init.len(), 1);
    assert_eq!(q.init[0].merge_request().id, 1);
    assert_eq!(q.errored.len(), 1);
    assert_eq!(q.errored[0].merge_request().id, 2);
    assert_eq!(q.failed.len(), 1);
    assert!(q.failed[0].0.is_none());
    assert_eq!(q.approved.len(), 0);
}
