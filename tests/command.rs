use jaba::build_state::{ApprovalInfo, ApprovalKind, Timestamp};
use jaba::text::is_whitespace;
use jaba::command::{reviewer_approval, is_reviewer, parse_command, parse_comments, Command, CommitNote, Member};

fn note(author_id: u64, who: &str, secs: i64, text: &str) -> CommitNote {
    CommitNote {
        author_id,
        author_username: who.to_string(),
        created_at: Timestamp { secs, nanos: 0 },
        note: text.to_string(),
    }
}

#[test]
fn approve_with_priority() {
    assert_eq!(parse_command("@bot r+ p=7 extra", "bot"), Some(Command::Approve(7)));
}

#[test]
fn approve_without_priority() {
    assert_eq!(parse_command("@bot r+", "bot"), Some(Command::Approve(0)));
}

#[test]
fn mention_last_gives_nothing() {
    assert_eq!(parse_command("ok @bot", "bot"), None);
}

#[test]
fn first_mention_wins() {
    assert_eq!(parse_command("@bot r- @bot r+", "bot"), Some(Command::CancelApprove));
}

#[test]
fn priority_edge_cases() {
    assert_eq!(parse_command("@bot r+ p=p=5", "bot"), Some(Command::Approve(0)));
    assert_eq!(parse_command("@bot r+ p=+9", "bot"), Some(Command::Approve(9)));
    assert_eq!(parse_command("@bot r+ p=18446744073709551615", "bot"), Some(Command::Approve(u64::MAX)));
    assert_eq!(parse_command("@bot r+ p=18446744073709551616", "bot"), Some(Command::Approve(0)));
    assert_eq!(parse_command("@bot r+ p=x1", "bot"), Some(Command::Approve(0)));
    assert_eq!(parse_command("@bot r+ 7", "bot"), Some(Command::Approve(0)));
    assert_eq!(parse_command("@bot r+ p=", "bot"), Some(Command::Approve(0)));
}

#[test]
fn other_words_and_spacing() {
    assert_eq!(parse_command("  please\t@bot\n r+   p=3 ", "bot"), Some(Command::Approve(3)));
    assert_eq!(parse_command("@bot retry", "bot"), None);
    assert_eq!(parse_command("@bot", "bot"), None);
    assert_eq!(parse_command("@botty r+", "bot"), None);
    assert_eq!(parse_command("@other r+", "bot"), None);
    assert_eq!(parse_command("", "bot"), None);
}

#[test]
fn last_directive_wins() {
    let cs = vec![
        note(1, "alice", 100, "@bot r+ p=2"),
        note(2, "bob", 200, "looks fine"),
        note(2, "bob", 300, "@bot r+ p=5"),
    ];
    match parse_comments(&cs, "bot") {
        Ok(ApprovalKind::Approved { desc, info }) => {
            assert_eq!(info.priority, 5);
            assert_eq!(info.username, "bob");
            assert_eq!(info.time, Timestamp { secs: 300, nanos: 0 });
            assert_eq!(desc, "{\"priority\":5,\"time\":\"1970-01-01T00:05:00Z\",\"username\":\"bob\"}");
        }
        other => panic!("unexpected {:?}", other),
    }
}

#[test]
fn cancel_after_approve() {
    let cs = vec![note(1, "alice", 100, "@bot r+"), note(1, "alice", 200, "@bot r-")];
    assert!(matches!(parse_comments(&cs, "bot"), Ok(ApprovalKind::NotApproved)));
    assert!(matches!(parse_comments(&Vec::new(), "bot"), Ok(ApprovalKind::NotApproved)));
}

#[test]
fn reviewers_only() {
    let members = vec![
        Member { id: 1, access_level: 40 },
        Member { id: 2, access_level: 30 },
        Member { id: 2, access_level: 50 },
        Member { id: 4, access_level: 30 },
    ];
    assert!(is_reviewer(&members, 1));
    assert!(is_reviewer(&members, 2));
    assert!(!is_reviewer(&members, 3));
    assert!(!is_reviewer(&members, 4));
    let cs = vec![note(1, "alice", 100, "@bot r+ p=1"), note(4, "dev", 200, "@bot r-"), note(3, "guest", 300, "@bot r-")];
    match reviewer_approval(cs, &members, "bot") {
        Ok(ApprovalKind::Approved { info, .. }) => assert_eq!(info.username, "alice"),
        other => panic!("unexpected {:?}", other),
    }
    let cs = vec![note(1, "alice", 100, "@bot r+ p=1"), note(2, "bob", 200, "@bot r-")];
    assert!(matches!(reviewer_approval(cs, &members, "bot"), Ok(ApprovalKind::NotApproved)));
}

#[test]
fn approval_description_escapes() {
    let info = ApprovalInfo { priority: 0, time: Timestamp { secs: 1_500_000_000, nanos: 500_000_000 }, username: "a\"b".to_string() };
    match ApprovalKind::new_approved(info) {
        Ok(ApprovalKind::Approved { desc, .. }) => {
            assert_eq!(desc, "{\"priority\":0,\"time\":\"2017-07-14T02:40:00.500Z\",\"username\":\"a\\\"b\"}");
        }
        other => panic!("unexpected {:?}", other),
    }
}

#[test]
fn approval_time_out_of_range() {
    let info = ApprovalInfo { priority: 1, time: Timestamp { secs: i64::MAX, nanos: 0 }, username: "x".to_string() };
    assert!(ApprovalKind::new_approved(info).is_err());
}

#[test]
fn white_space_as_std_decides() {
    for code in 0u32..0x3100 {
        if let Some(c) = char::from_u32(code) {
            assert_eq!(is_whitespace(c), c.is_whitespace(), "U+{:04X}", code);
        }
    }
    for c in ['\u{feff}', '\u{180e}', '\u{200b}', '\u{10ffff}'] {
        assert_eq!(is_whitespace(c), c.is_whitespace());
    }
}
