//! Approval directives addressed to the bot in review comments, and the
//! approval they add up to.

use vstd::prelude::*;
use crate::build_state::{approval_json, ApprovalInfo, ApprovalInfoView, ApprovalKind, ApprovalKindView, Error, Timestamp};
use crate::text::{chars_of, parse_u64, spec_parse_u64, split_words, views, words};

verus! {

/// A directive found in a comment.
#[derive(Clone, Copy, Debug, PartialEq, Eq, Structural)]
pub enum Command {
    /// `r+`, with the priority given by a following `p=<n>` (0 without one).
    Approve(u64),
    /// `r-`.
    CancelApprove,
}

/// The word that addresses the bot: `@` and its login.
pub open spec fn mention(login: Seq<char>) -> Seq<char> {
    seq!['@'] + login
}

/// The index of the first word at or after `i` equal to `m`.
pub open spec fn find_word(ws: Seq<Seq<char>>, m: Seq<char>, i: int) -> Option<int>
    decreases ws.len() - i,
{
    if i < 0 || i >= ws.len() {
        None
    } else if ws[i] == m {
        Some(i)
    } else {
        find_word(ws, m, i + 1)
    }
}

/// The priority a word after `r+` gives: the decimal number that follows
/// its leading `p=`, or 0 when there is no `p=` or what follows it does not
/// parse.
pub open spec fn spec_priority(w: Seq<char>) -> u64 {
    if w.len() >= 2 && w[0] == 'p' && w[1] == '=' {
        match spec_parse_u64(w.subrange(2, w.len() as int)) {
            Some(p) => p,
            None => 0,
        }
    } else {
        0
    }
}

/// The directive in `note` for the bot whose login is `login`: the two words
/// after the first mention of the bot decide it.
pub open spec fn spec_parse_command(note: Seq<char>, login: Seq<char>) -> Option<Command> {
    let ws = words(note);
    match find_word(ws, mention(login), 0) {
        None => None,
        Some(k) => if k + 1 < ws.len() {
            if ws[k + 1] == seq!['r', '+'] {
                Some(Command::Approve(if k + 2 < ws.len() { spec_priority(ws[k + 2]) } else { 0 }))
            } else if ws[k + 1] == seq!['r', '-'] {
                Some(Command::CancelApprove)
            } else {
                None
            }
        } else {
            None
        },
    }
}

fn chars_eq(a: &Vec<char>, b: &Vec<char>) -> (r: bool)
    ensures
        r == (a@ == b@),
{
    if a.len() != b.len() {
        return false;
    }
    let mut i: usize = 0;
    while i < a.len()
        invariant
            a@.len() == b@.len(),
            i <= a@.len(),
            forall|j: int| 0 <= j < i ==> a@[j] == b@[j],
        decreases a.len() - i,
    {
        if a[i] != b[i] {
            return false;
        }
        i += 1;
    }
    assert(a@ =~= b@);
    true
}

fn is_two(w: &Vec<char>, x: char, y: char) -> (r: bool)
    ensures
        r == (w@ == seq![x, y]),
{
    let r = w.len() == 2 && w[0] == x && w[1] == y;
    if r {
        assert(w@ =~= seq![x, y]);
    }
    r
}

fn priority_of(w: &Vec<char>) -> (r: u64)
    ensures
        r == spec_priority(w@),
{
    if !(w.len() >= 2 && w[0] == 'p' && w[1] == '=') {
        return 0;
    }
    let n = w.len();
    let i: usize = 2;
    let mut rest: Vec<char> = Vec::new();
    let mut j: usize = i;
    while j < n
        invariant
            n == w@.len(),
            i <= j <= n,
            rest@ == w@.subrange(i as int, j as int),
        decreases n - j,
    {
        rest.push(w[j]);
        j += 1;
        assert(rest@ =~= w@.subrange(i as int, j as int));
    }
    match parse_u64(&rest) {
        Some(p) => p,
        None => 0,
    }
}

/// The directive that `command` addresses to the bot logged in as `me`.
pub fn parse_command(command: &str, me: &str) -> (r: Option<Command>)
    ensures
        r == spec_parse_command(command@, me@),
{
    let chars = chars_of(command);
    let ws = split_words(&chars);
    let mut m: Vec<char> = vec!['@'];
    let login = chars_of(me);
    let mut t: usize = 0;
    while t < login.len()
        invariant
            t <= login@.len(),
            m@ == seq!['@'] + login@.take(t as int),
        decreases login.len() - t,
    {
        m.push(login[t]);
        t += 1;
        assert(m@ =~= seq!['@'] + login@.take(t as int));
    }
    assert(login@.take(t as int) =~= login@);
    let ghost wv = views(ws@);
    assert(wv == words(command@));
    let mut k: usize = 0;
    let mut found = false;
    while k < ws.len() && !found
        invariant
            wv == views(ws@),
            m@ == mention(me@),
            k <= ws@.len(),
            found ==> k < ws@.len() && find_word(wv, m@, 0) == Some(k as int),
            !found ==> find_word(wv, m@, 0) == find_word(wv, m@, k as int),
        decreases ws.len() - k + (if found { 0int } else { 1int }),
    {
        if chars_eq(&ws[k], &m) {
            found = true;
        } else {
            k += 1;
        }
    }
    if !found || ws.len() - k < 2 {
        return None;
    }
    let next = &ws[k + 1];
    assert(wv[k + 1] == next@);
    if is_two(next, 'r', '+') {
        let p = if k + 2 < ws.len() {
            assert(wv[k + 2] == ws@[k + 2]@);
            priority_of(&ws[k + 2])
        } else {
            0
        };
        Some(Command::Approve(p))
    } else if is_two(next, 'r', '-') {
        Some(Command::CancelApprove)
    } else {
        None
    }
}

/// A review comment on a commit.
#[derive(Debug)]
pub struct CommitNote {
    pub author_id: u64,
    pub author_username: String,
    pub created_at: Timestamp,
    pub note: String,
}

pub struct CommitNoteView {
    pub author_id: u64,
    pub author_username: Seq<char>,
    pub created_at: Timestamp,
    pub note: Seq<char>,
}

impl View for CommitNote {
    type V = CommitNoteView;

    open spec fn view(&self) -> CommitNoteView {
        CommitNoteView {
            author_id: self.author_id,
            author_username: self.author_username@,
            created_at: self.created_at,
            note: self.note@,
        }
    }
}

pub open spec fn note_views(cs: Seq<CommitNote>) -> Seq<CommitNoteView> {
    cs.map_values(|c: CommitNote| c@)
}

/// The approval comment `c` grants with priority `p`.
pub open spec fn approval_by(c: CommitNoteView, p: u64) -> ApprovalInfoView {
    ApprovalInfoView { priority: p, time: c.created_at, username: c.author_username }
}

/// The approval left standing by the comments `cs`, in order: each `r+`
/// replaces it and each `r-` clears it.
pub open spec fn fold_directives(cs: Seq<CommitNoteView>, login: Seq<char>) -> Option<ApprovalInfoView>
    decreases cs.len(),
{
    if cs.len() == 0 {
        None
    } else {
        let c = cs.last();
        match spec_parse_command(c.note, login) {
            None => fold_directives(cs.drop_last(), login),
            Some(Command::Approve(p)) => Some(approval_by(c, p)),
            Some(Command::CancelApprove) => None,
        }
    }
}

/// The index of the last comment of `cs` that holds a directive.
pub open spec fn last_directive(cs: Seq<CommitNoteView>, login: Seq<char>) -> Option<int>
    decreases cs.len(),
{
    if cs.len() == 0 {
        None
    } else if spec_parse_command(cs.last().note, login) is Some {
        Some(cs.len() - 1)
    } else {
        last_directive(cs.drop_last(), login)
    }
}

/// The approval is decided by the last directive alone: none, or an `r-`,
/// leaves the request unapproved; an `r+` approves it as that comment says.
pub proof fn lemma_last_directive_wins(cs: Seq<CommitNoteView>, login: Seq<char>)
    ensures
        fold_directives(cs, login) == match last_directive(cs, login) {
            None => None,
            Some(i) => match spec_parse_command(cs[i].note, login) {
                Some(Command::Approve(p)) => Some(approval_by(cs[i], p)),
                _ => None,
            },
        },
        last_directive(cs, login) matches Some(i) ==> 0 <= i < cs.len()
            && forall|j: int| i < j < cs.len() ==> spec_parse_command(#[trigger] cs[j].note, login) is None,
    decreases cs.len(),
{
    if cs.len() > 0 && spec_parse_command(cs.last().note, login) is None {
        let p = cs.drop_last();
        lemma_last_directive_wins(p, login);
        if let Some(i) = last_directive(p, login) {
            assert(p[i] == cs[i]);
            assert forall|j: int| i < j < cs.len() implies spec_parse_command(#[trigger] cs[j].note, login) is None by {
                if j < cs.len() - 1 {
                    assert(p[j] == cs[j]);
                }
            }
        }
    }
}

/// The approval that the comments add up to, for the bot logged in as `me`.
pub fn parse_comments(comments: &Vec<CommitNote>, me: &str) -> (r: Result<ApprovalKind, Error>)
    ensures
        match fold_directives(note_views(comments@), me@) {
            None => r matches Ok(k) && k@ == ApprovalKindView::NotApproved,
            Some(i) => match approval_json(i) {
                Some(j) => r matches Ok(k) && k@ == (ApprovalKindView::Approved { desc: j, info: i }),
                None => r == Err::<ApprovalKind, Error>(Error::TimeOutOfRange),
            },
        },
{
    let ghost cs = note_views(comments@);
    let mut best: Option<(usize, u64)> = None;
    let mut i: usize = 0;
    while i < comments.len()
        invariant
            cs == note_views(comments@),
            i <= comments@.len(),
            fold_directives(cs.take(i as int), me@) == match best {
                None => None,
                Some((j, p)) => Some(approval_by(cs[j as int], p)),
            },
            best matches Some((j, _)) ==> j < i,
        decreases comments.len() - i,
    {
        let ghost t = cs.take(i as int + 1);
        assert(t.drop_last() =~= cs.take(i as int));
        assert(t.last() == comments@[i as int]@);
        match parse_command(comments[i].note.as_str(), me) {
            None => {},
            Some(Command::Approve(p)) => {
                best = Some((i, p));
            },
            Some(Command::CancelApprove) => {
                best = None;
            },
        }
        i += 1;
    }
    assert(cs.take(i as int) =~= cs);
    match best {
        None => Ok(ApprovalKind::NotApproved),
        Some((j, p)) => {
            let c = &comments[j];
            let info = ApprovalInfo { priority: p, time: c.created_at, username: c.author_username.clone() };
            ApprovalKind::new_approved(info)
        },
    }
}

/// A member of a project or group, with its access level.
#[derive(Clone, Copy, Debug, PartialEq, Eq, Structural)]
pub struct Member {
    pub id: u64,
    pub access_level: u64,
}

/// The access level from which a member may approve requests.
pub const MASTER_ACCESS: u64 = 40;

/// Whether user `id` may approve: some entry for it, among the project's
/// and the group's members, has master access or more.
pub open spec fn spec_is_reviewer(members: Seq<Member>, id: u64) -> bool {
    exists|i: int| 0 <= i < members.len() && #[trigger] members[i].id == id && members[i].access_level >= MASTER_ACCESS
}

/// Whether user `id` may approve: some entry for it, among the project's
/// and the group's members, has master access or more.
pub fn is_reviewer(members: &Vec<Member>, id: u64) -> (r: bool)
    ensures
        r == spec_is_reviewer(members@, id),
{
    let mut i: usize = 0;
    while i < members.len()
        invariant
            i <= members@.len(),
            forall|j: int| 0 <= j < i ==> !(#[trigger] members@[j].id == id && members@[j].access_level >= MASTER_ACCESS),
        decreases members.len() - i,
    {
        if members[i].id == id && members[i].access_level >= MASTER_ACCESS {
            return true;
        }
        i += 1;
    }
    false
}

/// The comments whose author may approve.
pub open spec fn reviewer_notes(cs: Seq<CommitNoteView>, members: Seq<Member>) -> Seq<CommitNoteView> {
    cs.filter(|c: CommitNoteView| spec_is_reviewer(members, c.author_id))
}

/// When every comment that holds a directive is by a member who may approve,
/// keeping only such members' comments leaves the approval unchanged.
pub proof fn lemma_reviewer_comments_fold(cs: Seq<CommitNoteView>, members: Seq<Member>, login: Seq<char>)
    requires
        forall|i: int| 0 <= i < cs.len() && (#[trigger] spec_parse_command(cs[i].note, login)) is Some
            ==> spec_is_reviewer(members, cs[i].author_id),
    ensures
        fold_directives(reviewer_notes(cs, members), login) == fold_directives(cs, login),
    decreases cs.len(),
{
    reveal(Seq::filter);
    if cs.len() > 0 {
        let p = cs.drop_last();
        assert forall|i: int| 0 <= i < p.len() && (#[trigger] spec_parse_command(p[i].note, login)) is Some
            implies spec_is_reviewer(members, p[i].author_id) by {
            assert(p[i] == cs[i]);
        }
        lemma_reviewer_comments_fold(p, members, login);
        let f = reviewer_notes(cs, members);
        let c = cs.last();
        assert(spec_parse_command(cs[cs.len() - 1].note, login) is Some ==> spec_is_reviewer(members, c.author_id));
        if spec_is_reviewer(members, c.author_id) {
            assert(f == reviewer_notes(p, members).push(c));
            assert(f.drop_last() =~= reviewer_notes(p, members));
        } else {
            assert(f == reviewer_notes(p, members));
        }
    }
}

/// The approval that the comments of members who may approve add up to.
pub fn reviewer_approval(comments: Vec<CommitNote>, members: &Vec<Member>, me: &str) -> (r: Result<ApprovalKind, Error>)
    ensures
        match fold_directives(reviewer_notes(note_views(comments@), members@), me@) {
            None => r matches Ok(k) && k@ == ApprovalKindView::NotApproved,
            Some(i) => match approval_json(i) {
                Some(j) => r matches Ok(k) && k@ == (ApprovalKindView::Approved { desc: j, info: i }),
                None => r == Err::<ApprovalKind, Error>(Error::TimeOutOfRange),
            },
        },
{
    let ghost all = note_views(comments@);
    let ghost pred = |c: CommitNoteView| spec_is_reviewer(members@, c.author_id);
    let mut kept: Vec<CommitNote> = Vec::new();
    let mut rest = comments;
    let n = rest.len();
    let mut i: usize = 0;
    proof {
        reveal(Seq::filter);
        assert(all.take(0).filter(pred) =~= Seq::<CommitNoteView>::empty());
    }
    while rest.len() > 0
        invariant
            all.len() == n,
            all == note_views(comments@),
            pred == (|c: CommitNoteView| spec_is_reviewer(members@, c.author_id)),
            i + rest@.len() == n,
            note_views(rest@) == all.skip(i as int),
            note_views(kept@) == all.take(i as int).filter(pred),
        decreases rest.len(),
    {
        let ghost before = note_views(rest@);
        let ghost old_rest = rest@;
        let c = rest.remove(0);
        assert(c == old_rest[0]);
        assert(before[0] == old_rest[0]@);
        assert(all.skip(i as int)[0] == all[i as int]);
        assert(c@ == all[i as int]);
        assert(rest@ =~= old_rest.subrange(1, old_rest.len() as int));
        assert(note_views(rest@) =~= all.skip(i as int + 1)) by {
            assert forall|k: int| 0 <= k < rest@.len() implies note_views(rest@)[k] == all.skip(i as int + 1)[k] by {
                assert(note_views(rest@)[k] == rest@[k]@);
                assert(rest@[k] == old_rest[k + 1]);
                assert(before[k + 1] == old_rest[k + 1]@);
                assert(all.skip(i as int)[k + 1] == all.skip(i as int + 1)[k]);
            }
        }
        let ghost t = all.take(i as int + 1);
        assert(t.drop_last() =~= all.take(i as int));
        let ghost kv = note_views(kept@);
        assert(t.last() == c@);
        assert(pred(t.last()) == spec_is_reviewer(members@, c.author_id));
        reveal(Seq::filter);
        assert(t.filter(pred) == if pred(t.last()) {
            t.drop_last().filter(pred).push(t.last())
        } else {
            t.drop_last().filter(pred)
        });
        if is_reviewer(members, c.author_id) {
            kept.push(c);
            assert(note_views(kept@) =~= kv.push(t.last()));
        } else {
            assert(note_views(kept@) =~= kv);
        }
        i += 1;
    }
    assert(all.take(i as int) =~= all);
    parse_comments(&kept, me)
}

} // verus!
