//! The per-target-branch queue: requests sorted into buckets by state, the
//! merge order among approved requests, and the rule that advances at most
//! one request per tick.

use vstd::prelude::*;
use crate::build_state::{time_lt, ApprovalInfo, ApprovalInfoView};
use crate::build_state::opt_approval_view;
use crate::merge_request::{MergeRequest, State, StateView};

verus! {

/// `a` sorts before `b` by character codes.
pub open spec fn lex_lt(a: Seq<char>, b: Seq<char>) -> bool
    decreases a.len(),
{
    if b.len() == 0 {
        false
    } else if a.len() == 0 {
        true
    } else if a[0] != b[0] {
        a[0] < b[0]
    } else {
        lex_lt(a.drop_first(), b.drop_first())
    }
}

/// `a` is merged after `b`: lower priority; or the same priority and a later
/// approval; or both the same and a lexicographically smaller approver.
pub open spec fn approval_lt(a: ApprovalInfoView, b: ApprovalInfoView) -> bool {
    ||| a.priority < b.priority
    ||| (a.priority == b.priority && time_lt(b.time, a.time))
    ||| (a.priority == b.priority && a.time == b.time && lex_lt(a.username, b.username))
}

proof fn lemma_lex_lt_irreflexive(a: Seq<char>)
    ensures
        !lex_lt(a, a),
    decreases a.len(),
{
    if a.len() > 0 {
        lemma_lex_lt_irreflexive(a.drop_first());
    }
}

proof fn lemma_lex_lt_transitive(a: Seq<char>, b: Seq<char>, c: Seq<char>)
    requires
        lex_lt(a, b),
        lex_lt(b, c),
    ensures
        lex_lt(a, c),
    decreases a.len(),
{
    if a.len() > 0 && b.len() > 0 && c.len() > 0 && a[0] == b[0] && b[0] == c[0] {
        lemma_lex_lt_transitive(a.drop_first(), b.drop_first(), c.drop_first());
    }
}

/// The merge order is a strict order.
pub proof fn lemma_approval_order(a: ApprovalInfoView, b: ApprovalInfoView, c: ApprovalInfoView)
    ensures
        !approval_lt(a, a),
        approval_lt(a, b) && approval_lt(b, c) ==> approval_lt(a, c),
{
    lemma_lex_lt_irreflexive(a.username);
    if approval_lt(a, b) && approval_lt(b, c) {
        if a.priority == b.priority && b.priority == c.priority && a.time == b.time && b.time == c.time {
            lemma_lex_lt_transitive(a.username, b.username, c.username);
        }
    }
}

fn str_lt(a: &str, b: &str) -> (r: bool)
    ensures
        r == lex_lt(a@, b@),
{
    let n = a.unicode_len();
    let m = b.unicode_len();
    let mut i: usize = 0;
    assert(a@.skip(0) =~= a@);
    assert(b@.skip(0) =~= b@);
    while i < n && i < m
        invariant
            n == a@.len(),
            m == b@.len(),
            i <= n,
            i <= m,
            lex_lt(a@, b@) == lex_lt(a@.skip(i as int), b@.skip(i as int)),
        decreases n - i,
    {
        let x = a.get_char(i);
        let y = b.get_char(i);
        if x != y {
            return x < y;
        }
        assert(a@.skip(i as int).drop_first() =~= a@.skip(i as int + 1));
        assert(b@.skip(i as int).drop_first() =~= b@.skip(i as int + 1));
        i += 1;
    }
    i < m
}

/// Whether `a` is merged after `b`.
pub fn approval_lt_exec(a: &ApprovalInfo, b: &ApprovalInfo) -> (r: bool)
    ensures
        r == approval_lt(a@, b@),
{
    if a.priority != b.priority {
        return a.priority < b.priority;
    }
    if a.time.secs != b.time.secs || a.time.nanos != b.time.nanos {
        return b.time.secs < a.time.secs || (b.time.secs == a.time.secs && b.time.nanos < a.time.nanos);
    }
    str_lt(a.username.as_str(), b.username.as_str())
}

/// Entries keyed by approval; `pop` hands out the one merged first.
#[derive(Debug)]
pub struct ApprovalHeap<T> {
    items: Vec<(ApprovalInfo, T)>,
}

impl<T> ApprovalHeap<T> {
    /// The entries, keys by their view, in no particular order.
    pub closed spec fn view(&self) -> Seq<(ApprovalInfoView, T)> {
        self.items@.map_values(|p: (ApprovalInfo, T)| (p.0@, p.1))
    }

    pub fn new() -> (r: Self)
        ensures
            r.view().len() == 0,
    {
        let r = ApprovalHeap { items: Vec::new() };
        assert(r.view() =~= Seq::<(ApprovalInfoView, T)>::empty());
        r
    }

    pub fn len(&self) -> (r: usize)
        ensures
            r == self.view().len(),
    {
        self.items.len()
    }

    pub fn is_empty(&self) -> (r: bool)
        ensures
            r == (self.view().len() == 0),
    {
        self.items.len() == 0
    }

    pub fn push(&mut self, key: ApprovalInfo, value: T)
        ensures
            final(self).view() == old(self).view().push((key@, value)),
    {
        let ghost v0 = self.view();
        self.items.push((key, value));
        assert(self.view() =~= v0.push((key@, value)));
    }

    /// Removes and returns the entry merged first: no remaining entry sorts
    /// after it.
    pub fn pop(&mut self) -> (r: Option<(ApprovalInfo, T)>)
        ensures
            old(self).view().len() == 0 ==> r is None && final(self).view() == old(self).view(),
            old(self).view().len() > 0 ==> (r matches Some(e) && exists|k: int| {
                &&& 0 <= k < old(self).view().len()
                &&& old(self).view()[k] == (e.0@, e.1)
                &&& final(self).view() == old(self).view().remove(k)
            }),
            r matches Some(e) ==> forall|j: int| 0 <= j < old(self).view().len()
                ==> !approval_lt(e.0@, #[trigger] old(self).view()[j].0),
    {
        let ghost v0 = self.view();
        let n = self.items.len();
        if n == 0 {
            return None;
        }
        let mut best: usize = 0;
        let mut i: usize = 1;
        proof {
            lemma_approval_order(v0[0].0, v0[0].0, v0[0].0);
        }
        while i < n
            invariant
                n == self.items@.len(),
                v0 == self.view(),
                1 <= i <= n,
                best < i,
                forall|j: int| 0 <= j < i ==> !approval_lt(v0[best as int].0, #[trigger] v0[j].0),
            decreases n - i,
        {
            assert(v0[i as int].0 == self.items@[i as int].0@);
            assert(v0[best as int].0 == self.items@[best as int].0@);
            if approval_lt_exec(&self.items[best].0, &self.items[i].0) {
                proof {
                    assert forall|j: int| 0 <= j < i + 1 implies !approval_lt(v0[i as int].0, #[trigger] v0[j].0) by {
                        lemma_approval_order(v0[best as int].0, v0[i as int].0, v0[j].0);
                        lemma_approval_order(v0[i as int].0, v0[i as int].0, v0[i as int].0);
                    }
                }
                best = i;
            }
            i += 1;
        }
        let e = self.items.remove(best);
        assert(self.view() =~= v0.remove(best as int));
        assert(v0[best as int] == (e.0@, e.1));
        Some(e)
    }
}

/// The bucket of a queue a request of a given state goes to.
#[derive(Clone, Copy, Debug, PartialEq, Eq, Structural)]
pub enum Bucket {
    Errored,
    Init,
    Approved,
    Running,
    Success,
    Merged,
    Failed,
}

pub open spec fn bucket_of(s: StateView) -> Bucket {
    match s {
        StateView::Init => Bucket::Init,
        StateView::Approved(_) => Bucket::Approved,
        StateView::Running(_) => Bucket::Running,
        StateView::Success(_) => Bucket::Success,
        StateView::Merged(_) => Bucket::Merged,
        StateView::Failed(_) => Bucket::Failed,
        StateView::Errored => Bucket::Errored,
    }
}

/// How many requests each bucket holds, and whether the tick is over.
pub struct QueueCounts {
    pub errored: nat,
    pub init: nat,
    pub approved: nat,
    pub running: nat,
    pub success: nat,
    pub merged: nat,
    pub failed: nat,
    pub tick_over: bool,
}

pub open spec fn counts_add(c: QueueCounts, b: Bucket) -> QueueCounts {
    match b {
        Bucket::Errored => QueueCounts { errored: c.errored + 1, ..c },
        Bucket::Init => QueueCounts { init: c.init + 1, ..c },
        Bucket::Approved => QueueCounts { approved: c.approved + 1, ..c },
        Bucket::Running => QueueCounts { running: c.running + 1, ..c },
        Bucket::Success => QueueCounts { success: c.success + 1, ..c },
        Bucket::Merged => QueueCounts { merged: c.merged + 1, ..c },
        Bucket::Failed => QueueCounts { failed: c.failed + 1, ..c },
    }
}

pub open spec fn total(c: QueueCounts) -> nat {
    c.errored + c.init + c.approved + c.running + c.success + c.merged + c.failed
}

/// What the scheduler asks the caller to do with a request.
#[derive(Debug)]
pub enum Action {
    /// Land this tested request (`push_merged` and the steps after it).
    PushMerged(MergeRequest),
    /// Build and push a trial merge of this approved request.
    StartTest(MergeRequest),
    /// Nothing more to do this tick.
    Idle,
}

#[derive(Clone, Copy, Debug, PartialEq, Eq, Structural)]
pub enum ActionKind {
    PushMerged,
    StartTest,
    Idle,
}

pub open spec fn action_kind(a: &Action) -> ActionKind {
    match a {
        Action::PushMerged(_) => ActionKind::PushMerged,
        Action::StartTest(_) => ActionKind::StartTest,
        Action::Idle => ActionKind::Idle,
    }
}

/// How the attempt on a handed-out request ended.
#[derive(Clone, Copy, Debug, PartialEq, Eq, Structural)]
pub enum Attempt {
    /// It was landed, or its trial was started.
    Advanced,
    /// It was not (a moved target, a refused push, a conflict).
    NotAdvanced,
    /// The attempt failed with an error.
    Errored,
}

/// The scheduler's choice: land a tested request first; while one is being
/// tested, wait; else start testing the first approved request.
pub open spec fn spec_next_action(c: QueueCounts) -> (ActionKind, QueueCounts) {
    if c.tick_over {
        (ActionKind::Idle, c)
    } else if c.success > 0 {
        (ActionKind::PushMerged, QueueCounts { success: (c.success - 1) as nat, ..c })
    } else if c.running > 0 {
        (ActionKind::Idle, QueueCounts { tick_over: true, ..c })
    } else if c.approved > 0 {
        (ActionKind::StartTest, QueueCounts { approved: (c.approved - 1) as nat, ..c })
    } else {
        (ActionKind::Idle, QueueCounts { tick_over: true, ..c })
    }
}

/// The queue once a handed-out request, now in a state of bucket `landing`,
/// comes back after attempt `a`.
pub open spec fn spec_settle(c: QueueCounts, landing: Bucket, a: Attempt) -> QueueCounts {
    match a {
        Attempt::Errored => counts_add(c, Bucket::Errored),
        Attempt::Advanced => QueueCounts { tick_over: true, ..counts_add(c, landing) },
        Attempt::NotAdvanced => counts_add(c, landing),
    }
}

/// Runs a tick from `c`, each handed-out request coming back as `rounds`
/// says; gives the final counts and how many requests advanced.
pub open spec fn run_tick(c: QueueCounts, rounds: Seq<(Bucket, Attempt)>) -> (QueueCounts, nat)
    decreases rounds.len(),
{
    let (a, c1) = spec_next_action(c);
    if a == ActionKind::Idle || rounds.len() == 0 {
        (c1, 0)
    } else {
        let c2 = spec_settle(c1, rounds[0].0, rounds[0].1);
        let (c3, n) = run_tick(c2, rounds.drop_first());
        (c3, n + if rounds[0].1 == Attempt::Advanced { 1nat } else { 0nat })
    }
}

/// Whatever the attempts bring, a tick advances at most one request, and
/// none at all once the tick is over.
pub proof fn lemma_one_advance_per_tick(c: QueueCounts, rounds: Seq<(Bucket, Attempt)>)
    ensures
        run_tick(c, rounds).1 <= 1,
        c.tick_over ==> run_tick(c, rounds).1 == 0,
    decreases rounds.len(),
{
    let (a, c1) = spec_next_action(c);
    if a != ActionKind::Idle && rounds.len() > 0 {
        let c2 = spec_settle(c1, rounds[0].0, rounds[0].1);
        lemma_one_advance_per_tick(c2, rounds.drop_first());
    }
}

/// Handing out a request and taking it back keeps every request counted
/// in exactly one bucket.
pub proof fn lemma_requests_kept(c: QueueCounts, landing: Bucket, a: Attempt)
    ensures
        spec_next_action(c).0 != ActionKind::Idle ==> total(spec_settle(spec_next_action(c).1, landing, a)) == total(c),
        spec_next_action(c).0 == ActionKind::Idle ==> total(spec_next_action(c).1) == total(c),
{
}

/// `m` was taken from `entries` at an index whose key is merged first, and
/// `rest` is what remains, in the same order.
pub open spec fn picked<T>(entries: Seq<(ApprovalInfoView, T)>, rest: Seq<(ApprovalInfoView, T)>, m: T) -> bool {
    exists|k: int| {
        &&& 0 <= k < entries.len()
        &&& entries[k].1 == m
        &&& rest == entries.remove(k)
        &&& forall|j: int| 0 <= j < entries.len() ==> !approval_lt(entries[k].0, #[trigger] entries[j].0)
    }
}

/// The approval a state carries, if any.
pub open spec fn state_key(s: StateView) -> Option<ApprovalInfoView> {
    match s {
        StateView::Approved(a) => Some(a),
        StateView::Running(a) => Some(a),
        StateView::Success(a) => Some(a),
        StateView::Merged(a) => Some(a),
        StateView::Failed(o) => o,
        _ => None,
    }
}

/// Every bucket of `new` but the one `b` names (if any) holds what it did
/// in `old`, and the target is the same.
pub open spec fn same_except(old: &Queue, new: &Queue, b: Option<Bucket>) -> bool {
    &&& new.target_sha@ == old.target_sha@
    &&& b != Some(Bucket::Errored) ==> new.errored@ == old.errored@
    &&& b != Some(Bucket::Init) ==> new.init@ == old.init@
    &&& b != Some(Bucket::Approved) ==> new.approved.view() == old.approved.view()
    &&& b != Some(Bucket::Running) ==> new.running.view() == old.running.view()
    &&& b != Some(Bucket::Success) ==> new.success.view() == old.success.view()
    &&& b != Some(Bucket::Merged) ==> new.merged@ == old.merged@
    &&& b != Some(Bucket::Failed) ==> new.failed@ == old.failed@
}

/// `new` is `old` with `mr` added at the end of the bucket of its state,
/// under the approval it carries.
pub open spec fn filed(old: &Queue, new: &Queue, mr: MergeRequest) -> bool {
    let b = bucket_of(mr.state@);
    &&& same_except(old, new, Some(b))
    &&& match b {
        Bucket::Errored => new.errored@ == old.errored@.push(mr),
        Bucket::Init => new.init@ == old.init@.push(mr),
        Bucket::Approved => new.approved.view() == old.approved.view().push((state_key(mr.state@)->0, mr)),
        Bucket::Running => new.running.view() == old.running.view().push((state_key(mr.state@)->0, mr)),
        Bucket::Success => new.success.view() == old.success.view().push((state_key(mr.state@)->0, mr)),
        Bucket::Merged => new.merged@ == old.merged@.push(mr),
        Bucket::Failed => {
            &&& new.failed@.len() == old.failed@.len() + 1
            &&& new.failed@.drop_last() == old.failed@
            &&& new.failed@.last().1 == mr
            &&& opt_approval_view(new.failed@.last().0) == state_key(mr.state@)
        },
    }
}

/// A request that may be queued: one that is approved or tested agrees
/// with its tracks.
pub open spec fn fits(m: MergeRequest) -> bool {
    (m.state@ is Approved || m.state@ is Success) ==> m.settled()
}

/// The requests of one target branch, sorted by state.
#[derive(Debug)]
pub struct Queue {
    /// The target branch's tip.
    pub target_sha: String,
    pub errored: Vec<MergeRequest>,
    pub init: Vec<MergeRequest>,
    pub approved: ApprovalHeap<MergeRequest>,
    pub running: ApprovalHeap<MergeRequest>,
    pub success: ApprovalHeap<MergeRequest>,
    pub merged: Vec<MergeRequest>,
    pub failed: Vec<(Option<ApprovalInfo>, MergeRequest)>,
    /// Set once this tick has nothing more to do.
    pub tick_over: bool,
}

impl Queue {
    /// Each request waiting to be tested or landed agrees with its tracks.
    pub open spec fn wf(&self) -> bool {
        &&& forall|j: int| 0 <= j < self.approved.view().len()
            ==> (#[trigger] self.approved.view()[j]).1.state@ is Approved && self.approved.view()[j].1.settled()
        &&& forall|j: int| 0 <= j < self.success.view().len()
            ==> (#[trigger] self.success.view()[j]).1.state@ is Success && self.success.view()[j].1.settled()
    }

    pub open spec fn counts(&self) -> QueueCounts {
        QueueCounts {
            errored: self.errored@.len(),
            init: self.init@.len(),
            approved: self.approved.view().len(),
            running: self.running.view().len(),
            success: self.success.view().len(),
            merged: self.merged@.len(),
            failed: self.failed@.len(),
            tick_over: self.tick_over,
        }
    }

    /// An empty queue for the target branch at `target_sha`.
    pub fn new(target_sha: String) -> (r: Self)
        ensures
            r.target_sha@ == target_sha@,
            total(r.counts()) == 0,
            !r.tick_over,
            r.wf(),
    {
        Queue {
            target_sha,
            errored: Vec::new(),
            init: Vec::new(),
            approved: ApprovalHeap::new(),
            running: ApprovalHeap::new(),
            success: ApprovalHeap::new(),
            merged: Vec::new(),
            failed: Vec::new(),
            tick_over: false,
        }
    }

    /// Puts `mr` in the bucket of its state.
    pub fn push(&mut self, mr: MergeRequest)
        requires
            old(self).wf(),
            fits(mr),
        ensures
            final(self).wf(),
            final(self).counts() == counts_add(old(self).counts(), bucket_of(mr.state@)),
            filed(old(self), final(self), mr),
            final(self).tick_over == old(self).tick_over,
    {
        let key = match mr.state() {
            State::Approved(a) | State::Running(a) | State::Success(a) => Some(a.duplicate()),
            State::Failed(Some(a)) => Some(a.duplicate()),
            _ => None,
        };
        assert(opt_approval_view(key) == match mr.state@ {
            StateView::Merged(_) => None,
            s => state_key(s),
        });
        let ghost failed0 = self.failed@;
        match mr.state() {
            State::Init => self.init.push(mr),
            State::Approved(_) => match key {
                Some(k) => self.approved.push(k, mr),
                None => {},
            },
            State::Running(_) => match key {
                Some(k) => self.running.push(k, mr),
                None => {},
            },
            State::Success(_) => match key {
                Some(k) => self.success.push(k, mr),
                None => {},
            },
            State::Merged(_) => self.merged.push(mr),
            State::Failed(_) => {
                self.failed.push((key, mr));
                assert(self.failed@.drop_last() =~= failed0);
            },
            State::Errored => self.errored.push(mr),
        }
    }

    /// Hands out the next request to work on this tick, if any: the tested
    /// request merged first, else (when none is being tested) the approved
    /// request merged first.
    pub fn next_action(&mut self) -> (r: Action)
        requires
            old(self).wf(),
        ensures
            final(self).wf(),
            r matches Action::PushMerged(m) ==> m.state@ is Success && m.settled(),
            r matches Action::StartTest(m) ==> m.state@ is Approved && m.settled(),
            (action_kind(&r), final(self).counts()) == spec_next_action(old(self).counts()),
            old(self).tick_over ==> r is Idle && same_except(old(self), final(self), None) && final(self).tick_over,
            !old(self).tick_over && old(self).success.view().len() > 0 ==> {
                &&& r matches Action::PushMerged(m) && picked(old(self).success.view(), final(self).success.view(), m)
                &&& same_except(old(self), final(self), Some(Bucket::Success))
                &&& !final(self).tick_over
            },
            !old(self).tick_over && old(self).success.view().len() == 0 && old(self).running.view().len() > 0 ==> {
                &&& r is Idle
                &&& same_except(old(self), final(self), None)
                &&& final(self).tick_over
            },
            !old(self).tick_over && old(self).success.view().len() == 0 && old(self).running.view().len() == 0
                && old(self).approved.view().len() > 0 ==> {
                &&& r matches Action::StartTest(m) && picked(old(self).approved.view(), final(self).approved.view(), m)
                &&& same_except(old(self), final(self), Some(Bucket::Approved))
                &&& !final(self).tick_over
            },
            !old(self).tick_over && old(self).success.view().len() == 0 && old(self).running.view().len() == 0
                && old(self).approved.view().len() == 0 ==> {
                &&& r is Idle
                &&& same_except(old(self), final(self), None)
                &&& final(self).tick_over
            },
    {
        if self.tick_over {
            return Action::Idle;
        }
        if !self.success.is_empty() {
            match self.success.pop() {
                Some((_, mr)) => return Action::PushMerged(mr),
                None => return Action::Idle,
            }
        }
        if !self.running.is_empty() {
            self.tick_over = true;
            return Action::Idle;
        }
        if !self.approved.is_empty() {
            match self.approved.pop() {
                Some((_, mr)) => return Action::StartTest(mr),
                None => return Action::Idle,
            }
        }
        self.tick_over = true;
        Action::Idle
    }

    /// Takes back a handed-out request after the attempt on it.
    pub fn settle(&mut self, mr: MergeRequest, attempt: Attempt)
        requires
            old(self).wf(),
            attempt != Attempt::Errored ==> fits(mr),
        ensures
            final(self).wf(),
            final(self).counts() == spec_settle(old(self).counts(), bucket_of(mr.state@), attempt),
            attempt == Attempt::Errored ==> {
                &&& same_except(old(self), final(self), Some(Bucket::Errored))
                &&& final(self).errored@ == old(self).errored@.push(mr)
                &&& final(self).tick_over == old(self).tick_over
            },
            attempt != Attempt::Errored ==> filed(old(self), final(self), mr),
            attempt == Attempt::Advanced ==> final(self).tick_over,
            attempt == Attempt::NotAdvanced ==> final(self).tick_over == old(self).tick_over,
    {
        match attempt {
            Attempt::Errored => self.errored.push(mr),
            Attempt::Advanced => {
                self.push(mr);
                self.tick_over = true;
            },
            Attempt::NotAdvanced => self.push(mr),
        }
    }
}

} // verus!
