//! Whether a worktree may be removed.

use crate::git::worktree::GitWorktreeStatus;
use crate::git::worktree::GitWorktreeStatusView;
use crate::inventory::records::WorktreeRecord;
use crate::inventory::records::WorktreeRecordView;
use crate::inventory::worktrees::ListedWorktree;
use crate::inventory::worktrees::ListedWorktreeView;
use crate::numeral::decimal;
use crate::numeral::print_i64;
use crate::numeral::print_u64;
use crate::numeral::signed_decimal;
use crate::paths::same_path;
use crate::paths::same_steps;
use crate::process::ProcessError;
use crate::process::ProcessErrorView;
use crate::process::ProcessInfo;
use crate::process::ProcessInfoView;
use crate::service::types::CleanupCandidate;
use crate::service::types::CleanupCandidateView;
use crate::text::concat;
use crate::text::concat3;
use crate::text::copy_option;
use crate::text::join;
use crate::text::join_text;
use crate::text::same_text;
use crate::text::views;
use vstd::prelude::*;

verus! {

/// How strongly a word speaks against removal.
pub open spec fn priority(classification: Seq<char>) -> int {
    if classification == "in-use"@ {
        4
    } else if classification == "unsafe"@ {
        3
    } else if classification == "review"@ {
        2
    } else if classification == "eligible"@ {
        1
    } else {
        0
    }
}

/// How strongly a word speaks against removal.
pub fn classification_priority(classification: &str) -> (result: u8)
    ensures
        result == priority(classification@),
{
    if same_text(classification, "in-use") {
        4
    } else if same_text(classification, "unsafe") {
        3
    } else if same_text(classification, "review") {
        2
    } else if same_text(classification, "eligible") {
        1
    } else {
        0
    }
}

/// The stronger of two words; the first where they are equally strong.
pub open spec fn stronger(current: Seq<char>, candidate: Seq<char>) -> Seq<char> {
    if priority(candidate) > priority(current) {
        candidate
    } else {
        current
    }
}

/// The stronger of two words; the first where they are equally strong.
pub fn promote_classification(
    current: &'static str,
    candidate: &'static str,
) -> (word: &'static str)
    ensures
        word@ == stronger(current@, candidate@),
{
    if classification_priority(candidate) > classification_priority(current) {
        candidate
    } else {
        current
    }
}

/// Something that stands against removing a worktree.
#[verifier::ext_equal]
pub struct Finding {
    pub blocker: Seq<char>,
    pub classification: Seq<char>,
}

/// A finding, where there is reason for it.
pub open spec fn finding(applies: bool, blocker: Seq<char>, classification: Seq<char>) -> Seq<
    Finding,
> {
    if applies {
        seq![Finding { blocker, classification }]
    } else {
        seq![]
    }
}

/// The words of findings, the strongest of all.
pub open spec fn strongest(findings: Seq<Finding>) -> Seq<char>
    decreases findings.len(),
{
    if findings.len() == 0 {
        "eligible"@
    } else {
        stronger(strongest(findings.drop_last()), findings.last().classification)
    }
}

/// The sentences of findings.
pub open spec fn sentences(findings: Seq<Finding>) -> Seq<Seq<char>> {
    findings.map_values(|item: Finding| item.blocker)
}

/// A process as it is named in a sentence.
pub open spec fn process_text(process: ProcessInfoView) -> Seq<char> {
    process.command + " ("@ + decimal(process.pid as nat) + ")"@
}

/// Processes as they are named in a sentence.
pub open spec fn processes_text(processes: Seq<ProcessInfoView>) -> Seq<char> {
    join_text(processes.map_values(|process: ProcessInfoView| process_text(process)), ", "@)
}

/// The view of what is known of processes.
pub open spec fn processes_view(known: Result<Vec<ProcessInfo>, ProcessError>) -> Result<
    Seq<ProcessInfoView>,
    ProcessErrorView,
> {
    match known {
        Ok(processes) => Ok(views(processes@)),
        Err(error) => Err(error@),
    }
}

/// The difference of two times, as far as 64 bits can tell.
pub open spec fn elapsed(now: i64, since: i64) -> i64 {
    if now - since > i64::MAX {
        i64::MAX
    } else if now - since < i64::MIN {
        i64::MIN
    } else {
        (now - since) as i64
    }
}

/// The difference of two times, as far as 64 bits can tell.
pub fn seconds_between(now: i64, since: i64) -> (result: i64)
    ensures
        result == elapsed(now, since),
{
    if since < 0 {
        if now > i64::MAX + since {
            i64::MAX
        } else {
            now - since
        }
    } else if now < i64::MIN + since {
        i64::MIN
    } else {
        now - since
    }
}

/// Since when a worktree is known: since it was created, or first seen.
pub open spec fn known_since(record: WorktreeRecordView) -> i64 {
    match record.created_at {
        Some(created) => created,
        None => record.first_seen_at,
    }
}

/// Everything that decides about the removal of a worktree.
#[verifier::ext_equal]
pub struct Circumstances {
    pub primary_root: Seq<char>,
    pub listed: ListedWorktreeView,
    pub status: GitWorktreeStatusView,
    pub processes: Result<Seq<ProcessInfoView>, ProcessErrorView>,
    pub record: Option<WorktreeRecordView>,
    pub leased: bool,
    pub now: i64,
    pub minimum_age: i64,
}

impl Circumstances {
    /// Whether the worktree is the repository itself.
    pub open spec fn is_primary(self) -> bool {
        same_steps(self.listed.worktree.path, self.primary_root)
    }

    /// Whether processes work inside the worktree.
    pub open spec fn in_use(self) -> bool {
        self.listed.is_directory && self.processes is Ok && self.processes->Ok_0.len() > 0
    }

    /// Whether it is not known if processes work inside the worktree.
    pub open spec fn use_unknown(self) -> bool {
        self.listed.is_directory && self.processes is Err
    }

    /// Whether the worktree is known for too short a time.
    pub open spec fn too_young(self) -> bool {
        self.record is Some && elapsed(self.now, known_since(self.record->0)) < self.minimum_age
    }

    /// What the place of the worktree has against the removal.
    pub open spec fn place_findings(self) -> Seq<Finding> {
        finding(
            self.is_primary(),
            "primary repository worktree cannot be removed"@,
            "review"@,
        ) + finding(
            self.listed.is_missing(),
            "Git reports the worktree as unavailable"@,
            "review"@,
        ) + finding(self.listed.worktree.locked, "Git worktree is locked"@, "review"@)
    }

    /// What those who use the worktree have against the removal.
    pub open spec fn use_findings(self) -> Seq<Finding> {
        finding(
            self.in_use(),
            "active process(es) use this worktree: "@ + processes_text(self.processes->Ok_0),
            "in-use"@,
        ) + finding(
            self.use_unknown(),
            "process ownership is unknown: "@ + self.processes->Err_0.text(),
            "review"@,
        ) + finding(
            self.record is Some && self.leased,
            "an active ownership lease exists"@,
            "in-use"@,
        )
    }

    /// What is too new or not known, and so stands against the removal.
    pub open spec fn age_findings(self) -> Seq<Finding> {
        finding(
            self.too_young(),
            "worktree age is "@ + signed_decimal(
                elapsed(self.now, known_since(self.record->0)) as int,
            ) + "s; minimum cleanup age is "@ + signed_decimal(self.minimum_age as int) + "s"@,
            "review"@,
        ) + finding(
            self.status.observation_error is Some,
            "observation is incomplete: "@ + self.status.observation_error->0,
            "review"@,
        )
    }

    /// What work in the worktree has against the removal.
    pub open spec fn work_findings(self) -> Seq<Finding> {
        let changes = self.status.data.changes;
        let merge = self.status.data.merge;
        finding(
            changes.is_dirty(),
            "working tree has "@ + decimal((changes.entries.len() as int % 0x1_0000_0000) as nat)
                + " dirty file(s)"@,
            "unsafe"@,
        ) + finding(
            merge.unique_commits is Some && merge.unique_commits->0 > 0,
            "branch has "@ + decimal(merge.unique_commits->0 as nat) + " unique commit(s)"@,
            "unsafe"@,
        ) + finding(merge.unique_commits is None, "unique commit count is unknown"@, "review"@)
    }

    /// What is not merged, and so stands against the removal.
    pub open spec fn merge_findings(self) -> Seq<Finding> {
        let merge = self.status.data.merge;
        finding(
            merge.merged_locally != Some(true),
            "branch is not verified as merged into the local integration branch"@,
            "review"@,
        ) + finding(
            merge.remote_integration_branch is Some && merge.merged_remotely != Some(true),
            "branch is not verified as merged into the configured remote integration branch"@,
            "review"@,
        )
    }

    /// Everything that stands against the removal, in order.
    pub open spec fn findings(self) -> Seq<Finding> {
        self.place_findings() + self.use_findings() + self.age_findings() + self.work_findings()
            + self.merge_findings()
    }

    /// The worktree as a candidate for removal.
    pub open spec fn candidate(self) -> CleanupCandidateView {
        CleanupCandidateView {
            worktree_id: match self.record {
                Some(record) => Some(record.id),
                None => None,
            },
            path: self.listed.worktree.path,
            branch: self.listed.worktree.branch,
            classification: strongest(self.findings()),
            blockers: sentences(self.findings()),
            reclaimable_bytes: self.status.data.disk_usage.worktree_bytes,
        }
    }
}

struct Assessment {
    blockers: Vec<String>,
    classification: &'static str,
    findings: Ghost<Seq<Finding>>,
}

impl Assessment {
    spec fn sound(&self) -> bool {
        &&& views(self.blockers@) == sentences(self.findings@)
        &&& self.classification@ == strongest(self.findings@)
    }

    fn note(&mut self, blocker: String, classification: &'static str)
        requires
            old(self).sound(),
        ensures
            final(self).sound(),
            final(self).findings@ == old(self).findings@ + finding(
                true,
                blocker@,
                classification@,
            ),
    {
        let ghost item = Finding { blocker: blocker@, classification: classification@ };
        let ghost before = self.blockers@;
        let ghost found = self.findings@;
        self.blockers.push(blocker);
        self.classification = promote_classification(self.classification, classification);
        self.findings = Ghost(self.findings@.push(item));
        proof {
            assert(found.push(item).drop_last() =~= found);
            assert(found.push(item) =~= found + finding(true, item.blocker, item.classification));
            assert(views(self.blockers@) =~= views(before).push(item.blocker));
            assert(sentences(found.push(item)) =~= sentences(found).push(item.blocker));
        }
    }
}

fn print_process(process: &ProcessInfo) -> (text: String)
    ensures
        text@ == process_text(process@),
{
    let mut text = process.command.clone();
    text.append(" (");
    let pid = print_u64(process.pid as u64);
    text.append(&pid);
    text.append(")");
    text
}

fn print_processes(processes: &Vec<ProcessInfo>) -> (text: String)
    ensures
        text@ == processes_text(views(processes@)),
{
    let mut names: Vec<String> = Vec::new();
    let mut i: usize = 0;
    while i < processes.len()
        invariant
            i <= processes.len(),
            names@.len() == i,
            forall|j: int| 0 <= j < i ==> (#[trigger] names@[j])@ == process_text(processes@[j]@),
        decreases processes.len() - i,
    {
        names.push(print_process(&processes[i]));
        i += 1;
    }
    assert(views(names@) =~= views(processes@).map_values(
        |process: ProcessInfoView| process_text(process),
    ));
    join(&names, ", ")
}

/// Weighs everything that stands against removing a worktree.
pub fn assess_worktree(
    primary_root: &str,
    listed: &ListedWorktree,
    status: &GitWorktreeStatus,
    processes: &Result<Vec<ProcessInfo>, ProcessError>,
    record: Option<&WorktreeRecord>,
    leased: bool,
    now: i64,
    minimum_cleanup_age_seconds: i64,
) -> (candidate: CleanupCandidate)
    ensures
        candidate@ == (Circumstances {
            primary_root: primary_root@,
            listed: listed@,
            status: status@,
            processes: processes_view(*processes),
            record: record_view(record),
            leased,
            now,
            minimum_age: minimum_cleanup_age_seconds,
        }).candidate(),
{
    let ghost all = Circumstances {
        primary_root: primary_root@,
        listed: listed@,
        status: status@,
        processes: processes_view(*processes),
        record: record_view(record),
        leased,
        now,
        minimum_age: minimum_cleanup_age_seconds,
    };
    let mut found = Assessment {
        blockers: Vec::new(),
        classification: "eligible",
        findings: Ghost(Seq::empty()),
    };
    assert(views(found.blockers@) =~= sentences(seq![]));
    weigh_place(&mut found, primary_root, listed, Ghost(all));
    weigh_use(&mut found, listed, processes, record, leased, Ghost(all));
    weigh_age(&mut found, status, record, now, minimum_cleanup_age_seconds, Ghost(all));
    weigh_work(&mut found, status, Ghost(all));
    weigh_merge(&mut found, status, Ghost(all));
    assert(found.findings@ =~= all.findings());
    let worktree_id = match record {
        Some(row) => Some(row.id),
        None => None,
    };
    CleanupCandidate {
        worktree_id,
        path: listed.worktree.path.clone(),
        branch: copy_option(&listed.worktree.branch),
        classification: found.classification.to_owned(),
        blockers: found.blockers,
        reclaimable_bytes: status.data.disk_usage.worktree_bytes,
    }
}

/// What an optional row holds.
pub open spec fn record_view(record: Option<&WorktreeRecord>) -> Option<WorktreeRecordView> {
    match record {
        Some(row) => Some(row@),
        None => None,
    }
}

fn weigh_place(
    found: &mut Assessment,
    primary_root: &str,
    listed: &ListedWorktree,
    Ghost(all): Ghost<Circumstances>,
)
    requires
        old(found).sound(),
        all.primary_root == primary_root@,
        all.listed == listed@,
    ensures
        final(found).sound(),
        final(found).findings@ == old(found).findings@ + all.place_findings(),
{
    if same_path(&listed.worktree.path, primary_root) {
        found.note("primary repository worktree cannot be removed".to_owned(), "review");
    }
    if listed.missing() {
        found.note("Git reports the worktree as unavailable".to_owned(), "review");
    }
    if listed.worktree.locked {
        found.note("Git worktree is locked".to_owned(), "review");
    }
    assert(found.findings@ =~= old(found).findings@ + all.place_findings());
}

fn weigh_use(
    found: &mut Assessment,
    listed: &ListedWorktree,
    processes: &Result<Vec<ProcessInfo>, ProcessError>,
    record: Option<&WorktreeRecord>,
    leased: bool,
    Ghost(all): Ghost<Circumstances>,
)
    requires
        old(found).sound(),
        all.listed == listed@,
        all.processes == processes_view(*processes),
        all.record == record_view(record),
        all.leased == leased,
    ensures
        final(found).sound(),
        final(found).findings@ == old(found).findings@ + all.use_findings(),
{
    if listed.is_directory {
        match processes {
            Ok(list) => {
                assert(views(list@).len() == list@.len());
                if list.len() > 0 {
                    let named = print_processes(list);
                    found.note(
                        concat("active process(es) use this worktree: ", &named),
                        "in-use",
                    );
                }
            },
            Err(error) => {
                let reason = error.to_text();
                found.note(concat("process ownership is unknown: ", &reason), "review");
            },
        }
    }
    if record.is_some() && leased {
        found.note("an active ownership lease exists".to_owned(), "in-use");
    }
    assert(found.findings@ =~= old(found).findings@ + all.use_findings());
}

fn weigh_age(
    found: &mut Assessment,
    status: &GitWorktreeStatus,
    record: Option<&WorktreeRecord>,
    now: i64,
    minimum_cleanup_age_seconds: i64,
    Ghost(all): Ghost<Circumstances>,
)
    requires
        old(found).sound(),
        all.status == status@,
        all.record == record_view(record),
        all.now == now,
        all.minimum_age == minimum_cleanup_age_seconds,
    ensures
        final(found).sound(),
        final(found).findings@ == old(found).findings@ + all.age_findings(),
{
    if let Some(row) = record {
        let since = match row.created_at {
            Some(created) => created,
            None => row.first_seen_at,
        };
        let age = seconds_between(now, since);
        if age < minimum_cleanup_age_seconds {
            let seconds = print_i64(age);
            let minimum = print_i64(minimum_cleanup_age_seconds);
            let mut text = concat3("worktree age is ", &seconds, "s; minimum cleanup age is ");
            text.append(&minimum);
            text.append("s");
            found.note(text, "review");
        }
    }
    if let Some(error) = &status.observation_error {
        found.note(concat("observation is incomplete: ", error), "review");
    }
    assert(found.findings@ =~= old(found).findings@ + all.age_findings());
}

fn weigh_work(found: &mut Assessment, status: &GitWorktreeStatus, Ghost(all): Ghost<Circumstances>)
    requires
        old(found).sound(),
        all.status == status@,
    ensures
        final(found).sound(),
        final(found).findings@ == old(found).findings@ + all.work_findings(),
{
    let changes = &status.data.changes;
    let merge = &status.data.merge;
    if changes.dirty() {
        let count = print_u64(changes.dirty_files() as u64);
        found.note(concat3("working tree has ", &count, " dirty file(s)"), "unsafe");
    }
    match merge.unique_commits {
        Some(unique) => {
            if unique > 0 {
                let count = print_u64(unique as u64);
                found.note(concat3("branch has ", &count, " unique commit(s)"), "unsafe");
            }
        },
        None => found.note("unique commit count is unknown".to_owned(), "review"),
    }
    assert(found.findings@ =~= old(found).findings@ + all.work_findings());
}

fn weigh_merge(found: &mut Assessment, status: &GitWorktreeStatus, Ghost(all): Ghost<Circumstances>)
    requires
        old(found).sound(),
        all.status == status@,
    ensures
        final(found).sound(),
        final(found).findings@ == old(found).findings@ + all.merge_findings(),
{
    let merge = &status.data.merge;
    if !is_true(merge.merged_locally) {
        found.note(
            "branch is not verified as merged into the local integration branch".to_owned(),
            "review",
        );
    }
    if merge.remote_integration_branch.is_some() && !is_true(merge.merged_remotely) {
        found.note(
            "branch is not verified as merged into the configured remote integration branch".to_owned(),
            "review",
        );
    }
    assert(found.findings@ =~= old(found).findings@ + all.merge_findings());
}

fn is_true(answer: Option<bool>) -> (result: bool)
    ensures
        result == (answer == Some(true)),
{
    match answer {
        Some(truth) => truth,
        None => false,
    }
}

// ---------------------------------------------------------------------------
// Laws
// ---------------------------------------------------------------------------

proof fn lemma_words()
    ensures
        priority("in-use"@) == 4,
        priority("unsafe"@) == 3,
        priority("review"@) == 2,
        priority("eligible"@) == 1,
{
    reveal_strlit("in-use");
    reveal_strlit("unsafe");
    reveal_strlit("review");
    reveal_strlit("eligible");
    assert("in-use"@[0] == 'i');
    assert("unsafe"@[0] == 'u');
    assert("review"@[0] == 'r');
    assert("eligible"@[0] == 'e');
}

spec fn weighty(findings: Seq<Finding>) -> bool {
    forall|i: int|
        0 <= i < findings.len() ==> priority((#[trigger] findings[i]).classification) >= 2
}

proof fn lemma_strongest(findings: Seq<Finding>)
    requires
        weighty(findings),
    ensures
        findings.len() == 0 ==> strongest(findings) == "eligible"@,
        findings.len() > 0 ==> priority(strongest(findings)) >= 2,
    decreases findings.len(),
{
    lemma_words();
    if findings.len() > 0 {
        let shorter = findings.drop_last();
        assert forall|i: int| 0 <= i < shorter.len() implies priority(
            (#[trigger] shorter[i]).classification,
        ) >= 2 by {
            assert(shorter[i] == findings[i]);
        }
        lemma_strongest(shorter);
        assert(priority(findings[findings.len() - 1].classification) >= 2);
    }
}

proof fn lemma_weighty_concat(left: Seq<Finding>, right: Seq<Finding>)
    requires
        weighty(left),
        weighty(right),
    ensures
        weighty(left + right),
{
    let both = left + right;
    assert forall|i: int| 0 <= i < both.len() implies priority((#[trigger] both[i]).classification)
        >= 2 by {
        if i < left.len() {
            assert(both[i] == left[i]);
        } else {
            assert(both[i] == right[i - left.len()]);
        }
    }
}

proof fn lemma_findings_weighty(all: Circumstances)
    ensures
        weighty(all.findings()),
{
    lemma_words();
    assert(weighty(all.place_findings()));
    assert(weighty(all.use_findings()));
    assert(weighty(all.age_findings()));
    assert(weighty(all.work_findings()));
    assert(weighty(all.merge_findings()));
    let two = all.place_findings() + all.use_findings();
    let three = two + all.age_findings();
    let four = three + all.work_findings();
    lemma_weighty_concat(all.place_findings(), all.use_findings());
    lemma_weighty_concat(two, all.age_findings());
    lemma_weighty_concat(three, all.work_findings());
    lemma_weighty_concat(four, all.merge_findings());
}

/// A worktree is eligible for removal exactly if nothing stands against it.
pub proof fn eligible_means_no_blockers(all: Circumstances)
    ensures
        all.candidate().classification == "eligible"@ <==> all.candidate().blockers.len() == 0,
{
    lemma_words();
    lemma_findings_weighty(all);
    lemma_strongest(all.findings());
}

/// A worktree that is eligible for removal is not the repository itself, is
/// there, is not locked, is used by no process and leased by no session, is old
/// enough, was observed completely, holds no uncommitted work and no commit of
/// its own, and is merged wherever it can be.
pub proof fn eligible_worktree_is_safe(all: Circumstances)
    requires
        all.candidate().classification == "eligible"@,
    ensures
        !all.is_primary(),
        !all.listed.is_missing(),
        !all.listed.worktree.locked,
        !all.in_use(),
        !all.use_unknown(),
        !(all.record is Some && all.leased),
        !all.too_young(),
        all.status.observation_error is None,
        !all.status.data.changes.is_dirty(),
        all.status.data.merge.unique_commits == Some(0u32),
        all.status.data.merge.merged_locally == Some(true),
        all.status.data.merge.remote_integration_branch is Some
            ==> all.status.data.merge.merged_remotely == Some(true),
{
    eligible_means_no_blockers(all);
    assert(all.findings().len() == 0);
    assert(all.place_findings().len() == 0);
    assert(all.use_findings().len() == 0);
    assert(all.age_findings().len() == 0);
    assert(all.work_findings().len() == 0);
    assert(all.merge_findings().len() == 0);
}

/// A worktree that a session has leased, or in which a process works, is reported
/// as in use, whatever else stands against removing it.
pub proof fn used_worktree_is_in_use(all: Circumstances)
    requires
        all.in_use() || (all.record is Some && all.leased),
    ensures
        all.candidate().classification == "in-use"@,
{
    lemma_words();
    let findings = all.findings();
    lemma_findings_in_use(all);
    let k = choose|k: int|
        0 <= k < findings.len() && (#[trigger] findings[k]).classification == "in-use"@;
    lemma_strongest_in_use(findings, k);
}

proof fn lemma_findings_in_use(all: Circumstances)
    requires
        all.in_use() || (all.record is Some && all.leased),
    ensures
        exists|k: int|
            0 <= k < all.findings().len() && (#[trigger] all.findings()[k]).classification
                == "in-use"@,
{
    let found = all.use_findings();
    let k = if all.in_use() {
        0
    } else {
        found.len() - 1
    };
    assert(found[k].classification == "in-use"@);
    assert(all.findings()[all.place_findings().len() + k] == found[k]);
}

proof fn lemma_strongest_in_use(findings: Seq<Finding>, k: int)
    requires
        0 <= k < findings.len(),
        findings[k].classification == "in-use"@,
    ensures
        strongest(findings) == "in-use"@,
    decreases findings.len(),
{
    lemma_words();
    if k < findings.len() - 1 {
        assert(findings.drop_last()[k] == findings[k]);
        lemma_strongest_in_use(findings.drop_last(), k);
    } else {
        lemma_priority_at_most(strongest(findings.drop_last()));
        if priority(strongest(findings.drop_last())) == 4 {
            assert(strongest(findings.drop_last()) == "in-use"@);
        }
    }
}

proof fn lemma_priority_at_most(word: Seq<char>)
    ensures
        priority(word) <= 4,
{
}

} // verus!
