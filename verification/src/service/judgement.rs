//! What a judgement about the removal of a worktree rests on.

use crate::git::error::GitError;
use crate::git::meaning::are_paired;
use crate::git::meaning::change_fields;
use crate::git::meaning::changes_make_a_worktree_dirty;
use crate::git::meaning::closed_by;
use crate::git::meaning::printed_changes_make_a_worktree_dirty;
use crate::git::meaning::PrintedChange;
use crate::git::porcelain::parse_status_porcelain;
use crate::git::worktree::GitWorktreeStatus;
use crate::inventory::records::WorktreeRecord;
use crate::inventory::worktrees::ListedWorktree;
use crate::model::ChangeSummary;
use crate::numeral::decimal;
use crate::numeral::signed_decimal;
use crate::paths::same_steps;
use crate::process::ProcessError;
use crate::process::ProcessInfo;
use crate::service::assess::assess_worktree;
use crate::service::assess::Circumstances;
use crate::service::assess::finding;
use crate::service::assess::Finding;
use crate::service::assess::processes_text;
use crate::service::assess::processes_view;
use crate::service::assess::record_view;
use crate::service::assess::seconds_between;
use crate::service::assess::sentences;
use crate::service::assess::strongest;
use crate::service::types::CleanupCandidate;
use crate::text::option_view;
use crate::text::views;
use vstd::prelude::*;

verus! {

// ---------------------------------------------------------------------------
// Words
// ---------------------------------------------------------------------------

proof fn lemma_four_words()
    ensures
        "in-use"@ != "unsafe"@,
        "in-use"@ != "review"@,
        "in-use"@ != "eligible"@,
        "unsafe"@ != "review"@,
        "unsafe"@ != "eligible"@,
        "review"@ != "eligible"@,
{
    reveal_strlit("in-use");
    reveal_strlit("unsafe");
    reveal_strlit("review");
    reveal_strlit("eligible");
    assert("in-use"@[0] == 'i');
    assert("unsafe"@[0] == 'u');
    assert("review"@[0] == 'r');
    assert("eligible"@[0] == 'e');
}

spec fn has_word(findings: Seq<Finding>, word: Seq<char>) -> bool {
    exists|k: int| 0 <= k < findings.len() && (#[trigger] findings[k]).classification == word
}

spec fn three_words(findings: Seq<Finding>) -> bool {
    forall|k: int|
        0 <= k < findings.len() ==> {
            let word = (#[trigger] findings[k]).classification;
            word == "in-use"@ || word == "unsafe"@ || word == "review"@
        }
}

proof fn lemma_word_of_concat(left: Seq<Finding>, right: Seq<Finding>, word: Seq<char>)
    ensures
        has_word(left + right, word) == (has_word(left, word) || has_word(right, word)),
        three_words(left) && three_words(right) ==> three_words(left + right),
{
    let both = left + right;
    if has_word(left, word) {
        let k = choose|k: int| 0 <= k < left.len() && (#[trigger] left[k]).classification == word;
        assert(both[k] == left[k]);
    }
    if has_word(right, word) {
        let k = choose|k: int| 0 <= k < right.len() && (#[trigger] right[k]).classification == word;
        assert(both[left.len() + k] == right[k]);
    }
    if has_word(both, word) {
        let k = choose|k: int| 0 <= k < both.len() && (#[trigger] both[k]).classification == word;
        if k < left.len() {
            assert(left[k] == both[k]);
        } else {
            assert(right[k - left.len()] == both[k]);
        }
    }
    if three_words(left) && three_words(right) {
        assert forall|k: int| 0 <= k < both.len() implies {
            let found = (#[trigger] both[k]).classification;
            found == "in-use"@ || found == "unsafe"@ || found == "review"@
        } by {
            if k < left.len() {
                assert(left[k] == both[k]);
            } else {
                assert(right[k - left.len()] == both[k]);
            }
        }
    }
}

proof fn lemma_strongest_word(findings: Seq<Finding>)
    requires
        three_words(findings),
    ensures
        strongest(findings) == (if has_word(findings, "in-use"@) {
            "in-use"@
        } else if has_word(findings, "unsafe"@) {
            "unsafe"@
        } else if findings.len() > 0 {
            "review"@
        } else {
            "eligible"@
        }),
    decreases findings.len(),
{
    lemma_four_words();
    if findings.len() > 0 {
        let before = findings.drop_last();
        let last = seq![findings.last()];
        assert(before + last =~= findings);
        assert forall|k: int| 0 <= k < before.len() implies {
            let found = (#[trigger] before[k]).classification;
            found == "in-use"@ || found == "unsafe"@ || found == "review"@
        } by {
            assert(before[k] == findings[k]);
        }
        lemma_strongest_word(before);
        lemma_word_of_concat(before, last, "in-use"@);
        lemma_word_of_concat(before, last, "unsafe"@);
        assert(last[0].classification == findings[findings.len() - 1].classification);
        assert(has_word(last, findings.last().classification));
    }
}

proof fn lemma_one_finding(applies: bool, blocker: Seq<char>, word: Seq<char>, wanted: Seq<char>)
    ensures
        has_word(finding(applies, blocker, word), wanted) == (applies && word == wanted),
        finding(applies, blocker, word).len() == (if applies {
            1int
        } else {
            0
        }),
        applies ==> sentences(finding(applies, blocker, word)).contains(blocker),
{
    let found = finding(applies, blocker, word);
    if applies {
        assert(found[0].classification == word);
        assert(sentences(found)[0] == blocker);
    }
}

// ---------------------------------------------------------------------------
// Judgements
// ---------------------------------------------------------------------------

proof fn lemma_sentence_of_concat(left: Seq<Finding>, right: Seq<Finding>, text: Seq<char>)
    ensures
        sentences(left).contains(text) || sentences(right).contains(text) ==> sentences(
            left + right,
        ).contains(text),
{
    let both = sentences(left + right);
    if sentences(left).contains(text) {
        let k = choose|k: int| 0 <= k < left.len() && sentences(left)[k] == text;
        assert(both[k] == text);
    }
    if sentences(right).contains(text) {
        let k = choose|k: int| 0 <= k < right.len() && sentences(right)[k] == text;
        assert(both[left.len() + k] == text);
    }
}

proof fn lemma_sentence_of_part(all: Circumstances, text: Seq<char>)
    requires
        sentences(all.place_findings()).contains(text) || sentences(all.use_findings()).contains(
            text,
        ) || sentences(all.age_findings()).contains(text) || sentences(
            all.work_findings(),
        ).contains(text) || sentences(all.merge_findings()).contains(text),
    ensures
        all.candidate().blockers.contains(text),
{
    let two = all.place_findings() + all.use_findings();
    let three = two + all.age_findings();
    let four = three + all.work_findings();
    lemma_sentence_of_concat(all.place_findings(), all.use_findings(), text);
    lemma_sentence_of_concat(two, all.age_findings(), text);
    lemma_sentence_of_concat(three, all.work_findings(), text);
    lemma_sentence_of_concat(four, all.merge_findings(), text);
}

spec fn holds_word(findings: Seq<Finding>, in_use: bool, hazardous: bool) -> bool {
    &&& three_words(findings)
    &&& has_word(findings, "in-use"@) == in_use
    &&& has_word(findings, "unsafe"@) == hazardous
}

proof fn lemma_finding_words(applies: bool, blocker: Seq<char>, word: Seq<char>)
    requires
        word == "in-use"@ || word == "unsafe"@ || word == "review"@,
    ensures
        holds_word(
            finding(applies, blocker, word),
            applies && word == "in-use"@,
            applies && word == "unsafe"@,
        ),
{
    lemma_one_finding(applies, blocker, word, "in-use"@);
    lemma_one_finding(applies, blocker, word, "unsafe"@);
}

proof fn lemma_words_of_concat(
    left: Seq<Finding>,
    right: Seq<Finding>,
    used: (bool, bool),
    hazardous: (bool, bool),
)
    requires
        holds_word(left, used.0, hazardous.0),
        holds_word(right, used.1, hazardous.1),
    ensures
        holds_word(left + right, used.0 || used.1, hazardous.0 || hazardous.1),
{
    lemma_word_of_concat(left, right, "in-use"@);
    lemma_word_of_concat(left, right, "unsafe"@);
}

/// One for what applies, and nothing for what does not.
pub open spec fn told(applies: bool) -> int {
    if applies {
        1
    } else {
        0
    }
}

/// A difference of times, kept within 64 bits.
pub open spec fn saturated(seconds: int) -> int {
    if seconds > i64::MAX {
        i64::MAX as int
    } else if seconds < i64::MIN {
        i64::MIN as int
    } else {
        seconds
    }
}

/// The seconds since a worktree was created, or first seen where that is not known.
pub open spec fn age_in_seconds(all: Circumstances) -> int {
    let since = match all.record->0.created_at {
        Some(created) => created,
        None => all.record->0.first_seen_at,
    };
    saturated(all.now - since)
}

proof fn lemma_place_told(all: Circumstances)
    ensures
        holds_word(
            all.place_findings(),
            false,
            false,
        ),
        all.place_findings().len() == told(same_steps(all.listed.worktree.path, all.primary_root))
            + told(all.listed.worktree.prunable || !all.listed.is_directory)
            + told(all.listed.worktree.locked),
        same_steps(all.listed.worktree.path, all.primary_root)
            ==> sentences(all.place_findings()).contains(
            "primary repository worktree cannot be removed"@,
        ),
        all.listed.worktree.prunable || !all.listed.is_directory
            ==> sentences(all.place_findings()).contains(
            "Git reports the worktree as unavailable"@,
        ),
        all.listed.worktree.locked ==> sentences(all.place_findings()).contains(
            "Git worktree is locked"@,
        ),
{
    lemma_four_words();
    let applies0 = same_steps(all.listed.worktree.path, all.primary_root);
    let text0 = "primary repository worktree cannot be removed"@;
    let part0 = finding(applies0, text0, "review"@);
    lemma_finding_words(applies0, text0, "review"@);
    lemma_one_finding(applies0, text0, "review"@, "review"@);
    let applies1 = all.listed.worktree.prunable || !all.listed.is_directory;
    let text1 = "Git reports the worktree as unavailable"@;
    let part1 = finding(applies1, text1, "review"@);
    lemma_finding_words(applies1, text1, "review"@);
    lemma_one_finding(applies1, text1, "review"@, "review"@);
    let applies2 = all.listed.worktree.locked;
    let text2 = "Git worktree is locked"@;
    let part2 = finding(applies2, text2, "review"@);
    lemma_finding_words(applies2, text2, "review"@);
    lemma_one_finding(applies2, text2, "review"@, "review"@);
    lemma_words_of_concat(
        part0,
        part1,
        (applies0 && "review"@ == "in-use"@, applies1 && "review"@ == "in-use"@),
        (applies0 && "review"@ == "unsafe"@, applies1 && "review"@ == "unsafe"@),
    );
    lemma_sentence_of_concat(part0, part1, text0);
    lemma_sentence_of_concat(part0, part1, text1);
    lemma_sentence_of_concat(part0, part1, text2);
    lemma_words_of_concat(
        part0 + part1,
        part2,
        (
            (applies0 && "review"@ == "in-use"@) || (applies1 && "review"@ == "in-use"@),
            applies2 && "review"@ == "in-use"@,
        ),
        (
            (applies0 && "review"@ == "unsafe"@) || (applies1 && "review"@ == "unsafe"@),
            applies2 && "review"@ == "unsafe"@,
        ),
    );
    lemma_sentence_of_concat(part0 + part1, part2, text0);
    lemma_sentence_of_concat(part0 + part1, part2, text1);
    lemma_sentence_of_concat(part0 + part1, part2, text2);
    assert(all.place_findings() == part0 + part1 + part2);
}

proof fn lemma_use_told(all: Circumstances)
    ensures
        holds_word(
            all.use_findings(),
            (all.listed.is_directory && all.processes is Ok && all.processes->Ok_0.len() > 0)
                || (all.record is Some && all.leased),
            false,
        ),
        all.use_findings().len() == told(
            all.listed.is_directory && all.processes is Ok && all.processes->Ok_0.len() > 0
        )
            + told(all.listed.is_directory && all.processes is Err)
            + told(all.record is Some && all.leased),
        all.listed.is_directory && all.processes is Ok && all.processes->Ok_0.len() > 0
            ==> sentences(all.use_findings()).contains(
            "active process(es) use this worktree: "@ + processes_text(all.processes->Ok_0),
        ),
        all.listed.is_directory && all.processes is Err ==> sentences(all.use_findings()).contains(
            "process ownership is unknown: "@ + all.processes->Err_0.text(),
        ),
        all.record is Some && all.leased ==> sentences(all.use_findings()).contains(
            "an active ownership lease exists"@,
        ),
{
    lemma_four_words();
    let applies0 = all.listed.is_directory && all.processes is Ok && all.processes->Ok_0.len() > 0;
    let text0 = "active process(es) use this worktree: "@ + processes_text(all.processes->Ok_0);
    let part0 = finding(applies0, text0, "in-use"@);
    lemma_finding_words(applies0, text0, "in-use"@);
    lemma_one_finding(applies0, text0, "in-use"@, "in-use"@);
    let applies1 = all.listed.is_directory && all.processes is Err;
    let text1 = "process ownership is unknown: "@ + all.processes->Err_0.text();
    let part1 = finding(applies1, text1, "review"@);
    lemma_finding_words(applies1, text1, "review"@);
    lemma_one_finding(applies1, text1, "review"@, "review"@);
    let applies2 = all.record is Some && all.leased;
    let text2 = "an active ownership lease exists"@;
    let part2 = finding(applies2, text2, "in-use"@);
    lemma_finding_words(applies2, text2, "in-use"@);
    lemma_one_finding(applies2, text2, "in-use"@, "in-use"@);
    lemma_words_of_concat(
        part0,
        part1,
        (applies0 && "in-use"@ == "in-use"@, applies1 && "review"@ == "in-use"@),
        (applies0 && "in-use"@ == "unsafe"@, applies1 && "review"@ == "unsafe"@),
    );
    lemma_sentence_of_concat(part0, part1, text0);
    lemma_sentence_of_concat(part0, part1, text1);
    lemma_sentence_of_concat(part0, part1, text2);
    lemma_words_of_concat(
        part0 + part1,
        part2,
        (
            (applies0 && "in-use"@ == "in-use"@) || (applies1 && "review"@ == "in-use"@),
            applies2 && "in-use"@ == "in-use"@,
        ),
        (
            (applies0 && "in-use"@ == "unsafe"@) || (applies1 && "review"@ == "unsafe"@),
            applies2 && "in-use"@ == "unsafe"@,
        ),
    );
    lemma_sentence_of_concat(part0 + part1, part2, text0);
    lemma_sentence_of_concat(part0 + part1, part2, text1);
    lemma_sentence_of_concat(part0 + part1, part2, text2);
    assert(all.use_findings() == part0 + part1 + part2);
}

proof fn lemma_age_told(all: Circumstances)
    ensures
        holds_word(
            all.age_findings(),
            false,
            false,
        ),
        all.age_findings().len() == told(
            all.record is Some && age_in_seconds(all) < all.minimum_age
        )
            + told(all.status.observation_error is Some),
        all.record is Some && age_in_seconds(all) < all.minimum_age
            ==> sentences(all.age_findings()).contains(
            "worktree age is "@
                + signed_decimal(age_in_seconds(all))
                + "s; minimum cleanup age is "@
                + signed_decimal(all.minimum_age as int)
                + "s"@,
        ),
        all.status.observation_error is Some ==> sentences(all.age_findings()).contains(
            "observation is incomplete: "@ + all.status.observation_error->0,
        ),
{
    lemma_four_words();
    let applies0 = all.record is Some && age_in_seconds(all) < all.minimum_age;
    let text0 = "worktree age is "@ + signed_decimal(age_in_seconds(all))
        + "s; minimum cleanup age is "@ + signed_decimal(all.minimum_age as int) + "s"@;
    let part0 = finding(applies0, text0, "review"@);
    lemma_finding_words(applies0, text0, "review"@);
    lemma_one_finding(applies0, text0, "review"@, "review"@);
    let applies1 = all.status.observation_error is Some;
    let text1 = "observation is incomplete: "@ + all.status.observation_error->0;
    let part1 = finding(applies1, text1, "review"@);
    lemma_finding_words(applies1, text1, "review"@);
    lemma_one_finding(applies1, text1, "review"@, "review"@);
    lemma_words_of_concat(
        part0,
        part1,
        (applies0 && "review"@ == "in-use"@, applies1 && "review"@ == "in-use"@),
        (applies0 && "review"@ == "unsafe"@, applies1 && "review"@ == "unsafe"@),
    );
    lemma_sentence_of_concat(part0, part1, text0);
    lemma_sentence_of_concat(part0, part1, text1);
    assert(all.age_findings() == part0 + part1);
}

proof fn lemma_work_told(all: Circumstances)
    ensures
        holds_word(
            all.work_findings(),
            false,
            (
                all.status.data.changes.staged > 0
                    || all.status.data.changes.unstaged > 0
                    || all.status.data.changes.untracked > 0
                    || all.status.data.changes.conflicted > 0
            )
                || (
                    all.status.data.merge.unique_commits is Some
                        && all.status.data.merge.unique_commits->0 > 0
                ),
        ),
        all.work_findings().len() == told(
            all.status.data.changes.staged > 0
                || all.status.data.changes.unstaged > 0
                || all.status.data.changes.untracked > 0
                || all.status.data.changes.conflicted > 0
        )
            + told(
                all.status.data.merge.unique_commits is Some
                    && all.status.data.merge.unique_commits->0 > 0
            )
            + told(all.status.data.merge.unique_commits is None),
        all.status.data.changes.staged > 0
            || all.status.data.changes.unstaged > 0
            || all.status.data.changes.untracked > 0
            || all.status.data.changes.conflicted > 0
            ==> sentences(all.work_findings()).contains(
            "working tree has "@
                + decimal((all.status.data.changes.entries.len() as int % 0x1_0000_0000) as nat)
                + " dirty file(s)"@,
        ),
        all.status.data.merge.unique_commits is Some && all.status.data.merge.unique_commits->0 > 0
            ==> sentences(all.work_findings()).contains(
            "branch has "@
                + decimal(all.status.data.merge.unique_commits->0 as nat)
                + " unique commit(s)"@,
        ),
        all.status.data.merge.unique_commits is None ==> sentences(all.work_findings()).contains(
            "unique commit count is unknown"@,
        ),
{
    lemma_four_words();
    let applies0 = all.status.data.changes.staged > 0
        || all.status.data.changes.unstaged > 0
        || all.status.data.changes.untracked > 0
        || all.status.data.changes.conflicted > 0;
    let text0 = "working tree has "@ + decimal(
        (all.status.data.changes.entries.len() as int % 0x1_0000_0000) as nat
    ) + " dirty file(s)"@;
    let part0 = finding(applies0, text0, "unsafe"@);
    lemma_finding_words(applies0, text0, "unsafe"@);
    lemma_one_finding(applies0, text0, "unsafe"@, "unsafe"@);
    let applies1 = all.status.data.merge.unique_commits is Some
        && all.status.data.merge.unique_commits->0 > 0;
    let text1 = "branch has "@ + decimal(
        all.status.data.merge.unique_commits->0 as nat
    ) + " unique commit(s)"@;
    let part1 = finding(applies1, text1, "unsafe"@);
    lemma_finding_words(applies1, text1, "unsafe"@);
    lemma_one_finding(applies1, text1, "unsafe"@, "unsafe"@);
    let applies2 = all.status.data.merge.unique_commits is None;
    let text2 = "unique commit count is unknown"@;
    let part2 = finding(applies2, text2, "review"@);
    lemma_finding_words(applies2, text2, "review"@);
    lemma_one_finding(applies2, text2, "review"@, "review"@);
    lemma_words_of_concat(
        part0,
        part1,
        (applies0 && "unsafe"@ == "in-use"@, applies1 && "unsafe"@ == "in-use"@),
        (applies0 && "unsafe"@ == "unsafe"@, applies1 && "unsafe"@ == "unsafe"@),
    );
    lemma_sentence_of_concat(part0, part1, text0);
    lemma_sentence_of_concat(part0, part1, text1);
    lemma_sentence_of_concat(part0, part1, text2);
    lemma_words_of_concat(
        part0 + part1,
        part2,
        (
            (applies0 && "unsafe"@ == "in-use"@) || (applies1 && "unsafe"@ == "in-use"@),
            applies2 && "review"@ == "in-use"@,
        ),
        (
            (applies0 && "unsafe"@ == "unsafe"@) || (applies1 && "unsafe"@ == "unsafe"@),
            applies2 && "review"@ == "unsafe"@,
        ),
    );
    lemma_sentence_of_concat(part0 + part1, part2, text0);
    lemma_sentence_of_concat(part0 + part1, part2, text1);
    lemma_sentence_of_concat(part0 + part1, part2, text2);
    assert(all.work_findings() == part0 + part1 + part2);
}

proof fn lemma_merge_told(all: Circumstances)
    ensures
        holds_word(
            all.merge_findings(),
            false,
            false,
        ),
        all.merge_findings().len() == told(all.status.data.merge.merged_locally != Some(true))
            + told(
                all.status.data.merge.remote_integration_branch is Some
                    && all.status.data.merge.merged_remotely != Some(true)
            ),
        all.status.data.merge.merged_locally != Some(true)
            ==> sentences(all.merge_findings()).contains(
            "branch is not verified as merged into the local integration branch"@,
        ),
        all.status.data.merge.remote_integration_branch is Some
            && all.status.data.merge.merged_remotely != Some(true)
            ==> sentences(all.merge_findings()).contains(
            "branch is not verified as merged into the configured remote integration branch"@,
        ),
{
    lemma_four_words();
    let applies0 = all.status.data.merge.merged_locally != Some(true);
    let text0 = "branch is not verified as merged into the local integration branch"@;
    let part0 = finding(applies0, text0, "review"@);
    lemma_finding_words(applies0, text0, "review"@);
    lemma_one_finding(applies0, text0, "review"@, "review"@);
    let applies1 = all.status.data.merge.remote_integration_branch is Some
        && all.status.data.merge.merged_remotely != Some(true);
    let text1 = "branch is not verified as merged into the configured remote integration branch"@;
    let part1 = finding(applies1, text1, "review"@);
    lemma_finding_words(applies1, text1, "review"@);
    lemma_one_finding(applies1, text1, "review"@, "review"@);
    lemma_words_of_concat(
        part0,
        part1,
        (applies0 && "review"@ == "in-use"@, applies1 && "review"@ == "in-use"@),
        (applies0 && "review"@ == "unsafe"@, applies1 && "review"@ == "unsafe"@),
    );
    lemma_sentence_of_concat(part0, part1, text0);
    lemma_sentence_of_concat(part0, part1, text1);
    assert(all.merge_findings() == part0 + part1);
}

proof fn lemma_all_told(all: Circumstances)
    ensures
        holds_word(
            all.findings(),
            (all.listed.is_directory && all.processes is Ok && all.processes->Ok_0.len() > 0)
                || (all.record is Some && all.leased),
            (
                all.status.data.changes.staged > 0
                    || all.status.data.changes.unstaged > 0
                    || all.status.data.changes.untracked > 0
                    || all.status.data.changes.conflicted > 0
            )
                || (
                    all.status.data.merge.unique_commits is Some
                        && all.status.data.merge.unique_commits->0 > 0
                ),
        ),
        all.findings().len() == all.place_findings().len() + all.use_findings().len()
            + all.age_findings().len() + all.work_findings().len() + all.merge_findings().len(),
{
    lemma_place_told(all);
    lemma_use_told(all);
    lemma_age_told(all);
    lemma_work_told(all);
    lemma_merge_told(all);
    let used = (all.listed.is_directory && all.processes is Ok && all.processes->Ok_0.len() > 0)
        || (all.record is Some && all.leased);
    let hazardous = (
        all.status.data.changes.staged > 0
            || all.status.data.changes.unstaged > 0
            || all.status.data.changes.untracked > 0
            || all.status.data.changes.conflicted > 0
    )
        || (
            all.status.data.merge.unique_commits is Some
                && all.status.data.merge.unique_commits->0 > 0
        );
    let two = all.place_findings() + all.use_findings();
    let three = two + all.age_findings();
    let four = three + all.work_findings();
    lemma_words_of_concat(all.place_findings(), all.use_findings(), (false, used), (false, false));
    lemma_words_of_concat(two, all.age_findings(), (used, false), (false, false));
    lemma_words_of_concat(three, all.work_findings(), (used, false), (false, hazardous));
    lemma_words_of_concat(four, all.merge_findings(), (used, false), (hazardous, false));
}

proof fn lemma_strongest_told(all: Circumstances)
    ensures
        all.candidate().classification
            == (if (all.listed.is_directory && all.processes is Ok && all.processes->Ok_0.len() > 0)
            || (all.record is Some && all.leased) {
            "in-use"@
        } else if all.status.data.changes.staged > 0
            || all.status.data.changes.unstaged > 0
            || all.status.data.changes.untracked > 0
            || all.status.data.changes.conflicted > 0
            || (all.status.data.merge.unique_commits is Some
            && all.status.data.merge.unique_commits->0 > 0) {
            "unsafe"@
        } else if all.findings().len() > 0 {
            "review"@
        } else {
            "eligible"@
        }),
{
    lemma_all_told(all);
    lemma_strongest_word(all.findings());
}

proof fn lemma_count(all: Circumstances)
    ensures
        all.candidate().blockers.len() == told(
            same_steps(all.listed.worktree.path, all.primary_root)
        )
            + told(all.listed.worktree.prunable || !all.listed.is_directory)
            + told(all.listed.worktree.locked)
            + told(all.listed.is_directory && all.processes is Ok && all.processes->Ok_0.len() > 0)
            + told(all.listed.is_directory && all.processes is Err)
            + told(all.record is Some && all.leased)
            + told(all.record is Some && age_in_seconds(all) < all.minimum_age)
            + told(all.status.observation_error is Some)
            + told(
                all.status.data.changes.staged > 0
                    || all.status.data.changes.unstaged > 0
                    || all.status.data.changes.untracked > 0
                    || all.status.data.changes.conflicted > 0
            )
            + told(
                all.status.data.merge.unique_commits is Some
                    && all.status.data.merge.unique_commits->0 > 0
            )
            + told(all.status.data.merge.unique_commits is None)
            + told(all.status.data.merge.merged_locally != Some(true))
            + told(
                all.status.data.merge.remote_integration_branch is Some
                    && all.status.data.merge.merged_remotely != Some(true)
            ),
        all.candidate().blockers.len() == all.findings().len(),
{
    lemma_place_told(all);
    lemma_use_told(all);
    lemma_age_told(all);
    lemma_work_told(all);
    lemma_merge_told(all);
    lemma_all_told(all);
}

pub proof fn lemma_eligible(all: Circumstances)
    ensures
        all.candidate().classification == "eligible"@ <==> {
            &&& !same_steps(all.listed.worktree.path, all.primary_root)
            &&& !all.listed.worktree.prunable
            &&& all.listed.is_directory
            &&& !all.listed.worktree.locked
            &&& all.processes is Ok
            &&& all.processes->Ok_0.len() == 0
            &&& !(all.record is Some && all.leased)
            &&& all.record is Some ==> age_in_seconds(all) >= all.minimum_age
            &&& all.status.observation_error is None
            &&& all.status.data.changes.staged == 0
            &&& all.status.data.changes.unstaged == 0
            &&& all.status.data.changes.untracked == 0
            &&& all.status.data.changes.conflicted == 0
            &&& all.status.data.merge.unique_commits == Some(0u32)
            &&& all.status.data.merge.merged_locally == Some(true)
            &&& all.status.data.merge.remote_integration_branch is Some
                ==> all.status.data.merge.merged_remotely == Some(true)
        },
{
    lemma_four_words();
    lemma_strongest_told(all);
    lemma_count(all);
}

proof fn lemma_blockers(all: Circumstances)
    ensures
        same_steps(all.listed.worktree.path, all.primary_root)
            ==> all.candidate().blockers.contains(
            "primary repository worktree cannot be removed"@,
        ),
        all.listed.worktree.prunable || !all.listed.is_directory
            ==> all.candidate().blockers.contains(
            "Git reports the worktree as unavailable"@,
        ),
        all.listed.worktree.locked ==> all.candidate().blockers.contains(
            "Git worktree is locked"@,
        ),
        all.listed.is_directory && all.processes is Ok && all.processes->Ok_0.len() > 0
            ==> all.candidate().blockers.contains(
            "active process(es) use this worktree: "@ + processes_text(all.processes->Ok_0),
        ),
        all.listed.is_directory && all.processes is Err ==> all.candidate().blockers.contains(
            "process ownership is unknown: "@ + all.processes->Err_0.text(),
        ),
        all.record is Some && all.leased ==> all.candidate().blockers.contains(
            "an active ownership lease exists"@,
        ),
        all.record is Some && age_in_seconds(all) < all.minimum_age
            ==> all.candidate().blockers.contains(
            "worktree age is "@
                + signed_decimal(age_in_seconds(all))
                + "s; minimum cleanup age is "@
                + signed_decimal(all.minimum_age as int)
                + "s"@,
        ),
        all.status.observation_error is Some ==> all.candidate().blockers.contains(
            "observation is incomplete: "@ + all.status.observation_error->0,
        ),
        all.status.data.changes.staged > 0
            || all.status.data.changes.unstaged > 0
            || all.status.data.changes.untracked > 0
            || all.status.data.changes.conflicted > 0
            ==> all.candidate().blockers.contains(
            "working tree has "@
                + decimal((all.status.data.changes.entries.len() as int % 0x1_0000_0000) as nat)
                + " dirty file(s)"@,
        ),
        all.status.data.merge.unique_commits is Some && all.status.data.merge.unique_commits->0 > 0
            ==> all.candidate().blockers.contains(
            "branch has "@
                + decimal(all.status.data.merge.unique_commits->0 as nat)
                + " unique commit(s)"@,
        ),
        all.status.data.merge.unique_commits is None ==> all.candidate().blockers.contains(
            "unique commit count is unknown"@,
        ),
        all.status.data.merge.merged_locally != Some(true) ==> all.candidate().blockers.contains(
            "branch is not verified as merged into the local integration branch"@,
        ),
        all.status.data.merge.remote_integration_branch is Some
            && all.status.data.merge.merged_remotely != Some(true)
            ==> all.candidate().blockers.contains(
            "branch is not verified as merged into the configured remote integration branch"@,
        ),
{
    lemma_place_told(all);
    lemma_use_told(all);
    lemma_age_told(all);
    lemma_work_told(all);
    lemma_merge_told(all);
    if same_steps(all.listed.worktree.path, all.primary_root) {
        lemma_sentence_of_part(all, "primary repository worktree cannot be removed"@);
    }
    if all.listed.worktree.prunable || !all.listed.is_directory {
        lemma_sentence_of_part(all, "Git reports the worktree as unavailable"@);
    }
    if all.listed.worktree.locked {
        lemma_sentence_of_part(all, "Git worktree is locked"@);
    }
    if all.listed.is_directory && all.processes is Ok && all.processes->Ok_0.len() > 0 {
        lemma_sentence_of_part(
            all,
            "active process(es) use this worktree: "@ + processes_text(all.processes->Ok_0),
        );
    }
    if all.listed.is_directory && all.processes is Err {
        lemma_sentence_of_part(
            all,
            "process ownership is unknown: "@ + all.processes->Err_0.text(),
        );
    }
    if all.record is Some && all.leased {
        lemma_sentence_of_part(all, "an active ownership lease exists"@);
    }
    if all.record is Some && age_in_seconds(all) < all.minimum_age {
        lemma_sentence_of_part(
            all,
            "worktree age is "@
                + signed_decimal(age_in_seconds(all))
                + "s; minimum cleanup age is "@
                + signed_decimal(all.minimum_age as int)
                + "s"@,
        );
    }
    if all.status.observation_error is Some {
        lemma_sentence_of_part(
            all,
            "observation is incomplete: "@ + all.status.observation_error->0,
        );
    }
    if all.status.data.changes.staged > 0
        || all.status.data.changes.unstaged > 0
        || all.status.data.changes.untracked > 0
        || all.status.data.changes.conflicted > 0 {
        lemma_sentence_of_part(
            all,
            "working tree has "@
                + decimal((all.status.data.changes.entries.len() as int % 0x1_0000_0000) as nat)
                + " dirty file(s)"@,
        );
    }
    if all.status.data.merge.unique_commits is Some && all.status.data.merge.unique_commits->0 > 0 {
        lemma_sentence_of_part(
            all,
            "branch has "@
                + decimal(all.status.data.merge.unique_commits->0 as nat)
                + " unique commit(s)"@,
        );
    }
    if all.status.data.merge.unique_commits is None {
        lemma_sentence_of_part(all, "unique commit count is unknown"@);
    }
    if all.status.data.merge.merged_locally != Some(true) {
        lemma_sentence_of_part(
            all,
            "branch is not verified as merged into the local integration branch"@,
        );
    }
    if all.status.data.merge.remote_integration_branch is Some
        && all.status.data.merge.merged_remotely != Some(true) {
        lemma_sentence_of_part(
            all,
            "branch is not verified as merged into the configured remote integration branch"@,
        );
    }
}

/// A worktree that is found eligible for removal is not the repository itself, is there,
/// is not locked, and is used by no process and leased by no session. It was observed
/// completely, nothing in it is staged, unstaged, untracked or conflicted, it has no
/// commits of its own, and it is merged wherever it can be. If the inventory knows it,
/// the time since it was created, or first seen where that is not known, is not less than
/// the minimum age. Whatever meets all of this is eligible.
pub proof fn eligible_worktree_has_nothing_to_lose(
    primary_root: &str,
    listed: &ListedWorktree,
    status: &GitWorktreeStatus,
    processes: &Result<Vec<ProcessInfo>, ProcessError>,
    record: Option<&WorktreeRecord>,
    leased: bool,
    now: i64,
    minimum_age: i64,
    candidate: CleanupCandidate,
)
    requires
        call_ensures(
            assess_worktree,
            (primary_root, listed, status, processes, record, leased, now, minimum_age),
            candidate,
        ),
    ensures
        candidate.classification@ == "eligible"@ <==> {
            &&& !same_steps(listed.worktree.path@, primary_root@)
            &&& !listed.worktree.prunable
            &&& listed.is_directory
            &&& !listed.worktree.locked
            &&& processes is Ok
            &&& processes->Ok_0@.len() == 0
            &&& !(record is Some && leased)
            &&& record is Some ==> saturated(
                now - (match record->0.created_at {
                    Some(created) => created,
                    None => record->0.first_seen_at,
                }),
            ) >= minimum_age
            &&& status.observation_error is None
            &&& status.data.changes.staged == 0
            &&& status.data.changes.unstaged == 0
            &&& status.data.changes.untracked == 0
            &&& status.data.changes.conflicted == 0
            &&& status.data.merge.unique_commits == Some(0u32)
            &&& status.data.merge.merged_locally == Some(true)
            &&& status.data.merge.remote_integration_branch is Some
                ==> status.data.merge.merged_remotely == Some(true)
        },
        candidate.path@ == listed.worktree.path@,
        option_view(candidate.branch) == option_view(listed.worktree.branch),
        candidate.worktree_id is Some <==> record is Some,
        record is Some ==> candidate.worktree_id == Some(record->0.id),
        candidate.reclaimable_bytes == status.data.disk_usage.worktree_bytes,
        candidate.classification@ == "eligible"@ <==> candidate.blockers@.len() == 0,
{
    let all = Circumstances {
        primary_root: primary_root@,
        listed: listed@,
        status: status@,
        processes: processes_view(*processes),
        record: record_view(record),
        leased,
        now,
        minimum_age,
    };
    lemma_eligible(all);
    lemma_count(all);
    lemma_strongest_told(all);
    lemma_four_words();
    assert(views(candidate.blockers@).len() == candidate.blockers@.len());
    if let Ok(list) = processes {
        assert(views(list@).len() == list@.len());
    }
}

/// A worktree that is known for less than the minimum age is never eligible, whether the
/// time of its creation is known or only when it was first seen; and a worktree with
/// anything staged, unstaged, untracked or conflicted never is.
pub proof fn young_or_dirty_worktree_is_kept(
    primary_root: &str,
    listed: &ListedWorktree,
    status: &GitWorktreeStatus,
    processes: &Result<Vec<ProcessInfo>, ProcessError>,
    record: Option<&WorktreeRecord>,
    leased: bool,
    now: i64,
    minimum_age: i64,
    candidate: CleanupCandidate,
)
    requires
        call_ensures(
            assess_worktree,
            (primary_root, listed, status, processes, record, leased, now, minimum_age),
            candidate,
        ),
        (record is Some && record->0.created_at is Some && now - record->0.created_at->0
            < minimum_age) || (record is Some && record->0.created_at is None && now
            - record->0.first_seen_at < minimum_age) || status.data.changes.staged > 0
            || status.data.changes.unstaged > 0 || status.data.changes.untracked > 0
            || status.data.changes.conflicted > 0,
        minimum_age > i64::MIN,
    ensures
        candidate.classification@ != "eligible"@,
        candidate.blockers@.len() > 0,
{
    eligible_worktree_has_nothing_to_lose(
        primary_root,
        listed,
        status,
        processes,
        record,
        leased,
        now,
        minimum_age,
        candidate,
    );
}

/// A worktree in which a process works or on which a session holds a lease is in use,
/// whatever else is known of it. Where nobody uses it, uncommitted work or commits of its
/// own make it unsafe to remove. Whatever else stands against its removal has to be
/// reviewed.
pub proof fn use_and_work_are_told_apart(
    primary_root: &str,
    listed: &ListedWorktree,
    status: &GitWorktreeStatus,
    processes: &Result<Vec<ProcessInfo>, ProcessError>,
    record: Option<&WorktreeRecord>,
    leased: bool,
    now: i64,
    minimum_age: i64,
    candidate: CleanupCandidate,
)
    requires
        call_ensures(
            assess_worktree,
            (primary_root, listed, status, processes, record, leased, now, minimum_age),
            candidate,
        ),
    ensures
        candidate.classification@ == "in-use"@ <==> (
            listed.is_directory && processes is Ok && processes->Ok_0@.len() > 0
        ) || (record is Some && leased),
        candidate.classification@ == "unsafe"@ <==> !(
            (listed.is_directory && processes is Ok && processes->Ok_0@.len() > 0)
                || (record is Some && leased)
        )
            && (
            status.data.changes.staged > 0
                || status.data.changes.unstaged > 0
                || status.data.changes.untracked > 0
                || status.data.changes.conflicted > 0
                || (
                    status.data.merge.unique_commits is Some
                        && status.data.merge.unique_commits->0 > 0
                )
        ),
        candidate.classification@ == "review"@ <==> candidate.blockers@.len() > 0 && !(
            (listed.is_directory && processes is Ok && processes->Ok_0@.len() > 0)
                || (record is Some && leased)
        )
            && !(
                status.data.changes.staged > 0
                    || status.data.changes.unstaged > 0
                    || status.data.changes.untracked > 0
                    || status.data.changes.conflicted > 0
                    || (
                        status.data.merge.unique_commits is Some
                            && status.data.merge.unique_commits->0 > 0
                    )
            ),
{
    let all = Circumstances {
        primary_root: primary_root@,
        listed: listed@,
        status: status@,
        processes: processes_view(*processes),
        record: record_view(record),
        leased,
        now,
        minimum_age,
    };
    lemma_count(all);
    lemma_strongest_told(all);
    lemma_all_told(all);
    lemma_work_told(all);
    lemma_use_told(all);
    lemma_four_words();
    assert(views(candidate.blockers@).len() == candidate.blockers@.len());
    if let Ok(list) = processes {
        assert(views(list@).len() == list@.len());
    }
}

/// As many sentences tell of what stands against the removal of a worktree as there are
/// things that do.
pub proof fn nothing_else_is_told(
    primary_root: &str,
    listed: &ListedWorktree,
    status: &GitWorktreeStatus,
    processes: &Result<Vec<ProcessInfo>, ProcessError>,
    record: Option<&WorktreeRecord>,
    leased: bool,
    now: i64,
    minimum_age: i64,
    candidate: CleanupCandidate,
)
    requires
        call_ensures(
            assess_worktree,
            (primary_root, listed, status, processes, record, leased, now, minimum_age),
            candidate,
        ),
    ensures
        candidate.blockers@.len() == told(same_steps(listed.worktree.path@, primary_root@))
            + told(listed.worktree.prunable || !listed.is_directory)
            + told(listed.worktree.locked)
            + told(listed.is_directory && processes is Ok && processes->Ok_0@.len() > 0)
            + told(listed.is_directory && processes is Err)
            + told(record is Some && leased)
            + told(
                record is Some && saturated(
                    now - (match record->0.created_at {
                        Some(created) => created,
                        None => record->0.first_seen_at,
                    }),
                ) < minimum_age,
            )
            + told(status.observation_error is Some)
            + told(
                status.data.changes.staged > 0
                    || status.data.changes.unstaged > 0
                    || status.data.changes.untracked > 0
                    || status.data.changes.conflicted > 0,
            )
            + told(
                status.data.merge.unique_commits is Some
                    && status.data.merge.unique_commits->0 > 0,
            )
            + told(status.data.merge.unique_commits is None)
            + told(status.data.merge.merged_locally != Some(true))
            + told(
                status.data.merge.remote_integration_branch is Some
                    && status.data.merge.merged_remotely != Some(true),
            ),
{
    let all = Circumstances {
        primary_root: primary_root@,
        listed: listed@,
        status: status@,
        processes: processes_view(*processes),
        record: record_view(record),
        leased,
        now,
        minimum_age,
    };
    lemma_count(all);
    assert(views(candidate.blockers@).len() == candidate.blockers@.len());
    if let Ok(list) = processes {
        assert(views(list@).len() == list@.len());
    }
}

/// Each thing that stands against the removal of a worktree is told by a sentence of its
/// own.
pub proof fn every_blocker_is_told(
    primary_root: &str,
    listed: &ListedWorktree,
    status: &GitWorktreeStatus,
    processes: &Result<Vec<ProcessInfo>, ProcessError>,
    record: Option<&WorktreeRecord>,
    leased: bool,
    now: i64,
    minimum_age: i64,
    candidate: CleanupCandidate,
)
    requires
        call_ensures(
            assess_worktree,
            (primary_root, listed, status, processes, record, leased, now, minimum_age),
            candidate,
        ),
    ensures
        same_steps(listed.worktree.path@, primary_root@) ==> views(candidate.blockers@).contains(
            "primary repository worktree cannot be removed"@,
        ),
        listed.worktree.prunable || !listed.is_directory ==> views(candidate.blockers@).contains(
            "Git reports the worktree as unavailable"@,
        ),
        listed.worktree.locked ==> views(candidate.blockers@).contains(
            "Git worktree is locked"@,
        ),
        listed.is_directory && processes is Ok && processes->Ok_0@.len() > 0
            ==> views(candidate.blockers@).contains(
            "active process(es) use this worktree: "@ + processes_text(views(processes->Ok_0@)),
        ),
        listed.is_directory && processes is Err ==> views(candidate.blockers@).contains(
            "process ownership is unknown: "@ + processes->Err_0@.text(),
        ),
        record is Some && leased ==> views(candidate.blockers@).contains(
            "an active ownership lease exists"@,
        ),
        record is Some && saturated(
            now - (
                match record->0.created_at {
                    Some(created) => created,
                    None => record->0.first_seen_at,
                }
            )
        ) < minimum_age
            ==> views(candidate.blockers@).contains(
            "worktree age is "@ + signed_decimal(
                saturated(
                    now - (
                        match record->0.created_at {
                            Some(created) => created,
                            None => record->0.first_seen_at,
                        }
                    )
                )
            ) + "s; minimum cleanup age is "@ + signed_decimal(minimum_age as int) + "s"@,
        ),
        status.observation_error is Some ==> views(candidate.blockers@).contains(
            "observation is incomplete: "@ + status.observation_error->0@,
        ),
        status.data.changes.staged > 0
            || status.data.changes.unstaged > 0
            || status.data.changes.untracked > 0
            || status.data.changes.conflicted > 0
            ==> views(candidate.blockers@).contains(
            "working tree has "@
                + decimal((status.data.changes.entries@.len() as int % 0x1_0000_0000) as nat)
                + " dirty file(s)"@,
        ),
        status.data.merge.unique_commits is Some && status.data.merge.unique_commits->0 > 0
            ==> views(candidate.blockers@).contains(
            "branch has "@
                + decimal(status.data.merge.unique_commits->0 as nat)
                + " unique commit(s)"@,
        ),
        status.data.merge.unique_commits is None ==> views(candidate.blockers@).contains(
            "unique commit count is unknown"@,
        ),
        status.data.merge.merged_locally != Some(true) ==> views(candidate.blockers@).contains(
            "branch is not verified as merged into the local integration branch"@,
        ),
        status.data.merge.remote_integration_branch is Some
            && status.data.merge.merged_remotely != Some(true)
            ==> views(candidate.blockers@).contains(
            "branch is not verified as merged into the configured remote integration branch"@,
        ),
{
    let all = Circumstances {
        primary_root: primary_root@,
        listed: listed@,
        status: status@,
        processes: processes_view(*processes),
        record: record_view(record),
        leased,
        now,
        minimum_age,
    };
    lemma_blockers(all);
    if let Ok(list) = processes {
        assert(views(list@).len() == list@.len());
    }
}

/// The time between two moments is their difference, and the largest or smallest number
/// of 64 bits where it is beyond them.
pub proof fn time_between_saturates(now: i64, since: i64, seconds: i64)
    requires
        call_ensures(seconds_between, (now, since), seconds),
    ensures
        i64::MIN <= now - since <= i64::MAX ==> seconds == now - since,
        now - since > i64::MAX ==> seconds == i64::MAX,
        now - since < i64::MIN ==> seconds == i64::MIN,
{
}

/// Where the changes of a worktree are what Git printed of them, an eligible worktree has
/// no entries: nothing is staged, unstaged, untracked or conflicted, and Git printed
/// nothing but ignored files.
pub proof fn eligible_worktree_has_no_entries(
    changes: Seq<PrintedChange>,
    output: &[u8],
    read: Result<ChangeSummary, GitError>,
    dirty: bool,
    word: &'static str,
    primary_root: &str,
    listed: &ListedWorktree,
    status: &GitWorktreeStatus,
    processes: &Result<Vec<ProcessInfo>, ProcessError>,
    record: Option<&WorktreeRecord>,
    leased: bool,
    now: i64,
    minimum_age: i64,
    candidate: CleanupCandidate,
)
    requires
        forall|k: int| 0 <= k < changes.len() ==> (#[trigger] changes[k]).is_proper(),
        forall|k: int|
            0 <= k < changes.len() ==> are_paired(
                (#[trigger] changes[k]).index as char,
                changes[k].worktree as char,
            ),
        output@ == closed_by(change_fields(changes), 0u8),
        call_ensures(parse_status_porcelain, (output,), read),
        read is Ok,
        call_ensures(ChangeSummary::dirty, (&read->Ok_0,), dirty),
        call_ensures(ChangeSummary::state, (&read->Ok_0,), word),
        status.data.changes == read->Ok_0,
        call_ensures(
            assess_worktree,
            (primary_root, listed, status, processes, record, leased, now, minimum_age),
            candidate,
        ),
        candidate.classification@ == "eligible"@,
    ensures
        !dirty,
        word@ == "clean"@,
        status.data.changes.entries@.len() == 0,
        forall|k: int| 0 <= k < changes.len() ==> (#[trigger] changes[k]).is_ignored(),
{
    eligible_worktree_has_nothing_to_lose(
        primary_root,
        listed,
        status,
        processes,
        record,
        leased,
        now,
        minimum_age,
        candidate,
    );
    changes_make_a_worktree_dirty(output, read, dirty, word);
    printed_changes_make_a_worktree_dirty(changes, output, read, dirty, word);
}

} // verus!
