//! What Git answers to single questions is read as Git means it.

use crate::git::error::GitError;
use crate::git::meaning::lacks;
use crate::git::meaning::lemma_encoded_text;
use crate::git::meaning::lemma_no_nul;
use crate::git::meaning::no_nul;
use crate::git::reads::CommandOutput;
use crate::git::reads::read_last_commit;
use crate::git::reads::read_optional_answer;
use crate::git::reads::read_upstream_status;
use crate::git::reads::rev_list_count;
use crate::model::CommitSummary;
use crate::model::UpstreamStatus;
use crate::numeral::decimal;
use crate::numeral::decimal_reads_back;
use crate::numeral::is_digit;
use crate::numeral::NumberError;
use crate::numeral::unsigned_value;
use crate::text::is_space;
use crate::text::option_view;
use crate::text::pieces;
use crate::text::trim_end_text;
use crate::text::trim_start_text;
use crate::text::trim_text;
use crate::text::words_text;
use crate::wording::is_word;
use crate::wording::lemma_piece_added;
use crate::wording::lemma_word_added;
use vstd::prelude::*;
use vstd::utf8::encode_utf8;

verus! {

// ---------------------------------------------------------------------------
// Words and numbers
// ---------------------------------------------------------------------------

proof fn lemma_number_word(number: nat)
    requires
        number <= 0xffff_ffff,
    ensures
        is_word(decimal(number)),
        unsigned_value(decimal(number), 0xffff_ffff) == Ok::<nat, NumberError>(number),
{
    decimal_reads_back(number, 0xffff_ffff);
    let text = decimal(number);
    assert forall|i: int| 0 <= i < text.len() implies !is_space(#[trigger] text[i]) by {
        assert(is_digit(text[i]));
    }
    assert(is_digit(text[0]));
}

proof fn lemma_blanks()
    ensures
        is_space('\t'),
        is_space('\n'),
        is_space(' '),
{
}

// ---------------------------------------------------------------------------
// Numbers of commits
// ---------------------------------------------------------------------------

/// Git counts the commits on the left of the three dots, the worktree's own, first, and
/// those of the upstream second. For all numbers below 2^32, the line of those two
/// numbers with a tab between them is read so that the first says how far the branch is
/// ahead and the second how far it is behind.
pub proof fn ahead_and_behind_are_read_back(
    name: String,
    ahead: u32,
    behind: u32,
    counts: CommandOutput,
    result: Result<UpstreamStatus, GitError>,
)
    requires
        counts.code == Some(0i32),
        counts.stdout@ == encode_utf8(
            decimal(ahead as nat).push('\t') + decimal(behind as nat).push('\n'),
        ),
        call_ensures(read_upstream_status, (name, counts), result),
    ensures
        result matches Ok(status) && {
            &&& status.ahead == Some(ahead)
            &&& status.behind == Some(behind)
            &&& option_view(status.name) == Some(name@)
        },
{
    let first = decimal(ahead as nat).push('\t');
    let second = decimal(behind as nat);
    let text = first + second.push('\n');
    lemma_encoded_text(text);
    lemma_blanks();
    lemma_number_word(ahead as nat);
    lemma_number_word(behind as nat);
    lemma_word_added(seq![], decimal(ahead as nat));
    assert(seq![] + decimal(ahead as nat) =~= decimal(ahead as nat));
    assert(first.drop_last() =~= decimal(ahead as nat));
    lemma_word_added(first, second);
    assert(text.drop_last() =~= first + second);
    assert(text.last() == '\n');
    assert(words_text(text) == words_text(first + second));
    assert(words_text(first) == words_text(decimal(ahead as nat)));
    assert(words_text(seq![]) =~= seq![]);
    assert(words_text(text)[0] == decimal(ahead as nat));
    assert(words_text(text)[1] == decimal(behind as nat));
}

/// The number of commits of its own is read as Git printed it. A question that failed has
/// no number for an answer.
pub proof fn own_commits_are_read_back(
    number: u32,
    output: &CommandOutput,
    result: Result<Option<u32>, GitError>,
)
    requires
        output.stdout@ == encode_utf8(decimal(number as nat).push('\n')),
        call_ensures(rev_list_count, (output,), result),
    ensures
        output.code == Some(0i32) ==> result is Ok && result->Ok_0 == Some(number),
        output.code != Some(0i32) ==> result is Ok && result->Ok_0 is None,
{
    let word = decimal(number as nat);
    let text = word.push('\n');
    lemma_encoded_text(text);
    lemma_blanks();
    lemma_number_word(number as nat);
    lemma_word_added(seq![], word);
    assert(seq![] + word =~= word);
    assert(text.drop_last() =~= word);
    assert(words_text(seq![]) =~= seq![]);
    assert(words_text(text)[0] == word);
}

/// The upstream of a branch is known only where Git could count: a count that failed is
/// an error, whatever it printed.
pub proof fn upstream_needs_its_counts(
    name: String,
    counts: CommandOutput,
    result: Result<UpstreamStatus, GitError>,
)
    requires
        counts.code != Some(0i32),
        call_ensures(read_upstream_status, (name, counts), result),
    ensures
        result is Err,
{
}

// ---------------------------------------------------------------------------
// Texts
// ---------------------------------------------------------------------------

/// Whether a text neither begins nor ends with white space.
pub open spec fn is_trim(text: Seq<char>) -> bool {
    text.len() > 0 ==> !is_space(text[0]) && !is_space(text.last())
}

pub proof fn lemma_trimmed(text: Seq<char>)
    requires
        is_trim(text),
    ensures
        trim_text(text) == text,
        trim_end_text(text) == text,
        trim_text(text.push('\n')) == text,
        trim_end_text(text.push('\n')) == text,
{
    let line = text.push('\n');
    assert(line.drop_last() =~= text);
    assert(trim_end_text(line) == trim_end_text(text));
    reveal_with_fuel(trim_end_text, 2);
    reveal_with_fuel(trim_start_text, 2);
    if text.len() == 0 {
        assert(text =~= seq![]);
        assert(line.drop_first() =~= seq![]);
    } else {
        assert(line[0] == text[0]);
    }
}

/// What Git answers in a line of its own is read without the end of the line. A question
/// that failed has no answer, and neither has one that was answered with nothing.
pub proof fn answers_are_read_back(
    answer: Seq<char>,
    output: &CommandOutput,
    result: Result<Option<String>, GitError>,
)
    requires
        is_trim(answer),
        output.stdout@ == encode_utf8(answer.push('\n')),
        call_ensures(read_optional_answer, (output,), result),
    ensures
        result is Ok,
        output.code == Some(0i32) && answer.len() > 0 ==> option_view(result->Ok_0) == Some(answer),
        output.code != Some(0i32) || answer.len() == 0 ==> result->Ok_0 is None,
{
    lemma_encoded_text(answer.push('\n'));
    lemma_trimmed(answer);
}

proof fn lemma_four_pieces(a: Seq<u8>, b: Seq<u8>, c: Seq<u8>, d: Seq<u8>)
    requires
        lacks(a, 0u8),
        lacks(b, 0u8),
        lacks(c, 0u8),
        lacks(d, 0u8),
    ensures
        pieces(a.push(0u8) + b.push(0u8) + c.push(0u8) + d, 0u8) == seq![a, b, c, d],
{
    lemma_piece_added(seq![], a, 0u8);
    lemma_piece_added(a.push(0u8), b, 0u8);
    lemma_piece_added(a.push(0u8) + b.push(0u8), c, 0u8);
    lemma_piece_added(a.push(0u8) + b.push(0u8) + c.push(0u8), d, 0u8);
    assert(seq![] + a =~= a);
    assert(pieces(seq![], 0u8) =~= seq![seq![]]);
    assert(a.push(0u8).drop_last() =~= a);
    assert((a.push(0u8) + b.push(0u8)).drop_last() =~= a.push(0u8) + b);
    assert((a.push(0u8) + b.push(0u8) + c.push(0u8)).drop_last() =~= a.push(0u8) + b.push(0u8) + c);
    assert(pieces(a, 0u8) =~= seq![a]);
    assert(pieces(a.push(0u8) + b, 0u8) =~= seq![a, b]);
    assert(pieces(a.push(0u8) + b.push(0u8) + c, 0u8) =~= seq![a, b, c]);
    assert(pieces(a.push(0u8) + b.push(0u8) + c.push(0u8) + d, 0u8) =~= seq![a, b, c, d]);
}

/// The last commit is read as Git printed it: its name, who made it, when, and what its
/// first line says. Where Git fails, there is none.
pub proof fn last_commit_is_read_back(
    id: Seq<char>,
    author: Seq<char>,
    date: Seq<char>,
    subject: Seq<char>,
    output: CommandOutput,
    result: Result<Option<CommitSummary>, GitError>,
)
    requires
        id.len() > 0,
        is_trim(id) && no_nul(id),
        is_trim(author) && no_nul(author),
        is_trim(date) && no_nul(date),
        is_trim(subject) && no_nul(subject),
        output.stdout@ == encode_utf8(id).push(0u8) + encode_utf8(author).push(0u8) + encode_utf8(
            date,
        ).push(0u8) + encode_utf8(subject.push('\n')),
        call_ensures(read_last_commit, (output,), result),
    ensures
        output.code != Some(0i32) ==> result is Ok && result->Ok_0 is None,
        output.code == Some(0i32) ==> result is Ok && result->Ok_0 is Some && {
            let commit = result->Ok_0->0;
            &&& commit.id@ == id
            &&& option_view(commit.author) == Some(author)
            &&& option_view(commit.committed_at) == Some(date)
            &&& option_view(commit.subject) == Some(subject)
        },
{
    let line = subject.push('\n');
    assert(no_nul(line));
    lemma_no_nul(id);
    lemma_no_nul(author);
    lemma_no_nul(date);
    lemma_no_nul(line);
    lemma_four_pieces(encode_utf8(id), encode_utf8(author), encode_utf8(date), encode_utf8(line));
    lemma_encoded_text(id);
    lemma_encoded_text(author);
    lemma_encoded_text(date);
    lemma_encoded_text(line);
    lemma_trimmed(id);
    lemma_trimmed(author);
    lemma_trimmed(date);
    lemma_trimmed(subject);
}

} // verus!
