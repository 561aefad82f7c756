//! The results of commands, as the program shows them.

use crate::cli::error::CliError;
use crate::cli::error::CliErrorView;
use crate::cli::page::Page;
use crate::cli::page::aligned_left;
use crate::cli::page::pad_right;
use crate::cli::page::shortened;
use crate::cli::page::truncate;
use crate::json::parser::parse;
use crate::json::parser::parse_text;
use crate::json::value::Json;
use crate::json::value::Value;
use crate::json::value::item_views;
use crate::json::value::lemma_item_views;
use crate::json::value::optional_text;
use crate::json::value::optional_truth;
use crate::json::value::required_text;
use crate::json::writer::array;
use crate::json::writer::slice_view;
use crate::json::writer::string;
use crate::text::concat3;
use crate::text::concat;
use crate::text::join;
use crate::text::join_text;
use crate::text::views;
use vstd::prelude::*;

verus! {

/// What a command shows: lines, and the error after which there are no more.
pub struct Shown {
    pub lines: Seq<Seq<char>>,
    pub failure: Option<CliErrorView>,
}

/// Lines with nothing wrong.
pub open spec fn fine(lines: Seq<Seq<char>>) -> Shown {
    Shown { lines, failure: None }
}

/// Lines after which something went wrong.
pub open spec fn broken(lines: Seq<Seq<char>>, message: Seq<char>) -> Shown {
    Shown { lines, failure: Some(CliErrorView::Io(message)) }
}

/// Whether lines and an outcome are those that a command shows.
pub open spec fn shows(page: Page, outcome: Result<(), CliError>, shown: Shown) -> bool {
    &&& page@ == shown.lines
    &&& match outcome {
        Ok(()) => shown.failure is None,
        Err(error) => shown.failure == Some(error@),
    }
}

fn show_broken(page: Page, message: String) -> (result: (Page, Result<(), CliError>))
    ensures
        result.0@ == page@,
        result.1 matches Err(error) && error@ == CliErrorView::Io(message@),
{
    (page, Err(CliError::Io(message)))
}

fn show_line(line: String) -> (result: (Page, Result<(), CliError>))
    ensures
        shows(result.0, result.1, fine(seq![line@])),
{
    let mut page = Page::new();
    page.add_line(line);
    assert(page@ =~= seq![line@]);
    (page, Ok(()))
}

/// A truth value, or `false` where there is none.
pub open spec fn or_false(truth: Option<bool>) -> bool {
    truth == Some(true)
}

fn is_true(truth: Option<bool>) -> (result: bool)
    ensures
        result == or_false(truth),
{
    match truth {
        Some(value) => value,
        None => false,
    }
}

/// A text, or another where there is none.
pub open spec fn or_text(text: Option<Seq<char>>, other: Seq<char>) -> Seq<char> {
    match text {
        Some(given) => given,
        None => other,
    }
}

fn text_or<'a>(text: Option<&'a str>, other: &'a str) -> (result: &'a str)
    ensures
        result@ == or_text(slice_view(text), other@),
{
    match text {
        Some(given) => given,
        None => other,
    }
}

// ---------------------------------------------------------------------------
// Creating
// ---------------------------------------------------------------------------

/// What `create` shows of a result.
pub open spec fn created(value: Json) -> Shown {
    match required_text(value, "path"@) {
        Err(message) => broken(seq![], message),
        Ok(path) => match optional_text(value, "branch"@) {
            Err(message) => broken(seq![], message),
            Ok(branch) => match optional_truth(value, "already_existed"@) {
                Err(message) => broken(seq![], message),
                Ok(existed) => fine(
                    seq![
                        (if or_false(existed) {
                            "Reused"@
                        } else {
                            "Created"@
                        }) + " worktree "@ + or_text(branch, "(detached)"@) + " at "@ + path,
                    ],
                ),
            },
        },
    }
}

/// What a command shows of a printed result: the result itself, or what it says.
pub open spec fn shown_result(
    result_json: Seq<char>,
    json_output: bool,
    told: spec_fn(Json) -> Shown,
) -> Shown {
    if json_output {
        fine(seq![result_json])
    } else {
        match parse_text(result_json) {
            Err(error) => broken(seq![], error.text()),
            Ok(value) => told(value),
        }
    }
}

fn tell_created(value: &Value) -> (result: (Page, Result<(), CliError>))
    ensures
        shows(result.0, result.1, created(value@)),
{
    let path = match value.required_string("path") {
        Ok(path) => path,
        Err(message) => return show_broken(Page::new(), message),
    };
    let branch = match value.optional_string("branch") {
        Ok(branch) => text_or(branch, "(detached)"),
        Err(message) => return show_broken(Page::new(), message),
    };
    let existed = match value.optional_bool("already_existed") {
        Ok(existed) => is_true(existed),
        Err(message) => return show_broken(Page::new(), message),
    };
    let word = if existed {
        "Reused"
    } else {
        "Created"
    };
    let mut line = concat3(word, " worktree ", branch);
    line.append(" at ");
    line.append(path);
    show_line(line)
}

/// Shows the result of `create`.
pub fn render_create_result(result_json: &str, json_output: bool) -> (result: (
    Page,
    Result<(), CliError>,
))
    ensures
        shows(
            result.0,
            result.1,
            shown_result(result_json@, json_output, |value: Json| created(value)),
        ),
{
    if json_output {
        return show_line(result_json.to_owned());
    }
    match parse(result_json) {
        Ok(value) => tell_created(&value),
        Err(error) => show_broken(Page::new(), error.to_text()),
    }
}

// ---------------------------------------------------------------------------
// Locking
// ---------------------------------------------------------------------------

/// What `lock` or `unlock` shows of a result.
pub open spec fn locked(value: Json, lock: bool) -> Shown {
    match required_text(value, "path"@) {
        Err(message) => broken(seq![], message),
        Ok(path) => match optional_truth(value, "already_in_requested_state"@) {
            Err(message) => broken(seq![], message),
            Ok(already) => if or_false(already) {
                match optional_text(value, "lock_reason"@) {
                    Err(message) => broken(seq![], message),
                    Ok(reason) => fine(
                        seq![
                            path + " already "@ + (if lock {
                                "locked"@
                            } else {
                                "unlocked"@
                            }) + ": "@ + or_text(reason, ""@),
                        ],
                    ),
                }
            } else {
                fine(
                    seq![
                        (if lock {
                            "Locked "@
                        } else {
                            "Unlocked "@
                        }) + path,
                    ],
                )
            },
        },
    }
}

fn tell_locked(value: &Value, lock: bool) -> (result: (Page, Result<(), CliError>))
    ensures
        shows(result.0, result.1, locked(value@, lock)),
{
    let path = match value.required_string("path") {
        Ok(path) => path,
        Err(message) => return show_broken(Page::new(), message),
    };
    let already = match value.optional_bool("already_in_requested_state") {
        Ok(already) => is_true(already),
        Err(message) => return show_broken(Page::new(), message),
    };
    if !already {
        let word = if lock {
            "Locked "
        } else {
            "Unlocked "
        };
        return show_line(concat(word, path));
    }
    let reason = match value.optional_string("lock_reason") {
        Ok(reason) => text_or(reason, ""),
        Err(message) => return show_broken(Page::new(), message),
    };
    let word = if lock {
        "locked"
    } else {
        "unlocked"
    };
    let mut line = concat3(path, " already ", word);
    line.append(": ");
    line.append(reason);
    show_line(line)
}

/// Shows the result of `lock` or `unlock`.
pub fn render_lock_result(result_json: &str, lock: bool, json_output: bool) -> (result: (
    Page,
    Result<(), CliError>,
))
    ensures
        shows(
            result.0,
            result.1,
            shown_result(result_json@, json_output, |value: Json| locked(value, lock)),
        ),
{
    if json_output {
        return show_line(result_json.to_owned());
    }
    match parse(result_json) {
        Ok(value) => tell_locked(&value, lock),
        Err(error) => show_broken(Page::new(), error.to_text()),
    }
}

// ---------------------------------------------------------------------------
// Removing
// ---------------------------------------------------------------------------

/// What `remove` shows of a result.
pub open spec fn removed(value: Json) -> Shown {
    match required_text(value, "path"@) {
        Err(message) => broken(seq![], message),
        Ok(path) => {
            let first = "Removed worktree "@ + path;
            match optional_truth(value, "branch_deleted"@) {
                Err(message) => broken(seq![first], message),
                Ok(deleted) => if or_false(deleted) {
                    match optional_text(value, "branch"@) {
                        Err(message) => broken(seq![first], message),
                        Ok(None) => fine(seq![first]),
                        Ok(Some(branch)) => fine(seq![first, "Deleted branch "@ + branch]),
                    }
                } else {
                    fine(seq![first])
                },
            }
        },
    }
}

fn tell_removed(value: &Value) -> (result: (Page, Result<(), CliError>))
    ensures
        shows(result.0, result.1, removed(value@)),
{
    let path = match value.required_string("path") {
        Ok(path) => path,
        Err(message) => return show_broken(Page::new(), message),
    };
    let mut page = Page::new();
    page.add_pair("Removed worktree ", path);
    assert(page@ =~= seq!["Removed worktree "@ + path@]);
    let deleted = match value.optional_bool("branch_deleted") {
        Ok(deleted) => is_true(deleted),
        Err(message) => return show_broken(page, message),
    };
    if deleted {
        match value.optional_string("branch") {
            Ok(Some(branch)) => {
                page.add_pair("Deleted branch ", branch);
                assert(page@ =~= seq![
                    "Removed worktree "@ + path@,
                    "Deleted branch "@ + branch@,
                ]);
            },
            Ok(None) => {},
            Err(message) => return show_broken(page, message),
        }
    }
    (page, Ok(()))
}

/// Shows the result of `remove`.
pub fn render_remove_result(result_json: &str, json_output: bool) -> (result: (
    Page,
    Result<(), CliError>,
))
    ensures
        shows(
            result.0,
            result.1,
            shown_result(result_json@, json_output, |value: Json| removed(value)),
        ),
{
    if json_output {
        return show_line(result_json.to_owned());
    }
    match parse(result_json) {
        Ok(value) => tell_removed(&value),
        Err(error) => show_broken(Page::new(), error.to_text()),
    }
}

// ---------------------------------------------------------------------------
// Cleanup
// ---------------------------------------------------------------------------

/// The texts that an array holds, if it holds nothing else.
pub open spec fn texts_of(items: Seq<Json>) -> Option<Seq<Seq<char>>>
    decreases items.len(),
{
    if items.len() == 0 {
        Some(seq![])
    } else {
        match (texts_of(items.drop_last()), items.last()) {
            (Some(before), Json::Str(text)) => Some(before.push(text)),
            _ => None,
        }
    }
}

/// The blockers of a candidate.
pub open spec fn blockers_of(candidate: Json) -> Result<Seq<Seq<char>>, Seq<char>> {
    match candidate.field("blockers"@) {
        Some(Json::Array(items)) => match texts_of(items) {
            Some(texts) => Ok(texts),
            None => Err("daemon cleanup blocker is not a string"@),
        },
        _ => Err("daemon cleanup candidate has no blockers array"@),
    }
}

/// The line of a candidate.
pub open spec fn candidate_line(candidate: Json) -> Result<Seq<char>, Seq<char>> {
    match required_text(candidate, "path"@) {
        Err(message) => Err(message),
        Ok(path) => match optional_text(candidate, "branch"@) {
            Err(message) => Err(message),
            Ok(branch) => match required_text(candidate, "classification"@) {
                Err(message) => Err(message),
                Ok(classification) => match blockers_of(candidate) {
                    Err(message) => Err(message),
                    Ok(blockers) => Ok(
                        "  "@ + aligned_left(classification, 8) + " "@ + aligned_left(
                            shortened(or_text(branch, "(detached)"@), 24),
                            24,
                        ) + " "@ + aligned_left(path, 20) + (if blockers.len() == 0 {
                            ""@
                        } else {
                            " \u{2014} "@ + join_text(blockers, ", "@)
                        }),
                    ),
                },
            },
        },
    }
}

/// The lines of the first candidates, up to one that cannot be read.
pub open spec fn candidates_shown(items: Seq<Json>, count: nat) -> Shown
    decreases count,
{
    if count == 0 || count > items.len() {
        fine(seq!["Cleanup candidates:"@])
    } else {
        let before = candidates_shown(items, (count - 1) as nat);
        if before.failure is Some {
            before
        } else {
            match candidate_line(items[count - 1]) {
                Ok(line) => fine(before.lines.push(line)),
                Err(message) => broken(before.lines, message),
            }
        }
    }
}

/// What `cleanup scan` shows of a result.
pub open spec fn scanned(value: Json) -> Shown {
    match value.field("candidates"@) {
        Some(Json::Array(items)) => candidates_shown(items, items.len()),
        _ => broken(seq![], "daemon cleanup response has no candidates array"@),
    }
}

#[verifier::loop_isolation(false)]
fn read_texts(items: &Vec<Value>) -> (texts: Option<Vec<String>>)
    ensures
        match texts {
            Some(found) => texts_of(item_views(items@)) == Some(views(found@)),
            None => texts_of(item_views(items@)) is None,
        },
{
    broadcast use lemma_item_views;

    let ghost all = item_views(items@);
    let mut found: Vec<String> = Vec::new();
    let mut i: usize = 0;
    assert(all.take(0) =~= seq![]);
    assert(views(found@) =~= seq![]);
    while i < items.len()
        invariant
            i <= items.len(),
            all == item_views(items@),
            texts_of(all.take(i as int)) == Some(views(found@)),
        decreases items.len() - i,
    {
        assert(all.take(i + 1).drop_last() =~= all.take(i as int));
        assert(all.take(i + 1).last() == items@[i as int]@);
        match &items[i] {
            Value::String(text) => {
                let ghost before = found@;
                found.push(text.clone());
                assert(views(found@) =~= views(before).push(text@));
            },
            _ => {
                proof {
                    lemma_texts_stop(all, i as int + 1);
                }
                return None;
            },
        }
        i += 1;
    }
    assert(all.take(i as int) =~= all);
    Some(found)
}

proof fn lemma_texts_stop(items: Seq<Json>, count: int)
    requires
        0 <= count <= items.len(),
        texts_of(items.take(count)) is None,
    ensures
        texts_of(items) is None,
    decreases items.len() - count,
{
    if count < items.len() {
        assert(items.take(count + 1).drop_last() =~= items.take(count));
        lemma_texts_stop(items, count + 1);
    } else {
        assert(items.take(count) =~= items);
    }
}

fn read_blockers(candidate: &Value) -> (result: Result<Vec<String>, String>)
    ensures
        match (result, blockers_of(candidate@)) {
            (Ok(texts), Ok(expected)) => views(texts@) == expected,
            (Err(message), Err(expected)) => message@ == expected,
            _ => false,
        },
{
    match candidate.object_field("blockers") {
        Some(Value::Array(items)) => match read_texts(items) {
            Some(texts) => Ok(texts),
            None => Err("daemon cleanup blocker is not a string".to_owned()),
        },
        _ => Err("daemon cleanup candidate has no blockers array".to_owned()),
    }
}

fn print_candidate(candidate: &Value) -> (result: Result<String, String>)
    ensures
        match (result, candidate_line(candidate@)) {
            (Ok(line), Ok(expected)) => line@ == expected,
            (Err(message), Err(expected)) => message@ == expected,
            _ => false,
        },
{
    let path = match candidate.required_string("path") {
        Ok(path) => path,
        Err(message) => return Err(message),
    };
    let branch = match candidate.optional_string("branch") {
        Ok(branch) => text_or(branch, "(detached)"),
        Err(message) => return Err(message),
    };
    let classification = match candidate.required_string("classification") {
        Ok(classification) => classification,
        Err(message) => return Err(message),
    };
    let blockers = match read_blockers(candidate) {
        Ok(blockers) => blockers,
        Err(message) => return Err(message),
    };
    let first = pad_right(classification, 8);
    let short = truncate(branch, 24);
    let second = pad_right(&short, 24);
    let third = pad_right(path, 20);
    let mut line = concat3("  ", &first, " ");
    line.append(&second);
    line.append(" ");
    line.append(&third);
    if blockers.len() == 0 {
        line.append("");
    } else {
        let listed = join(&blockers, ", ");
        let reasons = concat(" \u{2014} ", &listed);
        line.append(&reasons);
    }
    Ok(line)
}

proof fn lemma_candidates_stop(items: Seq<Json>, from: nat, to: nat)
    requires
        from <= to <= items.len(),
        candidates_shown(items, from).failure is Some,
    ensures
        candidates_shown(items, to) == candidates_shown(items, from),
    decreases to - from,
{
    if from < to {
        lemma_candidates_stop(items, from, (to - 1) as nat);
    }
}

#[verifier::loop_isolation(false)]
fn tell_candidates(items: &Vec<Value>) -> (result: (Page, Result<(), CliError>))
    ensures
        shows(
            result.0,
            result.1,
            candidates_shown(item_views(items@), item_views(items@).len()),
        ),
{
    broadcast use lemma_item_views;

    let ghost all = item_views(items@);
    let mut page = Page::new();
    page.add_line("Cleanup candidates:".to_owned());
    assert(page@ =~= seq!["Cleanup candidates:"@]);
    let mut i: usize = 0;
    while i < items.len()
        invariant
            i <= items.len(),
            all == item_views(items@),
            candidates_shown(all, i as nat) == fine(page@),
        decreases items.len() - i,
    {
        assert(all[i as int] == items@[i as int]@);
        match print_candidate(&items[i]) {
            Ok(line) => {
                page.add_line(line);
            },
            Err(message) => {
                proof {
                    lemma_candidates_stop(all, (i + 1) as nat, all.len());
                }
                return show_broken(page, message);
            },
        }
        i += 1;
    }
    (page, Ok(()))
}

fn tell_scanned(value: &Value) -> (result: (Page, Result<(), CliError>))
    ensures
        shows(result.0, result.1, scanned(value@)),
{
    match value.object_field("candidates") {
        Some(Value::Array(items)) => tell_candidates(items),
        _ => show_broken(
            Page::new(),
            "daemon cleanup response has no candidates array".to_owned(),
        ),
    }
}

/// Shows the result of `cleanup scan`.
pub fn render_cleanup_result(result_json: &str, json_output: bool) -> (result: (
    Page,
    Result<(), CliError>,
))
    ensures
        shows(
            result.0,
            result.1,
            shown_result(result_json@, json_output, |value: Json| scanned(value)),
        ),
{
    if json_output {
        return show_line(result_json.to_owned());
    }
    match parse(result_json) {
        Ok(value) => tell_scanned(&value),
        Err(error) => show_broken(Page::new(), error.to_text()),
    }
}

} // verus!
