//! What a command asks for is what the daemon understands, and what scripts read
//! names its version first.

use crate::cli::requests::cleanup_params_json;
use crate::cli::requests::create_params_json;
use crate::cli::requests::lock_params_json;
use crate::cli::requests::remove_params_json;
use crate::daemon::command::command_of;
use crate::daemon::command::text_or;
use crate::daemon::command::CommandView;
use crate::daemon::replies::cleanup_json;
use crate::git::repository::GitRepositoryView;
use crate::git::worktree::GitWorktreeStatusView;
use crate::json::value::first_field;
use crate::json::value::Json;
use crate::json::writer::field_text;
use crate::json::writer::field_texts;
use crate::json::writer::json_text;
use crate::json::writer::lemma_field_texts;
use crate::service::types::CleanupCandidateView;
use crate::service::types::CreateRequestView;
use crate::service::types::CreateResultView;
use crate::service::types::LockResultView;
use crate::service::types::RemoveResultView;
use crate::text::join_text;
use vstd::prelude::*;

verus! {

proof fn lemma_methods()
    ensures
        "create"@ != "ping"@,
        "create"@ != "refresh"@,
        "lock"@ != "ping"@,
        "lock"@ != "refresh"@,
        "lock"@ != "create"@,
        "unlock"@ != "ping"@,
        "unlock"@ != "refresh"@,
        "unlock"@ != "create"@,
        "unlock"@ != "lock"@,
        "cleanup_scan"@ != "ping"@,
        "cleanup_scan"@ != "refresh"@,
        "cleanup_scan"@ != "create"@,
        "cleanup_scan"@ != "lock"@,
        "cleanup_scan"@ != "unlock"@,
        "remove"@ != "ping"@,
        "remove"@ != "refresh"@,
        "remove"@ != "create"@,
        "remove"@ != "lock"@,
        "remove"@ != "unlock"@,
        "remove"@ != "cleanup_scan"@,
{
    reveal_strlit("ping");
    reveal_strlit("refresh");
    reveal_strlit("create");
    reveal_strlit("lock");
    reveal_strlit("unlock");
    reveal_strlit("cleanup_scan");
    reveal_strlit("remove");
    assert("ping"@.len() == 4 && "ping"@[0] == 'p');
    assert("refresh"@.len() == 7);
    assert("create"@.len() == 6 && "create"@[0] == 'c');
    assert("lock"@.len() == 4 && "lock"@[0] == 'l');
    assert("unlock"@.len() == 6 && "unlock"@[0] == 'u');
    assert("cleanup_scan"@.len() == 12);
    assert("remove"@.len() == 6 && "remove"@[0] == 'r');
}

proof fn lemma_keys()
    ensures
        "branch"@ != "base"@,
        "branch"@ != "path"@,
        "branch"@ != "idempotency_key"@,
        "branch"@ != "actor"@,
        "base"@ != "path"@,
        "base"@ != "idempotency_key"@,
        "base"@ != "actor"@,
        "path"@ != "idempotency_key"@,
        "path"@ != "actor"@,
        "path"@ != "reason"@,
        "path"@ != "delete_branch"@,
        "path"@ != "minimum_age_seconds"@,
        "idempotency_key"@ != "actor"@,
        "reason"@ != "actor"@,
        "delete_branch"@ != "minimum_age_seconds"@,
        "delete_branch"@ != "actor"@,
        "minimum_age_seconds"@ != "actor"@,
        "minimum_age_seconds"@ != "base"@,
{
    reveal_strlit("branch");
    reveal_strlit("base");
    reveal_strlit("path");
    reveal_strlit("idempotency_key");
    reveal_strlit("actor");
    reveal_strlit("reason");
    reveal_strlit("delete_branch");
    reveal_strlit("minimum_age_seconds");
    assert("branch"@.len() == 6);
    assert("base"@.len() == 4 && "base"@[0] == 'b');
    assert("path"@.len() == 4 && "path"@[0] == 'p');
    assert("idempotency_key"@.len() == 15);
    assert("actor"@.len() == 5);
    assert("reason"@.len() == 6);
    assert("delete_branch"@.len() == 13);
    assert("minimum_age_seconds"@.len() == 19);
}

/// The request that `create` makes is the one that the daemon carries out. Where
/// it has no idempotency key, the identifier of the request serves as one.
pub proof fn create_is_understood(
    request_id: Seq<char>,
    request: CreateRequestView,
    default_age: i64,
)
    ensures
        command_of(request_id, "create"@, create_params_json(request), default_age) == Ok::<
            CommandView,
            Seq<char>,
        >(
            CommandView::Create(
                CreateRequestView {
                    idempotency_key: Some(text_or(request.idempotency_key, request_id)),
                    ..request
                },
            ),
        ),
{
    lemma_methods();
    lemma_keys();
    reveal_with_fuel(first_field, 6);
}

/// The request that `lock` or `unlock` makes is the one that the daemon carries
/// out.
pub proof fn lock_is_understood(
    request_id: Seq<char>,
    path: Seq<char>,
    reason: Option<Seq<char>>,
    default_age: i64,
)
    ensures
        command_of(request_id, "lock"@, lock_params_json(path, reason), default_age) == Ok::<
            CommandView,
            Seq<char>,
        >(CommandView::Lock { path, reason, actor: "cli"@ }),
        command_of(request_id, "unlock"@, lock_params_json(path, reason), default_age) == Ok::<
            CommandView,
            Seq<char>,
        >(CommandView::Unlock { path, actor: "cli"@ }),
{
    lemma_methods();
    lemma_keys();
    reveal_with_fuel(first_field, 6);
}

/// The request that `remove` makes is the one that the daemon carries out: with
/// the age that was asked for, and with the branch only if that was asked for.
pub proof fn remove_is_understood(
    request_id: Seq<char>,
    path: Seq<char>,
    delete_branch: bool,
    minimum_age: i64,
    default_age: i64,
)
    ensures
        command_of(
            request_id,
            "remove"@,
            remove_params_json(path, delete_branch, minimum_age),
            default_age,
        ) == Ok::<CommandView, Seq<char>>(
            CommandView::Remove { path, delete_branch, actor: "cli"@, minimum_age },
        ),
{
    lemma_methods();
    lemma_keys();
    reveal_with_fuel(first_field, 6);
}

/// The request that `cleanup scan` makes is the one that the daemon carries out:
/// with the age and against the base that were asked for.
pub proof fn cleanup_is_understood(
    request_id: Seq<char>,
    minimum_age: i64,
    base: Option<Seq<char>>,
    default_age: i64,
)
    ensures
        command_of(
            request_id,
            "cleanup_scan"@,
            cleanup_params_json(minimum_age, base),
            default_age,
        ) == Ok::<CommandView, Seq<char>>(CommandView::CleanupScan { base, minimum_age }),
{
    lemma_methods();
    lemma_keys();
    reveal_with_fuel(first_field, 6);
}

/// The beginning of everything that is printed for scripts.
pub open spec fn version_prefix() -> Seq<char> {
    "{"@ + field_text(("schema_version"@, Json::Number(1)))
}

proof fn lemma_join_begins(parts: Seq<Seq<char>>, separator: Seq<char>)
    requires
        parts.len() > 0,
    ensures
        parts[0].is_prefix_of(join_text(parts, separator)),
    decreases parts.len(),
{
    if parts.len() > 1 {
        lemma_join_begins(parts.drop_last(), separator);
    }
}

proof fn lemma_begins(fields: Seq<(Seq<char>, Json)>)
    requires
        fields.len() > 0,
        fields[0] == ("schema_version"@, Json::Number(1)),
    ensures
        version_prefix().is_prefix_of(json_text(Json::Object(fields))),
{
    lemma_field_texts(fields);
    let first = field_text(fields[0]);
    let joined = join_text(field_texts(fields), ","@);
    lemma_join_begins(field_texts(fields), ","@);
    assert(version_prefix() =~= ("{"@ + joined + "}"@).take(version_prefix().len() as int));
}

/// Every result that a command prints as JSON begins with its version.
pub proof fn results_begin_with_their_version(
    created: CreateResultView,
    locked: LockResultView,
    operation: Seq<char>,
    removed: RemoveResultView,
    base: Option<Seq<char>>,
    minimum_age: i64,
    candidates: Seq<CleanupCandidateView>,
    repository: GitRepositoryView,
    worktrees: Seq<GitWorktreeStatusView>,
)
    ensures
        version_prefix().is_prefix_of(json_text(created.json())),
        version_prefix().is_prefix_of(json_text(locked.json(operation))),
        version_prefix().is_prefix_of(json_text(removed.json())),
        version_prefix().is_prefix_of(json_text(cleanup_json(base, minimum_age, candidates))),
        version_prefix().is_prefix_of(json_text(repository.json(worktrees))),
{
    lemma_begins(created.json()->Object_0);
    lemma_begins(locked.json(operation)->Object_0);
    lemma_begins(removed.json()->Object_0);
    lemma_begins(cleanup_json(base, minimum_age, candidates)->Object_0);
    lemma_begins(repository.json(worktrees)->Object_0);
}

} // verus!
