//! What commands ask of the daemon, and how they find it.

use crate::cli::error::CliError;
use crate::cli::error::CliErrorView;
use crate::daemon::error::DaemonError;
use crate::daemon::fingerprint::stable_string_hash;
use crate::daemon::fingerprint::text_hash;
use crate::daemon::protocol::is_retryable;
use crate::daemon::protocol::retryable;
use crate::daemon::sockets::MAX_UNIX_SOCKET_PATH_BYTES;
use crate::git::repository::GitRepository;
use crate::json::parser::parse;
use crate::json::parser::parse_text;
use crate::json::value::Json;
use crate::json::value::required_text;
use crate::json::writer::Object;
use crate::json::writer::field_texts;
use crate::json::writer::json_text;
use crate::json::writer::lemma_field_texts;
use crate::json::writer::slice_view;
use crate::json::writer::string;
use crate::json::writer::text_or_null;
use crate::numeral::decimal;
use crate::numeral::hex_digits;
use crate::numeral::print_hex_digits;
use crate::numeral::print_i64;
use crate::numeral::print_u64;
use crate::numeral::signed_decimal;
use crate::paths::join_path;
use crate::paths::joined;
use crate::paths::same_path;
use crate::paths::same_steps;
use crate::service::rules::DEFAULT_CLEANUP_MINIMUM_AGE_SECONDS;
use crate::service::types::CreateRequest;
use crate::service::types::CreateRequestView;
use crate::text::as_slice;
use crate::text::byte_length;
use crate::text::concat3;
use crate::text::concat;
use crate::text::option_view;
use crate::text::same_text;
use crate::text::views;
use vstd::prelude::*;

verus! {

/// The parameters of a request to create a worktree.
pub open spec fn create_params_json(request: CreateRequestView) -> Json {
    Json::Object(
        seq![
            ("branch"@, Json::Str(request.branch)),
            ("base"@, text_or_null(request.base)),
            ("path"@, text_or_null(request.path)),
            ("idempotency_key"@, text_or_null(request.idempotency_key)),
            ("actor"@, Json::Str(request.actor)),
        ],
    )
}

/// The parameters of a request to create a worktree.
pub fn create_params(request: &CreateRequest) -> (text: String)
    ensures
        text@ == json_text(create_params_json(request@)),
{
    let object = Object::new()
        .string("branch", &request.branch)
        .optional_string("base", as_slice(&request.base))
        .optional_string("path", as_slice(&request.path))
        .optional_string("idempotency_key", as_slice(&request.idempotency_key))
        .string("actor", &request.actor);
    proof {
        let fields = create_params_json(request@)->Object_0;
        lemma_field_texts(fields);
        assert(object@ =~= field_texts(fields));
    }
    object.finish()
}

/// The parameters of a request to lock or unlock a worktree.
pub open spec fn lock_params_json(path: Seq<char>, reason: Option<Seq<char>>) -> Json {
    Json::Object(
        seq![
            ("path"@, Json::Str(path)),
            ("reason"@, text_or_null(reason)),
            ("actor"@, Json::Str("cli"@)),
        ],
    )
}

/// The parameters of a request to lock or unlock a worktree.
pub fn lock_params(path: &str, reason: Option<&str>) -> (text: String)
    ensures
        text@ == json_text(lock_params_json(path@, slice_view(reason))),
{
    let object = Object::new()
        .string("path", path)
        .optional_string("reason", reason)
        .string("actor", "cli");
    proof {
        let fields = lock_params_json(path@, slice_view(reason))->Object_0;
        lemma_field_texts(fields);
        assert(object@ =~= field_texts(fields));
    }
    object.finish()
}

/// The parameters of a request to remove a worktree.
pub open spec fn remove_params_json(path: Seq<char>, delete_branch: bool, minimum_age: i64) -> Json {
    Json::Object(
        seq![
            ("path"@, Json::Str(path)),
            ("delete_branch"@, Json::Bool(delete_branch)),
            ("minimum_age_seconds"@, Json::Number(minimum_age as int)),
            ("actor"@, Json::Str("cli"@)),
        ],
    )
}

/// The parameters of a request to remove a worktree.
pub fn remove_params(path: &str, delete_branch: bool, minimum_age: i64) -> (text: String)
    ensures
        text@ == json_text(remove_params_json(path@, delete_branch, minimum_age)),
{
    let object = Object::new()
        .string("path", path)
        .bool("delete_branch", delete_branch)
        .signed_number("minimum_age_seconds", minimum_age)
        .string("actor", "cli");
    proof {
        let fields = remove_params_json(path@, delete_branch, minimum_age)->Object_0;
        lemma_field_texts(fields);
        assert(object@ =~= field_texts(fields));
    }
    object.finish()
}

/// The parameters of a request to scan for cleanup.
pub open spec fn cleanup_params_json(minimum_age: i64, base: Option<Seq<char>>) -> Json {
    Json::Object(
        seq![
            ("minimum_age_seconds"@, Json::Number(minimum_age as int)),
            ("base"@, text_or_null(base)),
            ("actor"@, Json::Str("cli"@)),
        ],
    )
}

/// The parameters of a request to scan for cleanup.
pub fn cleanup_params(minimum_age: i64, base: Option<&str>) -> (text: String)
    ensures
        text@ == json_text(cleanup_params_json(minimum_age, slice_view(base))),
{
    let object = Object::new()
        .signed_number("minimum_age_seconds", minimum_age)
        .optional_string("base", base)
        .string("actor", "cli");
    proof {
        let fields = cleanup_params_json(minimum_age, slice_view(base))->Object_0;
        lemma_field_texts(fields);
        assert(object@ =~= field_texts(fields));
    }
    object.finish()
}

/// The identifier of a request that a process makes at some moment.
pub open spec fn request_id_text(operation: Seq<char>, pid: u32, moment: u64) -> Seq<char> {
    "cli-"@ + operation + "-"@ + decimal(pid as nat) + "-"@ + decimal(moment as nat)
}

/// Makes the identifier of a request.
pub fn next_request_id(operation: &str, pid: u32, moment: u64) -> (id: String)
    ensures
        id@ == request_id_text(operation@, pid, moment),
{
    let process = print_u64(pid as u64);
    let time = print_u64(moment);
    let mut id = concat3("cli-", operation, "-");
    id.append(&process);
    id.append("-");
    id.append(&time);
    id
}

/// The age that a command asks for, or the default.
pub fn cleanup_age(minimum_age_seconds: Option<i64>) -> (age: i64)
    ensures
        age == (match minimum_age_seconds {
            Some(seconds) => seconds,
            None => DEFAULT_CLEANUP_MINIMUM_AGE_SECONDS,
        }),
{
    match minimum_age_seconds {
        Some(seconds) => seconds,
        None => DEFAULT_CLEANUP_MINIMUM_AGE_SECONDS,
    }
}

/// The complaint about a path at which no worktree of the repository stands.
pub fn not_linked(path: &str) -> (error: CliError)
    ensures
        error@ == CliErrorView::Usage(
            "path is not a linked worktree in this repository: "@ + path@,
        ),
{
    CliError::Usage(concat("path is not a linked worktree in this repository: ", path))
}

/// The repository to which a request to remove a worktree goes.
#[derive(Debug, PartialEq, Eq)]
pub enum RepositoryChoice {
    /// The one to which the worktree belongs.
    OfTheWorktree,
    /// The one at a path that was given.
    At(String),
    /// There is none.
    Nowhere,
}

/// The view of a [`RepositoryChoice`].
#[verifier::ext_equal]
pub enum RepositoryChoiceView {
    OfTheWorktree,
    At(Seq<char>),
    Nowhere,
}

impl View for RepositoryChoice {
    type V = RepositoryChoiceView;

    open spec fn view(&self) -> RepositoryChoiceView {
        match self {
            RepositoryChoice::OfTheWorktree => RepositoryChoiceView::OfTheWorktree,
            RepositoryChoice::At(path) => RepositoryChoiceView::At(path@),
            RepositoryChoice::Nowhere => RepositoryChoiceView::Nowhere,
        }
    }
}

/// Chooses the repository to which a request to remove a worktree goes: that of
/// the worktree where it was found, and else the one that was given, for the
/// worktree may be gone already.
pub fn repository_to_ask(found: bool, repo_path: &Option<String>) -> (choice: RepositoryChoice)
    ensures
        choice@ == (if found {
            RepositoryChoiceView::OfTheWorktree
        } else {
            match option_view(*repo_path) {
                Some(path) => RepositoryChoiceView::At(path),
                None => RepositoryChoiceView::Nowhere,
            }
        }),
{
    if found {
        return RepositoryChoice::OfTheWorktree;
    }
    match repo_path {
        Some(path) => RepositoryChoice::At(path.clone()),
        None => RepositoryChoice::Nowhere,
    }
}

/// Whether a daemon is started anew and asked once more: it was not yet, and
/// another attempt may succeed.
pub fn asks_again(outcome: &Result<String, DaemonError>, restarted: bool) -> (again: bool)
    ensures
        again == (!restarted && match *outcome {
            Ok(_) => false,
            Err(error) => retryable(error@),
        }),
{
    match outcome {
        Ok(_) => false,
        Err(error) => !restarted && is_retryable(error),
    }
}

// ---------------------------------------------------------------------------
// Where things are
// ---------------------------------------------------------------------------

/// Where the inventory of a repository is kept, unless told otherwise.
pub fn default_inventory_path(repository: &GitRepository) -> (path: String)
    ensures
        path@ == joined(repository@.common_git_dir, "worktree-manager.sqlite3"@),
{
    join_path(&repository.common_git_dir, "worktree-manager.sqlite3")
}

/// Whether the path of a socket is too long.
pub open spec fn is_long(path: Seq<char>) -> bool {
    byte_length(path) >= MAX_UNIX_SOCKET_PATH_BYTES
}

/// Whether the path of a socket is too long.
pub fn socket_path_too_long(path: &str) -> (result: bool)
    ensures
        result == is_long(path@),
{
    path.as_bytes().len() >= MAX_UNIX_SOCKET_PATH_BYTES
}

/// The name of a socket outside of the repository.
pub open spec fn short_socket_name(common_git_dir: Seq<char>) -> Seq<char> {
    "wtm-"@ + hex_digits(text_hash(common_git_dir) as nat, 16) + ".sock"@
}

/// Where the socket of a repository is, unless told otherwise: with the shared
/// files of the repository, or in a directory for temporary files where that path
/// is too long.
pub open spec fn socket_text(common_git_dir: Seq<char>, temporary: Seq<char>) -> Seq<char> {
    let conventional = joined(common_git_dir, "worktree-manager.sock"@);
    let near = joined(temporary, short_socket_name(common_git_dir));
    if !is_long(conventional) {
        conventional
    } else if !is_long(near) {
        near
    } else {
        joined("/tmp"@, short_socket_name(common_git_dir))
    }
}

/// Where the socket of a repository is, unless told otherwise.
pub fn default_socket_path(repository: &GitRepository, temporary: &str) -> (path: String)
    ensures
        path@ == socket_text(repository@.common_git_dir, temporary@),
{
    let conventional = join_path(&repository.common_git_dir, "worktree-manager.sock");
    if !socket_path_too_long(&conventional) {
        return conventional;
    }
    let digits = print_hex_digits(stable_string_hash(&repository.common_git_dir), 16);
    let name = concat3("wtm-", &digits, ".sock");
    let near = join_path(temporary, &name);
    if !socket_path_too_long(&near) {
        return near;
    }
    join_path("/tmp", &name)
}

/// The arguments with which the program starts a daemon.
pub open spec fn daemon_command(
    root: Seq<char>,
    db_path: Seq<char>,
    socket_path: Seq<char>,
    minimum_age: i64,
) -> Seq<Seq<char>> {
    seq![
        "daemon"@,
        "--repo"@,
        root,
        "--db"@,
        db_path,
        "--socket"@,
        socket_path,
        "--minimum-age-seconds"@,
        signed_decimal(minimum_age as int),
    ]
}

/// The arguments with which the program starts a daemon.
pub fn daemon_args(root: &str, db_path: &str, socket_path: &str, minimum_age: i64) -> (args: Vec<
    String,
>)
    ensures
        views(args@) == daemon_command(root@, db_path@, socket_path@, minimum_age),
{
    let mut args: Vec<String> = Vec::new();
    args.push("daemon".to_owned());
    args.push("--repo".to_owned());
    args.push(root.to_owned());
    args.push("--db".to_owned());
    args.push(db_path.to_owned());
    args.push("--socket".to_owned());
    args.push(socket_path.to_owned());
    args.push("--minimum-age-seconds".to_owned());
    args.push(print_i64(minimum_age));
    assert(views(args@) =~= daemon_command(root@, db_path@, socket_path@, minimum_age));
    args
}

// ---------------------------------------------------------------------------
// Whether a daemon is the right one
// ---------------------------------------------------------------------------

/// What a daemon says of itself.
#[derive(Debug, PartialEq, Eq)]
pub struct PingFacts {
    pub repository_root: String,
    pub inventory_path: String,
    pub inventory_identity: String,
}

/// The view of a [`PingFacts`].
#[verifier::ext_equal]
pub struct PingFactsView {
    pub repository_root: Seq<char>,
    pub inventory_path: Seq<char>,
    pub inventory_identity: Seq<char>,
}

impl View for PingFacts {
    type V = PingFactsView;

    open spec fn view(&self) -> PingFactsView {
        PingFactsView {
            repository_root: self.repository_root@,
            inventory_path: self.inventory_path@,
            inventory_identity: self.inventory_identity@,
        }
    }
}

/// What a response to a ping says of the daemon.
pub open spec fn ping_facts(response: Seq<char>) -> Option<PingFactsView> {
    match parse_text(response) {
        Err(_) => None,
        Ok(value) => match value.field("result"@) {
            None => None,
            Some(result) => match (
                required_text(result, "repository_root"@),
                required_text(result, "inventory_path"@),
                required_text(result, "inventory_identity"@),
            ) {
                (Ok(repository_root), Ok(inventory_path), Ok(inventory_identity)) => Some(
                    PingFactsView { repository_root, inventory_path, inventory_identity },
                ),
                _ => None,
            },
        },
    }
}

/// Reads what a response to a ping says of the daemon.
pub fn read_ping(response: &str) -> (facts: Option<PingFacts>)
    ensures
        option_view(facts) == ping_facts(response@),
{
    let value = match parse(response) {
        Ok(value) => value,
        Err(_) => return None,
    };
    let result = match value.object_field("result") {
        Some(result) => result,
        None => return None,
    };
    let root = match result.required_string("repository_root") {
        Ok(text) => text.to_owned(),
        Err(_) => return None,
    };
    let path = match result.required_string("inventory_path") {
        Ok(text) => text.to_owned(),
        Err(_) => return None,
    };
    let identity = match result.required_string("inventory_identity") {
        Ok(text) => text.to_owned(),
        Err(_) => return None,
    };
    Some(
        PingFacts { repository_root: root, inventory_path: path, inventory_identity: identity },
    )
}

/// Whether a daemon serves the repository and the inventory that are wanted. Both
/// paths of the inventory are resolved.
pub fn daemon_is_ready(
    facts: &PingFacts,
    root: &str,
    actual_inventory: &str,
    wanted_inventory: &str,
    wanted_identity: &str,
) -> (ready: bool)
    ensures
        ready == (facts@.repository_root == root@ && same_steps(
            actual_inventory@,
            wanted_inventory@,
        ) && facts@.inventory_identity == wanted_identity@),
{
    same_text(&facts.repository_root, root) && same_path(actual_inventory, wanted_inventory)
        && same_text(&facts.inventory_identity, wanted_identity)
}

} // verus!
