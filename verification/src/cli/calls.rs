//! What calls of the program come to.

use crate::cli::dispatch::dispatch;
use crate::cli::dispatch::Invocation;
use crate::cli::error::CliError;
use crate::cli::options::CreateOptions;
use crate::cli::options::DaemonCleanOptions;
use crate::cli::options::DaemonOptions;
use crate::cli::options::ListOptions;
use crate::cli::options::parse_create_options;
use crate::cli::options::parse_daemon_clean_options;
use crate::cli::options::parse_daemon_options;
use crate::cli::options::parse_path_mutation_options;
use crate::cli::options::parse_repository_mutation_options;
use crate::cli::options::parse_repository_options;
use crate::cli::options::parse_status_options;
use crate::cli::options::PathMutationOptions;
use crate::cli::options::RepositoryMutationOptions;
use crate::cli::options::StatusOptions;
use crate::cli::requests::asks_again;
use crate::cli::requests::cleanup_age;
use crate::cli::requests::daemon_args;
use crate::cli::requests::daemon_is_ready;
use crate::cli::requests::default_inventory_path;
use crate::cli::requests::default_socket_path;
use crate::cli::requests::next_request_id;
use crate::cli::requests::PingFacts;
use crate::cli::requests::read_ping;
use crate::cli::requests::repository_to_ask;
use crate::cli::requests::RepositoryChoice;
use crate::cli::startup::look_limit;
use crate::cli::startup::StartupView;
use crate::daemon::error::DaemonError;
use crate::daemon::protocol::is_retryable;
use crate::git::repository::GitRepository;
use crate::json::parser::parse;
use crate::json::parser::ParseError;
use crate::json::value::Json;
use crate::json::value::Value;
use crate::numeral::decimal;
use crate::numeral::signed_decimal;
use crate::paths::same_path;
use crate::service::types::CreateRequest;
use crate::text::views;
use vstd::prelude::*;
use vstd::utf8::encode_utf8;

verus! {

proof fn lemma_names()
    ensures
        "list"@ != "status"@,
        "list"@ != "create"@,
        "list"@ != "lock"@,
        "list"@ != "unlock"@,
        "list"@ != "remove"@,
        "list"@ != "cleanup"@,
        "list"@ != "daemon"@,
        "list"@ != "help"@,
        "list"@ != "--help"@,
        "list"@ != "-h"@,
        "list"@ != "--version"@,
        "list"@ != "-V"@,
        "list"@ != "version"@,
        "list"@ != "scan"@,
        "list"@ != "clean"@,
        "status"@ != "create"@,
        "status"@ != "lock"@,
        "status"@ != "unlock"@,
        "status"@ != "remove"@,
        "status"@ != "cleanup"@,
        "status"@ != "daemon"@,
        "status"@ != "help"@,
        "status"@ != "--help"@,
        "status"@ != "-h"@,
        "status"@ != "--version"@,
        "status"@ != "-V"@,
        "status"@ != "version"@,
        "status"@ != "scan"@,
        "status"@ != "clean"@,
        "create"@ != "lock"@,
        "create"@ != "unlock"@,
        "create"@ != "remove"@,
        "create"@ != "cleanup"@,
        "create"@ != "daemon"@,
        "create"@ != "help"@,
        "create"@ != "--help"@,
        "create"@ != "-h"@,
        "create"@ != "--version"@,
        "create"@ != "-V"@,
        "create"@ != "version"@,
        "create"@ != "scan"@,
        "create"@ != "clean"@,
        "lock"@ != "unlock"@,
        "lock"@ != "remove"@,
        "lock"@ != "cleanup"@,
        "lock"@ != "daemon"@,
        "lock"@ != "help"@,
        "lock"@ != "--help"@,
        "lock"@ != "-h"@,
        "lock"@ != "--version"@,
        "lock"@ != "-V"@,
        "lock"@ != "version"@,
        "lock"@ != "scan"@,
        "lock"@ != "clean"@,
        "unlock"@ != "remove"@,
        "unlock"@ != "cleanup"@,
        "unlock"@ != "daemon"@,
        "unlock"@ != "help"@,
        "unlock"@ != "--help"@,
        "unlock"@ != "-h"@,
        "unlock"@ != "--version"@,
        "unlock"@ != "-V"@,
        "unlock"@ != "version"@,
        "unlock"@ != "scan"@,
        "unlock"@ != "clean"@,
        "remove"@ != "cleanup"@,
        "remove"@ != "daemon"@,
        "remove"@ != "help"@,
        "remove"@ != "--help"@,
        "remove"@ != "-h"@,
        "remove"@ != "--version"@,
        "remove"@ != "-V"@,
        "remove"@ != "version"@,
        "remove"@ != "scan"@,
        "remove"@ != "clean"@,
        "cleanup"@ != "daemon"@,
        "cleanup"@ != "help"@,
        "cleanup"@ != "--help"@,
        "cleanup"@ != "-h"@,
        "cleanup"@ != "--version"@,
        "cleanup"@ != "-V"@,
        "cleanup"@ != "version"@,
        "cleanup"@ != "scan"@,
        "cleanup"@ != "clean"@,
        "daemon"@ != "help"@,
        "daemon"@ != "--help"@,
        "daemon"@ != "-h"@,
        "daemon"@ != "--version"@,
        "daemon"@ != "-V"@,
        "daemon"@ != "version"@,
        "daemon"@ != "scan"@,
        "daemon"@ != "clean"@,
        "help"@ != "--help"@,
        "help"@ != "-h"@,
        "help"@ != "--version"@,
        "help"@ != "-V"@,
        "help"@ != "version"@,
        "help"@ != "scan"@,
        "help"@ != "clean"@,
        "--help"@ != "-h"@,
        "--help"@ != "--version"@,
        "--help"@ != "-V"@,
        "--help"@ != "version"@,
        "--help"@ != "scan"@,
        "--help"@ != "clean"@,
        "-h"@ != "--version"@,
        "-h"@ != "-V"@,
        "-h"@ != "version"@,
        "-h"@ != "scan"@,
        "-h"@ != "clean"@,
        "--version"@ != "-V"@,
        "--version"@ != "version"@,
        "--version"@ != "scan"@,
        "--version"@ != "clean"@,
        "-V"@ != "version"@,
        "-V"@ != "scan"@,
        "-V"@ != "clean"@,
        "version"@ != "scan"@,
        "version"@ != "clean"@,
        "scan"@ != "clean"@,
{
    reveal_strlit("list");
    reveal_strlit("status");
    reveal_strlit("create");
    reveal_strlit("lock");
    reveal_strlit("unlock");
    reveal_strlit("remove");
    reveal_strlit("cleanup");
    reveal_strlit("daemon");
    reveal_strlit("help");
    reveal_strlit("--help");
    reveal_strlit("-h");
    reveal_strlit("--version");
    reveal_strlit("-V");
    reveal_strlit("version");
    reveal_strlit("scan");
    reveal_strlit("clean");
    assert("list"@.len() == 4);
    assert("status"@.len() == 6);
    assert("create"@.len() == 6);
    assert("lock"@.len() == 4);
    assert("unlock"@.len() == 6);
    assert("remove"@.len() == 6);
    assert("cleanup"@.len() == 7);
    assert("daemon"@.len() == 6);
    assert("help"@.len() == 4);
    assert("--help"@.len() == 6);
    assert("-h"@.len() == 2);
    assert("--version"@.len() == 9);
    assert("-V"@.len() == 2);
    assert("version"@.len() == 7);
    assert("scan"@.len() == 4);
    assert("clean"@.len() == 5);
    assert("list"@[1] == 'i' && "lock"@[1] == 'o');
    assert("list"@[0] == 'l' && "help"@[0] == 'h');
    assert("list"@[0] == 'l' && "scan"@[0] == 's');
    assert("status"@[0] == 's' && "create"@[0] == 'c');
    assert("status"@[0] == 's' && "unlock"@[0] == 'u');
    assert("status"@[0] == 's' && "remove"@[0] == 'r');
    assert("status"@[0] == 's' && "daemon"@[0] == 'd');
    assert("status"@[0] == 's' && "--help"@[0] == '-');
    assert("create"@[0] == 'c' && "unlock"@[0] == 'u');
    assert("create"@[0] == 'c' && "remove"@[0] == 'r');
    assert("create"@[0] == 'c' && "daemon"@[0] == 'd');
    assert("create"@[0] == 'c' && "--help"@[0] == '-');
    assert("lock"@[0] == 'l' && "help"@[0] == 'h');
    assert("lock"@[0] == 'l' && "scan"@[0] == 's');
    assert("unlock"@[0] == 'u' && "remove"@[0] == 'r');
    assert("unlock"@[0] == 'u' && "daemon"@[0] == 'd');
    assert("unlock"@[0] == 'u' && "--help"@[0] == '-');
    assert("remove"@[0] == 'r' && "daemon"@[0] == 'd');
    assert("remove"@[0] == 'r' && "--help"@[0] == '-');
    assert("cleanup"@[0] == 'c' && "version"@[0] == 'v');
    assert("daemon"@[0] == 'd' && "--help"@[0] == '-');
    assert("help"@[0] == 'h' && "scan"@[0] == 's');
    assert("-h"@[1] == 'h' && "-V"@[1] == 'V');
}

/// The command list is taken as such, with the options behind it.
pub proof fn list_is_asked_for(
    args: &Vec<String>,
    command: String,
    rest: &Vec<String>,
    word: &str,
    parsed: Result<ListOptions, CliError>,
    result: Result<Invocation, CliError>,
)
    requires
        args@ == seq![command] + rest@,
        command@ == "list"@,
        word@ == "list"@,
        call_ensures(parse_repository_options, (rest, word), parsed),
        call_ensures(dispatch, (args,), result),
    ensures
        result is Ok <==> parsed is Ok,
        result matches Ok(found) ==> {
            &&& found matches Invocation::List(options)
            &&& options@ == parsed->Ok_0@
        },
{
    lemma_names();
    assert(views(args@)[0] == command@);
    assert(views(args@).skip(1) =~= views(rest@));
}

/// The command status is taken as such, with the path and the options behind it.
pub proof fn status_is_asked_for(
    args: &Vec<String>,
    command: String,
    rest: &Vec<String>,
    word: &str,
    parsed: Result<(String, StatusOptions), CliError>,
    result: Result<Invocation, CliError>,
)
    requires
        args@ == seq![command] + rest@,
        command@ == "status"@,
        word@ == "status"@,
        call_ensures(parse_status_options, (rest,), parsed),
        call_ensures(dispatch, (args,), result),
    ensures
        result is Ok <==> parsed is Ok,
        result matches Ok(found) ==> {
            &&& found matches Invocation::Status { path, options }
            &&& path@ == parsed->Ok_0.0@
            &&& options@ == parsed->Ok_0.1@
        },
{
    lemma_names();
    assert(views(args@)[0] == command@);
    assert(views(args@).skip(1) =~= views(rest@));
}

/// The command create is taken as such, with the request and the options behind it.
pub proof fn creation_is_asked_for(
    args: &Vec<String>,
    command: String,
    rest: &Vec<String>,
    word: &str,
    parsed: Result<(CreateRequest, CreateOptions), CliError>,
    result: Result<Invocation, CliError>,
)
    requires
        args@ == seq![command] + rest@,
        command@ == "create"@,
        word@ == "create"@,
        call_ensures(parse_create_options, (rest,), parsed),
        call_ensures(dispatch, (args,), result),
    ensures
        result is Ok <==> parsed is Ok,
        result matches Ok(found) ==> {
            &&& found matches Invocation::Create { request, options }
            &&& request@ == parsed->Ok_0.0@
            &&& options@ == parsed->Ok_0.1@
        },
{
    lemma_names();
    assert(views(args@)[0] == command@);
    assert(views(args@).skip(1) =~= views(rest@));
}

/// The command lock is taken as such, with the path and the options behind it.
pub proof fn lock_is_asked_for(
    args: &Vec<String>,
    command: String,
    rest: &Vec<String>,
    word: &str,
    parsed: Result<(String, PathMutationOptions), CliError>,
    result: Result<Invocation, CliError>,
)
    requires
        args@ == seq![command] + rest@,
        command@ == "lock"@,
        word@ == "lock"@,
        call_ensures(parse_path_mutation_options, (rest, word), parsed),
        call_ensures(dispatch, (args,), result),
    ensures
        result is Ok <==> parsed is Ok,
        result matches Ok(found) ==> {
            &&& found matches Invocation::Lock { path, options }
            &&& path@ == parsed->Ok_0.0@
            &&& options@ == parsed->Ok_0.1@
        },
{
    lemma_names();
    assert(views(args@)[0] == command@);
    assert(views(args@).skip(1) =~= views(rest@));
}

/// The command unlock is taken as such, with the path and the options behind it.
pub proof fn unlock_is_asked_for(
    args: &Vec<String>,
    command: String,
    rest: &Vec<String>,
    word: &str,
    parsed: Result<(String, PathMutationOptions), CliError>,
    result: Result<Invocation, CliError>,
)
    requires
        args@ == seq![command] + rest@,
        command@ == "unlock"@,
        word@ == "unlock"@,
        call_ensures(parse_path_mutation_options, (rest, word), parsed),
        call_ensures(dispatch, (args,), result),
    ensures
        result is Ok <==> parsed is Ok,
        result matches Ok(found) ==> {
            &&& found matches Invocation::Unlock { path, options }
            &&& path@ == parsed->Ok_0.0@
            &&& options@ == parsed->Ok_0.1@
        },
{
    lemma_names();
    assert(views(args@)[0] == command@);
    assert(views(args@).skip(1) =~= views(rest@));
}

/// The command remove is taken as such, with the path and the options behind it.
pub proof fn remove_is_asked_for(
    args: &Vec<String>,
    command: String,
    rest: &Vec<String>,
    word: &str,
    parsed: Result<(String, PathMutationOptions), CliError>,
    result: Result<Invocation, CliError>,
)
    requires
        args@ == seq![command] + rest@,
        command@ == "remove"@,
        word@ == "remove"@,
        call_ensures(parse_path_mutation_options, (rest, word), parsed),
        call_ensures(dispatch, (args,), result),
    ensures
        result is Ok <==> parsed is Ok,
        result matches Ok(found) ==> {
            &&& found matches Invocation::Remove { path, options }
            &&& path@ == parsed->Ok_0.0@
            &&& options@ == parsed->Ok_0.1@
        },
{
    lemma_names();
    assert(views(args@)[0] == command@);
    assert(views(args@).skip(1) =~= views(rest@));
}

/// The command daemon is taken as such, with the options behind it, unless it is to clean up.
pub proof fn daemon_is_asked_for(
    args: &Vec<String>,
    command: String,
    rest: &Vec<String>,
    word: &str,
    parsed: Result<DaemonOptions, CliError>,
    result: Result<Invocation, CliError>,
)
    requires
        args@ == seq![command] + rest@,
        command@ == "daemon"@,
        rest@.len() > 0 ==> rest@[0]@ != "clean"@,
        word@ == "daemon"@,
        call_ensures(parse_daemon_options, (rest,), parsed),
        call_ensures(dispatch, (args,), result),
    ensures
        result is Ok <==> parsed is Ok,
        result matches Ok(found) ==> {
            &&& found matches Invocation::Daemon(options)
            &&& options@ == parsed->Ok_0@
        },
{
    lemma_names();
    assert(views(args@)[0] == command@);
    assert(views(args@).skip(1) =~= views(rest@));
    if rest@.len() > 0 {
        assert(views(rest@)[0] == rest@[0]@);
    }
}

/// A scan for cleanup and the cleaning of the daemon are asked for by two words, with the
/// options behind them; cleanup without its second word, or with another, is refused.
pub proof fn second_words_are_understood(
    args: &Vec<String>,
    first: String,
    second: String,
    rest: &Vec<String>,
    label: &str,
    scanned: Result<RepositoryMutationOptions, CliError>,
    cleaned: Result<DaemonCleanOptions, CliError>,
    result: Result<Invocation, CliError>,
)
    requires
        args@ == seq![first, second] + rest@,
        label@ == "cleanup scan"@,
        call_ensures(parse_repository_mutation_options, (rest, label), scanned),
        call_ensures(parse_daemon_clean_options, (rest,), cleaned),
        call_ensures(dispatch, (args,), result),
    ensures
        first@ == "cleanup"@ && second@ == "scan"@ ==> (result is Ok <==> scanned is Ok),
        first@ == "cleanup"@ && second@ == "scan"@ && result is Ok ==> (
        result->Ok_0 matches Invocation::CleanupScan(options) && options@ == scanned->Ok_0@),
        first@ == "cleanup"@ && second@ != "scan"@ ==> result is Err,
        first@ == "daemon"@ && second@ == "clean"@ ==> (result is Ok <==> cleaned is Ok),
        first@ == "daemon"@ && second@ == "clean"@ && result is Ok ==> (
        result->Ok_0 matches Invocation::DaemonClean(options) && options@ == cleaned->Ok_0@),
{
    lemma_names();
    let all = views(args@);
    assert(all[0] == first@);
    assert(all.skip(1)[0] == second@);
    assert(all.skip(1).skip(1) =~= views(rest@));
}

/// Without arguments, and with any of its three words, the program gives help; with any of
/// three others, its version; and a command that is none of those that it knows is
/// refused.
pub proof fn other_words_are_refused(args: &Vec<String>, result: Result<Invocation, CliError>)
    requires
        call_ensures(dispatch, (args,), result),
    ensures
        args@.len() == 0 ==> result is Ok && result->Ok_0 is Help,
        args@.len() > 0 && (args@[0]@ == "help"@ || args@[0]@ == "--help"@ || args@[0]@ == "-h"@)
            ==> result is Ok && result->Ok_0 is Help,
        args@.len() > 0 && (args@[0]@ == "version"@ || args@[0]@ == "--version"@ || args@[0]@
            == "-V"@) ==> result is Ok && result->Ok_0 is Version,
        args@.len() > 0
            && args@[0]@ != "list"@
            && args@[0]@ != "status"@
            && args@[0]@ != "create"@
            && args@[0]@ != "lock"@
            && args@[0]@ != "unlock"@
            && args@[0]@ != "remove"@
            && args@[0]@ != "cleanup"@
            && args@[0]@ != "daemon"@
            && args@[0]@ != "help"@
            && args@[0]@ != "--help"@
            && args@[0]@ != "-h"@
            && args@[0]@ != "--version"@
            && args@[0]@ != "-V"@
            && args@[0]@ != "version"@
            ==> result is Err,
{
    lemma_names();
    if args@.len() > 0 {
        assert(views(args@)[0] == args@[0]@);
    }
}

/// The identifier of a request tells the operation, the process and the moment, so that
/// neither of two processes nor of two moments share one.
pub proof fn request_ids_tell_where_they_come_from(
    operation: &str,
    pid: u32,
    moment: u64,
    id: String,
)
    requires
        call_ensures(next_request_id, (operation, pid, moment), id),
    ensures
        id@ == "cli-"@ + operation@ + "-"@ + decimal(pid as nat) + "-"@ + decimal(moment as nat),
{
}

/// The age that is asked for is used, and a day where none is.
pub proof fn asked_age_is_used(asked: Option<i64>, age: i64)
    requires
        call_ensures(cleanup_age, (asked,), age),
    ensures
        asked matches Some(seconds) ==> age == seconds,
        asked is None ==> age == 24 * 60 * 60,
{
}

/// A request to remove a worktree goes to the repository of the worktree where that was
/// found, to the one that was given where it was not, and else nowhere.
pub proof fn removal_goes_to_the_right_repository(
    found: bool,
    given: &Option<String>,
    choice: RepositoryChoice,
)
    requires
        call_ensures(repository_to_ask, (found, given), choice),
    ensures
        choice is OfTheWorktree <==> found,
        choice is Nowhere <==> !found && given is None,
        !found && given is Some ==> (choice matches RepositoryChoice::At(path) && path@
            == given->0@),
{
}

/// The daemon is asked once more exactly if it was not started anew yet and the failure can
/// be mended; never after success.
pub proof fn daemon_is_asked_at_most_once_more(
    outcome: &Result<String, DaemonError>,
    restarted: bool,
    again: bool,
    mendable: bool,
)
    requires
        call_ensures(asks_again, (outcome, restarted), again),
        *outcome is Err ==> call_ensures(is_retryable, (&outcome->Err_0,), mendable),
    ensures
        *outcome is Ok || restarted ==> !again,
        *outcome is Err && !restarted ==> again == mendable,
{
}

/// Unless told otherwise, the inventory and the socket stand in the Git directory of the
/// repository, and the socket elsewhere only if its path would have a hundred bytes or more.
pub proof fn files_stand_with_the_repository(
    repository: &GitRepository,
    temporary: &str,
    inventory: String,
    socket: String,
)
    requires
        repository.common_git_dir@.len() > 0,
        repository.common_git_dir@.last() != '/',
        call_ensures(default_inventory_path, (repository,), inventory),
        call_ensures(default_socket_path, (repository, temporary), socket),
    ensures
        inventory@ == repository.common_git_dir@ + "/"@ + "worktree-manager.sqlite3"@,
        encode_utf8(repository.common_git_dir@ + "/"@ + "worktree-manager.sock"@).len() < 100
            ==> socket@ == repository.common_git_dir@ + "/"@ + "worktree-manager.sock"@,
{
    reveal_strlit("worktree-manager.sqlite3");
    reveal_strlit("worktree-manager.sock");
    assert("worktree-manager.sqlite3"@[0] == 'w');
    assert("worktree-manager.sock"@[0] == 'w');
}

/// The program starts a daemon with the repository, the inventory, the socket and the age
/// that it wants, each behind its option.
pub proof fn daemon_is_started_as_wanted(
    root: &str,
    db_path: &str,
    socket_path: &str,
    minimum_age: i64,
    args: Vec<String>,
)
    requires
        call_ensures(daemon_args, (root, db_path, socket_path, minimum_age), args),
    ensures
        args@.len() == 9,
        args@[0]@ == "daemon"@,
        args@[1]@ == "--repo"@ && args@[2]@ == root@,
        args@[3]@ == "--db"@ && args@[4]@ == db_path@,
        args@[5]@ == "--socket"@ && args@[6]@ == socket_path@,
        args@[7]@ == "--minimum-age-seconds"@ && args@[8]@ == signed_decimal(minimum_age as int),
{
    let words = views(args@);
    assert(words.len() == args@.len());
    assert forall|i: int| 0 <= i < words.len() implies (#[trigger] args@[i])@ == words[i] by {}
}

/// A daemon is the right one exactly if it serves the wanted repository, and the wanted
/// inventory both by its path and by its identity.
pub proof fn only_the_right_daemon_is_ready(
    facts: &PingFacts,
    root: &str,
    actual: &str,
    wanted: &str,
    identity: &str,
    same: bool,
    ready: bool,
)
    requires
        call_ensures(same_path, (actual, wanted), same),
        call_ensures(daemon_is_ready, (facts, root, actual, wanted, identity), ready),
    ensures
        ready <==> facts.repository_root@ == root@ && same && facts.inventory_identity@
            == identity@,
{
}

/// What a daemon says of itself is read from the result of its answer, each thing from its
/// own key.
pub proof fn answer_to_a_ping_is_read(
    response: &str,
    parsed: Result<Value, ParseError>,
    facts: Option<PingFacts>,
)
    requires
        call_ensures(parse, (response,), parsed),
        call_ensures(read_ping, (response,), facts),
    ensures
        facts matches Some(found) ==> parsed is Ok && parsed->Ok_0@.field("result"@) is Some && {
            let result = parsed->Ok_0@.field("result"@)->0;
            &&& result.field("repository_root"@) == Some(Json::Str(found.repository_root@))
            &&& result.field("inventory_path"@) == Some(Json::Str(found.inventory_path@))
            &&& result.field("inventory_identity"@) == Some(Json::Str(found.inventory_identity@))
        },
        parsed is Err ==> facts is None,
{
}

/// The program uses a daemon as soon as it is ready. It gives up on one that is not ready
/// within two minutes, unless that has ended; after one has ended it looks nine times more
/// before it gives up.
pub proof fn waiting_follows_the_clock(
    startup: StartupView,
    ready: bool,
    ended: Option<Seq<char>>,
    reason: Option<Seq<char>>,
    waited: u64,
)
    ensures
        startup.step(ready, ended, reason, waited) is Ready <==> ready,
        startup.step(ready, ended, reason, waited) is TimedOut <==> !ready && startup.ended is None
            && ended is None && waited >= 2 * 60 * 1000,
        startup.step(ready, ended, reason, waited) is Ended <==> !ready && startup.ended is Some
            && startup.grace >= 9,
        startup.seen(ended).socket_path == startup.socket_path,
        startup.ended is Some ==> startup.seen(ended).ended == startup.ended,
        startup.ended is None ==> startup.seen(ended).ended == ended,
{
}

/// One look never takes longer than five seconds, nor beyond the two minutes, and takes a
/// moment at least.
pub proof fn looks_are_short(waited: u64, limit: u64)
    requires
        call_ensures(look_limit, (waited,), limit),
    ensures
        1 <= limit <= 5000,
        waited < 120000 ==> waited + limit <= 120000,
        waited + 5000 <= 120000 ==> limit == 5000,
{
}

} // verus!
