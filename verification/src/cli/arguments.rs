//! What the arguments of the commands come to.

use crate::cli::error::CliError;
use crate::cli::options::clean_options;
use crate::cli::options::clean_step;
use crate::cli::options::cleanup_options;
use crate::cli::options::cleanup_step;
use crate::cli::options::create_options;
use crate::cli::options::create_step;
use crate::cli::options::CreateOptions;
use crate::cli::options::CreateOptionsView;
use crate::cli::options::daemon_options;
use crate::cli::options::daemon_step;
use crate::cli::options::DaemonCleanOptions;
use crate::cli::options::DaemonCleanOptionsView;
use crate::cli::options::DaemonOptions;
use crate::cli::options::DaemonOptionsView;
use crate::cli::options::is_option;
use crate::cli::options::list_options;
use crate::cli::options::list_step;
use crate::cli::options::ListOptions;
use crate::cli::options::ListOptionsView;
use crate::cli::options::parse_create_options;
use crate::cli::options::parse_daemon_clean_options;
use crate::cli::options::parse_daemon_options;
use crate::cli::options::parse_path_mutation_options;
use crate::cli::options::parse_repository_mutation_options;
use crate::cli::options::parse_repository_options;
use crate::cli::options::parse_status_options;
use crate::cli::options::path_options;
use crate::cli::options::path_step;
use crate::cli::options::PathMutationOptions;
use crate::cli::options::PathMutationOptionsView;
use crate::cli::options::RepositoryMutationOptions;
use crate::cli::options::RepositoryMutationOptionsView;
use crate::cli::options::status_options;
use crate::cli::options::status_step;
use crate::cli::options::StatusOptions;
use crate::cli::options::StatusOptionsView;
use crate::numeral::decimal;
use crate::numeral::decimal_reads_back;
use crate::numeral::is_digit;
use crate::service::types::CreateRequest;
use crate::service::types::CreateRequestView;
use crate::text::option_view;
use crate::text::views;
use vstd::prelude::*;

verus! {

proof fn lemma_option_names()
    ensures
        is_option("--json"@),
        is_option("--base"@),
        is_option("--repo"@),
        is_option("--db"@),
        is_option("--socket"@),
        is_option("--path"@),
        is_option("--idempotency-key"@),
        is_option("--minimum-age-seconds"@),
        is_option("--reason"@),
        is_option("--delete-branch"@),
        "--json"@ != "--base"@,
        "--json"@ != "--repo"@,
        "--json"@ != "--db"@,
        "--json"@ != "--socket"@,
        "--json"@ != "--path"@,
        "--json"@ != "--idempotency-key"@,
        "--json"@ != "--minimum-age-seconds"@,
        "--json"@ != "--reason"@,
        "--json"@ != "--delete-branch"@,
        "--base"@ != "--repo"@,
        "--base"@ != "--db"@,
        "--base"@ != "--socket"@,
        "--base"@ != "--path"@,
        "--base"@ != "--idempotency-key"@,
        "--base"@ != "--minimum-age-seconds"@,
        "--base"@ != "--reason"@,
        "--base"@ != "--delete-branch"@,
        "--repo"@ != "--db"@,
        "--repo"@ != "--socket"@,
        "--repo"@ != "--path"@,
        "--repo"@ != "--idempotency-key"@,
        "--repo"@ != "--minimum-age-seconds"@,
        "--repo"@ != "--reason"@,
        "--repo"@ != "--delete-branch"@,
        "--db"@ != "--socket"@,
        "--db"@ != "--path"@,
        "--db"@ != "--idempotency-key"@,
        "--db"@ != "--minimum-age-seconds"@,
        "--db"@ != "--reason"@,
        "--db"@ != "--delete-branch"@,
        "--socket"@ != "--path"@,
        "--socket"@ != "--idempotency-key"@,
        "--socket"@ != "--minimum-age-seconds"@,
        "--socket"@ != "--reason"@,
        "--socket"@ != "--delete-branch"@,
        "--path"@ != "--idempotency-key"@,
        "--path"@ != "--minimum-age-seconds"@,
        "--path"@ != "--reason"@,
        "--path"@ != "--delete-branch"@,
        "--idempotency-key"@ != "--minimum-age-seconds"@,
        "--idempotency-key"@ != "--reason"@,
        "--idempotency-key"@ != "--delete-branch"@,
        "--minimum-age-seconds"@ != "--reason"@,
        "--minimum-age-seconds"@ != "--delete-branch"@,
        "--reason"@ != "--delete-branch"@,
{
    reveal_strlit("--json");
    reveal_strlit("--base");
    reveal_strlit("--repo");
    reveal_strlit("--db");
    reveal_strlit("--socket");
    reveal_strlit("--path");
    reveal_strlit("--idempotency-key");
    reveal_strlit("--minimum-age-seconds");
    reveal_strlit("--reason");
    reveal_strlit("--delete-branch");
    assert("--json"@.len() == 6);
    assert("--base"@.len() == 6);
    assert("--repo"@.len() == 6);
    assert("--db"@.len() == 4);
    assert("--socket"@.len() == 8);
    assert("--path"@.len() == 6);
    assert("--idempotency-key"@.len() == 17);
    assert("--minimum-age-seconds"@.len() == 21);
    assert("--reason"@.len() == 8);
    assert("--delete-branch"@.len() == 15);
    assert("--json"@[2] == 'j' && "--base"@[2] == 'b');
    assert("--json"@[2] == 'j' && "--repo"@[2] == 'r');
    assert("--json"@[2] == 'j' && "--path"@[2] == 'p');
    assert("--base"@[2] == 'b' && "--repo"@[2] == 'r');
    assert("--base"@[2] == 'b' && "--path"@[2] == 'p');
    assert("--repo"@[2] == 'r' && "--path"@[2] == 'p');
    assert("--socket"@[2] == 's' && "--reason"@[2] == 'r');
}

proof fn lemma_command_names()
    ensures
        "remove"@ != "lock"@,
        "remove"@ != "unlock"@,
        "lock"@ != "unlock"@,
{
    reveal_strlit("remove");
    reveal_strlit("lock");
    reveal_strlit("unlock");
    assert("remove"@.len() == 6);
    assert("lock"@.len() == 4);
    assert("unlock"@.len() == 6);
    assert("remove"@[0] == 'r' && "unlock"@[0] == 'u');
}

proof fn lemma_list_goes_on(
    args: Seq<Seq<char>>,
    tail: Seq<Seq<char>>,
    i: int,
    options: ListOptionsView,
    command: Seq<char>,
)
    requires
        0 <= i <= args.len(),
        list_options(args, i, options, command) is Ok,
    ensures
        list_options(args + tail, i, options, command) == list_options(
            args + tail,
            args.len() as int,
            list_options(args, i, options, command)->Ok_0, command,
        ),
    decreases args.len() - i,
{
    let whole = args + tail;
    if i < args.len() {
        assert(whole[i] == args[i]);
        if i + 1 < args.len() {
            assert(whole[i + 1] == args[i + 1]);
        }
        let (next, j) = list_step(args, i, options, command)->Ok_0;
        assert(list_step(whole, i, options, command) == list_step(args, i, options, command));
        lemma_list_goes_on(args, tail, j, next, command);
    }
}

/// Behind any arguments of list that are understood, an option that takes a value is
/// understood with the value that follows it. It sets what it is named after to exactly
/// that value and leaves everything else as it was.
pub proof fn list_takes_values(
    fewer: &Vec<String>,
    more: &Vec<String>,
    option: String,
    value: String,
    number: u32,
    command: &str,
    before: Result<ListOptions, CliError>,
    after: Result<ListOptions, CliError>,
)
    requires
        more@ == fewer@.push(option).push(value),
        value@.len() > 0 ==> value@[0] != '-',
        call_ensures(parse_repository_options, (fewer, command), before),
        call_ensures(parse_repository_options, (more, command), after),
        before is Ok,
    ensures
        option@ == "--base"@
            ==> after is Ok && after->Ok_0@ == (
                ListOptionsView { base: Some(value@), ..before->Ok_0@ }
            ),
        option@ == "--repo"@
            ==> after is Ok && after->Ok_0@ == (
                ListOptionsView { repo_path: value@, ..before->Ok_0@ }
            ),
{
    lemma_option_names();
    lemma_command_names();
    decimal_reads_back(number as nat, 0x7fff_ffff_ffff_ffff);
    assert(is_digit(decimal(number as nat)[0]));
    let args = views(fewer@);
    let tail = seq![option@, value@];
    let whole = args + tail;
    assert(views(more@) =~= whole);
    let start = ListOptionsView::none();
    let options = list_options(args, 0, start, command@)->Ok_0;
    lemma_list_goes_on(args, tail, 0, start, command@);
    assert(whole[args.len() as int] == option@);
    assert(whole[args.len() as int + 1] == value@);
    reveal_with_fuel(list_options, 2);
    assert(
        list_options(whole, 0, start, command@) == list_options(
            whole,
            args.len() as int,
            options,
            command@,
        )
    );
}

/// Behind any arguments of list that are understood, one argument more is understood if
/// it is a mark that it knows, and then sets just that; every other mark is refused, and so
/// is an option whose value is missing.
pub proof fn list_takes_marks(
    fewer: &Vec<String>,
    more: &Vec<String>,
    mark: String,
    command: &str,
    before: Result<ListOptions, CliError>,
    after: Result<ListOptions, CliError>,
)
    requires
        more@ == fewer@.push(mark),
        mark@.len() > 0 && mark@[0] == '-',
        call_ensures(parse_repository_options, (fewer, command), before),
        call_ensures(parse_repository_options, (more, command), after),
        before is Ok,
    ensures
        mark@ == "--json"@
            ==> after is Ok && after->Ok_0@ == (ListOptionsView { json: true, ..before->Ok_0@ }),
        !((mark@ == "--json"@)) ==> after is Err,
{
    lemma_option_names();
    lemma_command_names();
    let args = views(fewer@);
    let tail = seq![mark@];
    let whole = args + tail;
    assert(views(more@) =~= whole);
    let start = ListOptionsView::none();
    let options = list_options(args, 0, start, command@)->Ok_0;
    lemma_list_goes_on(args, tail, 0, start, command@);
    assert(whole[args.len() as int] == mark@);
    reveal_with_fuel(list_options, 2);
    assert(
        list_options(whole, 0, start, command@) == list_options(
            whole,
            args.len() as int,
            options,
            command@,
        )
    );
}

proof fn lemma_status_goes_on(
    args: Seq<Seq<char>>,
    tail: Seq<Seq<char>>,
    i: int,
    options: StatusOptionsView,
)
    requires
        0 <= i <= args.len(),
        status_options(args, i, options) is Ok,
    ensures
        status_options(args + tail, i, options) == status_options(
            args + tail,
            args.len() as int,
            status_options(args, i, options)->Ok_0,
        ),
    decreases args.len() - i,
{
    let whole = args + tail;
    if i < args.len() {
        assert(whole[i] == args[i]);
        if i + 1 < args.len() {
            assert(whole[i + 1] == args[i + 1]);
        }
        let (next, j) = status_step(args, i, options)->Ok_0;
        assert(status_step(whole, i, options) == status_step(args, i, options));
        lemma_status_goes_on(args, tail, j, next);
    }
}

/// Behind any arguments of status that are understood, an option that takes a value is
/// understood with the value that follows it. It sets what it is named after to exactly
/// that value and leaves everything else as it was.
pub proof fn status_takes_values(
    fewer: &Vec<String>,
    more: &Vec<String>,
    option: String,
    value: String,
    number: u32,
    before: Result<(String, StatusOptions), CliError>,
    after: Result<(String, StatusOptions), CliError>,
)
    requires
        more@ == fewer@.push(option).push(value),
        value@.len() > 0 ==> value@[0] != '-',
        call_ensures(parse_status_options, (fewer,), before),
        call_ensures(parse_status_options, (more,), after),
        before is Ok,
    ensures
        option@ == "--base"@
            ==> after is Ok && after->Ok_0.1@ == (
                StatusOptionsView { base: Some(value@), ..before->Ok_0.1@ }
            ),
        after is Ok ==> after->Ok_0.0@ == before->Ok_0.0@ || !is_option(option@),
{
    lemma_option_names();
    lemma_command_names();
    decimal_reads_back(number as nat, 0x7fff_ffff_ffff_ffff);
    assert(is_digit(decimal(number as nat)[0]));
    let args = views(fewer@);
    let tail = seq![option@, value@];
    let whole = args + tail;
    assert(views(more@) =~= whole);
    let start = StatusOptionsView::none();
    let options = status_options(args, 0, start)->Ok_0;
    lemma_status_goes_on(args, tail, 0, start);
    assert(whole[args.len() as int] == option@);
    assert(whole[args.len() as int + 1] == value@);
    reveal_with_fuel(status_options, 2);
    assert(status_options(whole, 0, start) == status_options(whole, args.len() as int, options));
}

/// Behind any arguments of status that are understood, one argument more is understood if
/// it is a mark that it knows, and then sets just that; every other mark is refused, and so
/// is an option whose value is missing.
pub proof fn status_takes_marks(
    fewer: &Vec<String>,
    more: &Vec<String>,
    mark: String,
    before: Result<(String, StatusOptions), CliError>,
    after: Result<(String, StatusOptions), CliError>,
)
    requires
        more@ == fewer@.push(mark),
        mark@.len() > 0 && mark@[0] == '-',
        call_ensures(parse_status_options, (fewer,), before),
        call_ensures(parse_status_options, (more,), after),
        before is Ok,
    ensures
        mark@ == "--json"@
            ==> after is Ok && after->Ok_0.1@ == (
                StatusOptionsView { json: true, ..before->Ok_0.1@ }
            ),
        mark@ == "--json"@ ==> after is Ok && after->Ok_0.0@ == before->Ok_0.0@,
        !((mark@ == "--json"@)) ==> after is Err,
{
    lemma_option_names();
    lemma_command_names();
    let args = views(fewer@);
    let tail = seq![mark@];
    let whole = args + tail;
    assert(views(more@) =~= whole);
    let start = StatusOptionsView::none();
    let options = status_options(args, 0, start)->Ok_0;
    lemma_status_goes_on(args, tail, 0, start);
    assert(whole[args.len() as int] == mark@);
    reveal_with_fuel(status_options, 2);
    assert(status_options(whole, 0, start) == status_options(whole, args.len() as int, options));
}

proof fn lemma_create_goes_on(
    args: Seq<Seq<char>>,
    tail: Seq<Seq<char>>,
    i: int,
    options: CreateOptionsView,
)
    requires
        0 <= i <= args.len(),
        create_options(args, i, options) is Ok,
    ensures
        create_options(args + tail, i, options) == create_options(
            args + tail,
            args.len() as int,
            create_options(args, i, options)->Ok_0,
        ),
    decreases args.len() - i,
{
    let whole = args + tail;
    if i < args.len() {
        assert(whole[i] == args[i]);
        if i + 1 < args.len() {
            assert(whole[i + 1] == args[i + 1]);
        }
        let (next, j) = create_step(args, i, options)->Ok_0;
        assert(create_step(whole, i, options) == create_step(args, i, options));
        lemma_create_goes_on(args, tail, j, next);
    }
}

/// Behind any arguments of create that are understood, an option that takes a value is
/// understood with the value that follows it. It sets what it is named after to exactly
/// that value and leaves everything else as it was.
pub proof fn create_takes_values(
    fewer: &Vec<String>,
    more: &Vec<String>,
    option: String,
    value: String,
    number: u32,
    before: Result<(CreateRequest, CreateOptions), CliError>,
    after: Result<(CreateRequest, CreateOptions), CliError>,
)
    requires
        more@ == fewer@.push(option).push(value),
        value@.len() > 0 ==> value@[0] != '-',
        call_ensures(parse_create_options, (fewer,), before),
        call_ensures(parse_create_options, (more,), after),
        before is Ok,
    ensures
        option@ == "--repo"@
            ==> after is Ok && after->Ok_0.1@ == (
                CreateOptionsView { repo_path: value@, ..before->Ok_0.1@ }
            ),
        option@ == "--db"@
            ==> after is Ok && after->Ok_0.1@ == (
                CreateOptionsView { db_path: Some(value@), ..before->Ok_0.1@ }
            ),
        option@ == "--socket"@
            ==> after is Ok && after->Ok_0.1@ == (
                CreateOptionsView { socket_path: Some(value@), ..before->Ok_0.1@ }
            ),
        option@ == "--base"@
            ==> after is Ok && after->Ok_0.1@ == (
                CreateOptionsView { base: Some(value@), ..before->Ok_0.1@ }
            ),
        option@ == "--path"@
            ==> after is Ok && after->Ok_0.1@ == (
                CreateOptionsView { path: Some(value@), ..before->Ok_0.1@ }
            ),
        option@ == "--idempotency-key"@
            ==> after is Ok && after->Ok_0.1@ == (
                CreateOptionsView { idempotency_key: Some(value@), ..before->Ok_0.1@ }
            ),
        option@ == "--base"@
            ==> after is Ok && after->Ok_0.0@ == (
                CreateRequestView { base: Some(value@), ..before->Ok_0.0@ }
            ),
        option@ == "--path"@
            ==> after is Ok && after->Ok_0.0@ == (
                CreateRequestView { path: Some(value@), ..before->Ok_0.0@ }
            ),
        option@ == "--idempotency-key"@
            ==> after is Ok && after->Ok_0.0@ == (
                CreateRequestView { idempotency_key: Some(value@), ..before->Ok_0.0@ }
            ),
        option@ == "--repo"@ ==> after is Ok && after->Ok_0.0@ == before->Ok_0.0@,
        option@ == "--db"@ ==> after is Ok && after->Ok_0.0@ == before->Ok_0.0@,
        option@ == "--socket"@ ==> after is Ok && after->Ok_0.0@ == before->Ok_0.0@,
{
    lemma_option_names();
    lemma_command_names();
    decimal_reads_back(number as nat, 0x7fff_ffff_ffff_ffff);
    assert(is_digit(decimal(number as nat)[0]));
    let args = views(fewer@);
    let tail = seq![option@, value@];
    let whole = args + tail;
    assert(views(more@) =~= whole);
    let start = CreateOptionsView::none();
    let options = create_options(args, 0, start)->Ok_0;
    lemma_create_goes_on(args, tail, 0, start);
    assert(whole[args.len() as int] == option@);
    assert(whole[args.len() as int + 1] == value@);
    reveal_with_fuel(create_options, 2);
    assert(create_options(whole, 0, start) == create_options(whole, args.len() as int, options));
}

/// Behind any arguments of create that are understood, one argument more is understood if
/// it is a mark that it knows, and then sets just that; every other mark is refused, and so
/// is an option whose value is missing.
pub proof fn create_takes_marks(
    fewer: &Vec<String>,
    more: &Vec<String>,
    mark: String,
    before: Result<(CreateRequest, CreateOptions), CliError>,
    after: Result<(CreateRequest, CreateOptions), CliError>,
)
    requires
        more@ == fewer@.push(mark),
        mark@.len() > 0 && mark@[0] == '-',
        call_ensures(parse_create_options, (fewer,), before),
        call_ensures(parse_create_options, (more,), after),
        before is Ok,
    ensures
        mark@ == "--json"@
            ==> after is Ok && after->Ok_0.1@ == (
                CreateOptionsView { json: true, ..before->Ok_0.1@ }
            ),
        mark@ == "--json"@ ==> after is Ok && after->Ok_0.0@ == before->Ok_0.0@,
        !((mark@ == "--json"@)) ==> after is Err,
{
    lemma_option_names();
    lemma_command_names();
    let args = views(fewer@);
    let tail = seq![mark@];
    let whole = args + tail;
    assert(views(more@) =~= whole);
    let start = CreateOptionsView::none();
    let options = create_options(args, 0, start)->Ok_0;
    lemma_create_goes_on(args, tail, 0, start);
    assert(whole[args.len() as int] == mark@);
    reveal_with_fuel(create_options, 2);
    assert(create_options(whole, 0, start) == create_options(whole, args.len() as int, options));
}

proof fn lemma_path_goes_on(
    args: Seq<Seq<char>>,
    tail: Seq<Seq<char>>,
    i: int,
    options: PathMutationOptionsView,
    command: Seq<char>,
)
    requires
        0 <= i <= args.len(),
        path_options(args, i, options, command) is Ok,
    ensures
        path_options(args + tail, i, options, command) == path_options(
            args + tail,
            args.len() as int,
            path_options(args, i, options, command)->Ok_0, command,
        ),
    decreases args.len() - i,
{
    let whole = args + tail;
    if i < args.len() {
        assert(whole[i] == args[i]);
        if i + 1 < args.len() {
            assert(whole[i + 1] == args[i + 1]);
        }
        let (next, j) = path_step(args, i, options, command)->Ok_0;
        assert(path_step(whole, i, options, command) == path_step(args, i, options, command));
        lemma_path_goes_on(args, tail, j, next, command);
    }
}

/// Behind any arguments of lock, unlock and remove that are understood, an option that
/// takes a value is understood with the value that follows it. It sets what it is named
/// after to exactly that value and leaves everything else as it was.
pub proof fn path_takes_values(
    fewer: &Vec<String>,
    more: &Vec<String>,
    option: String,
    value: String,
    number: u32,
    command: &str,
    before: Result<(String, PathMutationOptions), CliError>,
    after: Result<(String, PathMutationOptions), CliError>,
)
    requires
        more@ == fewer@.push(option).push(value),
        value@.len() > 0 ==> value@[0] != '-',
        call_ensures(parse_path_mutation_options, (fewer, command), before),
        call_ensures(parse_path_mutation_options, (more, command), after),
        before is Ok,
    ensures
        option@ == "--repo"@ && command@ == "remove"@
            ==> after is Ok && after->Ok_0.1@ == (
                PathMutationOptionsView { repo_path: Some(value@), ..before->Ok_0.1@ }
            ),
        option@ == "--db"@
            ==> after is Ok && after->Ok_0.1@ == (
                PathMutationOptionsView { db_path: Some(value@), ..before->Ok_0.1@ }
            ),
        option@ == "--socket"@
            ==> after is Ok && after->Ok_0.1@ == (
                PathMutationOptionsView { socket_path: Some(value@), ..before->Ok_0.1@ }
            ),
        option@ == "--minimum-age-seconds"@
            && command@ == "remove"@
            && value@ == decimal(number as nat)
            ==> after is Ok && after->Ok_0.1@ == (
                PathMutationOptionsView {
                    minimum_age_seconds: Some(number as i64),
                    ..before->Ok_0.1@
                }
            ),
        option@ == "--reason"@ && command@ == "lock"@
            ==> after is Ok && after->Ok_0.1@ == (
                PathMutationOptionsView { reason: Some(value@), ..before->Ok_0.1@ }
            ),
        after is Ok ==> after->Ok_0.0@ == before->Ok_0.0@ || !is_option(option@),
{
    lemma_option_names();
    lemma_command_names();
    decimal_reads_back(number as nat, 0x7fff_ffff_ffff_ffff);
    assert(is_digit(decimal(number as nat)[0]));
    let args = views(fewer@);
    let tail = seq![option@, value@];
    let whole = args + tail;
    assert(views(more@) =~= whole);
    let start = PathMutationOptionsView::none();
    let options = path_options(args, 0, start, command@)->Ok_0;
    lemma_path_goes_on(args, tail, 0, start, command@);
    assert(whole[args.len() as int] == option@);
    assert(whole[args.len() as int + 1] == value@);
    reveal_with_fuel(path_options, 2);
    assert(
        path_options(whole, 0, start, command@) == path_options(
            whole,
            args.len() as int,
            options,
            command@,
        )
    );
}

/// Behind any arguments of lock, unlock and remove that are understood, one argument more
/// is understood if it is a mark that it knows, and then sets just that; every other mark
/// is refused, and so is an option whose value is missing.
pub proof fn path_takes_marks(
    fewer: &Vec<String>,
    more: &Vec<String>,
    mark: String,
    command: &str,
    before: Result<(String, PathMutationOptions), CliError>,
    after: Result<(String, PathMutationOptions), CliError>,
)
    requires
        more@ == fewer@.push(mark),
        mark@.len() > 0 && mark@[0] == '-',
        call_ensures(parse_path_mutation_options, (fewer, command), before),
        call_ensures(parse_path_mutation_options, (more, command), after),
        before is Ok,
    ensures
        mark@ == "--delete-branch"@ && command@ == "remove"@
            ==> after is Ok && after->Ok_0.1@ == (
                PathMutationOptionsView { delete_branch: true, ..before->Ok_0.1@ }
            ),
        mark@ == "--delete-branch"@ && command@ == "remove"@
            ==> after is Ok && after->Ok_0.0@ == before->Ok_0.0@,
        mark@ == "--json"@
            ==> after is Ok && after->Ok_0.1@ == (
                PathMutationOptionsView { json: true, ..before->Ok_0.1@ }
            ),
        mark@ == "--json"@ ==> after is Ok && after->Ok_0.0@ == before->Ok_0.0@,
        !((mark@ == "--delete-branch"@ && command@ == "remove"@) || (mark@ == "--json"@))
            ==> after is Err,
{
    lemma_option_names();
    lemma_command_names();
    let args = views(fewer@);
    let tail = seq![mark@];
    let whole = args + tail;
    assert(views(more@) =~= whole);
    let start = PathMutationOptionsView::none();
    let options = path_options(args, 0, start, command@)->Ok_0;
    lemma_path_goes_on(args, tail, 0, start, command@);
    assert(whole[args.len() as int] == mark@);
    reveal_with_fuel(path_options, 2);
    assert(
        path_options(whole, 0, start, command@) == path_options(
            whole,
            args.len() as int,
            options,
            command@,
        )
    );
}

proof fn lemma_cleanup_goes_on(
    args: Seq<Seq<char>>,
    tail: Seq<Seq<char>>,
    i: int,
    options: RepositoryMutationOptionsView,
    command: Seq<char>,
)
    requires
        0 <= i <= args.len(),
        cleanup_options(args, i, options, command) is Ok,
    ensures
        cleanup_options(args + tail, i, options, command) == cleanup_options(
            args + tail,
            args.len() as int,
            cleanup_options(args, i, options, command)->Ok_0, command,
        ),
    decreases args.len() - i,
{
    let whole = args + tail;
    if i < args.len() {
        assert(whole[i] == args[i]);
        if i + 1 < args.len() {
            assert(whole[i + 1] == args[i + 1]);
        }
        let (next, j) = cleanup_step(args, i, options, command)->Ok_0;
        assert(cleanup_step(whole, i, options, command) == cleanup_step(args, i, options, command));
        lemma_cleanup_goes_on(args, tail, j, next, command);
    }
}

/// Behind any arguments of cleanup that are understood, an option that takes a value is
/// understood with the value that follows it. It sets what it is named after to exactly
/// that value and leaves everything else as it was.
pub proof fn cleanup_takes_values(
    fewer: &Vec<String>,
    more: &Vec<String>,
    option: String,
    value: String,
    number: u32,
    command: &str,
    before: Result<RepositoryMutationOptions, CliError>,
    after: Result<RepositoryMutationOptions, CliError>,
)
    requires
        more@ == fewer@.push(option).push(value),
        value@.len() > 0 ==> value@[0] != '-',
        call_ensures(parse_repository_mutation_options, (fewer, command), before),
        call_ensures(parse_repository_mutation_options, (more, command), after),
        before is Ok,
    ensures
        option@ == "--repo"@
            ==> after is Ok && after->Ok_0@ == (
                RepositoryMutationOptionsView { repo_path: value@, ..before->Ok_0@ }
            ),
        option@ == "--base"@
            ==> after is Ok && after->Ok_0@ == (
                RepositoryMutationOptionsView { base: Some(value@), ..before->Ok_0@ }
            ),
        option@ == "--db"@
            ==> after is Ok && after->Ok_0@ == (
                RepositoryMutationOptionsView { db_path: Some(value@), ..before->Ok_0@ }
            ),
        option@ == "--socket"@
            ==> after is Ok && after->Ok_0@ == (
                RepositoryMutationOptionsView { socket_path: Some(value@), ..before->Ok_0@ }
            ),
        option@ == "--minimum-age-seconds"@ && value@ == decimal(number as nat)
            ==> after is Ok && after->Ok_0@ == (
                RepositoryMutationOptionsView {
                    minimum_age_seconds: Some(number as i64),
                    ..before->Ok_0@
                }
            ),
{
    lemma_option_names();
    lemma_command_names();
    decimal_reads_back(number as nat, 0x7fff_ffff_ffff_ffff);
    assert(is_digit(decimal(number as nat)[0]));
    let args = views(fewer@);
    let tail = seq![option@, value@];
    let whole = args + tail;
    assert(views(more@) =~= whole);
    let start = RepositoryMutationOptionsView::none();
    let options = cleanup_options(args, 0, start, command@)->Ok_0;
    lemma_cleanup_goes_on(args, tail, 0, start, command@);
    assert(whole[args.len() as int] == option@);
    assert(whole[args.len() as int + 1] == value@);
    reveal_with_fuel(cleanup_options, 2);
    assert(
        cleanup_options(whole, 0, start, command@) == cleanup_options(
            whole,
            args.len() as int,
            options,
            command@,
        )
    );
}

/// Behind any arguments of cleanup that are understood, one argument more is understood if
/// it is a mark that it knows, and then sets just that; every other mark is refused, and so
/// is an option whose value is missing.
pub proof fn cleanup_takes_marks(
    fewer: &Vec<String>,
    more: &Vec<String>,
    mark: String,
    command: &str,
    before: Result<RepositoryMutationOptions, CliError>,
    after: Result<RepositoryMutationOptions, CliError>,
)
    requires
        more@ == fewer@.push(mark),
        mark@.len() > 0 && mark@[0] == '-',
        call_ensures(parse_repository_mutation_options, (fewer, command), before),
        call_ensures(parse_repository_mutation_options, (more, command), after),
        before is Ok,
    ensures
        mark@ == "--json"@
            ==> after is Ok && after->Ok_0@ == (
                RepositoryMutationOptionsView { json: true, ..before->Ok_0@ }
            ),
        !((mark@ == "--json"@)) ==> after is Err,
{
    lemma_option_names();
    lemma_command_names();
    let args = views(fewer@);
    let tail = seq![mark@];
    let whole = args + tail;
    assert(views(more@) =~= whole);
    let start = RepositoryMutationOptionsView::none();
    let options = cleanup_options(args, 0, start, command@)->Ok_0;
    lemma_cleanup_goes_on(args, tail, 0, start, command@);
    assert(whole[args.len() as int] == mark@);
    reveal_with_fuel(cleanup_options, 2);
    assert(
        cleanup_options(whole, 0, start, command@) == cleanup_options(
            whole,
            args.len() as int,
            options,
            command@,
        )
    );
}

proof fn lemma_daemon_goes_on(
    args: Seq<Seq<char>>,
    tail: Seq<Seq<char>>,
    i: int,
    options: DaemonOptionsView,
)
    requires
        0 <= i <= args.len(),
        daemon_options(args, i, options) is Ok,
    ensures
        daemon_options(args + tail, i, options) == daemon_options(
            args + tail,
            args.len() as int,
            daemon_options(args, i, options)->Ok_0,
        ),
    decreases args.len() - i,
{
    let whole = args + tail;
    if i < args.len() {
        assert(whole[i] == args[i]);
        if i + 1 < args.len() {
            assert(whole[i + 1] == args[i + 1]);
        }
        let (next, j) = daemon_step(args, i, options)->Ok_0;
        assert(daemon_step(whole, i, options) == daemon_step(args, i, options));
        lemma_daemon_goes_on(args, tail, j, next);
    }
}

/// Behind any arguments of daemon that are understood, an option that takes a value is
/// understood with the value that follows it. It sets what it is named after to exactly
/// that value and leaves everything else as it was.
pub proof fn daemon_takes_values(
    fewer: &Vec<String>,
    more: &Vec<String>,
    option: String,
    value: String,
    number: u32,
    before: Result<DaemonOptions, CliError>,
    after: Result<DaemonOptions, CliError>,
)
    requires
        more@ == fewer@.push(option).push(value),
        value@.len() > 0 ==> value@[0] != '-',
        call_ensures(parse_daemon_options, (fewer,), before),
        call_ensures(parse_daemon_options, (more,), after),
        before is Ok,
    ensures
        option@ == "--repo"@
            ==> after is Ok && after->Ok_0@ == (
                DaemonOptionsView { repo_path: value@, ..before->Ok_0@ }
            ),
        option@ == "--db"@
            ==> after is Ok && after->Ok_0@ == (
                DaemonOptionsView { db_path: Some(value@), ..before->Ok_0@ }
            ),
        option@ == "--socket"@
            ==> after is Ok && after->Ok_0@ == (
                DaemonOptionsView { socket_path: Some(value@), ..before->Ok_0@ }
            ),
        option@ == "--minimum-age-seconds"@ && value@ == decimal(number as nat)
            ==> after is Ok && after->Ok_0@ == (
                DaemonOptionsView { minimum_age_seconds: Some(number as i64), ..before->Ok_0@ }
            ),
{
    lemma_option_names();
    lemma_command_names();
    decimal_reads_back(number as nat, 0x7fff_ffff_ffff_ffff);
    assert(is_digit(decimal(number as nat)[0]));
    let args = views(fewer@);
    let tail = seq![option@, value@];
    let whole = args + tail;
    assert(views(more@) =~= whole);
    let start = DaemonOptionsView::none();
    let options = daemon_options(args, 0, start)->Ok_0;
    lemma_daemon_goes_on(args, tail, 0, start);
    assert(whole[args.len() as int] == option@);
    assert(whole[args.len() as int + 1] == value@);
    reveal_with_fuel(daemon_options, 2);
    assert(daemon_options(whole, 0, start) == daemon_options(whole, args.len() as int, options));
}

/// Behind any arguments of daemon that are understood, one argument more is understood if
/// it is a mark that it knows, and then sets just that; every other mark is refused, and so
/// is an option whose value is missing.
pub proof fn daemon_takes_marks(
    fewer: &Vec<String>,
    more: &Vec<String>,
    mark: String,
    before: Result<DaemonOptions, CliError>,
    after: Result<DaemonOptions, CliError>,
)
    requires
        more@ == fewer@.push(mark),
        mark@.len() > 0 && mark@[0] == '-',
        call_ensures(parse_daemon_options, (fewer,), before),
        call_ensures(parse_daemon_options, (more,), after),
        before is Ok,
    ensures
        after is Err,
{
    lemma_option_names();
    lemma_command_names();
    let args = views(fewer@);
    let tail = seq![mark@];
    let whole = args + tail;
    assert(views(more@) =~= whole);
    let start = DaemonOptionsView::none();
    let options = daemon_options(args, 0, start)->Ok_0;
    lemma_daemon_goes_on(args, tail, 0, start);
    assert(whole[args.len() as int] == mark@);
    reveal_with_fuel(daemon_options, 2);
    assert(daemon_options(whole, 0, start) == daemon_options(whole, args.len() as int, options));
}

proof fn lemma_clean_goes_on(
    args: Seq<Seq<char>>,
    tail: Seq<Seq<char>>,
    i: int,
    options: DaemonCleanOptionsView,
)
    requires
        0 <= i <= args.len(),
        clean_options(args, i, options) is Ok,
    ensures
        clean_options(args + tail, i, options) == clean_options(
            args + tail,
            args.len() as int,
            clean_options(args, i, options)->Ok_0,
        ),
    decreases args.len() - i,
{
    let whole = args + tail;
    if i < args.len() {
        assert(whole[i] == args[i]);
        if i + 1 < args.len() {
            assert(whole[i + 1] == args[i + 1]);
        }
        let (next, j) = clean_step(args, i, options)->Ok_0;
        assert(clean_step(whole, i, options) == clean_step(args, i, options));
        lemma_clean_goes_on(args, tail, j, next);
    }
}

/// Behind any arguments of daemon clean that are understood, an option that takes a value is
/// understood with the value that follows it. It sets what it is named after to exactly
/// that value and leaves everything else as it was.
pub proof fn clean_takes_values(
    fewer: &Vec<String>,
    more: &Vec<String>,
    option: String,
    value: String,
    number: u32,
    before: Result<DaemonCleanOptions, CliError>,
    after: Result<DaemonCleanOptions, CliError>,
)
    requires
        more@ == fewer@.push(option).push(value),
        value@.len() > 0 ==> value@[0] != '-',
        call_ensures(parse_daemon_clean_options, (fewer,), before),
        call_ensures(parse_daemon_clean_options, (more,), after),
        before is Ok,
    ensures
        option@ == "--repo"@
            ==> after is Ok && after->Ok_0@ == (
                DaemonCleanOptionsView { repo_path: value@, ..before->Ok_0@ }
            ),
        option@ == "--socket"@
            ==> after is Ok && after->Ok_0@ == (
                DaemonCleanOptionsView { socket_path: Some(value@), ..before->Ok_0@ }
            ),
{
    lemma_option_names();
    lemma_command_names();
    decimal_reads_back(number as nat, 0x7fff_ffff_ffff_ffff);
    assert(is_digit(decimal(number as nat)[0]));
    let args = views(fewer@);
    let tail = seq![option@, value@];
    let whole = args + tail;
    assert(views(more@) =~= whole);
    let start = DaemonCleanOptionsView::none();
    let options = clean_options(args, 0, start)->Ok_0;
    lemma_clean_goes_on(args, tail, 0, start);
    assert(whole[args.len() as int] == option@);
    assert(whole[args.len() as int + 1] == value@);
    reveal_with_fuel(clean_options, 2);
    assert(clean_options(whole, 0, start) == clean_options(whole, args.len() as int, options));
}

/// Behind any arguments of daemon clean that are understood, one argument more is understood if
/// it is a mark that it knows, and then sets just that; every other mark is refused, and so
/// is an option whose value is missing.
pub proof fn clean_takes_marks(
    fewer: &Vec<String>,
    more: &Vec<String>,
    mark: String,
    before: Result<DaemonCleanOptions, CliError>,
    after: Result<DaemonCleanOptions, CliError>,
)
    requires
        more@ == fewer@.push(mark),
        mark@.len() > 0 && mark@[0] == '-',
        call_ensures(parse_daemon_clean_options, (fewer,), before),
        call_ensures(parse_daemon_clean_options, (more,), after),
        before is Ok,
    ensures
        after is Err,
{
    lemma_option_names();
    lemma_command_names();
    let args = views(fewer@);
    let tail = seq![mark@];
    let whole = args + tail;
    assert(views(more@) =~= whole);
    let start = DaemonCleanOptionsView::none();
    let options = clean_options(args, 0, start)->Ok_0;
    lemma_clean_goes_on(args, tail, 0, start);
    assert(whole[args.len() as int] == mark@);
    reveal_with_fuel(clean_options, 2);
    assert(clean_options(whole, 0, start) == clean_options(whole, args.len() as int, options));
}

/// The one name that status takes is the path, everything else is left open; without a path
/// or with a second one it is refused.
pub proof fn status_takes_one_name(
    one: &Vec<String>,
    two: &Vec<String>,
    nothing: &Vec<String>,
    name: String,
    other: String,
    result: Result<(String, StatusOptions), CliError>,
    twice: Result<(String, StatusOptions), CliError>,
    without: Result<(String, StatusOptions), CliError>,
)
    requires
        nothing@.len() == 0,
        one@ == seq![name],
        two@ == seq![name, other],
        !is_option(name@),
        !is_option(other@),
        call_ensures(parse_status_options, (one,), result),
        call_ensures(parse_status_options, (two,), twice),
        call_ensures(parse_status_options, (nothing,), without),
    ensures
        result is Ok
            && result->Ok_0.0@ == name@
            && option_view(result->Ok_0.1.path) == Some(name@)
            && result->Ok_0.1.base is None
            && !result->Ok_0.1.json,
        twice is Err,
        without is Err,
{
    lemma_option_names();
    assert(views(one@) =~= seq![name@]);
    assert(views(two@) =~= seq![name@, other@]);
    assert(views(nothing@) =~= seq![]);
    reveal_with_fuel(status_options, 3);
}

/// The one name that create takes is the branch, everything else is left open; without a
/// branch or with a second one it is refused.
pub proof fn create_takes_one_name(
    one: &Vec<String>,
    two: &Vec<String>,
    nothing: &Vec<String>,
    name: String,
    other: String,
    result: Result<(CreateRequest, CreateOptions), CliError>,
    twice: Result<(CreateRequest, CreateOptions), CliError>,
    without: Result<(CreateRequest, CreateOptions), CliError>,
)
    requires
        nothing@.len() == 0,
        one@ == seq![name],
        two@ == seq![name, other],
        !is_option(name@),
        !is_option(other@),
        call_ensures(parse_create_options, (one,), result),
        call_ensures(parse_create_options, (two,), twice),
        call_ensures(parse_create_options, (nothing,), without),
    ensures
        result is Ok
            && result->Ok_0.0.branch@ == name@
            && result->Ok_0.0.base is None
            && result->Ok_0.0.path is None
            && result->Ok_0.0.idempotency_key is None
            && result->Ok_0.0.actor@ == "cli"@,
        result is Ok
            && result->Ok_0.1.repo_path@ == "."@
            && result->Ok_0.1.db_path is None
            && result->Ok_0.1.socket_path is None
            && !result->Ok_0.1.json,
        twice is Err,
        without is Err,
{
    lemma_option_names();
    assert(views(one@) =~= seq![name@]);
    assert(views(two@) =~= seq![name@, other@]);
    assert(views(nothing@) =~= seq![]);
    reveal_with_fuel(create_options, 3);
}

/// The one name that lock, unlock and remove take is the path, everything else is left open:
/// no age, no reason, and no branch to delete. Without a path or with a second one they are
/// refused.
pub proof fn path_takes_one_name(
    one: &Vec<String>,
    two: &Vec<String>,
    nothing: &Vec<String>,
    name: String,
    other: String,
    command: &str,
    result: Result<(String, PathMutationOptions), CliError>,
    twice: Result<(String, PathMutationOptions), CliError>,
    without: Result<(String, PathMutationOptions), CliError>,
)
    requires
        nothing@.len() == 0,
        one@ == seq![name],
        two@ == seq![name, other],
        !is_option(name@),
        !is_option(other@),
        call_ensures(parse_path_mutation_options, (one, command), result),
        call_ensures(parse_path_mutation_options, (two, command), twice),
        call_ensures(parse_path_mutation_options, (nothing, command), without),
    ensures
        result is Ok
            && result->Ok_0.0@ == name@
            && result->Ok_0.1.repo_path is None
            && result->Ok_0.1.db_path is None
            && result->Ok_0.1.socket_path is None
            && result->Ok_0.1.minimum_age_seconds is None
            && result->Ok_0.1.reason is None
            && !result->Ok_0.1.delete_branch
            && !result->Ok_0.1.json,
        twice is Err,
        without is Err,
{
    lemma_option_names();
    assert(views(one@) =~= seq![name@]);
    assert(views(two@) =~= seq![name@, other@]);
    assert(views(nothing@) =~= seq![]);
    reveal_with_fuel(path_options, 3);
}

/// Without arguments, the repository is the one of the current directory, and everything
/// else is left open.
pub proof fn no_arguments_leave_everything_open(
    nothing: &Vec<String>,
    command: &str,
    listed: Result<ListOptions, CliError>,
    cleaned: Result<RepositoryMutationOptions, CliError>,
    served: Result<DaemonOptions, CliError>,
    swept: Result<DaemonCleanOptions, CliError>,
)
    requires
        nothing@.len() == 0,
        call_ensures(parse_repository_options, (nothing, command), listed),
        call_ensures(parse_repository_mutation_options, (nothing, command), cleaned),
        call_ensures(parse_daemon_options, (nothing,), served),
        call_ensures(parse_daemon_clean_options, (nothing,), swept),
    ensures
        listed is Ok && listed->Ok_0.repo_path@ == "."@ && listed->Ok_0.base is None
            && !listed->Ok_0.json,
        cleaned is Ok && cleaned->Ok_0.repo_path@ == "."@ && cleaned->Ok_0.base is None
            && cleaned->Ok_0.db_path is None && cleaned->Ok_0.socket_path is None
            && cleaned->Ok_0.minimum_age_seconds is None && !cleaned->Ok_0.json,
        served is Ok && served->Ok_0.repo_path@ == "."@ && served->Ok_0.db_path is None
            && served->Ok_0.socket_path is None && served->Ok_0.minimum_age_seconds is None,
        swept is Ok && swept->Ok_0.repo_path@ == "."@ && swept->Ok_0.socket_path is None,
{
    assert(views(nothing@) =~= seq![]);
}

} // verus!
