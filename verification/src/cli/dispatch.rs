//! Which command a call asks for.

use crate::cli::error::CliError;
use crate::cli::error::CliErrorView;
use crate::cli::options::CreateOptions;
use crate::cli::options::CreateOptionsView;
use crate::cli::options::DaemonCleanOptions;
use crate::cli::options::DaemonCleanOptionsView;
use crate::cli::options::DaemonOptions;
use crate::cli::options::DaemonOptionsView;
use crate::cli::options::ListOptions;
use crate::cli::options::ListOptionsView;
use crate::cli::options::PathMutationOptions;
use crate::cli::options::PathMutationOptionsView;
use crate::cli::options::RepositoryMutationOptions;
use crate::cli::options::RepositoryMutationOptionsView;
use crate::cli::options::StatusOptions;
use crate::cli::options::StatusOptionsView;
use crate::cli::options::clean_options;
use crate::cli::options::cleanup_options;
use crate::cli::options::create_request;
use crate::cli::options::daemon_options;
use crate::cli::options::list_options;
use crate::cli::options::parse_create_options;
use crate::cli::options::parse_daemon_clean_options;
use crate::cli::options::parse_daemon_options;
use crate::cli::options::parse_path_mutation_options;
use crate::cli::options::parse_repository_mutation_options;
use crate::cli::options::parse_repository_options;
use crate::cli::options::parse_status_options;
use crate::cli::options::path_request;
use crate::cli::options::status_request;
use crate::cli::usage::usage_error;
use crate::cli::usage::usage_fault;
use crate::service::types::CreateRequest;
use crate::service::types::CreateRequestView;
use crate::text::concat;
use crate::text::debug_string;
use crate::text::debug_text;
use crate::text::same_text;
use crate::text::views;
use vstd::prelude::*;

verus! {

/// A command with its options.
#[derive(Debug, PartialEq, Eq)]
pub enum Invocation {
    Help,
    Version,
    List(ListOptions),
    Status { path: String, options: StatusOptions },
    Create { request: CreateRequest, options: CreateOptions },
    Lock { path: String, options: PathMutationOptions },
    Unlock { path: String, options: PathMutationOptions },
    Remove { path: String, options: PathMutationOptions },
    CleanupScan(RepositoryMutationOptions),
    Daemon(DaemonOptions),
    DaemonClean(DaemonCleanOptions),
}

/// The view of a [`Invocation`].
#[verifier::ext_equal]
pub enum InvocationView {
    Help,
    Version,
    List(ListOptionsView),
    Status { path: Seq<char>, options: StatusOptionsView },
    Create { request: CreateRequestView, options: CreateOptionsView },
    Lock { path: Seq<char>, options: PathMutationOptionsView },
    Unlock { path: Seq<char>, options: PathMutationOptionsView },
    Remove { path: Seq<char>, options: PathMutationOptionsView },
    CleanupScan(RepositoryMutationOptionsView),
    Daemon(DaemonOptionsView),
    DaemonClean(DaemonCleanOptionsView),
}

impl View for Invocation {
    type V = InvocationView;

    open spec fn view(&self) -> InvocationView {
        match self {
            Invocation::Help => InvocationView::Help,
            Invocation::Version => InvocationView::Version,
            Invocation::List(inner) => InvocationView::List(inner@),
            Invocation::Status { path, options } => InvocationView::Status {
                path: path@,
                options: options@,
            },
            Invocation::Create { request, options } => InvocationView::Create {
                request: request@,
                options: options@,
            },
            Invocation::Lock { path, options } => InvocationView::Lock {
                path: path@,
                options: options@,
            },
            Invocation::Unlock { path, options } => InvocationView::Unlock {
                path: path@,
                options: options@,
            },
            Invocation::Remove { path, options } => InvocationView::Remove {
                path: path@,
                options: options@,
            },
            Invocation::CleanupScan(inner) => InvocationView::CleanupScan(inner@),
            Invocation::Daemon(inner) => InvocationView::Daemon(inner@),
            Invocation::DaemonClean(inner) => InvocationView::DaemonClean(inner@),
        }
    }
}

/// What `cleanup` and its arguments ask for.
pub open spec fn cleanup_invocation(args: Seq<Seq<char>>) -> Result<InvocationView, CliErrorView> {
    if args.len() == 0 {
        Err(usage_fault("cleanup requires a subcommand"@))
    } else if args[0] != "scan"@ {
        Err(usage_fault("unknown cleanup subcommand "@ + debug_text(args[0])))
    } else {
        match cleanup_options(
            args.skip(1),
            0,
            RepositoryMutationOptionsView::none(),
            "cleanup scan"@,
        ) {
            Ok(options) => Ok(InvocationView::CleanupScan(options)),
            Err(error) => Err(error),
        }
    }
}

/// What `daemon` and its arguments ask for.
pub open spec fn daemon_invocation(args: Seq<Seq<char>>) -> Result<InvocationView, CliErrorView> {
    if args.len() > 0 && args[0] == "clean"@ {
        match clean_options(args.skip(1), 0, DaemonCleanOptionsView::none()) {
            Ok(options) => Ok(InvocationView::DaemonClean(options)),
            Err(error) => Err(error),
        }
    } else {
        match daemon_options(args, 0, DaemonOptionsView::none()) {
            Ok(options) => Ok(InvocationView::Daemon(options)),
            Err(error) => Err(error),
        }
    }
}

/// What a command that names a worktree asks for.
pub open spec fn path_invocation(command: Seq<char>, args: Seq<Seq<char>>) -> Result<
    InvocationView,
    CliErrorView,
> {
    match path_request(args, command) {
        Err(error) => Err(error),
        Ok((path, options)) => Ok(
            if command == "lock"@ {
                InvocationView::Lock { path, options }
            } else if command == "unlock"@ {
                InvocationView::Unlock { path, options }
            } else {
                InvocationView::Remove { path, options }
            },
        ),
    }
}

/// What a call asks for.
pub open spec fn invocation(args: Seq<Seq<char>>) -> Result<InvocationView, CliErrorView> {
    if args.len() == 0 {
        Ok(InvocationView::Help)
    } else {
        let command = args[0];
        let rest = args.skip(1);
        if command == "list"@ {
            match list_options(rest, 0, ListOptionsView::none(), "list"@) {
                Ok(options) => Ok(InvocationView::List(options)),
                Err(error) => Err(error),
            }
        } else if command == "status"@ {
            match status_request(rest) {
                Ok((path, options)) => Ok(InvocationView::Status { path, options }),
                Err(error) => Err(error),
            }
        } else if command == "create"@ {
            match create_request(rest) {
                Ok((request, options)) => Ok(InvocationView::Create { request, options }),
                Err(error) => Err(error),
            }
        } else if command == "lock"@ || command == "unlock"@ || command == "remove"@ {
            path_invocation(command, rest)
        } else if command == "cleanup"@ {
            cleanup_invocation(rest)
        } else if command == "daemon"@ {
            daemon_invocation(rest)
        } else if command == "help"@ || command == "--help"@ || command == "-h"@ {
            Ok(InvocationView::Help)
        } else if command == "--version"@ || command == "-V"@ || command == "version"@ {
            Ok(InvocationView::Version)
        } else {
            Err(usage_fault("unknown command "@ + debug_text(command)))
        }
    }
}

fn without_first(args: &Vec<String>) -> (rest: Vec<String>)
    requires
        args.len() > 0,
    ensures
        views(rest@) == views(args@).skip(1),
{
    let ghost all = views(args@);
    let mut rest: Vec<String> = Vec::new();
    let mut i: usize = 1;
    assert(views(rest@) =~= all.subrange(1, 1));
    while i < args.len()
        invariant
            1 <= i <= args.len(),
            all == views(args@),
            views(rest@) == all.subrange(1, i as int),
        decreases args.len() - i,
    {
        let ghost before = rest@;
        rest.push(args[i].clone());
        assert(views(rest@) =~= views(before).push(all[i as int]));
        assert(views(rest@) =~= all.subrange(1, i + 1));
        i += 1;
    }
    assert(views(rest@) =~= all.skip(1));
    rest
}

fn read_cleanup(args: &Vec<String>) -> (result: Result<Invocation, CliError>)
    ensures
        match (result, cleanup_invocation(views(args@))) {
            (Ok(found), Ok(expected)) => found@ == expected,
            (Err(error), Err(expected)) => error@ == expected,
            _ => false,
        },
{
    if args.len() == 0 {
        return Err(usage_error("cleanup requires a subcommand"));
    }
    if !same_text(&args[0], "scan") {
        let printed = debug_string(&args[0]);
        let message = concat("unknown cleanup subcommand ", &printed);
        return Err(usage_error(&message));
    }
    let rest = without_first(args);
    match parse_repository_mutation_options(&rest, "cleanup scan") {
        Ok(options) => Ok(Invocation::CleanupScan(options)),
        Err(error) => Err(error),
    }
}

fn read_daemon(args: &Vec<String>) -> (result: Result<Invocation, CliError>)
    ensures
        match (result, daemon_invocation(views(args@))) {
            (Ok(found), Ok(expected)) => found@ == expected,
            (Err(error), Err(expected)) => error@ == expected,
            _ => false,
        },
{
    if args.len() > 0 && same_text(&args[0], "clean") {
        let rest = without_first(args);
        return match parse_daemon_clean_options(&rest) {
            Ok(options) => Ok(Invocation::DaemonClean(options)),
            Err(error) => Err(error),
        };
    }
    match parse_daemon_options(args) {
        Ok(options) => Ok(Invocation::Daemon(options)),
        Err(error) => Err(error),
    }
}

fn read_path(command: &str, args: &Vec<String>) -> (result: Result<Invocation, CliError>)
    ensures
        match (result, path_invocation(command@, views(args@))) {
            (Ok(found), Ok(expected)) => found@ == expected,
            (Err(error), Err(expected)) => error@ == expected,
            _ => false,
        },
{
    match parse_path_mutation_options(args, command) {
        Err(error) => Err(error),
        Ok((path, options)) => {
            if same_text(command, "lock") {
                Ok(Invocation::Lock { path, options })
            } else if same_text(command, "unlock") {
                Ok(Invocation::Unlock { path, options })
            } else {
                Ok(Invocation::Remove { path, options })
            }
        },
    }
}

/// Reads what a call asks for.
pub fn dispatch(args: &Vec<String>) -> (result: Result<Invocation, CliError>)
    ensures
        match (result, invocation(views(args@))) {
            (Ok(found), Ok(expected)) => found@ == expected,
            (Err(error), Err(expected)) => error@ == expected,
            _ => false,
        },
{
    if args.len() == 0 {
        return Ok(Invocation::Help);
    }
    let command = args[0].as_str();
    let rest = without_first(args);
    if same_text(command, "list") {
        match parse_repository_options(&rest, "list") {
            Ok(options) => Ok(Invocation::List(options)),
            Err(error) => Err(error),
        }
    } else if same_text(command, "status") {
        match parse_status_options(&rest) {
            Ok((path, options)) => Ok(Invocation::Status { path, options }),
            Err(error) => Err(error),
        }
    } else if same_text(command, "create") {
        match parse_create_options(&rest) {
            Ok((request, options)) => Ok(Invocation::Create { request, options }),
            Err(error) => Err(error),
        }
    } else if same_text(command, "lock") || same_text(command, "unlock") || same_text(
        command,
        "remove",
    ) {
        read_path(command, &rest)
    } else if same_text(command, "cleanup") {
        read_cleanup(&rest)
    } else if same_text(command, "daemon") {
        read_daemon(&rest)
    } else if same_text(command, "help") || same_text(command, "--help") || same_text(
        command,
        "-h",
    ) {
        Ok(Invocation::Help)
    } else if same_text(command, "--version") || same_text(command, "-V") || same_text(
        command,
        "version",
    ) {
        Ok(Invocation::Version)
    } else {
        let printed = debug_string(command);
        let message = concat("unknown command ", &printed);
        Err(usage_error(&message))
    }
}

} // verus!
