//! The options of the commands.

use crate::cli::error::CliError;
use crate::cli::error::CliErrorView;
use crate::cli::usage::usage_error;
use crate::cli::usage::usage_fault;
use crate::numeral::parse_i64;
use crate::numeral::signed_value;
use crate::paths::same_path;
use crate::paths::same_steps;
use crate::service::types::CreateRequest;
use crate::service::types::CreateRequestView;
use crate::text::concat3;
use crate::text::concat;
use crate::text::copy_option;
use crate::text::debug_string;
use crate::text::debug_text;
use crate::text::option_view;
use crate::text::same_text;
use crate::text::to_chars;
use crate::text::views;
use vstd::prelude::*;

verus! {

/// Whether an argument is an option.
pub open spec fn is_option(arg: Seq<char>) -> bool {
    arg.len() > 0 && arg[0] == '-'
}

fn option_like(arg: &str) -> (result: bool)
    ensures
        result == is_option(arg@),
{
    let chars = to_chars(arg);
    chars.len() > 0 && chars[0] == '-'
}

/// The value of an option: the argument after it, unless that is an option too.
pub open spec fn value_at(args: Seq<Seq<char>>, index: int, option: Seq<char>) -> Result<
    Seq<char>,
    CliErrorView,
> {
    if index < args.len() && !is_option(args[index]) {
        Ok(args[index])
    } else {
        Err(usage_fault(option + " requires a value"@))
    }
}

/// Reads the value of an option.
pub fn required_value(args: &Vec<String>, index: usize, option: &str) -> (result: Result<
    String,
    CliError,
>)
    ensures
        match (result, value_at(views(args@), index as int, option@)) {
            (Ok(value), Ok(expected)) => value@ == expected,
            (Err(error), Err(expected)) => error@ == expected,
            _ => false,
        },
{
    if index < args.len() && !option_like(&args[index]) {
        Ok(args[index].clone())
    } else {
        let message = concat(option, " requires a value");
        Err(usage_error(&message))
    }
}

/// The integer value of an option.
pub open spec fn integer_at(args: Seq<Seq<char>>, index: int, option: Seq<char>) -> Result<
    i64,
    CliErrorView,
> {
    match value_at(args, index, option) {
        Err(error) => Err(error),
        Ok(value) => match signed_value(value) {
            Ok(number) => Ok(number as i64),
            Err(error) => Err(
                usage_fault(
                    option + " requires an integer value, got "@ + debug_text(value) + ": "@
                        + error.message_text(),
                ),
            ),
        },
    }
}

/// Reads the integer value of an option.
pub fn required_integer(args: &Vec<String>, index: usize, option: &str) -> (result: Result<
    i64,
    CliError,
>)
    ensures
        match (result, integer_at(views(args@), index as int, option@)) {
            (Ok(value), Ok(expected)) => value == expected,
            (Err(error), Err(expected)) => error@ == expected,
            _ => false,
        },
{
    let value = match required_value(args, index, option) {
        Ok(value) => value,
        Err(error) => return Err(error),
    };
    match parse_i64(&value) {
        Ok(number) => Ok(number),
        Err(error) => {
            let printed = debug_string(&value);
            let mut message = concat3(option, " requires an integer value, got ", &printed);
            message.append(": ");
            message.append(error.message());
            Err(usage_error(&message))
        },
    }
}

/// The complaint about an option that a command does not have.
pub open spec fn unknown_option(arg: Seq<char>, command: Seq<char>) -> CliErrorView {
    usage_fault("unknown option "@ + debug_text(arg) + " for "@ + command)
}

fn unknown_option_error(arg: &str, command: &str) -> (error: CliError)
    ensures
        error@ == unknown_option(arg@, command@),
{
    let printed = debug_string(arg);
    let mut message = concat3("unknown option ", &printed, " for ");
    message.append(command);
    usage_error(&message)
}

/// A complaint of a command.
pub open spec fn command_fault(command: Seq<char>, complaint: Seq<char>) -> CliErrorView {
    usage_fault(command + complaint)
}

fn command_error(command: &str, complaint: &str) -> (error: CliError)
    ensures
        error@ == command_fault(command@, complaint@),
{
    let message = concat(command, complaint);
    usage_error(&message)
}

/// The options of `list`.
#[derive(Debug, PartialEq, Eq)]
pub struct ListOptions {
    pub repo_path: String,
    pub base: Option<String>,
    pub json: bool,
}

/// The view of a [`ListOptions`].
#[verifier::ext_equal]
pub struct ListOptionsView {
    pub repo_path: Seq<char>,
    pub base: Option<Seq<char>>,
    pub json: bool,
}

impl View for ListOptions {
    type V = ListOptionsView;

    open spec fn view(&self) -> ListOptionsView {
        ListOptionsView {
            repo_path: self.repo_path@,
            base: option_view(self.base),
            json: self.json,
        }
    }
}

impl Clone for ListOptions {
    fn clone(&self) -> (copy: Self)
        ensures
            copy@ == self@,
    {
        ListOptions {
            repo_path: self.repo_path.clone(),
            base: copy_option(&self.base),
            json: self.json,
        }
    }
}

impl ListOptionsView {
    /// The options before any is given.
    pub open spec fn none() -> ListOptionsView {
        ListOptionsView { repo_path: "."@, base: None, json: false }
    }
}

impl ListOptions {
    fn none() -> (options: ListOptions)
        ensures
            options@ == ListOptionsView::none(),
    {
        ListOptions {
            repo_path: ".".to_owned(),
            base: None,
            json: false,
        }
    }
}

/// One argument read, with the value that belongs to it.
pub open spec fn list_step(
    args: Seq<Seq<char>>,
    i: int,
    options: ListOptionsView,
    command: Seq<char>,
) -> Result<(ListOptionsView, int), CliErrorView> {
    let arg = args[i];
    if arg == "--json"@ {
        Ok((ListOptionsView { json: true, ..options }, i + 1))
    } else if arg == "--base"@ {
        match value_at(args, i + 1, "--base"@) {
            Err(error) => Err(error),
            Ok(value) => Ok((ListOptionsView { base: Some(value), ..options }, i + 2)),
        }
    } else if arg == "--repo"@ {
        match value_at(args, i + 1, "--repo"@) {
            Err(error) => Err(error),
            Ok(value) => Ok((ListOptionsView { repo_path: value, ..options }, i + 2)),
        }
    } else if is_option(arg) {
        Err(unknown_option(arg, command))
    } else {
        if !same_steps(options.repo_path, "."@) {
            Err(command_fault(command, " accepts only one repository path"@))
        } else {
            Ok((ListOptionsView { repo_path: arg, ..options }, i + 1))
        }
    }
}

/// The options that arguments give, from one of them on.
pub open spec fn list_options(
    args: Seq<Seq<char>>,
    i: int,
    options: ListOptionsView,
    command: Seq<char>,
) -> Result<ListOptionsView, CliErrorView>
    decreases args.len() - i,
{
    if i < 0 || i >= args.len() {
        Ok(options)
    } else {
        match list_step(args, i, options, command) {
            Err(error) => Err(error),
            Ok((next, j)) => if j > i {
                list_options(args, j, next, command)
            } else {
                Ok(next)
            },
        }
    }
}

fn read_list_options(args: &Vec<String>, command: &str) -> (result: Result<ListOptions, CliError>)
    ensures
        match (result, list_options(views(args@), 0, ListOptionsView::none(), command@)) {
            (Ok(options), Ok(expected)) => options@ == expected,
            (Err(error), Err(expected)) => error@ == expected,
            _ => false,
        },
{
    let ghost all = views(args@);
    let mut options = ListOptions::none();
    let mut i: usize = 0;
    while i < args.len()
        invariant
            i <= args.len() + 1,
            all == views(args@),
            list_options(all, i as int, options@, command@) == list_options(
                all,
                0,
                ListOptionsView::none(),
                command@,
            ),
        decreases args.len() + 1 - i,
    {
        let arg = args[i].as_str();
        assert(all[i as int] == arg@);
        if same_text(arg, "--json") {
            options.json = true;
            i += 1;
        } else if same_text(arg, "--base") {
            match required_value(args, i + 1, "--base") {
                Ok(value) => {
                    options.base = Some(value);
                },
                Err(error) => return Err(error),
            }
            i += 2;
        } else if same_text(arg, "--repo") {
            match required_value(args, i + 1, "--repo") {
                Ok(value) => {
                    options.repo_path = value;
                },
                Err(error) => return Err(error),
            }
            i += 2;
        } else if option_like(arg) {
            return Err(unknown_option_error(arg, command));
        } else {
            if !same_path(&options.repo_path, ".") {
                return Err(command_error(command, " accepts only one repository path"));
            }
            options.repo_path = arg.to_owned();
            i += 1;
        }
    }
    Ok(options)
}

/// The options of `status`.
#[derive(Debug, PartialEq, Eq)]
pub struct StatusOptions {
    pub path: Option<String>,
    pub base: Option<String>,
    pub json: bool,
}

/// The view of a [`StatusOptions`].
#[verifier::ext_equal]
pub struct StatusOptionsView {
    pub path: Option<Seq<char>>,
    pub base: Option<Seq<char>>,
    pub json: bool,
}

impl View for StatusOptions {
    type V = StatusOptionsView;

    open spec fn view(&self) -> StatusOptionsView {
        StatusOptionsView {
            path: option_view(self.path),
            base: option_view(self.base),
            json: self.json,
        }
    }
}

impl Clone for StatusOptions {
    fn clone(&self) -> (copy: Self)
        ensures
            copy@ == self@,
    {
        StatusOptions {
            path: copy_option(&self.path),
            base: copy_option(&self.base),
            json: self.json,
        }
    }
}

impl StatusOptionsView {
    /// The options before any is given.
    pub open spec fn none() -> StatusOptionsView {
        StatusOptionsView { path: None, base: None, json: false }
    }
}

impl StatusOptions {
    fn none() -> (options: StatusOptions)
        ensures
            options@ == StatusOptionsView::none(),
    {
        StatusOptions {
            path: None,
            base: None,
            json: false,
        }
    }
}

/// One argument read, with the value that belongs to it.
pub open spec fn status_step(
    args: Seq<Seq<char>>,
    i: int,
    options: StatusOptionsView,
) -> Result<(StatusOptionsView, int), CliErrorView> {
    let arg = args[i];
    if arg == "--json"@ {
        Ok((StatusOptionsView { json: true, ..options }, i + 1))
    } else if arg == "--base"@ {
        match value_at(args, i + 1, "--base"@) {
            Err(error) => Err(error),
            Ok(value) => Ok((StatusOptionsView { base: Some(value), ..options }, i + 2)),
        }
    } else if is_option(arg) {
        Err(unknown_option(arg, "status"@))
    } else {
        if options.path is Some {
            Err(usage_fault("status accepts one worktree path"@))
        } else {
            Ok((StatusOptionsView { path: Some(arg), ..options }, i + 1))
        }
    }
}

/// The options that arguments give, from one of them on.
pub open spec fn status_options(
    args: Seq<Seq<char>>,
    i: int,
    options: StatusOptionsView,
) -> Result<StatusOptionsView, CliErrorView>
    decreases args.len() - i,
{
    if i < 0 || i >= args.len() {
        Ok(options)
    } else {
        match status_step(args, i, options) {
            Err(error) => Err(error),
            Ok((next, j)) => if j > i {
                status_options(args, j, next)
            } else {
                Ok(next)
            },
        }
    }
}

fn read_status_options(args: &Vec<String>) -> (result: Result<StatusOptions, CliError>)
    ensures
        match (result, status_options(views(args@), 0, StatusOptionsView::none())) {
            (Ok(options), Ok(expected)) => options@ == expected,
            (Err(error), Err(expected)) => error@ == expected,
            _ => false,
        },
{
    let ghost all = views(args@);
    let mut options = StatusOptions::none();
    let mut i: usize = 0;
    while i < args.len()
        invariant
            i <= args.len() + 1,
            all == views(args@),
            status_options(all, i as int, options@) == status_options(
                all,
                0,
                StatusOptionsView::none(),
            ),
        decreases args.len() + 1 - i,
    {
        let arg = args[i].as_str();
        assert(all[i as int] == arg@);
        if same_text(arg, "--json") {
            options.json = true;
            i += 1;
        } else if same_text(arg, "--base") {
            match required_value(args, i + 1, "--base") {
                Ok(value) => {
                    options.base = Some(value);
                },
                Err(error) => return Err(error),
            }
            i += 2;
        } else if option_like(arg) {
            return Err(unknown_option_error(arg, "status"));
        } else {
            if options.path.is_some() {
                return Err(usage_error("status accepts one worktree path"));
            }
            options.path = Some(arg.to_owned());
            i += 1;
        }
    }
    Ok(options)
}

/// The options of `create`.
#[derive(Debug, PartialEq, Eq)]
pub struct CreateOptions {
    pub repo_path: String,
    pub db_path: Option<String>,
    pub socket_path: Option<String>,
    pub branch: Option<String>,
    pub base: Option<String>,
    pub path: Option<String>,
    pub idempotency_key: Option<String>,
    pub json: bool,
}

/// The view of a [`CreateOptions`].
#[verifier::ext_equal]
pub struct CreateOptionsView {
    pub repo_path: Seq<char>,
    pub db_path: Option<Seq<char>>,
    pub socket_path: Option<Seq<char>>,
    pub branch: Option<Seq<char>>,
    pub base: Option<Seq<char>>,
    pub path: Option<Seq<char>>,
    pub idempotency_key: Option<Seq<char>>,
    pub json: bool,
}

impl View for CreateOptions {
    type V = CreateOptionsView;

    open spec fn view(&self) -> CreateOptionsView {
        CreateOptionsView {
            repo_path: self.repo_path@,
            db_path: option_view(self.db_path),
            socket_path: option_view(self.socket_path),
            branch: option_view(self.branch),
            base: option_view(self.base),
            path: option_view(self.path),
            idempotency_key: option_view(self.idempotency_key),
            json: self.json,
        }
    }
}

impl Clone for CreateOptions {
    fn clone(&self) -> (copy: Self)
        ensures
            copy@ == self@,
    {
        CreateOptions {
            repo_path: self.repo_path.clone(),
            db_path: copy_option(&self.db_path),
            socket_path: copy_option(&self.socket_path),
            branch: copy_option(&self.branch),
            base: copy_option(&self.base),
            path: copy_option(&self.path),
            idempotency_key: copy_option(&self.idempotency_key),
            json: self.json,
        }
    }
}

impl CreateOptionsView {
    /// The options before any is given.
    pub open spec fn none() -> CreateOptionsView {
        CreateOptionsView {
            repo_path: "."@,
            db_path: None,
            socket_path: None,
            branch: None,
            base: None,
            path: None,
            idempotency_key: None,
            json: false,
        }
    }
}

impl CreateOptions {
    fn none() -> (options: CreateOptions)
        ensures
            options@ == CreateOptionsView::none(),
    {
        CreateOptions {
            repo_path: ".".to_owned(),
            db_path: None,
            socket_path: None,
            branch: None,
            base: None,
            path: None,
            idempotency_key: None,
            json: false,
        }
    }
}

/// One argument read, with the value that belongs to it.
pub open spec fn create_step(
    args: Seq<Seq<char>>,
    i: int,
    options: CreateOptionsView,
) -> Result<(CreateOptionsView, int), CliErrorView> {
    let arg = args[i];
    if arg == "--repo"@ {
        match value_at(args, i + 1, "--repo"@) {
            Err(error) => Err(error),
            Ok(value) => Ok((CreateOptionsView { repo_path: value, ..options }, i + 2)),
        }
    } else if arg == "--db"@ {
        match value_at(args, i + 1, "--db"@) {
            Err(error) => Err(error),
            Ok(value) => Ok((CreateOptionsView { db_path: Some(value), ..options }, i + 2)),
        }
    } else if arg == "--socket"@ {
        match value_at(args, i + 1, "--socket"@) {
            Err(error) => Err(error),
            Ok(value) => Ok((CreateOptionsView { socket_path: Some(value), ..options }, i + 2)),
        }
    } else if arg == "--base"@ {
        match value_at(args, i + 1, "--base"@) {
            Err(error) => Err(error),
            Ok(value) => Ok((CreateOptionsView { base: Some(value), ..options }, i + 2)),
        }
    } else if arg == "--path"@ {
        match value_at(args, i + 1, "--path"@) {
            Err(error) => Err(error),
            Ok(value) => Ok((CreateOptionsView { path: Some(value), ..options }, i + 2)),
        }
    } else if arg == "--idempotency-key"@ {
        match value_at(args, i + 1, "--idempotency-key"@) {
            Err(error) => Err(error),
            Ok(value) => Ok((CreateOptionsView { idempotency_key: Some(value), ..options }, i + 2)),
        }
    } else if arg == "--json"@ {
        Ok((CreateOptionsView { json: true, ..options }, i + 1))
    } else if is_option(arg) {
        Err(unknown_option(arg, "create"@))
    } else {
        if options.branch is Some {
            Err(usage_fault("create accepts one branch name"@))
        } else {
            Ok((CreateOptionsView { branch: Some(arg), ..options }, i + 1))
        }
    }
}

/// The options that arguments give, from one of them on.
pub open spec fn create_options(
    args: Seq<Seq<char>>,
    i: int,
    options: CreateOptionsView,
) -> Result<CreateOptionsView, CliErrorView>
    decreases args.len() - i,
{
    if i < 0 || i >= args.len() {
        Ok(options)
    } else {
        match create_step(args, i, options) {
            Err(error) => Err(error),
            Ok((next, j)) => if j > i {
                create_options(args, j, next)
            } else {
                Ok(next)
            },
        }
    }
}

fn read_create_options(args: &Vec<String>) -> (result: Result<CreateOptions, CliError>)
    ensures
        match (result, create_options(views(args@), 0, CreateOptionsView::none())) {
            (Ok(options), Ok(expected)) => options@ == expected,
            (Err(error), Err(expected)) => error@ == expected,
            _ => false,
        },
{
    let ghost all = views(args@);
    let mut options = CreateOptions::none();
    let mut i: usize = 0;
    while i < args.len()
        invariant
            i <= args.len() + 1,
            all == views(args@),
            create_options(all, i as int, options@) == create_options(
                all,
                0,
                CreateOptionsView::none(),
            ),
        decreases args.len() + 1 - i,
    {
        let arg = args[i].as_str();
        assert(all[i as int] == arg@);
        if same_text(arg, "--repo") {
            match required_value(args, i + 1, "--repo") {
                Ok(value) => {
                    options.repo_path = value;
                },
                Err(error) => return Err(error),
            }
            i += 2;
        } else if same_text(arg, "--db") {
            match required_value(args, i + 1, "--db") {
                Ok(value) => {
                    options.db_path = Some(value);
                },
                Err(error) => return Err(error),
            }
            i += 2;
        } else if same_text(arg, "--socket") {
            match required_value(args, i + 1, "--socket") {
                Ok(value) => {
                    options.socket_path = Some(value);
                },
                Err(error) => return Err(error),
            }
            i += 2;
        } else if same_text(arg, "--base") {
            match required_value(args, i + 1, "--base") {
                Ok(value) => {
                    options.base = Some(value);
                },
                Err(error) => return Err(error),
            }
            i += 2;
        } else if same_text(arg, "--path") {
            match required_value(args, i + 1, "--path") {
                Ok(value) => {
                    options.path = Some(value);
                },
                Err(error) => return Err(error),
            }
            i += 2;
        } else if same_text(arg, "--idempotency-key") {
            match required_value(args, i + 1, "--idempotency-key") {
                Ok(value) => {
                    options.idempotency_key = Some(value);
                },
                Err(error) => return Err(error),
            }
            i += 2;
        } else if same_text(arg, "--json") {
            options.json = true;
            i += 1;
        } else if option_like(arg) {
            return Err(unknown_option_error(arg, "create"));
        } else {
            if options.branch.is_some() {
                return Err(usage_error("create accepts one branch name"));
            }
            options.branch = Some(arg.to_owned());
            i += 1;
        }
    }
    Ok(options)
}

/// The options of `lock`, `unlock` and `remove`.
#[derive(Debug, PartialEq, Eq)]
pub struct PathMutationOptions {
    pub path: Option<String>,
    pub repo_path: Option<String>,
    pub db_path: Option<String>,
    pub socket_path: Option<String>,
    pub minimum_age_seconds: Option<i64>,
    pub reason: Option<String>,
    pub delete_branch: bool,
    pub json: bool,
}

/// The view of a [`PathMutationOptions`].
#[verifier::ext_equal]
pub struct PathMutationOptionsView {
    pub path: Option<Seq<char>>,
    pub repo_path: Option<Seq<char>>,
    pub db_path: Option<Seq<char>>,
    pub socket_path: Option<Seq<char>>,
    pub minimum_age_seconds: Option<i64>,
    pub reason: Option<Seq<char>>,
    pub delete_branch: bool,
    pub json: bool,
}

impl View for PathMutationOptions {
    type V = PathMutationOptionsView;

    open spec fn view(&self) -> PathMutationOptionsView {
        PathMutationOptionsView {
            path: option_view(self.path),
            repo_path: option_view(self.repo_path),
            db_path: option_view(self.db_path),
            socket_path: option_view(self.socket_path),
            minimum_age_seconds: self.minimum_age_seconds,
            reason: option_view(self.reason),
            delete_branch: self.delete_branch,
            json: self.json,
        }
    }
}

impl Clone for PathMutationOptions {
    fn clone(&self) -> (copy: Self)
        ensures
            copy@ == self@,
    {
        PathMutationOptions {
            path: copy_option(&self.path),
            repo_path: copy_option(&self.repo_path),
            db_path: copy_option(&self.db_path),
            socket_path: copy_option(&self.socket_path),
            minimum_age_seconds: self.minimum_age_seconds,
            reason: copy_option(&self.reason),
            delete_branch: self.delete_branch,
            json: self.json,
        }
    }
}

impl PathMutationOptionsView {
    /// The options before any is given.
    pub open spec fn none() -> PathMutationOptionsView {
        PathMutationOptionsView {
            path: None,
            repo_path: None,
            db_path: None,
            socket_path: None,
            minimum_age_seconds: None,
            reason: None,
            delete_branch: false,
            json: false,
        }
    }
}

impl PathMutationOptions {
    fn none() -> (options: PathMutationOptions)
        ensures
            options@ == PathMutationOptionsView::none(),
    {
        PathMutationOptions {
            path: None,
            repo_path: None,
            db_path: None,
            socket_path: None,
            minimum_age_seconds: None,
            reason: None,
            delete_branch: false,
            json: false,
        }
    }
}

/// One argument read, with the value that belongs to it.
pub open spec fn path_step(
    args: Seq<Seq<char>>,
    i: int,
    options: PathMutationOptionsView,
    command: Seq<char>,
) -> Result<(PathMutationOptionsView, int), CliErrorView> {
    let arg = args[i];
    if arg == "--repo"@ && command == "remove"@ {
        match value_at(args, i + 1, "--repo"@) {
            Err(error) => Err(error),
            Ok(value) => Ok((PathMutationOptionsView { repo_path: Some(value), ..options }, i + 2)),
        }
    } else if arg == "--db"@ {
        match value_at(args, i + 1, "--db"@) {
            Err(error) => Err(error),
            Ok(value) => Ok((PathMutationOptionsView { db_path: Some(value), ..options }, i + 2)),
        }
    } else if arg == "--socket"@ {
        match value_at(args, i + 1, "--socket"@) {
            Err(error) => Err(error),
            Ok(value) => Ok(
                (PathMutationOptionsView { socket_path: Some(value), ..options }, i + 2)
            ),
        }
    } else if arg == "--minimum-age-seconds"@ && command == "remove"@ {
        match integer_at(args, i + 1, "--minimum-age-seconds"@) {
            Err(error) => Err(error),
            Ok(value) => Ok(
                (PathMutationOptionsView { minimum_age_seconds: Some(value), ..options }, i + 2)
            ),
        }
    } else if arg == "--reason"@ && command == "lock"@ {
        match value_at(args, i + 1, "--reason"@) {
            Err(error) => Err(error),
            Ok(value) => Ok((PathMutationOptionsView { reason: Some(value), ..options }, i + 2)),
        }
    } else if arg == "--delete-branch"@ && command == "remove"@ {
        Ok((PathMutationOptionsView { delete_branch: true, ..options }, i + 1))
    } else if arg == "--json"@ {
        Ok((PathMutationOptionsView { json: true, ..options }, i + 1))
    } else if is_option(arg) {
        Err(unknown_option(arg, command))
    } else {
        if options.path is Some {
            Err(command_fault(command, " accepts one worktree path"@))
        } else {
            Ok((PathMutationOptionsView { path: Some(arg), ..options }, i + 1))
        }
    }
}

/// The options that arguments give, from one of them on.
pub open spec fn path_options(
    args: Seq<Seq<char>>,
    i: int,
    options: PathMutationOptionsView,
    command: Seq<char>,
) -> Result<PathMutationOptionsView, CliErrorView>
    decreases args.len() - i,
{
    if i < 0 || i >= args.len() {
        Ok(options)
    } else {
        match path_step(args, i, options, command) {
            Err(error) => Err(error),
            Ok((next, j)) => if j > i {
                path_options(args, j, next, command)
            } else {
                Ok(next)
            },
        }
    }
}

fn read_path_options(args: &Vec<String>, command: &str) -> (
    result: Result<PathMutationOptions, CliError>
)
    ensures
        match (result, path_options(views(args@), 0, PathMutationOptionsView::none(), command@)) {
            (Ok(options), Ok(expected)) => options@ == expected,
            (Err(error), Err(expected)) => error@ == expected,
            _ => false,
        },
{
    let ghost all = views(args@);
    let mut options = PathMutationOptions::none();
    let mut i: usize = 0;
    while i < args.len()
        invariant
            i <= args.len() + 1,
            all == views(args@),
            path_options(all, i as int, options@, command@) == path_options(
                all,
                0,
                PathMutationOptionsView::none(),
                command@,
            ),
        decreases args.len() + 1 - i,
    {
        let arg = args[i].as_str();
        assert(all[i as int] == arg@);
        if same_text(arg, "--repo") && same_text(command, "remove") {
            match required_value(args, i + 1, "--repo") {
                Ok(value) => {
                    options.repo_path = Some(value);
                },
                Err(error) => return Err(error),
            }
            i += 2;
        } else if same_text(arg, "--db") {
            match required_value(args, i + 1, "--db") {
                Ok(value) => {
                    options.db_path = Some(value);
                },
                Err(error) => return Err(error),
            }
            i += 2;
        } else if same_text(arg, "--socket") {
            match required_value(args, i + 1, "--socket") {
                Ok(value) => {
                    options.socket_path = Some(value);
                },
                Err(error) => return Err(error),
            }
            i += 2;
        } else if same_text(arg, "--minimum-age-seconds") && same_text(command, "remove") {
            match required_integer(args, i + 1, "--minimum-age-seconds") {
                Ok(value) => {
                    options.minimum_age_seconds = Some(value);
                },
                Err(error) => return Err(error),
            }
            i += 2;
        } else if same_text(arg, "--reason") && same_text(command, "lock") {
            match required_value(args, i + 1, "--reason") {
                Ok(value) => {
                    options.reason = Some(value);
                },
                Err(error) => return Err(error),
            }
            i += 2;
        } else if same_text(arg, "--delete-branch") && same_text(command, "remove") {
            options.delete_branch = true;
            i += 1;
        } else if same_text(arg, "--json") {
            options.json = true;
            i += 1;
        } else if option_like(arg) {
            return Err(unknown_option_error(arg, command));
        } else {
            if options.path.is_some() {
                return Err(command_error(command, " accepts one worktree path"));
            }
            options.path = Some(arg.to_owned());
            i += 1;
        }
    }
    Ok(options)
}

/// The complaint about an argument where a command takes only options.
pub open spec fn stray_argument(arg: Seq<char>, command: Seq<char>) -> CliErrorView {
    usage_fault(command + " does not accept positional argument "@ + debug_text(arg))
}

fn stray_argument_error(arg: &str, command: &str) -> (error: CliError)
    ensures
        error@ == stray_argument(arg@, command@),
{
    let printed = debug_string(arg);
    let message = concat3(command, " does not accept positional argument ", &printed);
    usage_error(&message)
}

/// The options of `cleanup scan`.
#[derive(Debug, PartialEq, Eq)]
pub struct RepositoryMutationOptions {
    pub repo_path: String,
    pub base: Option<String>,
    pub db_path: Option<String>,
    pub socket_path: Option<String>,
    pub minimum_age_seconds: Option<i64>,
    pub json: bool,
}

/// The view of a [`RepositoryMutationOptions`].
#[verifier::ext_equal]
pub struct RepositoryMutationOptionsView {
    pub repo_path: Seq<char>,
    pub base: Option<Seq<char>>,
    pub db_path: Option<Seq<char>>,
    pub socket_path: Option<Seq<char>>,
    pub minimum_age_seconds: Option<i64>,
    pub json: bool,
}

impl View for RepositoryMutationOptions {
    type V = RepositoryMutationOptionsView;

    open spec fn view(&self) -> RepositoryMutationOptionsView {
        RepositoryMutationOptionsView {
            repo_path: self.repo_path@,
            base: option_view(self.base),
            db_path: option_view(self.db_path),
            socket_path: option_view(self.socket_path),
            minimum_age_seconds: self.minimum_age_seconds,
            json: self.json,
        }
    }
}

impl Clone for RepositoryMutationOptions {
    fn clone(&self) -> (copy: Self)
        ensures
            copy@ == self@,
    {
        RepositoryMutationOptions {
            repo_path: self.repo_path.clone(),
            base: copy_option(&self.base),
            db_path: copy_option(&self.db_path),
            socket_path: copy_option(&self.socket_path),
            minimum_age_seconds: self.minimum_age_seconds,
            json: self.json,
        }
    }
}

impl RepositoryMutationOptionsView {
    /// The options before any is given.
    pub open spec fn none() -> RepositoryMutationOptionsView {
        RepositoryMutationOptionsView {
            repo_path: "."@,
            base: None,
            db_path: None,
            socket_path: None,
            minimum_age_seconds: None,
            json: false,
        }
    }
}

impl RepositoryMutationOptions {
    fn none() -> (options: RepositoryMutationOptions)
        ensures
            options@ == RepositoryMutationOptionsView::none(),
    {
        RepositoryMutationOptions {
            repo_path: ".".to_owned(),
            base: None,
            db_path: None,
            socket_path: None,
            minimum_age_seconds: None,
            json: false,
        }
    }
}

/// One argument read, with the value that belongs to it.
pub open spec fn cleanup_step(
    args: Seq<Seq<char>>,
    i: int,
    options: RepositoryMutationOptionsView,
    command: Seq<char>,
) -> Result<(RepositoryMutationOptionsView, int), CliErrorView> {
    let arg = args[i];
    if arg == "--repo"@ {
        match value_at(args, i + 1, "--repo"@) {
            Err(error) => Err(error),
            Ok(value) => Ok((RepositoryMutationOptionsView { repo_path: value, ..options }, i + 2)),
        }
    } else if arg == "--base"@ {
        match value_at(args, i + 1, "--base"@) {
            Err(error) => Err(error),
            Ok(value) => Ok(
                (RepositoryMutationOptionsView { base: Some(value), ..options }, i + 2)
            ),
        }
    } else if arg == "--db"@ {
        match value_at(args, i + 1, "--db"@) {
            Err(error) => Err(error),
            Ok(value) => Ok(
                (RepositoryMutationOptionsView { db_path: Some(value), ..options }, i + 2)
            ),
        }
    } else if arg == "--socket"@ {
        match value_at(args, i + 1, "--socket"@) {
            Err(error) => Err(error),
            Ok(value) => Ok(
                (RepositoryMutationOptionsView { socket_path: Some(value), ..options }, i + 2)
            ),
        }
    } else if arg == "--minimum-age-seconds"@ {
        match integer_at(args, i + 1, "--minimum-age-seconds"@) {
            Err(error) => Err(error),
            Ok(value) => Ok(
                (
                    RepositoryMutationOptionsView { minimum_age_seconds: Some(value), ..options },
                    i + 2,
                )
            ),
        }
    } else if arg == "--json"@ {
        Ok((RepositoryMutationOptionsView { json: true, ..options }, i + 1))
    } else if is_option(arg) {
        Err(unknown_option(arg, command))
    } else {
        Err(stray_argument(arg, command))
    }
}

/// The options that arguments give, from one of them on.
pub open spec fn cleanup_options(
    args: Seq<Seq<char>>,
    i: int,
    options: RepositoryMutationOptionsView,
    command: Seq<char>,
) -> Result<RepositoryMutationOptionsView, CliErrorView>
    decreases args.len() - i,
{
    if i < 0 || i >= args.len() {
        Ok(options)
    } else {
        match cleanup_step(args, i, options, command) {
            Err(error) => Err(error),
            Ok((next, j)) => if j > i {
                cleanup_options(args, j, next, command)
            } else {
                Ok(next)
            },
        }
    }
}

fn read_cleanup_options(args: &Vec<String>, command: &str) -> (
    result: Result<RepositoryMutationOptions, CliError>
)
    ensures
        match (
            result,
            cleanup_options(views(args@), 0, RepositoryMutationOptionsView::none(), command@),
        ) {
            (Ok(options), Ok(expected)) => options@ == expected,
            (Err(error), Err(expected)) => error@ == expected,
            _ => false,
        },
{
    let ghost all = views(args@);
    let mut options = RepositoryMutationOptions::none();
    let mut i: usize = 0;
    while i < args.len()
        invariant
            i <= args.len() + 1,
            all == views(args@),
            cleanup_options(all, i as int, options@, command@) == cleanup_options(
                all,
                0,
                RepositoryMutationOptionsView::none(),
                command@,
            ),
        decreases args.len() + 1 - i,
    {
        let arg = args[i].as_str();
        assert(all[i as int] == arg@);
        if same_text(arg, "--repo") {
            match required_value(args, i + 1, "--repo") {
                Ok(value) => {
                    options.repo_path = value;
                },
                Err(error) => return Err(error),
            }
            i += 2;
        } else if same_text(arg, "--base") {
            match required_value(args, i + 1, "--base") {
                Ok(value) => {
                    options.base = Some(value);
                },
                Err(error) => return Err(error),
            }
            i += 2;
        } else if same_text(arg, "--db") {
            match required_value(args, i + 1, "--db") {
                Ok(value) => {
                    options.db_path = Some(value);
                },
                Err(error) => return Err(error),
            }
            i += 2;
        } else if same_text(arg, "--socket") {
            match required_value(args, i + 1, "--socket") {
                Ok(value) => {
                    options.socket_path = Some(value);
                },
                Err(error) => return Err(error),
            }
            i += 2;
        } else if same_text(arg, "--minimum-age-seconds") {
            match required_integer(args, i + 1, "--minimum-age-seconds") {
                Ok(value) => {
                    options.minimum_age_seconds = Some(value);
                },
                Err(error) => return Err(error),
            }
            i += 2;
        } else if same_text(arg, "--json") {
            options.json = true;
            i += 1;
        } else if option_like(arg) {
            return Err(unknown_option_error(arg, command));
        } else {
            return Err(stray_argument_error(arg, command));
        }
    }
    Ok(options)
}

/// The options of `daemon`.
#[derive(Debug, PartialEq, Eq)]
pub struct DaemonOptions {
    pub repo_path: String,
    pub db_path: Option<String>,
    pub socket_path: Option<String>,
    pub minimum_age_seconds: Option<i64>,
}

/// The view of a [`DaemonOptions`].
#[verifier::ext_equal]
pub struct DaemonOptionsView {
    pub repo_path: Seq<char>,
    pub db_path: Option<Seq<char>>,
    pub socket_path: Option<Seq<char>>,
    pub minimum_age_seconds: Option<i64>,
}

impl View for DaemonOptions {
    type V = DaemonOptionsView;

    open spec fn view(&self) -> DaemonOptionsView {
        DaemonOptionsView {
            repo_path: self.repo_path@,
            db_path: option_view(self.db_path),
            socket_path: option_view(self.socket_path),
            minimum_age_seconds: self.minimum_age_seconds,
        }
    }
}

impl Clone for DaemonOptions {
    fn clone(&self) -> (copy: Self)
        ensures
            copy@ == self@,
    {
        DaemonOptions {
            repo_path: self.repo_path.clone(),
            db_path: copy_option(&self.db_path),
            socket_path: copy_option(&self.socket_path),
            minimum_age_seconds: self.minimum_age_seconds,
        }
    }
}

impl DaemonOptionsView {
    /// The options before any is given.
    pub open spec fn none() -> DaemonOptionsView {
        DaemonOptionsView {
            repo_path: "."@,
            db_path: None,
            socket_path: None,
            minimum_age_seconds: None,
        }
    }
}

impl DaemonOptions {
    fn none() -> (options: DaemonOptions)
        ensures
            options@ == DaemonOptionsView::none(),
    {
        DaemonOptions {
            repo_path: ".".to_owned(),
            db_path: None,
            socket_path: None,
            minimum_age_seconds: None,
        }
    }
}

/// One argument read, with the value that belongs to it.
pub open spec fn daemon_step(
    args: Seq<Seq<char>>,
    i: int,
    options: DaemonOptionsView,
) -> Result<(DaemonOptionsView, int), CliErrorView> {
    let arg = args[i];
    if arg == "--repo"@ {
        match value_at(args, i + 1, "--repo"@) {
            Err(error) => Err(error),
            Ok(value) => Ok((DaemonOptionsView { repo_path: value, ..options }, i + 2)),
        }
    } else if arg == "--db"@ {
        match value_at(args, i + 1, "--db"@) {
            Err(error) => Err(error),
            Ok(value) => Ok((DaemonOptionsView { db_path: Some(value), ..options }, i + 2)),
        }
    } else if arg == "--socket"@ {
        match value_at(args, i + 1, "--socket"@) {
            Err(error) => Err(error),
            Ok(value) => Ok((DaemonOptionsView { socket_path: Some(value), ..options }, i + 2)),
        }
    } else if arg == "--minimum-age-seconds"@ {
        match integer_at(args, i + 1, "--minimum-age-seconds"@) {
            Err(error) => Err(error),
            Ok(value) => Ok(
                (DaemonOptionsView { minimum_age_seconds: Some(value), ..options }, i + 2)
            ),
        }
    } else {
        Err(unknown_option(arg, "daemon"@))
    }
}

/// The options that arguments give, from one of them on.
pub open spec fn daemon_options(
    args: Seq<Seq<char>>,
    i: int,
    options: DaemonOptionsView,
) -> Result<DaemonOptionsView, CliErrorView>
    decreases args.len() - i,
{
    if i < 0 || i >= args.len() {
        Ok(options)
    } else {
        match daemon_step(args, i, options) {
            Err(error) => Err(error),
            Ok((next, j)) => if j > i {
                daemon_options(args, j, next)
            } else {
                Ok(next)
            },
        }
    }
}

fn read_daemon_options(args: &Vec<String>) -> (result: Result<DaemonOptions, CliError>)
    ensures
        match (result, daemon_options(views(args@), 0, DaemonOptionsView::none())) {
            (Ok(options), Ok(expected)) => options@ == expected,
            (Err(error), Err(expected)) => error@ == expected,
            _ => false,
        },
{
    let ghost all = views(args@);
    let mut options = DaemonOptions::none();
    let mut i: usize = 0;
    while i < args.len()
        invariant
            i <= args.len() + 1,
            all == views(args@),
            daemon_options(all, i as int, options@) == daemon_options(
                all,
                0,
                DaemonOptionsView::none(),
            ),
        decreases args.len() + 1 - i,
    {
        let arg = args[i].as_str();
        assert(all[i as int] == arg@);
        if same_text(arg, "--repo") {
            match required_value(args, i + 1, "--repo") {
                Ok(value) => {
                    options.repo_path = value;
                },
                Err(error) => return Err(error),
            }
            i += 2;
        } else if same_text(arg, "--db") {
            match required_value(args, i + 1, "--db") {
                Ok(value) => {
                    options.db_path = Some(value);
                },
                Err(error) => return Err(error),
            }
            i += 2;
        } else if same_text(arg, "--socket") {
            match required_value(args, i + 1, "--socket") {
                Ok(value) => {
                    options.socket_path = Some(value);
                },
                Err(error) => return Err(error),
            }
            i += 2;
        } else if same_text(arg, "--minimum-age-seconds") {
            match required_integer(args, i + 1, "--minimum-age-seconds") {
                Ok(value) => {
                    options.minimum_age_seconds = Some(value);
                },
                Err(error) => return Err(error),
            }
            i += 2;
        } else {
            return Err(unknown_option_error(arg, "daemon"));
        }
    }
    Ok(options)
}

/// The options of `daemon clean`.
#[derive(Debug, PartialEq, Eq)]
pub struct DaemonCleanOptions {
    pub repo_path: String,
    pub socket_path: Option<String>,
}

/// The view of a [`DaemonCleanOptions`].
#[verifier::ext_equal]
pub struct DaemonCleanOptionsView {
    pub repo_path: Seq<char>,
    pub socket_path: Option<Seq<char>>,
}

impl View for DaemonCleanOptions {
    type V = DaemonCleanOptionsView;

    open spec fn view(&self) -> DaemonCleanOptionsView {
        DaemonCleanOptionsView {
            repo_path: self.repo_path@,
            socket_path: option_view(self.socket_path),
        }
    }
}

impl Clone for DaemonCleanOptions {
    fn clone(&self) -> (copy: Self)
        ensures
            copy@ == self@,
    {
        DaemonCleanOptions {
            repo_path: self.repo_path.clone(),
            socket_path: copy_option(&self.socket_path),
        }
    }
}

impl DaemonCleanOptionsView {
    /// The options before any is given.
    pub open spec fn none() -> DaemonCleanOptionsView {
        DaemonCleanOptionsView { repo_path: "."@, socket_path: None }
    }
}

impl DaemonCleanOptions {
    fn none() -> (options: DaemonCleanOptions)
        ensures
            options@ == DaemonCleanOptionsView::none(),
    {
        DaemonCleanOptions {
            repo_path: ".".to_owned(),
            socket_path: None,
        }
    }
}

/// One argument read, with the value that belongs to it.
pub open spec fn clean_step(
    args: Seq<Seq<char>>,
    i: int,
    options: DaemonCleanOptionsView,
) -> Result<(DaemonCleanOptionsView, int), CliErrorView> {
    let arg = args[i];
    if arg == "--repo"@ {
        match value_at(args, i + 1, "--repo"@) {
            Err(error) => Err(error),
            Ok(value) => Ok((DaemonCleanOptionsView { repo_path: value, ..options }, i + 2)),
        }
    } else if arg == "--socket"@ {
        match value_at(args, i + 1, "--socket"@) {
            Err(error) => Err(error),
            Ok(value) => Ok(
                (DaemonCleanOptionsView { socket_path: Some(value), ..options }, i + 2)
            ),
        }
    } else {
        Err(unknown_option(arg, "daemon clean"@))
    }
}

/// The options that arguments give, from one of them on.
pub open spec fn clean_options(
    args: Seq<Seq<char>>,
    i: int,
    options: DaemonCleanOptionsView,
) -> Result<DaemonCleanOptionsView, CliErrorView>
    decreases args.len() - i,
{
    if i < 0 || i >= args.len() {
        Ok(options)
    } else {
        match clean_step(args, i, options) {
            Err(error) => Err(error),
            Ok((next, j)) => if j > i {
                clean_options(args, j, next)
            } else {
                Ok(next)
            },
        }
    }
}

fn read_clean_options(args: &Vec<String>) -> (result: Result<DaemonCleanOptions, CliError>)
    ensures
        match (result, clean_options(views(args@), 0, DaemonCleanOptionsView::none())) {
            (Ok(options), Ok(expected)) => options@ == expected,
            (Err(error), Err(expected)) => error@ == expected,
            _ => false,
        },
{
    let ghost all = views(args@);
    let mut options = DaemonCleanOptions::none();
    let mut i: usize = 0;
    while i < args.len()
        invariant
            i <= args.len() + 1,
            all == views(args@),
            clean_options(all, i as int, options@) == clean_options(
                all,
                0,
                DaemonCleanOptionsView::none(),
            ),
        decreases args.len() + 1 - i,
    {
        let arg = args[i].as_str();
        assert(all[i as int] == arg@);
        if same_text(arg, "--repo") {
            match required_value(args, i + 1, "--repo") {
                Ok(value) => {
                    options.repo_path = value;
                },
                Err(error) => return Err(error),
            }
            i += 2;
        } else if same_text(arg, "--socket") {
            match required_value(args, i + 1, "--socket") {
                Ok(value) => {
                    options.socket_path = Some(value);
                },
                Err(error) => return Err(error),
            }
            i += 2;
        } else {
            return Err(unknown_option_error(arg, "daemon clean"));
        }
    }
    Ok(options)
}

/// Reads the options of `list`.
pub fn parse_repository_options(args: &Vec<String>, command: &str) -> (
    result: Result<ListOptions, CliError>
)
    ensures
        match (result, list_options(views(args@), 0, ListOptionsView::none(), command@)) {
            (Ok(options), Ok(expected)) => options@ == expected,
            (Err(error), Err(expected)) => error@ == expected,
            _ => false,
        },
{
    read_list_options(args, command)
}

/// The options of `status`, with the path that it needs.
pub open spec fn status_request(args: Seq<Seq<char>>) -> Result<
    (Seq<char>, StatusOptionsView),
    CliErrorView,
> {
    match status_options(args, 0, StatusOptionsView::none()) {
        Err(error) => Err(error),
        Ok(options) => match options.path {
            None => Err(usage_fault("status requires a worktree path"@)),
            Some(path) => Ok((path, options)),
        },
    }
}

/// Reads the options of `status`, with the path that it needs.
pub fn parse_status_options(args: &Vec<String>) -> (result: Result<
    (String, StatusOptions),
    CliError,
>)
    ensures
        match (result, status_request(views(args@))) {
            (Ok((path, options)), Ok((expected_path, expected))) => path@ == expected_path
                && options@ == expected,
            (Err(error), Err(expected)) => error@ == expected,
            _ => false,
        },
{
    let options = match read_status_options(args) {
        Ok(options) => options,
        Err(error) => return Err(error),
    };
    let path = match &options.path {
        Some(path) => path.clone(),
        None => return Err(usage_error("status requires a worktree path")),
    };
    Ok((path, options))
}

/// The options of `create`, with the request that they make.
pub open spec fn create_request(args: Seq<Seq<char>>) -> Result<
    (CreateRequestView, CreateOptionsView),
    CliErrorView,
> {
    match create_options(args, 0, CreateOptionsView::none()) {
        Err(error) => Err(error),
        Ok(options) => match options.branch {
            None => Err(usage_fault("create requires a branch name"@)),
            Some(branch) => Ok(
                (
                    CreateRequestView {
                        branch,
                        base: options.base,
                        path: options.path,
                        idempotency_key: options.idempotency_key,
                        actor: "cli"@,
                    },
                    options,
                ),
            ),
        },
    }
}

/// Reads the options of `create`, with the request that they make.
pub fn parse_create_options(args: &Vec<String>) -> (result: Result<
    (CreateRequest, CreateOptions),
    CliError,
>)
    ensures
        match (result, create_request(views(args@))) {
            (Ok((request, options)), Ok((expected_request, expected))) => request@
                == expected_request && options@ == expected,
            (Err(error), Err(expected)) => error@ == expected,
            _ => false,
        },
{
    let options = match read_create_options(args) {
        Ok(options) => options,
        Err(error) => return Err(error),
    };
    let mut request = match &options.branch {
        Some(branch) => CreateRequest::new(branch),
        None => return Err(usage_error("create requires a branch name")),
    };
    request.base = copy_option(&options.base);
    request.path = copy_option(&options.path);
    request.idempotency_key = copy_option(&options.idempotency_key);
    Ok((request, options))
}

/// The options of `lock`, `unlock` or `remove`, with the path that they need.
pub open spec fn path_request(args: Seq<Seq<char>>, command: Seq<char>) -> Result<
    (Seq<char>, PathMutationOptionsView),
    CliErrorView,
> {
    match path_options(args, 0, PathMutationOptionsView::none(), command) {
        Err(error) => Err(error),
        Ok(options) => match options.path {
            None => Err(command_fault(command, " requires a worktree path"@)),
            Some(path) => Ok((path, options)),
        },
    }
}

/// Reads the options of `lock`, `unlock` or `remove`, with the path that they need.
pub fn parse_path_mutation_options(args: &Vec<String>, command: &str) -> (result: Result<
    (String, PathMutationOptions),
    CliError,
>)
    ensures
        match (result, path_request(views(args@), command@)) {
            (Ok((path, options)), Ok((expected_path, expected))) => path@ == expected_path
                && options@ == expected,
            (Err(error), Err(expected)) => error@ == expected,
            _ => false,
        },
{
    let options = match read_path_options(args, command) {
        Ok(options) => options,
        Err(error) => return Err(error),
    };
    let path = match &options.path {
        Some(path) => path.clone(),
        None => return Err(command_error(command, " requires a worktree path")),
    };
    Ok((path, options))
}

/// Reads the options of `cleanup scan`.
pub fn parse_repository_mutation_options(args: &Vec<String>, command: &str) -> (
    result: Result<RepositoryMutationOptions, CliError>
)
    ensures
        match (
            result,
            cleanup_options(views(args@), 0, RepositoryMutationOptionsView::none(), command@),
        ) {
            (Ok(options), Ok(expected)) => options@ == expected,
            (Err(error), Err(expected)) => error@ == expected,
            _ => false,
        },
{
    read_cleanup_options(args, command)
}

/// Reads the options of `daemon`.
pub fn parse_daemon_options(args: &Vec<String>) -> (result: Result<DaemonOptions, CliError>)
    ensures
        match (result, daemon_options(views(args@), 0, DaemonOptionsView::none())) {
            (Ok(options), Ok(expected)) => options@ == expected,
            (Err(error), Err(expected)) => error@ == expected,
            _ => false,
        },
{
    read_daemon_options(args)
}

/// Reads the options of `daemon clean`.
pub fn parse_daemon_clean_options(args: &Vec<String>) -> (
    result: Result<DaemonCleanOptions, CliError>
)
    ensures
        match (result, clean_options(views(args@), 0, DaemonCleanOptionsView::none())) {
            (Ok(options), Ok(expected)) => options@ == expected,
            (Err(error), Err(expected)) => error@ == expected,
            _ => false,
        },
{
    read_clean_options(args)
}

} // verus!
