//! What a service is opened with, and what it registers.

use crate::git::repository::GitRepository;
use crate::git::worktree::GitWorktree;
use crate::inventory::columns::repository_is_registered_as_found;
use crate::inventory::state::Inventory;
use crate::inventory::worktrees::ListedWorktreeView;
use crate::service::error::ServiceError;
use crate::service::state::primary_root;
use crate::service::state::RepositoryService;
use crate::service::state::ServiceView;
use vstd::prelude::*;

verus! {

/// A service is opened on the repository and the inventory that it was given, with the
/// minimum age that was asked for, unless that is negative; without one it is a day. Its
/// primary root is the one found among the worktrees.
pub proof fn service_is_opened_as_told(
    repository: GitRepository,
    root: &str,
    worktrees: &Vec<GitWorktree>,
    inventory: Inventory,
    age: i64,
    primary: String,
    result: Result<RepositoryService, ServiceError>,
    usual: Result<RepositoryService, ServiceError>,
)
    requires
        root@ == repository.root@,
        call_ensures(primary_root, (root, worktrees), primary),
        call_ensures(
            RepositoryService::open_with_minimum_age,
            (repository, worktrees, inventory, age),
            result,
        ),
        call_ensures(RepositoryService::open, (repository, worktrees, inventory), usual),
    ensures
        result is Err <==> age < 0,
        result matches Ok(service) ==> {
            &&& service.repository@ == repository@
            &&& service.inventory@ == inventory@
            &&& service.minimum_cleanup_age_seconds == age
            &&& service.primary_root@ == primary@
        },
        usual matches Ok(service) && {
            &&& service.repository@ == repository@
            &&& service.inventory@ == inventory@
            &&& service.minimum_cleanup_age_seconds == 24 * 60 * 60
            &&& service.primary_root@ == primary@
        },
{
}

/// All worktrees of a repository share the lock file in its Git directory.
pub proof fn lock_file_stands_in_the_git_directory(service: &RepositoryService, path: String)
    requires
        service.repository.common_git_dir@.len() > 0,
        service.repository.common_git_dir@.last() != '/',
        call_ensures(RepositoryService::mutation_lock_path, (service,), path),
    ensures
        path@ == service.repository.common_git_dir@ + "/"@ + "worktree-manager.mutation.lock"@,
{
    reveal_strlit("worktree-manager.mutation.lock");
}

/// A refreshed inventory knows the repository by its shared Git directory, at its primary
/// root, as seen now.
pub proof fn repository_is_registered_at_its_primary_root(
    service: ServiceView,
    listed: Seq<ListedWorktreeView>,
    now: i64,
)
    ensures
        service.refresh(listed, now).1 matches Ok((row, records)) ==> {
            &&& row.common_git_dir == service.repository.common_git_dir
            &&& row.root_path == service.primary_root
            &&& row.display_name == service.repository.display_name
            &&& row.last_seen_at == now
        },
{
    repository_is_registered_as_found(service.inventory, service.inventory_repository(), now);
}

} // verus!
