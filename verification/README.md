# Worktree Manager

`wtm` creates, inspects, locks and removes Git worktrees, and keeps an inventory of
them for the agents and terminals that work in parallel. This project is the verified
core of the program and the program around it.

## Layout

- `src/` is the library. Every decision of the program is made here, in functions whose
  contracts Verus proves.
  - `text`, `bytes`, `numeral`, `order`, `paths`, `resolution`: texts, numbers and paths.
  - `json`: the JSON subset that the program prints and the daemon speaks.
  - `git`, `process`, `model`: what Git and `lsof` say, and what it means.
  - `inventory`: repositories, worktrees, sessions, leases, reservations, events and
    requests, as tables with the constraints that the database places on them.
  - `service`: creating, locking, assessing and removing worktrees, step by step.
  - `daemon`: the protocol, the request journal, sockets and locks.
  - `cli`: arguments, what is printed, and waiting for the daemon.
- `tests/` runs the library on concrete values, with a Git that is kept in memory.
- `app/` is the program: it runs Git, reads files, holds the SQLite database, and serves
  and calls the daemon over a Unix socket.

## How the parts meet

An operation that needs Git is a chain of steps. Each step takes the state and what the
outside world answered, and returns the next state and what to do next. `create`, for
instance, either is done at once or returns the Git command to run; `create_after_git`
and `create_finish` take it from there. The program loads the tables, takes a step, and
stores the tables in one transaction, under a lock that keeps other processes out.

## What is proved

Every public function states exactly what it returns and how it changes its state. On
top of that stand laws that relate several operations. Among them:

- every operation keeps the inventory consistent: identifiers are given once, a worktree
  has at most one active lease, and a path or a branch is set aside once;
- a worktree is removed only when it is clean, merged, old enough, unlocked and unused,
  and Git is never told to override its own checks;
- a creation that is repeated under its key reuses the worktree, and one that wants a path
  or a branch that is set aside is refused;
- a key that was fulfilled stays fulfilled, whatever else is done, while its worktree is
  there;
- a removal that was interrupted can be repeated;
- a request that was answered is answered the same way again, and one that was not is
  executed again;
- what the program prints as JSON is read back as it was meant.

The standard library is trusted in five places, all of them in `src/text.rs`.
