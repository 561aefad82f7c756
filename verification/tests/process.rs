//! Tests of what `lsof` tells of the processes in a worktree.

use worktree_manager::git::reads::CommandOutput;
use worktree_manager::process::active_processes;
use worktree_manager::process::lsof_args;
use worktree_manager::process::parse_lsof_output;
use worktree_manager::process::ProcessError;
use worktree_manager::process::ProcessInfo;

fn info(pid: u32, command: &str) -> ProcessInfo {
    ProcessInfo { pid, command: command.to_owned() }
}

#[test]
fn parses_process_records_and_ignores_unrelated_fields() {
    let output = b"p12\ncworker\nf cwd\np34\ncshell\n";
    assert_eq!(
        parse_lsof_output(output, u32::MAX).unwrap(),
        vec![info(12, "worker"), info(34, "shell")]
    );
}

#[test]
fn leaves_out_the_asking_process() {
    let output = b"p12\ncworker\np34\ncshell\np12\ncworker\n";
    assert_eq!(
        parse_lsof_output(output, 34),
        Ok(vec![info(12, "worker"), info(12, "worker")])
    );
    assert_eq!(parse_lsof_output(b"", 1), Ok(Vec::new()));
}

#[test]
fn replaces_bytes_that_are_no_text() {
    assert_eq!(
        parse_lsof_output(b"p12\nca\xffb\n", 1),
        Ok(vec![info(12, "a\u{fffd}b")])
    );
}

#[test]
fn rejects_incomplete_records_and_bad_numbers() {
    let incomplete = ProcessError::InvalidOutput(
        "process record has an incomplete pid/command pair".to_owned(),
    );
    assert_eq!(parse_lsof_output(b"p12\n", 1), Err(incomplete.clone()));
    assert_eq!(parse_lsof_output(b"cvi\n", 1), Err(incomplete));
    assert_eq!(
        parse_lsof_output(b"pseven\n", 1).expect_err("no number").to_text(),
        "invalid lsof output: invalid process id \"seven\": invalid digit found in string"
    );
    assert_eq!(
        parse_lsof_output(b"p4294967296\n", 1).expect_err("too large").to_text(),
        "invalid lsof output: invalid process id \"4294967296\": number too large to fit in target type"
    );
}

#[test]
fn silence_with_a_failing_code_means_nobody() {
    let silent = CommandOutput { code: Some(1), stdout: Vec::new(), stderr: Vec::new() };
    assert_eq!(active_processes(&silent, 1), Ok(Vec::new()));
    let complaint =
        CommandOutput { code: Some(1), stdout: Vec::new(), stderr: b" lsof: no\n".to_vec() };
    assert_eq!(
        active_processes(&complaint, 1),
        Err(ProcessError::Command("lsof: no".to_owned()))
    );
    let killed = CommandOutput { code: None, stdout: Vec::new(), stderr: Vec::new() };
    assert_eq!(
        active_processes(&killed, 1).expect_err("killed").to_text(),
        "lsof failed: exit code None"
    );
    let strange = CommandOutput { code: Some(2), stdout: Vec::new(), stderr: Vec::new() };
    assert_eq!(
        active_processes(&strange, 1).expect_err("strange").to_text(),
        "lsof failed: exit code Some(2)"
    );
    let found =
        CommandOutput { code: Some(0), stdout: b"p9\ncvi\n".to_vec(), stderr: Vec::new() };
    assert_eq!(active_processes(&found, 1), Ok(vec![info(9, "vi")]));
    assert_eq!(ProcessError::Io("not found".to_owned()).to_text(), "run lsof: not found");
}

#[test]
fn asks_who_works_in_the_directory() {
    assert_eq!(lsof_args("/w"), vec!["-Fpc", "-a", "-d", "cwd", "--", "/w"]);
}
