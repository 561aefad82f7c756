//! The processes that work inside a directory, as `lsof` lists them.

use crate::git::reads::CommandOutput;
use crate::git::reads::CommandOutputView;
use crate::numeral::lemma_scan_bound;
use crate::numeral::parse_unsigned;
use crate::numeral::print_i64;
use crate::numeral::signed_decimal;
use crate::numeral::unsigned_value;
use crate::text::concat;
use crate::text::concat3;
use crate::text::debug_string;
use crate::text::debug_text;
use crate::text::is_blank;
use crate::text::lines;
use crate::text::lines_text;
use crate::text::lossy_string;
use crate::text::lossy_text;
use crate::text::option_view;
use crate::text::slice_text;
use crate::text::to_chars;
use crate::text::trim;
use crate::text::trim_text;
use crate::text::views;
use vstd::prelude::*;

verus! {

/// A running process.
#[derive(Debug, PartialEq, Eq)]
pub struct ProcessInfo {
    pub pid: u32,
    pub command: String,
}

/// The view of a [`ProcessInfo`].
#[verifier::ext_equal]
pub struct ProcessInfoView {
    pub pid: u32,
    pub command: Seq<char>,
}

impl View for ProcessInfo {
    type V = ProcessInfoView;

    open spec fn view(&self) -> ProcessInfoView {
        ProcessInfoView {
            pid: self.pid,
            command: self.command@,
        }
    }
}

impl Clone for ProcessInfo {
    fn clone(&self) -> (copy: Self)
        ensures
            copy@ == self@,
    {
        ProcessInfo {
            pid: self.pid,
            command: self.command.clone(),
        }
    }
}

/// Why the processes are not known.
#[derive(Debug, PartialEq, Eq)]
pub enum ProcessError {
    Io(String),
    Command(String),
    InvalidOutput(String),
}

/// The view of a [`ProcessError`].
#[verifier::ext_equal]
pub enum ProcessErrorView {
    Io(Seq<char>),
    Command(Seq<char>),
    InvalidOutput(Seq<char>),
}

impl View for ProcessError {
    type V = ProcessErrorView;

    open spec fn view(&self) -> ProcessErrorView {
        match self {
            ProcessError::Io(inner) => ProcessErrorView::Io(inner@),
            ProcessError::Command(inner) => ProcessErrorView::Command(inner@),
            ProcessError::InvalidOutput(inner) => ProcessErrorView::InvalidOutput(inner@),
        }
    }
}

impl Clone for ProcessError {
    fn clone(&self) -> (copy: Self)
        ensures
            copy@ == self@,
    {
        match self {
            ProcessError::Io(inner) => ProcessError::Io(inner.clone()),
            ProcessError::Command(inner) => ProcessError::Command(inner.clone()),
            ProcessError::InvalidOutput(inner) => ProcessError::InvalidOutput(inner.clone()),
        }
    }
}

impl ProcessErrorView {
    /// The sentence that tells a reader of the error.
    pub open spec fn text(self) -> Seq<char> {
        match self {
            ProcessErrorView::Io(error) => "run lsof: "@ + error,
            ProcessErrorView::Command(message) => "lsof failed: "@ + message,
            ProcessErrorView::InvalidOutput(message) => "invalid lsof output: "@ + message,
        }
    }
}

impl ProcessError {
    /// The sentence that tells a reader of the error.
    pub fn to_text(&self) -> (text: String)
        ensures
            text@ == self@.text(),
    {
        match self {
            ProcessError::Io(error) => concat("run lsof: ", error),
            ProcessError::Command(message) => concat("lsof failed: ", message),
            ProcessError::InvalidOutput(message) => concat("invalid lsof output: ", message),
        }
    }
}

/// The process that a pair of fields describes: both are there, or neither.
pub open spec fn paired(pid: Option<u32>, command: Option<Seq<char>>) -> Result<
    Option<ProcessInfoView>,
    ProcessErrorView,
> {
    match (pid, command) {
        (None, None) => Ok(None),
        (Some(pid), Some(command)) => Ok(Some(ProcessInfoView { pid, command })),
        _ => Err(
            ProcessErrorView::InvalidOutput(
                "process record has an incomplete pid/command pair"@,
            ),
        ),
    }
}

/// How far the output of `lsof` was read.
#[verifier::ext_equal]
pub struct ScanView {
    pub processes: Seq<ProcessInfoView>,
    pub pid: Option<u32>,
    pub command: Option<Seq<char>>,
}

/// A process identifier.
pub open spec fn pid_value(text: Seq<char>) -> Result<u32, ProcessErrorView> {
    match unsigned_value(text, 0xffff_ffff) {
        Ok(number) => Ok(number as u32),
        Err(error) => Err(
            ProcessErrorView::InvalidOutput(
                "invalid process id "@ + debug_text(text) + ": "@ + error.message_text(),
            ),
        ),
    }
}

/// The scan with a finished process added.
pub open spec fn flushed(scan: ScanView) -> Result<ScanView, ProcessErrorView> {
    match paired(scan.pid, scan.command) {
        Err(error) => Err(error),
        Ok(None) => Ok(ScanView { pid: None, command: None, ..scan }),
        Ok(Some(process)) => Ok(
            ScanView { processes: scan.processes.push(process), pid: None, command: None },
        ),
    }
}

/// The scan after one more line. The first letter says what a line holds: `p`
/// begins a process with its identifier, `c` gives its command.
pub open spec fn with_line(scan: ScanView, line: Seq<char>) -> Result<ScanView, ProcessErrorView> {
    if line.len() > 0 && line[0] == 'p' {
        match flushed(scan) {
            Err(error) => Err(error),
            Ok(closed) => match pid_value(line.skip(1)) {
                Err(error) => Err(error),
                Ok(pid) => Ok(ScanView { pid: Some(pid), ..closed }),
            },
        }
    } else if line.len() > 0 && line[0] == 'c' {
        Ok(ScanView { command: Some(line.skip(1)), ..scan })
    } else {
        Ok(scan)
    }
}

/// The scan after some lines, or the error of the first bad line.
pub open spec fn scanned(lines: Seq<Seq<char>>) -> Result<ScanView, ProcessErrorView>
    decreases lines.len(),
{
    if lines.len() == 0 {
        Ok(ScanView { processes: seq![], pid: None, command: None })
    } else {
        match scanned(lines.drop_last()) {
            Err(error) => Err(error),
            Ok(scan) => with_line(scan, lines.last()),
        }
    }
}

/// The processes other than the one with identifier `pid`.
pub open spec fn others(processes: Seq<ProcessInfoView>, pid: u32) -> Seq<ProcessInfoView>
    decreases processes.len(),
{
    if processes.len() == 0 {
        seq![]
    } else if processes.last().pid == pid {
        others(processes.drop_last(), pid)
    } else {
        others(processes.drop_last(), pid).push(processes.last())
    }
}

/// The processes in the output of `lsof -Fpc`, without the one that asks.
pub open spec fn listed_processes(output: Seq<u8>, current_pid: u32) -> Result<
    Seq<ProcessInfoView>,
    ProcessErrorView,
> {
    match scanned(lines_text(lossy_text(output))) {
        Err(error) => Err(error),
        Ok(scan) => match flushed(scan) {
            Err(error) => Err(error),
            Ok(closed) => Ok(others(closed.processes, current_pid)),
        },
    }
}

/// The process that a pair of fields describes.
pub fn process_info(pid: Option<u32>, command: Option<String>) -> (result: Result<
    Option<ProcessInfo>,
    ProcessError,
>)
    ensures
        match (result, paired(pid, option_view(command))) {
            (Ok(process), Ok(expected)) => option_view(process) == expected,
            (Err(error), Err(expected)) => error@ == expected,
            _ => false,
        },
{
    match (pid, command) {
        (None, None) => Ok(None),
        (Some(pid), Some(command)) => Ok(Some(ProcessInfo { pid, command })),
        _ => Err(
            ProcessError::InvalidOutput(
                "process record has an incomplete pid/command pair".to_owned(),
            ),
        ),
    }
}

struct Scan {
    processes: Vec<ProcessInfo>,
    pid: Option<u32>,
    command: Option<String>,
}

impl View for Scan {
    type V = ScanView;

    closed spec fn view(&self) -> ScanView {
        ScanView {
            processes: views(self.processes@),
            pid: self.pid,
            command: option_view(self.command),
        }
    }
}

fn flush(scan: Scan) -> (result: Result<Scan, ProcessError>)
    ensures
        match (result, flushed(scan@)) {
            (Ok(after), Ok(expected)) => after@ == expected,
            (Err(error), Err(expected)) => error@ == expected,
            _ => false,
        },
{
    let mut processes = scan.processes;
    match process_info(scan.pid, scan.command) {
        Err(error) => Err(error),
        Ok(None) => Ok(Scan { processes, pid: None, command: None }),
        Ok(Some(process)) => {
            let ghost before = processes@;
            let ghost added = process@;
            processes.push(process);
            assert(views(processes@) =~= views(before).push(added));
            Ok(Scan { processes, pid: None, command: None })
        },
    }
}

fn parse_pid(text: &str) -> (result: Result<u32, ProcessError>)
    ensures
        match (result, pid_value(text@)) {
            (Ok(pid), Ok(expected)) => pid == expected,
            (Err(error), Err(expected)) => error@ == expected,
            _ => false,
        },
{
    match parse_unsigned(text, 0xffff_ffff) {
        Ok(number) => {
            proof {
                lemma_scan_bound(text@, 0xffff_ffff);
                lemma_scan_bound(text@.skip(1), 0xffff_ffff);
            }
            Ok(number as u32)
        },
        Err(error) => {
            let printed = debug_string(text);
            let mut message = concat3("invalid process id ", &printed, ": ");
            message.append(error.message());
            Err(ProcessError::InvalidOutput(message))
        },
    }
}

fn read_line(scan: Scan, line: &str) -> (result: Result<Scan, ProcessError>)
    ensures
        match (result, with_line(scan@, line@)) {
            (Ok(after), Ok(expected)) => after@ == expected,
            (Err(error), Err(expected)) => error@ == expected,
            _ => false,
        },
{
    let chars = to_chars(line);
    if chars.len() == 0 {
        return Ok(scan);
    }
    let value = slice_text(&chars, 1, chars.len());
    assert(value@ =~= line@.skip(1));
    if chars[0] == 'p' {
        match flush(scan) {
            Err(error) => Err(error),
            Ok(closed) => match parse_pid(&value) {
                Err(error) => Err(error),
                Ok(pid) => Ok(
                    Scan { processes: closed.processes, pid: Some(pid), command: closed.command },
                ),
            },
        }
    } else if chars[0] == 'c' {
        Ok(Scan { processes: scan.processes, pid: scan.pid, command: Some(value) })
    } else {
        Ok(scan)
    }
}

proof fn lemma_scan_stops(lines: Seq<Seq<char>>, i: int)
    requires
        0 <= i <= lines.len(),
        scanned(lines.take(i)) is Err,
    ensures
        scanned(lines) == scanned(lines.take(i)),
    decreases lines.len(),
{
    if i == lines.len() {
        assert(lines.take(i) =~= lines);
    } else {
        assert(lines.drop_last().take(i) =~= lines.take(i));
        lemma_scan_stops(lines.drop_last(), i);
    }
}

fn without(processes: Vec<ProcessInfo>, pid: u32) -> (kept: Vec<ProcessInfo>)
    ensures
        views(kept@) == others(views(processes@), pid),
{
    let ghost all = views(processes@);
    let mut kept: Vec<ProcessInfo> = Vec::new();
    let mut i: usize = 0;
    assert(all.take(0) =~= seq![]);
    assert(views(kept@) =~= seq![]);
    while i < processes.len()
        invariant
            i <= processes.len(),
            all == views(processes@),
            views(kept@) == others(all.take(i as int), pid),
        decreases processes.len() - i,
    {
        assert(all.take(i + 1).drop_last() =~= all.take(i as int));
        if processes[i].pid != pid {
            let ghost before = kept@;
            kept.push(processes[i].clone());
            assert(views(kept@) =~= views(before).push(all[i as int]));
        }
        i += 1;
    }
    assert(all.take(i as int) =~= all);
    kept
}

/// Reads the output of `lsof -Fpc`, without the process `current_pid`.
pub fn parse_lsof_output(output: &[u8], current_pid: u32) -> (result: Result<
    Vec<ProcessInfo>,
    ProcessError,
>)
    ensures
        match (result, listed_processes(output@, current_pid)) {
            (Ok(processes), Ok(expected)) => views(processes@) == expected,
            (Err(error), Err(expected)) => error@ == expected,
            _ => false,
        },
{
    let text = lossy_string(output);
    let fields = lines(&text);
    let ghost all = lines_text(lossy_text(output@));
    let mut scan = Scan { processes: Vec::new(), pid: None, command: None };
    assert(all.take(0) =~= seq![]);
    assert(views(scan.processes@) =~= seq![]);
    let mut i: usize = 0;
    while i < fields.len()
        invariant
            i <= fields.len(),
            all == views(fields@),
            all == lines_text(lossy_text(output@)),
            scanned(all.take(i as int)) == Ok::<ScanView, ProcessErrorView>(scan@),
        decreases fields.len() - i,
    {
        assert(all.take(i + 1).drop_last() =~= all.take(i as int));
        match read_line(scan, &fields[i]) {
            Ok(after) => scan = after,
            Err(error) => {
                proof {
                    lemma_scan_stops(all, i + 1);
                }
                return Err(error);
            },
        }
        i += 1;
    }
    assert(all.take(i as int) =~= all);
    match flush(scan) {
        Err(error) => Err(error),
        Ok(closed) => Ok(without(closed.processes, current_pid)),
    }
}

/// The command line that lists the processes working inside `path`.
pub fn lsof_args(path: &str) -> (args: Vec<String>)
    ensures
        views(args@) == seq!["-Fpc"@, "-a"@, "-d"@, "cwd"@, "--"@, path@],
{
    let mut args: Vec<String> = Vec::new();
    args.push("-Fpc".to_owned());
    args.push("-a".to_owned());
    args.push("-d".to_owned());
    args.push("cwd".to_owned());
    args.push("--".to_owned());
    args.push(path.to_owned());
    assert(views(args@) =~= seq!["-Fpc"@, "-a"@, "-d"@, "cwd"@, "--"@, path@]);
    args
}

/// An exit code as `{:?}` prints it.
pub open spec fn code_text(code: Option<i32>) -> Seq<char> {
    match code {
        Some(number) => "Some("@ + signed_decimal(number as int) + ")"@,
        None => "None"@,
    }
}

/// What `lsof` says of the processes. It ends with code 1 and without a word
/// where there are none.
pub open spec fn lsof_answer(output: CommandOutputView, current_pid: u32) -> Result<
    Seq<ProcessInfoView>,
    ProcessErrorView,
> {
    let message = trim_text(lossy_text(output.stderr));
    if output.success() {
        listed_processes(output.stdout, current_pid)
    } else if output.code == Some(1i32) && message.len() == 0 {
        Ok(seq![])
    } else if message.len() == 0 {
        Err(ProcessErrorView::Command("exit code "@ + code_text(output.code)))
    } else {
        Err(ProcessErrorView::Command(message))
    }
}

/// Reads what `lsof` says of the processes.
pub fn active_processes(output: &CommandOutput, current_pid: u32) -> (result: Result<
    Vec<ProcessInfo>,
    ProcessError,
>)
    ensures
        match (result, lsof_answer(output@, current_pid)) {
            (Ok(processes), Ok(expected)) => views(processes@) == expected,
            (Err(error), Err(expected)) => error@ == expected,
            _ => false,
        },
{
    if output.success() {
        return parse_lsof_output(&output.stdout, current_pid);
    }
    let printed = lossy_string(&output.stderr);
    let message = trim(&printed);
    if !is_blank(&message) {
        return Err(ProcessError::Command(message));
    }
    match output.code {
        Some(code) => {
            if code == 1 {
                let none: Vec<ProcessInfo> = Vec::new();
                assert(views(none@) =~= seq![]);
                return Ok(none);
            }
            let number = print_i64(code as i64);
            let text = concat3("Some(", &number, ")");
            Err(ProcessError::Command(concat("exit code ", &text)))
        },
        None => Err(ProcessError::Command(concat("exit code ", "None"))),
    }
}

} // verus!
