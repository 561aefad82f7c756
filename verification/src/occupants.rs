//! What is read of the processes that work inside a directory.

use crate::git::meaning::lacks;
use crate::git::reads::CommandOutput;
use crate::numeral::decimal;
use crate::numeral::decimal_reads_back;
use crate::numeral::is_digit;
use crate::process::active_processes;
use crate::process::lsof_args;
use crate::process::others;
use crate::process::parse_lsof_output;
use crate::process::pid_value;
use crate::process::process_info;
use crate::process::ProcessError;
use crate::process::ProcessErrorView;
use crate::process::ProcessInfo;
use crate::process::ProcessInfoView;
use crate::process::scanned;
use crate::process::ScanView;
use crate::text::lines_text;
use crate::text::lossy_text;
use crate::text::pieces;
use crate::text::trim_text;
use crate::text::views;
use crate::text::without_return;
use crate::wording::lemma_piece_added;
use vstd::prelude::*;

verus! {

/// The lines in which `lsof` tells of some processes: the identifier, the command and the
/// kind of file of each.
pub open spec fn process_lines(processes: Seq<ProcessInfoView>) -> Seq<Seq<char>>
    decreases processes.len(),
{
    if processes.len() == 0 {
        seq![]
    } else {
        process_lines(processes.drop_last()).push(
            seq!['p'] + decimal(processes.last().pid as nat),
        ).push(seq!['c'] + processes.last().command).push("fcwd"@)
    }
}

/// Lines, each closed by a line feed.
pub open spec fn closed_lines(lines: Seq<Seq<char>>) -> Seq<char>
    decreases lines.len(),
{
    if lines.len() == 0 {
        seq![]
    } else {
        (closed_lines(lines.drop_last()) + lines.last()).push('\n')
    }
}

proof fn lemma_closed_pieces(lines: Seq<Seq<char>>)
    requires
        forall|k: int| 0 <= k < lines.len() ==> lacks(#[trigger] lines[k], '\n'),
    ensures
        pieces(closed_lines(lines), '\n') == lines.push(seq![]),
    decreases lines.len(),
{
    if lines.len() == 0 {
        assert(pieces(closed_lines(lines), '\n') =~= lines.push(seq![]));
    } else {
        let before = lines.drop_last();
        assert forall|k: int| 0 <= k < before.len() implies lacks(#[trigger] before[k], '\n') by {
            assert(before[k] == lines[k]);
        }
        lemma_closed_pieces(before);
        let start = closed_lines(before);
        let line = lines.last();
        assert(lacks(lines[lines.len() - 1], '\n'));
        assert(start + seq![] =~= start);
        lemma_piece_added(start, line, '\n');
        let text = (start + line).push('\n');
        assert(text.drop_last() =~= start + line);
        assert(pieces(text, '\n') =~= lines.push(seq![]));
    }
}

proof fn lemma_number(pid: u32)
    ensures
        lacks(seq!['p'] + decimal(pid as nat), '\n'),
        (seq!['p'] + decimal(pid as nat)).last() != '\r',
        (seq!['p'] + decimal(pid as nat)).skip(1) == decimal(pid as nat),
        pid_value(decimal(pid as nat)) == Ok::<u32, ProcessErrorView>(pid),
        lacks("fcwd"@, '\n'),
        "fcwd"@.len() == 4,
        "fcwd"@[0] == 'f',
        "fcwd"@[3] == 'd',
{
    reveal_strlit("fcwd");
    decimal_reads_back(pid as nat, 0xffff_ffff);
    let digits = decimal(pid as nat);
    let line = seq!['p'] + digits;
    assert forall|k: int| 0 <= k < line.len() implies #[trigger] line[k] != '\n' && line[k]
        != '\r' by {
        if k > 0 {
            assert(line[k] == digits[k - 1]);
        }
    }
    assert(line.skip(1) =~= digits);
    assert(is_digit(digits[0]));
}

/// Whether a command can stand in a line.
pub open spec fn fits_a_line(command: Seq<char>) -> bool {
    lacks(command, '\n') && lacks(command, '\r')
}

proof fn lemma_process_lines(processes: Seq<ProcessInfoView>)
    requires
        forall|k: int| 0 <= k < processes.len() ==> fits_a_line((#[trigger] processes[k]).command),
    ensures
        forall|k: int|
            0 <= k < process_lines(processes).len() ==> {
                let line = #[trigger] process_lines(processes)[k];
                lacks(line, '\n') && line.len() > 0 && line.last() != '\r'
            },
        processes.len() == 0 ==> process_lines(processes) == Seq::<Seq<char>>::empty(),
        scanned(process_lines(processes)) == Ok::<ScanView, ProcessErrorView>(
            if processes.len() == 0 {
                ScanView { processes: seq![], pid: None, command: None }
            } else {
                ScanView {
                    processes: processes.drop_last(),
                    pid: Some(processes.last().pid),
                    command: Some(processes.last().command),
                }
            },
        ),
    decreases processes.len(),
{
    if processes.len() > 0 {
        let before = processes.drop_last();
        assert forall|k: int| 0 <= k < before.len() implies fits_a_line(
            (#[trigger] before[k]).command,
        ) by {
            assert(before[k] == processes[k]);
        }
        lemma_process_lines(before);
        let last = processes.last();
        assert(fits_a_line(processes[processes.len() - 1].command));
        lemma_number(last.pid);
        let start = process_lines(before);
        let first = seq!['p'] + decimal(last.pid as nat);
        let second = seq!['c'] + last.command;
        let one = start.push(first);
        let two = one.push(second);
        let three = two.push("fcwd"@);
        assert(one.drop_last() =~= start);
        assert(two.drop_last() =~= one);
        assert(three.drop_last() =~= two);
        assert(second.skip(1) =~= last.command);
        assert(first[0] == 'p');
        assert(second[0] == 'c');
        assert(second.len() > 1 ==> second.last() == last.command.last());
        assert(lacks(second, '\n')) by {
            assert forall|k: int| 0 <= k < second.len() implies #[trigger] second[k] != '\n' by {
                if k > 0 {
                    assert(second[k] == last.command[k - 1]);
                }
            }
        }
        if before.len() > 0 {
            assert(before.drop_last().push(before.last()) =~= before);
        } else {
            assert(before =~= seq![]);
        }
        let opened = ScanView { processes: before, pid: Some(last.pid), command: None };
        assert(scanned(one) == Ok::<ScanView, ProcessErrorView>(opened));
        let full = ScanView {
            processes: before,
            pid: Some(last.pid),
            command: Some(last.command),
        };
        assert(scanned(two) == Ok::<ScanView, ProcessErrorView>(full));
        assert(scanned(three) == Ok::<ScanView, ProcessErrorView>(full));
    } else {
        assert(process_lines(processes) =~= seq![]);
    }
}

proof fn lemma_others(processes: Seq<ProcessInfoView>, pid: u32)
    ensures
        forall|k: int| 0 <= k < others(processes, pid).len() ==> (#[trigger] others(
            processes,
            pid,
        )[k]).pid != pid && processes.contains(others(processes, pid)[k]),
        forall|k: int|
            0 <= k < processes.len() && (#[trigger] processes[k]).pid != pid ==> others(
                processes,
                pid,
            ).contains(processes[k]),
        (forall|k: int| 0 <= k < processes.len() ==> (#[trigger] processes[k]).pid != pid)
            ==> others(processes, pid) == processes,
    decreases processes.len(),
{
    if processes.len() > 0 {
        let before = processes.drop_last();
        let last = processes.last();
        lemma_others(before, pid);
        let kept = others(before, pid);
        let result = others(processes, pid);
        assert(processes[processes.len() - 1] == last);
        assert forall|k: int| 0 <= k < result.len() implies (#[trigger] result[k]).pid != pid
            && processes.contains(result[k]) by {
            if k < kept.len() {
                assert(result[k] == kept[k]);
                let i = choose|i: int| 0 <= i < before.len() && before[i] == kept[k];
                assert(processes[i] == kept[k]);
            } else {
                assert(result[k] == last);
            }
        }
        assert forall|k: int|
            0 <= k < processes.len() && (#[trigger] processes[k]).pid
                != pid implies result.contains(processes[k]) by {
            if k < before.len() {
                assert(before[k] == processes[k]);
                let i = choose|i: int| 0 <= i < kept.len() && kept[i] == before[k];
                assert(result[i] == before[k]);
            } else {
                assert(result[kept.len() as int] == last);
            }
        }
        if forall|k: int| 0 <= k < processes.len() ==> (#[trigger] processes[k]).pid != pid {
            assert forall|k: int| 0 <= k < before.len() implies (#[trigger] before[k]).pid
                != pid by {
                assert(before[k] == processes[k]);
            }
            assert(before.push(last) =~= processes);
        }
    } else {
        assert(others(processes, pid) =~= processes);
    }
}

/// Every process that `lsof` told of is read back with its own command, in order; only the
/// process that asks is left out.
pub proof fn printed_processes_are_read_back(
    processes: Seq<ProcessInfoView>,
    output: &[u8],
    current_pid: u32,
    result: Result<Vec<ProcessInfo>, ProcessError>,
)
    requires
        forall|k: int| 0 <= k < processes.len() ==> fits_a_line((#[trigger] processes[k]).command),
        lossy_text(output@) == closed_lines(process_lines(processes)),
        call_ensures(parse_lsof_output, (output, current_pid), result),
    ensures
        result is Ok,
        forall|k: int|
            0 <= k < processes.len() && (#[trigger] processes[k]).pid != current_pid ==> views(
                result->Ok_0@,
            ).contains(processes[k]),
        forall|k: int|
            0 <= k < result->Ok_0@.len() ==> (#[trigger] result->Ok_0@[k]).pid != current_pid
                && processes.contains(result->Ok_0@[k]@),
        (forall|k: int| 0 <= k < processes.len() ==> (#[trigger] processes[k]).pid != current_pid)
            ==> views(result->Ok_0@) == processes,
{
    let lines = process_lines(processes);
    lemma_process_lines(processes);
    lemma_closed_pieces(lines);
    let parts = pieces(closed_lines(lines), '\n');
    let closed = Seq::new((parts.len() - 1) as nat, |i: int| without_return(parts[i]));
    assert forall|k: int| 0 <= k < closed.len() implies #[trigger] closed[k] == lines[k] by {
        assert(parts[k] == lines[k]);
    }
    assert(closed =~= lines);
    assert(parts.last() == Seq::<char>::empty());
    assert(lines_text(lossy_text(output@)) == lines);
    if processes.len() > 0 {
        assert(processes.drop_last().push(processes.last()) =~= processes);
    } else {
        assert(processes =~= seq![]);
    }
    lemma_others(processes, current_pid);
    let found = views(result->Ok_0@);
    assert(found == others(processes, current_pid));
    assert forall|k: int| 0 <= k < result->Ok_0@.len() implies (#[trigger] result->Ok_0@[k]).pid
        != current_pid && processes.contains(result->Ok_0@[k]@) by {
        assert(found[k] == result->Ok_0@[k]@);
    }
}

/// An identifier without a command, or a command without an identifier, tells of no
/// process but of a fault.
pub proof fn half_a_process_is_refused(
    pid: Option<u32>,
    command: Option<String>,
    result: Result<Option<ProcessInfo>, ProcessError>,
)
    requires
        call_ensures(process_info, (pid, command), result),
    ensures
        result is Err <==> (pid is Some) != (command is Some),
        result is Ok && result->Ok_0 is Some <==> pid is Some && command is Some,
        pid is Some && command is Some ==> result->Ok_0->0.pid == pid->0
            && result->Ok_0->0.command@ == command->0@,
{
}

/// The processes in a directory are asked for by that directory, as the working one.
pub proof fn processes_are_asked_for_by_directory(path: &str, args: Vec<String>)
    requires
        call_ensures(lsof_args, (path,), args),
    ensures
        args@.len() == 6,
        args@[0]@ == "-Fpc"@,
        args@[1]@ == "-a"@,
        args@[2]@ == "-d"@,
        args@[3]@ == "cwd"@,
        args@[4]@ == "--"@,
        args@[5]@ == path@,
{
    assert(views(args@).len() == args@.len());
    assert forall|k: int| 0 <= k < args@.len() implies #[trigger] args@[k]@ == views(args@)[k] by {
    }
}

/// Where `lsof` succeeded, what it printed is read. Where it ended with one and without a
/// word, there are no processes. Any other end leaves the processes unknown, for the
/// reason that `lsof` gave.
pub proof fn end_of_lsof_is_told_apart(
    output: &CommandOutput,
    printed: &[u8],
    current_pid: u32,
    read: Result<Vec<ProcessInfo>, ProcessError>,
    result: Result<Vec<ProcessInfo>, ProcessError>,
)
    requires
        printed@ == output.stdout@,
        call_ensures(parse_lsof_output, (printed, current_pid), read),
        call_ensures(active_processes, (output, current_pid), result),
    ensures
        output.code == Some(0i32) ==> (result is Ok <==> read is Ok) && (result is Ok ==> views(
            result->Ok_0@,
        ) == views(read->Ok_0@)),
        output.code == Some(1i32) && trim_text(lossy_text(output.stderr@)).len() == 0
            ==> result is Ok && result->Ok_0@.len() == 0,
        output.code != Some(0i32) && trim_text(lossy_text(output.stderr@)).len() > 0 ==> (
        result matches Err(error) && error@ == ProcessErrorView::Command(
            trim_text(lossy_text(output.stderr@)),
        )),
        output.code != Some(0i32) && output.code != Some(1i32) ==> result is Err,
{
    if result is Ok {
        assert(views(result->Ok_0@).len() == result->Ok_0@.len());
    }
}

/// The sentence about unknown processes says what went wrong.
pub proof fn process_errors_are_told_apart(error: &ProcessError, text: String)
    requires
        call_ensures(ProcessError::to_text, (error,), text),
    ensures
        error matches ProcessError::Io(reason) ==> text@ == "run lsof: "@ + reason@,
        error matches ProcessError::Command(reason) ==> text@ == "lsof failed: "@ + reason@,
        error matches ProcessError::InvalidOutput(reason) ==> text@ == "invalid lsof output: "@
            + reason@,
{
}

} // verus!
