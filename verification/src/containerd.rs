//! Tasks of containerd, asked about through `ctr task list`.

use vstd::prelude::*;
use libc::pid_t;
use crate::error::{lift, ErrorKind, ErrorView, LookupError};
use crate::number::{parse_pid, pid_of};
use crate::output::{
    ended_badly, exit_failure, lossy_chars, lossy_text, not_started, ran_view, start_failure,
    text_of, CommandOutput, OutputView,
};
use crate::seqs::{
    first_where, lemma_first_where_unique, lemma_split_nonempty, same_chars, split, split_bytes,
    views,
};
use crate::text::{
    join3, join5, split_words, texts, to_chars, trim_end, trim_end_of, words, NEWLINE,
};
use crate::tools::{require_tool, tool_missing, Tools};

verus! {

/// The runtime containerd.
#[derive(Clone, Copy, Debug)]
pub struct Containerd {}

/// The command that lists the tasks of containerd.
pub open spec fn query() -> Seq<Seq<char>> {
    seq!["ctr"@, "task"@, "list"@]
}

/// Whether `line` lists the task `id`: it has three words, the first of
/// which is `id`.
pub open spec fn is_task(line: Seq<u8>, id: Seq<char>) -> bool {
    let cols = words(lossy_text(line));
    cols.len() == 3 && cols[0] == id
}

/// That no line lists the task `id`.
pub open spec fn no_task(id: Seq<char>) -> ErrorView {
    ErrorView {
        kind: ErrorKind::NotFound,
        message: "no containerd task found with id '"@ + id + "'"@,
    }
}

/// That `text` is no process ID.
pub open spec fn invalid_pid(text: Seq<char>, id: Seq<char>) -> ErrorView {
    ErrorView {
        kind: ErrorKind::ParseError,
        message: "invalid PID '"@ + text + "' from containerd for container '"@ + id + "'"@,
    }
}

/// What the answer `ran` of `ctr task list` says of the task `id`. The first
/// line of the output is a heading. Of the other lines, the first that lists
/// the task counts, and its second word is the process ID.
pub open spec fn answer(id: Seq<char>, ran: Result<OutputView, Seq<char>>) -> Result<
    pid_t,
    ErrorView,
> {
    match ran {
        Err(cause) => Err(not_started("failed to execute 'ctr task list'"@, cause)),
        Ok(output) => if !output.succeeded() {
            Err(
                ended_badly(
                    "containerd task list failed"@,
                    output.status,
                    trim_end(lossy_text(output.stderr)),
                ),
            )
        } else {
            let rows = split(output.stdout, NEWLINE).drop_first();
            let row = first_where(rows, |line: Seq<u8>| is_task(line, id));
            if row == rows.len() {
                Err(no_task(id))
            } else {
                let text = words(lossy_text(rows[row]))[1];
                match pid_of(text) {
                    Some(pid) => Ok(pid),
                    None => Err(invalid_pid(text, id)),
                }
            }
        },
    }
}

/// Whether the tools of this backend are among `tools`, and what is
/// missing if they are not.
pub open spec fn tools_needed(tools: Tools) -> Result<(), ErrorView> {
    if tools.ctr {
        Ok(())
    } else {
        Err(tool_missing("containerd runtime not found: 'ctr' command is not available"@))
    }
}

impl Containerd {
    /// Builds the command that lists the tasks.
    pub fn command(&self) -> (argv: Vec<String>)
        ensures
            texts(argv@) == query(),
    {
        let mut argv: Vec<String> = Vec::new();
        argv.push(String::from_str("ctr"));
        argv.push(String::from_str("task"));
        argv.push(String::from_str("list"));
        assert(texts(argv@) =~= query());
        argv
    }

    /// Reads the answer of `ctr task list`: the process ID of the task.
    #[verifier::loop_isolation(false)]
    pub fn lookup(&self, container_id: &str, ran: &Result<CommandOutput, String>) -> (pid: Result<
        pid_t,
        LookupError,
    >)
        ensures
            lift(pid) == answer(container_id@, ran_view(*ran)),
    {
        match ran {
            Err(cause) => Err(start_failure("failed to execute 'ctr task list'", cause.as_str())),
            Ok(output) => {
                if !output.success() {
                    let said = lossy_chars(output.stderr.as_slice());
                    let detail = text_of(trim_end_of(said.as_slice()));
                    return Err(
                        exit_failure(
                            "containerd task list failed",
                            output.status.as_str(),
                            detail.as_str(),
                        ),
                    );
                }
                let lines = split_bytes(output.stdout.as_slice(), NEWLINE);
                let wanted = to_chars(container_id);
                let ghost rows = views(lines@).drop_first();
                let mut i: usize = 1;
                proof {
                    lemma_split_nonempty(output.stdout@, NEWLINE);
                }
                while i < lines.len()
                    invariant
                        1 <= i <= lines.len(),
                        wanted@ == container_id@,
                        views(lines@) == split(output.stdout@, NEWLINE),
                        rows == views(lines@).drop_first(),
                        forall|j: int|
                            0 <= j < i - 1 ==> !is_task(#[trigger] rows[j], container_id@),
                    decreases lines.len() - i,
                {
                    let line = lines[i];
                    assert(rows[i - 1] == line@);
                    let text = lossy_chars(line);
                    let cols = split_words(text.as_slice());
                    if cols.len() == 3 && same_chars(cols[0], wanted.as_slice()) {
                        proof {
                            assert(views(cols@)[0] == cols@[0]@);
                            assert(views(cols@)[1] == cols@[1]@);
                            lemma_first_where_unique(
                                rows,
                                |line: Seq<u8>| is_task(line, container_id@),
                                i - 1,
                            );
                        }
                        let number = cols[1];
                        return match parse_pid(number) {
                            Some(pid) => Ok(pid),
                            None => {
                                let shown = text_of(number);
                                Err(
                                    LookupError::new(
                                        ErrorKind::ParseError,
                                        join5(
                                            "invalid PID '",
                                            shown.as_str(),
                                            "' from containerd for container '",
                                            container_id,
                                            "'",
                                        ),
                                    ),
                                )
                            },
                        };
                    }
                    proof {
                        if cols.len() == 3 {
                            assert(views(cols@)[0] == cols@[0]@);
                        }
                    }
                    i += 1;
                }
                proof {
                    lemma_first_where_unique(
                        rows,
                        |line: Seq<u8>| is_task(line, container_id@),
                        i - 1,
                    );
                }
                Err(
                    LookupError::new(
                        ErrorKind::NotFound,
                        join3("no containerd task found with id '", container_id, "'"),
                    ),
                )
            },
        }
    }

    /// Whether containerd can be asked: `ctr` has to be installed.
    pub fn check_required_tools(&self, tools: &Tools) -> (checked: Result<(), LookupError>)
        ensures
            lift(checked) == tools_needed(*tools),
    {
        require_tool(tools.ctr, "containerd runtime not found: 'ctr' command is not available")
    }
}

} // verus!
