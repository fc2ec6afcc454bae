//! Judging how a child process ended, and planning the commands that end a
//! process together with its children.

use vstd::prelude::*;
use vstd::string::*;
use crate::outside::{lossy_utf8, utf8_lossy};
use crate::text::{decimal, decimal_string};

verus! {

/// How a child process ended: its exit code, if it exited by itself, and
/// what it wrote.
#[derive(Debug, PartialEq, Eq)]
pub struct CommandOutput {
    pub code: Option<i32>,
    pub stdout: Vec<u8>,
    pub stderr: Vec<u8>,
}

/// A failure outside the tunnel itself.
#[derive(Debug, PartialEq, Eq)]
pub enum CodeError {
    /// A command could not be run or ended with a code other than zero.
    CommandFailed { command: String, code: i32, output: String },
    /// The local pipe could not be opened.
    AsyncPipeFailed(String),
}

/// A program and its arguments.
#[derive(Debug, PartialEq, Eq)]
pub struct CommandLine {
    pub program: String,
    pub args: Vec<String>,
}

/// The mathematical value of a `CommandLine`.
pub struct CommandLineView {
    pub program: Seq<char>,
    pub args: Seq<Seq<char>>,
}

impl View for CommandLine {
    type V = CommandLineView;

    open spec fn view(&self) -> CommandLineView {
        CommandLineView { program: self.program@, args: self.args.deep_view() }
    }
}

impl DeepView for CommandLine {
    type V = CommandLineView;

    open spec fn deep_view(&self) -> CommandLineView {
        self@
    }
}

/// The process ended by itself with code zero.
pub open spec fn succeeded(code: Option<i32>) -> bool {
    code == Some(0i32)
}

/// The code reported for a failed process: its exit code, or -1 where it
/// has none.
pub open spec fn reported_code(code: Option<i32>) -> i32 {
    match code {
        Some(c) => c,
        None => -1i32,
    }
}

/// The bytes shown for a failed process: what it wrote to standard error,
/// or to standard output where it wrote no error.
pub open spec fn reported_bytes(stdout: Seq<u8>, stderr: Seq<u8>) -> Seq<u8> {
    if stderr.len() == 0 {
        stdout
    } else {
        stderr
    }
}

/// The failure of a process that did not succeed, given the command as it
/// is shown, how the process ended, and the text of what it wrote.
pub fn command_failed(command: String, code: Option<i32>, output: String) -> (r: CodeError)
    ensures
        r == (CodeError::CommandFailed { command, code: reported_code(code), output }),
{
    let code = match code {
        Some(c) => c,
        None => -1,
    };
    CodeError::CommandFailed { command, code, output }
}

/// Passes the output of a process on if the process succeeded, and turns it
/// into a failure otherwise. `cmd_str` renders the command for the failure;
/// it is called only then. The failure shows what the process wrote to
/// standard error, or to standard output where it wrote no error, decoded
/// as text.
pub fn check_output_status<F: FnOnce() -> String>(output: CommandOutput, cmd_str: F) -> (r: Result<
    CommandOutput,
    CodeError,
>)
    requires
        cmd_str.requires(()),
    ensures
        match r {
            Ok(passed) => succeeded(output.code) && passed == output,
            Err(CodeError::CommandFailed { command, code, output: text }) => {
                &&& !succeeded(output.code)
                &&& cmd_str.ensures((), command)
                &&& code == reported_code(output.code)
                &&& text@ == lossy_utf8(reported_bytes(output.stdout@, output.stderr@))
            },
            Err(_) => false,
        },
{
    let ok = match output.code {
        Some(c) => c == 0,
        None => false,
    };
    if !ok {
        let text = if output.stderr.len() == 0 {
            utf8_lossy(&output.stdout)
        } else {
            utf8_lossy(&output.stderr)
        };
        return Err(command_failed(cmd_str(), output.code, text));
    }
    Ok(output)
}

/// The failure of a command that could not be run at all.
pub fn spawn_failed(command: String, cause: String) -> (r: CodeError)
    ensures
        r matches CodeError::CommandFailed { command: c, code, output } && c@ == command@ && code
            == -1i32 && output@ == cause@,
{
    CodeError::CommandFailed { command, code: -1, output: cause }
}

/// The strings of `parts` with `separator` between them.
pub open spec fn joined(parts: Seq<Seq<char>>, separator: Seq<char>) -> Seq<char>
    decreases parts.len(),
{
    if parts.len() == 0 {
        Seq::empty()
    } else if parts.len() == 1 {
        parts[0]
    } else {
        joined(parts.drop_last(), separator) + separator + parts.last()
    }
}

/// A command as it is shown to the user: the program, a space, and the
/// arguments with spaces between them.
pub open spec fn shown_command(program: Seq<char>, args: Seq<Seq<char>>) -> Seq<char> {
    program + " "@ + joined(args, " "@)
}

/// Renders a command for a message.
pub fn render_command(program: &str, args: &Vec<String>) -> (r: String)
    ensures
        r@ == shown_command(program@, args.deep_view()),
{
    let ghost all = args.deep_view();
    let mut out = String::from_str(program);
    out.append(" ");
    let ghost head = out@;
    let mut i: usize = 0;
    while i < args.len()
        invariant
            all == args.deep_view(),
            head == program@ + " "@,
            i <= all.len(),
            out@ == head + joined(all.take(i as int), " "@),
        decreases all.len() - i,
    {
        if i > 0 {
            out.append(" ");
        }
        out.append(args[i].as_str());
        proof {
            let now = all.take(i + 1);
            assert(now.drop_last() =~= all.take(i as int));
        }
        i += 1;
    }
    assert(all.take(all.len() as int) =~= all);
    out
}

/// The command that lists the children of a process, one identifier a
/// line.
pub open spec fn list_children_command(process_id: u32) -> CommandLineView {
    CommandLineView { program: "pgrep"@, args: seq!["-P"@, decimal(process_id as nat)] }
}

/// The command that asks one process to end.
pub open spec fn kill_command(target: Seq<char>) -> CommandLineView {
    CommandLineView { program: "kill"@, args: seq![target] }
}

/// The commands that end a process and its children: one for the process,
/// then one for each child in the order in which they were listed.
pub open spec fn kill_tree_commands(process_id: u32, children: Seq<Seq<char>>) -> Seq<
    CommandLineView,
> {
    seq![kill_command(decimal(process_id as nat))] + children.map_values(
        |c: Seq<char>| kill_command(c),
    )
}

/// The command that ends a process and all that descend from it, where the
/// system has one.
pub open spec fn kill_tree_command(process_id: u32) -> CommandLineView {
    CommandLineView {
        program: "taskkill"@,
        args: seq!["/t"@, "/pid"@, decimal(process_id as nat)],
    }
}

/// The command that lists the children of `process_id`.
pub fn list_children(process_id: u32) -> (r: CommandLine)
    ensures
        r@ == list_children_command(process_id),
{
    let mut args: Vec<String> = Vec::new();
    args.push(String::from_str("-P"));
    args.push(decimal_string(process_id));
    let r = CommandLine { program: String::from_str("pgrep"), args };
    assert(r@.args =~= seq!["-P"@, decimal(process_id as nat)]);
    r
}

/// The command that asks the process named by `target` to end.
pub fn kill_process(target: String) -> (r: CommandLine)
    ensures
        r@ == kill_command(target@),
{
    let mut args: Vec<String> = Vec::new();
    args.push(target);
    let r = CommandLine { program: String::from_str("kill"), args };
    assert(r@.args =~= seq![target@]);
    r
}

/// Plans the end of a process and its children. `children` holds the lines
/// that the listing of the children gave. Only these are ended with the
/// process: what descends from them is left to them.
pub fn kill_tree(process_id: u32, children: &Vec<String>) -> (r: Vec<CommandLine>)
    ensures
        r.deep_view() == kill_tree_commands(process_id, children.deep_view()),
{
    let ghost all = children.deep_view();
    let ghost first = kill_command(decimal(process_id as nat));
    let mut out: Vec<CommandLine> = Vec::new();
    out.push(kill_process(decimal_string(process_id)));
    let mut i: usize = 0;
    while i < children.len()
        invariant
            all == children.deep_view(),
            first == kill_command(decimal(process_id as nat)),
            i <= all.len(),
            out.deep_view() == seq![first] + all.take(i as int).map_values(
                |c: Seq<char>| kill_command(c),
            ),
        decreases all.len() - i,
    {
        let ghost before = out.deep_view();
        out.push(kill_process(children[i].clone()));
        assert(out.deep_view() =~= before.push(kill_command(all[i as int])));
        i += 1;
    }
    out
}

/// Plans the end of a process and all that descend from it with the one
/// command that does so.
pub fn kill_tree_at_once(process_id: u32) -> (r: CommandLine)
    ensures
        r@ == kill_tree_command(process_id),
{
    let mut args: Vec<String> = Vec::new();
    args.push(String::from_str("/t"));
    args.push(String::from_str("/pid"));
    args.push(decimal_string(process_id));
    let r = CommandLine { program: String::from_str("taskkill"), args };
    assert(r@.args =~= seq!["/t"@, "/pid"@, decimal(process_id as nat)]);
    r
}

} // verus!
