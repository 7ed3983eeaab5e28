//! The predefined shell-command catalog: the command descriptions that a host
//! application executes, and the lookup of a command by name.  Running a
//! command, and streaming its output, is the host's business; this module
//! only owns the data and the name lookup.

use vstd::prelude::*;
use vstd::string::StrSliceExecFns;

verus! {

/// A shell command: its catalog name, the program to run, and its arguments.
#[derive(Debug, Clone)]
pub struct ShellCommand {
    pub name: String,
    pub command: String,
    pub args: Vec<String>,
}

/// What a finished command run produced.
#[derive(Debug, Clone)]
pub struct CommandResult {
    pub code: i32,
    pub stdout: String,
    pub stderr: String,
}

/// One event of a streamed command run.
#[derive(Debug, Clone)]
pub enum ShellCommandEvent {
    Started { command: String, args: Vec<String> },
    Stdout { line: String },
    Stderr { line: String },
    Finished { code: i32 },
    Error { message: String },
}

/// Character-by-character string equality.
fn str_eq(a: &str, b: &str) -> (r: bool)
    ensures
        r == (a@ == b@),
{
    let n = a.unicode_len();
    let m = b.unicode_len();
    if n != m {
        return false;
    }
    let mut i: usize = 0;
    while i < n
        invariant
            i <= n,
            n == a@.len() == b@.len(),
            forall|j: int| 0 <= j < i ==> a@[j] == b@[j],
        decreases n - i,
    {
        if a.get_char(i) != b.get_char(i) {
            return false;
        }
        i = i + 1;
    }
    assert(a@ =~= b@);
    true
}

/// Look a command up by name: the first catalog entry whose name equals
/// `name`, or `None` when no entry carries that name.
pub fn get_shell_command<'a>(commands: &'a Vec<ShellCommand>, name: &str) -> (r: Option<
    &'a ShellCommand,
>)
    ensures
        r is Some <==> exists|i: int|
            0 <= i < commands@.len() && (#[trigger] commands@[i]).name@ == name@,
        r matches Some(c) ==> exists|i: int|
            {
                &&& 0 <= i < commands@.len()
                &&& (#[trigger] commands@[i]).name@ == name@
                &&& *c == commands@[i]
                &&& forall|j: int| 0 <= j < i ==> (#[trigger] commands@[j]).name@ != name@
            },
{
    let mut i: usize = 0;
    while i < commands.len()
        invariant
            i <= commands@.len(),
            forall|j: int| 0 <= j < i ==> (#[trigger] commands@[j]).name@ != name@,
        decreases commands@.len() - i,
    {
        if str_eq(commands[i].name.as_str(), name) {
            return Some(&commands[i]);
        }
        i = i + 1;
    }
    None
}

} // verus!
