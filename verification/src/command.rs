//! The external command a recording session runs.
//!
//! A session may be driven by a command: recording lasts while it runs. The
//! configured command line is either a bare program name, run as it is, or
//! a full shell line, handed to `sh -c`. Spawning the process is the
//! surrounding application's task.

use vstd::prelude::*;
use vstd::string::*;

verus! {

/// A program and its arguments, ready to spawn.
#[derive(Debug)]
pub struct Command {
    pub program: String,
    pub args: Vec<String>,
}

/// Whether a command line holds a space, and so is more than a bare
/// program name.
pub open spec fn has_space(s: Seq<char>) -> bool {
    exists|i: int| 0 <= i < s.len() && s[i] == ' '
}

/// Build the command a configured line stands for: a bare name becomes the
/// program itself with no arguments; a line with a space is handed to the
/// shell as `sh -c <line>`.
pub fn command_from_line(line: &str) -> (r: Command)
    ensures
        !has_space(line@) ==> r.program@ == line@ && r.args@.len() == 0,
        has_space(line@) ==> ({
            &&& r.program@ == "sh"@
            &&& r.args@.len() == 2
            &&& r.args@[0]@ == "-c"@
            &&& r.args@[1]@ == line@
        }),
{
    let n = line.unicode_len();
    let mut i: usize = 0;
    let mut found = false;
    while i < n
        invariant
            i <= n == line@.len(),
            found == (exists|j: int| 0 <= j < i && line@[j] == ' '),
        decreases n - i,
    {
        if line.get_char(i) == ' ' {
            found = true;
        }
        i += 1;
    }
    if found {
        Command {
            program: String::from_str("sh"),
            args: vec![String::from_str("-c"), String::from_str(line)],
        }
    } else {
        Command { program: String::from_str(line), args: Vec::new() }
    }
}

} // verus!
