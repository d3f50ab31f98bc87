//! The commands of the tool and the small decisions taken between reading a
//! command and carrying it out.

use vstd::prelude::*;
use vstd::string::*;

verus! {

/// One invocation of the tool.
#[derive(Debug, Clone, PartialEq, Eq)]
pub struct Cli {
    /// The path of the configuration file, if one is named.
    pub config: Option<String>,
    pub command: Command,
}

/// What the tool is asked to do.
#[derive(Debug, Clone, PartialEq, Eq)]
pub enum Command {
    /// Create the default configuration and the journal directory.
    Init { force: bool },
    /// Reflect on a situation.
    Reflect { text: String, intent: Option<String>, no_llm: bool, journal: bool },
    /// Check a text against the policies.
    Policy(PolicyCommand),
    /// Add to the journal, or list it.
    Journal(JournalCommand),
    /// Install Git hooks, or run one.
    Hook(HookCommand),
}

/// The policy commands.
#[derive(Debug, Clone, PartialEq, Eq)]
pub enum PolicyCommand {
    Check { text: String, intent: Option<String>, fatal: bool },
}

/// The journal commands.
#[derive(Debug, Clone, PartialEq, Eq)]
pub enum JournalCommand {
    Add { decision: String, why: String, tags: Vec<String> },
    List { limit: Option<usize>, json: bool },
}

/// The hook commands.
#[derive(Debug, Clone, PartialEq, Eq)]
pub enum HookCommand {
    Install { repo: Option<String>, hooks: Vec<String> },
    Run { hook_name: String, args: Vec<String> },
}

/// How many entries a listing shows when no limit is given.
pub const DEFAULT_LIST_LIMIT: usize = 50;

/// The intent under which a text is evaluated: the one given, else the
/// command's own.
pub fn intent_or(intent: Option<String>, fallback: &str) -> (label: String)
    ensures
        label@ == match intent {
            Some(s) => s@,
            None => fallback@,
        },
{
    match intent {
        Some(s) => s,
        None => fallback.to_owned(),
    }
}

/// The exit status after a policy check: 0 if the text passed, else 1 if
/// violations are fatal and 2 if they are not.
pub fn exit_status(fatal: bool, passed: bool) -> (status: i32)
    ensures
        status == if passed {
            0int
        } else if fatal {
            1int
        } else {
            2int
        },
{
    if passed {
        0
    } else if fatal {
        1
    } else {
        2
    }
}

/// Where a listing of `len` entries starts so that it shows the last `limit`
/// of them, or the last fifty where no limit is given, and all of them where
/// there are fewer.
pub fn list_start(limit: Option<usize>, len: usize) -> (start: usize)
    ensures
        start <= len,
        len - start == match limit {
            Some(n) => if n <= len { n as int } else { len as int },
            None => if DEFAULT_LIST_LIMIT <= len { DEFAULT_LIST_LIMIT as int } else { len as int },
        },
{
    let wanted: usize = match limit {
        Some(n) => n,
        None => DEFAULT_LIST_LIMIT,
    };
    let shown: usize = if wanted <= len { wanted } else { len };
    len - shown
}

} // verus!
