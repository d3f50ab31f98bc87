//! The scripts that tie the policy check to Git's hooks.

use vstd::prelude::*;
use vstd::string::*;

verus! {

/// How a hook treats a violation.
#[derive(Debug, Clone, Copy, PartialEq, Eq)]
pub enum HookMode {
    /// A violation stops the Git operation.
    Strict,
    /// A violation is reported and the operation goes on.
    Warn,
}

/// The part of the `commit-msg` script that stands before the mode.
pub const COMMIT_MSG_HEAD: &'static str = "#!/usr/bin/env bash\nset -euo pipefail\nMSG_FILE=\"${1:-}\"\n[[ -z \"$MSG_FILE\" || ! -f \"$MSG_FILE\" ]] && exit 0\nGL_BIN=\"$(command -v gl || true)\"\n[[ -z \"$GL_BIN\" ]] && exit 0\nPOLICY_PATH=\"${GL_POLICY_PATH:-policies/default.yml}\"\n\"$GL_BIN\" policy check --file \"$MSG_FILE\" --diff --policy \"$POLICY_PATH\" --mode ";

/// The part of the `pre-commit` script that stands before the mode.
pub const PRE_COMMIT_HEAD: &'static str = "#!/usr/bin/env bash\nset -euo pipefail\nGL_BIN=\"$(command -v gl || true)\"\n[[ -z \"$GL_BIN\" ]] && exit 0\nPOLICY_PATH=\"${GL_POLICY_PATH:-policies/default.yml}\"\n\"$GL_BIN\" policy check --diff --policy \"$POLICY_PATH\" --mode ";

impl HookMode {
    /// The word that names the mode on the command line.
    pub open spec fn word(self) -> Seq<char> {
        match self {
            HookMode::Strict => "strict"@,
            HookMode::Warn => "warn"@,
        }
    }

    /// The word that names the mode on the command line.
    pub fn as_str(self) -> (s: &'static str)
        ensures
            s@ == self.word(),
    {
        match self {
            HookMode::Strict => "strict",
            HookMode::Warn => "warn",
        }
    }
}

/// The `commit-msg` script for `mode`.
pub open spec fn commit_msg_script(mode: HookMode) -> Seq<char> {
    COMMIT_MSG_HEAD@ + mode.word() + "\n"@
}

/// The `pre-commit` script for `mode`.
pub open spec fn pre_commit_script(mode: HookMode) -> Seq<char> {
    PRE_COMMIT_HEAD@ + mode.word() + "\n"@
}

/// The script to install as `commit-msg`: it checks the commit message, as a
/// diff, in the given mode.
pub fn commit_msg_hook(mode: HookMode) -> (script: String)
    ensures
        script@ == commit_msg_script(mode),
{
    let mut script = COMMIT_MSG_HEAD.to_owned();
    script.append(mode.as_str());
    script.append("\n");
    script
}

/// The script to install as `pre-commit`: it checks the staged diff in the
/// given mode.
pub fn pre_commit_hook(mode: HookMode) -> (script: String)
    ensures
        script@ == pre_commit_script(mode),
{
    let mut script = PRE_COMMIT_HEAD.to_owned();
    script.append(mode.as_str());
    script.append("\n");
    script
}

} // verus!
