//! The configuration of the tool, its defaults, and the decisions that
//! depend on it.

use vstd::prelude::*;
use vstd::string::*;

verus! {

/// Where the journal is kept.
#[derive(Debug, Clone, PartialEq, Eq)]
pub struct JournalConfig {
    pub path: String,
}

/// How the language model is reached.
#[derive(Debug, Clone, PartialEq, Eq)]
pub struct LlmConfig {
    pub enabled: bool,
    pub provider: String,
    pub base_url: String,
    pub model: String,
    pub timeout_ms: u64,
}

/// One rule as a configuration file words it.
#[derive(Debug, Clone, PartialEq, Eq)]
pub struct PolicyRuleConfig {
    pub id: String,
    pub intent: Vec<String>,
    pub rule_type: String,
    pub pattern: Option<String>,
    pub keywords: Option<Vec<String>>,
    pub message: String,
}

/// The whole configuration.
#[derive(Debug, Clone, PartialEq, Eq)]
pub struct Config {
    pub journal: JournalConfig,
    pub llm: LlmConfig,
    pub policy: Vec<PolicyRuleConfig>,
}

/// A configuration together with the path it belongs to.
#[derive(Debug, Clone, PartialEq, Eq)]
pub struct AppContext {
    pub config_path: String,
    pub config: Config,
}

/// What has to be done to set up a repository.
#[derive(Debug, Clone, Copy, PartialEq, Eq)]
pub struct InitPlan {
    /// The journal directory is to be created.
    pub create_journal_dir: bool,
    /// The default configuration is to be written.
    pub write_config: bool,
}

/// The configuration document that setting up a repository writes.
pub const DEFAULT_CONFIG_TEXT: &'static str = "[journal]\npath = \\\".guiding-light/journal.jsonl\\\"\n\n[llm]\nenabled = true\nprovider = \\\"ollama\\\"\nbase_url = \\\"http://localhost:11434/api\\\"\nmodel = \\\"gemma3\\\"\ntimeout_ms = 120000\n\n[[policy]]\nid = \\\"conventional-commits\\\"\nintent = [\\\"commit_message\\\"]\ntype = \\\"regex_require\\\"\npattern = \\\"^(feat|fix|docs|style|refactor|perf|test|build|ci|chore|revert)(\\\\\\\\([^)]+\\\\\\\\))?(!)?: .+\\\"\nmessage = \\\"Commit message must follow Conventional Commits\\\"\\n\\n[[policy]]\nid = \\\"no-exhausted-shipping\\\"\nintent = [\\\"commit_message\\\", \\\"pre_push\\\", \\\"reflect\\\"]\ntype = \\\"keyword_block\\\"\nkeywords = [\\\"exhausted\\\", \\\"burnt out\\\", \\\"too tired\\\"]\nmessage = \\\"If you're exhausted, slow down and rest.\\\"\\n\\";

/// The path of the configuration file when none is named.
pub open spec fn default_config_path() -> Seq<char> {
    "guiding-light.toml"@
}

/// `c` is the configuration used when no file is found: the journal under
/// `.guiding-light`, a local Ollama with two minutes of patience, no rules.
pub open spec fn is_default_config(c: Config) -> bool {
    &&& c.journal.path@ == ".guiding-light/journal.jsonl"@
    &&& c.llm.enabled
    &&& c.llm.provider@ == "ollama"@
    &&& c.llm.base_url@ == "http://localhost:11434/api"@
    &&& c.llm.model@ == "gemma3"@
    &&& c.llm.timeout_ms == 120_000
    &&& c.policy@.len() == 0
}

/// The value of the environment's switch says yes.
pub open spec fn says_yes(v: Seq<char>) -> bool {
    v == "1"@ || v == "true"@ || v == "TRUE"@ || v == "yes"@ || v == "YES"@
}

/// Whether two texts are the same.
fn same_text(a: &str, b: &str) -> (same: bool)
    ensures
        same == (a@ == b@),
{
    let x = a.to_owned();
    let y = b.to_owned();
    x == y
}

impl Default for Config {
    fn default() -> (c: Config)
        ensures
            is_default_config(c),
    {
        Config {
            journal: JournalConfig { path: ".guiding-light/journal.jsonl".to_owned() },
            llm: LlmConfig {
                enabled: true,
                provider: "ollama".to_owned(),
                base_url: "http://localhost:11434/api".to_owned(),
                model: "gemma3".to_owned(),
                timeout_ms: 120_000,
            },
            policy: Vec::new(),
        }
    }
}

impl AppContext {
    /// The path at which the configuration is looked for: the one named, or
    /// `guiding-light.toml`.
    pub fn path_or_default(config_path: Option<&str>) -> (path: String)
        ensures
            path@ == match config_path {
                Some(p) => p@,
                None => default_config_path(),
            },
    {
        match config_path {
            Some(p) => p.to_owned(),
            None => "guiding-light.toml".to_owned(),
        }
    }

    /// The context for the configuration found at `config_path`, or for the
    /// default configuration if none was found there.
    pub fn new(config_path: String, found: Option<Config>) -> (ctx: AppContext)
        ensures
            ctx.config_path == config_path,
            match found {
                Some(c) => ctx.config == c,
                None => is_default_config(ctx.config),
            },
    {
        let config = match found {
            Some(c) => c,
            None => Config::default(),
        };
        AppContext { config_path, config }
    }

    /// Whether the language model is to be used. The switch of the
    /// environment, if it is set, decides alone: `1`, `true`, `TRUE`, `yes`
    /// and `YES` say yes, any other value says no. Without it the
    /// configuration decides.
    pub fn llm_enabled(&self, switch: Option<&str>) -> (enabled: bool)
        ensures
            enabled == match switch {
                Some(v) => says_yes(v@),
                None => self.config.llm.enabled,
            },
    {
        match switch {
            Some(v) => same_text(v, "1") || same_text(v, "true") || same_text(v, "TRUE")
                || same_text(v, "yes") || same_text(v, "YES"),
            None => self.config.llm.enabled,
        }
    }
}

/// What setting up a repository has to do: the journal directory is created
/// unless it exists, and the default configuration is written if it is
/// forced or no configuration exists.
pub fn plan_init(force: bool, journal_dir_exists: bool, config_exists: bool) -> (plan: InitPlan)
    ensures
        plan.create_journal_dir == !journal_dir_exists,
        plan.write_config == (force || !config_exists),
{
    InitPlan { create_journal_dir: !journal_dir_exists, write_config: force || !config_exists }
}

} // verus!
