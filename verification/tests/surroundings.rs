use guiding_light::cli::exit_status;
use guiding_light::cli::intent_or;
use guiding_light::cli::list_start;
use guiding_light::config::plan_init;
use guiding_light::config::AppContext;
use guiding_light::config::Config;
use guiding_light::config::DEFAULT_CONFIG_TEXT;
use guiding_light::hooks::commit_msg_hook;
use guiding_light::hooks::pre_commit_hook;
use guiding_light::hooks::HookMode;
use guiding_light::journal::entry_from_row;
use guiding_light::journal::entry_with;
use guiding_light::journal::new_row;
use guiding_light::journal::JournalRow;
use guiding_light::journal::Timestamp;
use guiding_light::llm::generate_url;
use guiding_light::llm::offline_reflection;
use guiding_light::llm::plan_reflection;
use guiding_light::llm::OllamaRequest;
use guiding_light::llm::Reflection;
use guiding_light::policy::check_text;
use guiding_light::policy::Policy;
use guiding_light::policy::RequiredWhenRisky;
use guiding_light::report::Tone;

#[test]
fn default_config_values() {
    let c = Config::default();
    assert_eq!(c.journal.path, ".guiding-light/journal.jsonl");
    assert!(c.llm.enabled);
    assert_eq!(c.llm.provider, "ollama");
    assert_eq!(c.llm.base_url, "http://localhost:11434/api");
    assert_eq!(c.llm.model, "gemma3");
    assert_eq!(c.llm.timeout_ms, 120_000);
    assert!(c.policy.is_empty());
}

#[test]
fn config_path_falls_back_to_the_default_name() {
    assert_eq!(AppContext::path_or_default(None), "guiding-light.toml");
    assert_eq!(AppContext::path_or_default(Some("x/y.toml")), "x/y.toml");
    assert_eq!(AppContext::path_or_default(Some("")), "");
}

#[test]
fn context_takes_the_default_config_when_none_was_found() {
    let ctx = AppContext::new("a.toml".to_string(), None);
    assert_eq!(ctx.config_path, "a.toml");
    assert_eq!(ctx.config, Config::default());

    let mut found = Config::default();
    found.llm.model = "other".to_string();
    found.llm.enabled = false;
    let ctx = AppContext::new("b.toml".to_string(), Some(found.clone()));
    assert_eq!(ctx.config, found);
}

#[test]
fn environment_switch_decides_alone() {
    let mut ctx = AppContext::new("a.toml".to_string(), None);
    for yes in ["1", "true", "TRUE", "yes", "YES"] {
        ctx.config.llm.enabled = false;
        assert!(ctx.llm_enabled(Some(yes)));
    }
    for no in ["0", "", "True", "Yes", "on", "false", " 1", "yes "] {
        ctx.config.llm.enabled = true;
        assert!(!ctx.llm_enabled(Some(no)));
    }
    ctx.config.llm.enabled = true;
    assert!(ctx.llm_enabled(None));
    ctx.config.llm.enabled = false;
    assert!(!ctx.llm_enabled(None));
}

#[test]
fn init_plan_for_each_state() {
    for force in [false, true] {
        for dir in [false, true] {
            for cfg in [false, true] {
                let plan = plan_init(force, dir, cfg);
                assert_eq!(plan.create_journal_dir, !dir);
                assert_eq!(plan.write_config, force || !cfg);
            }
        }
    }
}

#[test]
fn default_config_document() {
    let t = DEFAULT_CONFIG_TEXT;
    assert_eq!(t.chars().count(), 679);
    assert!(t.starts_with("[journal]\npath = \\\".guiding-light/journal.jsonl\\\"\n\n[llm]\nenabled = true\n"));
    assert!(t.contains("timeout_ms = 120000\n\n[[policy]]\nid = \\\"conventional-commits\\\"\n"));
    assert!(t.contains("keywords = [\\\"exhausted\\\", \\\"burnt out\\\", \\\"too tired\\\"]\n"));
    assert!(t.ends_with("message = \\\"If you're exhausted, slow down and rest.\\\"\\n\\"));
    assert_eq!(t.lines().count(), 21);
}

#[test]
fn hook_mode_words() {
    assert_eq!(HookMode::Strict.as_str(), "strict");
    assert_eq!(HookMode::Warn.as_str(), "warn");
}

#[test]
fn commit_msg_hook_text() {
    let expected = "#!/usr/bin/env bash\nset -euo pipefail\nMSG_FILE=\"${1:-}\"\n[[ -z \"$MSG_FILE\" || ! -f \"$MSG_FILE\" ]] && exit 0\nGL_BIN=\"$(command -v gl || true)\"\n[[ -z \"$GL_BIN\" ]] && exit 0\nPOLICY_PATH=\"${GL_POLICY_PATH:-policies/default.yml}\"\n\"$GL_BIN\" policy check --file \"$MSG_FILE\" --diff --policy \"$POLICY_PATH\" --mode strict\n";
    assert_eq!(commit_msg_hook(HookMode::Strict), expected);
    assert!(commit_msg_hook(HookMode::Warn).ends_with("--mode warn\n"));
}

#[test]
fn pre_commit_hook_text() {
    let expected = "#!/usr/bin/env bash\nset -euo pipefail\nGL_BIN=\"$(command -v gl || true)\"\n[[ -z \"$GL_BIN\" ]] && exit 0\nPOLICY_PATH=\"${GL_POLICY_PATH:-policies/default.yml}\"\n\"$GL_BIN\" policy check --diff --policy \"$POLICY_PATH\" --mode warn\n";
    assert_eq!(pre_commit_hook(HookMode::Warn), expected);
    assert!(pre_commit_hook(HookMode::Strict).ends_with("--mode strict\n"));
}

#[test]
fn generate_url_drops_trailing_slashes() {
    assert_eq!(generate_url("http://localhost:11434"), "http://localhost:11434/api/generate");
    assert_eq!(generate_url("http://localhost:11434/"), "http://localhost:11434/api/generate");
    assert_eq!(generate_url("http://h///"), "http://h/api/generate");
    assert_eq!(generate_url("http://h/a/b"), "http://h/a/b/api/generate");
    assert_eq!(generate_url(""), "/api/generate");
    assert_eq!(generate_url("///"), "/api/generate");
}

#[test]
fn request_asks_for_guidance() {
    let r = OllamaRequest::new("gemma3", "I am stuck");
    assert_eq!(r.model, "gemma3");
    assert_eq!(
        r.prompt,
        "Consider this reflection: I am stuck\n\nRespond with brief, thoughtful guidance."
    );
    assert!(!r.stream);
}

#[test]
fn offline_reflection_text() {
    assert_eq!(
        offline_reflection("hello"),
        "GUIDING LIGHT (offline mode)\n\nYou shared:\n  \"hello\"\n\nConsider:\n1. What's the real need here?\n2. What's the smallest reversible action?\n3. Will you respect yourself tomorrow?"
    );
}

#[test]
fn reflection_plan_follows_the_switch() {
    let mut cfg = Config::default();
    match plan_reflection(&cfg, "t") {
        Reflection::Remote { url, request } => {
            assert_eq!(url, "http://localhost:11434/api/api/generate");
            assert_eq!(request, OllamaRequest::new("gemma3", "t"));
        }
        Reflection::Offline(_) => panic!("the model is enabled"),
    }
    cfg.llm.enabled = false;
    assert_eq!(plan_reflection(&cfg, "t"), Reflection::Offline(offline_reflection("t")));
}

fn row(created_at: &str) -> JournalRow {
    JournalRow {
        created_at: created_at.to_string(),
        decision: "ship".to_string(),
        why: "ready".to_string(),
    }
}

#[test]
fn entry_takes_the_time_of_its_row() {
    let now = Timestamp { secs: 5, nanos: 6 };
    let e = entry_from_row(row("2024-01-02T03:04:05Z"), now);
    assert_eq!(e.created_at, Timestamp { secs: 1_704_164_645, nanos: 0 });
    assert_eq!(e.decision, "ship");
    assert_eq!(e.why, "ready");

    let e = entry_from_row(row("2024-01-02T03:04:05.250+01:00"), now);
    assert_eq!(e.created_at, Timestamp { secs: 1_704_161_045, nanos: 250_000_000 });

    let e = entry_from_row(row("1969-12-31 23:59:59+00:00"), now);
    assert_eq!(e.created_at, Timestamp { secs: -1, nanos: 0 });
}

#[test]
fn entry_takes_the_time_of_reading_when_the_row_has_none() {
    let now = Timestamp { secs: 1_700_000_000, nanos: 7 };
    for bad in ["", "yesterday", "2024-01-02", "2024-13-02T03:04:05Z", "1704164645"] {
        assert_eq!(entry_from_row(row(bad), now).created_at, now);
    }
}

#[test]
fn entry_with_a_given_time() {
    let now = Timestamp { secs: 9, nanos: 0 };
    let t = Timestamp { secs: 1, nanos: 2 };
    let e = entry_with(Some(t), "d".to_string(), "w".to_string(), now);
    assert_eq!(e.created_at, t);
    let e = entry_with(None, "d".to_string(), "w".to_string(), now);
    assert_eq!(e.created_at, now);
    assert_eq!(e.decision, "d");
    assert_eq!(e.why, "w");
}

#[test]
fn new_row_writes_the_time_as_rfc3339() {
    let r = new_row(Timestamp { secs: 1_704_164_645, nanos: 0 }, "ship", "ready").unwrap();
    assert_eq!(r.created_at, "2024-01-02T03:04:05+00:00");
    assert_eq!(r.decision, "ship");
    assert_eq!(r.why, "ready");

    let r = new_row(Timestamp { secs: 0, nanos: 500_000_000 }, "", "").unwrap();
    assert_eq!(r.created_at, "1970-01-01T00:00:00.500+00:00");
}

#[test]
fn new_row_beyond_the_calendar() {
    assert_eq!(new_row(Timestamp { secs: i64::MAX, nanos: 0 }, "d", "w"), None);
    assert_eq!(new_row(Timestamp { secs: 0, nanos: 2_000_000_000 }, "d", "w"), None);
}

#[test]
fn row_written_is_read_back() {
    let t = Timestamp { secs: 1_704_164_645, nanos: 123_456_789 };
    let r = new_row(t, "ship", "ready").unwrap();
    let e = entry_from_row(r, Timestamp { secs: 0, nanos: 0 });
    assert_eq!(e.created_at, t);
}

#[test]
fn intent_falls_back_to_the_command() {
    assert_eq!(intent_or(None, "reflect"), "reflect");
    assert_eq!(intent_or(Some("mine".to_string()), "policy_check"), "mine");
    assert_eq!(intent_or(Some(String::new()), "policy_check"), "");
}

#[test]
fn exit_status_of_a_check() {
    assert_eq!(exit_status(false, true), 0);
    assert_eq!(exit_status(true, true), 0);
    assert_eq!(exit_status(true, false), 1);
    assert_eq!(exit_status(false, false), 2);
}

#[test]
fn listing_shows_the_last_entries() {
    assert_eq!(list_start(None, 0), 0);
    assert_eq!(list_start(None, 50), 0);
    assert_eq!(list_start(None, 51), 1);
    assert_eq!(list_start(None, 200), 150);
    assert_eq!(list_start(Some(0), 7), 7);
    assert_eq!(list_start(Some(3), 7), 4);
    assert_eq!(list_start(Some(7), 7), 0);
    assert_eq!(list_start(Some(usize::MAX), 7), 0);
}

fn core_policy() -> Policy {
    Policy {
        version: 1,
        name: "core".to_string(),
        principles: vec!["rest first".to_string()],
        banned_phrases: vec!["exhausted".to_string(), "tired".to_string()],
        required_when_risky: RequiredWhenRisky {
            triggers: vec!["exhausted".to_string()],
            require_intent_statement: true,
        },
    }
}

#[test]
fn report_on_a_text_that_passed() {
    let r = check_text(&core_policy(), "all is well", None);
    let lines = r.report_lines();
    assert_eq!(lines.len(), 1);
    assert_eq!(lines[0].tone, Tone::Passed);
    assert_eq!(lines[0].text, "\u{2713} Policy check passed");
}

#[test]
fn report_on_violations() {
    let r = check_text(&core_policy(), "tired and exhausted", None);
    let lines = r.report_lines();
    assert_eq!(lines.len(), 4);
    assert_eq!(lines[0].tone, Tone::Failed);
    assert_eq!(lines[0].text, "\u{2717} Policy violations");
    for (line, violation) in lines[1..].iter().zip(r.violations.iter()) {
        assert_eq!(line.tone, Tone::Violation);
        assert_eq!(&line.text, violation);
    }
    assert_eq!(lines[3].text, "Risk detected: intent statement required");
}

#[test]
fn report_goes_by_the_flag() {
    let mut r = check_text(&core_policy(), "tired", None);
    r.ok = true;
    assert_eq!(r.report_lines().len(), 1);
}

#[test]
fn intent_taken_from_the_text_satisfies_the_requirement() {
    let text = "I'm exhausted\nIntent: rest tomorrow";
    let intent = guiding_light::extract::extract_intent_from_text(text);
    assert_eq!(intent.as_deref(), Some("rest tomorrow"));
    let r = check_text(&core_policy(), text, intent.as_deref());
    assert!(r.risky);
    assert_eq!(r.violations, vec!["Banned phrase: 'exhausted'".to_string()]);
}

#[test]
fn added_lines_of_a_diff_are_what_is_checked() {
    let diff = "--- a/notes\n+++ b/notes\n-calm\n+so TIRED today\n context exhausted";
    let added = guiding_light::extract::extract_added_lines(diff);
    assert_eq!(added, "so TIRED today");
    let r = check_text(&core_policy(), &added, None);
    assert!(!r.risky);
    assert_eq!(r.violations, vec!["Banned phrase: 'tired'".to_string()]);
}
