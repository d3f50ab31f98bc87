//! What is sent to the language model, and what is said in its place when it
//! is switched off.

use crate::chars::chars_of;
use crate::chars::string_of;
use crate::config::Config;
use vstd::prelude::*;
use vstd::string::*;

verus! {

/// The body of a request to Ollama.
#[derive(Debug, Clone, PartialEq, Eq)]
pub struct OllamaRequest {
    pub model: String,
    pub prompt: String,
    pub stream: bool,
}

/// The body of Ollama's answer.
#[derive(Debug, Clone, PartialEq, Eq)]
pub struct OllamaResponse {
    pub response: String,
}

/// How a reflection is to be had.
#[derive(Debug, Clone, PartialEq, Eq)]
pub enum Reflection {
    /// The model is switched off; this text stands in for its answer.
    Offline(String),
    /// The request is to be posted to the address.
    Remote { url: String, request: OllamaRequest },
}

/// `s` without the run of `c` at its end.
pub open spec fn without_trailing(s: Seq<char>, c: char) -> Seq<char>
    decreases s.len(),
{
    if s.len() > 0 && s.last() == c {
        without_trailing(s.drop_last(), c)
    } else {
        s
    }
}

/// The address that answers requests, for a given base address.
pub open spec fn generate_url_of(base_url: Seq<char>) -> Seq<char> {
    without_trailing(base_url, '/') + "/api/generate"@
}

/// The prompt that asks for guidance on `text`.
pub open spec fn prompt_of(text: Seq<char>) -> Seq<char> {
    "Consider this reflection: "@ + text + "\n\nRespond with brief, thoughtful guidance."@
}

/// The text that stands in for the model's answer.
pub open spec fn offline_text_of(text: Seq<char>) -> Seq<char> {
    "GUIDING LIGHT (offline mode)\n\nYou shared:\n  \""@ + text
        + "\"\n\nConsider:\n1. What's the real need here?\n2. What's the smallest reversible action?\n3. Will you respect yourself tomorrow?"@
}

/// The plan for a reflection on `text` under a configuration: a request to
/// the configured model if the model is enabled, else the offline text.
pub open spec fn reflection_of(enabled: bool, base_url: Seq<char>, model: Seq<char>, text: Seq<char>)
    -> ReflectionView {
    if enabled {
        ReflectionView::Remote {
            url: generate_url_of(base_url),
            model,
            prompt: prompt_of(text),
            stream: false,
        }
    } else {
        ReflectionView::Offline(offline_text_of(text))
    }
}

/// `Reflection` as a mathematical value.
pub ghost enum ReflectionView {
    Offline(Seq<char>),
    Remote { url: Seq<char>, model: Seq<char>, prompt: Seq<char>, stream: bool },
}

impl View for Reflection {
    type V = ReflectionView;

    open spec fn view(&self) -> ReflectionView {
        match self {
            Reflection::Offline(text) => ReflectionView::Offline(text@),
            Reflection::Remote { url, request } => ReflectionView::Remote {
                url: url@,
                model: request.model@,
                prompt: request.prompt@,
                stream: request.stream,
            },
        }
    }
}

/// The address that answers requests: the base address without the slashes
/// at its end, then `/api/generate`.
pub fn generate_url(base_url: &str) -> (url: String)
    ensures
        url@ == generate_url_of(base_url@),
{
    let s = chars_of(base_url);
    let mut end: usize = s.len();
    assert(s@.subrange(0, end as int) =~= s@);
    while end > 0 && s[end - 1] == '/'
        invariant
            end <= s.len(),
            without_trailing(s@, '/') == without_trailing(s@.subrange(0, end as int), '/'),
        decreases end,
    {
        assert(s@.subrange(0, end as int).drop_last() =~= s@.subrange(0, end - 1));
        end -= 1;
    }
    let mut url = string_of(&s, 0, end);
    url.append("/api/generate");
    url
}

impl OllamaRequest {
    /// The request that asks `model` for guidance on `text`, answered in one
    /// piece.
    pub fn new(model: &str, text: &str) -> (request: OllamaRequest)
        ensures
            request.model@ == model@,
            request.prompt@ == prompt_of(text@),
            !request.stream,
    {
        let mut prompt = "Consider this reflection: ".to_owned();
        prompt.append(text);
        prompt.append("\n\nRespond with brief, thoughtful guidance.");
        OllamaRequest { model: model.to_owned(), prompt, stream: false }
    }
}

/// The text that stands in for the model's answer when the model is switched
/// off.
pub fn offline_reflection(text: &str) -> (out: String)
    ensures
        out@ == offline_text_of(text@),
{
    let mut out = "GUIDING LIGHT (offline mode)\n\nYou shared:\n  \"".to_owned();
    out.append(text);
    out.append(
        "\"\n\nConsider:\n1. What's the real need here?\n2. What's the smallest reversible action?\n3. Will you respect yourself tomorrow?",
    );
    out
}

/// How a reflection on `text` is to be had under `cfg`: by a request to the
/// configured model if the model is enabled, else by the offline text.
pub fn plan_reflection(cfg: &Config, text: &str) -> (plan: Reflection)
    ensures
        plan@ == reflection_of(cfg.llm.enabled, cfg.llm.base_url@, cfg.llm.model@, text@),
{
    if cfg.llm.enabled {
        Reflection::Remote {
            url: generate_url(cfg.llm.base_url.as_str()),
            request: OllamaRequest::new(cfg.llm.model.as_str(), text),
        }
    } else {
        Reflection::Offline(offline_reflection(text))
    }
}

} // verus!
