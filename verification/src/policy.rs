//! The rule model and the evaluator: which phrases a text may not hold, which
//! phrases make it risky, and when risky text must state its intent.

use crate::chars::chars_of;
use crate::chars::lowercase;
use crate::chars::to_lower;
use crate::text::contains;
use crate::text::has_substring;
use crate::text::trim;
use crate::text::trim_range;
use vstd::prelude::*;
use vstd::string::*;

verus! {

/// What holds once a text is risky.
#[derive(Debug, Clone, PartialEq, Eq)]
pub struct RequiredWhenRisky {
    /// Phrases whose presence makes a text risky.
    pub triggers: Vec<String>,
    /// Whether risky text must come with a stated intent.
    pub require_intent_statement: bool,
}

/// The rule set of one evaluation.
#[derive(Debug, Clone, PartialEq, Eq)]
pub struct Policy {
    /// Schema version; no rule depends on it.
    pub version: u32,
    /// The name under which results are reported.
    pub name: String,
    /// Statements of principle; informational.
    pub principles: Vec<String>,
    /// Phrases that a text may not hold.
    pub banned_phrases: Vec<String>,
    /// The rule for risky text.
    pub required_when_risky: RequiredWhenRisky,
}

/// The outcome of one evaluation.
#[derive(Debug, Clone, PartialEq, Eq)]
pub struct CheckResult {
    /// No violation was found.
    pub ok: bool,
    /// One line that names the policy and says whether the text passed.
    pub summary: String,
    /// One entry per banned phrase found, in the policy's order, then the
    /// entry for a missing intent statement if there is one.
    pub violations: Vec<String>,
    /// A risk trigger was found.
    pub risky: bool,
}

/// The lower-case forms that one evaluation works on: that of the text, and
/// those of the policy's banned phrases and triggers, each at the position of
/// the phrase it belongs to.
#[derive(Debug, Clone, PartialEq, Eq)]
pub struct Lowered {
    pub text: String,
    pub banned_phrases: Vec<String>,
    pub triggers: Vec<String>,
}

/// The texts of a list of strings.
pub open spec fn texts_of(v: Seq<String>) -> Seq<Seq<char>> {
    Seq::new(v.len(), |i: int| v[i]@)
}

/// `RequiredWhenRisky` as a mathematical value.
pub ghost struct RequiredWhenRiskyView {
    pub triggers: Seq<Seq<char>>,
    pub require_intent_statement: bool,
}

/// `Policy` as a mathematical value.
pub ghost struct PolicyView {
    pub version: u32,
    pub name: Seq<char>,
    pub principles: Seq<Seq<char>>,
    pub banned_phrases: Seq<Seq<char>>,
    pub required_when_risky: RequiredWhenRiskyView,
}

/// `Lowered` as a mathematical value.
pub ghost struct LoweredView {
    pub text: Seq<char>,
    pub banned_phrases: Seq<Seq<char>>,
    pub triggers: Seq<Seq<char>>,
}

/// `CheckResult` as a mathematical value.
pub ghost struct CheckResultView {
    pub ok: bool,
    pub summary: Seq<char>,
    pub violations: Seq<Seq<char>>,
    pub risky: bool,
}

impl View for RequiredWhenRisky {
    type V = RequiredWhenRiskyView;

    open spec fn view(&self) -> RequiredWhenRiskyView {
        RequiredWhenRiskyView {
            triggers: texts_of(self.triggers@),
            require_intent_statement: self.require_intent_statement,
        }
    }
}

impl View for Policy {
    type V = PolicyView;

    open spec fn view(&self) -> PolicyView {
        PolicyView {
            version: self.version,
            name: self.name@,
            principles: texts_of(self.principles@),
            banned_phrases: texts_of(self.banned_phrases@),
            required_when_risky: self.required_when_risky@,
        }
    }
}

impl View for Lowered {
    type V = LoweredView;

    open spec fn view(&self) -> LoweredView {
        LoweredView {
            text: self.text@,
            banned_phrases: texts_of(self.banned_phrases@),
            triggers: texts_of(self.triggers@),
        }
    }
}

impl View for CheckResult {
    type V = CheckResultView;

    open spec fn view(&self) -> CheckResultView {
        CheckResultView {
            ok: self.ok,
            summary: self.summary@,
            violations: texts_of(self.violations@),
            risky: self.risky,
        }
    }
}

impl CheckResult {
    /// The result says `ok` exactly when it holds no violation.
    pub open spec fn well_formed(&self) -> bool {
        self.ok == (self.violations@.len() == 0)
    }
}

impl Default for RequiredWhenRisky {
    /// No trigger, and no intent statement asked for.
    fn default() -> (rule: RequiredWhenRisky)
        ensures
            rule@.triggers == Seq::<Seq<char>>::empty(),
            !rule@.require_intent_statement,
    {
        RequiredWhenRisky { triggers: Vec::new(), require_intent_statement: false }
    }
}

/// A phrase is found in a text, given the lower-case forms of both: neither
/// the phrase nor its lower-case form is empty, and that form is a substring
/// of the lower-case form of the text.
pub open spec fn found_in(lowered_text: Seq<char>, phrase: Seq<char>, lowered_phrase: Seq<char>) -> bool {
    &&& phrase.len() > 0
    &&& lowered_phrase.len() > 0
    &&& has_substring(lowered_text, lowered_phrase)
}

/// `phrase` is found in `text`, whatever the case of either: it is not empty,
/// and its lower-case form is a substring of the lower-case form of `text`.
pub open spec fn phrase_matches(phrase: Seq<char>, text: Seq<char>) -> bool {
    phrase.len() > 0 && has_substring(lowercase(text), lowercase(phrase))
}

/// For each phrase, whether it is found; `lowered` holds the lower-case forms
/// of the phrases.
pub open spec fn found_flags(
    phrases: Seq<Seq<char>>,
    lowered: Seq<Seq<char>>,
    lowered_text: Seq<char>,
) -> Seq<bool> {
    Seq::new(phrases.len(), |i: int| found_in(lowered_text, phrases[i], lowered[i]))
}

/// For each phrase, whether it is found in `text`.
pub open spec fn match_flags(phrases: Seq<Seq<char>>, text: Seq<char>) -> Seq<bool> {
    Seq::new(phrases.len(), |i: int| phrase_matches(phrases[i], text))
}

/// The violation reported for a banned phrase, which it quotes as written.
pub open spec fn banned_message(phrase: Seq<char>) -> Seq<char> {
    "Banned phrase: '"@ + phrase + "'"@
}

/// The violation reported when risky text states no intent.
pub open spec fn intent_required_message() -> Seq<char> {
    "Risk detected: intent statement required"@
}

/// One message per phrase among the first `n` of `phrases` that `found`
/// marks, in the order of `phrases`.
pub open spec fn messages_for(phrases: Seq<Seq<char>>, found: Seq<bool>, n: nat) -> Seq<Seq<char>>
    decreases n,
{
    if n == 0 {
        Seq::empty()
    } else {
        let before = messages_for(phrases, found, (n - 1) as nat);
        if found[n - 1] {
            before.push(banned_message(phrases[n - 1]))
        } else {
            before
        }
    }
}

/// An intent is given and something is left of it once trimmed.
pub open spec fn intent_stated(intent: Option<Seq<char>>) -> bool {
    match intent {
        Some(s) => trim(s).len() > 0,
        None => false,
    }
}

/// The text is risky, the policy asks for an intent statement, and none is
/// stated.
pub open spec fn intent_missing(policy: PolicyView, risky: bool, intent: Option<Seq<char>>) -> bool {
    risky && policy.required_when_risky.require_intent_statement && !intent_stated(intent)
}

/// All violations, given which banned phrases were found and whether the text
/// is risky: those for banned phrases first, then the one for a missing
/// intent statement.
pub open spec fn violations_for(
    policy: PolicyView,
    banned: Seq<bool>,
    risky: bool,
    intent: Option<Seq<char>>,
) -> Seq<Seq<char>> {
    let messages = messages_for(policy.banned_phrases, banned, policy.banned_phrases.len());
    if intent_missing(policy, risky, intent) {
        messages.push(intent_required_message())
    } else {
        messages
    }
}

/// The summary line for a policy of the given name.
pub open spec fn summary_of(name: Seq<char>, ok: bool) -> Seq<char> {
    if ok {
        "Aligned with '"@ + name + "'"@
    } else {
        "Violations in '"@ + name + "'"@
    }
}

/// The result, given which banned phrases were found and whether the text is
/// risky.
pub open spec fn result_for(
    policy: PolicyView,
    banned: Seq<bool>,
    risky: bool,
    intent: Option<Seq<char>>,
) -> CheckResultView {
    let violations = violations_for(policy, banned, risky, intent);
    CheckResultView {
        ok: violations.len() == 0,
        summary: summary_of(policy.name, violations.len() == 0),
        violations,
        risky,
    }
}

/// The lower-case forms have a form for every banned phrase and every
/// trigger of the policy.
pub open spec fn fits(lowered: LoweredView, policy: PolicyView) -> bool {
    &&& lowered.banned_phrases.len() == policy.banned_phrases.len()
    &&& lowered.triggers.len() == policy.required_when_risky.triggers.len()
}

/// The result of an evaluation, given the lower-case forms it works on.
pub open spec fn evaluate_lowered(
    policy: PolicyView,
    lowered: LoweredView,
    intent: Option<Seq<char>>,
) -> CheckResultView {
    result_for(
        policy,
        found_flags(policy.banned_phrases, lowered.banned_phrases, lowered.text),
        found_flags(policy.required_when_risky.triggers, lowered.triggers, lowered.text).contains(
            true,
        ),
        intent,
    )
}

/// One message per phrase of `phrases` found in `text`, in the order of
/// `phrases`.
pub open spec fn banned_violations(phrases: Seq<Seq<char>>, text: Seq<char>) -> Seq<Seq<char>> {
    messages_for(phrases, match_flags(phrases, text), phrases.len())
}

/// Some trigger is found in `text`.
pub open spec fn is_risky(triggers: Seq<Seq<char>>, text: Seq<char>) -> bool {
    match_flags(triggers, text).contains(true)
}

/// The result of evaluating `text`, with the intent declared for it, against
/// `policy`.
pub open spec fn evaluate(
    policy: PolicyView,
    text: Seq<char>,
    intent: Option<Seq<char>>,
) -> CheckResultView {
    result_for(
        policy,
        match_flags(policy.banned_phrases, text),
        is_risky(policy.required_when_risky.triggers, text),
        intent,
    )
}

/// The lower-case form of each phrase, in order.
pub open spec fn lowercase_each(phrases: Seq<Seq<char>>) -> Seq<Seq<char>> {
    Seq::new(phrases.len(), |i: int| lowercase(phrases[i]))
}

/// The lower-case forms for evaluating `text` against `policy`.
pub open spec fn lowered_of(policy: PolicyView, text: Seq<char>) -> LoweredView {
    LoweredView {
        text: lowercase(text),
        banned_phrases: lowercase_each(policy.banned_phrases),
        triggers: lowercase_each(policy.required_when_risky.triggers),
    }
}

/// Each form in `lowered` is empty exactly when the phrase at its position
/// is.
pub open spec fn keeps_emptiness(phrases: Seq<Seq<char>>, lowered: Seq<Seq<char>>) -> bool {
    &&& lowered.len() == phrases.len()
    &&& forall|i: int|
        0 <= i < phrases.len() ==> ((#[trigger] lowered[i]).len() == 0 <==> phrases[i].len() == 0)
}

/// The text of an optional string.
pub open spec fn text_of(s: Option<&str>) -> Option<Seq<char>> {
    match s {
        Some(s) => Some(s@),
        None => None,
    }
}

/// Where lower-casing keeps emptiness, a phrase is found by its lower-case
/// form exactly when it is found in the text.
pub proof fn lemma_flags_agree(phrases: Seq<Seq<char>>, text: Seq<char>)
    requires
        keeps_emptiness(phrases, lowercase_each(phrases)),
    ensures
        found_flags(phrases, lowercase_each(phrases), lowercase(text)) == match_flags(
            phrases,
            text,
        ),
{
    let low = lowercase_each(phrases);
    assert forall|i: int| 0 <= i < phrases.len() implies found_in(
        lowercase(text),
        phrases[i],
        low[i],
    ) == phrase_matches(phrases[i], text) by {
        assert(low[i].len() == 0 <==> phrases[i].len() == 0);
    }
    assert(found_flags(phrases, low, lowercase(text)) =~= match_flags(phrases, text));
}

/// Whether a phrase is found in the text whose lower-case form is
/// `lowered_text`.
fn phrase_found(phrase: &str, lowered_phrase: &str, lowered_text: &Vec<char>) -> (b: bool)
    ensures
        b == found_in(lowered_text@, phrase@, lowered_phrase@),
{
    if phrase.is_empty() || lowered_phrase.is_empty() {
        return false;
    }
    let p = chars_of(lowered_phrase);
    contains(lowered_text, &p)
}

/// Whether some trigger is found. The search ends at the first one found.
fn any_trigger_found(triggers: &Vec<String>, lowered: &Vec<String>, lowered_text: &Vec<char>) -> (risky:
    bool)
    requires
        triggers.len() == lowered.len(),
    ensures
        risky == found_flags(texts_of(triggers@), texts_of(lowered@), lowered_text@).contains(true),
{
    let ghost flags = found_flags(texts_of(triggers@), texts_of(lowered@), lowered_text@);
    let mut i: usize = 0;
    while i < triggers.len()
        invariant
            i <= triggers.len(),
            triggers.len() == lowered.len(),
            flags == found_flags(texts_of(triggers@), texts_of(lowered@), lowered_text@),
            forall|k: int| 0 <= k < i ==> !flags[k],
        decreases triggers.len() - i,
    {
        if phrase_found(triggers[i].as_str(), lowered[i].as_str(), lowered_text) {
            assert(flags[i as int]);
            return true;
        }
        i += 1;
    }
    false
}

/// The lower-case form of each phrase, in order.
fn lower_each(phrases: &Vec<String>) -> (out: Vec<String>)
    ensures
        texts_of(out@) == lowercase_each(texts_of(phrases@)),
        keeps_emptiness(texts_of(phrases@), texts_of(out@)),
{
    let mut out: Vec<String> = Vec::new();
    let mut i: usize = 0;
    while i < phrases.len()
        invariant
            i <= phrases.len(),
            out.len() == i,
            forall|k: int| 0 <= k < i ==> (#[trigger] out@[k])@ == lowercase(phrases@[k]@),
            forall|k: int|
                0 <= k < i ==> ((#[trigger] out@[k])@.len() == 0 <==> phrases@[k]@.len() == 0),
        decreases phrases.len() - i,
    {
        out.push(to_lower(phrases[i].as_str()));
        i += 1;
    }
    assert(texts_of(out@) =~= lowercase_each(texts_of(phrases@)));
    assert forall|k: int| 0 <= k < phrases.len() implies ((#[trigger] texts_of(out@)[k]).len() == 0
        <==> texts_of(phrases@)[k].len() == 0) by {
        assert(texts_of(out@)[k] == out@[k]@);
    }
    out
}

/// The lower-case forms for evaluating `text` against `policy`. Each phrase's
/// form is empty exactly when the phrase is.
pub fn lower(policy: &Policy, text: &str) -> (lowered: Lowered)
    ensures
        lowered@ == lowered_of(policy@, text@),
        fits(lowered@, policy@),
        keeps_emptiness(policy@.banned_phrases, lowered@.banned_phrases),
        keeps_emptiness(policy@.required_when_risky.triggers, lowered@.triggers),
{
    Lowered {
        text: to_lower(text),
        banned_phrases: lower_each(&policy.banned_phrases),
        triggers: lower_each(&policy.required_when_risky.triggers),
    }
}

/// Evaluates a text against `policy`, given the lower-case forms of the text
/// and of the policy's phrases.
pub fn check_lowered(policy: &Policy, lowered: &Lowered, intent: Option<&str>) -> (result: CheckResult)
    requires
        fits(lowered@, policy@),
    ensures
        result@ == evaluate_lowered(policy@, lowered@, text_of(intent)),
        result.well_formed(),
{
    let text = chars_of(lowered.text.as_str());
    let ghost phrases = texts_of(policy.banned_phrases@);
    let ghost flags = found_flags(phrases, texts_of(lowered.banned_phrases@), text@);
    let mut violations: Vec<String> = Vec::new();
    let mut i: usize = 0;
    while i < policy.banned_phrases.len()
        invariant
            i <= policy.banned_phrases.len(),
            policy.banned_phrases.len() == lowered.banned_phrases.len(),
            phrases == texts_of(policy.banned_phrases@),
            flags == found_flags(phrases, texts_of(lowered.banned_phrases@), text@),
            text@ == lowered.text@,
            texts_of(violations@) == messages_for(phrases, flags, i as nat),
        decreases policy.banned_phrases.len() - i,
    {
        let phrase = policy.banned_phrases[i].as_str();
        if phrase_found(phrase, lowered.banned_phrases[i].as_str(), &text) {
            let mut message = "Banned phrase: '".to_owned();
            message.append(phrase);
            message.append("'");
            let ghost before = violations@;
            violations.push(message);
            assert(texts_of(violations@) =~= texts_of(before).push(banned_message(phrase@)));
        }
        i += 1;
    }
    let risky = any_trigger_found(&policy.required_when_risky.triggers, &lowered.triggers, &text);
    if risky && policy.required_when_risky.require_intent_statement {
        let stated = match intent {
            Some(s) => {
                let given = chars_of(s);
                let kept = trim_range(&given, 0, given.len());
                assert(given@.subrange(0, given.len() as int) =~= given@);
                kept.0 < kept.1
            },
            None => false,
        };
        if !stated {
            let ghost before = violations@;
            violations.push("Risk detected: intent statement required".to_owned());
            assert(texts_of(violations@) =~= texts_of(before).push(intent_required_message()));
        }
    }
    let ok = violations.len() == 0;
    let mut summary = if ok {
        "Aligned with '".to_owned()
    } else {
        "Violations in '".to_owned()
    };
    summary.append(policy.name.as_str());
    summary.append("'");
    CheckResult { ok, summary, violations, risky }
}

/// Evaluates `text`, with the intent declared for it, against `policy`. Of
/// the lower-case forms it also says that each phrase's form is empty exactly
/// when the phrase is, so that a phrase is found by its lower-case form
/// exactly when it is not empty and that form stands in the text's.
pub fn check_text(policy: &Policy, text: &str, intent: Option<&str>) -> (result: CheckResult)
    ensures
        result@ == evaluate(policy@, text@, text_of(intent)),
        result@ == evaluate_lowered(policy@, lowered_of(policy@, text@), text_of(intent)),
        result.well_formed(),
        keeps_emptiness(policy@.banned_phrases, lowercase_each(policy@.banned_phrases)),
        keeps_emptiness(
            policy@.required_when_risky.triggers,
            lowercase_each(policy@.required_when_risky.triggers),
        ),
{
    let lowered = lower(policy, text);
    proof {
        lemma_flags_agree(policy@.banned_phrases, text@);
        lemma_flags_agree(policy@.required_when_risky.triggers, text@);
    }
    check_lowered(policy, &lowered, intent)
}

} // verus!
