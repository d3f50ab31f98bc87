//! What holds of every evaluation, proved from the definitions in
//! `policy`.

use crate::chars::lowercase;
use crate::policy::banned_message;
use crate::policy::banned_violations;
use crate::policy::evaluate;
use crate::policy::intent_missing;
use crate::policy::intent_required_message;
use crate::policy::intent_stated;
use crate::policy::is_risky;
use crate::policy::match_flags;
use crate::policy::messages_for;
use crate::policy::phrase_matches;
use crate::policy::CheckResult;
use crate::policy::Policy;
use crate::text::has_substring;
use crate::text::is_blank;
use crate::text::lemma_blank_iff_trim_empty;
use vstd::prelude::*;

verus! {

/// The positions below `n` that `found` marks, in rising order.
pub open spec fn found_positions(found: Seq<bool>, n: nat) -> Seq<int>
    decreases n,
{
    if n == 0 {
        Seq::empty()
    } else {
        let before = found_positions(found, (n - 1) as nat);
        if found[n - 1] {
            before.push(n - 1)
        } else {
            before
        }
    }
}

/// The positions in `phrases` of the phrases found in `text`, in rising
/// order.
pub open spec fn matched_positions(phrases: Seq<Seq<char>>, text: Seq<char>) -> Seq<int> {
    found_positions(match_flags(phrases, text), phrases.len())
}

/// The messages for banned phrases are those of the phrases found, in the
/// order of the phrases: the `k`-th message is that of the `k`-th phrase
/// found, the positions of the phrases found rise, and every phrase found is
/// among them.
pub proof fn lemma_messages_order(phrases: Seq<Seq<char>>, found: Seq<bool>, n: nat)
    ensures
        messages_for(phrases, found, n).len() == found_positions(found, n).len(),
        forall|k: int|
            #![trigger found_positions(found, n)[k]]
            0 <= k < found_positions(found, n).len() ==> {
                let i = found_positions(found, n)[k];
                &&& 0 <= i < n
                &&& found[i]
                &&& messages_for(phrases, found, n)[k] == banned_message(phrases[i])
            },
        forall|k: int, l: int|
            0 <= k < l < found_positions(found, n).len() ==> found_positions(found, n)[k]
                < found_positions(found, n)[l],
        forall|i: int|
            0 <= i < n && #[trigger] found[i] ==> found_positions(found, n).contains(i),
    decreases n,
{
    if n > 0 {
        let m = (n - 1) as nat;
        lemma_messages_order(phrases, found, m);
        let before = found_positions(found, m);
        let now = found_positions(found, n);
        assert forall|i: int| 0 <= i < n && #[trigger] found[i] implies now.contains(i) by {
            if i < m {
                let k = choose|k: int| 0 <= k < before.len() && before[k] == i;
                assert(now[k] == i);
            } else {
                assert(now[now.len() - 1] == i);
            }
        }
        assert forall|k: int| #![trigger now[k]] 0 <= k < now.len() implies {
            let i = now[k];
            &&& 0 <= i < n
            &&& found[i]
            &&& messages_for(phrases, found, n)[k] == banned_message(phrases[i])
        } by {
            if k < before.len() {
                assert(now[k] == before[k]);
            }
        }
        assert forall|k: int, l: int| 0 <= k < l < now.len() implies now[k] < now[l] by {
            if l < before.len() {
                assert(now[k] == before[k] && now[l] == before[l]);
            } else {
                assert(now[k] == before[k]);
            }
        }
    }
}

/// A policy without banned phrases and without triggers finds every text
/// aligned: no violation, not risky, whatever the text and the intent.
pub proof fn lemma_no_rules_no_findings(policy: Policy, text: Seq<char>, intent: Option<Seq<char>>)
    requires
        policy@.banned_phrases.len() == 0,
        policy@.required_when_risky.triggers.len() == 0,
    ensures
        evaluate(policy@, text, intent).ok,
        evaluate(policy@, text, intent).violations == Seq::<Seq<char>>::empty(),
        !evaluate(policy@, text, intent).risky,
{
}

/// The empty phrase is found in no text, the empty text included.
pub proof fn lemma_empty_phrase_never_matches(text: Seq<char>)
    ensures
        !phrase_matches(Seq::<char>::empty(), text),
{
}

/// An empty banned phrase or trigger is as good as absent: without it the
/// same phrases are reported, in the same order, and the text is risky or
/// not as before.
pub proof fn lemma_empty_phrase_is_as_good_as_absent(
    phrases: Seq<Seq<char>>,
    text: Seq<char>,
    i: int,
)
    requires
        0 <= i < phrases.len(),
        phrases[i].len() == 0,
    ensures
        banned_violations(phrases.remove(i), text) == banned_violations(phrases, text),
        is_risky(phrases.remove(i), text) == is_risky(phrases, text),
{
    let rest = phrases.remove(i);
    lemma_removal(phrases, text, i, phrases.len());
    let all = match_flags(phrases, text);
    let fewer = match_flags(rest, text);
    if is_risky(phrases, text) {
        let k = choose|k: int| 0 <= k < all.len() && all[k] == true;
        let j = if k < i {
            k
        } else {
            k - 1
        };
        assert(rest[j] == phrases[k]);
        assert(fewer[j] == true);
    }
    if is_risky(rest, text) {
        let j = choose|j: int| 0 <= j < fewer.len() && fewer[j] == true;
        let k = if j < i {
            j
        } else {
            j + 1
        };
        assert(rest[j] == phrases[k]);
        assert(all[k] == true);
    }
}

/// The messages for the first `n` phrases, one of which, at `i`, is empty,
/// are the messages for the phrases before them without that one.
proof fn lemma_removal(phrases: Seq<Seq<char>>, text: Seq<char>, i: int, n: nat)
    requires
        0 <= i < n <= phrases.len(),
        phrases[i].len() == 0,
    ensures
        messages_for(phrases, match_flags(phrases, text), n) == messages_for(
            phrases.remove(i),
            match_flags(phrases.remove(i), text),
            (n - 1) as nat,
        ),
    decreases n,
{
    let rest = phrases.remove(i);
    if n - 1 == i {
        lemma_prefix_agrees(phrases, rest, text, i as nat);
    } else {
        lemma_removal(phrases, text, i, (n - 1) as nat);
        assert(rest[n - 2] == phrases[n - 1]);
    }
}

/// Two lists of phrases that agree on their first `n` phrases have the same
/// messages for them.
proof fn lemma_prefix_agrees(a: Seq<Seq<char>>, b: Seq<Seq<char>>, text: Seq<char>, n: nat)
    requires
        n <= a.len(),
        n <= b.len(),
        forall|k: int| 0 <= k < n ==> a[k] == b[k],
    ensures
        messages_for(a, match_flags(a, text), n) == messages_for(b, match_flags(b, text), n),
    decreases n,
{
    if n > 0 {
        lemma_prefix_agrees(a, b, text, (n - 1) as nat);
    }
}

/// A banned phrase that is not empty and stands in the text, whatever the
/// case of either, is reported: the violations hold its message, which quotes
/// it as written, and the text is not aligned.
pub proof fn lemma_banned_phrase_is_reported(
    policy: Policy,
    text: Seq<char>,
    intent: Option<Seq<char>>,
    i: int,
)
    requires
        0 <= i < policy@.banned_phrases.len(),
        policy@.banned_phrases[i].len() > 0,
        has_substring(lowercase(text), lowercase(policy@.banned_phrases[i])),
    ensures
        evaluate(policy@, text, intent).violations.contains(
            banned_message(policy@.banned_phrases[i]),
        ),
        !evaluate(policy@, text, intent).ok,
{
    let phrases = policy@.banned_phrases;
    let flags = match_flags(phrases, text);
    assert(flags[i]);
    lemma_messages_order(phrases, flags, phrases.len());
    let found = matched_positions(phrases, text);
    let k = choose|k: int| 0 <= k < found.len() && found[k] == i;
    let banned = banned_violations(phrases, text);
    assert(banned[k] == banned_message(phrases[i]));
    let all = evaluate(policy@, text, intent).violations;
    assert(all[k] == banned[k]);
}

/// Of two violations for banned phrases, the one that stands first belongs
/// to the phrase that the policy lists first.
pub proof fn lemma_violations_in_policy_order(
    policy: Policy,
    text: Seq<char>,
    intent: Option<Seq<char>>,
    k: int,
    l: int,
)
    requires
        0 <= k < l < banned_violations(policy@.banned_phrases, text).len(),
    ensures
        l < evaluate(policy@, text, intent).violations.len(),
        exists|i: int, j: int|
            {
                &&& 0 <= i < j < policy@.banned_phrases.len()
                &&& phrase_matches(policy@.banned_phrases[i], text)
                &&& phrase_matches(policy@.banned_phrases[j], text)
                &&& evaluate(policy@, text, intent).violations[k] == banned_message(
                    #[trigger] policy@.banned_phrases[i],
                )
                &&& evaluate(policy@, text, intent).violations[l] == banned_message(
                    #[trigger] policy@.banned_phrases[j],
                )
            },
{
    let phrases = policy@.banned_phrases;
    lemma_messages_order(phrases, match_flags(phrases, text), phrases.len());
    let found = matched_positions(phrases, text);
    let i = found[k];
    let j = found[l];
    assert(i < j);
    let all = evaluate(policy@, text, intent).violations;
    let banned = banned_violations(phrases, text);
    assert(all[k] == banned[k] && all[l] == banned[l]);
    assert(all[k] == banned_message(phrases[i]));
    assert(all[l] == banned_message(phrases[j]));
}

/// No message for a banned phrase reads like the one for a missing intent
/// statement.
pub proof fn lemma_messages_differ(phrase: Seq<char>)
    ensures
        banned_message(phrase) != intent_required_message(),
{
    reveal_strlit("Banned phrase: '");
    reveal_strlit("Risk detected: intent statement required");
    assert(banned_message(phrase)[0] == 'B');
    assert(intent_required_message()[0] == 'R');
}

/// A text is risky exactly when some trigger is not empty and stands in the
/// text, whatever the case of either.
pub proof fn lemma_risky_iff_trigger_contained(
    policy: Policy,
    text: Seq<char>,
    intent: Option<Seq<char>>,
)
    ensures
        evaluate(policy@, text, intent).risky <==> exists|i: int|
            0 <= i < policy@.required_when_risky.triggers.len() && (
            #[trigger] policy@.required_when_risky.triggers[i]).len() > 0 && has_substring(
                lowercase(text),
                lowercase(policy@.required_when_risky.triggers[i]),
            ),
{
    let triggers = policy@.required_when_risky.triggers;
    let flags = match_flags(triggers, text);
    if is_risky(triggers, text) {
        let i = choose|i: int| 0 <= i < flags.len() && flags[i] == true;
        assert(triggers[i].len() > 0 && has_substring(lowercase(text), lowercase(triggers[i])));
    }
    if exists|i: int|
        0 <= i < triggers.len() && (#[trigger] triggers[i]).len() > 0 && has_substring(
            lowercase(text),
            lowercase(triggers[i]),
        ) {
        let i = choose|i: int|
            0 <= i < triggers.len() && (#[trigger] triggers[i]).len() > 0 && has_substring(
                lowercase(text),
                lowercase(triggers[i]),
            );
        assert(flags[i] == true);
    }
}

/// The violation for a missing intent statement is reported exactly when the
/// text is risky, the policy asks for an intent statement, and the declared
/// intent is absent or blank. It then stands last and nowhere else. With an
/// intent that is not blank it is never reported.
pub proof fn lemma_intent_requirement(policy: Policy, text: Seq<char>, intent: Option<Seq<char>>)
    ensures
        intent_stated(intent) <==> intent is Some && !is_blank(intent->0),
        evaluate(policy@, text, intent).violations.contains(intent_required_message()) <==> {
            &&& evaluate(policy@, text, intent).risky
            &&& policy@.required_when_risky.require_intent_statement
            &&& (intent is None || is_blank(intent->0))
        },
        evaluate(policy@, text, intent).violations.contains(intent_required_message()) ==> {
            &&& !evaluate(policy@, text, intent).ok
            &&& evaluate(policy@, text, intent).violations.last() == intent_required_message()
            &&& forall|k: int|
                0 <= k < evaluate(policy@, text, intent).violations.len() - 1 ==> evaluate(
                    policy@,
                    text,
                    intent,
                ).violations[k] != intent_required_message()
        },
{
    if intent is Some {
        lemma_blank_iff_trim_empty(intent->0);
    }
    let phrases = policy@.banned_phrases;
    let banned = banned_violations(phrases, text);
    let all = evaluate(policy@, text, intent).violations;
    lemma_messages_order(phrases, match_flags(phrases, text), phrases.len());
    assert forall|k: int| 0 <= k < banned.len() implies banned[k]
        != intent_required_message() by {
        lemma_messages_differ(phrases[matched_positions(phrases, text)[k]]);
    }
    if intent_missing(policy@, is_risky(policy@.required_when_risky.triggers, text), intent) {
        assert(all =~= banned.push(intent_required_message()));
        assert(all[banned.len() as int] == intent_required_message());
        assert forall|k: int| 0 <= k < all.len() - 1 implies all[k]
            != intent_required_message() by {
            assert(all[k] == banned[k]);
        }
    } else {
        assert(all =~= banned);
    }
}

/// Evaluation is a function of its three arguments: two results for the same
/// policy, text and intent are equal in every field.
pub proof fn lemma_same_arguments_same_result(
    policy: Policy,
    text: Seq<char>,
    intent: Option<Seq<char>>,
    first: CheckResult,
    second: CheckResult,
)
    requires
        first@ == evaluate(policy@, text, intent),
        second@ == evaluate(policy@, text, intent),
    ensures
        first@ == second@,
        first.ok == second.ok,
        first.risky == second.risky,
        first.summary@ == second.summary@,
        first@.violations == second@.violations,
{
}

/// A result is aligned exactly when it holds no violation, and risky exactly
/// when a trigger is found in the text; the violations are those for banned
/// phrases, followed by the one for a missing intent statement where the
/// intent is missing, and by nothing else.
pub proof fn lemma_shape_of_result(policy: Policy, text: Seq<char>, intent: Option<Seq<char>>)
    ensures
        evaluate(policy@, text, intent).ok <==> evaluate(policy@, text, intent).violations.len()
            == 0,
        evaluate(policy@, text, intent).risky <==> is_risky(
            policy@.required_when_risky.triggers,
            text,
        ),
        evaluate(policy@, text, intent).violations == if intent_missing(
            policy@,
            evaluate(policy@, text, intent).risky,
            intent,
        ) {
            banned_violations(policy@.banned_phrases, text).push(intent_required_message())
        } else {
            banned_violations(policy@.banned_phrases, text)
        },
{
}

} // verus!
