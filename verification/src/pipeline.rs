//! The pipeline: the guard against nested calls, then the six rewrite rules
//! in their fixed order, each working on what the one before it left.

use crate::engine::{
    find_groups, group_text, hits_view, regex_accepts, regex_captures, regex_gaps, scan,
    string_of, wholes, Hit,
};
use crate::rules::{Rule, NESTED_CALL_PATTERN};
use crate::text::{chars_of, push_str, texts, weave, weave_texts};
use vstd::prelude::*;

verus! {

/// What is reported when the engine refuses one of the patterns.
pub const PATTERN_ERROR: &'static str = "There was an error creating the regexes.";

/// The replacement of each match, in the order of the matches.
pub open spec fn replacements(rule: Rule, hits: Seq<Seq<Option<Seq<char>>>>) -> Seq<Seq<char>> {
    Seq::new(hits.len(), |i: int| rule.replacement(hits[i]))
}

/// The text in which each match has given way to its replacement: the gaps
/// woven with the replacements.
pub open spec fn rewritten(
    rule: Rule,
    gaps: Seq<Seq<char>>,
    hits: Seq<Seq<Option<Seq<char>>>>,
) -> Seq<char> {
    weave(gaps, replacements(rule, hits))
}

/// Whether the rule replaces each of the matches by the very text that was
/// matched. It does so wherever there is no match at all.
pub open spec fn inert(rule: Rule, hits: Seq<Seq<Option<Seq<char>>>>) -> bool {
    forall|i: int| 0 <= i < hits.len() ==> #[trigger] rule.replacement(hits[i]) == group_text(
        hits[i],
        0,
    )
}

/// Puts the text together again from the gaps between the matches and the
/// replacement of each match.
pub fn rewrite(rule: Rule, gaps: &Vec<Vec<char>>, hits: &Vec<Hit>) -> (r: Vec<char>)
    ensures
        r@ == rewritten(rule, texts(gaps@), hits_view(hits@)),
        inert(rule, hits_view(hits@)) ==> r@ == weave(texts(gaps@), wholes(hits_view(hits@))),
{
    let mut reps: Vec<Vec<char>> = Vec::new();
    let mut i: usize = 0;
    while i < hits.len()
        invariant
            i <= hits.len(),
            reps.len() == i,
            forall|k: int|
                0 <= k < i ==> (#[trigger] reps@[k])@ == rule.replacement(hits_view(hits@)[k]),
        decreases hits.len() - i,
    {
        let rep = rule.replace(&hits[i]);
        reps.push(rep);
        i += 1;
    }
    assert(texts(reps@) =~= replacements(rule, hits_view(hits@)));
    proof {
        if inert(rule, hits_view(hits@)) {
            assert(replacements(rule, hits_view(hits@)) =~= wholes(hits_view(hits@)));
        }
    }
    weave_texts(gaps, &reps)
}

/// What a rule makes of a text: every match of its pattern replaced, the
/// rest kept.
pub open spec fn pass_output(rule: Rule, text: Seq<char>) -> Seq<char> {
    rewritten(
        rule,
        regex_gaps(rule.pattern_text(), text),
        regex_captures(rule.pattern_text(), text),
    )
}

/// Applies one rule to the whole text. `None` is returned exactly when the
/// engine refuses the rule's pattern. A text in which the rule replaces every
/// match by itself comes back unchanged.
pub fn apply(rule: Rule, text: &Vec<char>) -> (r: Option<Vec<char>>)
    ensures
        r.is_some() == regex_accepts(rule.pattern_text()),
        r matches Some(t) ==> t@ == pass_output(rule, text@),
        r matches Some(t) ==> (inert(rule, regex_captures(rule.pattern_text(), text@)) ==> t@
            == text@),
{
    let pattern = rule.pattern();
    match scan(pattern, text) {
        None => None,
        Some(found) => Some(rewrite(rule, &found.gaps, &found.hits)),
    }
}

/// The error for a nested call, with the offending text.
pub open spec fn nested_call_message(near: Seq<char>) -> Seq<char> {
    "Cannot nest calls to functions inside calls to functions. (near .."@ + near + "..)"@
}

/// The error that the matches of the nested-call pattern call for: none
/// where there is no match, else the message with the first match in it.
pub open spec fn rejection_of(hits: Seq<Seq<Option<Seq<char>>>>) -> Option<Seq<char>> {
    if hits.len() == 0 {
        None
    } else {
        Some(nested_call_message(group_text(hits[0], 0)))
    }
}

/// Decides from the matches of the nested-call pattern whether the text is
/// rejected, and with which message.
pub fn rejection(hits: &Vec<Hit>) -> (r: Option<Vec<char>>)
    ensures
        match r {
            Some(m) => rejection_of(hits_view(hits@)) == Some(m@),
            None => rejection_of(hits_view(hits@)).is_none(),
        },
{
    if hits.len() == 0 {
        None
    } else {
        let mut m = chars_of("Cannot nest calls to functions inside calls to functions. (near ..");
        hits[0].push_group(&mut m, 0);
        push_str(&mut m, "..)");
        Some(m)
    }
}

/// Whether the engine accepts the pattern of every rule.
pub open spec fn rules_accepted() -> bool {
    &&& regex_accepts(Rule::Call.pattern_text())
    &&& regex_accepts(Rule::Param.pattern_text())
    &&& regex_accepts(Rule::Local.pattern_text())
    &&& regex_accepts(Rule::Literal.pattern_text())
    &&& regex_accepts(Rule::Read.pattern_text())
    &&& regex_accepts(Rule::Assign.pattern_text())
}

/// The six rules applied in their order, each to the output of the one
/// before.
pub open spec fn expanded(text: Seq<char>) -> Seq<char> {
    let flat = pass_output(Rule::Call, text);
    let params = pass_output(Rule::Param, flat);
    let locals = pass_output(Rule::Local, params);
    let literals = pass_output(Rule::Literal, locals);
    let reads = pass_output(Rule::Read, literals);
    pass_output(Rule::Assign, reads)
}

/// Whether no rule would change `text`: each replaces every match of its
/// pattern in `text` by the matched text itself. This holds of a text in
/// which no pattern finds anything.
pub open spec fn plain(text: Seq<char>) -> bool {
    forall|rule: Rule| #[trigger] inert(rule, regex_captures(rule.pattern_text(), text))
}

/// A text in which no pattern of a rule finds anything is plain.
pub proof fn lemma_no_match_is_plain(text: Seq<char>)
    requires
        forall|rule: Rule| #[trigger] regex_captures(rule.pattern_text(), text).len() == 0,
    ensures
        plain(text),
{
    assert forall|rule: Rule| #[trigger]
        inert(rule, regex_captures(rule.pattern_text(), text)) by {
        assert(regex_captures(rule.pattern_text(), text).len() == 0);
    }
}

/// What compiling `text` gives: the canonical text, or the message of the
/// error. A nested call is an error and nothing is rewritten; so is a
/// pattern that the engine refuses.
pub open spec fn compiled(text: Seq<char>) -> Result<Seq<char>, Seq<char>> {
    if !regex_accepts(NESTED_CALL_PATTERN@) {
        Err(PATTERN_ERROR@)
    } else if regex_captures(NESTED_CALL_PATTERN@, text).len() > 0 {
        Err(nested_call_message(group_text(regex_captures(NESTED_CALL_PATTERN@, text)[0], 0)))
    } else if !rules_accepted() {
        Err(PATTERN_ERROR@)
    } else {
        Ok(expanded(text))
    }
}

/// A text with a nested call is never compiled: the outcome is an error,
/// whatever else the text holds.
pub proof fn lemma_nested_call_fails(text: Seq<char>)
    ensures
        regex_captures(NESTED_CALL_PATTERN@, text).len() > 0 ==> compiled(text).is_err(),
{
}

/// The views of a result's two sides.
pub open spec fn result_view(r: Result<Vec<char>, Vec<char>>) -> Result<Seq<char>, Seq<char>> {
    match r {
        Ok(t) => Ok(t@),
        Err(e) => Err(e@),
    }
}

/// Compiles a document held as a character buffer. A plain document comes
/// back unchanged.
pub fn compile_text(text: &Vec<char>) -> (r: Result<Vec<char>, Vec<char>>)
    ensures
        result_view(r) == compiled(text@),
        compiled(text@).is_ok() && plain(text@) ==> result_view(r) == Ok::<
            Seq<char>,
            Seq<char>,
        >(text@),
{
    match find_groups(NESTED_CALL_PATTERN, text) {
        None => {
            return Err(chars_of(PATTERN_ERROR));
        },
        Some(nested) => {
            if let Some(message) = rejection(&nested) {
                return Err(message);
            }
        },
    }
    let flat = match apply(Rule::Call, text) {
        Some(t) => t,
        None => {
            return Err(chars_of(PATTERN_ERROR));
        },
    };
    let params = match apply(Rule::Param, &flat) {
        Some(t) => t,
        None => {
            return Err(chars_of(PATTERN_ERROR));
        },
    };
    let locals = match apply(Rule::Local, &params) {
        Some(t) => t,
        None => {
            return Err(chars_of(PATTERN_ERROR));
        },
    };
    let literals = match apply(Rule::Literal, &locals) {
        Some(t) => t,
        None => {
            return Err(chars_of(PATTERN_ERROR));
        },
    };
    let reads = match apply(Rule::Read, &literals) {
        Some(t) => t,
        None => {
            return Err(chars_of(PATTERN_ERROR));
        },
    };
    let sets = match apply(Rule::Assign, &reads) {
        Some(t) => t,
        None => {
            return Err(chars_of(PATTERN_ERROR));
        },
    };
    Ok(sets)
}

/// The views of a result's two sides.
pub open spec fn string_result_view(r: Result<String, String>) -> Result<Seq<char>, Seq<char>> {
    match r {
        Ok(t) => Ok(t@),
        Err(e) => Err(e@),
    }
}

/// Compiles a document: the canonical text, or the message of the error.
/// A plain document comes back unchanged.
pub fn compile(file: String) -> (r: Result<String, String>)
    ensures
        string_result_view(r) == compiled(file@),
        compiled(file@).is_ok() && plain(file@) ==> string_result_view(r) == Ok::<
            Seq<char>,
            Seq<char>,
        >(file@),
{
    let text = chars_of(file.as_str());
    match compile_text(&text) {
        Ok(t) => Ok(string_of(&t)),
        Err(e) => Err(string_of(&e)),
    }
}

} // verus!
