//! The regular-expression engine, as far as the rewrite rules use it.
//!
//! Matching itself is the work of the `regex` crate. What it finds is handed
//! over as plain character buffers; what it returns for a given pattern and
//! text is given a name here, so that the rules can say exactly what they
//! build from it.

use crate::text::{texts, weave};
use vstd::prelude::*;

verus! {

/// One match of a pattern: the text of each capture group, the whole match
/// first. A group that took no part in the match is `None`.
pub struct Hit {
    pub groups: Vec<Option<Vec<char>>>,
}

/// The view of one capture group.
pub open spec fn group_view(g: Option<Vec<char>>) -> Option<Seq<char>> {
    match g {
        Some(t) => Some(t@),
        None => None,
    }
}

impl View for Hit {
    type V = Seq<Option<Seq<char>>>;

    open spec fn view(&self) -> Seq<Option<Seq<char>>> {
        self.groups@.map_values(|g: Option<Vec<char>>| group_view(g))
    }
}

/// The views of a list of matches.
pub open spec fn hits_view(hits: Seq<Hit>) -> Seq<Seq<Option<Seq<char>>>> {
    hits.map_values(|h: Hit| h@)
}

/// Capture group `i` of a match, `None` where the match has no such group or
/// the group took no part.
pub open spec fn group(hit: Seq<Option<Seq<char>>>, i: int) -> Option<Seq<char>> {
    if 0 <= i < hit.len() {
        hit[i]
    } else {
        None
    }
}

/// The text of capture group `i`, empty where `group` is `None`.
pub open spec fn group_text(hit: Seq<Option<Seq<char>>>, i: int) -> Seq<char> {
    match group(hit, i) {
        Some(t) => t,
        None => Seq::empty(),
    }
}

/// The whole text of each match.
pub open spec fn wholes(hits: Seq<Seq<Option<Seq<char>>>>) -> Seq<Seq<char>> {
    hits.map_values(|h: Seq<Option<Seq<char>>>| group_text(h, 0))
}

impl Hit {
    /// Capture group `i`, if the match has it.
    pub fn get(&self, i: usize) -> (r: Option<&Vec<char>>)
        ensures
            match r {
                Some(t) => group(self@, i as int) == Some(t@),
                None => group(self@, i as int).is_none(),
            },
    {
        if i < self.groups.len() {
            match &self.groups[i] {
                Some(t) => Some(t),
                None => None,
            }
        } else {
            None
        }
    }

    /// Appends the text of capture group `i` to `out`.
    pub fn push_group(&self, out: &mut Vec<char>, i: usize)
        ensures
            final(out)@ == old(out)@ + group_text(self@, i as int),
    {
        match self.get(i) {
            Some(t) => {
                crate::text::push_all(out, t);
            },
            None => {
                assert(old(out)@ + Seq::<char>::empty() =~= old(out)@);
            },
        }
    }
}

/// Whether the `regex` crate accepts `pattern` as a regular expression.
pub uninterp spec fn regex_accepts(pattern: Seq<char>) -> bool;

/// The successive non-overlapping matches of `pattern` in `text`, from left
/// to right, each with its capture groups.
pub uninterp spec fn regex_captures(pattern: Seq<char>, text: Seq<char>) -> Seq<
    Seq<Option<Seq<char>>>,
>;

/// The stretches of `text` that no match of `pattern` covers: what stands
/// before the first match, between each two, and after the last.
pub uninterp spec fn regex_gaps(pattern: Seq<char>, text: Seq<char>) -> Seq<Seq<char>>;

/// Calls `regex::Regex::new` on `pattern` and `Regex::captures_iter` on
/// `text`, and copies the text of every capture group of every match
/// (`Captures::iter`, `Match::as_str`).
///
/// Trusted: the result is `None` exactly when the pattern is refused, and
/// otherwise holds what the engine finds, which depends on the pattern and
/// the text alone.
#[verifier::external_body]
pub(crate) fn find_groups(pattern: &str, text: &Vec<char>) -> (r: Option<Vec<Hit>>)
    ensures
        r.is_some() == regex_accepts(pattern@),
        r matches Some(hits) ==> hits_view(hits@) == regex_captures(pattern@, text@),
{
    let hay: String = text.iter().collect();
    match regex::Regex::new(pattern) {
        Ok(re) => Some(
            re.captures_iter(&hay).map(
                |c| Hit {
                    groups: c.iter().map(|g| g.map(|m| m.as_str().chars().collect())).collect(),
                },
            ).collect(),
        ),
        Err(_) => None,
    }
}

/// Calls `regex::Regex::new` on `pattern` and `Regex::split` on `text`, and
/// copies the pieces.
///
/// Trusted: the result is `None` exactly when the pattern is refused, and
/// otherwise holds the pieces of the text between the matches. `split` cuts
/// the text at the same matches that `captures_iter` reports and yields a
/// piece before each match and one after the last, so the pieces woven with
/// the matched texts give the text back.
#[verifier::external_body]
pub(crate) fn split_around(pattern: &str, text: &Vec<char>) -> (r: Option<Vec<Vec<char>>>)
    ensures
        r.is_some() == regex_accepts(pattern@),
        r matches Some(gaps) ==> texts(gaps@) == regex_gaps(pattern@, text@),
        r matches Some(gaps) ==> weave(texts(gaps@), wholes(regex_captures(pattern@, text@)))
            == text@,
{
    let hay: String = text.iter().collect();
    match regex::Regex::new(pattern) {
        Ok(re) => Some(re.split(&hay).map(|p| p.chars().collect()).collect()),
        Err(_) => None,
    }
}

/// What matching a pattern throughout a text gives: the matches from left
/// to right, and the stretches of text around them.
pub struct Scan {
    pub gaps: Vec<Vec<char>>,
    pub hits: Vec<Hit>,
}

/// Matches `pattern` throughout `text`. `None` is returned exactly when the
/// engine refuses the pattern. The gaps woven with the matched texts are the
/// text again: matching neither drops nor changes a character.
pub fn scan(pattern: &str, text: &Vec<char>) -> (r: Option<Scan>)
    ensures
        r.is_some() == regex_accepts(pattern@),
        r matches Some(found) ==> {
            &&& hits_view(found.hits@) == regex_captures(pattern@, text@)
            &&& texts(found.gaps@) == regex_gaps(pattern@, text@)
            &&& weave(texts(found.gaps@), wholes(hits_view(found.hits@))) == text@
        },
{
    match find_groups(pattern, text) {
        None => None,
        Some(hits) => match split_around(pattern, text) {
            None => None,
            Some(gaps) => Some(Scan { gaps, hits }),
        },
    }
}

/// Calls `String::from_iter` on the characters of `text`.
///
/// Trusted: the string holds the same characters in the same order.
#[verifier::external_body]
pub(crate) fn string_of(text: &Vec<char>) -> (r: String)
    ensures
        r@ == text@,
{
    String::from_iter(text.iter())
}

} // verus!
