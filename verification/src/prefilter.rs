//! The text pre-filter: takes the plain lines about minions that never
//! answered out of a report, before the rest is decoded as JSON.

use vstd::prelude::*;
use regex::Regex;

verus! {

#[verifier::external_type_specification]
#[verifier::external_body]
pub struct ExRegexError(regex::Error);

/// Whether `regex::Regex::new` accepts the pattern.
pub uninterp spec fn pattern_is_valid(pattern: Seq<char>) -> bool;

/// What the first capture group holds in each match of the pattern in the
/// text, match by match from the left, as `regex::Regex::captures_iter`
/// finds them with the pattern compiled by `regex::Regex::new`; `None` for a
/// match in which the group took no part.
pub uninterp spec fn captured_groups(pattern: Seq<char>, text: Seq<char>) -> Seq<
    Option<Seq<char>>,
>;

/// The text with every match of the pattern cut out, as
/// `regex::Regex::replace_all` leaves it with the pattern compiled by
/// `regex::Regex::new` and an empty replacement.
pub uninterp spec fn without_matches(pattern: Seq<char>, text: Seq<char>) -> Seq<char>;

/// The line that reports a minion that did not answer.
pub const DID_NOT_RESPOND_PATTERN: &'static str =
    r"(?m)^Minion (\S*) did not respond\. No job will be sent\.$";

/// The line that reports a minion whose key was already deleted.
pub const DELETED_MINION_PATTERN: &'static str =
    r"(?m)^minion (\S*) was already deleted from tracker, probably a duplicate key$";

/// The texts of a list of strings.
pub open spec fn texts(names: Seq<String>) -> Seq<Seq<char>> {
    names.map_values(|s: String| s@)
}

/// The texts of a list of strings of which some may be missing.
pub open spec fn group_texts(groups: Seq<Option<String>>) -> Seq<Option<Seq<char>>> {
    groups.map_values(
        |group: Option<String>|
            match group {
                Some(name) => Some(name@),
                None => None,
            },
    )
}

/// The names among captured groups: every group that is there, in order.
pub open spec fn names_in(groups: Seq<Option<Seq<char>>>) -> Seq<Seq<char>>
    decreases groups.len(),
{
    if groups.len() == 0 {
        Seq::empty()
    } else {
        match groups.last() {
            Some(name) => names_in(groups.drop_last()).push(name),
            None => names_in(groups.drop_last()),
        }
    }
}

/// The names that the pattern captures in the text, match by match.
pub open spec fn captured_names(pattern: Seq<char>, text: Seq<char>) -> Seq<Seq<char>> {
    names_in(captured_groups(pattern, text))
}

/// Compiles the pattern with `regex::Regex::new` and applies it to the text
/// twice: `captures_iter` for the text of the first capture group of each
/// match, where the match has one, and `replace_all` with an empty
/// replacement for what is left. The contract claims that the pattern alone
/// decides whether it compiles, and that pattern and text alone decide both
/// results.
#[verifier::external_body]
fn apply_pattern(pattern: &str, text: &str) -> (r: Result<
    (Vec<Option<String>>, String),
    regex::Error,
>)
    ensures
        match r {
            Ok(found) => {
                &&& pattern_is_valid(pattern@)
                &&& group_texts(found.0@) == captured_groups(pattern@, text@)
                &&& found.1@ == without_matches(pattern@, text@)
            },
            Err(_) => !pattern_is_valid(pattern@),
        },
{
    let re = Regex::new(pattern)?;
    let groups = re.captures_iter(text).map(
        |found| found.get(1).map(|group| group.as_str().to_string()),
    ).collect();
    Ok((groups, re.replace_all(text, "").into_owned()))
}

/// Keeps the names among captured groups: every group that is there, in
/// order.
pub fn names_of(groups: Vec<Option<String>>) -> (names: Vec<String>)
    ensures
        texts(names@) == names_in(group_texts(groups@)),
{
    let ghost all = group_texts(groups@);
    let mut names: Vec<String> = Vec::new();
    assert(texts(names@) =~= Seq::<Seq<char>>::empty());
    for group in it: groups
        invariant
            it.seq() == groups@,
            all == group_texts(groups@),
            texts(names@) == names_in(all.take(it.index() as int)),
    {
        let ghost done = all.take(it.index() as int);
        let ghost next = all.take(it.index() + 1);
        let ghost before = names@;
        assert(next.drop_last() =~= done);
        assert(next.last() == all[it.index() as int]);
        match group {
            Some(name) => {
                names.push(name);
                assert(texts(names@) =~= texts(before).push(name@));
            },
            None => {},
        }
    }
    assert(all.take(all.len() as int) =~= all);
    names
}

/// The names that one pattern took out of a text, and what it left.
#[derive(Debug)]
pub struct Extraction {
    pub names: Vec<String>,
    pub rest: String,
}

/// Applies one line pattern to a text: collects the name in each matching
/// line and cuts those lines out. Fails exactly when the pattern does not
/// compile.
pub fn extract(pattern: &str, text: &str) -> (r: Option<Extraction>)
    ensures
        r.is_some() == pattern_is_valid(pattern@),
        r matches Some(e) ==> {
            &&& texts(e.names@) == captured_names(pattern@, text@)
            &&& e.rest@ == without_matches(pattern@, text@)
        },
{
    match apply_pattern(pattern, text) {
        Ok(found) => Some(Extraction { names: names_of(found.0), rest: found.1 }),
        Err(_) => None,
    }
}

/// Both line patterns compile.
pub open spec fn patterns_are_valid() -> bool {
    pattern_is_valid(DID_NOT_RESPOND_PATTERN@) && pattern_is_valid(DELETED_MINION_PATTERN@)
}

/// The names in the lines about minions that did not respond.
pub open spec fn silent_names(text: Seq<char>) -> Seq<Seq<char>> {
    captured_names(DID_NOT_RESPOND_PATTERN@, text)
}

/// The names in the lines about deleted minions, looked for once the lines
/// about silent minions are gone.
pub open spec fn deleted_names(text: Seq<char>) -> Seq<Seq<char>> {
    captured_names(DELETED_MINION_PATTERN@, without_matches(DID_NOT_RESPOND_PATTERN@, text))
}

/// What is left of a report once both kinds of lines are cut out.
pub open spec fn cleaned_text(text: Seq<char>) -> Seq<char> {
    without_matches(DELETED_MINION_PATTERN@, without_matches(DID_NOT_RESPOND_PATTERN@, text))
}

/// A report taken apart: the minions that did not respond, the minions that
/// were deleted, and the text that is left for the JSON decoder.
#[derive(Debug)]
pub struct Prefiltered {
    pub did_not_respond: Vec<String>,
    pub deleted: Vec<String>,
    pub cleaned: String,
}

/// Takes the lines of both patterns out of a raw report. Fails exactly when
/// one of the two patterns does not compile.
pub fn prefilter(text: &str) -> (r: Option<Prefiltered>)
    ensures
        r.is_some() == patterns_are_valid(),
        r matches Some(p) ==> {
            &&& texts(p.did_not_respond@) == silent_names(text@)
            &&& texts(p.deleted@) == deleted_names(text@)
            &&& p.cleaned@ == cleaned_text(text@)
        },
{
    let silent = match extract(DID_NOT_RESPOND_PATTERN, text) {
        Some(e) => e,
        None => {
            return None;
        },
    };
    let deleted = match extract(DELETED_MINION_PATTERN, silent.rest.as_str()) {
        Some(e) => e,
        None => {
            return None;
        },
    };
    Some(
        Prefiltered { did_not_respond: silent.names, deleted: deleted.names, cleaned: deleted.rest },
    )
}

} // verus!
