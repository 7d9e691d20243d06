//! Text helpers shared by the rule engines: searching, lowercasing,
//! splitting and trimming, decimal rendering and joining of names.
//!
//! Seven functions here hand a text to the standard library: `lowercase`,
//! `contains`, `split_once`, `strip_prefix`, `strip_suffix`, `trim` and
//! `lines`. Their contracts are believed, not proved. Where the standard
//! library documents the result in a sentence, the contract states it; where
//! the result rests on Unicode tables, the contract gives it a name.

use vstd::prelude::*;
use vstd::string::*;

verus! {

/// `needle` stands in `hay` at character offset `at`.
pub open spec fn occurs_at(needle: Seq<char>, hay: Seq<char>, at: int) -> bool {
    &&& 0 <= at
    &&& at + needle.len() <= hay.len()
    &&& hay.subrange(at, at + needle.len()) == needle
}

/// `needle` occurs somewhere in `hay` as a contiguous run of characters.
pub open spec fn occurs_in(needle: Seq<char>, hay: Seq<char>) -> bool {
    exists|at: int| occurs_at(needle, hay, at)
}

/// The lowercase form that `str::to_lowercase` gives for a text.
pub uninterp spec fn lowercase_of(text: Seq<char>) -> Seq<char>;

/// Calls `str::to_lowercase`. The result is a function of the text alone
/// (the Unicode lowercase mapping); it is named, not spelled out.
#[verifier::external_body]
pub(crate) fn lowercase(text: &str) -> (lower: String)
    ensures
        lower@ == lowercase_of(text@),
{
    text.to_lowercase()
}

/// Calls `str::contains` with a string pattern: true exactly when the
/// pattern matches a sub-slice of the text.
#[verifier::external_body]
pub(crate) fn contains(hay: &str, needle: &str) -> (found: bool)
    ensures
        found == occurs_in(needle@, hay@),
{
    hay.contains(needle)
}

/// Whether two texts are the same, character by character.
pub fn same_text(left: &str, right: &str) -> (same: bool)
    ensures
        same == (left@ == right@),
{
    let left_owned = String::from_str(left);
    let right_owned = String::from_str(right);
    left_owned == right_owned
}

/// The text of an optional string, or a fallback where there is none.
pub open spec fn text_or(text: Option<String>, fallback: Seq<char>) -> Seq<char> {
    match text {
        Some(text) => text@,
        None => fallback,
    }
}

/// The optional string, or a fallback where there is none.
pub fn unwrap_or_text(text: Option<String>, fallback: &str) -> (chosen: String)
    ensures
        chosen@ == text_or(text, fallback@),
{
    match text {
        Some(text) => text,
        None => String::from_str(fallback),
    }
}

/// Index of the first `true` at or after `from`, if there is one.
pub open spec fn first_true_from(flags: Seq<bool>, from: int) -> Option<int>
    decreases flags.len() - from,
{
    if from < 0 || from >= flags.len() {
        None
    } else if flags[from] {
        Some(from)
    } else {
        first_true_from(flags, from + 1)
    }
}

/// Index of the first `true`, if there is one.
pub open spec fn first_true(flags: Seq<bool>) -> Option<int> {
    first_true_from(flags, 0)
}

proof fn lemma_first_true_from(flags: Seq<bool>, from: int)
    requires
        0 <= from,
    ensures
        match first_true_from(flags, from) {
            Some(i) => from <= i < flags.len() && flags[i] && forall|j: int|
                from <= j < i ==> !#[trigger] flags[j],
            None => forall|j: int| from <= j < flags.len() ==> !#[trigger] flags[j],
        },
    decreases flags.len() - from,
{
    if from < flags.len() && !flags[from] {
        lemma_first_true_from(flags, from + 1);
    }
}

/// `first_true` names an index that holds `true` while no earlier one does;
/// it names none only where all are `false`.
pub proof fn lemma_first_true(flags: Seq<bool>)
    ensures
        match first_true(flags) {
            Some(i) => 0 <= i < flags.len() && flags[i] && forall|j: int|
                0 <= j < i ==> !#[trigger] flags[j],
            None => forall|j: int| 0 <= j < flags.len() ==> !#[trigger] flags[j],
        },
{
    lemma_first_true_from(flags, 0);
}

/// An index that holds `true` while no earlier one does is the first.
pub proof fn lemma_first_true_is(flags: Seq<bool>, i: int)
    requires
        0 <= i < flags.len(),
        flags[i],
        forall|j: int| 0 <= j < i ==> !#[trigger] flags[j],
    ensures
        first_true(flags) == Some(i),
{
    lemma_first_true(flags);
}

/// Index of the first text that `needle` occurs in, if there is one.
pub open spec fn first_containing(texts: Seq<Seq<char>>, needle: Seq<char>) -> Option<int> {
    first_true(texts.map_values(|text: Seq<char>| occurs_in(needle, text)))
}

/// Index of the first of `needles` that occurs in `hay`, if there is one.
pub open spec fn first_contained(needles: Seq<Seq<char>>, hay: Seq<char>) -> Option<int> {
    first_true(needles.map_values(|needle: Seq<char>| occurs_in(needle, hay)))
}

/// The views of a list of strings.
pub open spec fn text_views(texts: Seq<String>) -> Seq<Seq<char>> {
    texts.map_values(|text: String| text@)
}

/// Finds the first text that `needle` occurs in.
pub fn find_first_containing(texts: &Vec<String>, needle: &str) -> (found: Option<usize>)
    ensures
        first_containing(text_views(texts@), needle@) == match found {
            Some(i) => Some(i as int),
            None => None,
        },
{
    let ghost flags = text_views(texts@).map_values(|text: Seq<char>| occurs_in(needle@, text));
    let mut i: usize = 0;
    while i < texts.len()
        invariant
            i <= texts.len(),
            flags == text_views(texts@).map_values(|text: Seq<char>| occurs_in(needle@, text)),
            first_true(flags) == first_true_from(flags, i as int),
        decreases texts.len() - i,
    {
        if contains(texts[i].as_str(), needle) {
            return Some(i);
        }
        i = i + 1;
    }
    None
}

/// Finds the first of `needles` that occurs in `hay`.
pub fn find_first_contained(needles: &Vec<String>, hay: &str) -> (found: Option<usize>)
    ensures
        first_contained(text_views(needles@), hay@) == match found {
            Some(i) => Some(i as int),
            None => None,
        },
{
    let ghost flags = text_views(needles@).map_values(|needle: Seq<char>| occurs_in(needle, hay@));
    let mut i: usize = 0;
    while i < needles.len()
        invariant
            i <= needles.len(),
            flags == text_views(needles@).map_values(|needle: Seq<char>| occurs_in(needle, hay@)),
            first_true(flags) == first_true_from(flags, i as int),
        decreases needles.len() - i,
    {
        if contains(hay, needles[i].as_str()) {
            return Some(i);
        }
        i = i + 1;
    }
    None
}

/// The parts written one after another, with `sep` between neighbours.
pub open spec fn joined(parts: Seq<Seq<char>>, sep: Seq<char>) -> Seq<char>
    decreases parts.len(),
{
    if parts.len() == 0 {
        Seq::empty()
    } else if parts.len() == 1 {
        parts[0]
    } else {
        joined(parts.drop_last(), sep) + sep + parts.last()
    }
}

/// Joins the parts with `sep` between neighbours.
pub fn join(parts: &Vec<String>, sep: &str) -> (text: String)
    ensures
        text@ == joined(text_views(parts@), sep@),
{
    let mut text = String::new();
    let mut i: usize = 0;
    while i < parts.len()
        invariant
            i <= parts.len(),
            text@ == joined(text_views(parts@).take(i as int), sep@),
        decreases parts.len() - i,
    {
        let ghost before = text_views(parts@).take(i as int);
        let ghost after = text_views(parts@).take(i + 1);
        proof {
            assert(after.drop_last() =~= before);
            assert(after.last() == parts@[i as int]@);
        }
        if i > 0 {
            text.append(sep);
        }
        text.append(parts[i].as_str());
        proof {
            assert(text@ =~= joined(after, sep@));
        }
        i = i + 1;
    }
    proof {
        assert(text_views(parts@).take(i as int) =~= text_views(parts@));
    }
    text
}

/// For each offset of `hay`, its end counted, whether `needle` stands there.
pub open spec fn occurrence_flags(needle: Seq<char>, hay: Seq<char>) -> Seq<bool> {
    Seq::new(hay.len() + 1, |at: int| occurs_at(needle, hay, at))
}

/// The offset at which `needle` first stands in `hay`, if it occurs.
pub open spec fn first_occurrence(needle: Seq<char>, hay: Seq<char>) -> Option<int> {
    first_true(occurrence_flags(needle, hay))
}

/// Calls `str::split_once` with a string delimiter: the text before the
/// first occurrence of the delimiter and the text after it, or `None` where
/// the delimiter does not occur.
#[verifier::external_body]
pub(crate) fn split_once(text: &str, delimiter: &str) -> (parts: Option<(String, String)>)
    ensures
        match parts {
            Some((before, after)) => first_occurrence(delimiter@, text@) == Some(
                before@.len() as int,
            ) && text@ == before@ + delimiter@ + after@,
            None => first_occurrence(delimiter@, text@) is None,
        },
{
    match text.split_once(delimiter) {
        Some((before, after)) => Some((before.to_string(), after.to_string())),
        None => None,
    }
}

/// Calls `str::strip_prefix` with a string prefix: the text without the
/// prefix, or `None` where the text does not start with it.
#[verifier::external_body]
pub(crate) fn strip_prefix(text: &str, prefix: &str) -> (rest: Option<String>)
    ensures
        match rest {
            Some(rest) => text@ == prefix@ + rest@,
            None => !prefix@.is_prefix_of(text@),
        },
{
    match text.strip_prefix(prefix) {
        Some(rest) => Some(rest.to_string()),
        None => None,
    }
}

/// Calls `str::strip_suffix` with a string suffix: the text without the
/// suffix, or `None` where the text does not end with it.
#[verifier::external_body]
pub(crate) fn strip_suffix(text: &str, suffix: &str) -> (rest: Option<String>)
    ensures
        match rest {
            Some(rest) => text@ == rest@ + suffix@,
            None => !suffix@.is_suffix_of(text@),
        },
{
    match text.strip_suffix(suffix) {
        Some(rest) => Some(rest.to_string()),
        None => None,
    }
}

/// What `str::trim` leaves of a text.
pub uninterp spec fn trimmed(text: Seq<char>) -> Seq<char>;

/// Calls `str::trim`, which removes leading and trailing whitespace as
/// Unicode defines it. The result is a function of the text alone; it is
/// named, not spelled out.
#[verifier::external_body]
pub(crate) fn trim(text: &str) -> (rest: String)
    ensures
        rest@ == trimmed(text@),
{
    text.trim().to_string()
}

/// The lines that `str::lines` finds in a text.
pub uninterp spec fn lines_of(text: Seq<char>) -> Seq<Seq<char>>;

/// Calls `str::lines`, which splits at line feeds, drops a carriage return
/// before each and an empty last line. The result is a function of the text
/// alone; it is named, not spelled out.
#[verifier::external_body]
pub(crate) fn lines(text: &str) -> (found: Vec<String>)
    ensures
        text_views(found@) == lines_of(text@),
{
    let mut found = Vec::new();
    for line in text.lines() {
        found.push(line.to_string());
    }
    found
}

/// The character of one decimal digit.
pub open spec fn digit_char(digit: nat) -> char {
    if digit == 0 {
        '0'
    } else if digit == 1 {
        '1'
    } else if digit == 2 {
        '2'
    } else if digit == 3 {
        '3'
    } else if digit == 4 {
        '4'
    } else if digit == 5 {
        '5'
    } else if digit == 6 {
        '6'
    } else if digit == 7 {
        '7'
    } else if digit == 8 {
        '8'
    } else {
        '9'
    }
}

/// The decimal numeral of `n`, most significant digit first, no leading zero.
pub open spec fn decimal_text(n: nat) -> Seq<char>
    decreases n,
{
    if n < 10 {
        seq![digit_char(n)]
    } else {
        decimal_text(n / 10).push(digit_char(n % 10))
    }
}

fn digit_str(digit: u64) -> (text: &'static str)
    requires
        digit < 10,
    ensures
        text@ == seq![digit_char(digit as nat)],
{
    proof {
        reveal_strlit("0");
        reveal_strlit("1");
        reveal_strlit("2");
        reveal_strlit("3");
        reveal_strlit("4");
        reveal_strlit("5");
        reveal_strlit("6");
        reveal_strlit("7");
        reveal_strlit("8");
        reveal_strlit("9");
    }
    let text = if digit == 0 {
        "0"
    } else if digit == 1 {
        "1"
    } else if digit == 2 {
        "2"
    } else if digit == 3 {
        "3"
    } else if digit == 4 {
        "4"
    } else if digit == 5 {
        "5"
    } else if digit == 6 {
        "6"
    } else if digit == 7 {
        "7"
    } else if digit == 8 {
        "8"
    } else {
        "9"
    };
    assert(text@ =~= seq![digit_char(digit as nat)]);
    text
}

/// Renders `n` in decimal.
pub fn decimal_string(n: u64) -> (text: String)
    ensures
        text@ == decimal_text(n as nat),
    decreases n,
{
    if n < 10 {
        String::from_str(digit_str(n))
    } else {
        let mut text = decimal_string(n / 10);
        text.append(digit_str(n % 10));
        assert(text@ =~= decimal_text(n as nat));
        text
    }
}

} // verus!
