//! The file of settings: lines of `KEY=value`.

use crate::text::{
    first_occurrence, lemma_first_true, lines, lines_of, occurrence_flags, occurs_at, occurs_in,
    split_once, text_views, trim, trimmed,
};
use vstd::prelude::*;
use vstd::string::*;

verus! {

/// What follows the line that holds offset `from`: the text from the first
/// line feed at or after `from`, or nothing where the text ends first.
pub open spec fn from_line_end(content: Seq<char>, from: int) -> Seq<char> {
    let rest = content.subrange(from, content.len() as int);
    match first_occurrence(seq!['\n'], rest) {
        Some(at) => rest.subrange(at, rest.len() as int),
        None => Seq::empty(),
    }
}

/// The line feed that has to close the content before a line is appended.
pub open spec fn closing_line_feed(content: Seq<char>) -> Seq<char> {
    if content.len() > 0 && content.last() != '\n' {
        seq!['\n']
    } else {
        Seq::empty()
    }
}

/// The settings with `key` set to `value`. Where `key=` occurs, what stands
/// from its first occurrence to the end of that line is replaced; otherwise
/// a line is appended.
pub open spec fn updated_env(content: Seq<char>, key: Seq<char>, value: Seq<char>) -> Seq<char> {
    let prefix = key.push('=');
    match first_occurrence(prefix, content) {
        Some(at) => content.subrange(0, at) + prefix + value + from_line_end(content, at),
        None => content + closing_line_feed(content) + prefix + value + seq!['\n'],
    }
}

/// After an update the settings hold `key=value`, whatever they held
/// before.
pub proof fn law_update_writes_the_setting(content: Seq<char>, key: Seq<char>, value: Seq<char>)
    ensures
        occurs_in(key.push('=') + value, updated_env(content, key, value)),
{
    let prefix = key.push('=');
    let setting = prefix + value;
    let updated = updated_env(content, key, value);
    lemma_first_true(occurrence_flags(prefix, content));
    let at = match first_occurrence(prefix, content) {
        Some(at) => at,
        None => (content + closing_line_feed(content)).len() as int,
    };
    assert(updated.subrange(at, at + setting.len()) =~= setting);
    assert(occurs_at(setting, updated, at));
}

fn ends_with_line_feed(content: &str) -> (ends: bool)
    ensures
        ends == (content@.len() > 0 && content@.last() == '\n'),
{
    let length = content.unicode_len();
    if length == 0 {
        false
    } else {
        content.get_char(length - 1) == '\n'
    }
}

/// Sets `key` to `value` in the settings.
pub fn update_env_var(content: &mut String, key: &str, value: &str)
    ensures
        final(content)@ == updated_env(old(content)@, key@, value@),
{
    proof {
        reveal_strlit("=");
        reveal_strlit("\n");
        assert("="@ =~= seq!['=']);
        assert("\n"@ =~= seq!['\n']);
    }
    let mut prefix = String::from_str(key);
    prefix.append("=");
    assert(prefix@ =~= key@.push('='));
    let mut new_line = prefix.clone();
    new_line.append(value);
    match split_once(content.as_str(), prefix.as_str()) {
        Some((before, after)) => {
            let mut rest = prefix;
            rest.append(after.as_str());
            let ghost at = before@.len() as int;
            proof {
                assert(old(content)@.subrange(0, at) =~= before@);
                assert(old(content)@.subrange(at, old(content)@.len() as int) =~= rest@);
            }
            let mut updated = before;
            updated.append(new_line.as_str());
            match split_once(rest.as_str(), "\n") {
                Some((line, tail)) => {
                    updated.append("\n");
                    updated.append(tail.as_str());
                    proof {
                        assert(rest@.subrange(line@.len() as int, rest@.len() as int) =~= seq![
                            '\n',
                        ] + tail@);
                    }
                },
                None => {},
            }
            proof {
                assert(updated@ =~= updated_env(old(content)@, key@, value@));
            }
            *content = updated;
        },
        None => {
            if !content.as_str().is_empty() && !ends_with_line_feed(content.as_str()) {
                content.append("\n");
            }
            content.append(new_line.as_str());
            content.append("\n");
            proof {
                assert(content@ =~= updated_env(old(content)@, key@, value@));
            }
        },
    }
}

/// The setting that a line holds, if it holds one. Blank lines and lines
/// that start with `#` hold none, nor does a line without `=`. Key and
/// value are what stands before and after the first `=`, both trimmed.
pub open spec fn env_entry(line: Seq<char>) -> Option<(Seq<char>, Seq<char>)> {
    let text = trimmed(line);
    if text.len() == 0 || text[0] == '#' {
        None
    } else {
        match first_occurrence(seq!['='], text) {
            Some(at) => Some(
                (trimmed(text.subrange(0, at)), trimmed(text.subrange(at + 1, text.len() as int))),
            ),
            None => None,
        }
    }
}

/// The settings that the first `n` lines hold, in order.
pub open spec fn env_entries(lines: Seq<Seq<char>>, n: int) -> Seq<(Seq<char>, Seq<char>)>
    decreases n,
{
    if n <= 0 || n > lines.len() {
        Seq::empty()
    } else {
        match env_entry(lines[n - 1]) {
            Some(entry) => env_entries(lines, n - 1).push(entry),
            None => env_entries(lines, n - 1),
        }
    }
}

/// The views of a list of settings.
pub open spec fn pair_views(pairs: Seq<(String, String)>) -> Seq<(Seq<char>, Seq<char>)> {
    pairs.map_values(|pair: (String, String)| (pair.0@, pair.1@))
}

/// Reads the setting that one line holds.
pub fn parse_env_line(line: &str) -> (entry: Option<(String, String)>)
    ensures
        env_entry(line@) == match entry {
            Some(pair) => Some((pair.0@, pair.1@)),
            None => None,
        },
{
    proof {
        reveal_strlit("=");
        assert("="@ =~= seq!['=']);
    }
    let text = trim(line);
    if text.as_str().is_empty() || text.as_str().get_char(0) == '#' {
        return None;
    }
    match split_once(text.as_str(), "=") {
        Some((key, value)) => {
            proof {
                let at = key@.len() as int;
                assert(text@.subrange(0, at) =~= key@);
                assert(text@.subrange(at + 1, text@.len() as int) =~= value@);
            }
            Some((trim(key.as_str()), trim(value.as_str())))
        },
        None => None,
    }
}

/// Reads the settings of a file, line by line, in order.
pub fn parse_env(content: &str) -> (entries: Vec<(String, String)>)
    ensures
        pair_views(entries@) == env_entries(lines_of(content@), lines_of(content@).len() as int),
{
    let all = lines(content);
    let mut entries: Vec<(String, String)> = Vec::new();
    let mut i: usize = 0;
    while i < all.len()
        invariant
            i <= all.len(),
            text_views(all@) == lines_of(content@),
            pair_views(entries@) == env_entries(lines_of(content@), i as int),
        decreases all.len() - i,
    {
        let ghost before = pair_views(entries@);
        proof {
            assert(text_views(all@)[i as int] == all@[i as int]@);
        }
        match parse_env_line(all[i].as_str()) {
            Some(pair) => {
                let ghost view = (pair.0@, pair.1@);
                entries.push(pair);
                proof {
                    assert(pair_views(entries@) =~= before.push(view));
                }
            },
            None => {},
        }
        i = i + 1;
    }
    entries
}

} // verus!
