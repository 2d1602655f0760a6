//! The configuration file: lines of `key = value`, with blank lines and
//! lines that begin with `#` skipped, and the `~` that a file name may
//! begin with.

use crate::namer::joined;
use crate::result::FdownError;
use crate::text::{chars_of, push_chars, string_of};
use vstd::prelude::*;

verus! {

/// Whether `c` is white space, as Unicode's property `White_Space` has it.
pub open spec fn is_white(c: char) -> bool {
    ||| '\u{9}' <= c <= '\u{d}'
    ||| c == ' '
    ||| c == '\u{85}'
    ||| c == '\u{a0}'
    ||| c == '\u{1680}'
    ||| '\u{2000}' <= c <= '\u{200a}'
    ||| c == '\u{2028}'
    ||| c == '\u{2029}'
    ||| c == '\u{202f}'
    ||| c == '\u{205f}'
    ||| c == '\u{3000}'
}

fn white(c: char) -> (r: bool)
    ensures
        r == is_white(c),
{
    ('\u{9}' <= c && c <= '\u{d}') || c == ' ' || c == '\u{85}' || c == '\u{a0}' || c
        == '\u{1680}' || ('\u{2000}' <= c && c <= '\u{200a}') || c == '\u{2028}' || c
        == '\u{2029}' || c == '\u{202f}' || c == '\u{205f}' || c == '\u{3000}'
}

/// The first place from `from` on, and before `to`, at which `s` holds no
/// white space; `to` where there is none.
pub open spec fn skip_white(s: Seq<char>, from: int, to: int) -> int
    decreases to - from,
{
    if from < to && is_white(s[from]) {
        skip_white(s, from + 1, to)
    } else {
        from
    }
}

/// The place down from `to`, and not below `from`, before which `s` holds
/// no white space.
pub open spec fn back_white(s: Seq<char>, from: int, to: int) -> int
    decreases to - from,
{
    if from < to && is_white(s[to - 1]) {
        back_white(s, from, to - 1)
    } else {
        to
    }
}

/// `s[from..to]` without the white space at its two ends.
pub open spec fn trimmed(s: Seq<char>, from: int, to: int) -> Seq<char> {
    let start = skip_white(s, from, to);
    s.subrange(start, back_white(s, start, to))
}

/// The first place from `from` on at which `s` holds `c`; the length of
/// `s` where there is none.
pub open spec fn first_index(s: Seq<char>, c: char, from: int) -> int
    decreases s.len() - from,
{
    if from < s.len() && s[from] != c {
        first_index(s, c, from + 1)
    } else {
        from
    }
}

/// `first_index` lies between `from` and the end.
pub proof fn lemma_first_index(s: Seq<char>, c: char, from: int)
    requires
        0 <= from <= s.len(),
    ensures
        from <= first_index(s, c, from) <= s.len(),
        first_index(s, c, from) < s.len() ==> s[first_index(s, c, from)] == c,
    decreases s.len() - from,
{
    if from < s.len() && s[from] != c {
        lemma_first_index(s, c, from + 1);
    }
}

/// The key and the value of a line: what stands before its first `=` and
/// what stands after it, each without the white space at its ends.
pub open spec fn key_and_value(line: Seq<char>) -> Option<(Seq<char>, Seq<char>)> {
    let at = first_index(line, '=', 0);
    if at < line.len() {
        Some((trimmed(line, 0, at), trimmed(line, at + 1, line.len() as int)))
    } else {
        None
    }
}

/// Whether a line is skipped: it is blank or begins, after white space,
/// with `#`.
pub open spec fn is_skipped(line: Seq<char>) -> bool {
    let content = trimmed(line, 0, line.len() as int);
    content.len() == 0 || content[0] == '#'
}

fn trim_bounds(chars: &Vec<char>, from: usize, to: usize) -> (r: (usize, usize))
    requires
        from <= to <= chars.len(),
    ensures
        from <= r.0 <= r.1 <= to,
        r.0 == skip_white(chars@, from as int, to as int),
        r.1 == back_white(chars@, r.0 as int, to as int),
{
    let mut start: usize = from;
    while start < to && white(chars[start])
        invariant
            from <= start <= to <= chars.len(),
            skip_white(chars@, from as int, to as int) == skip_white(
                chars@,
                start as int,
                to as int,
            ),
        decreases to - start,
    {
        start += 1;
    }
    let mut end: usize = to;
    while start < end && white(chars[end - 1])
        invariant
            start <= end <= to <= chars.len(),
            back_white(chars@, start as int, to as int) == back_white(
                chars@,
                start as int,
                end as int,
            ),
        decreases end - start,
    {
        end -= 1;
    }
    (start, end)
}

fn find_first(chars: &Vec<char>, c: char, from: usize) -> (at: usize)
    requires
        from <= chars.len(),
    ensures
        from <= at <= chars.len(),
        at == first_index(chars@, c, from as int),
{
    let mut at: usize = from;
    while at < chars.len() && chars[at] != c
        invariant
            from <= at <= chars.len(),
            first_index(chars@, c, from as int) == first_index(chars@, c, at as int),
        decreases chars.len() - at,
    {
        at += 1;
    }
    at
}

/// The key and the value of `line`. A line without `=` fails with
/// `BadConfig`.
pub fn split_line_at_first_equals<'a>(line: &'a str) -> (r: Result<(&'a str, &'a str), FdownError>)
    ensures
        match key_and_value(line@) {
            Some((key, value)) => r matches Ok(found) && found.0@ == key && found.1@ == value,
            None => r matches Err(FdownError::BadConfig(text)) && text@ == missing_equals(line@),
        },
{
    let chars = chars_of(line);
    let at = find_first(&chars, '=', 0);
    if at < chars.len() {
        let (key_from, key_to) = trim_bounds(&chars, 0, at);
        let (value_from, value_to) = trim_bounds(&chars, at + 1, chars.len());
        Ok((line.substring_char(key_from, key_to), line.substring_char(value_from, value_to)))
    } else {
        let mut text = "Missing '=' in config file: \"".to_owned();
        text.append(line);
        text.append("\"");
        Err(FdownError::BadConfig(text))
    }
}

/// The settings that a list of keys and values stands for: a later value
/// of a key replaces an earlier one.
pub open spec fn settings_of(entries: Seq<(String, String)>) -> Map<Seq<char>, Seq<char>>
    decreases entries.len(),
{
    if entries.len() == 0 {
        Map::empty()
    } else {
        settings_of(entries.drop_last()).insert(entries.last().0@, entries.last().1@)
    }
}

/// The line of `text` that begins at `from`: it ends before the next
/// newline, and before the carriage return that may precede that newline.
pub open spec fn line_at(text: Seq<char>, from: int) -> Seq<char> {
    let end = first_index(text, '\n', from);
    if end < text.len() && from < end && text[end - 1] == '\r' {
        text.subrange(from, end - 1)
    } else {
        text.subrange(from, end)
    }
}

/// The settings of the lines of `text` from `from` on, added to `sofar`;
/// or the first of these lines that is not skipped and holds no `=`.
pub open spec fn settings_from(text: Seq<char>, from: int, sofar: Map<Seq<char>, Seq<char>>)
    -> Result<Map<Seq<char>, Seq<char>>, Seq<char>>
    decreases text.len() + 1 - from,
{
    if from < 0 || from >= text.len() {
        Ok(sofar)
    } else {
        proof {
            lemma_first_index(text, '\n', from);
        }
        let next = first_index(text, '\n', from) + 1;
        let line = line_at(text, from);
        if is_skipped(line) {
            settings_from(text, next, sofar)
        } else {
            match key_and_value(line) {
                Some((key, value)) => settings_from(text, next, sofar.insert(key, value)),
                None => Err(line),
            }
        }
    }
}

/// The settings that a configuration text holds, or its first line that is
/// not skipped and holds no `=`.
pub open spec fn settings_in(text: Seq<char>) -> Result<Map<Seq<char>, Seq<char>>, Seq<char>> {
    settings_from(text, 0, Map::empty())
}

/// What is said of a line that holds no `=`.
pub open spec fn missing_equals(line: Seq<char>) -> Seq<char> {
    "Missing '=' in config file: \""@ + line + "\""@
}

/// The settings of a configuration file.
#[derive(Debug)]
pub struct ConfigFile {
    values: Vec<(String, String)>,
}

impl View for ConfigFile {
    type V = Map<Seq<char>, Seq<char>>;

    closed spec fn view(&self) -> Map<Seq<char>, Seq<char>> {
        settings_of(self.values@)
    }
}

impl ConfigFile {
    /// Reads the settings out of the text of a configuration file. It fails
    /// with `BadConfig` exactly where a line that is not skipped holds no
    /// `=`, and names the first such line.
    pub fn new_with_bufread(reader: &str) -> (r: Result<ConfigFile, FdownError>)
        ensures
            match settings_in(reader@) {
                Ok(settings) => r matches Ok(config) && config@ == settings,
                Err(line) => r matches Err(FdownError::BadConfig(text)) && text@
                    == missing_equals(line),
            },
    {
        let text = chars_of(reader);
        let mut values: Vec<(String, String)> = Vec::new();
        let mut from: usize = 0;
        while from < text.len()
            invariant
                text@ == reader@,
                settings_in(reader@) == settings_from(text@, from as int, settings_of(values@)),
            decreases text.len() - from,
        {
            let end = find_first(&text, '\n', from);
            let stop = if end < text.len() && from < end && text[end - 1] == '\r' {
                end - 1
            } else {
                end
            };
            let mut line_chars: Vec<char> = Vec::new();
            push_chars(&mut line_chars, &text, from, stop);
            assert(line_chars@ == line_at(text@, from as int));
            let (start, finish) = trim_bounds(&line_chars, 0, line_chars.len());
            if start < finish && line_chars[start] != '#' {
                assert(trimmed(line_chars@, 0, line_chars.len() as int)[0] == line_chars@[start as int]);
                let line = string_of(&line_chars);
                match split_line_at_first_equals(line.as_str()) {
                    Ok((key, value)) => {
                        let ghost before = values@;
                        values.push((key.to_owned(), value.to_owned()));
                        assert(values@.drop_last() == before);
                    },
                    Err(e) => {
                        return Err(e);
                    },
                }
            } else {
                assert(is_skipped(line_chars@)) by {
                    if start < finish {
                        assert(trimmed(line_chars@, 0, line_chars.len() as int)[0]
                            == line_chars@[start as int]);
                    }
                }
            }
            if end == text.len() {
                from = end;
                assert(settings_from(text@, end + 1, settings_of(values@)) == settings_from(
                    text@,
                    end as int,
                    settings_of(values@),
                ));
            } else {
                from = end + 1;
            }
        }
        Ok(ConfigFile { values })
    }

    /// The value of the key `k`. A key that is not set fails with
    /// `BadConfig`.
    pub fn required_string(&self, k: &str) -> (r: Result<&String, FdownError>)
        ensures
            match r {
                Ok(value) => self@.contains_key(k@) && value@ == self@[k@],
                Err(e) => {
                    &&& !self@.contains_key(k@)
                    &&& e matches FdownError::BadConfig(text)
                    &&& text@ == "Required config value, "@ + k@ + ", missing"@
                },
            },
    {
        let key = k.to_owned();
        let mut i: usize = self.values.len();
        assert(self.values@.take(i as int) == self.values@);
        while i > 0
            invariant
                i <= self.values.len(),
                key@ == k@,
                self@.contains_key(k@) == settings_of(self.values@.take(i as int)).contains_key(
                    k@,
                ),
                self@.contains_key(k@) ==> self@[k@] == settings_of(self.values@.take(i as int))[k@],
            decreases i,
        {
            assert(self.values@.take(i as int).drop_last() == self.values@.take(i - 1));
            if self.values[i - 1].0 == key {
                return Ok(&self.values[i - 1].1);
            }
            i -= 1;
        }
        let mut text = "Required config value, ".to_owned();
        text.append(k);
        text.append(", missing");
        Err(FdownError::BadConfig(text))
    }
}

/// Where the home directory is.
///
/// `is_home` is the provider's own account of itself: whether it may give
/// `home`. A provider of one fixed directory can say so exactly; one that
/// says nothing may give any. What `twiddle` proves of a provider, it
/// proves over this relation.
pub trait HasHomedir {
    open spec fn is_home(&self, home: Seq<char>) -> bool {
        true
    }

    fn home_dir(&self) -> (home: String)
        ensures
            self.is_home(home@),
    ;
}

/// Whether `filename` begins in the home directory: it is `~`, or begins
/// with `~/`.
pub open spec fn begins_at_home(filename: Seq<char>) -> bool {
    filename.len() >= 1 && filename[0] == '~' && (filename.len() == 1 || filename[1] == '/')
}

/// The first place from `from` on at which `s` holds no `/`.
pub open spec fn skip_slashes(s: Seq<char>, from: int) -> int
    decreases s.len() - from,
{
    if 0 <= from < s.len() && s[from] == '/' {
        skip_slashes(s, from + 1)
    } else {
        from
    }
}

/// What `filename` names below the home directory: what follows its `~`
/// and the separators after it.
pub open spec fn below_home(filename: Seq<char>) -> Seq<char> {
    filename.subrange(skip_slashes(filename, 1), filename.len() as int)
}

/// `filename` with the `~` that it begins with replaced by `home`; nothing
/// where it does not begin in the home directory.
pub open spec fn expanded(filename: Seq<char>, home: Seq<char>) -> Option<Seq<char>> {
    if begins_at_home(filename) {
        Some(joined(home, below_home(filename)))
    } else {
        None
    }
}

fn begins_home(chars: &Vec<char>) -> (r: bool)
    ensures
        r == begins_at_home(chars@),
{
    chars.len() >= 1 && chars[0] == '~' && (chars.len() == 1 || chars[1] == '/')
}

/// `filename` with the `~` that it begins with replaced by `home`.
pub fn expand_home(filename: &str, home: &str) -> (r: Option<String>)
    ensures
        r.deep_view() == expanded(filename@, home@),
{
    let chars = chars_of(filename);
    if !begins_home(&chars) {
        return None;
    }
    let mut from: usize = 1;
    while from < chars.len() && chars[from] == '/'
        invariant
            1 <= from <= chars.len(),
            skip_slashes(chars@, 1) == skip_slashes(chars@, from as int),
        decreases chars.len() - from,
    {
        from += 1;
    }
    let mut path = chars_of(home);
    if path.len() > 0 && path[path.len() - 1] != '/' {
        path.push('/');
    }
    push_chars(&mut path, &chars, from, chars.len());
    assert(path@ =~= joined(home@, below_home(filename@)));
    Some(string_of(&path))
}

/// `filename` in a home directory that `home_dir_provider` gives, where it
/// begins with `~`; nothing otherwise, and then the provider is not asked.
pub fn twiddle<T: HasHomedir>(filename: &str, home_dir_provider: T) -> (r: Option<String>)
    ensures
        if begins_at_home(filename@) {
            exists|home: Seq<char>|
                #[trigger] home_dir_provider.is_home(home) && r.deep_view() == expanded(
                    filename@,
                    home,
                )
        } else {
            r is None
        },
{
    let chars = chars_of(filename);
    if begins_home(&chars) {
        let home = home_dir_provider.home_dir();
        expand_home(filename, home.as_str())
    } else {
        None
    }
}

} // verus!
