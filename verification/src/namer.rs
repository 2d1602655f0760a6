//! Where a downloaded image is stored: the file name that a URL ends in,
//! and, where a file of that name is there already, the first numbered
//! variant of it that is free.

use crate::result::FdownError;
use crate::text::{
    chars_of, decimal, decimal_chars, holds_text, lemma_decimal_injective, prefixed, push_chars,
    string_of,
};
use vstd::prelude::*;

verus! {

/// The place of the last `c` in `s`, or -1 where `s` holds none.
pub open spec fn last_index(s: Seq<char>, c: char) -> int
    decreases s.len(),
{
    if s.len() == 0 {
        -1
    } else if s.last() == c {
        s.len() - 1
    } else {
        last_index(s.drop_last(), c)
    }
}

/// `last_index` is the place of a `c` after which no `c` follows.
pub proof fn lemma_last_index(s: Seq<char>, c: char)
    ensures
        -1 <= last_index(s, c) < s.len(),
        last_index(s, c) >= 0 ==> s[last_index(s, c)] == c,
        forall|i: int| last_index(s, c) < i < s.len() ==> s[i] != c,
    decreases s.len(),
{
    if s.len() > 0 && s.last() != c {
        lemma_last_index(s.drop_last(), c);
        assert forall|i: int| last_index(s, c) < i < s.len() implies s[i] != c by {
            if i < s.len() - 1 {
                assert(s.drop_last()[i] == s[i]);
            }
        }
    }
}

/// The place of the last `c` in `chars`.
pub fn find_last(chars: &Vec<char>, c: char) -> (r: Option<usize>)
    ensures
        match r {
            Some(i) => i == last_index(chars@, c),
            None => last_index(chars@, c) == -1,
        },
{
    let mut i: usize = chars.len();
    assert(chars@.subrange(0, i as int) == chars@);
    while i > 0
        invariant
            i <= chars.len(),
            last_index(chars@, c) == last_index(chars@.subrange(0, i as int), c),
        decreases i,
    {
        if chars[i - 1] == c {
            return Some(i - 1);
        }
        assert(chars@.subrange(0, i as int).drop_last() == chars@.subrange(0, i - 1));
        i -= 1;
    }
    None
}

/// What follows the last `/` of `url`, where it holds one.
pub open spec fn file_name_of(url: Seq<char>) -> Option<Seq<char>> {
    let slash = last_index(url, '/');
    if slash < 0 {
        None
    } else {
        Some(url.subrange(slash + 1, url.len() as int))
    }
}

/// Whether `name` can name a file in a directory: it is not empty and is
/// neither `.` nor `..`.
pub open spec fn names_a_file(name: Seq<char>) -> bool {
    name.len() > 0 && name != seq!['.'] && name != seq!['.', '.']
}

/// Where the extension of `name` begins: at its last dot, unless that dot
/// is its first character or there is none; then at its end.
pub open spec fn extension_start(name: Seq<char>) -> int {
    let dot = last_index(name, '.');
    if dot <= 0 {
        name.len() as int
    } else {
        dot
    }
}

/// `name` without its extension.
pub open spec fn stem_of(name: Seq<char>) -> Seq<char> {
    name.subrange(0, extension_start(name))
}

/// The extension of `name`, its dot included; empty where it has none.
pub open spec fn extension_of(name: Seq<char>) -> Seq<char> {
    name.subrange(extension_start(name), name.len() as int)
}

/// `stem` with the number `n` in parentheses after an underscore.
pub open spec fn numbered(stem: Seq<char>, n: nat) -> Seq<char> {
    stem + seq!['_', '('] + decimal(n) + seq![')']
}

/// The `n`-th variant of `name`: its stem numbered, then its extension.
pub open spec fn candidate(name: Seq<char>, n: nat) -> Seq<char> {
    numbered(stem_of(name), n) + extension_of(name)
}

/// Whether `n` is the least number from 1 on whose variant of `name` is
/// not among `existing`.
pub open spec fn is_first_free(existing: Seq<Seq<char>>, name: Seq<char>, n: nat) -> bool {
    &&& n >= 1
    &&& !existing.contains(candidate(name, n))
    &&& forall|m: nat| 1 <= m < n ==> existing.contains(#[trigger] candidate(name, m))
}

/// The least number from 1 on whose variant of `name` is not among
/// `existing`.
pub open spec fn first_free(existing: Seq<Seq<char>>, name: Seq<char>) -> nat {
    choose|n: nat| is_first_free(existing, name, n)
}

/// The name under which to store a file called `name` beside the files
/// `existing`: `name` itself where it is free, else its first free variant.
pub open spec fn free_name(existing: Seq<Seq<char>>, name: Seq<char>) -> Seq<char> {
    if existing.contains(name) {
        candidate(name, first_free(existing, name))
    } else {
        name
    }
}

/// `dir` and `name` as one path: a separator stands between them unless
/// `dir` is empty or ends in one.
pub open spec fn joined(dir: Seq<char>, name: Seq<char>) -> Seq<char> {
    if dir.len() == 0 || dir.last() == '/' {
        dir + name
    } else {
        dir + seq!['/'] + name
    }
}

/// Different numbers give different variants of a name.
pub proof fn lemma_candidate_injective(name: Seq<char>, a: nat, b: nat)
    requires
        candidate(name, a) == candidate(name, b),
    ensures
        a == b,
{
    let stem = stem_of(name);
    let ext = extension_of(name);
    let ca = candidate(name, a);
    let cb = candidate(name, b);
    assert(ca.len() == stem.len() + 3 + decimal(a).len() + ext.len());
    assert(cb.len() == stem.len() + 3 + decimal(b).len() + ext.len());
    let from = (stem.len() + 2) as int;
    assert(ca.subrange(from, from + decimal(a).len()) =~= decimal(a));
    assert(cb.subrange(from, from + decimal(b).len()) =~= decimal(b));
    lemma_decimal_injective(a, b);
}

/// Only one number is the first free one.
pub proof fn lemma_first_free_unique(existing: Seq<Seq<char>>, name: Seq<char>, n: nat)
    requires
        is_first_free(existing, name, n),
    ensures
        first_free(existing, name) == n,
{
    let chosen = first_free(existing, name);
    assert(is_first_free(existing, name, chosen));
    if chosen < n {
        assert(existing.contains(candidate(name, chosen)));
    }
    if n < chosen {
        assert(existing.contains(candidate(name, n)));
    }
}

/// The name that is chosen is never among the existing ones.
pub proof fn lemma_free_name_is_free(existing: Seq<Seq<char>>, name: Seq<char>)
    ensures
        !existing.contains(free_name(existing, name)),
{
    if existing.contains(name) {
        lemma_some_number_is_free(existing, name);
    }
}

/// The variants of `name` numbered 1 to `n`.
pub open spec fn variants(name: Seq<char>, n: nat) -> Seq<Seq<char>> {
    Seq::new(n, |i: int| candidate(name, (i + 1) as nat))
}

/// Where the variants numbered 1 to `n` are all among `existing`, `n` is at
/// most the number of existing names.
pub proof fn lemma_taken_variants_bounded(existing: Seq<Seq<char>>, name: Seq<char>, n: nat)
    requires
        forall|m: nat| 1 <= m <= n ==> existing.contains(#[trigger] candidate(name, m)),
    ensures
        n <= existing.len(),
{
    let tried = variants(name, n);
    assert forall|i: int, j: int| 0 <= i < tried.len() && 0 <= j < tried.len() && i != j implies tried[i]
        != tried[j] by {
        if tried[i] == tried[j] {
            lemma_candidate_injective(name, (i + 1) as nat, (j + 1) as nat);
        }
    }
    tried.unique_seq_to_set();
    existing.lemma_cardinality_of_set();
    assert forall|x: Seq<char>| tried.to_set().contains(x) implies existing.to_set().contains(
        x,
    ) by {
        let i = choose|i: int| 0 <= i < tried.len() && tried[i] == x;
        assert(existing.contains(candidate(name, (i + 1) as nat)));
    }
    vstd::set_lib::lemma_len_subset(tried.to_set(), existing.to_set());
}

/// Some number's variant of `name` is free, so a first one is.
pub proof fn lemma_some_number_is_free(existing: Seq<Seq<char>>, name: Seq<char>)
    ensures
        is_first_free(existing, name, first_free(existing, name)),
{
    let bound = (existing.len() + 1) as nat;
    if forall|m: nat| 1 <= m <= bound ==> existing.contains(#[trigger] candidate(name, m)) {
        lemma_taken_variants_bounded(existing, name, bound);
    }
    let free = choose|m: nat| 1 <= m <= bound && !existing.contains(#[trigger] candidate(name, m));
    lemma_least_free(existing, name, free);
}

/// Where the variant numbered `free` is free, a first free number exists.
proof fn lemma_least_free(existing: Seq<Seq<char>>, name: Seq<char>, free: nat)
    requires
        free >= 1,
        !existing.contains(candidate(name, free)),
    ensures
        is_first_free(existing, name, first_free(existing, name)),
    decreases free,
{
    if forall|m: nat| 1 <= m < free ==> existing.contains(#[trigger] candidate(name, m)) {
        assert(is_first_free(existing, name, free));
    } else {
        let earlier = choose|m: nat|
            1 <= m < free && !existing.contains(#[trigger] candidate(name, m));
        lemma_least_free(existing, name, earlier);
    }
}

fn numbered_chars(stem: &Vec<char>, from: usize, to: usize, num: usize) -> (out: Vec<char>)
    requires
        from <= to <= stem.len(),
    ensures
        out@ == numbered(stem@.subrange(from as int, to as int), num as nat),
{
    let mut out: Vec<char> = Vec::new();
    push_chars(&mut out, stem, from, to);
    out.push('_');
    out.push('(');
    let digits = decimal_chars(num);
    push_chars(&mut out, &digits, 0, digits.len());
    out.push(')');
    proof {
        assert(digits@.subrange(0, digits.len() as int) == digits@);
        assert(out@ =~= numbered(stem@.subrange(from as int, to as int), num as nat));
    }
    out
}

/// `stem` with `num` in parentheses after an underscore. It never fails.
pub fn add_number_suffix(stem: &str, num: usize) -> (r: Result<String, FdownError>)
    ensures
        r matches Ok(out) && out@ == numbered(stem@, num as nat),
{
    let chars = chars_of(stem);
    let out = numbered_chars(&chars, 0, chars.len(), num);
    assert(chars@.subrange(0, chars.len() as int) == chars@);
    Ok(string_of(&out))
}

fn names_file(name: &Vec<char>) -> (r: bool)
    ensures
        r == names_a_file(name@),
{
    if name.len() == 0 {
        false
    } else if name.len() == 1 {
        proof {
            if name[0] == '.' {
                assert(name@ =~= seq!['.']);
            } else {
                assert(seq!['.'][0] == '.');
            }
        }
        name[0] != '.'
    } else if name.len() == 2 {
        proof {
            if name[0] == '.' && name[1] == '.' {
                assert(name@ =~= seq!['.', '.']);
            } else {
                assert(seq!['.', '.'][0] == '.');
                assert(seq!['.', '.'][1] == '.');
            }
        }
        !(name[0] == '.' && name[1] == '.')
    } else {
        true
    }
}

/// Whether a free variant of `name` can be named with a machine number.
pub open spec fn has_free_variant(existing: Seq<Seq<char>>, name: Seq<char>) -> bool {
    first_free(existing, name) <= usize::MAX
}

fn first_free_variant(name: &Vec<char>, existing: &Vec<String>) -> (r: Option<String>)
    ensures
        match r {
            Some(out) => has_free_variant(existing.deep_view(), name@) && out@ == candidate(
                name@,
                first_free(existing.deep_view(), name@),
            ),
            None => !has_free_variant(existing.deep_view(), name@),
        },
{
    let split = match find_last(name, '.') {
        Some(dot) => if dot == 0 {
            name.len()
        } else {
            dot
        },
        None => name.len(),
    };
    proof {
        lemma_last_index(name@, '.');
    }
    let mut n: usize = 1;
    loop
        invariant
            1 <= n,
            split == extension_start(name@),
            split <= name.len(),
            forall|m: nat|
                1 <= m < n ==> existing.deep_view().contains(#[trigger] candidate(name@, m)),
        decreases usize::MAX - n,
    {
        let mut chars = numbered_chars(name, 0, split, n);
        push_chars(&mut chars, name, split, name.len());
        let variant = string_of(&chars);
        assert(variant@ == candidate(name@, n as nat));
        if !holds_text(existing, &variant) {
            proof {
                lemma_first_free_unique(existing.deep_view(), name@, n as nat);
            }
            return Some(variant);
        }
        if n == usize::MAX {
            proof {
                lemma_some_number_is_free(existing.deep_view(), name@);
                let chosen = first_free(existing.deep_view(), name@);
                if chosen <= usize::MAX {
                    assert(existing.deep_view().contains(candidate(name@, chosen)));
                }
            }
            return None;
        }
        n += 1;
    }
}

/// The first numbered variant of `name` that is not among `existing`. It
/// fails where `name` cannot name a file, and where no machine number is
/// left for a variant.
pub fn file_new_path(name: &str, existing: &Vec<String>) -> (r: Result<String, FdownError>)
    ensures
        match r {
            Ok(out) => {
                &&& names_a_file(name@)
                &&& has_free_variant(existing.deep_view(), name@)
                &&& out@ == candidate(name@, first_free(existing.deep_view(), name@))
            },
            Err(e) => {
                &&& !names_a_file(name@) || !has_free_variant(existing.deep_view(), name@)
                &&& e matches FdownError::BadFormat(text)
                &&& text@ == "unable to find file stem in url: "@ + name@
            },
        },
{
    let chars = chars_of(name);
    if !names_file(&chars) {
        return Err(FdownError::BadFormat(prefixed("unable to find file stem in url: ", name)));
    }
    match first_free_variant(&chars, existing) {
        Some(out) => Ok(out),
        None => Err(FdownError::BadFormat(prefixed("unable to find file stem in url: ", name))),
    }
}

/// Whether a place for the image at `url` can be named beside `existing`:
/// the URL holds a `/`, and where the name after its last `/` is taken,
/// that name can name a file and has a free variant.
pub open spec fn resolvable(url: Seq<char>, existing: Seq<Seq<char>>) -> bool {
    match file_name_of(url) {
        Some(name) => existing.contains(name) ==> names_a_file(name) && has_free_variant(
            existing,
            name,
        ),
        None => false,
    }
}

/// What is said of a URL for which no place can be named: that it holds no
/// file name, where it holds no `/`; else that its name has no stem.
pub open spec fn refusal(url: Seq<char>) -> Seq<char> {
    match file_name_of(url) {
        Some(name) => "unable to find file stem in url: "@ + name,
        None => "unable to extract filename from url: "@ + url,
    }
}

/// The path under which to store the image at `url` in `target_dir`, where
/// `existing` are the names that are taken in that directory: the name
/// after the last `/` of `url` as it is where it is not taken, else its
/// first free variant. The name in the path is never one of `existing`. It
/// fails where `url` holds no `/`, and where the name is taken and has no
/// variant: it cannot name a file, or no machine number is left.
pub fn filepath_for_url(url: &str, target_dir: &str, existing: &Vec<String>) -> (r: Result<
    String,
    FdownError,
>)
    ensures
        match r {
            Ok(path) => {
                &&& resolvable(url@, existing.deep_view())
                &&& path@ == joined(
                    target_dir@,
                    free_name(existing.deep_view(), file_name_of(url@).unwrap()),
                )
                &&& !existing.deep_view().contains(
                    free_name(existing.deep_view(), file_name_of(url@).unwrap()),
                )
            },
            Err(e) => {
                &&& !resolvable(url@, existing.deep_view())
                &&& e matches FdownError::BadFormat(text)
                &&& text@ == refusal(url@)
            },
        },
{
    let chars = chars_of(url);
    proof {
        lemma_last_index(url@, '/');
    }
    let slash = match find_last(&chars, '/') {
        Some(slash) => slash,
        None => {
            return Err(
                FdownError::BadFormat(prefixed("unable to extract filename from url: ", url)),
            );
        },
    };
    let mut name_chars: Vec<char> = Vec::new();
    push_chars(&mut name_chars, &chars, slash + 1, chars.len());
    assert(name_chars@ == file_name_of(url@).unwrap());
    let name = string_of(&name_chars);
    let chosen = if holds_text(existing, &name) {
        match file_new_path(name.as_str(), existing) {
            Ok(variant) => variant,
            Err(e) => {
                return Err(e);
            },
        }
    } else {
        name
    };
    proof {
        lemma_free_name_is_free(existing.deep_view(), name_chars@);
    }
    let mut path = chars_of(target_dir);
    if path.len() > 0 && path[path.len() - 1] != '/' {
        path.push('/');
    }
    let chosen_chars = chars_of(chosen.as_str());
    push_chars(&mut path, &chosen_chars, 0, chosen_chars.len());
    proof {
        assert(chosen_chars@.subrange(0, chosen_chars.len() as int) == chosen_chars@);
        assert(path@ =~= joined(target_dir@, chosen@));
    }
    Ok(string_of(&path))
}

} // verus!
