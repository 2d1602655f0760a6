//! The size suffix of an image URL. A URL that ends in `_<digits>.<ext>`
//! names one size of an image; the same URL with the digits replaced by
//! 1280 names its largest size.

use crate::text::{chars_of, is_digit};
use vstd::prelude::*;

verus! {

/// The pattern of a size suffix: an underscore, digits, then a dot and the
/// letters and digits of the extension, at the end of the text.
pub open spec fn size_suffix_pattern() -> Seq<char> {
    "_([0-9]+)(\\.[0-9A-Za-z]+)$"@
}

/// What a size suffix is replaced by: the largest size, then the extension.
pub open spec fn largest_size_replacement() -> Seq<char> {
    "_1280$2"@
}

/// What `regex` makes of `haystack` when the first match of `pattern` in it
/// is replaced by `replacement`, or nothing where it refuses the pattern: a
/// fixed function of the three texts.
pub uninterp spec fn regex_replaced(
    pattern: Seq<char>,
    haystack: Seq<char>,
    replacement: Seq<char>,
) -> Option<Seq<char>>;

/// `Regex::new` and `Regex::replace` of the crate `regex`: compiles
/// `pattern` and replaces its first match in `haystack`, with `$n` in
/// `replacement` standing for the n-th group. The contract claims only that
/// the outcome is a function of the three texts.
#[verifier::external_body]
fn regex_replace(pattern: &str, haystack: &str, replacement: &str) -> (out: Option<String>)
    ensures
        out.deep_view() == regex_replaced(pattern@, haystack@, replacement@),
{
    match regex::Regex::new(pattern) {
        Ok(compiled) => Some(compiled.replace(haystack, replacement).into_owned()),
        Err(_) => None,
    }
}

/// Whether `c` is an ASCII letter or digit.
pub open spec fn is_alnum(c: char) -> bool {
    is_digit(c) || ('a' <= c <= 'z') || ('A' <= c <= 'Z')
}

/// Whether `url` ends in a size suffix whose underscore stands at `k` and
/// whose dot stands at `j`.
pub open spec fn size_suffix_at(url: Seq<char>, k: int, j: int) -> bool {
    &&& 0 <= k
    &&& k + 1 < j
    &&& j + 1 < url.len()
    &&& url[k] == '_'
    &&& forall|i: int| k < i < j ==> is_digit(#[trigger] url[i])
    &&& url[j] == '.'
    &&& forall|i: int| j < i < url.len() ==> is_alnum(#[trigger] url[i])
}

/// Whether `url` ends in a size suffix.
pub open spec fn has_size_suffix(url: Seq<char>) -> bool {
    exists|k: int, j: int| size_suffix_at(url, k, j)
}

/// The characters that ask for the largest size.
pub open spec fn largest() -> Seq<char> {
    seq!['_', '1', '2', '8', '0']
}

/// `url` with the size between `k` and `j` replaced by the largest.
pub open spec fn resized_at(url: Seq<char>, k: int, j: int) -> Seq<char> {
    url.subrange(0, k) + largest() + url.subrange(j, url.len() as int)
}

/// Whether `candidate` is `url` with its size suffix replaced by the
/// largest size.
pub open spec fn is_resized(url: Seq<char>, candidate: Seq<char>) -> bool {
    exists|k: int, j: int| size_suffix_at(url, k, j) && candidate == resized_at(url, k, j)
}

/// The URL to fetch for `url`, given what the pattern engine proposed:
/// the proposal where it is `url` resized, and `url` itself otherwise.
pub open spec fn normalized(url: Seq<char>, proposed: Option<Seq<char>>) -> Seq<char> {
    match proposed {
        Some(candidate) => if is_resized(url, candidate) {
            candidate
        } else {
            url
        },
        None => url,
    }
}

/// A text has at most one size suffix.
pub proof fn lemma_size_suffix_unique(url: Seq<char>, k1: int, j1: int, k2: int, j2: int)
    requires
        size_suffix_at(url, k1, j1),
        size_suffix_at(url, k2, j2),
    ensures
        k1 == k2,
        j1 == j2,
{
    if j1 < j2 {
        assert(is_alnum(url[j2]));
    }
    if j2 < j1 {
        assert(is_alnum(url[j1]));
    }
    if k1 < k2 {
        assert(is_digit(url[k2]));
    }
    if k2 < k1 {
        assert(is_digit(url[k1]));
    }
}

/// A resized URL has a size suffix again, and resizing it changes nothing.
pub proof fn lemma_resized_is_fixed(url: Seq<char>, k: int, j: int)
    requires
        size_suffix_at(url, k, j),
    ensures
        size_suffix_at(resized_at(url, k, j), k, k + 5),
        resized_at(resized_at(url, k, j), k, k + 5) == resized_at(url, k, j),
{
    let r = resized_at(url, k, j);
    assert(r.len() == k + 5 + (url.len() - j));
    assert(r[k] == '_');
    assert(r[k + 1] == '1');
    assert(r[k + 2] == '2');
    assert(r[k + 3] == '8');
    assert(r[k + 4] == '0');
    assert(r[k + 5] == url[j]);
    assert forall|i: int| k + 5 < i < r.len() implies is_alnum(#[trigger] r[i]) by {
        assert(r[i] == url[i - (k + 5) + j]);
    }
    assert(resized_at(r, k, k + 5) =~= r);
}

/// A resized URL stays as it is, whatever the pattern engine proposes for
/// it.
pub proof fn lemma_resized_stays(url: Seq<char>, resized: Seq<char>, proposed: Option<Seq<char>>)
    requires
        is_resized(url, resized),
    ensures
        normalized(resized, proposed) == resized,
{
    if proposed is Some && is_resized(resized, proposed.unwrap()) {
        let (k, j) = choose|k: int, j: int|
            size_suffix_at(url, k, j) && resized == resized_at(url, k, j);
        let (k2, j2) = choose|k: int, j: int|
            size_suffix_at(resized, k, j) && proposed.unwrap() == resized_at(resized, k, j);
        lemma_resized_is_fixed(url, k, j);
        lemma_size_suffix_unique(resized, k, k + 5, k2, j2);
    }
}

/// The URL to fetch for `url`: what the pattern engine makes of it, checked.
pub open spec fn filtered(url: Seq<char>) -> Seq<char> {
    normalized(url, regex_replaced(size_suffix_pattern(), url, largest_size_replacement()))
}

/// Filtering twice gives what filtering once gives.
pub proof fn lemma_filter_idempotent(url: Seq<char>)
    ensures
        filtered(filtered(url)) == filtered(url),
{
    let once = filtered(url);
    if once != url {
        lemma_resized_stays(
            url,
            once,
            regex_replaced(size_suffix_pattern(), once, largest_size_replacement()),
        );
    }
}

/// Filtering gives the URL itself or the URL resized.
pub proof fn lemma_filter_resizes(url: Seq<char>)
    ensures
        filtered(url) == url || is_resized(url, filtered(url)),
{
}

/// A URL without a size suffix is left as it is.
pub proof fn lemma_filter_keeps_plain(url: Seq<char>)
    requires
        !has_size_suffix(url),
    ensures
        filtered(url) == url,
{
}

fn digit(c: char) -> (r: bool)
    ensures
        r == is_digit(c),
{
    '0' <= c && c <= '9'
}

fn alnum(c: char) -> (r: bool)
    ensures
        r == is_alnum(c),
{
    digit(c) || ('a' <= c && c <= 'z') || ('A' <= c && c <= 'Z')
}

/// Where the size suffix of `url` stands: the places of its underscore and
/// of its dot.
pub fn find_size_suffix(url: &Vec<char>) -> (r: Option<(usize, usize)>)
    ensures
        match r {
            Some((k, j)) => size_suffix_at(url@, k as int, j as int),
            None => !has_size_suffix(url@),
        },
{
    let len = url.len();
    let mut j: usize = len;
    while j > 0 && alnum(url[j - 1])
        invariant
            j <= len == url.len(),
            forall|i: int| j <= i < len ==> is_alnum(#[trigger] url[i]),
        decreases j,
    {
        j -= 1;
    }
    if j == 0 || j == len || url[j - 1] != '.' {
        assert forall|a: int, b: int| !size_suffix_at(url@, a, b) by {
            if size_suffix_at(url@, a, b) {
                if b >= j {
                    assert(is_alnum(url[b]));
                } else if b + 1 < j {
                    assert(is_alnum(url[j - 1]));
                }
            }
        }
        return None;
    }
    let dot = j - 1;
    let mut k: usize = dot;
    while k > 0 && digit(url[k - 1])
        invariant
            k <= dot < len == url.len(),
            forall|i: int| k <= i < dot ==> is_digit(#[trigger] url[i]),
        decreases k,
    {
        k -= 1;
    }
    if k == 0 || k == dot || url[k - 1] != '_' {
        assert forall|a: int, b: int| !size_suffix_at(url@, a, b) by {
            if size_suffix_at(url@, a, b) {
                if b > dot {
                    assert(is_alnum(url[b]));
                } else if b < dot {
                    assert(is_alnum(url[dot as int]));
                } else if a >= k {
                    assert(is_digit(url[a]));
                } else if a + 1 < k {
                    assert(is_digit(url[k - 1]));
                }
            }
        }
        return None;
    }
    Some((k - 1, dot))
}

/// Whether `candidate` is `url` with the size between `k` and `j` replaced
/// by the largest.
fn is_resized_at(url: &Vec<char>, candidate: &Vec<char>, k: usize, j: usize) -> (r: bool)
    requires
        size_suffix_at(url@, k as int, j as int),
    ensures
        r == (candidate@ == resized_at(url@, k as int, j as int)),
{
    let len = url.len();
    let tail = len - j;
    let ghost want = resized_at(url@, k as int, j as int);
    assert(want.len() == k + 5 + tail);
    if candidate.len() < 5 || candidate.len() - 5 != k + tail {
        return false;
    }
    let mut i: usize = 0;
    while i < k
        invariant
            i <= k < j < len == url.len(),
            candidate.len() == want.len(),
            want == resized_at(url@, k as int, j as int),
            forall|n: int| 0 <= n < i ==> candidate[n] == want[n],
        decreases k - i,
    {
        if candidate[i] != url[i] {
            assert(want[i as int] == url[i as int]);
            return false;
        }
        i += 1;
    }
    assert(want[k as int] == '_');
    assert(want[k + 1] == '1');
    assert(want[k + 2] == '2');
    assert(want[k + 3] == '8');
    assert(want[k + 4] == '0');
    if candidate[k] != '_' || candidate[k + 1] != '1' || candidate[k + 2] != '2' || candidate[k
        + 3] != '8' || candidate[k + 4] != '0' {
        return false;
    }
    let mut t: usize = 0;
    while t < tail
        invariant
            t <= tail == len - j,
            k < j < len == url.len(),
            candidate.len() == want.len() == k + 5 + tail,
            want == resized_at(url@, k as int, j as int),
            forall|n: int| 0 <= n < k + 5 + t ==> candidate[n] == want[n],
        decreases tail - t,
    {
        assert(want[k + 5 + t] == url[j + t]);
        if candidate[k + 5 + t] != url[j + t] {
            return false;
        }
        t += 1;
    }
    assert(candidate@ =~= want);
    true
}

/// The URL to fetch for `url`, given what the pattern engine proposed.
pub fn checked_resize(url: &str, proposed: Option<String>) -> (out: String)
    ensures
        out@ == normalized(url@, proposed.deep_view()),
{
    match proposed {
        None => url.to_owned(),
        Some(candidate) => {
            let given = chars_of(url);
            match find_size_suffix(&given) {
                None => url.to_owned(),
                Some((k, j)) => {
                    let offered = chars_of(candidate.as_str());
                    if is_resized_at(&given, &offered, k, j) {
                        candidate
                    } else {
                        proof {
                            if is_resized(url@, candidate@) {
                                let (k2, j2) = choose|k2: int, j2: int|
                                    size_suffix_at(url@, k2, j2) && candidate@ == resized_at(
                                        url@,
                                        k2,
                                        j2,
                                    );
                                lemma_size_suffix_unique(url@, k as int, j as int, k2, j2);
                            }
                        }
                        url.to_owned()
                    }
                },
            }
        },
    }
}

/// The URL to fetch for `url`: a size suffix is replaced by the largest
/// size, and any other URL is returned as it is.
pub fn largest_variant(url: &str) -> (out: String)
    ensures
        out@ == filtered(url@),
{
    let proposed = regex_replace("_([0-9]+)(\\.[0-9A-Za-z]+)$", url, "_1280$2");
    checked_resize(url, proposed)
}

} // verus!
