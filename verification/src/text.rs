//! Strings as sequences of characters: searching, cutting and joining.

use vstd::prelude::*;
use vstd::string::*;

verus! {

/// Whether `word` stands in `text` at position `at`.
pub open spec fn occurs_at(text: Seq<char>, word: Seq<char>, at: int) -> bool {
    &&& 0 <= at
    &&& at + word.len() <= text.len()
    &&& text.subrange(at, at + word.len()) == word
}

/// Whether `word` stands somewhere in `text`. The empty word stands in
/// every text.
pub open spec fn occurs(text: Seq<char>, word: Seq<char>) -> bool {
    exists|at: int| occurs_at(text, word, at)
}

/// Whether `at` is the first position at which `word` stands in `text`.
pub open spec fn first_at(text: Seq<char>, word: Seq<char>, at: int) -> bool {
    &&& occurs_at(text, word, at)
    &&& forall|earlier: int| 0 <= earlier < at ==> !occurs_at(text, word, earlier)
}

/// The texts of a sequence of strings.
pub open spec fn views(strings: Seq<String>) -> Seq<Seq<char>> {
    strings.map_values(|s: String| s@)
}

/// The text of an optional string.
pub open spec fn text_of(s: Option<String>) -> Option<Seq<char>> {
    match s {
        Some(t) => Some(t@),
        None => None,
    }
}

/// `text` without its first `n` characters; nothing is left of a text
/// shorter than `n`.
pub open spec fn tail(text: Seq<char>, n: nat) -> Seq<char> {
    if n <= text.len() {
        text.skip(n as int)
    } else {
        Seq::empty()
    }
}

/// The parts in order, with `sep` between each two neighbours.
pub open spec fn joined(parts: Seq<Seq<char>>, sep: Seq<char>) -> Seq<char>
    decreases parts.len(),
{
    if parts.len() == 0 {
        Seq::empty()
    } else if parts.len() == 1 {
        parts[0]
    } else {
        joined(parts.drop_last(), sep) + sep + parts.last()
    }
}

/// A word stands first at one position only.
pub proof fn first_at_unique(text: Seq<char>, word: Seq<char>, a: int, b: int)
    requires
        first_at(text, word, a),
        first_at(text, word, b),
    ensures
        a == b,
{
}

/// Copies a list of strings.
pub fn copy_all(strings: &Vec<String>) -> (copies: Vec<String>)
    ensures
        views(copies@) == views(strings@),
{
    let mut copies: Vec<String> = Vec::new();
    let mut i: usize = 0;
    while i < strings.len()
        invariant
            i <= strings.len(),
            views(copies@) == views(strings@.take(i as int)),
        decreases strings.len() - i,
    {
        copies.push(strings[i].clone());
        assert(views(strings@.take(i + 1)) =~= views(strings@.take(i as int)).push(
            strings@[i as int]@,
        ));
        i += 1;
    }
    copies
}

/// The characters of `s`, in order.
pub fn chars_of(s: &str) -> (out: Vec<char>)
    ensures
        out@ == s@,
{
    let mut out: Vec<char> = Vec::new();
    let it = s.chars();
    for c in iter: it
        invariant
            out@ == s@.take(iter.index() as int),
            iter.seq() == s@,
    {
        out.push(c);
    }
    out
}

/// Whether two texts are the same, letter for letter.
pub fn same(a: &str, b: &str) -> (eq: bool)
    ensures
        eq == (a@ == b@),
{
    String::from_str(a) == String::from_str(b)
}

/// Compares the word with the text at one position.
fn stands_at(text: &Vec<char>, word: &Vec<char>, at: usize) -> (hit: bool)
    requires
        at + word.len() <= text.len(),
    ensures
        hit == occurs_at(text@, word@, at as int),
{
    let mut k: usize = 0;
    while k < word.len()
        invariant
            k <= word.len(),
            at + word.len() <= text.len(),
            forall|j: int| 0 <= j < k ==> text@[at + j] == word@[j],
        decreases word.len() - k,
    {
        if text[at + k] != word[k] {
            assert(text@.subrange(at as int, at + word@.len())[k as int] != word@[k as int]);
            return false;
        }
        k += 1;
    }
    assert(text@.subrange(at as int, at + word@.len()) =~= word@);
    true
}

/// The first position at which `word` stands in `text`, counted in
/// characters.
pub fn find(text: &str, word: &str) -> (found: Option<usize>)
    ensures
        match found {
            Some(at) => first_at(text@, word@, at as int),
            None => !occurs(text@, word@),
        },
{
    let t = chars_of(text);
    let w = chars_of(word);
    if w.len() > t.len() {
        return None;
    }
    let last: usize = t.len() - w.len();
    let mut at: usize = 0;
    loop
        invariant
            at <= last,
            last == t.len() - w.len(),
            t@ == text@,
            w@ == word@,
            forall|earlier: int| 0 <= earlier < at ==> !occurs_at(text@, word@, earlier),
        decreases last - at,
    {
        if stands_at(&t, &w, at) {
            return Some(at);
        }
        if at == last {
            return None;
        }
        at += 1;
    }
}

/// Whether `word` stands somewhere in `text`, letter for letter.
pub fn contains(text: &str, word: &str) -> (hit: bool)
    ensures
        hit == occurs(text@, word@),
{
    find(text, word).is_some()
}

/// `s` without its first `n` characters.
pub fn skip_chars(s: &str, n: usize) -> (rest: String)
    ensures
        rest@ == tail(s@, n as nat),
{
    let len: usize = s.unicode_len();
    if n <= len {
        let cut = s.substring_char(n, len);
        String::from_str(cut)
    } else {
        String::new()
    }
}

/// Joins the parts into one string, with `sep` between each two.
pub fn join(parts: &Vec<String>, sep: &str) -> (whole: String)
    ensures
        whole@ == joined(views(parts@), sep@),
{
    let mut whole = String::new();
    let mut i: usize = 0;
    while i < parts.len()
        invariant
            i <= parts.len(),
            whole@ == joined(views(parts@).take(i as int), sep@),
        decreases parts.len() - i,
    {
        assert(views(parts@).take(i + 1).drop_last() =~= views(parts@).take(i as int));
        if i > 0 {
            whole.append(sep);
        }
        whole.append(parts[i].as_str());
        i += 1;
    }
    assert(views(parts@).take(parts@.len() as int) =~= views(parts@));
    whole
}

} // verus!
