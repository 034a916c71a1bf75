//! Text operations on characters, each stated over `Seq<char>`.

use vstd::prelude::*;

verus! {

/// Characters with the Unicode `White_Space` property.
pub open spec fn is_white(c: char) -> bool {
    ||| '\u{9}' <= c <= '\u{D}'
    ||| c == '\u{20}'
    ||| c == '\u{85}'
    ||| c == '\u{A0}'
    ||| c == '\u{1680}'
    ||| '\u{2000}' <= c <= '\u{200A}'
    ||| c == '\u{2028}'
    ||| c == '\u{2029}'
    ||| c == '\u{202F}'
    ||| c == '\u{205F}'
    ||| c == '\u{3000}'
}

/// `s` without its leading white space.
pub open spec fn trimmed_start(s: Seq<char>) -> Seq<char>
    decreases s.len(),
{
    if s.len() > 0 && is_white(s[0]) {
        trimmed_start(s.drop_first())
    } else {
        s
    }
}

/// `s` without its trailing white space.
pub open spec fn trimmed_end(s: Seq<char>) -> Seq<char>
    decreases s.len(),
{
    if s.len() > 0 && is_white(s.last()) {
        trimmed_end(s.drop_last())
    } else {
        s
    }
}

/// `s` without white space at either end.
pub open spec fn trimmed(s: Seq<char>) -> Seq<char> {
    trimmed_end(trimmed_start(s))
}

/// Lower-case form of an ASCII letter; any other character is kept.
pub open spec fn ascii_lower(c: char) -> char {
    if 'A' <= c <= 'Z' {
        ((c as u32) + 32) as char
    } else {
        c
    }
}

/// `s` with its ASCII letters in lower case.
pub open spec fn lowered(s: Seq<char>) -> Seq<char> {
    s.map_values(|c: char| ascii_lower(c))
}

/// Whether `s` ends in `suffix`.
pub open spec fn has_suffix(s: Seq<char>, suffix: Seq<char>) -> bool {
    suffix.len() <= s.len() && s.skip(s.len() - suffix.len()) == suffix
}

/// Whether `s` begins with `prefix`.
pub open spec fn has_prefix(s: Seq<char>, prefix: Seq<char>) -> bool {
    prefix.len() <= s.len() && s.take(prefix.len() as int) == prefix
}

/// Appends one character with `String::push`.
///
/// Claimed: the text afterwards is the text before with `c` at its end.
#[verifier::external_body]
fn push_char(s: &mut String, c: char)
    ensures
        final(s)@ == old(s)@.push(c),
{
    s.push(c);
}

/// The characters of `s` in order.
pub fn chars_of(s: &str) -> (chars: Vec<char>)
    ensures
        chars@ == s@,
{
    let mut chars: Vec<char> = Vec::new();
    for c in it: s.chars()
        invariant
            chars@ == it.seq().take(it.index() as int),
            it.seq() == s@,
    {
        chars.push(c);
    }
    chars
}

/// The text made of `chars`.
pub fn text_of(chars: &Vec<char>) -> (text: String)
    ensures
        text@ == chars@,
{
    let mut text = String::new();
    let mut i: usize = 0;
    while i < chars.len()
        invariant
            i <= chars@.len(),
            text@ == chars@.take(i as int),
        decreases chars@.len() - i,
    {
        push_char(&mut text, chars[i]);
        i += 1;
    }
    text
}

/// Whether two texts hold the same characters.
pub fn same_text(a: &str, b: &str) -> (same: bool)
    ensures
        same == (a@ == b@),
{
    let x = chars_of(a);
    let y = chars_of(b);
    if x.len() != y.len() {
        return false;
    }
    let mut i: usize = 0;
    while i < x.len()
        invariant
            i <= x@.len(),
            x@.len() == y@.len(),
            x@ == a@,
            y@ == b@,
            x@.take(i as int) == y@.take(i as int),
        decreases x@.len() - i,
    {
        if x[i] != y[i] {
            assert(a@[i as int] != b@[i as int]);
            return false;
        }
        i += 1;
        assert(x@.take(i as int) == x@.take(i - 1).push(x@[i - 1]));
        assert(y@.take(i as int) == y@.take(i - 1).push(y@[i - 1]));
    }
    assert(x@.take(i as int) == x@);
    assert(y@.take(i as int) == y@);
    true
}

/// Whether `c` is white space.
pub fn is_white_char(c: char) -> (white: bool)
    ensures
        white == is_white(c),
{
    ('\u{9}' <= c && c <= '\u{D}') || c == '\u{20}' || c == '\u{85}' || c == '\u{A0}' || c
        == '\u{1680}' || ('\u{2000}' <= c && c <= '\u{200A}') || c == '\u{2028}' || c == '\u{2029}'
        || c == '\u{202F}' || c == '\u{205F}' || c == '\u{3000}'
}

/// `s` without white space at either end.
pub fn trim(s: &str) -> (res: String)
    ensures
        res@ == trimmed(s@),
{
    let chars = chars_of(s);
    trim_chars(&chars)
}

/// The text made of `chars` without white space at either end.
pub fn trim_chars(chars: &Vec<char>) -> (res: String)
    ensures
        res@ == trimmed(chars@),
{
    let ghost all = chars@;
    let mut from: usize = 0;
    assert(all.skip(0) == all);
    while from < chars.len() && is_white_char(chars[from])
        invariant
            from <= all.len(),
            all == chars@,
            trimmed_start(all) == trimmed_start(all.skip(from as int)),
        decreases all.len() - from,
    {
        assert(all.skip(from as int).drop_first() == all.skip(from + 1));
        from += 1;
    }
    let ghost rest = all.skip(from as int);
    assert(trimmed_start(all) == rest);
    let mut to: usize = chars.len();
    assert(rest.take(rest.len() as int) == rest);
    while to > from && is_white_char(chars[to - 1])
        invariant
            from <= to <= all.len(),
            all == chars@,
            rest == all.skip(from as int),
            trimmed_end(rest) == trimmed_end(rest.take(to - from)),
        decreases to,
    {
        assert(rest.take(to - from).drop_last() == rest.take(to - from - 1));
        to -= 1;
    }
    let mut res = String::new();
    let mut i: usize = from;
    while i < to
        invariant
            from <= i <= to <= all.len(),
            all == chars@,
            res@ == all.subrange(from as int, i as int),
        decreases to - i,
    {
        push_char(&mut res, chars[i]);
        i += 1;
    }
    assert(rest.take(to - from) == all.subrange(from as int, to as int));
    res
}

/// `s` with its ASCII letters in lower case.
pub fn to_ascii_lowercase(s: &str) -> (res: String)
    ensures
        res@ == lowered(s@),
{
    let chars = chars_of(s);
    let mut res = String::new();
    let mut i: usize = 0;
    while i < chars.len()
        invariant
            i <= chars@.len(),
            chars@ == s@,
            res@ == lowered(s@.take(i as int)),
        decreases chars@.len() - i,
    {
        let c = chars[i];
        if 'A' <= c && c <= 'Z' {
            push_char(&mut res, (c as u8 + 32) as char);
        } else {
            push_char(&mut res, c);
        }
        i += 1;
        assert(lowered(s@.take(i as int)) == lowered(s@.take(i - 1)).push(ascii_lower(s@[i - 1])));
    }
    assert(s@.take(i as int) == s@);
    res
}

/// Whether `s` ends in `suffix`.
pub fn ends_with(s: &str, suffix: &str) -> (res: bool)
    ensures
        res == has_suffix(s@, suffix@),
{
    let n = s.unicode_len();
    let m = suffix.unicode_len();
    if m > n {
        return false;
    }
    same_text(s.substring_char(n - m, n), suffix)
}

/// Whether `s` begins with `prefix`.
pub fn starts_with(s: &str, prefix: &str) -> (res: bool)
    ensures
        res == has_prefix(s@, prefix@),
{
    let n = s.unicode_len();
    let m = prefix.unicode_len();
    if m > n {
        return false;
    }
    same_text(s.substring_char(0, m), prefix)
}

/// The pieces of `s` between occurrences of `sep`; one more than there are
/// occurrences.
pub open spec fn pieces(s: Seq<char>, sep: char) -> Seq<Seq<char>>
    decreases s.len(),
{
    if s.len() == 0 {
        seq![Seq::<char>::empty()]
    } else {
        let before = pieces(s.drop_last(), sep);
        if s.last() == sep {
            before.push(Seq::empty())
        } else {
            before.drop_last().push(before.last().push(s.last()))
        }
    }
}

/// The characters of each text.
pub open spec fn views(texts: Seq<String>) -> Seq<Seq<char>> {
    texts.map_values(|t: String| t@)
}

/// Each piece without white space at either end.
pub open spec fn all_trimmed(texts: Seq<Seq<char>>) -> Seq<Seq<char>> {
    texts.map_values(|t: Seq<char>| trimmed(t))
}

/// The lines of `s`: the pieces between line feeds, but for an empty one after
/// the last line feed.
pub open spec fn lines_of(s: Seq<char>) -> Seq<Seq<char>> {
    let all = pieces(s, '\n');
    if all.last().len() == 0 {
        all.drop_last()
    } else {
        all
    }
}

/// `s` with each occurrence of `from`, found left to right, replaced by `to`.
pub open spec fn replaced(s: Seq<char>, from: Seq<char>, to: Seq<char>) -> Seq<char>
    decreases s.len(),
{
    if from.len() == 0 || s.len() < from.len() {
        s
    } else if s.take(from.len() as int) == from {
        to + replaced(s.skip(from.len() as int), from, to)
    } else {
        seq![s[0]] + replaced(s.drop_first(), from, to)
    }
}

proof fn lemma_all_trimmed_last(done: Seq<String>, last: String, all: Seq<Seq<char>>)
    requires
        all.len() > 0,
        views(done) == all_trimmed(all.drop_last()),
        last@ == trimmed(all.last()),
    ensures
        views(done.push(last)) == all_trimmed(all),
{
    let got = views(done.push(last));
    let want = all_trimmed(all);
    assert(views(done).len() == all.len() - 1);
    assert forall|i: int| 0 <= i < want.len() implies got[i] == want[i] by {
        if i < all.len() - 1 {
            assert(views(done)[i] == all_trimmed(all.drop_last())[i]);
        }
    }
    assert(got == want);
}

/// The pieces of `s` between occurrences of `sep`, each without white space at
/// either end.
pub fn split_trimmed(s: &str, sep: char) -> (res: Vec<String>)
    ensures
        views(res@) == all_trimmed(pieces(s@, sep)),
{
    let (mut out, last, _) = split_all_but_last(s, sep);
    proof {
        lemma_all_trimmed_last(out@, last, pieces(s@, sep));
    }
    out.push(last);
    out
}

/// The lines of `s`, each without white space (so without a carriage return) at
/// either end.
pub fn lines_trimmed(s: &str) -> (res: Vec<String>)
    ensures
        views(res@) == all_trimmed(lines_of(s@)),
{
    let (mut out, last, last_is_empty) = split_all_but_last(s, '\n');
    if !last_is_empty {
        proof {
            lemma_all_trimmed_last(out@, last, pieces(s@, '\n'));
        }
        out.push(last);
    }
    out
}

/// The trimmed pieces of `s` but the last, the trimmed last one, and whether the
/// last one was empty before trimming.
fn split_all_but_last(s: &str, sep: char) -> (res: (Vec<String>, String, bool))
    ensures
        pieces(s@, sep).len() > 0,
        views(res.0@) == all_trimmed(pieces(s@, sep).drop_last()),
        res.1@ == trimmed(pieces(s@, sep).last()),
        res.2 == (pieces(s@, sep).last().len() == 0),
{
    let chars = chars_of(s);
    let mut done: Vec<String> = Vec::new();
    let mut current: Vec<char> = Vec::new();
    let ghost mut raw: Seq<Seq<char>> = Seq::empty();
    let mut i: usize = 0;
    assert(pieces(s@.take(0), sep) == raw.push(current@));
    assert(views(done@) == all_trimmed(raw));
    while i < chars.len()
        invariant
            i <= chars@.len(),
            chars@ == s@,
            pieces(s@.take(i as int), sep) == raw.push(current@),
            views(done@) == all_trimmed(raw),
        decreases chars@.len() - i,
    {
        let ghost before = s@.take(i as int);
        let ghost after = s@.take(i + 1);
        assert(after.drop_last() == before);
        assert(after.last() == s@[i as int]);
        let c = chars[i];
        if c == sep {
            let ghost piece = current@;
            let piece_text = trim_chars(&current);
            let ghost old_done = done@;
            done.push(piece_text);
            assert(views(done@) == views(old_done).push(trimmed(piece)));
            assert(all_trimmed(raw.push(piece)) == all_trimmed(raw).push(trimmed(piece)));
            proof {
                raw = raw.push(piece);
            }
            current = Vec::new();
            assert(pieces(after, sep) == raw.push(current@));
        } else {
            let ghost piece = current@;
            current.push(c);
            assert(raw.push(piece).drop_last() == raw);
            assert(pieces(after, sep) == raw.push(current@));
        }
        i += 1;
    }
    assert(s@.take(i as int) == s@);
    assert(raw.push(current@).drop_last() == raw);
    let last = trim_chars(&current);
    (done, last, current.len() == 0)
}

/// `s` with each occurrence of `from` replaced by `to`.
pub fn replace_all(s: &str, from: &str, to: &str) -> (res: String)
    ensures
        res@ == replaced(s@, from@, to@),
{
    let n = s.unicode_len();
    let m = from.unicode_len();
    let mut res = String::new();
    let mut i: usize = 0;
    assert(s@.skip(0) == s@);
    assert(res@ + replaced(s@, from@, to@) == replaced(s@, from@, to@));
    while m > 0 && n - i >= m
        invariant
            i <= n,
            n == s@.len(),
            m == from@.len(),
            res@ + replaced(s@.skip(i as int), from@, to@) == replaced(s@, from@, to@),
        decreases n - i,
    {
        let ghost rest = s@.skip(i as int);
        let ghost done = res@;
        assert(rest.take(m as int) == s@.subrange(i as int, i + m));
        if same_text(s.substring_char(i, i + m), from) {
            res.append(to);
            assert(rest.skip(m as int) == s@.skip(i + m));
            assert(done + (to@ + replaced(rest.skip(m as int), from@, to@)) == (done + to@)
                + replaced(rest.skip(m as int), from@, to@));
            i += m;
        } else {
            push_char(&mut res, s.get_char(i));
            assert(rest.drop_first() == s@.skip(i + 1));
            assert(done + (seq![rest[0]] + replaced(rest.drop_first(), from@, to@)) == done.push(
                rest[0],
            ) + replaced(rest.drop_first(), from@, to@));
            i += 1;
        }
    }
    res.append(s.substring_char(i, n));
    assert(s@.subrange(i as int, n as int) == s@.skip(i as int));
    res
}

} // verus!
