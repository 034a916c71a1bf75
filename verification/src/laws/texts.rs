//! Laws of texts and of numbers in decimal notation.

use vstd::prelude::*;

use crate::decimal::{parse_u16, parse_u32, to_decimal};
use crate::text::{
    chars_of, ends_with, is_white_char, lines_trimmed, replace_all, same_text, split_trimmed,
    starts_with, text_of, to_ascii_lowercase, trim,
};

verus! {

/// White space by its code points.
pub open spec fn blank(c: char) -> bool {
    let n = c as int;
    ||| 9 <= n <= 13
    ||| n == 32
    ||| n == 0x85
    ||| n == 0xa0
    ||| n == 0x1680
    ||| 0x2000 <= n <= 0x200a
    ||| n == 0x2028
    ||| n == 0x2029
    ||| n == 0x202f
    ||| n == 0x205f
    ||| n == 0x3000
}

/// White space is known by its code points.
pub proof fn law_white_space_is_known(c: char, res: bool)
    requires
        call_ensures(is_white_char, (c,), res),
    ensures
        res <==> blank(c),
{
}

/// Whether `t` is what is left of `s` once the white space at both ends is gone.
pub open spec fn bared(s: Seq<char>, t: Seq<char>) -> bool {
    exists|from: int, to: int| #[trigger] bares(s, t, from, to)
}

/// Whether `t` is the part of `s` from `from` to `to`, with nothing but white space before
/// and after it, and with none at its own ends.
pub open spec fn bares(s: Seq<char>, t: Seq<char>, from: int, to: int) -> bool {
    &&& 0 <= from <= to <= s.len()
    &&& t == s.subrange(from, to)
    &&& forall|i: int| 0 <= i < s.len() && !(from <= i < to) ==> blank(#[trigger] s[i])
    &&& t.len() > 0 ==> !blank(t[0]) && !blank(t.last())
}

proof fn lemma_start_is_bared(s: Seq<char>) -> (from: int)
    ensures
        0 <= from <= s.len(),
        crate::text::trimmed_start(s) == s.skip(from),
        forall|i: int| 0 <= i < from ==> blank(#[trigger] s[i]),
        from < s.len() ==> !blank(s[from]),
    decreases s.len(),
{
    if s.len() > 0 && crate::text::is_white(s[0]) {
        let rest = s.drop_first();
        let n = lemma_start_is_bared(rest);
        assert(rest.skip(n) =~= s.skip(n + 1));
        assert forall|i: int| 0 <= i < n + 1 implies blank(#[trigger] s[i]) by {
            if i > 0 {
                assert(s[i] == rest[i - 1]);
            }
        }
        n + 1
    } else {
        assert(s.skip(0) =~= s);
        0
    }
}

proof fn lemma_end_is_bared(s: Seq<char>) -> (to: int)
    ensures
        0 <= to <= s.len(),
        crate::text::trimmed_end(s) == s.take(to),
        forall|i: int| to <= i < s.len() ==> blank(#[trigger] s[i]),
        to > 0 ==> !blank(s[to - 1]),
    decreases s.len(),
{
    if s.len() > 0 && crate::text::is_white(s.last()) {
        let rest = s.drop_last();
        let n = lemma_end_is_bared(rest);
        assert(rest.take(n) =~= s.take(n));
        assert forall|i: int| n <= i < s.len() implies blank(#[trigger] s[i]) by {
            if i < rest.len() {
                assert(s[i] == rest[i]);
            }
        }
        n
    } else {
        assert(s.take(s.len() as int) =~= s);
        s.len() as int
    }
}

proof fn lemma_trimmed_is_bared(s: Seq<char>)
    ensures
        bared(s, crate::text::trimmed(s)),
{
    let from = lemma_start_is_bared(s);
    let rest = s.skip(from);
    let n = lemma_end_is_bared(rest);
    let t = crate::text::trimmed(s);
    assert(t =~= s.subrange(from, from + n));
    assert forall|i: int| 0 <= i < s.len() && !(from <= i < from + n) implies blank(
        #[trigger] s[i],
    ) by {
        if i >= from {
            assert(s[i] == rest[i - from]);
        }
    }
    if t.len() > 0 {
        assert(t[0] == s[from]);
        assert(t.last() == rest[n - 1]);
    }
    assert(bares(s, t, from, from + n));
}

/// Trimming takes away the white space at both ends, all of it, and nothing else.
pub proof fn law_trimming_bares(s: &str, res: String)
    requires
        call_ensures(trim, (s,), res),
    ensures
        bared(s@, res@),
{
    lemma_trimmed_is_bared(s@);
}

/// Lowering changes the letters from `A` to `Z` alone, each to its small form.
pub proof fn law_lowering_changes_capitals(s: &str, i: int, res: String)
    requires
        call_ensures(to_ascii_lowercase, (s,), res),
    ensures
        res@.len() == s@.len(),
        0 <= i < s@.len() && 65 <= s@[i] as int <= 90 ==> res@[i] as int == s@[i] as int + 32,
        0 <= i < s@.len() && !(65 <= s@[i] as int <= 90) ==> res@[i] == s@[i],
{
}

/// A text ends in another where it is something followed by that, and begins with it where
/// it is that followed by something.
pub proof fn law_ends_are_found(
    s: &str,
    part: &str,
    other: Seq<char>,
    at_end: bool,
    at_start: bool,
)
    requires
        call_ensures(ends_with, (s, part), at_end),
        call_ensures(starts_with, (s, part), at_start),
    ensures
        s@ == other + part@ ==> at_end,
        s@ == part@ + other ==> at_start,
        at_end ==> s@ == s@.take(s@.len() - part@.len()) + part@,
        at_start ==> s@ == part@ + s@.skip(part@.len() as int),
        part@.len() > s@.len() ==> !at_end && !at_start,
{
    if s@ == other + part@ {
        assert(s@.skip(s@.len() - part@.len()) =~= part@);
    }
    if s@ == part@ + other {
        assert(s@.take(part@.len() as int) =~= part@);
    }
    if at_end {
        assert(s@ =~= s@.take(s@.len() - part@.len()) + s@.skip(s@.len() - part@.len()));
    }
    if at_start {
        assert(s@ =~= s@.take(part@.len() as int) + s@.skip(part@.len() as int));
    }
}

/// Two texts are the same where they hold the same characters; characters make up the text
/// that they were taken from.
pub proof fn law_texts_are_their_characters(
    a: &str,
    b: &str,
    same: bool,
    chars: Vec<char>,
    text: String,
)
    requires
        call_ensures(same_text, (a, b), same),
        call_ensures(chars_of, (a,), chars),
        call_ensures(text_of, (&chars,), text),
    ensures
        same <==> a@ == b@,
        chars@ == a@,
        text@ == a@,
{
}

/// The pieces with a separator between every two of them.
pub open spec fn joined(raw: Seq<Seq<char>>, sep: char) -> Seq<char>
    decreases raw.len(),
{
    if raw.len() == 0 {
        Seq::empty()
    } else if raw.len() == 1 {
        raw[0]
    } else {
        joined(raw.drop_last(), sep) + seq![sep] + raw.last()
    }
}

/// Whether no piece holds the separator.
pub open spec fn apart(raw: Seq<Seq<char>>, sep: char) -> bool {
    forall|i: int| 0 <= i < raw.len() ==> !(#[trigger] raw[i]).contains(sep)
}

/// Whether each text is the piece at its place without the white space at both ends.
pub open spec fn all_bared(raw: Seq<Seq<char>>, texts: Seq<String>) -> bool {
    &&& raw.len() == texts.len()
    &&& forall|i: int| 0 <= i < raw.len() ==> bared(raw[i], #[trigger] texts[i]@)
}

proof fn lemma_pieces_join(s: Seq<char>, sep: char)
    ensures
        crate::text::pieces(s, sep).len() > 0,
        joined(crate::text::pieces(s, sep), sep) == s,
        apart(crate::text::pieces(s, sep), sep),
    decreases s.len(),
{
    let all = crate::text::pieces(s, sep);
    if s.len() > 0 {
        lemma_pieces_join(s.drop_last(), sep);
        let before = crate::text::pieces(s.drop_last(), sep);
        if s.last() == sep {
            assert(all.drop_last() =~= before);
            assert(joined(all, sep) =~= joined(before, sep) + seq![sep]);
            assert(joined(all, sep) =~= s);
            assert forall|i: int| 0 <= i < all.len() implies !(#[trigger] all[i]).contains(sep) by {
                if i < before.len() {
                    assert(all[i] == before[i]);
                }
            }
        } else {
            assert(all.drop_last() =~= before.drop_last());
            assert(all.last() == before.last().push(s.last()));
            assert(joined(all, sep) =~= joined(before, sep).push(s.last()));
            assert(joined(all, sep) =~= s);
            assert forall|i: int| 0 <= i < all.len() implies !(#[trigger] all[i]).contains(sep) by {
                if i < before.len() - 1 {
                    assert(all[i] == before[i]);
                } else {
                    assert(!before[before.len() - 1].contains(sep));
                    assert forall|k: int| 0 <= k < all[i].len() implies #[trigger] all[i][k]
                        != sep by {
                        if k < before.last().len() {
                            assert(before.last()[k] == all[i][k]);
                            assert(before.last().contains(before.last()[k]));
                        }
                    }
                }
            }
        }
    }
}

proof fn lemma_all_trimmed_is_bared(raw: Seq<Seq<char>>, texts: Seq<String>)
    requires
        crate::text::views(texts) == crate::text::all_trimmed(raw),
    ensures
        all_bared(raw, texts),
{
    let views = crate::text::views(texts);
    let all = crate::text::all_trimmed(raw);
    assert(views.len() == texts.len());
    assert(all.len() == raw.len());
    assert forall|i: int| 0 <= i < raw.len() implies bared(raw[i], #[trigger] texts[i]@) by {
        assert(views[i] == texts[i]@);
        assert(all[i] == crate::text::trimmed(raw[i]));
        lemma_trimmed_is_bared(raw[i]);
    }
}

/// Splitting gives the pieces that make up the text with separators between them, none of
/// which holds the separator, each without the white space at both ends.
pub proof fn law_splitting_gives_the_pieces(s: &str, sep: char, res: Vec<String>)
    requires
        call_ensures(split_trimmed, (s, sep), res),
    ensures
        res@.len() > 0,
        exists|raw: Seq<Seq<char>>| #[trigger]
            joined(raw, sep) == s@ && apart(raw, sep) && all_bared(raw, res@),
{
    let raw = crate::text::pieces(s@, sep);
    lemma_pieces_join(s@, sep);
    lemma_all_trimmed_is_bared(raw, res@);
    assert(joined(raw, sep) == s@);
}

/// The lines of a text are the pieces between line feeds; a line feed at the end starts no
/// line, and an empty text has none.
pub proof fn law_lines_are_pieces(s: &str, res: Vec<String>)
    requires
        call_ensures(lines_trimmed, (s,), res),
    ensures
        s@.len() == 0 ==> res@.len() == 0,
        s@.len() > 0 && s@.last() == '\n' ==> exists|raw: Seq<Seq<char>>|
            raw.len() > 0 && #[trigger] joined(raw, '\n') + seq!['\n'] == s@ && apart(raw, '\n')
                && all_bared(raw, res@),
        s@.len() > 0 && s@.last() != '\n' ==> exists|raw: Seq<Seq<char>>| #[trigger]
            joined(raw, '\n') == s@ && apart(raw, '\n') && all_bared(raw, res@),
{
    let all = crate::text::pieces(s@, '\n');
    let lines = crate::text::lines_of(s@);
    lemma_pieces_join(s@, '\n');
    lemma_all_trimmed_is_bared(lines, res@);
    if s@.len() > 0 {
        lemma_pieces_join(s@.drop_last(), '\n');
        let before = crate::text::pieces(s@.drop_last(), '\n');
        if s@.last() == '\n' {
            assert(lines =~= before);
            assert(joined(lines, '\n') + seq!['\n'] =~= s@);
        } else {
            assert(all.last().len() > 0);
            assert(joined(lines, '\n') == s@);
        }
    }
}

/// Whether `part` stands in `s` at a place.
pub open spec fn stands_at(s: Seq<char>, part: Seq<char>, at: int) -> bool {
    0 <= at <= s.len() - part.len() && s.subrange(at, at + part.len()) == part
}

proof fn lemma_first_is_replaced(
    s: Seq<char>,
    from: Seq<char>,
    to: Seq<char>,
    at: int,
)
    requires
        from.len() > 0,
        stands_at(s, from, at),
        forall|k: int| 0 <= k < at ==> !#[trigger] stands_at(s, from, k),
    ensures
        crate::text::replaced(s, from, to) == s.take(at) + to + crate::text::replaced(
            s.skip(at + from.len()),
            from,
            to,
        ),
    decreases at,
{
    if at == 0 {
        assert(s.take(from.len() as int) =~= s.subrange(0, from.len() as int));
        assert(s.take(0) + to =~= to);
    } else {
        assert(!stands_at(s, from, 0));
        assert(s.take(from.len() as int) =~= s.subrange(0, from.len() as int));
        let rest = s.drop_first();
        assert(rest.subrange(at - 1, at - 1 + from.len()) =~= s.subrange(at, at + from.len()));
        assert forall|k: int| 0 <= k < at - 1 implies !#[trigger] stands_at(rest, from, k) by {
            assert(!stands_at(s, from, k + 1));
            assert(rest.subrange(k, k + from.len()) =~= s.subrange(k + 1, k + 1 + from.len()));
        }
        lemma_first_is_replaced(rest, from, to, at - 1);
        assert(rest.skip(at - 1 + from.len()) =~= s.skip(at + from.len()));
        let tail = crate::text::replaced(s.skip(at + from.len()), from, to);
        assert(seq![s[0]] + (rest.take(at - 1) + to + tail) =~= s.take(at) + to + tail);
    }
}

proof fn lemma_nothing_is_replaced(s: Seq<char>, from: Seq<char>, to: Seq<char>)
    requires
        from.len() > 0,
        forall|k: int| !#[trigger] stands_at(s, from, k),
    ensures
        crate::text::replaced(s, from, to) == s,
    decreases s.len(),
{
    if s.len() >= from.len() {
        assert(!stands_at(s, from, 0));
        assert(s.take(from.len() as int) =~= s.subrange(0, from.len() as int));
        let rest = s.drop_first();
        assert forall|k: int| !#[trigger] stands_at(rest, from, k) by {
            assert(!stands_at(s, from, k + 1));
            if 0 <= k <= rest.len() - from.len() {
                assert(rest.subrange(k, k + from.len()) =~= s.subrange(k + 1, k + 1 + from.len()));
            }
        }
        lemma_nothing_is_replaced(rest, from, to);
        assert(seq![s[0]] + rest =~= s);
    }
}

/// The first occurrence is replaced, and what follows it is replaced in the same way; a
/// text without an occurrence stays as it is.
pub proof fn law_occurrences_are_replaced(
    s: &str,
    from: &str,
    to: &str,
    rest: &str,
    at: int,
    res: String,
    tail: String,
)
    requires
        call_ensures(replace_all, (s, from, to), res),
        call_ensures(replace_all, (rest, from, to), tail),
        from@.len() > 0,
    ensures
        (forall|k: int| !#[trigger] stands_at(s@, from@, k)) ==> res@ == s@,
        stands_at(s@, from@, at) && (forall|k: int|
            0 <= k < at ==> !#[trigger] stands_at(s@, from@, k)) && rest@ == s@.skip(
            at + from@.len(),
        ) ==> res@ == s@.take(at) + to@ + tail@,
{
    if forall|k: int| !#[trigger] stands_at(s@, from@, k) {
        lemma_nothing_is_replaced(s@, from@, to@);
    }
    if stands_at(s@, from@, at) && (forall|k: int|
        0 <= k < at ==> !#[trigger] stands_at(s@, from@, k)) {
        lemma_first_is_replaced(s@, from@, to@, at);
    }
}

/// The number that digits write, the most significant first.
pub open spec fn number(digits: Seq<char>) -> int
    decreases digits.len(),
{
    if digits.len() == 0 {
        0
    } else {
        number(digits.drop_last()) * 10 + (digits.last() as int - 48)
    }
}

/// Whether a text is made of digits alone, one at least.
pub open spec fn numeric(s: Seq<char>) -> bool {
    &&& s.len() > 0
    &&& forall|i: int| 0 <= i < s.len() ==> 48 <= #[trigger] s[i] as int <= 57
}

/// Whether a text is the notation of a number: digits, with or without a plus sign.
pub open spec fn writes_number(s: Seq<char>, n: int) -> bool {
    ||| numeric(s) && number(s) == n
    ||| s.len() > 0 && s[0] as int == 43 && numeric(s.skip(1)) && number(s.skip(1)) == n
}

proof fn lemma_number_is_value(digits: Seq<char>)
    requires
        forall|i: int| 0 <= i < digits.len() ==> 48 <= #[trigger] digits[i] as int <= 57,
    ensures
        number(digits) == crate::decimal::digits_value(digits),
    decreases digits.len(),
{
    if digits.len() > 0 {
        assert forall|i: int| 0 <= i < digits.drop_last().len() implies 48
            <= #[trigger] digits.drop_last()[i] as int <= 57 by {
            assert(digits.drop_last()[i] == digits[i]);
        }
        lemma_number_is_value(digits.drop_last());
        assert(48 <= digits[digits.len() - 1] as int <= 57);
    }
}

proof fn lemma_parsed_is_written(s: Seq<char>, max: nat)
    ensures
        crate::decimal::parsed(s, max) matches Some(n) ==> writes_number(s, n as int) && n <= max,
        crate::decimal::parsed(s, max) is None ==> forall|n: int|
            #![trigger writes_number(s, n)]
            writes_number(s, n) ==> n > max,
{
    let digits = crate::decimal::after_plus(s);
    assert(crate::decimal::all_digits(digits) <==> forall|i: int|
        0 <= i < digits.len() ==> 48 <= #[trigger] digits[i] as int <= 57) by {
        if crate::decimal::all_digits(digits) {
            assert forall|i: int| 0 <= i < digits.len() implies 48 <= #[trigger] digits[i] as int
                <= 57 by {
                assert(crate::decimal::is_digit(digits[i]));
            }
        }
        if forall|i: int| 0 <= i < digits.len() ==> 48 <= #[trigger] digits[i] as int <= 57 {
            assert forall|i: int| 0 <= i < digits.len() implies crate::decimal::is_digit(
                #[trigger] digits[i],
            ) by {
                assert(48 <= digits[i] as int <= 57);
            }
        }
    }
    if digits.len() > 0 && crate::decimal::all_digits(digits) {
        lemma_number_is_value(digits);
        assert(numeric(digits));
    }
    assert forall|n: int| #![trigger writes_number(s, n)] writes_number(s, n) implies numeric(
        digits,
    ) && n == number(digits) by {
        if s.len() > 0 && s[0] as int == 43 {
            assert(!numeric(s)) by {
                if numeric(s) {
                    assert(48 <= s[0] as int);
                }
            }
            assert(s[0] == '+');
        } else {
            assert(digits == s);
        }
    }
}

/// A number is read exactly where the text is its notation and the type can hold it.
pub proof fn law_numbers_are_read(
    s: &str,
    n: int,
    wide: Option<u32>,
    narrow: Option<u16>,
)
    requires
        call_ensures(parse_u32, (s,), wide),
        call_ensures(parse_u16, (s,), narrow),
    ensures
        wide matches Some(m) ==> writes_number(s@, m as int),
        narrow matches Some(m) ==> writes_number(s@, m as int),
        writes_number(s@, n) && n <= 0xffff_ffff ==> wide is Some && wide->0 == n,
        writes_number(s@, n) && n <= 0xffff ==> narrow is Some && narrow->0 == n,
{
    lemma_parsed_is_written(s@, u32::MAX as nat);
    lemma_parsed_is_written(s@, u16::MAX as nat);
    let digits = crate::decimal::after_plus(s@);
    if writes_number(s@, n) {
        if s@.len() > 0 && s@[0] as int == 43 {
            assert(!numeric(s@)) by {
                if numeric(s@) {
                    assert(48 <= s@[0] as int);
                }
            }
            assert(s@[0] == '+');
        } else {
            assert(digits == s@);
        }
        lemma_number_is_value(digits);
    }
}

/// A number is written in digits alone, without a zero in front of others, and is read as
/// itself.
pub proof fn law_numbers_are_written(n: u32, text: String, slice: &str, back: Option<u32>)
    requires
        call_ensures(to_decimal, (n,), text),
        slice@ == text@,
        call_ensures(parse_u32, (slice,), back),
    ensures
        numeric(text@),
        number(text@) == n,
        text@.len() > 1 ==> text@[0] as int != 48,
        back == Some(n),
{
    crate::decimal::lemma_decimal_has_no_sign(n as nat);
    crate::decimal::lemma_decimal_reads_back(n as nat, u32::MAX as nat);
    assert forall|i: int| 0 <= i < text@.len() implies 48 <= #[trigger] text@[i] as int <= 57 by {
        assert(crate::decimal::is_digit(text@[i]));
    }
    lemma_number_is_value(text@);
    lemma_no_leading_zero(n as nat);
}

proof fn lemma_no_leading_zero(n: nat)
    ensures
        n > 0 ==> crate::decimal::decimal(n)[0] as int != 48,
        n < 10 ==> crate::decimal::decimal(n).len() == 1,
        crate::decimal::decimal(n).len() > 0,
    decreases n,
{
    if n >= 10 {
        lemma_no_leading_zero(n / 10);
    }
}

} // verus!
