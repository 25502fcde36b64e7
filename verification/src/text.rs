//! Pieces of text: what is left without white space at the ends, the last segment, quoted
//! text and decimal numbers.

use vstd::prelude::*;
use vstd::string::StringExecFns;

verus! {

/// Whether `c` has the Unicode property `White_Space`.
pub open spec fn is_white_space(c: char) -> bool {
    ||| '\u{9}' <= c <= '\u{d}'
    ||| c == '\u{20}'
    ||| c == '\u{85}'
    ||| c == '\u{a0}'
    ||| c == '\u{1680}'
    ||| '\u{2000}' <= c <= '\u{200a}'
    ||| c == '\u{2028}'
    ||| c == '\u{2029}'
    ||| c == '\u{202f}'
    ||| c == '\u{205f}'
    ||| c == '\u{3000}'
}

/// `s` from its first character on that is not white space.
pub open spec fn trimmed_start(s: Seq<char>) -> Seq<char>
    decreases s.len(),
{
    if s.len() > 0 && is_white_space(s[0]) {
        trimmed_start(s.drop_first())
    } else {
        s
    }
}

/// `s` up to its last character that is not white space.
pub open spec fn trimmed_end(s: Seq<char>) -> Seq<char>
    decreases s.len(),
{
    if s.len() > 0 && is_white_space(s.last()) {
        trimmed_end(s.drop_last())
    } else {
        s
    }
}

/// `s` without the white space at its ends.
pub open spec fn trimmed(s: Seq<char>) -> Seq<char> {
    trimmed_end(trimmed_start(s))
}

/// What follows the last `separator` in `s`, all of `s` where there is none.
pub open spec fn after_last(s: Seq<char>, separator: char) -> Seq<char>
    decreases s.len(),
{
    if s.len() == 0 || s.last() == separator {
        Seq::empty()
    } else {
        after_last(s.drop_last(), separator).push(s.last())
    }
}

/// Whether `c` is white space.
pub fn white_space(c: char) -> (yes: bool)
    ensures
        yes == is_white_space(c),
{
    ('\u{9}' <= c && c <= '\u{d}') || c == '\u{20}' || c == '\u{85}' || c == '\u{a0}' || c
        == '\u{1680}' || ('\u{2000}' <= c && c <= '\u{200a}') || c == '\u{2028}' || c == '\u{2029}'
        || c == '\u{202f}' || c == '\u{205f}' || c == '\u{3000}'
}

/// The characters of `text`.
fn chars_of(text: &str) -> (chars: Vec<char>)
    ensures
        chars@ == text@,
{
    let mut chars: Vec<char> = Vec::new();
    for c in it: text.chars()
        invariant
            chars@ == it.seq().take(it.index() as int),
            it.seq() == text@,
    {
        chars.push(c);
    }
    chars
}

/// `text` without the white space at its ends.
pub fn trim(text: &str) -> (inner: &str)
    ensures
        inner@ == trimmed(text@),
{
    let chars = chars_of(text);
    let ghost s = text@;
    let mut from: usize = 0;
    assert(s.skip(0) == s);
    while from < chars.len() && white_space(chars[from])
        invariant
            chars@ == s,
            from <= chars.len(),
            trimmed_start(s) == trimmed_start(s.skip(from as int)),
        decreases chars.len() - from,
    {
        assert(s.skip(from as int).drop_first() == s.skip(from + 1));
        from = from + 1;
    }
    let mut to: usize = chars.len();
    assert(s.subrange(from as int, to as int) == s.skip(from as int));
    while from < to && white_space(chars[to - 1])
        invariant
            chars@ == s,
            from <= to <= chars.len(),
            trimmed(s) == trimmed_end(s.subrange(from as int, to as int)),
        decreases to - from,
    {
        assert(s.subrange(from as int, to as int).drop_last() == s.subrange(
            from as int,
            to - 1,
        ));
        to = to - 1;
    }
    text.substring_char(from, to)
}

/// What follows the last `separator` in `text`, all of it where there is none.
pub fn last_segment(text: &str, separator: char) -> (segment: &str)
    ensures
        segment@ == after_last(text@, separator),
{
    let chars = chars_of(text);
    let ghost s = text@;
    let mut from: usize = chars.len();
    assert(s.take(from as int) == s);
    assert(after_last(s.take(from as int), separator) + s.skip(from as int) == after_last(
        s,
        separator,
    ));
    while from > 0 && chars[from - 1] != separator
        invariant
            chars@ == s,
            from <= chars.len(),
            after_last(s, separator) == after_last(s.take(from as int), separator) + s.skip(
                from as int,
            ),
        decreases from,
    {
        let ghost rest = after_last(s.take(from - 1), separator);
        assert(s.take(from as int).drop_last() == s.take(from - 1));
        assert(rest.push(s[from - 1]) + s.skip(from as int) == rest + s.skip(from - 1));
        from = from - 1;
    }
    assert(after_last(s.take(from as int), separator) == Seq::<char>::empty());
    assert(s.subrange(from as int, s.len() as int) == s.skip(from as int));
    text.substring_char(from, chars.len())
}

/// `text` as the `{:?}` of std writes a string: in double quotes, with escapes.
pub uninterp spec fn debug_text(text: Seq<char>) -> Seq<char>;

/// Calls std's `{:?}` on a string.
///
/// Claimed: what is written depends on the string alone; it goes by the name
/// [`debug_text`]. Which characters are escaped, and how, is left unsaid.
#[verifier::external_body]
pub(crate) fn quoted(text: &str) -> (res: String)
    ensures
        res@ == debug_text(text@),
{
    format!("{:?}", text)
}

/// The character for a decimal digit.
pub open spec fn decimal_digit(value: nat) -> char {
    ('0' as int + value) as char
}

/// `n` in decimal digits, without leading zeros.
pub open spec fn decimal(n: nat) -> Seq<char>
    decreases n,
{
    if n < 10 {
        seq![decimal_digit(n)]
    } else {
        decimal(n / 10).push(decimal_digit(n % 10))
    }
}

/// The text of a single decimal digit.
fn digit_text(value: usize) -> (text: &'static str)
    requires
        value < 10,
    ensures
        text@ == seq![decimal_digit(value as nat)],
{
    proof {
        reveal_strlit("0");
        reveal_strlit("1");
        reveal_strlit("2");
        reveal_strlit("3");
        reveal_strlit("4");
        reveal_strlit("5");
        reveal_strlit("6");
        reveal_strlit("7");
        reveal_strlit("8");
        reveal_strlit("9");
    }
    match value {
        0 => "0",
        1 => "1",
        2 => "2",
        3 => "3",
        4 => "4",
        5 => "5",
        6 => "6",
        7 => "7",
        8 => "8",
        _ => "9",
    }
}

/// `n` in decimal digits, without leading zeros.
pub fn decimal_text(n: usize) -> (text: String)
    ensures
        text@ == decimal(n as nat),
        read_decimal(text@) == n,
    decreases n,
{
    proof {
        law_decimal_reads_back(n as nat);
    }
    if n < 10 {
        return digit_text(n).to_string();
    }
    let text = decimal_text(n / 10).concat(digit_text(n % 10));
    assert(text@ == decimal((n / 10) as nat).push(decimal_digit((n % 10) as nat)));
    text
}

/// Trimming takes nothing but white space, and all of it at either end: `s` is white
/// space, the trimmed text and white space, and the trimmed text neither begins nor ends
/// with any.
pub proof fn law_trimmed(s: Seq<char>) -> (ends: (Seq<char>, Seq<char>))
    ensures
        s == ends.0 + trimmed(s) + ends.1,
        forall|i: int| 0 <= i < ends.0.len() ==> is_white_space(#[trigger] ends.0[i]),
        forall|i: int| 0 <= i < ends.1.len() ==> is_white_space(#[trigger] ends.1[i]),
        trimmed(s).len() > 0 ==> !is_white_space(trimmed(s)[0]) && !is_white_space(
            trimmed(s).last(),
        ),
{
    let before = lemma_trimmed_start(s);
    let after = lemma_trimmed_end(trimmed_start(s));
    assert(s == before + trimmed(s) + after);
    (before, after)
}

/// White space around a text is all that trimming takes.
pub proof fn law_trimming_finds_inner(before: Seq<char>, inner: Seq<char>, after: Seq<char>)
    requires
        inner.len() > 0,
        !is_white_space(inner[0]),
        !is_white_space(inner.last()),
        forall|i: int| 0 <= i < before.len() ==> is_white_space(#[trigger] before[i]),
        forall|i: int| 0 <= i < after.len() ==> is_white_space(#[trigger] after[i]),
    ensures
        trimmed(before + inner + after) == inner,
{
    lemma_start_takes_white_space(before, inner + after);
    assert(before + (inner + after) == before + inner + after);
    lemma_end_takes_white_space(inner, after);
}

/// Nothing is left of white space alone.
pub proof fn law_white_space_trims_to_nothing(s: Seq<char>)
    requires
        forall|i: int| 0 <= i < s.len() ==> is_white_space(#[trigger] s[i]),
    ensures
        trimmed(s).len() == 0,
    decreases s.len(),
{
    if s.len() > 0 {
        assert(is_white_space(s[0]));
        assert forall|i: int| 0 <= i < s.len() - 1 implies is_white_space(
            #[trigger] s.drop_first()[i],
        ) by {
            assert(s.drop_first()[i] == s[i + 1]);
        }
        law_white_space_trims_to_nothing(s.drop_first());
    }
}

/// The number that decimal digits stand for.
pub open spec fn read_decimal(text: Seq<char>) -> int
    decreases text.len(),
{
    if text.len() == 0 {
        0
    } else {
        10 * read_decimal(text.drop_last()) + (text.last() as int - '0' as int)
    }
}

/// A number is written in decimal digits that read back as the number, and begins with a
/// zero only if it is zero.
pub proof fn law_decimal_reads_back(n: nat)
    ensures
        read_decimal(decimal(n)) == n,
        decimal(n).len() > 0,
        forall|i: int| 0 <= i < decimal(n).len() ==> '0' <= #[trigger] decimal(n)[i] <= '9',
        decimal(n)[0] == '0' <==> n == 0,
        n == 0 ==> decimal(n).len() == 1,
    decreases n,
{
    reveal_with_fuel(read_decimal, 2);
    if n >= 10 {
        law_decimal_reads_back(n / 10);
        assert(decimal(n).drop_last() == decimal(n / 10));
        assert(decimal(n)[0] == decimal(n / 10)[0]);
    } else {
        assert(decimal(n).drop_last().len() == 0);
    }
}

/// Text without white space at its ends is left as it is.
pub proof fn law_trimming_keeps_trimmed(s: Seq<char>)
    requires
        s.len() > 0 ==> !is_white_space(s[0]) && !is_white_space(s.last()),
    ensures
        trimmed(s) == s,
{
}

/// The last segment holds no separator and ends the text.
pub proof fn law_last_segment(s: Seq<char>, separator: char)
    ensures
        !after_last(s, separator).contains(separator),
        after_last(s, separator).is_suffix_of(s),
        after_last(s, separator) != s ==> s[s.len() - after_last(s, separator).len() - 1]
            == separator,
    decreases s.len(),
{
    let segment = after_last(s, separator);
    if s.len() == 0 {
        assert(segment == s);
    } else if s.last() == separator {
        assert(segment == s.skip(s.len() as int));
    } else {
        let init = s.drop_last();
        let rest = after_last(init, separator);
        law_last_segment(init, separator);
        assert(segment == rest.push(s.last()));
        if segment.contains(separator) {
            let i = segment.index_of(separator);
            assert(rest[i] == separator);
        }
        assert(rest == init.skip(init.len() - rest.len()));
        assert(segment == s.skip(s.len() - segment.len()));
        if rest == init {
            assert(segment == s);
        } else {
            assert(init.skip(0) == init);
            assert(init[init.len() - rest.len() - 1] == s[s.len() - segment.len() - 1]);
        }
    }
}

/// What stands before the separator does not matter for the last segment.
pub proof fn law_last_segment_after_separator(prefix: Seq<char>, separator: char, tail: Seq<char>)
    requires
        !tail.contains(separator),
    ensures
        after_last(prefix.push(separator) + tail, separator) == tail,
        after_last(tail, separator) == tail,
    decreases tail.len(),
{
    let s = prefix.push(separator) + tail;
    if tail.len() == 0 {
        assert(s == prefix.push(separator));
    } else {
        assert(tail[tail.len() - 1] != separator);
        assert(s.drop_last() == prefix.push(separator) + tail.drop_last());
        assert(!tail.drop_last().contains(separator)) by {
            if tail.drop_last().contains(separator) {
                let i = tail.drop_last().index_of(separator);
                assert(tail[i] == separator);
            }
        }
        law_last_segment_after_separator(prefix, separator, tail.drop_last());
        assert(tail.drop_last().push(tail.last()) == tail);
    }
}

/// Trimming at the start takes all white space before a character that is none.
proof fn lemma_start_takes_white_space(before: Seq<char>, s: Seq<char>)
    requires
        s.len() > 0,
        !is_white_space(s[0]),
        forall|i: int| 0 <= i < before.len() ==> is_white_space(#[trigger] before[i]),
    ensures
        trimmed_start(before + s) == s,
    decreases before.len(),
{
    if before.len() == 0 {
        assert(before + s == s);
    } else {
        assert((before + s)[0] == before[0]);
        assert((before + s).drop_first() == before.drop_first() + s);
        assert forall|i: int| 0 <= i < before.len() - 1 implies is_white_space(
            #[trigger] before.drop_first()[i],
        ) by {
            assert(before.drop_first()[i] == before[i + 1]);
        }
        lemma_start_takes_white_space(before.drop_first(), s);
    }
}

/// Trimming at the end takes all white space after a character that is none.
pub(crate) proof fn lemma_end_takes_white_space(s: Seq<char>, after: Seq<char>)
    requires
        s.len() > 0,
        !is_white_space(s.last()),
        forall|i: int| 0 <= i < after.len() ==> is_white_space(#[trigger] after[i]),
    ensures
        trimmed_end(s + after) == s,
    decreases after.len(),
{
    if after.len() == 0 {
        assert(s + after == s);
    } else {
        assert((s + after).last() == after[after.len() - 1]);
        assert((s + after).drop_last() == s + after.drop_last());
        assert forall|i: int| 0 <= i < after.len() - 1 implies is_white_space(
            #[trigger] after.drop_last()[i],
        ) by {
            assert(after.drop_last()[i] == after[i]);
        }
        lemma_end_takes_white_space(s, after.drop_last());
    }
}

proof fn lemma_trimmed_start(s: Seq<char>) -> (before: Seq<char>)
    ensures
        s == before + trimmed_start(s),
        forall|i: int| 0 <= i < before.len() ==> is_white_space(#[trigger] before[i]),
        trimmed_start(s).len() > 0 ==> !is_white_space(trimmed_start(s)[0]),
    decreases s.len(),
{
    if s.len() > 0 && is_white_space(s[0]) {
        let rest = lemma_trimmed_start(s.drop_first());
        let before = seq![s[0]] + rest;
        assert(s == seq![s[0]] + s.drop_first());
        assert(s == before + trimmed_start(s));
        before
    } else {
        Seq::empty()
    }
}

proof fn lemma_trimmed_end(s: Seq<char>) -> (after: Seq<char>)
    ensures
        s == trimmed_end(s) + after,
        forall|i: int| 0 <= i < after.len() ==> is_white_space(#[trigger] after[i]),
        trimmed_end(s).len() > 0 ==> !is_white_space(trimmed_end(s).last()) && trimmed_end(s)[0]
            == s[0],
    decreases s.len(),
{
    if s.len() > 0 && is_white_space(s.last()) {
        let rest = lemma_trimmed_end(s.drop_last());
        let after = rest.push(s.last());
        assert(s == s.drop_last().push(s.last()));
        assert(s == trimmed_end(s) + after);
        after
    } else {
        Seq::empty()
    }
}

} // verus!
