//! Text primitives: searching, trimming, splitting and number formatting.
//!
//! Every function states its result over the sequence of characters that a
//! string holds.

use vstd::prelude::*;

verus! {

// ---------------------------------------------------------------------------
// Standard library items
// ---------------------------------------------------------------------------

/// `String::push`: appends one character to the end of the string.
pub assume_specification[ String::push ](text: &mut String, c: char)
    ensures
        final(text)@ == old(text)@.push(c),
;

/// `String::from(&str)`: the new string holds the same characters.
pub assume_specification<'a>[ <String as From<&'a str>>::from ](text: &str) -> (copy: String)
    ensures
        copy@ == text@,
;

/// `T::from(T)`: returns its argument unchanged.
pub assume_specification<T>[ <T as From<T>>::from ](value: T) -> (same: T)
    ensures
        same == value,
;

/// Whether `text` is what converting `source` into a `String` gives.
pub open spec fn converts_to<S: Into<String>>(source: S, text: String) -> bool {
    call_ensures(<S as Into<String>>::into, (source,), text)
}

// ---------------------------------------------------------------------------
// Characters
// ---------------------------------------------------------------------------

/// The characters with the Unicode property `White_Space`.
pub open spec fn is_white_space(c: char) -> bool {
    ||| '\u{9}' <= c && c <= '\u{d}'
    ||| c == ' '
    ||| c == '\u{85}'
    ||| c == '\u{a0}'
    ||| c == '\u{1680}'
    ||| '\u{2000}' <= c && c <= '\u{200a}'
    ||| c == '\u{2028}'
    ||| c == '\u{2029}'
    ||| c == '\u{202f}'
    ||| c == '\u{205f}'
    ||| c == '\u{3000}'
}

/// Whether `c` has the Unicode property `White_Space`.
pub fn white_space(c: char) -> (yes: bool)
    ensures
        yes == is_white_space(c),
{
    ('\u{9}' <= c && c <= '\u{d}') || c == ' ' || c == '\u{85}' || c == '\u{a0}' || c == '\u{1680}'
        || ('\u{2000}' <= c && c <= '\u{200a}') || c == '\u{2028}' || c == '\u{2029}' || c
        == '\u{202f}' || c == '\u{205f}' || c == '\u{3000}'
}

/// The characters of `text`, in order.
pub fn chars_of(text: &str) -> (chars: Vec<char>)
    ensures
        chars@ == text@,
{
    let mut chars: Vec<char> = Vec::new();
    for c in walk: text.chars()
        invariant
            walk.seq() == text@,
            chars@ == text@.take(walk.index()),
    {
        chars.push(c);
    }
    chars
}

/// The string of the characters `from..to`.
pub fn slice_text(chars: &Vec<char>, from: usize, to: usize) -> (text: String)
    requires
        from <= to <= chars.len(),
    ensures
        text@ == chars@.subrange(from as int, to as int),
{
    let mut text = String::new();
    let mut i: usize = from;
    while i < to
        invariant
            from <= i <= to <= chars.len(),
            text@ == chars@.subrange(from as int, i as int),
        decreases to - i,
    {
        text.push(chars[i]);
        i = i + 1;
    }
    text
}

// ---------------------------------------------------------------------------
// Searching
// ---------------------------------------------------------------------------

/// Whether `needle` stands in `hay` at position `i`.
pub open spec fn occurs_at(hay: Seq<char>, needle: Seq<char>, i: int) -> bool {
    0 <= i && i + needle.len() <= hay.len() && hay.subrange(i, i + needle.len()) == needle
}

/// Whether `needle` stands somewhere in `hay`.
pub open spec fn has_text(hay: Seq<char>, needle: Seq<char>) -> bool {
    exists|i: int| occurs_at(hay, needle, i)
}

/// Whether `hay` begins with `prefix`.
pub open spec fn begins_with(hay: Seq<char>, prefix: Seq<char>) -> bool {
    occurs_at(hay, prefix, 0)
}

/// What stands in a text stands in every text that begins with it.
pub proof fn has_text_in_longer(text: Seq<char>, more: Seq<char>, needle: Seq<char>)
    requires
        has_text(text, needle),
    ensures
        has_text(text + more, needle),
{
    let i = choose|i: int| occurs_at(text, needle, i);
    assert((text + more).subrange(i, i + needle.len()) =~= text.subrange(i, i + needle.len()));
    assert(occurs_at(text + more, needle, i));
}

/// A text stands in every text that it is a piece of.
pub proof fn has_text_between(before: Seq<char>, needle: Seq<char>, after: Seq<char>)
    ensures
        has_text(before + needle + after, needle),
{
    let i = before.len() as int;
    assert((before + needle + after).subrange(i, i + needle.len()) =~= needle);
    assert(occurs_at(before + needle + after, needle, i));
}

fn matches_at(hay: &Vec<char>, needle: &Vec<char>, at: usize) -> (yes: bool)
    requires
        at <= hay.len(),
    ensures
        yes == occurs_at(hay@, needle@, at as int),
{
    if hay.len() - at < needle.len() {
        return false;
    }
    let mut k: usize = 0;
    while k < needle.len()
        invariant
            at + needle.len() <= hay.len(),
            k <= needle.len(),
            forall|j: int| 0 <= j < k ==> hay@[at + j] == needle@[j],
        decreases needle.len() - k,
    {
        if hay[at + k] != needle[k] {
            proof {
                assert(hay@.subrange(at as int, at + needle@.len())[k as int] == hay@[at + k]);
            }
            return false;
        }
        k = k + 1;
    }
    assert(hay@.subrange(at as int, at + needle@.len()) =~= needle@);
    true
}

/// Whether `needle` stands somewhere in `hay`.
pub fn contains_text(hay: &str, needle: &str) -> (yes: bool)
    ensures
        yes == has_text(hay@, needle@),
{
    let hay_chars = chars_of(hay);
    let needle_chars = chars_of(needle);
    let mut i: usize = 0;
    while i < hay_chars.len()
        invariant
            hay_chars@ == hay@,
            needle_chars@ == needle@,
            i <= hay_chars.len(),
            forall|j: int| 0 <= j < i ==> !occurs_at(hay@, needle@, j),
        decreases hay_chars.len() - i,
    {
        if matches_at(&hay_chars, &needle_chars, i) {
            return true;
        }
        i = i + 1;
    }
    matches_at(&hay_chars, &needle_chars, i)
}

/// What follows `prefix` in a text that begins with it.
pub open spec fn without_prefix(text: Seq<char>, prefix: Seq<char>) -> Option<Seq<char>> {
    if begins_with(text, prefix) {
        Some(text.skip(prefix.len() as int))
    } else {
        None
    }
}

/// What follows `prefix` in `text`, or `None` where `text` does not begin with it.
pub fn strip_text_prefix(text: &str, prefix: &str) -> (rest: Option<String>)
    ensures
        rest.deep_view() == without_prefix(text@, prefix@),
{
    let chars = chars_of(text);
    let prefix_chars = chars_of(prefix);
    if matches_at(&chars, &prefix_chars, 0) {
        Some(slice_text(&chars, prefix_chars.len(), chars.len()))
    } else {
        None
    }
}

/// The position of the first `c`.
pub fn find_char(chars: &Vec<char>, c: char) -> (at: Option<usize>)
    ensures
        match at {
            Some(i) => chars@.index_of_first(c) == Some(i as int) && i < chars.len(),
            None => chars@.index_of_first(c) is None && !chars@.contains(c),
        },
{
    let mut i: usize = 0;
    while i < chars.len()
        invariant
            i <= chars.len(),
            forall|j: int| 0 <= j < i ==> chars@[j] != c,
        decreases chars.len() - i,
    {
        if chars[i] == c {
            proof {
                chars@.index_of_first_ensures(c);
            }
            return Some(i);
        }
        i = i + 1;
    }
    proof {
        chars@.index_of_first_ensures(c);
    }
    None
}

/// The position of the last `c`.
pub fn rfind_char(chars: &Vec<char>, c: char) -> (at: Option<usize>)
    ensures
        match at {
            Some(i) => chars@.index_of_last(c) == Some(i as int) && i < chars.len(),
            None => chars@.index_of_last(c) is None && !chars@.contains(c),
        },
{
    let mut i: usize = chars.len();
    while i > 0
        invariant
            i <= chars.len(),
            forall|j: int| i <= j < chars.len() ==> chars@[j] != c,
        decreases i,
    {
        i = i - 1;
        if chars[i] == c {
            proof {
                chars@.index_of_last_ensures(c);
            }
            return Some(i);
        }
    }
    proof {
        chars@.index_of_last_ensures(c);
    }
    None
}

// ---------------------------------------------------------------------------
// Trimming
// ---------------------------------------------------------------------------

/// `text` without white space at its two ends.
pub open spec fn trimmed(text: Seq<char>) -> Seq<char>
    decreases text.len(),
{
    if text.len() == 0 {
        text
    } else if is_white_space(text.first()) {
        trimmed(text.drop_first())
    } else if is_white_space(text.last()) {
        trimmed(text.drop_last())
    } else {
        text
    }
}

/// `text` without white space at its two ends.
pub fn trim_text(text: &str) -> (core: String)
    ensures
        core@ == trimmed(text@),
{
    let chars = chars_of(text);
    let mut from: usize = 0;
    let mut to: usize = chars.len();
    assert(chars@.subrange(0, chars@.len() as int) =~= chars@);
    while from < to && white_space(chars[from])
        invariant
            from <= to == chars.len(),
            trimmed(chars@.subrange(from as int, to as int)) == trimmed(chars@),
        decreases to - from,
    {
        proof {
            let rest = chars@.subrange(from as int, to as int);
            assert(rest.drop_first() =~= chars@.subrange(from + 1, to as int));
        }
        from = from + 1;
    }
    while from < to && white_space(chars[to - 1])
        invariant
            from <= to <= chars.len(),
            from < to ==> !is_white_space(chars@[from as int]),
            trimmed(chars@.subrange(from as int, to as int)) == trimmed(chars@),
        decreases to - from,
    {
        proof {
            let rest = chars@.subrange(from as int, to as int);
            assert(rest.drop_last() =~= chars@.subrange(from as int, to - 1));
            assert(rest.first() == chars@[from as int]);
        }
        to = to - 1;
    }
    slice_text(&chars, from, to)
}

// ---------------------------------------------------------------------------
// Words, fields and lines
// ---------------------------------------------------------------------------

/// The longest beginning of `text` without white space.
pub open spec fn leading_word(text: Seq<char>) -> Seq<char>
    decreases text.len(),
{
    if text.len() == 0 || is_white_space(text.first()) {
        Seq::empty()
    } else {
        seq![text.first()] + leading_word(text.drop_first())
    }
}

/// The first word of `text`, where words are parted by white space.
pub open spec fn first_word_of(text: Seq<char>) -> Option<Seq<char>>
    decreases text.len(),
{
    if text.len() == 0 {
        None
    } else if is_white_space(text.first()) {
        first_word_of(text.drop_first())
    } else {
        Some(leading_word(text))
    }
}

/// The first word of `text`, or `None` where `text` holds only white space.
pub fn first_word(text: &str) -> (word: Option<String>)
    ensures
        word.deep_view() == first_word_of(text@),
{
    let chars = chars_of(text);
    let mut from: usize = 0;
    assert(chars@.skip(0) =~= chars@);
    while from < chars.len() && white_space(chars[from])
        invariant
            from <= chars.len(),
            first_word_of(chars@.skip(from as int)) == first_word_of(chars@),
        decreases chars.len() - from,
    {
        proof {
            assert(chars@.skip(from as int).drop_first() =~= chars@.skip(from + 1));
        }
        from = from + 1;
    }
    if from == chars.len() {
        return None;
    }
    let mut to: usize = from;
    assert(chars@.subrange(from as int, from as int) + leading_word(chars@.skip(from as int))
        =~= leading_word(chars@.skip(from as int)));
    while to < chars.len() && !white_space(chars[to])
        invariant
            from <= to <= chars.len(),
            leading_word(chars@.skip(from as int)) == chars@.subrange(from as int, to as int)
                + leading_word(chars@.skip(to as int)),
        decreases chars.len() - to,
    {
        proof {
            let rest = chars@.skip(to as int);
            assert(rest.drop_first() =~= chars@.skip(to + 1));
            assert(chars@.subrange(from as int, to as int) + leading_word(rest) =~= chars@.subrange(
                from as int,
                to + 1,
            ) + leading_word(chars@.skip(to + 1)));
        }
        to = to + 1;
    }
    assert(leading_word(chars@.skip(to as int)) =~= Seq::empty());
    assert(leading_word(chars@.skip(from as int)) =~= chars@.subrange(from as int, to as int));
    Some(slice_text(&chars, from, to))
}

/// What stands before the first `separator`, or the whole text where there is none.
pub open spec fn before_char(text: Seq<char>, separator: char) -> Seq<char> {
    match text.index_of_first(separator) {
        Some(i) => text.take(i),
        None => text,
    }
}

/// What stands before the first `separator`, or the whole text where there is none.
pub fn text_before(text: &str, separator: char) -> (head: String)
    ensures
        head@ == before_char(text@, separator),
{
    let chars = chars_of(text);
    let to: usize = match find_char(&chars, separator) {
        Some(i) => i,
        None => chars.len(),
    };
    assert(chars@.subrange(0, chars@.len() as int) =~= chars@);
    slice_text(&chars, 0, to)
}

/// `line` without one carriage return at its end.
pub open spec fn without_carriage_return(line: Seq<char>) -> Seq<char> {
    if line.len() > 0 && line.last() == '\r' {
        line.drop_last()
    } else {
        line
    }
}

/// The lines of `text`.
///
/// A line ends with a line feed, or with a carriage return and a line feed. The
/// last line needs no end, and the empty text after the last line feed is no line.
pub open spec fn lines_of(text: Seq<char>) -> Seq<Seq<char>>
    decreases text.len(),
    via lines_of_terminates
{
    if text.len() == 0 {
        Seq::empty()
    } else {
        match text.index_of_first('\n') {
            Some(i) => seq![without_carriage_return(text.take(i))] + lines_of(text.skip(i + 1)),
            None => seq![text],
        }
    }
}

#[via_fn]
proof fn lines_of_terminates(text: Seq<char>) {
    text.index_of_first_ensures('\n');
}

/// The lines of `text`.
pub fn split_lines(text: &str) -> (lines: Vec<String>)
    ensures
        lines.deep_view() == lines_of(text@),
{
    let chars = chars_of(text);
    let mut lines: Vec<String> = Vec::new();
    let mut from: usize = 0;
    let mut at: usize = 0;
    assert(chars@.skip(0) =~= chars@);
    assert(lines.deep_view() + lines_of(chars@) =~= lines_of(chars@));
    while at < chars.len()
        invariant
            from <= at <= chars.len(),
            forall|j: int| from <= j < at ==> chars@[j] != '\n',
            lines.deep_view() + lines_of(chars@.skip(from as int)) == lines_of(chars@),
        decreases chars.len() - at,
    {
        if chars[at] == '\n' {
            let to: usize = if at > from && chars[at - 1] == '\r' {
                at - 1
            } else {
                at
            };
            let ghost before = lines.deep_view();
            let line = slice_text(&chars, from, to);
            proof {
                let rest = chars@.skip(from as int);
                rest.index_of_first_ensures('\n');
                assert(rest[at - from] == '\n');
                let i = rest.index_of_first('\n')->0;
                assert(rest[i] == chars@[from + i]);
                assert(i == at - from);
                assert(rest.take(i) =~= chars@.subrange(from as int, at as int));
                assert(without_carriage_return(rest.take(i)) =~= line@);
                assert(rest.skip(i + 1) =~= chars@.skip(at + 1));
            }
            lines.push(line);
            proof {
                assert(lines.deep_view() =~= before.push(line@));
                assert(before + (seq![line@] + lines_of(chars@.skip(at + 1)))
                    =~= lines.deep_view() + lines_of(chars@.skip(at + 1)));
            }
            from = at + 1;
        }
        at = at + 1;
    }
    let ghost before = lines.deep_view();
    if from < chars.len() {
        let line = slice_text(&chars, from, chars.len());
        proof {
            let rest = chars@.skip(from as int);
            rest.index_of_first_ensures('\n');
            assert(rest =~= line@);
            if rest.contains('\n') {
                let j = choose|j: int| 0 <= j < rest.len() && rest[j] == '\n';
                assert(chars@[from + j] == '\n');
            }
            assert(lines_of(rest) =~= seq![line@]);
        }
        lines.push(line);
        assert(lines.deep_view() =~= before + seq![line@]);
    } else {
        assert(lines_of(chars@.skip(from as int)) =~= Seq::empty());
        assert(lines.deep_view() =~= before + lines_of(chars@.skip(from as int)));
    }
    lines
}

/// The parts in order, with `separator` between each two neighbours.
pub open spec fn joined(parts: Seq<Seq<char>>, separator: Seq<char>) -> Seq<char>
    decreases parts.len(),
{
    if parts.len() == 0 {
        Seq::empty()
    } else if parts.len() == 1 {
        parts.first()
    } else {
        parts.first() + separator + joined(parts.drop_first(), separator)
    }
}

proof fn lemma_joined_push(parts: Seq<Seq<char>>, separator: Seq<char>, part: Seq<char>)
    requires
        parts.len() > 0,
    ensures
        joined(parts.push(part), separator) == joined(parts, separator) + separator + part,
    decreases parts.len(),
{
    let longer = parts.push(part);
    assert(longer.first() == parts.first());
    assert(longer.drop_first() =~= parts.drop_first().push(part));
    if parts.len() == 1 {
        assert(parts.drop_first().push(part) =~= seq![part]);
        assert(joined(seq![part], separator) == part);
    } else {
        lemma_joined_push(parts.drop_first(), separator, part);
    }
    assert(joined(longer, separator) =~= joined(parts, separator) + separator + part);
}

/// The parts from `from` on, with `separator` between each two neighbours.
pub fn join_from(parts: &Vec<String>, from: usize, separator: &str) -> (text: String)
    requires
        from <= parts.len(),
    ensures
        text@ == joined(parts.deep_view().skip(from as int), separator@),
{
    let mut text = String::new();
    let mut i: usize = from;
    while i < parts.len()
        invariant
            from <= i <= parts.len(),
            text@ == joined(parts.deep_view().subrange(from as int, i as int), separator@),
        decreases parts.len() - i,
    {
        let ghost done = parts.deep_view().subrange(from as int, i as int);
        let ghost part = parts@[i as int]@;
        proof {
            assert(parts.deep_view().subrange(from as int, i + 1) =~= done.push(part));
            if i > from {
                lemma_joined_push(done, separator@, part);
            } else {
                assert(done.push(part) =~= seq![part]);
                assert(joined(seq![part], separator@) == part);
            }
        }
        if i > from {
            text.append(separator);
        }
        text.append(parts[i].as_str());
        assert(text@ =~= joined(done.push(part), separator@));
        i = i + 1;
    }
    assert(parts.deep_view().subrange(from as int, i as int) =~= parts.deep_view().skip(
        from as int,
    ));
    text
}

/// Two texts in a row.
pub fn concat2(a: &str, b: &str) -> (text: String)
    ensures
        text@ == a@ + b@,
{
    let mut text = a.to_string();
    text.append(b);
    text
}

/// Three texts in a row.
pub fn concat3(a: &str, b: &str, c: &str) -> (text: String)
    ensures
        text@ == a@ + b@ + c@,
{
    let mut text = concat2(a, b);
    text.append(c);
    text
}

// ---------------------------------------------------------------------------
// Numbers
// ---------------------------------------------------------------------------

/// The decimal digit of `d`, for `d` under ten.
pub open spec fn digit(d: nat) -> char {
    ('0' as nat + d) as char
}

/// `n` in decimal, without leading zeros.
pub open spec fn decimal(n: nat) -> Seq<char>
    decreases n,
{
    if n < 10 {
        seq![digit(n)]
    } else {
        decimal(n / 10).push(digit(n % 10))
    }
}

/// `n` in decimal, without leading zeros.
pub fn decimal_text(n: u64) -> (text: String)
    ensures
        text@ == decimal(n as nat),
    decreases n,
{
    let last: char = ('0' as u8 + (n % 10) as u8) as char;
    let mut text = if n < 10 {
        String::new()
    } else {
        decimal_text(n / 10)
    };
    text.push(last);
    assert(text@ =~= decimal(n as nat));
    text
}

/// Whether `c` is a decimal digit.
pub open spec fn is_digit(c: char) -> bool {
    '0' <= c && c <= '9'
}

/// Whether `text` is one decimal digit or more.
pub open spec fn all_digits(text: Seq<char>) -> bool {
    text.len() > 0 && forall|i: int| 0 <= i < text.len() ==> is_digit(#[trigger] text[i])
}

/// The number that the decimal digits of `text` write.
pub open spec fn digits_value(text: Seq<char>) -> nat
    decreases text.len(),
{
    if text.len() == 0 {
        0
    } else {
        (digits_value(text.drop_last()) * 10 + (text.last() as nat - '0' as nat)) as nat
    }
}

/// The number that `text` writes: an optional sign, then decimal digits.
pub open spec fn signed_value(text: Seq<char>) -> Option<int> {
    if text.len() > 0 && text.first() == '-' {
        if all_digits(text.skip(1)) {
            Some(-digits_value(text.skip(1)))
        } else {
            None
        }
    } else if text.len() > 0 && text.first() == '+' {
        if all_digits(text.skip(1)) {
            Some(digits_value(text.skip(1)) as int)
        } else {
            None
        }
    } else if all_digits(text) {
        Some(digits_value(text) as int)
    } else {
        None
    }
}

/// The `i32` that `text` writes, where it writes a number in range.
pub open spec fn parsed_i32(text: Seq<char>) -> Option<i32> {
    match signed_value(text) {
        Some(v) => if i32::MIN <= v <= i32::MAX {
            Some(v as i32)
        } else {
            None
        },
        None => None,
    }
}

proof fn lemma_digits_value_grows(text: Seq<char>, n: int)
    requires
        all_digits(text),
        0 <= n <= text.len(),
    ensures
        digits_value(text.take(n)) <= digits_value(text),
    decreases text.len() - n,
{
    if n < text.len() {
        assert(text.take(n + 1).drop_last() =~= text.take(n));
        assert(is_digit(text[n]));
        lemma_digits_value_grows(text, n + 1);
    } else {
        assert(text.take(n) =~= text);
    }
}

/// The number that the digits from `from` on write, where it is at most `limit`.
fn parse_digits(chars: &Vec<char>, from: usize, limit: u64) -> (value: Option<u64>)
    requires
        from <= chars.len(),
        limit <= 0x1_0000_0000,
    ensures
        match value {
            Some(v) => all_digits(chars@.skip(from as int)) && digits_value(
                chars@.skip(from as int),
            ) == v && v <= limit,
            None => all_digits(chars@.skip(from as int)) ==> digits_value(chars@.skip(from as int))
                > limit,
        },
{
    let ghost digits = chars@.skip(from as int);
    if from == chars.len() {
        return None;
    }
    let mut value: u64 = 0;
    let mut i: usize = from;
    assert(digits.take(0) =~= Seq::empty());
    while i < chars.len()
        invariant
            from <= i <= chars.len(),
            limit <= 0x1_0000_0000,
            digits == chars@.skip(from as int),
            value <= limit,
            value == digits_value(digits.take(i - from)),
            forall|j: int| 0 <= j < i - from ==> is_digit(#[trigger] digits[j]),
        decreases chars.len() - i,
    {
        let c: char = chars[i];
        assert(c == digits[i - from]);
        if !('0' <= c && c <= '9') {
            return None;
        }
        value = value * 10 + (c as u64 - '0' as u64);
        assert(digits.take(i - from + 1).drop_last() =~= digits.take(i - from));
        if value > limit {
            proof {
                if all_digits(digits) {
                    lemma_digits_value_grows(digits, i - from + 1);
                }
            }
            return None;
        }
        i = i + 1;
    }
    assert(digits.take(i - from) =~= digits);
    Some(value)
}

/// The `i32` that `text` writes, where it writes a number in range.
pub fn parse_i32(text: &str) -> (value: Option<i32>)
    ensures
        value == parsed_i32(text@),
{
    let chars = chars_of(text);
    assert(chars@.skip(0) =~= chars@);
    if chars.len() > 0 && chars[0] == '-' {
        match parse_digits(&chars, 1, 0x8000_0000) {
            Some(v) => Some((-(v as i64)) as i32),
            None => None,
        }
    } else if chars.len() > 0 && chars[0] == '+' {
        match parse_digits(&chars, 1, 0x7fff_ffff) {
            Some(v) => Some(v as i32),
            None => None,
        }
    } else {
        match parse_digits(&chars, 0, 0x7fff_ffff) {
            Some(v) => Some(v as i32),
            None => None,
        }
    }
}

// ---------------------------------------------------------------------------
// Order
// ---------------------------------------------------------------------------

/// Whether `a` stands before `b` in the order of texts, or is equal to it: the first
/// character in which they differ decides, and a text stands before all that begin
/// with it. UTF-8 bytes are in the same order.
pub open spec fn text_le(a: Seq<char>, b: Seq<char>) -> bool
    decreases a.len(),
{
    if a.len() == 0 {
        true
    } else if b.len() == 0 {
        false
    } else if a.first() == b.first() {
        text_le(a.drop_first(), b.drop_first())
    } else {
        a.first() < b.first()
    }
}

/// The order of texts is total, transitive and antisymmetric.
pub proof fn text_order(a: Seq<char>, b: Seq<char>, c: Seq<char>)
    ensures
        text_le(a, b) || text_le(b, a),
        text_le(a, b) && text_le(b, c) ==> text_le(a, c),
        text_le(a, b) && text_le(b, a) ==> a == b,
    decreases a.len() + b.len() + c.len(),
{
    if a.len() > 0 && b.len() > 0 {
        let tail = if c.len() > 0 {
            c.drop_first()
        } else {
            c
        };
        text_order(a.drop_first(), b.drop_first(), tail);
        if a.first() == b.first() && a.drop_first() == b.drop_first() {
            assert(a =~= seq![a.first()] + a.drop_first());
            assert(b =~= seq![b.first()] + b.drop_first());
        }
    } else if a.len() == 0 && b.len() == 0 {
        assert(a =~= b);
    }
}

/// Whether `a` stands before `b` in the order of texts, or is equal to it.
pub fn in_order(a: &str, b: &str) -> (yes: bool)
    ensures
        yes == text_le(a@, b@),
{
    let left = chars_of(a);
    let right = chars_of(b);
    let mut i: usize = 0;
    assert(left@.skip(0) =~= left@);
    assert(right@.skip(0) =~= right@);
    while i < left.len() && i < right.len()
        invariant
            left@ == a@,
            right@ == b@,
            i <= left.len(),
            i <= right.len(),
            text_le(left@.skip(i as int), right@.skip(i as int)) == text_le(a@, b@),
        decreases left.len() - i,
    {
        proof {
            assert(left@.skip(i as int).drop_first() =~= left@.skip(i + 1));
            assert(right@.skip(i as int).drop_first() =~= right@.skip(i + 1));
        }
        if left[i] != right[i] {
            return left[i] < right[i];
        }
        i = i + 1;
    }
    i == left.len()
}

// ---------------------------------------------------------------------------
// Laws
// ---------------------------------------------------------------------------

/// Trimming leaves no white space at either end, and changes nothing where there is
/// none.
pub proof fn trimmed_is_trim(text: Seq<char>)
    ensures
        trimmed(text).len() > 0 ==> !is_white_space(trimmed(text).first()) && !is_white_space(
            trimmed(text).last(),
        ),
        trimmed(trimmed(text)) == trimmed(text),
        trimmed(text).len() <= text.len(),
    decreases text.len(),
{
    if text.len() > 0 {
        if is_white_space(text.first()) {
            trimmed_is_trim(text.drop_first());
        } else if is_white_space(text.last()) {
            trimmed_is_trim(text.drop_last());
        }
    }
}

/// A number written in decimal is all digits, and reads back as itself.
pub proof fn decimal_reads_back(n: nat)
    ensures
        all_digits(decimal(n)),
        digits_value(decimal(n)) == n,
        signed_value(decimal(n)) == Some(n as int),
        n <= i32::MAX ==> parsed_i32(decimal(n)) == Some(n as i32),
        n > i32::MAX ==> parsed_i32(decimal(n)) is None,
    decreases n,
{
    let text = decimal(n);
    if n < 10 {
        assert(text.drop_last() =~= Seq::empty());
        assert(n % 10 == n && n / 10 == 0);
    } else {
        decimal_reads_back(n / 10);
        assert(text.drop_last() =~= decimal(n / 10));
    }
    assert(is_digit(digit(n % 10)));
    assert(text.last() == digit(n % 10));
    assert(digits_value(text.drop_last()) == n / 10);
    assert(digits_value(text) == n);
    assert forall|i: int| 0 <= i < text.len() implies is_digit(#[trigger] text[i]) by {
        if i < text.len() - 1 {
            assert(text[i] == decimal(n / 10)[i]);
        }
    }
    assert(is_digit(text[0]));
}

/// Different numbers are written differently.
pub proof fn decimal_is_injective(a: nat, b: nat)
    requires
        decimal(a) == decimal(b),
    ensures
        a == b,
{
    decimal_reads_back(a);
    decimal_reads_back(b);
}

/// A number written in decimal has no white space at its ends.
pub proof fn decimal_is_trimmed(n: nat)
    ensures
        trimmed(decimal(n)) == decimal(n),
{
    decimal_reads_back(n);
    let text = decimal(n);
    assert(is_digit(text[0]) && is_digit(text[text.len() - 1]));
}

/// The white space characters are the code points that Unicode gives the property
/// `White_Space`.
pub proof fn white_space_is_that_of_unicode(c: char)
    ensures
        is_white_space(c) <==> ({
            let n = c as u32;
            ||| 9 <= n <= 13
            ||| n == 0x20
            ||| n == 0x85
            ||| n == 0xa0
            ||| n == 0x1680
            ||| 0x2000 <= n <= 0x200a
            ||| n == 0x2028
            ||| n == 0x2029
            ||| n == 0x202f
            ||| n == 0x205f
            ||| n == 0x3000
        }),
{
}

/// Trimming takes off all white space around a text and nothing of the text itself.
pub proof fn trimming_takes_off_the_ends(before: Seq<char>, core: Seq<char>, after: Seq<char>)
    requires
        forall|i: int| 0 <= i < before.len() ==> is_white_space(#[trigger] before[i]),
        forall|i: int| 0 <= i < after.len() ==> is_white_space(#[trigger] after[i]),
        core.len() > 0 ==> !is_white_space(core.first()) && !is_white_space(core.last()),
    ensures
        trimmed(before + core + after) == core,
    decreases before.len() + after.len(),
{
    let text = before + core + after;
    if before.len() > 0 {
        assert(text.first() == before[0]);
        assert(text.drop_first() =~= before.drop_first() + core + after);
        trimming_takes_off_the_ends(before.drop_first(), core, after);
    } else if after.len() > 0 {
        if core.len() == 0 {
            assert(text.first() == after[0]);
            assert(text.drop_first() =~= before + core + after.drop_first());
            trimming_takes_off_the_ends(before, core, after.drop_first());
        } else {
            assert(text.first() == core.first());
            assert(text.last() == after[after.len() - 1]);
            assert(text.drop_last() =~= before + core + after.drop_last());
            trimming_takes_off_the_ends(before, core, after.drop_last());
        }
    } else {
        assert(text =~= core);
    }
}

/// What stands in a text parts it in two: what comes before it and what follows.
pub proof fn has_text_parts_the_text(hay: Seq<char>, needle: Seq<char>)
    requires
        has_text(hay, needle),
    ensures
        exists|before: Seq<char>, after: Seq<char>| hay == #[trigger] (before + needle + after),
{
    let i = choose|i: int| occurs_at(hay, needle, i);
    let before = hay.take(i);
    let after = hay.skip(i + needle.len());
    assert(hay =~= (before + needle) + after);
}

/// Stripping a prefix undoes putting it in front, and strips nothing else.
pub proof fn stripping_undoes_the_prefix(prefix: Seq<char>, text: Seq<char>)
    ensures
        without_prefix(prefix + text, prefix) == Some(text),
        without_prefix(text, prefix) matches Some(rest) ==> text == prefix + rest,
{
    let whole = prefix + text;
    assert(whole.subrange(0, prefix.len() as int) =~= prefix);
    assert(whole.skip(prefix.len() as int) =~= text);
    if begins_with(text, prefix) {
        assert(text =~= text.subrange(0, prefix.len() as int) + text.skip(prefix.len() as int));
    }
}

proof fn lemma_leading_word(word: Seq<char>, after: Seq<char>)
    requires
        forall|i: int| 0 <= i < word.len() ==> !is_white_space(#[trigger] word[i]),
        after.len() > 0 ==> is_white_space(after.first()),
    ensures
        leading_word(word + after) == word,
    decreases word.len(),
{
    let text = word + after;
    if word.len() > 0 {
        assert(text.first() == word[0]);
        assert(text.drop_first() =~= word.drop_first() + after);
        lemma_leading_word(word.drop_first(), after);
        assert(seq![word[0]] + word.drop_first() =~= word);
    } else {
        assert(text =~= after);
        assert(leading_word(text) =~= word);
    }
}

/// The first word of a text is what stands between its leading white space and the next white
/// space. A text of white space alone has none.
pub proof fn first_word_ends_at_white_space(before: Seq<char>, word: Seq<char>, after: Seq<char>)
    requires
        forall|i: int| 0 <= i < before.len() ==> is_white_space(#[trigger] before[i]),
        forall|i: int| 0 <= i < word.len() ==> !is_white_space(#[trigger] word[i]),
        after.len() > 0 ==> is_white_space(after.first()),
    ensures
        word.len() > 0 ==> first_word_of(before + word + after) == Some(word),
        first_word_of(before) is None,
    decreases before.len(),
{
    let text = before + word + after;
    if before.len() > 0 {
        assert(text.first() == before[0]);
        assert(text.drop_first() =~= before.drop_first() + word + after);
        first_word_ends_at_white_space(before.drop_first(), word, after);
    } else if word.len() > 0 {
        assert(text =~= word + after);
        assert(text.first() == word[0]);
        lemma_leading_word(word, after);
    }
}

/// What stands before the first separator is what comes before it, whatever follows.
pub proof fn text_is_cut_at_the_separator(head: Seq<char>, separator: char, tail: Seq<char>)
    requires
        !head.contains(separator),
    ensures
        before_char(head + seq![separator] + tail, separator) == head,
        before_char(head, separator) == head,
{
    let text = head + seq![separator] + tail;
    let at = head.len() as int;
    text.index_of_first_ensures(separator);
    head.index_of_first_ensures(separator);
    assert(text[at] == separator);
    let i = text.index_of_first(separator)->0;
    if i < at {
        assert(head[i] == separator);
    }
    assert(text.take(at) =~= head);
}

/// A line feed ends a line, whatever follows: the line is what stands before it, without a
/// carriage return at its end. What no line feed ends is a line of its own, unless it is empty.
pub proof fn line_feeds_end_lines(line: Seq<char>, rest: Seq<char>)
    requires
        !line.contains('\n'),
    ensures
        lines_of(line + seq!['\n'] + rest) == seq![
            if line.len() > 0 && line.last() == '\r' {
                line.drop_last()
            } else {
                line
            },
        ] + lines_of(rest),
        line.len() > 0 ==> lines_of(line) == seq![line],
        lines_of(Seq::empty()) == Seq::<Seq<char>>::empty(),
{
    let text = line + seq!['\n'] + rest;
    let at = line.len() as int;
    text.index_of_first_ensures('\n');
    line.index_of_first_ensures('\n');
    assert(text[at] == '\n');
    let i = text.index_of_first('\n')->0;
    if i < at {
        assert(line[i] == '\n');
    }
    assert(text.take(at) =~= line);
    assert(text.skip(at + 1) =~= rest);
}

/// Joined parts stand in their order with one separator between each two, and none at the
/// ends.
pub proof fn joining_puts_separators_between(
    part: Seq<char>,
    rest: Seq<Seq<char>>,
    separator: Seq<char>,
)
    ensures
        joined(Seq::empty(), separator) == Seq::<char>::empty(),
        joined(seq![part], separator) == part,
        rest.len() > 0 ==> joined(seq![part] + rest, separator) == part + separator + joined(
            rest,
            separator,
        ),
{
    let parts = seq![part] + rest;
    assert(parts.drop_first() =~= rest);
}

/// A number is written digit by digit: those of its tens, then its last one. No number but
/// zero begins with a zero.
pub proof fn decimal_is_written_digit_by_digit(n: nat, d: nat)
    requires
        d < 10,
    ensures
        decimal(d).len() == 1 && decimal(d)[0] as nat == 48 + d,
        n > 0 ==> decimal(n * 10 + d) == decimal(n) + decimal(d),
        decimal(n).len() > 0,
        decimal(n)[0] == '0' ==> n == 0,
    decreases n,
{
    if n > 0 {
        assert((n * 10 + d) / 10 == n && (n * 10 + d) % 10 == d);
        assert(decimal(n * 10 + d) =~= decimal(n) + decimal(d));
    }
    if n >= 10 {
        decimal_is_written_digit_by_digit(n / 10, n % 10);
        assert(decimal(n)[0] == decimal(n / 10)[0]);
    }
}

/// A number is read with its sign: written in decimal with a minus in front it reads as the
/// negative number, and with a plus as itself, where it is in range.
pub proof fn number_is_read_with_its_sign(n: nat)
    ensures
        parsed_i32(seq!['-'] + decimal(n)) == (if n <= 0x8000_0000 {
            Some((-n) as i32)
        } else {
            None
        }),
        parsed_i32(seq!['+'] + decimal(n)) == parsed_i32(decimal(n)),
        parsed_i32(decimal(n)) == (if n <= 0x7fff_ffff {
            Some(n as i32)
        } else {
            None
        }),
{
    decimal_reads_back(n);
    assert((seq!['-'] + decimal(n)).skip(1) =~= decimal(n));
    assert((seq!['+'] + decimal(n)).skip(1) =~= decimal(n));
}

/// A text with anything but digits behind its sign is no number, and neither is one without
/// digits.
pub proof fn other_text_is_no_number(text: Seq<char>, i: int)
    requires
        text.len() > 0 ==> 0 <= i < text.len(),
        text.len() > 0 ==> !('0' <= text[i] && text[i] <= '9'),
        i == 0 && text.len() > 1 ==> text[0] != '-' && text[0] != '+',
    ensures
        parsed_i32(text) is None,
{
    if text.len() > 0 && all_digits(text) {
        assert(is_digit(text[i]));
    }
    if text.len() > 1 && all_digits(text.skip(1)) && i > 0 {
        assert(is_digit(text.skip(1)[i - 1]));
    }
}

/// Behind what two texts have in common, the first character in which they differ decides
/// their order, and where there is none the shorter text comes first.
pub proof fn first_difference_decides_the_order(common: Seq<char>, a: Seq<char>, b: Seq<char>)
    requires
        a.len() > 0 && b.len() > 0 ==> a.first() != b.first(),
    ensures
        text_le(common + a, common + b) <==> a.len() == 0 || (b.len() > 0 && (a.first() as int)
            < (b.first() as int)),
    decreases common.len(),
{
    if common.len() > 0 {
        assert((common + a).drop_first() =~= common.drop_first() + a);
        assert((common + b).drop_first() =~= common.drop_first() + b);
        assert((common + a).first() == common.first());
        assert((common + b).first() == common.first());
        first_difference_decides_the_order(common.drop_first(), a, b);
    } else {
        assert(common + a =~= a);
        assert(common + b =~= b);
    }
}

/// Every part stands in the joined text.
pub proof fn part_stands_in_the_joined_text(parts: Seq<Seq<char>>, separator: Seq<char>, i: int)
    requires
        0 <= i < parts.len(),
    ensures
        has_text(joined(parts, separator), parts[i]),
    decreases parts.len(),
{
    let whole = joined(parts, separator);
    if parts.len() == 1 {
        assert(whole.subrange(0, whole.len() as int) =~= parts[0]);
        assert(occurs_at(whole, parts[0], 0));
    } else if i == 0 {
        assert(whole.subrange(0, parts[0].len() as int) =~= parts[0]);
        assert(occurs_at(whole, parts[0], 0));
    } else {
        let rest = parts.drop_first();
        part_stands_in_the_joined_text(rest, separator, i - 1);
        let tail = joined(rest, separator);
        let part = parts[i];
        let at = choose|at: int| occurs_at(tail, part, at);
        let n = (parts[0] + separator).len() as int;
        assert(whole.subrange(n + at, n + at + part.len()) =~= tail.subrange(at, at + part.len()));
        assert(occurs_at(whole, part, n + at));
    }
}

/// A text that is not blank is not blank when it is trimmed.
pub proof fn trimming_keeps_a_text_that_is_not_blank(text: Seq<char>, i: int)
    requires
        0 <= i < text.len(),
        !is_white_space(text[i]),
    ensures
        trimmed(text).len() > 0,
    decreases text.len(),
{
    if is_white_space(text.first()) {
        assert(text.drop_first()[i - 1] == text[i]);
        trimming_keeps_a_text_that_is_not_blank(text.drop_first(), i - 1);
    } else if is_white_space(text.last()) {
        assert(text.drop_last()[i] == text[i]);
        trimming_keeps_a_text_that_is_not_blank(text.drop_last(), i);
    }
}

proof fn lemma_leading_zero(digits: Seq<char>)
    ensures
        digits_value(seq!['0'] + digits) == digits_value(digits),
    decreases digits.len(),
{
    let longer = seq!['0'] + digits;
    if digits.len() > 0 {
        assert(longer.drop_last() =~= seq!['0'] + digits.drop_last());
        assert(longer.last() == digits.last());
        lemma_leading_zero(digits.drop_last());
    } else {
        assert(longer.drop_last() =~= Seq::empty());
        assert(longer.last() == '0');
        assert(digits_value(longer.drop_last()) == 0);
        assert(digits_value(digits) == 0);
    }
}

/// Zeros in front of a number do not matter.
pub proof fn leading_zeros_do_not_matter(digits: Seq<char>)
    requires
        digits.len() > 0,
        forall|i: int| 0 <= i < digits.len() ==> '0' <= #[trigger] digits[i] && digits[i] <= '9',
    ensures
        parsed_i32(seq!['0'] + digits) == parsed_i32(digits),
{
    let longer = seq!['0'] + digits;
    lemma_leading_zero(digits);
    assert(is_digit(digits[0]));
    assert(longer[0] == '0');
    assert forall|i: int| 0 <= i < longer.len() implies is_digit(#[trigger] longer[i]) by {
        if i > 0 {
            assert(longer[i] == digits[i - 1]);
        }
    }
    assert(all_digits(digits));
    assert(all_digits(longer));
}

}
