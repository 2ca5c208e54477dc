//! The text of the kernel's process files: lines, words and numbers.
//!
//! The files are read as bytes. A word is a longest run of bytes that are
//! not white space; a line ends at a line feed or at the end of the text.

use vstd::prelude::*;
use vstd::slice::slice_subrange;

verus! {

/// Whether `byte` is white space: a blank, or one of the controls from
/// horizontal tab to carriage return.
pub open spec fn is_space(byte: u8) -> bool {
    byte == 32 || (9 <= byte && byte <= 13)
}

/// Whether `byte` is a decimal digit.
pub open spec fn is_digit(byte: u8) -> bool {
    48 <= byte && byte <= 57
}

/// The first place at or after `from` where no white space stands, or the
/// end of the text.
pub open spec fn skip_spaces(text: Seq<u8>, from: int) -> int
    decreases text.len() - from,
{
    if 0 <= from < text.len() && is_space(text[from]) {
        skip_spaces(text, from + 1)
    } else {
        from
    }
}

/// The first place at or after `from` where white space stands, or the end
/// of the text.
pub open spec fn skip_word(text: Seq<u8>, from: int) -> int
    decreases text.len() - from,
{
    if 0 <= from < text.len() && !is_space(text[from]) {
        skip_word(text, from + 1)
    } else {
        from
    }
}

/// The place where the word of index `n` begins, counting from 0; the end of
/// the text where there are not that many words.
pub open spec fn word_start(text: Seq<u8>, n: nat) -> int
    decreases n,
{
    if n == 0 {
        skip_spaces(text, 0)
    } else {
        skip_spaces(text, skip_word(text, word_start(text, (n - 1) as nat)))
    }
}

/// The word of index `n`, counting from 0, where the text has that many.
pub open spec fn word(text: Seq<u8>, n: nat) -> Option<Seq<u8>> {
    let start = word_start(text, n);
    if start < text.len() {
        Some(text.subrange(start, skip_word(text, start)))
    } else {
        None
    }
}

/// Whether every byte of `text` is a decimal digit.
pub open spec fn all_digits(text: Seq<u8>) -> bool {
    forall|i: int| 0 <= i < text.len() ==> is_digit(#[trigger] text[i])
}

/// The number that the decimal digits of `text` write.
pub open spec fn digits_value(text: Seq<u8>) -> nat
    decreases text.len(),
{
    if text.len() == 0 {
        0
    } else {
        digits_value(text.drop_last()) * 10 + (text.last() - 48) as nat
    }
}

/// The number that `text` writes without a sign or with a plus sign: at
/// least one digit, and nothing but digits.
pub open spec fn unsigned_number(text: Seq<u8>) -> Option<nat> {
    let digits = if text.len() > 0 && text[0] == 43 {
        text.drop_first()
    } else {
        text
    };
    if digits.len() > 0 && all_digits(digits) {
        Some(digits_value(digits))
    } else {
        None
    }
}

/// The number that `text` writes, with or without a sign.
pub open spec fn signed_number(text: Seq<u8>) -> Option<int> {
    if text.len() > 0 && text[0] == 45 {
        let digits = text.drop_first();
        if digits.len() > 0 && all_digits(digits) {
            Some(-(digits_value(digits) as int))
        } else {
            None
        }
    } else {
        match unsigned_number(text) {
            Some(value) => Some(value as int),
            None => None,
        }
    }
}

/// The `u64` that `text` writes, where it writes one.
pub open spec fn u64_of(text: Seq<u8>) -> Option<u64> {
    match unsigned_number(text) {
        Some(value) => if value <= u64::MAX {
            Some(value as u64)
        } else {
            None
        },
        None => None,
    }
}

/// The `i32` that `text` writes, where it writes one.
pub open spec fn i32_of(text: Seq<u8>) -> Option<i32> {
    match signed_number(text) {
        Some(value) => if i32::MIN <= value <= i32::MAX {
            Some(value as i32)
        } else {
            None
        },
        None => None,
    }
}

/// The place of the line feed that ends the line which holds `from`, or the
/// end of the text.
pub open spec fn line_end(text: Seq<u8>, from: int) -> int
    decreases text.len() - from,
{
    if 0 <= from < text.len() && text[from] != 10 {
        line_end(text, from + 1)
    } else {
        from
    }
}

/// Whether `needle` stands in `line` at the place `at`.
pub open spec fn stands_at(line: Seq<u8>, at: int, needle: Seq<u8>) -> bool {
    0 <= at && at + needle.len() <= line.len() && line.subrange(at, at + needle.len()) == needle
}

/// Whether `needle` stands somewhere in `line`.
pub open spec fn holds(line: Seq<u8>, needle: Seq<u8>) -> bool {
    exists|at: int| 0 <= at <= line.len() && #[trigger] stands_at(line, at, needle)
}

/// Whether `line` is one that is looked for: with `anywhere`, one that holds
/// `needle`; without, one that begins with it.
pub open spec fn is_wanted(line: Seq<u8>, needle: Seq<u8>, anywhere: bool) -> bool {
    if anywhere {
        holds(line, needle)
    } else {
        stands_at(line, 0, needle)
    }
}

/// The first wanted line that begins at or after `from`, where `from` is the
/// beginning of a line. The text after the last line feed counts as a line,
/// also when it is empty.
pub open spec fn first_line(text: Seq<u8>, from: int, needle: Seq<u8>, anywhere: bool) -> Option<
    Seq<u8>,
>
    decreases text.len() - from,
{
    if from < 0 || from > text.len() {
        None
    } else {
        let end = line_end(text, from);
        let line = text.subrange(from, end);
        if is_wanted(line, needle, anywhere) {
            Some(line)
        } else if end < from || end >= text.len() {
            None
        } else {
            first_line(text, end + 1, needle, anywhere)
        }
    }
}

fn is_space_byte(byte: u8) -> (space: bool)
    ensures
        space == is_space(byte),
{
    byte == 32 || (9 <= byte && byte <= 13)
}

/// The first place at or after `from` where no white space stands.
pub fn skip_spaces_from(text: &[u8], from: usize) -> (at: usize)
    requires
        from <= text@.len(),
    ensures
        at == skip_spaces(text@, from as int),
        from <= at <= text@.len(),
{
    let mut at: usize = from;
    while at < text.len() && is_space_byte(text[at])
        invariant
            from <= at <= text@.len(),
            skip_spaces(text@, from as int) == skip_spaces(text@, at as int),
        decreases text@.len() - at,
    {
        at += 1;
    }
    at
}

/// The first place at or after `from` where white space stands.
pub fn skip_word_from(text: &[u8], from: usize) -> (at: usize)
    requires
        from <= text@.len(),
    ensures
        at == skip_word(text@, from as int),
        from <= at <= text@.len(),
{
    let mut at: usize = from;
    while at < text.len() && !is_space_byte(text[at])
        invariant
            from <= at <= text@.len(),
            skip_word(text@, from as int) == skip_word(text@, at as int),
        decreases text@.len() - at,
    {
        at += 1;
    }
    at
}

/// The word of index `n`, counting from 0, where the text has that many.
pub fn nth_word(text: &[u8], n: usize) -> (found: Option<&[u8]>)
    ensures
        match found {
            Some(w) => word(text@, n as nat) == Some(w@),
            None => word(text@, n as nat) is None,
        },
{
    let mut start: usize = skip_spaces_from(text, 0);
    let mut k: usize = 0;
    while k < n
        invariant
            k <= n,
            start <= text@.len(),
            start == word_start(text@, k as nat),
        decreases n - k,
    {
        let end = skip_word_from(text, start);
        start = skip_spaces_from(text, end);
        k += 1;
    }
    if start < text.len() {
        let end = skip_word_from(text, start);
        Some(slice_subrange(text, start, end))
    } else {
        None
    }
}

/// The digits of a longer text write at least the number that its first
/// digits write.
pub proof fn lemma_digits_value_grows(text: Seq<u8>, k: int)
    requires
        0 <= k <= text.len(),
    ensures
        digits_value(text.take(k)) <= digits_value(text),
    decreases text.len() - k,
{
    if k < text.len() {
        assert(text.take(k + 1).drop_last() =~= text.take(k));
        lemma_digits_value_grows(text, k + 1);
    } else {
        assert(text.take(k) =~= text);
    }
}

/// The number that the digits of `text` write, where `text` is nothing but
/// digits, has at least one, and the number fits.
pub fn parse_digits(text: &[u8]) -> (value: Option<u64>)
    ensures
        value == (if text@.len() > 0 && all_digits(text@) && digits_value(text@) <= u64::MAX {
            Some(digits_value(text@) as u64)
        } else {
            None
        }),
{
    if text.len() == 0 {
        return None;
    }
    let mut value: u64 = 0;
    let mut i: usize = 0;
    while i < text.len()
        invariant
            i <= text@.len(),
            all_digits(text@.take(i as int)),
            value == digits_value(text@.take(i as int)),
        decreases text@.len() - i,
    {
        let byte: u8 = text[i];
        if byte < 48 || byte > 57 {
            return None;
        }
        proof {
            assert(text@.take(i + 1).drop_last() =~= text@.take(i as int));
            assert(text@.take(i + 1).last() == byte);
            lemma_digits_value_grows(text@, i + 1);
        }
        let digit: u64 = (byte - 48) as u64;
        let shifted = match value.checked_mul(10) {
            Some(shifted) => shifted,
            None => {
                return None;
            },
        };
        value = match shifted.checked_add(digit) {
            Some(sum) => sum,
            None => {
                return None;
            },
        };
        i += 1;
        assert(all_digits(text@.take(i as int))) by {
            assert forall|j: int| 0 <= j < i implies is_digit(#[trigger] text@.take(i as int)[j]) by {
                if j < i - 1 {
                    assert(text@.take(i - 1)[j] == text@[j]);
                }
            }
        }
    }
    assert(text@.take(i as int) =~= text@);
    Some(value)
}

/// The `u64` that `text` writes: digits, with or without a plus sign before
/// them, where the number fits.
pub fn parse_u64(text: &[u8]) -> (value: Option<u64>)
    ensures
        value == u64_of(text@),
{
    if text.len() > 0 && text[0] == 43 {
        assert(text@.subrange(1, text@.len() as int) =~= text@.drop_first());
        parse_digits(slice_subrange(text, 1, text.len()))
    } else {
        parse_digits(text)
    }
}

/// The `i32` that `text` writes: digits, with or without a sign before them,
/// where the number fits.
pub fn parse_i32(text: &[u8]) -> (value: Option<i32>)
    ensures
        value == i32_of(text@),
{
    if text.len() > 0 && text[0] == 45 {
        assert(text@.subrange(1, text@.len() as int) =~= text@.drop_first());
        match parse_digits(slice_subrange(text, 1, text.len())) {
            Some(magnitude) => {
                if magnitude <= 2_147_483_648 {
                    Some((-(magnitude as i64)) as i32)
                } else {
                    None
                }
            },
            None => None,
        }
    } else {
        match parse_u64(text) {
            Some(magnitude) => {
                if magnitude <= 2_147_483_647 {
                    Some(magnitude as i32)
                } else {
                    None
                }
            },
            None => None,
        }
    }
}

/// The place of the line feed that ends the line which holds `from`.
pub fn line_end_from(text: &[u8], from: usize) -> (at: usize)
    requires
        from <= text@.len(),
    ensures
        at == line_end(text@, from as int),
        from <= at <= text@.len(),
{
    let mut at: usize = from;
    while at < text.len() && text[at] != 10
        invariant
            from <= at <= text@.len(),
            line_end(text@, from as int) == line_end(text@, at as int),
        decreases text@.len() - at,
    {
        at += 1;
    }
    at
}

/// Whether `needle` stands in `line` at the place `at`.
pub fn needle_stands_at(line: &[u8], at: usize, needle: &[u8]) -> (found: bool)
    ensures
        found == stands_at(line@, at as int, needle@),
{
    let length: usize = line.len();
    if at > length || needle.len() > length - at {
        return false;
    }
    let mut i: usize = 0;
    while i < needle.len()
        invariant
            i <= needle@.len(),
            length == line@.len(),
            at + needle@.len() <= line@.len(),
            forall|j: int| 0 <= j < i ==> line@[at + j] == needle@[j],
        decreases needle@.len() - i,
    {
        if line[at + i] != needle[i] {
            assert(line@.subrange(at as int, at + needle@.len())[i as int] != needle@[i as int]);
            return false;
        }
        i += 1;
    }
    assert(line@.subrange(at as int, at + needle@.len()) =~= needle@);
    true
}

/// Whether `needle` stands somewhere in `line`.
pub fn line_holds(line: &[u8], needle: &[u8]) -> (found: bool)
    ensures
        found == holds(line@, needle@),
{
    let mut at: usize = 0;
    while at < line.len()
        invariant
            at <= line@.len(),
            forall|k: int| 0 <= k < at ==> !#[trigger] stands_at(line@, k, needle@),
        decreases line@.len() - at,
    {
        if needle_stands_at(line, at, needle) {
            return true;
        }
        at += 1;
    }
    needle_stands_at(line, at, needle)
}

/// The first line of `text` that is wanted: with `anywhere`, one that holds
/// `needle`; without, one that begins with it.
pub fn find_line<'a>(text: &'a [u8], needle: &[u8], anywhere: bool) -> (found: Option<&'a [u8]>)
    ensures
        match found {
            Some(line) => first_line(text@, 0, needle@, anywhere) == Some(line@),
            None => first_line(text@, 0, needle@, anywhere) is None,
        },
{
    let mut from: usize = 0;
    loop
        invariant
            from <= text@.len(),
            first_line(text@, 0, needle@, anywhere) == first_line(
                text@,
                from as int,
                needle@,
                anywhere,
            ),
        decreases text@.len() - from,
    {
        let end = line_end_from(text, from);
        let line = slice_subrange(text, from, end);
        let wanted = if anywhere {
            line_holds(line, needle)
        } else {
            needle_stands_at(line, 0, needle)
        };
        if wanted {
            return Some(line);
        }
        if end >= text.len() {
            return None;
        }
        from = end + 1;
    }
}

} // verus!
