//! Text in lines and fields: the shape of the kernel's counter files.
use vstd::prelude::*;
use crate::text::chars_of;

verus! {

/// Whether `c` is white space: the characters that separate fields.
pub open spec fn is_space(c: char) -> bool {
    let code = c as u32;
    ||| 0x09 <= code <= 0x0d
    ||| code == 0x20
    ||| code == 0x85
    ||| code == 0xa0
    ||| code == 0x1680
    ||| 0x2000 <= code <= 0x200a
    ||| code == 0x2028
    ||| code == 0x2029
    ||| code == 0x202f
    ||| code == 0x205f
    ||| code == 0x3000
}

/// Whether `c` ends a line.
pub open spec fn is_newline(c: char) -> bool {
    c == '\n'
}

/// The white space, as a test on characters.
pub open spec fn spaces() -> spec_fn(char) -> bool {
    |c: char| is_space(c)
}

/// The line ends, as a test on characters.
pub open spec fn newlines() -> spec_fn(char) -> bool {
    |c: char| is_newline(c)
}

/// The number of characters at the front of `text` before the first one
/// that `stop` accepts: the whole length where it accepts none.
pub open spec fn run_len(text: Seq<char>, stop: spec_fn(char) -> bool) -> nat
    decreases text.len(),
{
    if text.len() == 0 || stop(text[0]) {
        0
    } else {
        1 + run_len(text.skip(1), stop)
    }
}

/// A run is no longer than its text.
pub proof fn lemma_run_len_bound(text: Seq<char>, stop: spec_fn(char) -> bool)
    ensures
        run_len(text, stop) <= text.len(),
        run_len(text, stop) < text.len() ==> stop(text[run_len(text, stop) as int]),
        forall|i: int| 0 <= i < run_len(text, stop) ==> !stop(#[trigger] text[i]),
    decreases text.len(),
{
    if text.len() == 0 || stop(text[0]) {
    } else {
        lemma_run_len_bound(text.skip(1), stop);
        assert forall|i: int| 0 <= i < run_len(text, stop) implies !stop(#[trigger] text[i]) by {
            if i > 0 {
                assert(text[i] == text.skip(1)[i - 1]);
            }
        }
    }
}

/// The fields of a line: its maximal runs of characters that are not white
/// space, in order.
pub open spec fn fields(line: Seq<char>) -> Seq<Seq<char>>
    decreases line.len(),
{
    if line.len() == 0 {
        Seq::empty()
    } else if is_space(line[0]) {
        fields(line.skip(1))
    } else {
        proof {
            lemma_run_len_bound(line, spaces());
        }
        let width = run_len(line, spaces()) as int;
        seq![line.take(width)] + fields(line.skip(width))
    }
}

/// `line` without one carriage return at its end.
pub open spec fn without_return(line: Seq<char>) -> Seq<char> {
    if line.len() > 0 && line.last() == '\r' {
        line.drop_last()
    } else {
        line
    }
}

/// The lines of a text. A line ends with a line feed, or with a carriage
/// return and a line feed; neither belongs to the line. The last line needs
/// no line end, and an empty text has no line.
pub open spec fn lines(text: Seq<char>) -> Seq<Seq<char>>
    decreases text.len(),
{
    if text.len() == 0 {
        Seq::empty()
    } else {
        proof {
            lemma_run_len_bound(text, newlines());
        }
        let width = run_len(text, newlines()) as int;
        if width == text.len() {
            seq![text]
        } else {
            seq![without_return(text.take(width))] + lines(text.skip(width + 1))
        }
    }
}

/// The number that a run of decimal digits writes.
pub open spec fn digits_value(digits: Seq<char>) -> nat
    decreases digits.len(),
{
    if digits.len() == 0 {
        0
    } else {
        digits_value(digits.drop_last()) * 10 + (digits.last() as u32 - 0x30) as nat
    }
}

/// Whether `c` is one of the digits `0` to `9`.
pub open spec fn is_digit(c: char) -> bool {
    0x30 <= c as u32 <= 0x39
}

/// Whether `text` is made of decimal digits only.
pub open spec fn all_digits(text: Seq<char>) -> bool {
    forall|i: int| 0 <= i < text.len() ==> is_digit(#[trigger] text[i])
}

/// `text` without a plus sign at its front.
pub open spec fn unsigned_part(text: Seq<char>) -> Seq<char> {
    if text.len() > 0 && text[0] == '+' {
        text.skip(1)
    } else {
        text
    }
}

/// The unsigned 64-bit number that `text` writes in decimal: at least one
/// digit, a plus sign in front allowed, nothing else, and a value that
/// fits.
pub open spec fn parse_u64(text: Seq<char>) -> Option<u64> {
    let digits = unsigned_part(text);
    if digits.len() > 0 && all_digits(digits) && digits_value(digits) <= u64::MAX {
        Some(digits_value(digits) as u64)
    } else {
        None
    }
}

/// The number in the field at `index`, or 0 where the field does not write
/// one.
pub open spec fn number_or_zero(line: Seq<Seq<char>>, index: int) -> u64 {
    match parse_u64(line[index]) {
        Some(value) => value,
        None => 0,
    }
}

/// The character sequences of a run of texts.
pub open spec fn texts(items: Seq<Vec<char>>) -> Seq<Seq<char>> {
    items.map_values(|item: Vec<char>| item@)
}

/// Whether `c` is white space.
pub fn is_whitespace(c: char) -> (r: bool)
    ensures
        r == is_space(c),
{
    let code: u32 = c as u32;
    (0x09 <= code && code <= 0x0d) || code == 0x20 || code == 0x85 || code == 0xa0 || code
        == 0x1680 || (0x2000 <= code && code <= 0x200a) || code == 0x2028 || code == 0x2029
        || code == 0x202f || code == 0x205f || code == 0x3000
}

/// A copy of the characters of `text` from `start` up to `end`.
fn copy_range(text: &Vec<char>, start: usize, end: usize) -> (r: Vec<char>)
    requires
        start <= end <= text.len(),
    ensures
        r@ == text@.subrange(start as int, end as int),
{
    let mut r: Vec<char> = Vec::new();
    let mut i: usize = start;
    while i < end
        invariant
            start <= i <= end <= text.len(),
            r@ == text@.subrange(start as int, i as int),
        decreases end - i,
    {
        r.push(text[i]);
        assert(text@.subrange(start as int, i + 1) =~= text@.subrange(start as int, i as int).push(
            text@[i as int],
        ));
        i += 1;
    }
    r
}

/// A run that starts later in a text is the run of the rest.
proof fn lemma_run_step(text: Seq<char>, stop: spec_fn(char) -> bool, from: int, to: int)
    requires
        0 <= from <= to <= text.len(),
        forall|i: int| from <= i < to ==> !stop(#[trigger] text[i]),
    ensures
        run_len(text.skip(from), stop) == (to - from) + run_len(text.skip(to), stop),
    decreases to - from,
{
    if from < to {
        lemma_run_step(text, stop, from + 1, to);
        assert(text.skip(from)[0] == text[from]);
        assert(text.skip(from).skip(1) =~= text.skip(from + 1));
    }
}

/// Splits a line into its fields.
pub fn split_fields(line: &Vec<char>) -> (r: Vec<Vec<char>>)
    ensures
        texts(r@) == fields(line@),
{
    let mut r: Vec<Vec<char>> = Vec::new();
    let mut pos: usize = 0;
    assert(line@.skip(0) =~= line@);
    assert(texts(r@) =~= Seq::<Seq<char>>::empty());
    while pos < line.len()
        invariant
            pos <= line.len(),
            fields(line@) == texts(r@) + fields(line@.skip(pos as int)),
        decreases line.len() - pos,
    {
        let ghost rest = line@.skip(pos as int);
        assert(rest[0] == line@[pos as int]);
        if is_whitespace(line[pos]) {
            assert(rest.skip(1) =~= line@.skip(pos + 1));
            pos += 1;
        } else {
            let start = pos;
            while pos < line.len() && !is_whitespace(line[pos])
                invariant
                    start <= pos <= line.len(),
                    forall|i: int| start <= i < pos ==> !spaces()(#[trigger] line@[i]),
                decreases line.len() - pos,
            {
                pos += 1;
            }
            let word = copy_range(line, start, pos);
            proof {
                lemma_run_step(line@, spaces(), start as int, pos as int);
                if pos < line.len() {
                    assert(line@.skip(pos as int)[0] == line@[pos as int]);
                }
                assert(run_len(line@.skip(pos as int), spaces()) == 0);
                let width = run_len(rest, spaces()) as int;
                assert(width == pos - start);
                assert(rest.take(width) =~= word@);
                assert(rest.skip(width) =~= line@.skip(pos as int));
                let ghost before = texts(r@);
                assert(texts(r@.push(word)) =~= before.push(word@));
                assert(before + (seq![word@] + fields(line@.skip(pos as int))) =~= before.push(
                    word@,
                ) + fields(line@.skip(pos as int)));
            }
            r.push(word);
        }
    }
    assert(line@.skip(pos as int) =~= Seq::<char>::empty());
    assert(texts(r@) + Seq::<Seq<char>>::empty() =~= texts(r@));
    r
}

/// Splits a text into its lines.
pub fn split_lines(text: &str) -> (r: Vec<Vec<char>>)
    ensures
        texts(r@) == lines(text@),
{
    let chars = chars_of(text);
    let mut r: Vec<Vec<char>> = Vec::new();
    let mut pos: usize = 0;
    assert(chars@.skip(0) =~= chars@);
    assert(texts(r@) =~= Seq::<Seq<char>>::empty());
    while pos < chars.len()
        invariant
            pos <= chars.len(),
            chars@ == text@,
            lines(text@) == texts(r@) + lines(chars@.skip(pos as int)),
        decreases chars.len() - pos,
    {
        let ghost rest = chars@.skip(pos as int);
        let ghost before = texts(r@);
        let start = pos;
        while pos < chars.len() && chars[pos] != '\n'
            invariant
                start <= pos <= chars.len(),
                forall|i: int| start <= i < pos ==> !newlines()(#[trigger] chars@[i]),
            decreases chars.len() - pos,
        {
            pos += 1;
        }
        proof {
            lemma_run_step(chars@, newlines(), start as int, pos as int);
            if pos < chars.len() {
                assert(chars@.skip(pos as int)[0] == chars@[pos as int]);
            }
            assert(run_len(chars@.skip(pos as int), newlines()) == 0);
            assert(run_len(rest, newlines()) == pos - start);
        }
        if pos == chars.len() {
            let line = copy_range(&chars, start, pos);
            proof {
                assert(line@ =~= rest);
                assert(texts(r@.push(line)) =~= before.push(line@));
                assert(before + seq![rest] =~= before.push(rest));
                assert(chars@.skip(pos as int) =~= Seq::<char>::empty());
                assert(before.push(rest) + lines(chars@.skip(pos as int)) =~= before.push(rest));
            }
            r.push(line);
        } else {
            let end = if pos > start && chars[pos - 1] == '\r' {
                pos - 1
            } else {
                pos
            };
            let line = copy_range(&chars, start, end);
            proof {
                let width = pos - start;
                assert(rest.take(width) =~= chars@.subrange(start as int, pos as int));
                assert(line@ =~= without_return(rest.take(width)));
                assert(rest.skip(width + 1) =~= chars@.skip(pos + 1));
                assert(texts(r@.push(line)) =~= before.push(line@));
                assert(before + (seq![line@] + lines(chars@.skip(pos + 1))) =~= before.push(line@)
                    + lines(chars@.skip(pos + 1)));
            }
            r.push(line);
            pos += 1;
        }
    }
    assert(chars@.skip(pos as int) =~= Seq::<char>::empty());
    assert(texts(r@) + Seq::<Seq<char>>::empty() =~= texts(r@));
    r
}

/// Reads the unsigned 64-bit number that `text` writes in decimal.
pub fn parse_number(text: &Vec<char>) -> (r: Option<u64>)
    ensures
        r == parse_u64(text@),
{
    let start: usize = if text.len() > 0 && text[0] == '+' {
        1
    } else {
        0
    };
    let ghost digits = unsigned_part(text@);
    assert(digits =~= text@.skip(start as int));
    if start == text.len() {
        return None;
    }
    let mut value: u64 = 0;
    let mut i: usize = start;
    assert(digits.take(0) =~= Seq::<char>::empty());
    while i < text.len()
        invariant
            start <= i <= text.len(),
            digits == text@.skip(start as int),
            digits == unsigned_part(text@),
            all_digits(digits.take(i - start)),
            value == digits_value(digits.take(i - start)),
        decreases text.len() - i,
    {
        let code: u32 = text[i] as u32;
        let ghost seen = digits.take(i - start);
        let ghost next = digits.take(i - start + 1);
        proof {
            assert(next.drop_last() =~= seen);
            assert(next.last() == text@[i as int]);
            assert(digits[i - start] == text@[i as int]);
            assert(digits_value(next) == digits_value(seen) * 10 + (text@[i as int] as u32
                - 0x30) as nat);
        }
        if code < 0x30 || code > 0x39 {
            assert(!is_digit(digits[i - start]));
            assert(!all_digits(digits));
            return None;
        }
        let digit: u64 = (code - 0x30) as u64;
        if value > (u64::MAX - digit) / 10 {
            proof {
                assert(value * 10 + digit > u64::MAX);
                assert(digits_value(next) > u64::MAX);
                lemma_digits_grow(digits, i - start + 1);
            }
            return None;
        }
        value = value * 10 + digit;
        proof {
            assert forall|j: int| 0 <= j < next.len() implies is_digit(#[trigger] next[j]) by {
                if j < seen.len() {
                    assert(next[j] == seen[j]);
                }
            }
        }
        i += 1;
    }
    assert(digits.take(i - start) =~= digits);
    Some(value)
}

/// The digits read so far never write more than all of them do.
proof fn lemma_digits_grow(digits: Seq<char>, count: int)
    requires
        0 <= count <= digits.len(),
    ensures
        digits_value(digits.take(count)) <= digits_value(digits),
    decreases digits.len() - count,
{
    if count < digits.len() {
        lemma_digits_grow(digits, count + 1);
        assert(digits.take(count + 1).drop_last() =~= digits.take(count));
        let more = digits.take(count + 1);
        assert(digits_value(more) == digits_value(digits.take(count)) * 10 + (more.last() as u32
            - 0x30) as nat);
    } else {
        assert(digits.take(count) =~= digits);
    }
}

/// Whether `line` begins with the characters of `prefix`.
pub fn starts_with(line: &Vec<char>, prefix: &str) -> (r: bool)
    ensures
        r == prefix@.is_prefix_of(line@),
{
    let wanted = chars_of(prefix);
    if wanted.len() > line.len() {
        return false;
    }
    let mut i: usize = 0;
    while i < wanted.len()
        invariant
            i <= wanted.len() <= line.len(),
            wanted@ == prefix@,
            forall|j: int| 0 <= j < i ==> wanted[j] == line[j],
        decreases wanted.len() - i,
    {
        if wanted[i] != line[i] {
            return false;
        }
        i += 1;
    }
    assert(prefix@ =~= line@.subrange(0, prefix@.len() as int));
    true
}

/// Whether `field` holds exactly the characters of `word`.
pub fn is_word(field: &Vec<char>, word: &str) -> (r: bool)
    ensures
        r == (field@ == word@),
{
    let wanted = chars_of(word);
    if wanted.len() != field.len() {
        return false;
    }
    let mut i: usize = 0;
    while i < wanted.len()
        invariant
            i <= wanted.len(),
            wanted.len() == field.len(),
            wanted@ == word@,
            forall|j: int| 0 <= j < i ==> wanted[j] == field[j],
        decreases wanted.len() - i,
    {
        if wanted[i] != field[i] {
            return false;
        }
        i += 1;
    }
    assert(field@ =~= word@);
    true
}

} // verus!
