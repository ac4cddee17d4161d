//! Reading command text: fields between spaces, words inside a line, and
//! unsigned decimal numbers.

use vstd::prelude::*;
use vstd::string::StrSliceExecFns;

verus! {

/// The characters of a string.
pub fn chars_of(text: &str) -> (chars: Vec<char>)
    ensures
        chars@ == text@,
{
    let count = text.unicode_len();
    let mut chars: Vec<char> = Vec::new();
    let mut i: usize = 0;
    while i < count
        invariant
            count == text@.len(),
            i <= count,
            chars@ == text@.take(i as int),
        decreases count - i,
    {
        chars.push(text.get_char(i));
        assert(text@.take(i + 1) == text@.take(i as int).push(text@[i as int]));
        i += 1;
    }
    assert(text@.take(count as int) == text@);
    chars
}

/// The characters of a text from the index `from` on.
pub fn tail(text: &Vec<char>, from: usize) -> (rest: Vec<char>)
    requires
        from <= text.len(),
    ensures
        rest@ == text@.skip(from as int),
{
    let mut rest: Vec<char> = Vec::new();
    let mut i: usize = from;
    while i < text.len()
        invariant
            from <= i <= text.len(),
            rest@ == text@.subrange(from as int, i as int),
        decreases text.len() - i,
    {
        rest.push(text[i]);
        assert(text@.subrange(from as int, i + 1) == text@.subrange(from as int, i as int).push(
            text@[i as int],
        ));
        i += 1;
    }
    assert(text@.subrange(from as int, text.len() as int) == text@.skip(from as int));
    rest
}

/// The fields of a text between single spaces, read from left to right: a
/// space ends a field and starts the next one, any other character goes to
/// the field that is open. A text without a space is one field; two spaces
/// in a row enclose an empty field.
pub open spec fn split_spaces(text: Seq<char>) -> Seq<Seq<char>>
    decreases text.len(),
{
    if text.len() == 0 {
        seq![Seq::empty()]
    } else {
        let before = split_spaces(text.drop_last());
        if text.last() == ' ' {
            before.push(Seq::empty())
        } else {
            before.drop_last().push(before.last().push(text.last()))
        }
    }
}

/// The texts that a list of character vectors holds.
pub open spec fn texts(fields: Seq<Vec<char>>) -> Seq<Seq<char>> {
    Seq::new(fields.len(), |i: int| fields[i]@)
}

/// Fields put together again, with one space between each two of them.
pub open spec fn join_spaces(fields: Seq<Seq<char>>) -> Seq<char>
    decreases fields.len(),
{
    if fields.len() == 0 {
        Seq::empty()
    } else if fields.len() == 1 {
        fields[0]
    } else {
        join_spaces(fields.drop_last()) + seq![' '] + fields.last()
    }
}

/// A text has at least one field.
pub proof fn split_spaces_is_never_empty(text: Seq<char>)
    ensures
        split_spaces(text).len() > 0,
    decreases text.len(),
{
    if text.len() > 0 {
        split_spaces_is_never_empty(text.drop_last());
    }
}

/// The first field of a text is no longer than the text.
pub proof fn first_field_is_short(text: Seq<char>)
    ensures
        split_spaces(text).len() > 0,
        split_spaces(text)[0].len() <= text.len(),
    decreases text.len(),
{
    if text.len() > 0 {
        first_field_is_short(text.drop_last());
    }
}

/// Splitting loses nothing: no field holds a space, and the fields joined
/// by spaces are the text again.
pub proof fn split_spaces_can_be_joined(text: Seq<char>)
    ensures
        join_spaces(split_spaces(text)) == text,
        forall|i: int|
            0 <= i < split_spaces(text).len() ==> !(#[trigger] split_spaces(text)[i]).contains(' '),
    decreases text.len(),
{
    if text.len() > 0 {
        let before = split_spaces(text.drop_last());
        let fields = split_spaces(text);
        split_spaces_can_be_joined(text.drop_last());
        split_spaces_is_never_empty(text.drop_last());
        assert(text == text.drop_last().push(text.last()));
        if text.last() == ' ' {
            assert(fields.drop_last() == before);
            assert(join_spaces(fields) == join_spaces(before) + seq![' '] + Seq::<char>::empty());
            assert(join_spaces(fields) == text);
        } else {
            let grown = before.last().push(text.last());
            assert(!grown.contains(' ')) by {
                if grown.contains(' ') {
                    let at = choose|i: int| 0 <= i < grown.len() && grown[i] == ' ';
                    assert(before.last()[at] == ' ');
                    assert(before[before.len() - 1].contains(' '));
                }
            }
            assert forall|i: int| 0 <= i < fields.len() implies !(#[trigger] fields[i]).contains(
                ' ',
            ) by {
                if i < fields.len() - 1 {
                    assert(fields[i] == before[i]);
                }
            }
            if before.len() == 1 {
                assert(join_spaces(fields) == text);
            } else {
                assert(fields.drop_last() == before.drop_last());
                assert(join_spaces(fields) == (join_spaces(before.drop_last()) + seq![' ']
                    + before.last()).push(text.last()));
                assert(join_spaces(fields) == text);
            }
        }
    }
}

/// Splits a text into its fields, see [`split_spaces`].
pub fn split_on_spaces(text: &Vec<char>) -> (fields: Vec<Vec<char>>)
    ensures
        texts(fields@) == split_spaces(text@),
{
    let mut done: Vec<Vec<char>> = Vec::new();
    let mut open_field: Vec<char> = Vec::new();
    let mut i: usize = 0;
    while i < text.len()
        invariant
            i <= text.len(),
            texts(done@).push(open_field@) == split_spaces(text@.take(i as int)),
        decreases text.len() - i,
    {
        let c = text[i];
        let ghost before = split_spaces(text@.take(i as int));
        assert(text@.take(i + 1).drop_last() == text@.take(i as int));
        assert(before.drop_last() == texts(done@));
        if c == ' ' {
            let ghost closed = texts(done@).push(open_field@);
            done.push(open_field);
            open_field = Vec::new();
            assert(texts(done@) == closed);
        } else {
            open_field.push(c);
        }
        i += 1;
    }
    assert(text@.take(text.len() as int) == text@);
    let ghost all = texts(done@).push(open_field@);
    done.push(open_field);
    assert(texts(done@) == all);
    done
}

/// Whether `word` stands in `text` at the index `at`.
pub open spec fn occurs_at(text: Seq<char>, word: Seq<char>, at: int) -> bool {
    0 <= at && at + word.len() <= text.len() && text.subrange(at, at + word.len()) == word
}

/// The first index at or after `from` where `word` stands in `text`.
pub open spec fn find_from(text: Seq<char>, word: Seq<char>, from: int) -> Option<int>
    decreases text.len() + 1 - from,
{
    if from < 0 || from + word.len() > text.len() {
        None
    } else if occurs_at(text, word, from) {
        Some(from)
    } else {
        find_from(text, word, from + 1)
    }
}

/// The first index where `word` stands in `text`.
pub open spec fn find_word(text: Seq<char>, word: Seq<char>) -> Option<int> {
    find_from(text, word, 0)
}

/// An index that [`find_from`] gives is the first one from `from` on where
/// the word stands, and it gives none only where there is none.
pub proof fn find_from_is_first(text: Seq<char>, word: Seq<char>, from: int)
    requires
        0 <= from,
    ensures
        match find_from(text, word, from) {
            Some(at) => from <= at && occurs_at(text, word, at) && forall|i: int|
                from <= i < at ==> !occurs_at(text, word, i),
            None => forall|i: int| from <= i ==> !occurs_at(text, word, i),
        },
    decreases text.len() + 1 - from,
{
    if from + word.len() <= text.len() && !occurs_at(text, word, from) {
        find_from_is_first(text, word, from + 1);
    }
}

fn stands_at(text: &Vec<char>, word: &Vec<char>, at: usize) -> (found: bool)
    requires
        at + word.len() <= text.len(),
    ensures
        found == occurs_at(text@, word@, at as int),
{
    let mut i: usize = 0;
    while i < word.len()
        invariant
            at + word.len() <= text.len(),
            i <= word.len(),
            text@.subrange(at as int, at + i) == word@.take(i as int),
        decreases word.len() - i,
    {
        if text[at + i] != word[i] {
            assert(text@.subrange(at as int, at + word.len())[i as int] != word@[i as int]);
            return false;
        }
        assert(text@.subrange(at as int, at + i + 1) == text@.subrange(at as int, at + i).push(
            text@[at + i],
        ));
        assert(word@.take(i + 1) == word@.take(i as int).push(word@[i as int]));
        i += 1;
    }
    assert(word@.take(word.len() as int) == word@);
    true
}

/// Finds the first place of a word in a text, see [`find_word`].
pub fn find(text: &Vec<char>, word: &str) -> (at: Option<usize>)
    ensures
        match at {
            Some(i) => find_word(text@, word@) == Some(i as int) && i + word@.len() <= text.len(),
            None => find_word(text@, word@) is None,
        },
{
    let letters = chars_of(word);
    if letters.len() == 0 {
        assert(text@.subrange(0, 0) == letters@);
        return Some(0);
    }
    if letters.len() > text.len() {
        return None;
    }
    let last = text.len() - letters.len();
    let mut i: usize = 0;
    while i <= last
        invariant
            letters@ == word@,
            0 < letters.len() <= text.len(),
            last == text.len() - letters.len(),
            i <= last + 1,
            find_word(text@, word@) == find_from(text@, word@, i as int),
        decreases last + 1 - i,
    {
        if stands_at(text, &letters, i) {
            return Some(i);
        }
        i += 1;
    }
    None
}

/// Whether a field is the given word.
pub fn is_word(field: &Vec<char>, word: &str) -> (same: bool)
    ensures
        same == (field@ == word@),
{
    let letters = chars_of(word);
    if letters.len() != field.len() {
        return false;
    }
    let same = stands_at(field, &letters, 0);
    assert(field@.subrange(0, field.len() as int) == field@);
    same
}

/// The index of the first field from `from` on that is the given word, or
/// the number of fields where there is none.
pub open spec fn field_index(fields: Seq<Seq<char>>, word: Seq<char>, from: int) -> int
    decreases fields.len() - from,
{
    if from < 0 || from >= fields.len() {
        fields.len() as int
    } else if fields[from] == word {
        from
    } else {
        field_index(fields, word, from + 1)
    }
}

/// [`field_index`] gives the first field that is the word, and the number
/// of fields exactly where no field is the word.
pub proof fn field_index_is_first(fields: Seq<Seq<char>>, word: Seq<char>, from: int)
    requires
        0 <= from,
    ensures
        from <= field_index(fields, word, from) || from > fields.len(),
        field_index(fields, word, from) <= fields.len(),
        field_index(fields, word, from) < fields.len() ==> fields[field_index(fields, word, from)]
            == word,
        forall|i: int| from <= i < field_index(fields, word, from) ==> fields[i] != word,
    decreases fields.len() - from,
{
    if from < fields.len() && fields[from] != word {
        field_index_is_first(fields, word, from + 1);
    }
}

/// Finds the first field that is the given word, see [`field_index`].
pub fn find_field(fields: &Vec<Vec<char>>, word: &str) -> (at: usize)
    ensures
        at == field_index(texts(fields@), word@, 0),
        at <= fields.len(),
{
    let mut i: usize = 0;
    while i < fields.len()
        invariant
            i <= fields.len(),
            field_index(texts(fields@), word@, 0) == field_index(texts(fields@), word@, i as int),
        decreases fields.len() - i,
    {
        if is_word(&fields[i], word) {
            return i;
        }
        i += 1;
    }
    i
}

pub open spec fn is_digit(c: char) -> bool {
    '0' <= c && c <= '9'
}

/// What a string of decimal digits stands for.
pub open spec fn decimal_value(digits: Seq<char>) -> nat
    decreases digits.len(),
{
    if digits.len() == 0 {
        0
    } else {
        (decimal_value(digits.drop_last()) * 10 + (digits.last() as int - '0' as int)) as nat
    }
}

pub open spec fn all_digits(text: Seq<char>) -> bool {
    forall|i: int| 0 <= i < text.len() ==> is_digit(#[trigger] text[i])
}

/// The number that a text stands for: one or more decimal digits, which a
/// single `+` may precede, with a value that fits in 32 bits. Nothing else
/// is a number, neither spaces nor a `-` nor an empty text.
pub open spec fn number_in(text: Seq<char>) -> Option<u32> {
    let digits = if text.len() > 0 && text[0] == '+' {
        text.drop_first()
    } else {
        text
    };
    if digits.len() > 0 && all_digits(digits) && decimal_value(digits) <= u32::MAX {
        Some(decimal_value(digits) as u32)
    } else {
        None
    }
}

proof fn decimal_value_grows(digits: Seq<char>, count: int)
    requires
        all_digits(digits),
        0 <= count <= digits.len(),
    ensures
        decimal_value(digits.take(count)) <= decimal_value(digits),
    decreases digits.len() - count,
{
    if count < digits.len() {
        decimal_value_grows(digits, count + 1);
        assert(digits.take(count + 1).drop_last() == digits.take(count));
        assert(is_digit(digits[count]));
    } else {
        assert(digits.take(count) == digits);
    }
}

/// Reads an unsigned number, see [`number_in`].
pub fn parse_u32(text: &Vec<char>) -> (number: Option<u32>)
    ensures
        number == number_in(text@),
{
    let start: usize = if text.len() > 0 && text[0] == '+' {
        1
    } else {
        0
    };
    let ghost digits = if start == 1 {
        text@.drop_first()
    } else {
        text@
    };
    if start == text.len() {
        return None;
    }
    let mut value: u64 = 0;
    let mut i: usize = start;
    while i < text.len()
        invariant
            start <= i <= text.len(),
            start <= 1,
            digits == if text@.len() > 0 && text@[0] == '+' {
                text@.drop_first()
            } else {
                text@
            },
            digits.len() == text.len() - start,
            forall|k: int| 0 <= k < digits.len() ==> digits[k] == text@[k + start],
            all_digits(digits.take(i - start)),
            value == decimal_value(digits.take(i - start)),
            value <= u32::MAX,
        decreases text.len() - i,
    {
        let c = text[i];
        if c < '0' || c > '9' {
            assert(!is_digit(digits[i - start]));
            return None;
        }
        assert(digits.take(i - start + 1).drop_last() == digits.take(i - start));
        assert(digits.take(i - start + 1).last() == c);
        value = value * 10 + (c as u64 - '0' as u64);
        if value > u32::MAX as u64 {
            proof {
                if all_digits(digits) {
                    decimal_value_grows(digits, i - start + 1);
                }
            }
            return None;
        }
        i += 1;
    }
    assert(digits.take(text.len() - start) == digits);
    Some(value as u32)
}

/// A text without the spaces at its end.
pub open spec fn trim_end(text: Seq<char>) -> Seq<char>
    decreases text.len(),
{
    if text.len() > 0 && text.last() == ' ' {
        trim_end(text.drop_last())
    } else {
        text
    }
}

/// The end of the part of `text` from `start` to `end` once the spaces at
/// the end of that part are left out.
pub fn trimmed_end(text: &Vec<char>, start: usize, end: usize) -> (stop: usize)
    requires
        start <= end <= text.len(),
    ensures
        start <= stop <= end,
        text@.subrange(start as int, stop as int) == trim_end(text@.subrange(start as int, end as int)),
{
    let mut stop: usize = end;
    while stop > start && text[stop - 1] == ' '
        invariant
            start <= stop <= end <= text.len(),
            trim_end(text@.subrange(start as int, stop as int)) == trim_end(
                text@.subrange(start as int, end as int),
            ),
        decreases stop,
    {
        assert(text@.subrange(start as int, stop as int).drop_last() == text@.subrange(
            start as int,
            stop - 1,
        ));
        stop -= 1;
    }
    stop
}

} // verus!
