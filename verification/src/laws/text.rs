//! Laws of the operations on text.
use vstd::prelude::*;

use crate::order::{is_less, ordering, text_less};
use crate::text::{
    decimal, decimal_digits, decimal_string, digits_value, find_char, is_digit, join_parts,
    parse_digits, same_text, split_first, split_parts, split_text, texts, to_ascii_lower, trim,
    trim_end, trimmed, white_space,
};

verus! {

broadcast use vstd::string::group_string_axioms;

/// Whether `text[from..to]` holds no `sep` and stands between two of them, or between one and an
/// end of the text, or is the whole text.
pub open spec fn delimited(text: Seq<char>, sep: char, from: int, to: int) -> bool {
    &&& 0 <= from <= to <= text.len()
    &&& from == 0 || text[from - 1] == sep
    &&& to == text.len() || text[to] == sep
    &&& forall|i: int| from <= i < to ==> text[i] != sep
}

/// Whether `part` is what stands in the text between two separators.
pub open spec fn is_part(text: Seq<char>, sep: char, from: int, to: int, part: Seq<char>) -> bool {
    delimited(text, sep, from, to) && part == text.subrange(from, to)
}

/// Whether `part` stands somewhere in the text between two separators.
pub open spec fn stands_between(text: Seq<char>, sep: char, part: Seq<char>) -> bool {
    exists|from: int, to: int| #[trigger] is_part(text, sep, from, to, part)
}

proof fn part_of_longer(text: Seq<char>, c: char, sep: char, from: int, to: int)
    requires
        0 <= from <= to < text.len() || (from <= to == text.len() && c == sep && 0 <= from),
    ensures
        delimited(text, sep, from, to) == delimited(text.push(c), sep, from, to),
        text.subrange(from, to) == text.push(c).subrange(from, to),
{
    assert(text.subrange(from, to) =~= text.push(c).subrange(from, to));
    assert(forall|i: int| 0 <= i < text.len() ==> text.push(c)[i] == text[i]);
}

/// What stands between two separators is a part; at the end of the text it is the last part.
pub(crate) proof fn delimited_is_part(text: Seq<char>, sep: char, from: int, to: int)
    requires
        delimited(text, sep, from, to),
    ensures
        split_parts(text, sep).len() >= 1,
        to == text.len() ==> split_parts(text, sep).last() == text.subrange(from, to),
        to < text.len() ==> exists|k: int|
            0 <= k < split_parts(text, sep).len() - 1 && #[trigger] split_parts(text, sep)[k]
                == text.subrange(from, to),
    decreases text.len(),
{
    let parts = split_parts(text, sep);
    if text.len() == 0 {
        assert(parts.last() =~= text.subrange(from, to));
    } else {
        let shorter = text.drop_last();
        let c = text.last();
        let before = split_parts(shorter, sep);
        let n = shorter.len() as int;
        assert(shorter.push(c) =~= text);
        crate::text::split_parts_nonempty(shorter, sep);
        if to < text.len() {
            assert(to < n || c == sep);
            part_of_longer(shorter, c, sep, from, to);
            delimited_is_part(shorter, sep, from, to);
            if to < n {
                let k = choose|k: int|
                    0 <= k < before.len() - 1 && #[trigger] before[k] == shorter.subrange(from, to);
                assert(parts[k] == before[k]);
            } else {
                assert(parts[before.len() - 1] == before.last());
            }
        } else if c == sep {
            assert(from == to) by {
                if from < to {
                    assert(text[to - 1] == sep);
                }
            }
            assert(parts.last() =~= text.subrange(from, to));
        } else {
            assert(from < to);
            assert forall|i: int| from <= i < n implies shorter[i] != sep by {
                assert(text[i] != sep);
            }
            assert(delimited(shorter, sep, from, n));
            delimited_is_part(shorter, sep, from, n);
            assert(parts.last() =~= text.subrange(from, to));
        }
    }
}

/// Where a part stands in the text.
pub(crate) proof fn part_is_delimited(text: Seq<char>, sep: char, k: int) -> (ends: (int, int))
    requires
        0 <= k < split_parts(text, sep).len(),
    ensures
        delimited(text, sep, ends.0, ends.1),
        split_parts(text, sep)[k] == text.subrange(ends.0, ends.1),
        k == split_parts(text, sep).len() - 1 ==> ends.1 == text.len(),
        k < split_parts(text, sep).len() - 1 ==> ends.1 < text.len(),
    decreases text.len(),
{
    let parts = split_parts(text, sep);
    if text.len() == 0 {
        assert(parts[k] =~= text.subrange(0, 0));
        (0, 0)
    } else {
        let shorter = text.drop_last();
        let c = text.last();
        let before = split_parts(shorter, sep);
        let n = shorter.len() as int;
        assert(shorter.push(c) =~= text);
        crate::text::split_parts_nonempty(shorter, sep);
        if k < parts.len() - 1 {
            assert(parts[k] == before[k]);
            let ends = part_is_delimited(shorter, sep, k);
            part_of_longer(shorter, c, sep, ends.0, ends.1);
            ends
        } else if c == sep {
            assert(parts[k] =~= text.subrange(n + 1, n + 1));
            (n + 1, n + 1)
        } else {
            let ends = part_is_delimited(shorter, sep, before.len() - 1);
            assert(parts[k] =~= text.subrange(ends.0, n + 1));
            assert forall|i: int| ends.0 <= i < n + 1 implies text[i] != sep by {
                if i < n {
                    assert(shorter[i] != sep);
                }
            }
            (ends.0, n + 1)
        }
    }
}

/// A text without separators is a single part.
pub(crate) proof fn split_of_one(word: Seq<char>, sep: char)
    requires
        !word.contains(sep),
    ensures
        split_parts(word, sep) == seq![word],
{
    assert forall|i: int| 0 <= i < word.len() implies word[i] != sep by {
        if word[i] == sep {
            assert(word.contains(sep));
        }
    }
    assert(delimited(word, sep, 0, word.len() as int));
    delimited_is_part(word, sep, 0, word.len() as int);
    assert(word.subrange(0, word.len() as int) =~= word);
    if split_parts(word, sep).len() > 1 {
        let ends = part_is_delimited(word, sep, 0);
        assert(word[ends.1] == sep);
    }
    assert(split_parts(word, sep) =~= seq![word]);
}

/// What stands behind the last separator is split off by itself.
pub(crate) proof fn split_of_more(front: Seq<char>, word: Seq<char>, sep: char)
    requires
        !word.contains(sep),
    ensures
        split_parts(front.push(sep) + word, sep) == split_parts(front, sep).push(word),
    decreases word.len(),
{
    let whole = front.push(sep) + word;
    if word.len() == 0 {
        assert(word =~= Seq::empty());
        assert(whole =~= front.push(sep));
        assert(whole.drop_last() =~= front);
        assert(split_parts(whole, sep) =~= split_parts(front, sep).push(word));
    } else {
        let shorter = word.drop_last();
        assert(word.contains(word.last()));
        assert forall|c: char| shorter.contains(c) implies word.contains(c) by {
            let i = choose|i: int| 0 <= i < shorter.len() && shorter[i] == c;
            assert(word[i] == c);
        }
        split_of_more(front, shorter, sep);
        assert(whole.drop_last() =~= front.push(sep) + shorter);
        assert(whole.last() == word.last());
        assert(shorter.push(word.last()) =~= word);
        let before = split_parts(front, sep);
        assert(before.push(shorter).drop_last() =~= before);
        assert(split_parts(whole, sep) =~= before.push(word));
    }
}

pub(crate) proof fn parts_join_back(text: Seq<char>, sep: char)
    ensures
        split_parts(text, sep).len() >= 1,
        join_parts(split_parts(text, sep), sep) == text,
    decreases text.len(),
{
    let parts = split_parts(text, sep);
    if text.len() == 0 {
        assert(join_parts(parts, sep) =~= text);
    } else {
        let before = split_parts(text.drop_last(), sep);
        parts_join_back(text.drop_last(), sep);
        assert(text.drop_last().push(text.last()) =~= text);
        if text.last() == sep {
            assert(parts.drop_last() =~= before);
            assert(join_parts(parts, sep) =~= text);
        } else {
            assert(parts.drop_last() =~= before.drop_last());
            if before.len() == 1 {
                assert(join_parts(parts, sep) =~= text);
            } else {
                assert(join_parts(parts, sep) =~= join_parts(before.drop_last(), sep).push(sep)
                    + before.last().push(text.last()));
                assert(join_parts(parts, sep) =~= text);
            }
        }
    }
}

/// Splitting a text gives exactly what stands between its separators: every stretch that two
/// separators or ends enclose is a part, every part is such a stretch, and there is one part more
/// than there are separators.
pub proof fn splitting_gives_what_stands_between(text: &str, sep: char, parts: Vec<String>)
    requires
        call_ensures(split_text, (text, sep), parts),
    ensures
        forall|from: int, to: int| #[trigger]
            delimited(text@, sep, from, to) ==> exists|k: int|
                0 <= k < parts@.len() && (#[trigger] parts@[k])@ == text@.subrange(from, to),
        forall|k: int|
            0 <= k < parts@.len() ==> stands_between(text@, sep, (#[trigger] parts@[k])@),
        parts@.len() == 1 + text@.filter(|c: char| c == sep).len(),
{
    let all = split_parts(text@, sep);
    assert(all.len() == parts@.len());
    assert forall|from: int, to: int| #[trigger] delimited(text@, sep, from, to) implies exists|
        k: int,
    | 0 <= k < parts@.len() && (#[trigger] parts@[k])@ == text@.subrange(from, to) by {
        delimited_is_part(text@, sep, from, to);
        if to == text@.len() {
            assert(texts(parts@)[all.len() - 1] == parts@[all.len() - 1]@);
        } else {
            let k = choose|k: int|
                0 <= k < all.len() - 1 && #[trigger] all[k] == text@.subrange(from, to);
            assert(texts(parts@)[k] == parts@[k]@);
        }
    }
    assert forall|k: int| 0 <= k < parts@.len() implies stands_between(
        text@,
        sep,
        (#[trigger] parts@[k])@,
    ) by {
        let ends = part_is_delimited(text@, sep, k);
        assert(texts(parts@)[k] == parts@[k]@);
        assert(is_part(text@, sep, ends.0, ends.1, parts@[k]@));
    }
    one_part_more_than_separators(text@, sep);
}

pub(crate) proof fn one_part_more_than_separators(text: Seq<char>, sep: char)
    ensures
        split_parts(text, sep).len() == 1 + text.filter(|c: char| c == sep).len(),
    decreases text.len(),
{
    reveal(Seq::filter);
    if text.len() > 0 {
        one_part_more_than_separators(text.drop_last(), sep);
    }
}

/// Where trimming cuts a text.
pub(crate) proof fn trim_cuts(text: Seq<char>) -> (ends: (int, int))
    ensures
        0 <= ends.0 <= ends.1 <= text.len(),
        trimmed(text) == text.subrange(ends.0, ends.1),
        forall|i: int| 0 <= i < ends.0 ==> white_space(#[trigger] text[i]),
        forall|i: int| ends.1 <= i < text.len() ==> white_space(#[trigger] text[i]),
        ends.0 < ends.1 ==> !white_space(text[ends.0]) && !white_space(text[ends.1 - 1]),
        ends.0 == ends.1 ==> forall|i: int|
            0 <= i < text.len() ==> white_space(#[trigger] text[i]),
    decreases text.len(),
{
    if text.len() > 0 && white_space(text[0]) {
        let rest = text.drop_first();
        let ends = trim_cuts(rest);
        assert(rest.subrange(ends.0, ends.1) =~= text.subrange(ends.0 + 1, ends.1 + 1));
        assert forall|i: int| 0 <= i < ends.0 + 1 implies white_space(#[trigger] text[i]) by {
            if i > 0 {
                assert(white_space(rest[i - 1]));
            }
        }
        assert forall|i: int| ends.1 + 1 <= i < text.len() implies white_space(
            #[trigger] text[i],
        ) by {
            assert(white_space(rest[i - 1]));
        }
        if ends.0 == ends.1 {
            assert forall|i: int| 0 <= i < text.len() implies white_space(#[trigger] text[i]) by {
                if i > 0 {
                    assert(white_space(rest[i - 1]));
                }
            }
        }
        (ends.0 + 1, ends.1 + 1)
    } else {
        let to = trim_end_cuts(text);
        assert(text.take(to) =~= text.subrange(0, to));
        if to == 0 && text.len() > 0 {
            assert(white_space(text[0]));
        }
        (0, to)
    }
}

proof fn trim_end_cuts(text: Seq<char>) -> (to: int)
    ensures
        0 <= to <= text.len(),
        trim_end(text) == text.take(to),
        forall|i: int| to <= i < text.len() ==> white_space(#[trigger] text[i]),
        to > 0 ==> !white_space(text[to - 1]),
    decreases text.len(),
{
    if text.len() > 0 && white_space(text.last()) {
        let to = trim_end_cuts(text.drop_last());
        assert(text.drop_last().take(to) =~= text.take(to));
        assert forall|i: int| to <= i < text.len() implies white_space(#[trigger] text[i]) by {
            if i < text.len() - 1 {
                assert(white_space(text.drop_last()[i]));
            }
        }
        to
    } else {
        assert(text.take(text.len() as int) =~= text);
        text.len() as int
    }
}

/// Trimming takes away white space at the ends and nothing else: what is left is a stretch of the
/// text that neither starts nor ends with white space, and all around it is white.
pub proof fn trimming_takes_white_space_alone(text: &str, out: String)
    requires
        call_ensures(trim, (text,), out),
    ensures
        exists|from: int, to: int|
            {
                &&& 0 <= from <= to <= text@.len()
                &&& out@ == #[trigger] text@.subrange(from, to)
                &&& forall|i: int|
                    0 <= i < from || to <= i < text@.len() ==> white_space(#[trigger] text@[i])
            },
        out@.len() > 0 ==> !white_space(out@[0]) && !white_space(out@.last()),
{
    let ends = trim_cuts(text@);
    assert(out@ == text@.subrange(ends.0, ends.1));
}

/// Decimal notation: a digit stands for itself, and a longer number is written as its tens,
/// followed by its last digit.
pub proof fn numbers_are_written_digit_by_digit(
    number: u64,
    text: String,
    tens: u64,
    before: String,
)
    requires
        call_ensures(decimal_string, (number,), text),
        call_ensures(decimal_string, (tens,), before),
        tens == number / 10,
    ensures
        number < 10 ==> text@.len() == 1,
        number >= 10 ==> text@.drop_last() == before@,
        text@.len() > 0,
        '0' <= text@.last() <= '9',
        text@.last() as u32 - '0' as u32 == number % 10,
{
    if number >= 10 {
        assert(text@.drop_last() =~= before@);
    }
}

/// A number that was written reads back, whatever zeros stand before it.
pub proof fn written_numbers_read_back(number: u32, text: &str, zeros: Seq<char>, read: Option<u32>)
    requires
        call_ensures(parse_digits, (text,), read),
        forall|i: int| 0 <= i < zeros.len() ==> #[trigger] zeros[i] == '0',
        text@ == zeros + decimal(number as nat),
    ensures
        read == Some(number),
    decreases zeros.len(),
{
    decimal_digits(number as nat);
    zeros_count_nothing(zeros, decimal(number as nat));
    assert forall|i: int| 0 <= i < text@.len() implies is_digit(#[trigger] text@[i]) by {
        if i >= zeros.len() {
            assert(is_digit(decimal(number as nat)[i - zeros.len()]));
        }
    }
}

proof fn zeros_count_nothing(zeros: Seq<char>, digits: Seq<char>)
    requires
        forall|i: int| 0 <= i < zeros.len() ==> #[trigger] zeros[i] == '0',
    ensures
        digits_value(zeros + digits) == digits_value(digits),
    decreases zeros.len() + digits.len(),
{
    let all = zeros + digits;
    if digits.len() > 0 {
        zeros_count_nothing(zeros, digits.drop_last());
        assert(all.drop_last() =~= zeros + digits.drop_last());
    } else if zeros.len() > 0 {
        assert(all.last() == zeros[zeros.len() - 1]);
        assert(all.drop_last() =~= zeros.drop_last() + digits);
        assert(forall|i: int| 0 <= i < zeros.len() - 1 ==> zeros.drop_last()[i] == zeros[i]);
        zeros_count_nothing(zeros.drop_last(), digits);
    } else {
        assert(all =~= digits);
    }
}

/// What holds anything but digits is no number, and neither is nothing.
pub proof fn only_digits_are_a_number(text: &str, read: Option<u32>, i: int)
    requires
        call_ensures(parse_digits, (text,), read),
        text@.len() == 0 || (0 <= i < text@.len() && !('0' <= text@[i] <= '9')),
    ensures
        read is None,
{
    if text@.len() > 0 {
        assert(!is_digit(text@[i]));
    }
}

/// One digit more makes ten times the number and the digit.
pub proof fn numbers_are_read_digit_by_digit(
    text: &str,
    read: Option<u32>,
    longer: &str,
    more: Option<u32>,
    digit: char,
)
    requires
        call_ensures(parse_digits, (text,), read),
        call_ensures(parse_digits, (longer,), more),
        longer@ == text@.push(digit),
        '0' <= digit <= '9',
        read is Some,
    ensures
        more == if 10 * read->0 + (digit as u32 - '0' as u32) <= u32::MAX {
            Some((10 * read->0 + (digit as u32 - '0' as u32)) as u32)
        } else {
            None
        },
{
    assert(longer@.drop_last() =~= text@);
    assert forall|i: int| 0 <= i < longer@.len() implies is_digit(#[trigger] longer@[i]) by {
        if i < text@.len() {
            assert(is_digit(text@[i]));
        }
    }
}

/// Lowering letters leaves everything but `A` to `Z` as it stands, and those become the letter 32
/// places on.
pub proof fn lowering_changes_capitals_alone(text: &str, out: String, i: int)
    requires
        call_ensures(to_ascii_lower, (text,), out),
        0 <= i < text@.len(),
    ensures
        out@.len() == text@.len(),
        'A' <= text@[i] <= 'Z' ==> out@[i] as u32 == text@[i] as u32 + 32,
        !('A' <= text@[i] <= 'Z') ==> out@[i] == text@[i],
{
}

/// Splitting at the first separator: what comes before holds none, and with the separator between
/// them the halves are the text. Without a separator there are no halves.
pub proof fn splitting_once_takes_the_first(
    text: &str,
    sep: char,
    halves: Option<(String, String)>,
)
    requires
        call_ensures(split_first, (text, sep), halves),
    ensures
        halves is None <==> !text@.contains(sep),
        halves matches Some((before, after)) ==> !before@.contains(sep) && text@ == before@.push(sep)
            + after@,
{
    first_is_first(text@, sep);
    if let Some((before, after)) = halves {
        assert(text@ =~= before@.push(sep) + after@);
        if before@.contains(sep) {
            let i = choose|i: int| 0 <= i < before@.len() && before@[i] == sep;
            assert(text@[i] == sep);
        }
        assert(text@[before@.len() as int] == sep);
    } else if text@.contains(sep) {
        let i = choose|i: int| 0 <= i < text@.len() && text@[i] == sep;
        assert(text@[i] != sep);
    }
}

pub(crate) proof fn first_is_first(text: Seq<char>, sep: char)
    ensures
        0 <= find_char(text, sep) <= text.len(),
        find_char(text, sep) < text.len() ==> text[find_char(text, sep)] == sep,
        forall|i: int| 0 <= i < find_char(text, sep) ==> #[trigger] text[i] != sep,
    decreases text.len(),
{
    if text.len() > 0 && text[0] != sep {
        first_is_first(text.drop_first(), sep);
        assert forall|i: int| 0 <= i < find_char(text, sep) implies #[trigger] text[i] != sep by {
            if i > 0 {
                assert(text.drop_first()[i - 1] != sep);
            }
        }
    }
}

/// One text comes before another exactly if, behind what both start with, it has ended or goes on
/// with the smaller character.
pub proof fn the_first_difference_decides(a: &str, b: &str, less: bool)
    requires
        call_ensures(is_less, (a, b), less),
    ensures
        less <==> exists|i: int|
            {
                &&& 0 <= i <= a@.len()
                &&& i < b@.len()
                &&& #[trigger] a@.take(i) == b@.take(i)
                &&& i == a@.len() || a@[i] < b@[i]
            },
{
    if less {
        let i = difference(a@, b@);
        assert(a@.take(i) == b@.take(i));
    } else {
        assert forall|i: int|
            0 <= i <= a@.len() && i < b@.len() && #[trigger] a@.take(i) == b@.take(i) && (i
                == a@.len() || a@[i] < b@[i]) implies false by {
            difference_means_less(a@, b@, i);
        }
    }
}

proof fn difference(a: Seq<char>, b: Seq<char>) -> (i: int)
    requires
        text_less(a, b),
    ensures
        0 <= i <= a.len(),
        i < b.len(),
        a.take(i) == b.take(i),
        i == a.len() || a[i] < b[i],
    decreases a.len(),
{
    if a.len() == 0 || a[0] != b[0] {
        assert(a.take(0) =~= b.take(0));
        0
    } else {
        let i = difference(a.drop_first(), b.drop_first());
        assert(a.take(i + 1) =~= seq![a[0]] + a.drop_first().take(i));
        assert(b.take(i + 1) =~= seq![b[0]] + b.drop_first().take(i));
        i + 1
    }
}

proof fn difference_means_less(a: Seq<char>, b: Seq<char>, i: int)
    requires
        0 <= i <= a.len(),
        i < b.len(),
        a.take(i) == b.take(i),
        i == a.len() || a[i] < b[i],
    ensures
        text_less(a, b),
    decreases i,
{
    if i > 0 {
        assert(a[0] == a.take(i)[0] && b[0] == b.take(i)[0]);
        assert(a.drop_first().take(i - 1) =~= a.take(i).drop_first());
        assert(b.drop_first().take(i - 1) =~= b.take(i).drop_first());
        difference_means_less(a.drop_first(), b.drop_first(), i - 1);
    }
}

/// Sorting puts every position exactly once, in the order of the names, and keeps the order of
/// positions whose names are the same.
pub proof fn sorting_orders_every_position(names: &Vec<String>, out: Vec<usize>, a: int, b: int, j: int)
    requires
        call_ensures(ordering, (names,), out),
        0 <= a < b < out@.len(),
        0 <= j < names@.len(),
    ensures
        out@.len() == names@.len(),
        out@[a] < names@.len(),
        out@[a] != out@[b],
        exists|k: int| 0 <= k < out@.len() && #[trigger] out@[k] == j,
        ({
            let first = names@[out@[a] as int]@;
            let second = names@[out@[b] as int]@;
            text_less(first, second) || (first == second && out@[a] < out@[b])
        }),
{
    let keys = texts(names@);
    assert(keys.len() == names@.len());
    assert(out@[a] < keys.len() && out@[b] < keys.len());
    crate::order::ordering_covers(keys, out@, j);
    assert(crate::order::entry_less(keys, out@[a] as int, out@[b] as int));
    assert(keys[out@[a] as int] == names@[out@[a] as int]@);
    assert(keys[out@[b] as int] == names@[out@[b] as int]@);
}

/// Texts are the same exactly if they have the same characters.
pub proof fn texts_are_compared_by_their_characters(a: &str, b: &str, same: bool)
    requires
        call_ensures(same_text, (a, b), same),
    ensures
        same <==> a@.len() == b@.len() && forall|i: int|
            0 <= i < a@.len() ==> #[trigger] a@[i] == b@[i],
{
    if a@.len() == b@.len() && forall|i: int| 0 <= i < a@.len() ==> #[trigger] a@[i] == b@[i] {
        assert(a@ =~= b@);
    }
}

} // verus!
