//! Strings as sequences of characters: the few operations on text that the
//! rest of the library is stated over.
use vstd::prelude::*;

verus! {

broadcast use vstd::string::group_string_axioms;

/// `String::push` appends one character.
pub assume_specification[ String::push ](s: &mut String, c: char)
    ensures
        final(s)@ == old(s)@.push(c),
;

/// The characters with Unicode's `White_Space` property.
pub open spec fn white_space(c: char) -> bool {
    let n = c as u32;
    ||| 0x9 <= n <= 0xd
    ||| n == 0x20
    ||| n == 0x85
    ||| n == 0xa0
    ||| n == 0x1680
    ||| 0x2000 <= n <= 0x200a
    ||| n == 0x2028
    ||| n == 0x2029
    ||| n == 0x202f
    ||| n == 0x205f
    ||| n == 0x3000
}

/// `char::is_whitespace` tells whether the character has Unicode's `White_Space` property.
pub assume_specification[ char::is_whitespace ](c: char) -> (yes: bool)
    ensures
        yes == white_space(c),
;

/// What `str::to_lowercase` makes of a text.
pub uninterp spec fn lowercase(text: Seq<char>) -> Seq<char>;

/// `str::to_lowercase` applies Unicode's lower-case mapping. On a text of ASCII characters alone
/// that is the mapping of `A` to `Z`; beyond ASCII nothing but determinism is claimed.
pub assume_specification[ str::to_lowercase ](text: &str) -> (lower: String)
    ensures
        lower@ == lowercase(text@),
        vstd::utf8::is_ascii_chars(text@) ==> lower@ == ascii_lowercase(text@),
;

/// What `{:?}` prints of a text.
pub uninterp spec fn quoted(text: Seq<char>) -> Seq<char>;

/// A character that `{:?}` prints as it stands.
pub open spec fn plain(c: char) -> bool {
    ' ' <= c <= '~' && c != '"' && c != '\\'
}

/// `{:?}` on a `str`: the text in double quotes, with escapes. A text of printable ASCII without
/// quotes and backslashes stands unchanged between the quotes; of the escapes nothing but
/// determinism is claimed.
#[verifier::external_body]
pub(crate) fn quote(text: &str) -> (out: String)
    ensures
        out@ == quoted(text@),
        (forall|i: int| 0 <= i < text@.len() ==> plain(#[trigger] text@[i])) ==> out@ == seq!['"']
            + text@ + seq!['"'],
{
    format!("{text:?}")
}

/// The text with `A` to `Z` mapped to `a` to `z`.
pub open spec fn ascii_lowercase(text: Seq<char>) -> Seq<char> {
    text.map_values(|c: char| ascii_lower(c))
}

/// `A` to `Z` mapped to `a` to `z`, every other character to itself.
pub open spec fn ascii_lower(c: char) -> char {
    if 'A' <= c <= 'Z' {
        (c as u32 + 32) as char
    } else {
        c
    }
}

/// An ASCII decimal digit.
pub open spec fn is_digit(c: char) -> bool {
    '0' <= c <= '9'
}

/// The decimal digit with value `d`.
pub open spec fn digit_char(d: nat) -> char {
    ('0' as u32 + d) as char
}

/// The decimal notation of `n`, without leading zeros.
pub open spec fn decimal(n: nat) -> Seq<char>
    decreases n,
{
    if n < 10 {
        seq![digit_char(n)]
    } else {
        decimal(n / 10).push(digit_char(n % 10))
    }
}

/// A non-empty run of ASCII digits.
pub open spec fn all_digits(text: Seq<char>) -> bool {
    text.len() > 0 && forall|i: int| 0 <= i < text.len() ==> is_digit(#[trigger] text[i])
}

/// The number that a run of digits denotes.
pub open spec fn digits_value(text: Seq<char>) -> nat
    decreases text.len(),
{
    if text.len() == 0 {
        0
    } else {
        digits_value(text.drop_last()) * 10 + (text.last() as u32 - '0' as u32) as nat
    }
}

/// The position of the first `c`, or the length of the text.
pub open spec fn find_char(text: Seq<char>, c: char) -> int
    decreases text.len(),
{
    if text.len() == 0 || text[0] == c {
        0
    } else {
        1 + find_char(text.drop_first(), c)
    }
}

/// The parts of a text between the occurrences of `sep`.
pub open spec fn split_parts(text: Seq<char>, sep: char) -> Seq<Seq<char>>
    decreases text.len(),
{
    if text.len() == 0 {
        seq![Seq::empty()]
    } else {
        let before = split_parts(text.drop_last(), sep);
        if text.last() == sep {
            before.push(Seq::empty())
        } else {
            before.drop_last().push(before.last().push(text.last()))
        }
    }
}

/// The parts with `sep` between them.
pub open spec fn join_parts(parts: Seq<Seq<char>>, sep: char) -> Seq<char>
    decreases parts.len(),
{
    if parts.len() == 0 {
        Seq::empty()
    } else if parts.len() == 1 {
        parts[0]
    } else {
        join_parts(parts.drop_last(), sep).push(sep) + parts.last()
    }
}

/// The text without its leading white space.
pub open spec fn trim_start(text: Seq<char>) -> Seq<char>
    decreases text.len(),
{
    if text.len() > 0 && white_space(text[0]) {
        trim_start(text.drop_first())
    } else {
        text
    }
}

/// The text without its trailing white space.
pub open spec fn trim_end(text: Seq<char>) -> Seq<char>
    decreases text.len(),
{
    if text.len() > 0 && white_space(text.last()) {
        trim_end(text.drop_last())
    } else {
        text
    }
}

/// The text without white space at either end.
pub open spec fn trimmed(text: Seq<char>) -> Seq<char> {
    trim_end(trim_start(text))
}

/// The views of a list of strings.
pub open spec fn texts(list: Seq<String>) -> Seq<Seq<char>> {
    list.map_values(|s: String| s@)
}

/// The characters of `text`.
pub fn chars_of(text: &str) -> (chars: Vec<char>)
    ensures
        chars@ == text@,
{
    let mut chars: Vec<char> = Vec::new();
    for c in it: text.chars()
        invariant
            chars@ == it.seq().take(it.index()),
            it.seq() == text@,
    {
        chars.push(c);
    }
    assert(text@.take(text@.len() as int) =~= text@);
    chars
}

/// The text made of `chars[from..to]`.
pub fn text_of(chars: &[char], from: usize, to: usize) -> (text: String)
    requires
        from <= to <= chars@.len(),
    ensures
        text@ == chars@.subrange(from as int, to as int),
{
    let mut text = String::new();
    let mut i: usize = from;
    while i < to
        invariant
            from <= i <= to <= chars@.len(),
            text@ == chars@.subrange(from as int, i as int),
        decreases to - i,
    {
        text.push(chars[i]);
        i += 1;
    }
    text
}

/// Whether two texts are the same.
pub fn same_text(a: &str, b: &str) -> (same: bool)
    ensures
        same == (a@ == b@),
{
    let left = chars_of(a);
    let right = chars_of(b);
    if left.len() != right.len() {
        return false;
    }
    let mut i: usize = 0;
    while i < left.len()
        invariant
            i <= left@.len() == right@.len(),
            left@ == a@,
            right@ == b@,
            forall|j: int| 0 <= j < i ==> left@[j] == right@[j],
        decreases left@.len() - i,
    {
        if left[i] != right[i] {
            return false;
        }
        i += 1;
    }
    assert(a@ =~= b@);
    true
}

/// The decimal notation of `n`.
pub fn decimal_string(n: u64) -> (text: String)
    ensures
        text@ == decimal(n as nat),
    decreases n,
{
    let mut text = if n < 10 {
        String::new()
    } else {
        decimal_string(n / 10)
    };
    let digit: u8 = (n % 10) as u8;
    text.push((48 + digit) as char);
    text
}

/// `decimal` writes digits only, and `digits_value` reads them back.
pub proof fn decimal_digits(n: nat)
    ensures
        all_digits(decimal(n)),
        digits_value(decimal(n)) == n,
        n > 0 ==> decimal(n)[0] != '0',
    decreases n,
{
    if n >= 10 {
        decimal_digits(n / 10);
        assert(decimal(n).drop_last() =~= decimal(n / 10));
    } else {
        assert(decimal(n).drop_last() =~= Seq::empty());
        assert(digits_value(Seq::<char>::empty()) == 0);
    }
}

/// The value of more digits is no smaller than that of a leading run of them.
proof fn digits_value_grows(text: Seq<char>, i: int)
    requires
        0 <= i <= text.len(),
        forall|j: int| 0 <= j < text.len() ==> is_digit(#[trigger] text[j]),
    ensures
        digits_value(text.take(i)) <= digits_value(text),
    decreases text.len(),
{
    if i == text.len() {
        assert(text.take(i) =~= text);
    } else {
        digits_value_grows(text.drop_last(), i);
        assert(text.take(i) =~= text.drop_last().take(i));
    }
}

/// The number that a non-empty run of ASCII digits denotes, where it fits.
pub fn parse_digits(text: &str) -> (value: Option<u32>)
    ensures
        value is Some <==> all_digits(text@) && digits_value(text@) <= u32::MAX,
        value is Some ==> value->0 == digits_value(text@),
{
    let chars = chars_of(text);
    if chars.len() == 0 {
        return None;
    }
    let mut value: u64 = 0;
    let mut i: usize = 0;
    while i < chars.len()
        invariant
            i <= chars@.len(),
            chars@ == text@,
            forall|j: int| 0 <= j < i ==> is_digit(#[trigger] chars@[j]),
            value == digits_value(chars@.take(i as int)),
            value <= u32::MAX,
        decreases chars@.len() - i,
    {
        let c: char = chars[i];
        if !('0' <= c && c <= '9') {
            assert(!is_digit(text@[i as int]));
            return None;
        }
        assert(chars@.take(i + 1).drop_last() =~= chars@.take(i as int));
        let next: u64 = value * 10 + (c as u64 - 48);
        if next > u32::MAX as u64 {
            proof {
                if all_digits(text@) {
                    digits_value_grows(text@, i + 1);
                }
            }
            return None;
        }
        value = next;
        i += 1;
    }
    assert(chars@.take(i as int) =~= chars@);
    Some(value as u32)
}

/// `split_parts` gives at least one part.
pub proof fn split_parts_nonempty(text: Seq<char>, sep: char)
    ensures
        split_parts(text, sep).len() >= 1,
    decreases text.len(),
{
    if text.len() > 0 {
        split_parts_nonempty(text.drop_last(), sep);
    }
}

/// The parts of `text` between the occurrences of `sep`, in order.
pub fn split_text(text: &str, sep: char) -> (parts: Vec<String>)
    ensures
        texts(parts@) == split_parts(text@, sep),
        parts@.len() >= 1,
{
    let chars = chars_of(text);
    let mut parts: Vec<String> = Vec::new();
    let mut part = String::new();
    let mut i: usize = 0;
    assert(texts(parts@).push(part@) =~= split_parts(chars@.take(0), sep));
    while i < chars.len()
        invariant
            i <= chars@.len(),
            chars@ == text@,
            texts(parts@).push(part@) == split_parts(chars@.take(i as int), sep),
        decreases chars@.len() - i,
    {
        let c: char = chars[i];
        proof {
            assert(chars@.take(i + 1).drop_last() =~= chars@.take(i as int));
            assert(texts(parts@).push(part@).drop_last() =~= texts(parts@));
        }
        if c == sep {
            let ghost before = parts@;
            parts.push(part);
            assert(texts(parts@) =~= texts(before).push(part@));
            part = String::new();
        } else {
            part.push(c);
        }
        i += 1;
    }
    assert(chars@.take(i as int) =~= chars@);
    let ghost before = parts@;
    parts.push(part);
    assert(texts(parts@) =~= texts(before).push(part@));
    parts
}

/// Splits `text` at the first `sep`.
pub fn split_first(text: &str, sep: char) -> (halves: Option<(String, String)>)
    ensures
        0 <= find_char(text@, sep) <= text@.len(),
        match halves {
            Some((before, after)) => {
                &&& find_char(text@, sep) < text@.len()
                &&& before@ == text@.take(find_char(text@, sep))
                &&& after@ == text@.skip(find_char(text@, sep) + 1)
            },
            None => find_char(text@, sep) == text@.len(),
        },
{
    let chars = chars_of(text);
    let mut i: usize = 0;
    assert(chars@.skip(0) =~= chars@);
    while i < chars.len()
        invariant
            i <= chars@.len(),
            chars@ == text@,
            find_char(text@, sep) == i + find_char(chars@.skip(i as int), sep),
        decreases chars@.len() - i,
    {
        if chars[i] == sep {
            return Some((text_of(&chars, 0, i), text_of(&chars, i + 1, chars.len())));
        }
        assert(chars@.skip(i as int).drop_first() =~= chars@.skip(i + 1));
        i += 1;
    }
    None
}

/// The text without white space at either end.
pub fn trim(text: &str) -> (out: String)
    ensures
        out@ == trimmed(text@),
{
    let chars = chars_of(text);
    let mut from: usize = 0;
    assert(chars@.skip(0) =~= chars@);
    while from < chars.len() && chars[from].is_whitespace()
        invariant
            from <= chars@.len(),
            chars@ == text@,
            trim_start(text@) == trim_start(chars@.skip(from as int)),
        decreases chars@.len() - from,
    {
        assert(chars@.skip(from as int).drop_first() =~= chars@.skip(from + 1));
        from += 1;
    }
    let mut to: usize = chars.len();
    assert(chars@.subrange(from as int, to as int) =~= chars@.skip(from as int));
    while from < to && chars[to - 1].is_whitespace()
        invariant
            from <= to <= chars@.len(),
            chars@ == text@,
            trimmed(text@) == trim_end(chars@.subrange(from as int, to as int)),
        decreases to - from,
    {
        assert(chars@.subrange(from as int, to as int).drop_last() =~= chars@.subrange(
            from as int,
            to - 1,
        ));
        to -= 1;
    }
    text_of(&chars, from, to)
}

/// White space around a text that neither starts nor ends with any is all that trimming takes.
pub proof fn padding_is_trimmed(before: Seq<char>, core: Seq<char>, after: Seq<char>)
    requires
        core.len() > 0,
        !white_space(core[0]),
        !white_space(core.last()),
        forall|i: int| 0 <= i < before.len() ==> white_space(#[trigger] before[i]),
        forall|i: int| 0 <= i < after.len() ==> white_space(#[trigger] after[i]),
    ensures
        trimmed(before + core + after) == core,
    decreases before.len() + after.len(),
{
    let whole = before + core + after;
    if before.len() > 0 {
        assert(whole[0] == before[0]);
        assert(whole.drop_first() =~= before.drop_first() + core + after);
        assert(forall|i: int|
            0 <= i < before.len() - 1 ==> before.drop_first()[i] == before[i + 1]);
        padding_is_trimmed(before.drop_first(), core, after);
    } else {
        assert(whole[0] == core[0]);
        assert(trim_start(whole) == whole);
        if after.len() > 0 {
            assert(whole.last() == after.last());
            assert(white_space(after[after.len() - 1]));
            assert(whole.drop_last() =~= before + core + after.drop_last());
            assert(forall|i: int| 0 <= i < after.len() - 1 ==> after.drop_last()[i] == after[i]);
            padding_is_trimmed(before, core, after.drop_last());
            assert(whole.drop_last()[0] == core[0]);
            assert(trim_start(whole.drop_last()) == whole.drop_last());
        } else {
            assert(whole =~= core);
        }
    }
}

/// The text with `A` to `Z` mapped to `a` to `z`.
pub fn to_ascii_lower(text: &str) -> (out: String)
    ensures
        out@ == ascii_lowercase(text@),
{
    let mut out = String::new();
    for c in it: text.chars()
        invariant
            out@ == ascii_lowercase(it.seq().take(it.index())),
            it.seq() == text@,
    {
        let ghost done = it.seq().take(it.index());
        assert(it.seq().take(it.index() + 1) =~= done.push(c));
        assert(ascii_lowercase(done.push(c)) =~= ascii_lowercase(done).push(ascii_lower(c)));
        if 'A' <= c && c <= 'Z' {
            out.push((c as u8 + 32) as char);
        } else {
            out.push(c);
        }
    }
    assert(text@.take(text@.len() as int) =~= text@);
    out
}

/// The first `sep` of a text that starts with `front` and `sep` stands behind `front`, if `front`
/// holds none.
pub proof fn find_behind(front: Seq<char>, sep: char, rest: Seq<char>)
    requires
        !front.contains(sep),
    ensures
        find_char(front.push(sep) + rest, sep) == front.len(),
    decreases front.len(),
{
    let whole = front.push(sep) + rest;
    if front.len() > 0 {
        assert(whole[0] == front[0] && front.contains(front[0]));
        assert(whole.drop_first() =~= front.drop_first().push(sep) + rest);
        assert forall|c: char| front.drop_first().contains(c) implies front.contains(c) by {
            let i = choose|i: int| 0 <= i < front.len() - 1 && front.drop_first()[i] == c;
            assert(front[i + 1] == c);
        }
        find_behind(front.drop_first(), sep, rest);
    }
}

/// Decimal notation holds digits alone and tells numbers apart.
pub proof fn decimal_is_injective(a: nat, b: nat)
    requires
        decimal(a) == decimal(b),
    ensures
        a == b,
{
    decimal_digits(a);
    decimal_digits(b);
}

/// A character that is no digit does not occur in decimal notation.
pub proof fn decimal_holds_digits(n: nat, c: char)
    requires
        !is_digit(c),
    ensures
        !decimal(n).contains(c),
{
    decimal_digits(n);
    if decimal(n).contains(c) {
        let i = choose|i: int| 0 <= i < decimal(n).len() && decimal(n)[i] == c;
        assert(is_digit(decimal(n)[i]));
    }
}

} // verus!
