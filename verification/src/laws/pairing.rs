//! Laws of word codes, of the pairing exchange, and of what goes over the wire for it.
use vstd::prelude::*;

use crate::laws::flows::two_digits;
use crate::laws::text::{
    first_is_first, one_part_more_than_separators, parts_join_back, split_of_more, split_of_one,
    trim_cuts,
};
use crate::pairing::handshake::{
    hex_bytes, hex_decode, hex_digit_value, hex_encode, hex_reads_back, is_hex, HandshakeMessage,
};
use crate::pairing::spake::{
    hkdf_sha256, spake_message, ProtocolError, SessionKey, SpakeError, SpakeSession, CONFIRM_INFO,
};
use crate::pairing::wordcode::{
    free_words, is_listed, read_code_splits, unpicked, words_fault, WordCode, WordCodeError,
};
use crate::pairing::wordlist::{listed, listed_words_are_letters, WORDS};
use crate::protocol::wire::{declared_length, frame_reads_back, FrameReader, WireError, WireMessage};
use crate::receive::{read_code, CodeInput, ReceiveFlow, RecvError, RecvPhase, RecvStep};
use crate::text::{
    all_digits, decimal_string, digits_value, find_char, is_digit, join_parts, split_parts, texts,
    trim, white_space,
};
use crate::wire::{same_words_pair, Confirming, PairError, Pairing};

verus! {

broadcast use vstd::string::group_string_axioms;

/// Whether a word stands in the list of words.
pub open spec fn in_list(word: Seq<char>) -> bool {
    exists|i: int| 0 <= i < 256 && #[trigger] WORDS@[i]@ == word
}

/// A non-empty run of digits that denotes a number from 1 to 9999.
pub open spec fn denotes_nameplate(front: Seq<char>) -> bool {
    &&& front.len() > 0
    &&& forall|i: int| 0 <= i < front.len() ==> '0' <= #[trigger] front[i] <= '9'
    &&& 1 <= digits_value(front) <= 9999
}

/// A word is known exactly if it stands in the list.
pub proof fn a_word_is_known_if_it_is_listed(word: &str, yes: bool)
    requires
        call_ensures(is_listed, (word,), yes),
    ensures
        yes <==> in_list(word@),
{
}

/// A nameplate, a hyphen and three words with hyphens between them.
pub open spec fn code_of(front: Seq<char>, a: Seq<char>, b: Seq<char>, c: Seq<char>) -> Seq<char> {
    front + seq!['-'] + a + seq!['-'] + b + seq!['-'] + c
}

proof fn no_hyphen(word: Seq<char>)
    requires
        in_list(word),
    ensures
        listed(word),
        !word.contains('-'),
{
    assert(listed(word));
    listed_words_are_letters(word);
    if word.contains('-') {
        let i = choose|i: int| 0 <= i < word.len() && word[i] == '-';
        assert('a' <= word[i]);
    }
}

proof fn digits_have_no_hyphen(front: Seq<char>)
    requires
        denotes_nameplate(front),
    ensures
        !front.contains('-'),
        all_digits(front),
{
    assert forall|i: int| 0 <= i < front.len() implies is_digit(#[trigger] front[i]) by {
        assert('0' <= front[i] <= '9');
    }
    if front.contains('-') {
        let i = choose|i: int| 0 <= i < front.len() && front[i] == '-';
        assert('0' <= front[i]);
    }
}

/// A code is read in full wherever it is a nameplate and three different words of the list, and
/// it says just these.
pub proof fn every_proper_code_is_read(
    text: &str,
    code: Result<WordCode, WordCodeError>,
    front: Seq<char>,
    a: Seq<char>,
    b: Seq<char>,
    c: Seq<char>,
)
    requires
        call_ensures(WordCode::validate, (text,), code),
        text@ == code_of(front, a, b, c),
        denotes_nameplate(front),
        in_list(a),
        in_list(b),
        in_list(c),
        a != b,
        a != c,
        b != c,
    ensures
        code matches Ok(read) && read@.nameplate == digits_value(front) && read@.words == seq![
            a,
            b,
            c,
        ],
{
    no_hyphen(a);
    no_hyphen(b);
    no_hyphen(c);
    digits_have_no_hyphen(front);
    let one = front.push('-') + a;
    let two = one.push('-') + b;
    let three = two.push('-') + c;
    assert(text@ =~= three);
    split_of_one(front, '-');
    split_of_more(front, a, '-');
    split_of_more(one, b, '-');
    split_of_more(two, c, '-');
    let parts = split_parts(text@, '-');
    assert(parts =~= seq![front, a, b, c]);
    let words = parts.skip(1);
    assert(words =~= seq![a, b, c]);
    reveal_with_fuel(words_fault, 4);
    assert forall|i: int| 0 <= i < 3 implies !words.take(i).contains(#[trigger] words[i]) by {
        if words.take(i).contains(words[i]) {
            let j = choose|j: int| 0 <= j < i && words.take(i)[j] == words[i];
            assert(words[j] == words[i]);
        }
    }
}

/// Nothing else is a code: what is read in full is a nameplate and three different words of the
/// list, with hyphens between them.
pub proof fn only_a_proper_code_is_read(text: &str, code: WordCode) -> (front: Seq<char>)
    requires
        call_ensures(WordCode::validate, (text,), Ok::<_, WordCodeError>(code)),
    ensures
        code@.words.len() == 3,
        text@ == code_of(front, code@.words[0], code@.words[1], code@.words[2]),
        denotes_nameplate(front),
        code@.nameplate == digits_value(front),
        in_list(code@.words[0]),
        in_list(code@.words[1]),
        in_list(code@.words[2]),
        code@.words[0] != code@.words[1],
        code@.words[0] != code@.words[2],
        code@.words[1] != code@.words[2],
{
    let parts = split_parts(text@, '-');
    let front = parts[0];
    let w = code@.words;
    read_code_splits(text@);
    parts_join_back(text@, '-');
    reveal_with_fuel(join_parts, 5);
    assert(w =~= parts.skip(1));
    assert(parts.drop_last().drop_last().drop_last() =~= seq![front]);
    assert(parts.drop_last().drop_last()[1] == w[0]);
    assert(parts.drop_last()[2] == w[1]);
    assert(parts.last() == w[2]);
    assert(text@ =~= code_of(front, w[0], w[1], w[2]));
    assert forall|i: int| 0 <= i < front.len() implies '0' <= #[trigger] front[i] <= '9' by {
        assert(is_digit(front[i]));
    }
    assert(listed(w[0]) && listed(w[1]) && listed(w[2]));
    front
}

/// A code with more or fewer than three hyphens is refused with the number of its words. Otherwise
/// the first thing that is wrong is named: the nameplate, or else the first word that is not in the
/// list or has come before.
pub proof fn a_bad_code_is_refused_for_its_first_fault(
    text: &str,
    code: Result<WordCode, WordCodeError>,
    front: Seq<char>,
    a: Seq<char>,
    b: Seq<char>,
    c: Seq<char>,
)
    requires
        call_ensures(WordCode::validate, (text,), code),
    ensures
        text@.filter(|x: char| x == '-').len() != 3 ==> (code matches Err(
            WordCodeError::WrongWordCount(n),
        ) && n == text@.filter(|x: char| x == '-').len()),
        text@ == code_of(front, a, b, c) && !front.contains('-') && !a.contains('-')
            && !b.contains('-') && !c.contains('-') ==> {
            &&& !denotes_nameplate(front) ==> (code matches Err(
                WordCodeError::InvalidNameplate(shown),
            ) && shown@ == front)
            &&& denotes_nameplate(front) ==> if !in_list(a) {
                code matches Err(WordCodeError::UnknownWord(word)) && word@ == a
            } else if !in_list(b) {
                code matches Err(WordCodeError::UnknownWord(word)) && word@ == b
            } else if a == b {
                code matches Err(WordCodeError::DuplicateWord(word)) && word@ == b
            } else if !in_list(c) {
                code matches Err(WordCodeError::UnknownWord(word)) && word@ == c
            } else if a == c || b == c {
                code matches Err(WordCodeError::DuplicateWord(word)) && word@ == c
            } else {
                code is Ok
            }
        },
{
    one_part_more_than_separators(text@, '-');
    if text@ == code_of(front, a, b, c) && !front.contains('-') && !a.contains('-') && !b.contains(
        '-',
    ) && !c.contains('-') {
        let one = front.push('-') + a;
        let two = one.push('-') + b;
        let three = two.push('-') + c;
        assert(text@ =~= three);
        split_of_one(front, '-');
        split_of_more(front, a, '-');
        split_of_more(one, b, '-');
        split_of_more(two, c, '-');
        let parts = split_parts(text@, '-');
        assert(parts =~= seq![front, a, b, c]);
        let words = parts.skip(1);
        assert(words =~= seq![a, b, c]);
        reveal_with_fuel(words_fault, 4);
        assert(words.take(0) =~= Seq::empty());
        assert(words.take(1) =~= seq![a]);
        assert(words.take(2) =~= seq![a, b]);
        assert(seq![a][0] == a);
        assert(seq![a, b][0] == a && seq![a, b][1] == b);
        assert(in_list(a) == listed(a) && in_list(b) == listed(b) && in_list(c) == listed(c));
        if denotes_nameplate(front) {
            digits_have_no_hyphen(front);
        } else if all_digits(front) {
            assert forall|i: int| 0 <= i < front.len() implies '0' <= #[trigger] front[i]
                <= '9' by {
                assert(is_digit(front[i]));
            }
        }
    }
}

/// A code is cut at its first hyphen: the nameplate must be one, and what follows is returned as it
/// stands, whatever it is.
pub proof fn a_code_is_cut_at_its_first_hyphen(
    text: &str,
    parts: Result<(u32, String), WordCodeError>,
    front: Seq<char>,
    rest: Seq<char>,
)
    requires
        call_ensures(WordCode::split, (text,), parts),
        text@ == front + seq!['-'] + rest,
        !front.contains('-'),
    ensures
        rest.len() > 0 && denotes_nameplate(front) ==> (parts matches Ok((number, words)) && number
            == digits_value(front) && words@ == rest),
        rest.len() == 0 ==> parts == Err::<(u32, String), _>(WordCodeError::EmptyWords),
        rest.len() > 0 && !denotes_nameplate(front) ==> (parts matches Err(
            WordCodeError::InvalidNameplate(shown),
        ) && shown@ == front),
{
    assert(text@ =~= front.push('-') + rest);
    crate::text::find_behind(front, '-', rest);
    assert(text@.take(front.len() as int) =~= front);
    assert(text@.skip(front.len() as int + 1) =~= rest);
    if denotes_nameplate(front) {
        digits_have_no_hyphen(front);
    } else if all_digits(front) {
        assert forall|i: int| 0 <= i < front.len() implies '0' <= #[trigger] front[i] <= '9' by {
            assert(is_digit(front[i]));
        }
    }
}

/// What holds no hyphen is no code.
pub proof fn a_code_needs_a_hyphen(text: &str, parts: Result<(u32, String), WordCodeError>)
    requires
        call_ensures(WordCode::split, (text,), parts),
        !text@.contains('-'),
    ensures
        parts == Err::<(u32, String), _>(WordCodeError::MissingHyphen),
{
    first_is_first(text@, '-');
    if find_char(text@, '-') < text@.len() {
        assert(text@.contains('-'));
    }
}

/// A typed code counts without the white space around it: it is cut like any other, and white
/// space alone is no code.
pub proof fn a_typed_code_is_trimmed_and_cut(
    line: &str,
    read: Result<(u32, String), RecvError>,
    core: String,
    text: &str,
    parts: Result<(u32, String), WordCodeError>,
)
    requires
        call_ensures(read_code, (line,), read),
        call_ensures(trim, (line,), core),
        text@ == core@,
        call_ensures(WordCode::split, (text,), parts),
    ensures
        (forall|i: int| 0 <= i < line@.len() ==> white_space(#[trigger] line@[i])) <==> read
            == Err::<(u32, String), _>(RecvError::NoCode),
        core@.len() > 0 ==> (read is Ok <==> parts is Ok),
        read matches Ok((number, words)) ==> (parts matches Ok((n, w)) && number == n && words@
            == w@),
        core@.len() > 0 ==> (parts matches Err(error) ==> (read matches Err(RecvError::Word(e))
            && e@ == error@)),
{
    let ends = trim_cuts(line@);
    if forall|i: int| 0 <= i < line@.len() ==> white_space(#[trigger] line@[i]) {
        if ends.0 < ends.1 {
            assert(white_space(line@[ends.0]));
        }
    }
}

/// The flow takes the nameplate and the words from the code that was typed, keeps the words for
/// the pairing and claims the nameplate; without a code it ends.
pub proof fn the_flow_takes_nameplate_and_words(
    flow: &mut ReceiveFlow,
    line: String,
    step: Result<RecvStep, RecvError>,
    text: &str,
    read: Result<(u32, String), RecvError>,
)
    requires
        call_ensures(ReceiveFlow::code_entered, (flow, CodeInput::Given(line)), step),
        text@ == line@,
        call_ensures(read_code, (text,), read),
    ensures
        read is Ok <==> step is Ok,
        read matches Ok((number, words)) ==> final(flow)@.nameplate == number && final(flow)@.words
            == words@ && final(flow)@.phase == RecvPhase::Claim,
        read is Err ==> final(flow)@.phase == RecvPhase::Ended,
{
}

/// A code is generated exactly for a nameplate from 1 to 9999, with that nameplate and three
/// different words of the list.
pub proof fn a_generated_code_is_proper(
    nameplate: u32,
    rng: &mut rand::rngs::StdRng,
    code: Result<WordCode, WordCodeError>,
)
    requires
        call_ensures(WordCode::generate, (nameplate, rng), code),
    ensures
        code is Ok <==> 1 <= nameplate <= 9999,
        code matches Ok(made) ==> {
            &&& made@.nameplate == nameplate
            &&& made@.words.len() == 3
            &&& in_list(made@.words[0]) && in_list(made@.words[1]) && in_list(made@.words[2])
            &&& made@.words[0] != made@.words[1]
            &&& made@.words[0] != made@.words[2]
            &&& made@.words[1] != made@.words[2]
        },
{
    if let Ok(made) = code {
        assert(listed(made@.words[0]) && listed(made@.words[1]) && listed(made@.words[2]));
    }
}

/// A code is written as its nameplate, a hyphen and its words with hyphens between them; the
/// password is the words alone.
pub proof fn a_code_is_written_in_full(
    code: &WordCode,
    text: String,
    password: String,
    number: u32,
    digits: String,
)
    requires
        call_ensures(WordCode::to_string, (code,), text),
        call_ensures(WordCode::password, (code,), password),
        call_ensures(WordCode::nameplate, (code,), number),
        call_ensures(decimal_string, (number as u64,), digits),
        code@.words.len() == 3,
    ensures
        text@ == code_of(digits@, code@.words[0], code@.words[1], code@.words[2]),
        password@ == code@.words[0] + seq!['-'] + code@.words[1] + seq!['-'] + code@.words[2],
{
    let w = code@.words;
    reveal_with_fuel(join_parts, 4);
    assert(w.drop_last().drop_last() =~= w.take(1));
    assert(w.drop_last()[1] == w[1]);
    assert(password@ =~= w[0] + seq!['-'] + w[1] + seq!['-'] + w[2]);
    assert(text@ =~= code_of(digits@, w[0], w[1], w[2]));
}

/// The words that can still be picked are exactly those of the list that have not been, each
/// once.
pub proof fn every_other_word_can_be_picked(picked: &Vec<String>, free: Vec<usize>, i: int)
    requires
        call_ensures(free_words, (picked,), free),
        0 <= i < 256,
    ensures
        (exists|k: int| 0 <= k < free@.len() && #[trigger] free@[k] == i) <==> !(exists|j: int|
            0 <= j < picked@.len() && (#[trigger] picked@[j])@ == WORDS@[i]@),
        forall|k: int, l: int| 0 <= k < l < free@.len() ==> free@[k] < free@[l],
{
    let names = texts(picked@);
    let all = unpicked(names, 256);
    assert(free@.map_values(|n: usize| n as int) == all);
    unpicked_are(names, 256, i);
    assert(all.len() == free@.len());
    assert forall|k: int| 0 <= k < free@.len() implies all[k] == free@[k] by {
        assert(free@.map_values(|n: usize| n as int)[k] == free@[k]);
    }
    if all.contains(i) {
        let k = choose|k: int| 0 <= k < all.len() && all[k] == i;
        assert(free@[k] == i);
    }
    if exists|k: int| 0 <= k < free@.len() && #[trigger] free@[k] == i {
        let k = choose|k: int| 0 <= k < free@.len() && #[trigger] free@[k] == i;
        assert(all[k] == i);
    }
    if names.contains(WORDS@[i]@) {
        let j = choose|j: int| 0 <= j < names.len() && names[j] == WORDS@[i]@;
        assert(picked@[j]@ == WORDS@[i]@);
    }
    if exists|j: int| 0 <= j < picked@.len() && (#[trigger] picked@[j])@ == WORDS@[i]@ {
        let j = choose|j: int| 0 <= j < picked@.len() && (#[trigger] picked@[j])@ == WORDS@[i]@;
        assert(names[j] == WORDS@[i]@);
    }
    unpicked_ascend(names, 256);
    assert forall|k: int, l: int| 0 <= k < l < free@.len() implies free@[k] < free@[l] by {
        assert(all[k] < all[l]);
    }
}

proof fn unpicked_are(picked: Seq<Seq<char>>, n: int, i: int)
    requires
        0 <= i,
        n <= 256,
    ensures
        unpicked(picked, n).contains(i) <==> i < n && !picked.contains(WORDS@[i]@),
    decreases n,
{
    let all = unpicked(picked, n);
    if n > 0 {
        unpicked_are(picked, n - 1, i);
        let shorter = unpicked(picked, n - 1);
        if !picked.contains(WORDS@[n - 1]@) {
            if i == n - 1 {
                assert(all.last() == i);
            } else if shorter.contains(i) {
                let k = choose|k: int| 0 <= k < shorter.len() && shorter[k] == i;
                assert(all[k] == i);
            } else if all.contains(i) {
                let k = choose|k: int| 0 <= k < all.len() && all[k] == i;
                assert(shorter[k] == i);
            }
        }
    }
}

proof fn unpicked_ascend(picked: Seq<Seq<char>>, n: int)
    ensures
        forall|k: int, l: int|
            #![trigger unpicked(picked, n)[k], unpicked(picked, n)[l]]
            0 <= k < l < unpicked(picked, n).len() ==> unpicked(picked, n)[k] < unpicked(
                picked,
                n,
            )[l],
        forall|k: int| 0 <= k < unpicked(picked, n).len() ==> #[trigger] unpicked(picked, n)[k] < n,
    decreases n,
{
    if n > 0 {
        unpicked_ascend(picked, n - 1);
        let all = unpicked(picked, n);
        let shorter = unpicked(picked, n - 1);
        assert forall|k: int| 0 <= k < all.len() implies #[trigger] all[k] < n by {
            if k < shorter.len() {
                assert(shorter[k] < n - 1);
                assert(all[k] == shorter[k]);
            }
        }
        assert forall|k: int, l: int| 0 <= k < l < all.len() implies #[trigger] all[k]
            < #[trigger] all[l] by {
            assert(all[k] == shorter[k] && shorter[k] < n - 1);
            if l < shorter.len() {
                assert(all[l] == shorter[l]);
            }
        }
    }
}

/// Bytes are written as two lower-case hexadecimal digits each, the high half first.
pub proof fn bytes_are_written_in_hexadecimal(bytes: &[u8], text: String, i: int)
    requires
        call_ensures(hex_encode, (bytes,), text),
        0 <= i < bytes@.len(),
    ensures
        text@.len() == 2 * bytes@.len(),
        two_digits(bytes@[i], text@[2 * i], text@[2 * i + 1]),
{
    assert((2 * i) / 2 == i && (2 * i) % 2 == 0 && (2 * i + 1) / 2 == i && (2 * i + 1) % 2 == 1);
}

/// What was written in hexadecimal digits reads back, also in capitals.
pub proof fn hexadecimal_reads_back(
    bytes: &[u8],
    text: String,
    given: &str,
    read: Result<Vec<u8>, SpakeError>,
)
    requires
        call_ensures(hex_encode, (bytes,), text),
        call_ensures(hex_decode, (given,), read),
        given@.len() == text@.len(),
        forall|i: int|
            0 <= i < given@.len() ==> #[trigger] given@[i] == text@[i] || ('A' <= given@[i] <= 'F'
                && text@[i] as u32 == given@[i] as u32 + 32),
    ensures
        read matches Ok(out) && out@ == bytes@,
{
    hex_reads_back(bytes@);
    assert forall|i: int| 0 <= i < given@.len() implies hex_digit_value(#[trigger] given@[i])
        == hex_digit_value(text@[i]) by {
        assert(hex_digit_value(text@[i]) is Some);
    }
    assert forall|i: int| 0 <= i < given@.len() implies hex_digit_value(#[trigger] given@[i])
        is Some by {
        assert(hex_digit_value(text@[i]) is Some);
    }
    assert(is_hex(given@));
    assert forall|k: int| 0 <= k < bytes@.len() implies hex_bytes(given@)[k] == bytes@[k] by {
        assert(hex_digit_value(given@[2 * k]) == hex_digit_value(text@[2 * k]));
        assert(hex_digit_value(given@[2 * k + 1]) == hex_digit_value(text@[2 * k + 1]));
        assert(hex_bytes(text@)[k] == bytes@[k]);
    }
    assert(hex_bytes(given@) =~= bytes@);
}

/// Half a byte is not read, and neither is anything but hexadecimal digits.
pub proof fn only_hexadecimal_is_read(given: &str, read: Result<Vec<u8>, SpakeError>, i: int)
    requires
        call_ensures(hex_decode, (given,), read),
        given@.len() % 2 == 1 || (0 <= i < given@.len() && !('0' <= given@[i] <= '9') && !('a'
            <= given@[i] <= 'f') && !('A' <= given@[i] <= 'F')),
    ensures
        read matches Err(SpakeError::InvalidHex(shown)) && shown@ == given@,
{
    if given@.len() % 2 == 0 {
        assert(hex_digit_value(given@[i]) is None);
    }
}

/// A handshake message carries its bytes: what went in comes out, of a message of its own round
/// and length alone.
pub proof fn a_handshake_message_carries_its_bytes(
    bytes: &[u8],
    message: Result<HandshakeMessage, SpakeError>,
    read: Result<[u8; 33], SpakeError>,
    token: [u8; 16],
    confirm: HandshakeMessage,
    got: Result<[u8; 16], SpakeError>,
    crossed: Result<[u8; 33], SpakeError>,
)
    requires
        call_ensures(HandshakeMessage::spake, (bytes,), message),
        message matches Ok(sent) ==> call_ensures(HandshakeMessage::into_pake, (sent,), read),
        call_ensures(HandshakeMessage::confirm, (token,), confirm),
        call_ensures(HandshakeMessage::into_confirm, (confirm,), got),
        call_ensures(HandshakeMessage::into_pake, (confirm,), crossed),
    ensures
        message is Ok <==> bytes@.len() == 33,
        message is Ok ==> (read matches Ok(out) && out@ == bytes@),
        got matches Ok(out) && out@ == token@,
        crossed is Err,
{
    hex_reads_back(bytes@);
    hex_reads_back(token@);
}

/// A field of a handshake message is read in full: what is no hexadecimal text is refused as it is,
/// another length than that of the round is refused with both lengths, and a message of the other
/// round is refused as such. The exchange refuses what cannot be read, and for the same reason.
pub proof fn a_handshake_field_is_read_in_full(
    msg: String,
    bytes: Result<Vec<u8>, SpakeError>,
    first: HandshakeMessage,
    pake: Result<[u8; 33], SpakeError>,
    second: HandshakeMessage,
    token: Result<[u8; 16], SpakeError>,
    early: Result<[u8; 33], SpakeError>,
    late: Result<[u8; 16], SpakeError>,
    pairing: Pairing,
    derived: Result<Confirming, PairError>,
    confirming: &Confirming,
    read: Result<[u8; 16], PairError>,
    text: &str,
)
    requires
        text@ == msg@,
        call_ensures(hex_decode, (text,), bytes),
        first == (HandshakeMessage::Spake { msg }),
        second == (HandshakeMessage::Confirm { token: msg }),
        call_ensures(HandshakeMessage::into_pake, (first,), pake),
        call_ensures(HandshakeMessage::into_confirm, (second,), token),
        call_ensures(HandshakeMessage::into_pake, (second,), early),
        call_ensures(HandshakeMessage::into_confirm, (first,), late),
        call_ensures(Pairing::derive, (pairing, first), derived),
        call_ensures(Confirming::read_token, (confirming, second), read),
    ensures
        early == Err::<[u8; 33], _>(SpakeError::WrongHandshakeKind),
        late == Err::<[u8; 16], _>(SpakeError::WrongHandshakeKind),
        match bytes {
            Err(_) => {
                &&& pake matches Err(SpakeError::InvalidHex(shown)) && shown@ == msg@
                &&& token matches Err(SpakeError::InvalidHex(shown)) && shown@ == msg@
                &&& derived matches Err(PairError::Spake(SpakeError::InvalidHex(shown))) && shown@
                    == msg@
                &&& read matches Err(PairError::Spake(SpakeError::InvalidHex(shown))) && shown@
                    == msg@
            },
            Ok(content) => {
                &&& if content@.len() == 33 {
                    pake matches Ok(out) && out@ == content@
                } else {
                    &&& pake matches Err(
                        SpakeError::BadHandshakeLength { kind, expected: 33, actual },
                    ) && kind@ == "spake"@ && actual == content@.len()
                    &&& derived matches Err(
                        PairError::Spake(SpakeError::BadHandshakeLength { expected: 33, actual, .. }),
                    ) && actual == content@.len()
                }
                &&& if content@.len() == 16 {
                    &&& token matches Ok(out) && out@ == content@
                    &&& read matches Ok(out) && out@ == content@
                } else {
                    &&& token matches Err(
                        SpakeError::BadHandshakeLength { kind, expected: 16, actual },
                    ) && kind@ == "confirm"@ && actual == content@.len()
                    &&& read matches Err(
                        PairError::Spake(SpakeError::BadHandshakeLength { expected: 16, actual, .. }),
                    ) && actual == content@.len()
                }
            },
        },
{
}

/// A frame is the length of its payload in four bytes, the lowest first, and then the payload; a
/// payload over 16 MiB is refused.
pub proof fn a_frame_is_length_and_payload(
    message: &WireMessage<Vec<u8>>,
    frame: Result<Vec<u8>, WireError>,
)
    requires
        call_ensures(WireMessage::<Vec<u8>>::encode, (message,), frame),
    ensures
        ({
            let body = message.content()@;
            &&& frame is Ok <==> body.len() <= 16777216
            &&& frame matches Ok(out) ==> {
                &&& out@.len() == 4 + body.len()
                &&& out@[0] + 256 * out@[1] + 65536 * out@[2] + 16777216 * out@[3] == body.len()
                &&& out@.skip(4) == body
            }
        }),
{
    if message.content()@.len() <= 16777216 {
        frame_reads_back(message.content()@);
    }
}

/// A frame is read exactly if it is complete, has nothing behind it and declares at most 16 MiB,
/// and then its payload comes out.
pub proof fn only_a_whole_frame_is_read(
    frame: &[u8],
    message: Result<WireMessage<Vec<u8>>, WireError>,
)
    requires
        call_ensures(WireMessage::<Vec<u8>>::decode, (frame,), message),
    ensures
        ({
            let declared = frame@[0] + 256 * frame@[1] + 65536 * frame@[2] + 16777216 * frame@[3];
            &&& message is Ok <==> frame@.len() >= 4 && declared <= 16777216 && frame@.len()
                == 4 + declared
            &&& message matches Ok(out) ==> out.content()@ == frame@.skip(4)
            &&& frame@.len() < 4 ==> message == Err::<WireMessage<Vec<u8>>, _>(
                WireError::MissingLengthPrefix,
            )
            &&& frame@.len() >= 4 && declared > 16777216 ==> (message matches Err(
                WireError::FrameTooLarge { declared: d, max },
            ) && d == declared && max == 16777216)
            &&& frame@.len() >= 4 && declared <= 16777216 && frame@.len() != 4 + declared ==> (
            message matches Err(WireError::LengthMismatch { declared: d, actual }) && d == declared
                && actual == (frame@.len() - 4) as usize)
        }),
{
}

/// A frame that is read off a stream is asked for piece by piece: four bytes, then as many as they
/// declare, and these are the payload. Nothing is asked for on the word of a prefix that declares
/// more than 16 MiB.
pub proof fn a_frame_is_asked_for_piece_by_piece(
    reader: &mut FrameReader,
    prefix: Vec<u8>,
    first: Result<Option<Vec<u8>>, WireError>,
    behind: &mut FrameReader,
    body: Vec<u8>,
    second: Result<Option<Vec<u8>>, WireError>,
    fresh: FrameReader,
)
    requires
        call_ensures(FrameReader::new, (), fresh),
        old(reader).expects() == fresh.expects(),
        call_ensures(FrameReader::take, (reader, prefix), first),
        old(behind).expects() == final(reader).expects(),
        call_ensures(FrameReader::take, (behind, body), second),
        prefix@.len() == 4,
    ensures
        ({
            let declared = prefix@[0] + 256 * prefix@[1] + 65536 * prefix@[2] + 16777216
                * prefix@[3];
            &&& first is Ok <==> declared <= 16777216
            &&& first is Ok ==> first == Ok::<_, WireError>(None::<Vec<u8>>)
                && final(reader).expects() == Some(declared as usize)
            &&& first is Ok ==> second == Ok::<_, WireError>(Some(body))
                && final(behind).expects() is None
            &&& first is Err ==> final(reader).expects() is None
        }),
{
}

/// The prefix of a frame is a number with its lowest byte first.
pub proof fn a_prefix_declares_a_length(prefix: [u8; 4], len: Result<usize, WireError>)
    requires
        call_ensures(declared_length, (prefix,), len),
    ensures
        ({
            let declared = prefix@[0] + 256 * prefix@[1] + 65536 * prefix@[2] + 16777216
                * prefix@[3];
            &&& len is Ok <==> declared <= 16777216
            &&& len matches Ok(n) ==> n == declared
        }),
{
}

/// Two peers that start with the same words and get each other's messages derive the same key, and
/// each accepts the token that the other sends.
pub proof fn the_same_words_pair(
    words: &[u8],
    a: Pairing,
    from_a: HandshakeMessage,
    key_a: Result<Confirming, PairError>,
    b: Pairing,
    from_b: HandshakeMessage,
    key_b: Result<Confirming, PairError>,
)
    requires
        call_ensures(Pairing::start, (words,), (a, from_a)),
        call_ensures(Pairing::start, (words,), (b, from_b)),
        call_ensures(Pairing::derive, (a, from_b), key_a),
        call_ensures(Pairing::derive, (b, from_a), key_b),
    ensures
        key_a is Ok,
        key_b is Ok,
        key_a->Ok_0.key()@ == key_b->Ok_0.key()@,
{
    same_words_pair(words@, a, from_a, key_a, b, from_b, key_b);
}

/// The token that a peer with the same key sends is read and accepted; a token of another kind or
/// another value is not.
pub proof fn the_token_of_the_same_key_is_accepted(
    mine: &Confirming,
    theirs: &Confirming,
    sent: HandshakeMessage,
    token: Result<[u8; 16], PairError>,
    held: Confirming,
    key: Result<SessionKey, PairError>,
    other: [u8; 16],
    refused: Result<SessionKey, PairError>,
)
    requires
        call_ensures(Confirming::token, (theirs,), sent),
        call_ensures(Confirming::read_token, (mine, sent), token),
        theirs.key()@ == mine.key()@,
        held == *mine,
        token matches Ok(t) ==> call_ensures(Confirming::verify, (held, t), key),
        call_ensures(Confirming::verify, (held, other), refused),
    ensures
        token is Ok,
        key matches Ok(k) && k@ == mine.key()@,
        token matches Ok(t) && t@ != other@ ==> refused == Err::<SessionKey, _>(
            PairError::Spake(SpakeError::ConfirmationMismatch),
        ),
{
    hex_reads_back(crate::pairing::spake::token_of(theirs.key()@));
}

/// The token is what HKDF derives from the key for this protocol's confirmation.
pub proof fn the_token_is_derived_from_the_key(key: &SessionKey, token: [u8; 16])
    requires
        call_ensures(SessionKey::confirm_token, (key,), token),
    ensures
        token@ == hkdf_sha256(
            key@,
            seq![
                0x6du8, 0x79, 0x2d, 0x63, 0x72, 0x6f, 0x63, 0x2f, 0x63, 0x6f, 0x6e, 0x66, 0x69,
                0x72, 0x6d,
            ],
        ),
{
    assert(CONFIRM_INFO@ =~= seq![
        0x6du8, 0x79, 0x2d, 0x63, 0x72, 0x6f, 0x63, 0x2f, 0x63, 0x6f, 0x6e, 0x66, 0x69, 0x72, 0x6d,
    ]);
}

/// The exchange speaks with the words and with this protocol's name, and refuses what is no message
/// of the exchange.
pub proof fn the_exchange_speaks_with_the_words(
    words: &[u8],
    seed: [u8; 32],
    out: (SpakeSession, Vec<u8>),
    inbound: &[u8],
    key: Result<SessionKey, SpakeError>,
)
    requires
        call_ensures(SpakeSession::start_seeded, (words, seed), out),
        call_ensures(SpakeSession::finish, (out.0, inbound), key),
    ensures
        out.1@ == spake_message(
            words@,
            seq![0x6du8, 0x79, 0x2d, 0x63, 0x72, 0x6f, 0x63, 0x2f, 0x76, 0x31],
            seed@,
        ),
        out.1@.len() == 33,
        inbound@.len() != 33 ==> (key matches Err(SpakeError::Protocol(ProtocolError::WrongLength))),
        inbound@.len() == 33 && inbound@[0] != 0x53 ==> (key matches Err(
            SpakeError::Protocol(ProtocolError::BadSide),
        )),
{
    assert(crate::pairing::spake::APP_IDENTIFIER@ =~= seq![
        0x6du8, 0x79, 0x2d, 0x63, 0x72, 0x6f, 0x63, 0x2f, 0x76, 0x31,
    ]);
}

} // verus!
