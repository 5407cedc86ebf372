//! Word codes: `nameplate-word-word-word`.
//!
//! A code has two parts that travel apart. The nameplate is a number from 1 to 9999 that the
//! rendezvous allocates and routes by. The words are three distinct words of the list; they are
//! the password of the key exchange and never leave the peers.
use rand::Rng;
use vstd::prelude::*;

use crate::pairing::wordlist::{listed, listed_words_are_letters, three_words_differ, WORDS};
use crate::text::{
    all_digits, decimal, decimal_digits, decimal_holds_digits, decimal_string, digits_value,
    find_behind, find_char, is_digit, join_parts, parse_digits, same_text, split_first,
    split_parts, split_text, texts,
};

verus! {

broadcast use vstd::string::group_string_axioms;

/// Smallest allocatable nameplate.
pub const NAMEPLATE_MIN: u32 = 1;

/// Largest allocatable nameplate.
pub const NAMEPLATE_MAX: u32 = 9999;

/// Number of secret words in a code.
pub const WORD_COUNT: usize = 3;

/// A generator of random numbers that can be seeded.
#[verifier::external_type_specification]
#[verifier::external_body]
pub struct ExStdRng(rand::rngs::StdRng);

/// `Rng::random_range` on `0..bound` gives a number below `bound`; which one is left to chance.
#[verifier::external_body]
pub(crate) fn random_below(rng: &mut rand::rngs::StdRng, bound: usize) -> (n: usize)
    requires
        bound > 0,
    ensures
        n < bound,
{
    rng.random_range(0..bound)
}

/// What a word code says: the number that the rendezvous sees and the words that it does not.
#[verifier::ext_equal]
pub struct CodeView {
    pub nameplate: nat,
    pub words: Seq<Seq<char>>,
}

/// A nameplate that the rendezvous can allocate.
pub open spec fn nameplate_in_range(n: nat) -> bool {
    NAMEPLATE_MIN <= n <= NAMEPLATE_MAX
}

impl CodeView {
    /// Three distinct words of the list behind a nameplate in range.
    pub open spec fn valid(self) -> bool {
        &&& nameplate_in_range(self.nameplate)
        &&& self.words.len() == WORD_COUNT
        &&& forall|i: int| 0 <= i < WORD_COUNT ==> listed(#[trigger] self.words[i])
        &&& self.words.no_duplicates()
    }

    /// The words with hyphens between them.
    pub open spec fn password(self) -> Seq<char> {
        join_parts(self.words, '-')
    }

    /// The code as people read it out.
    pub open spec fn text(self) -> Seq<char> {
        decimal(self.nameplate).push('-') + self.password()
    }
}

/// What is wrong with a code.
pub enum CodeFault {
    MissingHyphen,
    InvalidNameplate(Seq<char>),
    EmptyWords,
    WrongWordCount(int),
    UnknownWord(Seq<char>),
    DuplicateWord(Seq<char>),
}

/// The nameplate that a run of digits denotes, if it is in range.
pub open spec fn read_nameplate(part: Seq<char>) -> Result<nat, CodeFault> {
    if all_digits(part) && nameplate_in_range(digits_value(part)) {
        Ok(digits_value(part))
    } else {
        Err(CodeFault::InvalidNameplate(part))
    }
}

/// A code cut at its first hyphen: the nameplate, and the rest as it stands.
pub open spec fn split_code(text: Seq<char>) -> Result<(nat, Seq<char>), CodeFault> {
    let cut = find_char(text, '-');
    if cut == text.len() {
        Err(CodeFault::MissingHyphen)
    } else if text.skip(cut + 1).len() == 0 {
        Err(CodeFault::EmptyWords)
    } else {
        match read_nameplate(text.take(cut)) {
            Ok(n) => Ok((n, text.skip(cut + 1))),
            Err(fault) => Err(fault),
        }
    }
}

/// The first fault among the words from position `i` on: a word outside the list, or one that
/// stands before it already.
pub open spec fn words_fault(words: Seq<Seq<char>>, i: int) -> Option<CodeFault>
    decreases words.len() - i,
{
    if i >= words.len() {
        None
    } else if !listed(words[i]) {
        Some(CodeFault::UnknownWord(words[i]))
    } else if words.take(i).contains(words[i]) {
        Some(CodeFault::DuplicateWord(words[i]))
    } else {
        words_fault(words, i + 1)
    }
}

/// A code read in full.
pub open spec fn read_code(text: Seq<char>) -> Result<CodeView, CodeFault> {
    let parts = split_parts(text, '-');
    if parts.len() != WORD_COUNT + 1 {
        Err(CodeFault::WrongWordCount(parts.len() - 1))
    } else {
        match read_nameplate(parts[0]) {
            Err(fault) => Err(fault),
            Ok(nameplate) => match words_fault(parts.skip(1), 0) {
                Some(fault) => Err(fault),
                None => Ok(CodeView { nameplate, words: parts.skip(1) }),
            },
        }
    }
}

/// Errors from generating, splitting or validating a word code.
#[derive(Debug, Clone, PartialEq, Eq)]
pub enum WordCodeError {
    /// No `-` separator present in the code.
    MissingHyphen,
    /// Nameplate part is not a number in `1..=9999`.
    InvalidNameplate(String),
    /// Words portion (after the first `-`) is empty.
    EmptyWords,
    /// Code does not contain exactly [`WORD_COUNT`] words.
    WrongWordCount(usize),
    /// A word is not in the word list.
    UnknownWord(String),
    /// A word appears more than once in the code.
    DuplicateWord(String),
}

impl View for WordCodeError {
    type V = CodeFault;

    open spec fn view(&self) -> CodeFault {
        match self {
            WordCodeError::MissingHyphen => CodeFault::MissingHyphen,
            WordCodeError::InvalidNameplate(n) => CodeFault::InvalidNameplate(n@),
            WordCodeError::EmptyWords => CodeFault::EmptyWords,
            WordCodeError::WrongWordCount(n) => CodeFault::WrongWordCount(*n as int),
            WordCodeError::UnknownWord(w) => CodeFault::UnknownWord(w@),
            WordCodeError::DuplicateWord(w) => CodeFault::DuplicateWord(w@),
        }
    }
}

/// The sentence that reports a fault.
pub open spec fn fault_text(fault: CodeFault) -> Seq<char> {
    match fault {
        CodeFault::MissingHyphen => "code must contain a '-' separating nameplate and words"@,
        CodeFault::InvalidNameplate(n) => "nameplate '"@ + n + "' must be a number in 1..=9999"@,
        CodeFault::EmptyWords => "code must contain words after the nameplate"@,
        CodeFault::WrongWordCount(n) => "code must contain exactly 3 words, got "@ + decimal(
            n as nat,
        ),
        CodeFault::UnknownWord(w) => "word '"@ + w + "' is not in the PGP wordlist"@,
        CodeFault::DuplicateWord(w) => "word '"@ + w + "' appears more than once in the code"@,
    }
}

impl WordCodeError {
    /// The sentence that reports the error.
    pub fn to_string(&self) -> (text: String)
        ensures
            text@ == fault_text(self@),
    {
        let mut text: String;
        match self {
            WordCodeError::MissingHyphen => {
                text = "code must contain a '-' separating nameplate and words".to_owned();
            },
            WordCodeError::InvalidNameplate(n) => {
                text = "nameplate '".to_owned();
                text.append(n.as_str());
                text.append("' must be a number in 1..=9999");
            },
            WordCodeError::EmptyWords => {
                text = "code must contain words after the nameplate".to_owned();
            },
            WordCodeError::WrongWordCount(n) => {
                text = "code must contain exactly 3 words, got ".to_owned();
                text.append(decimal_string(*n as u64).as_str());
            },
            WordCodeError::UnknownWord(w) => {
                text = "word '".to_owned();
                text.append(w.as_str());
                text.append("' is not in the PGP wordlist");
            },
            WordCodeError::DuplicateWord(w) => {
                text = "word '".to_owned();
                text.append(w.as_str());
                text.append("' appears more than once in the code");
            },
        }
        text
    }
}

/// A parsed word code: a server-visible nameplate plus the secret words.
#[derive(Debug, PartialEq, Eq)]
pub struct WordCode {
    nameplate: u32,
    words: [String; 3],
}

impl View for WordCode {
    type V = CodeView;

    closed spec fn view(&self) -> CodeView {
        CodeView { nameplate: self.nameplate as nat, words: texts(self.words@) }
    }
}

/// The positions below `n` of the words that have not been picked, in order.
pub open spec fn unpicked(picked: Seq<Seq<char>>, n: int) -> Seq<int>
    decreases n,
{
    if n <= 0 {
        Seq::empty()
    } else if picked.contains(WORDS@[n - 1]@) {
        unpicked(picked, n - 1)
    } else {
        unpicked(picked, n - 1).push(n - 1)
    }
}

proof fn unpicked_members(picked: Seq<Seq<char>>, n: int)
    ensures
        forall|k: int|
            0 <= k < unpicked(picked, n).len() ==> 0 <= #[trigger] unpicked(picked, n)[k] < n
                && !picked.contains(WORDS@[unpicked(picked, n)[k]]@),
        forall|i: int|
            0 <= i < n && !picked.contains(#[trigger] WORDS@[i]@) ==> unpicked(picked, n).contains(i),
    decreases n,
{
    if n > 0 {
        unpicked_members(picked, n - 1);
        let shorter = unpicked(picked, n - 1);
        let longer = unpicked(picked, n);
        assert forall|i: int|
            0 <= i < n && !picked.contains(#[trigger] WORDS@[i]@) implies longer.contains(i) by {
            if i == n - 1 {
                assert(longer.last() == i);
            } else {
                let k = choose|k: int| 0 <= k < shorter.len() && shorter[k] == i;
                assert(longer[k] == i);
            }
        }
    }
}

/// The words that a list of choices picks, one after the other: each choice is a position among
/// the words that are still free.
pub open spec fn chosen_words(choices: Seq<usize>) -> Seq<Seq<char>>
    decreases choices.len(),
{
    if choices.len() == 0 {
        Seq::empty()
    } else {
        let before = chosen_words(choices.drop_last());
        before.push(WORDS@[unpicked(before, 256)[choices.last() as int]]@)
    }
}

/// Whether every choice is a position among the words that are still free.
pub open spec fn can_choose(choices: Seq<usize>) -> bool
    decreases choices.len(),
{
    choices.len() == 0 || {
        &&& can_choose(choices.drop_last())
        &&& choices.last() < unpicked(chosen_words(choices.drop_last()), 256).len()
    }
}

/// The positions in the list of the words that are still free, given the words already picked.
///
/// At least one is free while fewer than three have been picked.
pub fn free_words(picked: &Vec<String>) -> (free: Vec<usize>)
    ensures
        free@.map_values(|i: usize| i as int) == unpicked(texts(picked@), 256),
        picked@.len() < WORD_COUNT ==> free@.len() > 0,
        forall|k: int|
            0 <= k < free@.len() ==> #[trigger] free@[k] < 256 && !texts(picked@).contains(
                WORDS@[free@[k] as int]@,
            ),
{
    let mut free: Vec<usize> = Vec::new();
    let mut i: usize = 0;
    let ghost view = |i: usize| i as int;
    assert(free@.map_values(view) =~= unpicked(texts(picked@), 0));
    while i < 256
        invariant
            i <= 256,
            view == (|i: usize| i as int),
            free@.map_values(view) == unpicked(texts(picked@), i as int),
        decreases 256 - i,
    {
        let ghost before = free@;
        if !contains_text(picked, WORDS[i]) {
            free.push(i);
            assert(free@.map_values(view) =~= before.map_values(view).push(i as int));
        }
        i += 1;
    }
    proof {
        let names = texts(picked@);
        unpicked_members(names, 256);
        assert forall|k: int| 0 <= k < free@.len() implies #[trigger] free@[k] < 256
            && !names.contains(WORDS@[free@[k] as int]@) by {
            assert(unpicked(names, 256)[k] == free@.map_values(view)[k]);
        }
        if picked@.len() < WORD_COUNT {
            three_words_differ();
            assert(names.len() < 3);
            if names.contains(WORDS@[0]@) && names.contains(WORDS@[1]@) && names.contains(
                WORDS@[2]@,
            ) {
                let a = choose|k: int| 0 <= k < names.len() && names[k] == WORDS@[0]@;
                let b = choose|k: int| 0 <= k < names.len() && names[k] == WORDS@[1]@;
                let c = choose|k: int| 0 <= k < names.len() && names[k] == WORDS@[2]@;
                assert(false);
            }
            let free_one = if !names.contains(WORDS@[0]@) {
                0int
            } else if !names.contains(WORDS@[1]@) {
                1int
            } else {
                2int
            };
            assert(!names.contains(WORDS@[free_one]@));
            assert(unpicked(names, 256).contains(free_one));
            assert(free@.map_values(view).len() == free@.len());
        }
    }
    free
}

/// Whether `list` holds `text`.
pub(crate) fn contains_text(list: &Vec<String>, text: &str) -> (found: bool)
    ensures
        found == texts(list@).contains(text@),
{
    let mut i: usize = 0;
    while i < list.len()
        invariant
            i <= list@.len(),
            forall|j: int| 0 <= j < i ==> texts(list@)[j] != text@,
        decreases list@.len() - i,
    {
        if same_text(list[i].as_str(), text) {
            assert(texts(list@)[i as int] == text@);
            return true;
        }
        i += 1;
    }
    assert(texts(list@).len() == list@.len());
    false
}

/// Picks the free word at the position `choice`.
pub fn pick_word(picked: &Vec<String>, choice: usize) -> (word: &'static str)
    requires
        choice < unpicked(texts(picked@), 256).len(),
    ensures
        word@ == WORDS@[unpicked(texts(picked@), 256)[choice as int]]@,
        listed(word@),
        !texts(picked@).contains(word@),
{
    let free = free_words(picked);
    assert(unpicked(texts(picked@), 256)[choice as int] == free@.map_values(|i: usize| i as int)[
        choice as int
    ]);
    WORDS[free[choice]]
}

impl Clone for WordCode {
    fn clone(&self) -> (copy: Self)
        ensures
            copy@ == self@,
    {
        proof {
            use_type_invariant(self);
        }
        let words: [String; 3] = [
            self.words[0].clone(),
            self.words[1].clone(),
            self.words[2].clone(),
        ];
        assert(texts(words@) =~= texts(self.words@));
        WordCode { nameplate: self.nameplate, words }
    }
}

impl WordCode {
    #[verifier::type_invariant]
    closed spec fn inv(self) -> bool {
        self@.valid()
    }

    /// Generates a code for `nameplate` from three words that the generator picks, one after the
    /// other, from those that are still free.
    ///
    /// Fails with [`WordCodeError::InvalidNameplate`] when `nameplate` is outside `1..=9999`; no
    /// word is drawn then.
    pub fn generate(nameplate: u32, rng: &mut rand::rngs::StdRng) -> (code: Result<
        Self,
        WordCodeError,
    >)
        ensures
            match code {
                Ok(code) => {
                    &&& nameplate_in_range(nameplate as nat)
                    &&& code@.nameplate == nameplate
                    &&& code@.valid()
                    &&& exists|choices: Seq<usize>| #[trigger]
                        can_choose(choices) && code@.words == chosen_words(choices)
                },
                Err(error) => !nameplate_in_range(nameplate as nat)
                    && error@ == CodeFault::InvalidNameplate(decimal(nameplate as nat)),
            },
            code is Err ==> *final(rng) == *old(rng),
    {
        if nameplate < NAMEPLATE_MIN || nameplate > NAMEPLATE_MAX {
            return Err(WordCodeError::InvalidNameplate(decimal_string(nameplate as u64)));
        }
        let mut picked: Vec<String> = Vec::new();
        let ghost mut choices: Seq<usize> = Seq::empty();
        assert(texts(picked@) =~= chosen_words(choices));
        while picked.len() < WORD_COUNT
            invariant
                picked@.len() <= WORD_COUNT,
                forall|i: int| 0 <= i < picked@.len() ==> listed(#[trigger] texts(picked@)[i]),
                texts(picked@).no_duplicates(),
                can_choose(choices),
                texts(picked@) == chosen_words(choices),
            decreases WORD_COUNT - picked@.len(),
        {
            let free = free_words(&picked);
            assert(free@.map_values(|i: usize| i as int).len() == free@.len());
            let choice: usize = random_below(rng, free.len());
            let word: &'static str = pick_word(&picked, choice);
            let ghost before = picked@;
            picked.push(word.to_owned());
            assert(texts(picked@) =~= texts(before).push(word@));
            proof {
                let longer = choices.push(choice);
                assert(longer.drop_last() =~= choices);
                choices = longer;
            }
        }
        Ok(Self::of(nameplate, &picked))
    }

    /// The code of a nameplate in range and three distinct words of the list.
    fn of(nameplate: u32, words: &Vec<String>) -> (code: Self)
        requires
            (CodeView { nameplate: nameplate as nat, words: texts(words@) }).valid(),
        ensures
            code@ == (CodeView { nameplate: nameplate as nat, words: texts(words@) }),
            code@.valid(),
    {
        assert(texts(words@).len() == words@.len());
        let three: [String; 3] = [words[0].clone(), words[1].clone(), words[2].clone()];
        assert(texts(three@) =~= texts(words@));
        WordCode { nameplate, words: three }
    }

    /// Cuts `s` at its first `-` into nameplate and words.
    ///
    /// Only the nameplate is meant to leave the client, so only the nameplate is checked; the
    /// words are returned as they stand.
    pub fn split(s: &str) -> (parts: Result<(u32, String), WordCodeError>)
        ensures
            match parts {
                Ok((nameplate, words)) => split_code(s@) == Ok::<_, CodeFault>(
                    (nameplate as nat, words@),
                ),
                Err(error) => split_code(s@) == Err::<(nat, Seq<char>), _>(error@),
            },
    {
        match split_first(s, '-') {
            None => Err(WordCodeError::MissingHyphen),
            Some((nameplate, words)) => {
                if words.as_str().is_empty() {
                    return Err(WordCodeError::EmptyWords);
                }
                match parse_nameplate(nameplate.as_str()) {
                    Ok(n) => Ok((n, words)),
                    Err(error) => Err(error),
                }
            },
        }
    }

    /// Reads `s` in full: exactly `nameplate-word-word-word`, the nameplate in `1..=9999`, the
    /// words three distinct words of the list.
    pub fn validate(s: &str) -> (code: Result<Self, WordCodeError>)
        ensures
            match code {
                Ok(code) => read_code(s@) == Ok::<_, CodeFault>(code@),
                Err(error) => read_code(s@) == Err::<CodeView, _>(error@),
            },
    {
        let parts = split_text(s, '-');
        let ghost names = split_parts(s@, '-');
        assert(names.len() == parts@.len());
        if parts.len() != WORD_COUNT + 1 {
            return Err(WordCodeError::WrongWordCount(parts.len() - 1));
        }
        assert(texts(parts@)[0] == parts@[0]@);
        let nameplate: u32 = match parse_nameplate(parts[0].as_str()) {
            Ok(n) => n,
            Err(error) => {
                return Err(error);
            },
        };
        let mut words: Vec<String> = Vec::new();
        while words.len() < WORD_COUNT
            invariant
                words@.len() <= WORD_COUNT,
                parts@.len() == WORD_COUNT + 1,
                names == texts(parts@),
                names == split_parts(s@, '-'),
                read_nameplate(names[0]) == Ok::<_, CodeFault>(nameplate as nat),
                texts(words@) == names.skip(1).take(words@.len() as int),
                forall|i: int| 0 <= i < words@.len() ==> listed(#[trigger] texts(words@)[i]),
                texts(words@).no_duplicates(),
                words_fault(names.skip(1), 0) == words_fault(names.skip(1), words@.len() as int),
            decreases WORD_COUNT - words@.len(),
        {
            let slot: usize = words.len();
            let word: &str = parts[slot + 1].as_str();
            assert(names.skip(1)[slot as int] == word@);
            if !is_listed(word) {
                return Err(WordCodeError::UnknownWord(word.to_owned()));
            }
            if contains_text(&words, word) {
                return Err(WordCodeError::DuplicateWord(word.to_owned()));
            }
            let ghost before = words@;
            words.push(word.to_owned());
            assert(texts(words@) =~= texts(before).push(word@));
            assert(names.skip(1).take(slot + 1) =~= names.skip(1).take(slot as int).push(word@));
        }
        assert(names.skip(1).take(3) =~= names.skip(1));
        Ok(Self::of(nameplate, &words))
    }

    /// The server-visible numeric nameplate.
    pub fn nameplate(&self) -> (n: u32)
        ensures
            n == self@.nameplate,
            nameplate_in_range(n as nat),
    {
        proof {
            use_type_invariant(self);
        }
        self.nameplate
    }

    /// The three secret words.
    pub fn words(&self) -> (words: &[String; 3])
        ensures
            texts(words@) == self@.words,
            self@.valid(),
    {
        proof {
            use_type_invariant(self);
        }
        &self.words
    }

    /// The password of the key exchange: the words alone, joined by hyphens.
    pub fn password(&self) -> (password: String)
        ensures
            password@ == self@.password(),
    {
        let mut password = self.words[0].clone();
        password.append("-");
        password.append(self.words[1].as_str());
        password.append("-");
        password.append(self.words[2].as_str());
        proof {
            let w = self@.words;
            reveal_with_fuel(join_parts, 4);
            reveal_strlit("-");
            assert(w.drop_last().drop_last() =~= w.take(1));
            assert(w.drop_last()[1] == w[1]);
            assert("-"@ =~= seq!['-']);
            assert(password@ =~= join_parts(w, '-'));
        }
        password
    }

    /// The code as people read it out.
    pub fn to_string(&self) -> (text: String)
        ensures
            text@ == self@.text(),
    {
        let mut text = decimal_string(self.nameplate as u64);
        text.push('-');
        text.append(self.password().as_str());
        text
    }
}

/// Whether `word` is in the list.
pub fn is_listed(word: &str) -> (yes: bool)
    ensures
        yes == listed(word@),
{
    let mut i: usize = 0;
    while i < 256
        invariant
            i <= 256,
            forall|j: int| 0 <= j < i ==> #[trigger] WORDS@[j]@ != word@,
        decreases 256 - i,
    {
        if same_text(WORDS[i], word) {
            assert(WORDS@[i as int]@ == word@);
            return true;
        }
        i += 1;
    }
    false
}

/// Reads a nameplate: non-empty ASCII digits that denote a number in `1..=9999`.
pub(crate) fn parse_nameplate(part: &str) -> (nameplate: Result<u32, WordCodeError>)
    ensures
        match nameplate {
            Ok(n) => read_nameplate(part@) == Ok::<_, CodeFault>(n as nat),
            Err(error) => read_nameplate(part@) == Err::<nat, _>(error@),
        },
{
    match parse_digits(part) {
        Some(n) => {
            if NAMEPLATE_MIN <= n && n <= NAMEPLATE_MAX {
                Ok(n)
            } else {
                Err(WordCodeError::InvalidNameplate(part.to_owned()))
            }
        },
        None => Err(WordCodeError::InvalidNameplate(part.to_owned())),
    }
}

/// A text without hyphens is a single part.
proof fn split_of_one(word: Seq<char>)
    requires
        !word.contains('-'),
    ensures
        split_parts(word, '-') == seq![word],
    decreases word.len(),
{
    if word.len() > 0 {
        assert(word.contains(word.last()));
        assert forall|c: char| word.drop_last().contains(c) implies word.contains(c) by {
            let i = choose|i: int| 0 <= i < word.len() - 1 && word.drop_last()[i] == c;
            assert(word[i] == c);
        }
        split_of_one(word.drop_last());
        assert(word.drop_last().push(word.last()) =~= word);
        assert(split_parts(word, '-') =~= seq![word]);
    } else {
        assert(word =~= Seq::empty());
    }
}

/// A part behind a hyphen is split off by itself.
proof fn split_of_more(front: Seq<char>, word: Seq<char>)
    requires
        !word.contains('-'),
    ensures
        split_parts(front.push('-') + word, '-') == split_parts(front, '-').push(word),
    decreases word.len(),
{
    let whole = front.push('-') + word;
    if word.len() == 0 {
        assert(word =~= Seq::empty());
        assert(whole =~= front.push('-'));
        assert(whole.drop_last() =~= front);
        assert(split_parts(whole, '-') =~= split_parts(front, '-').push(word));
    } else {
        let shorter = word.drop_last();
        assert(word.contains(word.last()));
        assert forall|c: char| shorter.contains(c) implies word.contains(c) by {
            let i = choose|i: int| 0 <= i < shorter.len() && shorter[i] == c;
            assert(word[i] == c);
        }
        split_of_more(front, shorter);
        assert(whole.drop_last() =~= front.push('-') + shorter);
        assert(whole.last() == word.last());
        assert(shorter.push(word.last()) =~= word);
        let before = split_parts(front, '-');
        assert(before.push(shorter).drop_last() =~= before);
        assert(split_parts(whole, '-') =~= before.push(word));
    }
}

proof fn listed_has_no_hyphen(word: Seq<char>)
    requires
        listed(word),
    ensures
        !word.contains('-'),
        word.len() > 0,
{
    listed_words_are_letters(word);
    if word.contains('-') {
        let i = choose|i: int| 0 <= i < word.len() && word[i] == '-';
        assert('a' <= word[i]);
    }
}

/// The parts of a valid code's text are its nameplate and its words.
proof fn split_of_code(code: CodeView)
    requires
        code.valid(),
    ensures
        split_parts(code.text(), '-') == seq![
            decimal(code.nameplate),
            code.words[0],
            code.words[1],
            code.words[2],
        ],
        code.text() == decimal(code.nameplate).push('-') + code.password(),
        code.password().len() > 0,
{
    let n = decimal(code.nameplate);
    let w = code.words;
    decimal_digits(code.nameplate);
    decimal_holds_digits(code.nameplate, '-');
    listed_has_no_hyphen(w[0]);
    listed_has_no_hyphen(w[1]);
    listed_has_no_hyphen(w[2]);
    reveal_with_fuel(join_parts, 4);
    assert(w.drop_last().drop_last() =~= w.take(1));
    assert(w.drop_last()[1] == w[1]);
    let one = n.push('-') + w[0];
    let two = one.push('-') + w[1];
    let three = two.push('-') + w[2];
    assert(code.text() =~= three);
    split_of_one(n);
    split_of_more(n, w[0]);
    split_of_more(one, w[1]);
    split_of_more(two, w[2]);
    assert(split_parts(three, '-') =~= seq![n, w[0], w[1], w[2]]);
}

/// The password of a valid code ends in a letter.
pub(crate) proof fn password_ends_in_letters(code: CodeView)
    requires
        code.valid(),
    ensures
        code.password().len() > 0,
        'a' <= code.password().last() <= 'z',
{
    let w = code.words;
    listed_words_are_letters(w[2]);
    reveal_with_fuel(join_parts, 2);
    assert(w.last() == w[2]);
    assert(code.password().last() == w[2].last());
}

/// A code that was written out reads back as itself.
pub proof fn written_code_reads_back(code: CodeView)
    requires
        code.valid(),
    ensures
        read_code(code.text()) == Ok::<_, CodeFault>(code),
{
    split_of_code(code);
    decimal_digits(code.nameplate);
    decimal_holds_digits(code.nameplate, '-');
    let parts = split_parts(code.text(), '-');
    let words = parts.skip(1);
    assert(words =~= code.words);
    reveal_with_fuel(words_fault, 4);
    assert forall|i: int| 0 <= i < 3 implies !words.take(i).contains(#[trigger] words[i]) by {
        if words.take(i).contains(words[i]) {
            let j = choose|j: int| 0 <= j < i && words.take(i)[j] == words[i];
            assert(words[j] == words[i]);
        }
    }
    assert(words_fault(words, 0) is None);
}

/// A code that was written out splits into its nameplate and its password, which is all that
/// the key exchange is given.
pub proof fn written_code_splits(code: CodeView)
    requires
        code.valid(),
    ensures
        split_code(code.text()) == Ok::<_, CodeFault>((code.nameplate, code.password())),
{
    split_of_code(code);
    decimal_digits(code.nameplate);
    decimal_holds_digits(code.nameplate, '-');
    let n = decimal(code.nameplate);
    find_behind(n, '-', code.password());
    assert(code.text().take(n.len() as int) =~= n);
    assert(code.text().skip(n.len() as int + 1) =~= code.password());
}

proof fn split_joins_back(text: Seq<char>)
    ensures
        split_parts(text, '-').len() >= 1,
        join_parts(split_parts(text, '-'), '-') == text,
    decreases text.len(),
{
    let parts = split_parts(text, '-');
    if text.len() == 0 {
        assert(join_parts(parts, '-') =~= text);
    } else {
        let before = split_parts(text.drop_last(), '-');
        split_joins_back(text.drop_last());
        assert(text.drop_last().push(text.last()) =~= text);
        if text.last() == '-' {
            assert(parts.drop_last() =~= before);
            assert(join_parts(parts, '-') =~= text);
        } else {
            assert(parts.drop_last() =~= before.drop_last());
            if before.len() == 1 {
                assert(join_parts(parts, '-') =~= text);
            } else {
                assert(join_parts(parts, '-') =~= join_parts(before.drop_last(), '-').push('-')
                    + before.last().push(text.last()));
                assert(join_parts(parts, '-') =~= text);
            }
        }
    }
}

/// A code that reads in full also splits, into the same nameplate and the same words: checking a
/// code first and splitting it afterwards never disagree.
pub proof fn read_code_splits(text: Seq<char>)
    requires
        read_code(text) is Ok,
    ensures
        split_code(text) == Ok::<_, CodeFault>(
            (read_code(text)->Ok_0.nameplate, read_code(text)->Ok_0.password()),
        ),
        read_code(text)->Ok_0.valid(),
{
    let parts = split_parts(text, '-');
    let code = read_code(text)->Ok_0;
    let w = code.words;
    let n = parts[0];
    split_joins_back(text);
    reveal_with_fuel(words_fault, 4);
    assert(forall|i: int| 0 <= i < 3 ==> #[trigger] w[i] == parts[i + 1]);
    assert(listed(w[0]) && listed(w[1]) && listed(w[2]));
    assert forall|i: int, j: int| 0 <= i < j < 3 implies w[i] != w[j] by {
        assert(w.take(j)[i] == w[i]);
        assert(!w.take(j).contains(w[j]));
    }
    listed_has_no_hyphen(w[0]);
    reveal_with_fuel(join_parts, 5);
    assert(parts.drop_last().drop_last().drop_last() =~= seq![n]);
    assert(parts.drop_last().drop_last()[1] == w[0]);
    assert(parts.drop_last()[2] == w[1]);
    assert(w.drop_last().drop_last() =~= seq![w[0]]);
    assert(w.drop_last()[1] == w[1]);
    if n.contains('-') {
        let i = choose|i: int| 0 <= i < n.len() && n[i] == '-';
        assert(is_digit(n[i]));
    }
    assert(text =~= n.push('-') + code.password());
    find_behind(n, '-', code.password());
    assert(text.take(n.len() as int) =~= n);
    assert(text.skip(n.len() as int + 1) =~= code.password());
}

} // verus!
