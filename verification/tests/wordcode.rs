//! Word codes: reading, writing, taking apart, drawing.
use rand::rngs::StdRng;
use rand::SeedableRng;
use worddrop::pairing::wordcode::{free_words, is_listed, pick_word, WordCode, WordCodeError};
use worddrop::pairing::wordlist::WORDS;

/// A fully valid code built from words of the list.
const VALID: &str = "7-adroitness-adviser-aftermath";

fn rng(seed: u64) -> StdRng {
    StdRng::seed_from_u64(seed)
}

#[test]
fn validate_accepts_valid_code() {
    let code = WordCode::validate(VALID).expect("valid code should parse");
    assert_eq!(code.nameplate(), 7);
    assert_eq!(
        code.words(),
        &["adroitness".to_string(), "adviser".to_string(), "aftermath".to_string()]
    );
    assert_eq!(code.to_string(), VALID);
    assert_eq!(code.password(), "adroitness-adviser-aftermath");
}

#[test]
fn validate_rejects_too_few_words() {
    assert_eq!(WordCode::validate("7-adroitness-adviser"), Err(WordCodeError::WrongWordCount(2)));
}

#[test]
fn validate_rejects_too_many_words() {
    assert_eq!(
        WordCode::validate("7-adroitness-adviser-aftermath-aftermath"),
        Err(WordCodeError::WrongWordCount(4))
    );
}

#[test]
fn validate_rejects_unknown_word() {
    assert_eq!(
        WordCode::validate("7-adroitness-adviser-zzzz"),
        Err(WordCodeError::UnknownWord("zzzz".to_string()))
    );
}

#[test]
fn validate_rejects_uppercase_word() {
    assert_eq!(
        WordCode::validate("7-ADROITNESS-adviser-aftermath"),
        Err(WordCodeError::UnknownWord("ADROITNESS".to_string()))
    );
}

#[test]
fn validate_rejects_bad_nameplate() {
    for bad in [
        "0-adroitness-adviser-aftermath",
        "10000-adroitness-adviser-aftermath",
        "abc-adroitness-adviser-aftermath",
        "-adroitness-adviser-aftermath",
    ] {
        assert!(
            matches!(WordCode::validate(bad), Err(WordCodeError::InvalidNameplate(_))),
            "expected InvalidNameplate for {bad}"
        );
    }
}

#[test]
fn validate_rejects_duplicate_word() {
    assert_eq!(
        WordCode::validate("7-adroitness-adviser-adroitness"),
        Err(WordCodeError::DuplicateWord("adroitness".to_string()))
    );
    assert!(
        WordCode::validate("7-adroitness-adviser-aftermath-aftermath").is_err(),
        "repeated word in 5-part code must be rejected"
    );
}

#[test]
fn split_returns_nameplate_and_words() {
    assert_eq!(
        WordCode::split("7-correct-horse-battery"),
        Ok((7, "correct-horse-battery".to_string()))
    );
}

#[test]
fn split_rejects_missing_hyphen() {
    assert_eq!(WordCode::split("7"), Err(WordCodeError::MissingHyphen));
}

#[test]
fn split_rejects_invalid_nameplate() {
    for bad in ["abc-x", "0-x", "-x"] {
        assert!(
            matches!(WordCode::split(bad), Err(WordCodeError::InvalidNameplate(_))),
            "expected InvalidNameplate for {bad}"
        );
    }
}

#[test]
fn split_rejects_empty_words() {
    assert_eq!(WordCode::split("7-"), Err(WordCodeError::EmptyWords));
}

#[test]
fn generate_produces_parseable_codes() {
    for seed in 0..100 {
        let code = WordCode::generate(7, &mut rng(seed)).expect("generate must succeed");
        let parsed = WordCode::validate(&code.to_string()).expect("generated code must parse");
        assert_eq!(parsed, code);
        assert_eq!(parsed.nameplate(), 7);
    }
}

#[test]
fn generate_uses_three_distinct_words() {
    for seed in 0..200 {
        let code = WordCode::generate(7, &mut rng(seed)).expect("generate must succeed");
        let words = code.words();
        assert_ne!(words[0], words[1], "seed {seed}: repeated words");
        assert_ne!(words[0], words[2], "seed {seed}: repeated words");
        assert_ne!(words[1], words[2], "seed {seed}: repeated words");
    }
}

#[test]
fn generate_rejects_invalid_nameplate() {
    for bad in [0, 10000] {
        assert!(
            matches!(
                WordCode::generate(bad, &mut rng(1)),
                Err(WordCodeError::InvalidNameplate(_))
            ),
            "expected InvalidNameplate for nameplate {bad}"
        );
    }
}

#[test]
fn receive_code_split_valid_and_invalid() {
    let (n, w) = WordCode::split("7-correct-horse-battery").expect("valid code splits");
    assert_eq!(n, 7);
    assert_eq!(w, "correct-horse-battery");

    let (n, w) = WordCode::split("7-correct").expect("split single word");
    assert_eq!(n, 7);
    assert_eq!(w, "correct");

    assert!(WordCode::split("not-a-code").is_err());
    assert!(WordCode::split("7-").is_err());
    assert!(WordCode::split("abc-words").is_err());
}

#[test]
fn a_written_code_reads_back() {
    let code = WordCode::validate("9999-adroitness-adviser-aftermath").expect("valid");
    assert_eq!(WordCode::validate(&code.to_string()).expect("reads back"), code.clone());
    assert_eq!(WordCode::split(&code.to_string()), Ok((9999, code.password())));
}

#[test]
fn the_generator_draws_from_the_whole_list() {
    let mut seen = std::collections::HashSet::new();
    let mut source = rng(3);
    for _ in 0..2000 {
        let code = WordCode::generate(1, &mut source).expect("generate");
        for word in code.words() {
            seen.insert(word.clone());
        }
    }
    assert_eq!(seen.len(), WORDS.len());
}

#[test]
fn the_list_holds_its_words_and_no_others() {
    assert_eq!(WORDS.len(), 256);
    assert!(is_listed("adroitness"));
    assert!(is_listed("yucatan"));
    assert!(!is_listed("Adroitness"));
    assert!(!is_listed(""));
    let distinct: std::collections::HashSet<&str> = WORDS.iter().copied().collect();
    assert_eq!(distinct.len(), 256);
}

#[test]
fn code_errors_name_what_they_refuse() {
    assert!(WordCode::split("7").unwrap_err().to_string().contains("-"));
    let text = WordCode::validate("7-adroitness-adviser-zzzz").unwrap_err().to_string();
    assert!(text.contains("zzzz"), "{text}");
    let text = WordCode::validate("7-adroitness-adviser").unwrap_err().to_string();
    assert!(text.contains("2"), "{text}");
    let text = WordCode::split("abc-x").unwrap_err().to_string();
    assert!(text.contains("abc"), "{text}");
}

#[test]
fn leading_zeros_and_long_digit_runs_in_a_nameplate() {
    assert_eq!(WordCode::split("007-x"), Ok((7, "x".to_string())));
    assert_eq!(
        WordCode::split("99999999999999999999-x"),
        Err(WordCodeError::InvalidNameplate("99999999999999999999".to_string()))
    );
}

#[test]
fn words_are_picked_among_those_still_free() {
    let mut picked = Vec::new();
    assert_eq!(free_words(&picked).len(), 256);
    assert_eq!(pick_word(&picked, 0), WORDS[0]);
    picked.push(WORDS[0].to_string());
    assert_eq!(pick_word(&picked, 0), WORDS[1]);
    picked.push(WORDS[2].to_string());
    assert_eq!(pick_word(&picked, 1), WORDS[3]);
    assert_eq!(pick_word(&picked, 253), WORDS[255]);
    assert_eq!(free_words(&picked).len(), 254);
}

#[test]
fn a_refused_nameplate_draws_no_word() {
    let mut used = rng(9);
    assert!(WordCode::generate(0, &mut used).is_err());
    assert!(WordCode::generate(10000, &mut used).is_err());
    assert_eq!(WordCode::generate(5, &mut used), WordCode::generate(5, &mut rng(9)));
}
