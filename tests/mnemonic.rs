use cosmos_errors::error::Bip39Error;
use cosmos_errors::mnemonic::{check_phrase, Language};

fn words(text: &str) -> Vec<String> {
    text.split_whitespace().map(|w| w.to_string()).collect()
}

fn lists() -> Vec<(Language, Vec<String>)> {
    vec![
        (Language::English, words("abandon ability able about above absent")),
        (Language::French, words("abaisser abandon absence absolu absurde abuser")),
    ]
}

#[test]
fn word_count_not_a_multiple_of_group() {
    let phrase = words("ability able about above absent abandon ability able about above absent abandon able");
    assert_eq!(phrase.len(), 13);
    assert_eq!(check_phrase(&phrase, 6, &lists()), Err(Bip39Error::BadWordCount(13)));
}

#[test]
fn bad_word_count_comes_before_unknown_words() {
    let phrase = words("zzz yyy xxx");
    assert_eq!(check_phrase(&phrase, 6, &lists()), Err(Bip39Error::BadWordCount(3)));
}

#[test]
fn unknown_word_named_exactly() {
    let phrase = words("ability able notaword about above absent");
    assert_eq!(
        check_phrase(&phrase, 6, &lists()),
        Err(Bip39Error::UnknownWord("notaword".to_string()))
    );
}

#[test]
fn first_unknown_word_wins() {
    let phrase = words("ability able notaword about above alsobad");
    assert_eq!(
        check_phrase(&phrase, 6, &lists()),
        Err(Bip39Error::UnknownWord("notaword".to_string()))
    );
}

#[test]
fn phrase_in_one_language() {
    let phrase = words("ability able about above absent abandon");
    assert_eq!(check_phrase(&phrase, 6, &lists()), Ok(Language::English));
    let phrase = words("abaisser abandon absence absolu absurde abuser");
    assert_eq!(check_phrase(&phrase, 6, &lists()), Ok(Language::French));
}

#[test]
fn phrase_in_two_languages_is_ambiguous() {
    let phrase = words("abandon abandon abandon abandon abandon abandon");
    assert_eq!(
        check_phrase(&phrase, 6, &lists()),
        Err(Bip39Error::AmbiguousWordList(vec![Language::English, Language::French]))
    );
}

#[test]
fn phrase_mixing_languages() {
    let phrase = words("ability abaisser about above absent abandon");
    assert_eq!(
        check_phrase(&phrase, 6, &lists()),
        Err(Bip39Error::UnknownWord("abaisser".to_string()))
    );
}
