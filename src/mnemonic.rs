use vstd::prelude::*;
use crate::error::Bip39Error;

verus! {

/// The languages that seed-phrase word lists are published in.
#[derive(Debug, Clone, Copy, PartialEq, Eq, Structural)]
pub enum Language {
    English,
    SimplifiedChinese,
    TraditionalChinese,
    Czech,
    French,
    Italian,
    Japanese,
    Korean,
    Spanish,
}

/// `w` is one of the words of `list`.
pub open spec fn known_in(w: Seq<char>, list: Seq<String>) -> bool {
    exists|k: int| 0 <= k < list.len() && (#[trigger] list[k])@ == w
}

/// `w` is a word of at least one of `lists`.
pub open spec fn known_anywhere(w: Seq<char>, lists: Seq<(Language, Vec<String>)>) -> bool {
    exists|j: int| 0 <= j < lists.len() && known_in(w, (#[trigger] lists[j]).1@)
}

/// Every word of `words` is in `list`.
pub open spec fn holds_all(words: Seq<String>, list: Seq<String>) -> bool {
    forall|i: int| 0 <= i < words.len() ==> known_in((#[trigger] words[i])@, list)
}

/// The languages, in order, whose lists hold every word of the phrase.
pub open spec fn candidates(words: Seq<String>, lists: Seq<(Language, Vec<String>)>) -> Seq<Language>
    decreases lists.len(),
{
    if lists.len() == 0 {
        Seq::empty()
    } else {
        let rest = candidates(words, lists.drop_last());
        if holds_all(words, lists.last().1@) {
            rest.push(lists.last().0)
        } else {
            rest
        }
    }
}

/// Word `i` is the first of the phrase that no list holds.
pub open spec fn first_unknown(words: Seq<String>, lists: Seq<(Language, Vec<String>)>, i: int) -> bool {
    0 <= i < words.len() && !known_anywhere(words[i]@, lists) && forall|k: int|
        0 <= k < i ==> known_anywhere((#[trigger] words[k])@, lists)
}

/// Word `i` is the first of the phrase that `list` lacks.
pub open spec fn first_absent(words: Seq<String>, list: Seq<String>, i: int) -> bool {
    0 <= i < words.len() && !known_in(words[i]@, list) && forall|k: int|
        0 <= k < i ==> known_in((#[trigger] words[k])@, list)
}

/// Some list holds each word of the phrase.
pub open spec fn all_known(words: Seq<String>, lists: Seq<(Language, Vec<String>)>) -> bool {
    forall|k: int| 0 <= k < words.len() ==> known_anywhere((#[trigger] words[k])@, lists)
}

/// Whether `list` holds `w`.
pub fn word_in(w: &String, list: &Vec<String>) -> (r: bool)
    ensures
        r == known_in(w@, list@),
{
    let mut k: usize = 0;
    while k < list.len()
        invariant
            k <= list.len(),
            forall|m: int| 0 <= m < k ==> (#[trigger] list@[m])@ != w@,
        decreases list.len() - k,
    {
        if list[k].eq(w) {
            return true;
        }
        k = k + 1;
    }
    false
}

/// Whether any of `lists` holds `w`.
pub fn word_known(w: &String, lists: &Vec<(Language, Vec<String>)>) -> (r: bool)
    ensures
        r == known_anywhere(w@, lists@),
{
    let mut j: usize = 0;
    while j < lists.len()
        invariant
            j <= lists.len(),
            forall|m: int| 0 <= m < j ==> !known_in(w@, (#[trigger] lists@[m]).1@),
        decreases lists.len() - j,
    {
        if word_in(w, &lists[j].1) {
            return true;
        }
        j = j + 1;
    }
    false
}

/// The first word of the phrase that `list` lacks, if any.
pub fn first_missing(words: &Vec<String>, list: &Vec<String>) -> (r: Option<usize>)
    ensures
        r is None <==> holds_all(words@, list@),
        r matches Some(i) ==> first_absent(words@, list@, i as int),
{
    let mut i: usize = 0;
    while i < words.len()
        invariant
            i <= words.len(),
            forall|k: int| 0 <= k < i ==> known_in((#[trigger] words@[k])@, list@),
        decreases words.len() - i,
    {
        if !word_in(&words[i], list) {
            return Some(i);
        }
        i = i + 1;
    }
    None
}

/// Checks a seed phrase, given as its words, against the word lists of the
/// supported languages, and returns the one language it is written in.
/// In order: a word count that is not a multiple of `group_size` fails with
/// `BadWordCount`; the first word that no list holds fails with `UnknownWord`;
/// a phrase that more than one list holds fails with `AmbiguousWordList`,
/// naming those languages in order; a phrase whose words are known but that
/// no single list holds fails with `UnknownWord`, naming the first word that
/// the first list lacks.
pub fn check_phrase(words: &Vec<String>, group_size: usize, lists: &Vec<(Language, Vec<String>)>) -> (r: Result<Language, Bip39Error>)
    requires
        group_size > 0,
        lists.len() > 0,
    ensures
        words.len() % group_size != 0 ==> r == Err::<Language, Bip39Error>(Bip39Error::BadWordCount(words.len())),
        words.len() % group_size == 0 ==> forall|i: int| #[trigger]
            first_unknown(words@, lists@, i) ==> r == Err::<Language, Bip39Error>(
                Bip39Error::UnknownWord(words@[i]),
            ),
        words.len() % group_size == 0 && all_known(words@, lists@) ==> match r {
            Ok(lang) => candidates(words@, lists@) == seq![lang],
            Err(Bip39Error::AmbiguousWordList(langs)) => candidates(words@, lists@).len() > 1
                && langs@ == candidates(words@, lists@),
            Err(Bip39Error::UnknownWord(w)) => candidates(words@, lists@).len() == 0 && exists|i: int|
                #[trigger] first_absent(words@, lists@[0].1@, i) && w == words@[i],
            Err(_) => false,
        },
{
    if words.len() % group_size != 0 {
        return Err(Bip39Error::BadWordCount(words.len()));
    }
    let mut i: usize = 0;
    while i < words.len()
        invariant
            i <= words.len(),
            words.len() % group_size == 0,
            forall|k: int| 0 <= k < i ==> known_anywhere((#[trigger] words@[k])@, lists@),
        decreases words.len() - i,
    {
        if !word_known(&words[i], lists) {
            assert(first_unknown(words@, lists@, i as int));
            assert forall|m: int| #[trigger] first_unknown(words@, lists@, m) implies m == i by {
                if m < i {
                    assert(known_anywhere(words@[m]@, lists@));
                } else if m > i {
                    assert(!known_anywhere(words@[i as int]@, lists@));
                }
            }
            return Err(Bip39Error::UnknownWord(words[i].clone()));
        }
        i = i + 1;
    }
    assert(forall|m: int| !#[trigger] first_unknown(words@, lists@, m));
    let mut langs: Vec<Language> = Vec::new();
    let mut j: usize = 0;
    while j < lists.len()
        invariant
            j <= lists.len(),
            words.len() % group_size == 0,
            all_known(words@, lists@),
            langs@ == candidates(words@, lists@.take(j as int)),
        decreases lists.len() - j,
    {
        assert(lists@.take(j + 1).drop_last() =~= lists@.take(j as int));
        if first_missing(words, &lists[j].1).is_none() {
            langs.push(lists[j].0);
        }
        j = j + 1;
    }
    assert(lists@.take(lists.len() as int) =~= lists@);
    if langs.len() == 1 {
        assert(langs@ =~= seq![langs@[0]]);
        Ok(langs[0])
    } else if langs.len() > 1 {
        Err(Bip39Error::AmbiguousWordList(langs))
    } else {
        match first_missing(words, &lists[0].1) {
            Some(k) => Err(Bip39Error::UnknownWord(words[k].clone())),
            None => {
                proof { lemma_holder_is_candidate(words@, lists@, 0); }
                Err(Bip39Error::InvalidChecksum)
            },
        }
    }
}

/// A list that holds every word puts its language among the candidates.
pub proof fn lemma_holder_is_candidate(words: Seq<String>, lists: Seq<(Language, Vec<String>)>, j: int)
    requires
        0 <= j < lists.len(),
        holds_all(words, lists[j].1@),
    ensures
        candidates(words, lists).len() > 0,
    decreases lists.len(),
{
    if j < lists.len() - 1 {
        assert(lists.drop_last()[j] == lists[j]);
        lemma_holder_is_candidate(words, lists.drop_last(), j);
    }
}

} // verus!
