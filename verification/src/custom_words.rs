//! The custom word corrector: tokens of a transcript that come close to a
//! word of the user's vocabulary are replaced by that word.
//!
//! Closeness is the edit distance between the token's letters and the word,
//! relative to the longer of the two, and counts for less where the two also
//! sound alike. All lengths are counted in characters, and all scores are
//! compared as exact fractions.

use vstd::prelude::*;
use vstd::string::StrSliceExecFns;
use vstd::string::StringExecFns;
use crate::text::{
    alphabetic,
    append_chars,
    char_is_alphabetic,
    char_is_uppercase,
    char_is_whitespace,
    char_to_uppercase,
    chars_of,
    lowercased,
    slice_of,
    str_to_lowercase,
    str_to_uppercase,
    string_of,
    texts,
    uppercase_letter,
    uppercased,
    uppercased_char,
    whitespace,
};

verus! {

/// How close a token has to come to a word to be replaced by it, in
/// millionths: 300 000 stands for 0.3. A token is replaced only where its
/// best score lies strictly below the threshold.
#[derive(Debug, Clone, Copy, PartialEq, Eq, Structural)]
pub struct Threshold {
    pub millionths: u32,
}

/// A token longer than this, counted after trimming and lowercasing, is
/// never touched.
pub const MAX_CORE_LEN: usize = 50;

/// A word whose length differs from the token's by more than this is no
/// candidate for it.
pub const MAX_LEN_DIFF: usize = 5;

/// The least number of insertions, deletions and substitutions of single
/// characters that turn `a` into `b`.
pub open spec fn edit_distance(a: Seq<char>, b: Seq<char>) -> nat
    decreases a.len() + b.len(),
{
    if a.len() == 0 {
        b.len()
    } else if b.len() == 0 {
        a.len()
    } else {
        let substitute = edit_distance(a.drop_last(), b.drop_last()) + if a.last() == b.last() {
            0nat
        } else {
            1nat
        };
        let delete = edit_distance(a.drop_last(), b) + 1;
        let insert = edit_distance(a, b.drop_last()) + 1;
        if substitute <= delete && substitute <= insert {
            substitute
        } else if delete <= insert {
            delete
        } else {
            insert
        }
    }
}

/// Whether the sound-alike codes of two non-empty words agree, as
/// `natural::phonetics::soundex` tells.
pub uninterp spec fn soundex_match(a: Seq<char>, b: Seq<char>) -> bool;

/// Trusted: calls `strsim::levenshtein`, which returns the minimum number of
/// insertions, deletions and substitutions required to change one string
/// into the other, counted over characters.
#[verifier::external_body]
fn levenshtein(a: &str, b: &str) -> (distance: usize)
    ensures
        distance == edit_distance(a@, b@),
{
    strsim::levenshtein(a, b)
}

/// Trusted: calls `natural::phonetics::soundex`, which encodes both words as
/// four-symbol codes and tells whether the codes are equal. It reads the
/// first character of each word, so neither may be empty.
#[verifier::external_body]
fn soundex(a: &str, b: &str) -> (alike: bool)
    requires
        a@.len() > 0,
        b@.len() > 0,
    ensures
        alike == soundex_match(a@, b@),
{
    natural::phonetics::soundex(a, b)
}

/// The number of characters at the start of `s` that come before its first
/// white space.
pub open spec fn run_length(s: Seq<char>) -> nat
    decreases s.len(),
{
    if s.len() == 0 || whitespace(s[0]) {
        0
    } else {
        1 + run_length(s.drop_first())
    }
}

/// The number of characters at the start of `s` that come before its first
/// letter.
pub open spec fn leading_non_letters(s: Seq<char>) -> nat
    decreases s.len(),
{
    if s.len() == 0 || alphabetic(s[0]) {
        0
    } else {
        1 + leading_non_letters(s.drop_first())
    }
}

/// The number of characters at the end of `s` that come after its last
/// letter.
pub open spec fn trailing_non_letters(s: Seq<char>) -> nat
    decreases s.len(),
{
    if s.len() == 0 || alphabetic(s.last()) {
        0
    } else {
        1 + trailing_non_letters(s.drop_last())
    }
}

/// A run ends where the first white space stands, or where the text ends.
pub proof fn lemma_run_length(s: Seq<char>, n: int)
    requires
        0 <= n <= s.len(),
        forall|j: int| 0 <= j < n ==> !whitespace(#[trigger] s[j]),
        n == s.len() || whitespace(s[n]),
    ensures
        run_length(s) == n,
    decreases n,
{
    if n > 0 {
        let rest = s.drop_first();
        assert forall|j: int| 0 <= j < n - 1 implies !whitespace(#[trigger] rest[j]) by {
            assert(rest[j] == s[j + 1]);
        }
        lemma_run_length(rest, n - 1);
    }
}

/// The leading non-letters end where the first letter stands, or where the
/// text ends.
pub proof fn lemma_leading_non_letters(s: Seq<char>, n: int)
    requires
        0 <= n <= s.len(),
        forall|j: int| 0 <= j < n ==> !alphabetic(#[trigger] s[j]),
        n == s.len() || alphabetic(s[n]),
    ensures
        leading_non_letters(s) == n,
    decreases n,
{
    if n > 0 {
        let rest = s.drop_first();
        assert forall|j: int| 0 <= j < n - 1 implies !alphabetic(#[trigger] rest[j]) by {
            assert(rest[j] == s[j + 1]);
        }
        lemma_leading_non_letters(rest, n - 1);
    }
}

/// The trailing non-letters begin behind the last letter, or where the text
/// begins.
pub proof fn lemma_trailing_non_letters(s: Seq<char>, n: int)
    requires
        0 <= n <= s.len(),
        forall|j: int| s.len() - n <= j < s.len() ==> !alphabetic(#[trigger] s[j]),
        n == s.len() || alphabetic(s[s.len() - n - 1]),
    ensures
        trailing_non_letters(s) == n,
    decreases n,
{
    if n > 0 {
        let rest = s.drop_last();
        assert forall|j: int| rest.len() - (n - 1) <= j < rest.len() implies !alphabetic(
            #[trigger] rest[j],
        ) by {
            assert(rest[j] == s[j]);
        }
        lemma_trailing_non_letters(rest, n - 1);
    }
}

/// A run is no longer than the text, and not empty where the text starts
/// with something other than white space.
pub proof fn lemma_run_length_bounds(s: Seq<char>)
    ensures
        run_length(s) <= s.len(),
        s.len() > 0 && !whitespace(s[0]) ==> run_length(s) >= 1,
    decreases s.len(),
{
    if s.len() > 0 && !whitespace(s[0]) {
        lemma_run_length_bounds(s.drop_first());
    }
}

/// The tokens of a text: its longest runs of characters other than white
/// space, in order.
pub open spec fn tokens(text: Seq<char>) -> Seq<Seq<char>>
    decreases text.len(),
    via tokens_decreases
{
    if text.len() == 0 {
        Seq::empty()
    } else if whitespace(text[0]) {
        tokens(text.drop_first())
    } else {
        let n = run_length(text) as int;
        seq![text.take(n)] + tokens(text.skip(n))
    }
}

#[via_fn]
proof fn tokens_decreases(text: Seq<char>) {
    lemma_run_length_bounds(text);
}

/// The tokens put together again, with one space between neighbours.
pub open spec fn joined(tokens: Seq<Seq<char>>) -> Seq<char>
    decreases tokens.len(),
{
    if tokens.len() == 0 {
        Seq::empty()
    } else if tokens.len() == 1 {
        tokens[0]
    } else {
        joined(tokens.drop_last()) + seq![' '] + tokens.last()
    }
}

/// A score: the fraction `numerator / denominator`, with a positive
/// denominator.
pub struct Score {
    pub numerator: nat,
    pub denominator: nat,
}

/// Whether the two words count as sounding alike. An empty word sounds like
/// nothing.
pub open spec fn sounds_alike(a: Seq<char>, b: Seq<char>) -> bool {
    a.len() > 0 && b.len() > 0 && soundex_match(a, b)
}

/// How far `candidate` is from `core`: the edit distance divided by the
/// length of the longer of the two, times 0.3 where the two sound alike; 1
/// where both are empty.
pub open spec fn score(core: Seq<char>, candidate: Seq<char>) -> Score {
    let longer = if core.len() >= candidate.len() {
        core.len()
    } else {
        candidate.len()
    };
    if longer == 0 {
        Score { numerator: 10, denominator: 10 }
    } else if sounds_alike(core, candidate) {
        Score { numerator: 3 * edit_distance(core, candidate), denominator: 10 * longer }
    } else {
        Score { numerator: 10 * edit_distance(core, candidate), denominator: 10 * longer }
    }
}

/// Whether the score `a` is strictly less than the score `b`.
pub open spec fn less(a: Score, b: Score) -> bool {
    a.numerator * b.denominator < b.numerator * a.denominator
}

/// Whether the score `a` lies strictly below the threshold.
pub open spec fn below(a: Score, threshold: Threshold) -> bool {
    a.numerator * 1_000_000 < threshold.millionths * a.denominator
}

/// Whether `candidate` is considered for `core` at all: their lengths
/// differ by five characters at most.
pub open spec fn eligible(core: Seq<char>, candidate: Seq<char>) -> bool {
    core.len() - candidate.len() <= MAX_LEN_DIFF && candidate.len() - core.len() <= MAX_LEN_DIFF
}

/// The candidate with the lowest score among the first `n`, the earlier one
/// where two score the same; `None` where none of them is eligible.
pub open spec fn best_candidate(core: Seq<char>, candidates: Seq<Seq<char>>, n: nat) -> Option<int>
    decreases n,
{
    if n == 0 {
        None
    } else {
        let before = best_candidate(core, candidates, (n - 1) as nat);
        let last = candidates[n - 1];
        if eligible(core, last) && (before is None || less(
            score(core, last),
            score(core, candidates[before->0]),
        )) {
            Some(n - 1)
        } else {
            before
        }
    }
}

/// The candidate that replaces `core`: the best one, where its score lies
/// below the threshold.
pub open spec fn winner(core: Seq<char>, candidates: Seq<Seq<char>>, threshold: Threshold) -> Option<
    int,
> {
    match best_candidate(core, candidates, candidates.len()) {
        Some(i) => if below(score(core, candidates[i]), threshold) {
            Some(i)
        } else {
            None
        },
        None => None,
    }
}

/// Whether every letter of the token is an uppercase letter.
pub open spec fn all_letters_uppercase(token: Seq<char>) -> bool {
    forall|i: int| 0 <= i < token.len() && alphabetic(#[trigger] token[i]) ==> uppercase_letter(token[i])
}

/// Whether the first letter of the token is an uppercase letter.
pub open spec fn first_letter_uppercase(token: Seq<char>) -> bool {
    leading_non_letters(token) < token.len() && uppercase_letter(
        token[leading_non_letters(token) as int],
    )
}

/// The word with its first character in uppercase. Where the uppercase form
/// of that character is several characters long, the first of them stands
/// for it.
pub open spec fn capitalized(word: Seq<char>) -> Seq<char> {
    if word.len() == 0 {
        word
    } else if uppercased_char(word[0]).len() == 0 {
        word
    } else {
        seq![uppercased_char(word[0])[0]] + word.drop_first()
    }
}

/// The word in the case pattern of the token: all in uppercase where all
/// letters of the token are, capitalized where its first letter is in
/// uppercase, and as it is otherwise.
pub open spec fn recased(token: Seq<char>, word: Seq<char>) -> Seq<char> {
    if all_letters_uppercase(token) {
        uppercased(word)
    } else if first_letter_uppercase(token) {
        capitalized(word)
    } else {
        word
    }
}

/// The core of a token: what lies between its first and its last letter, in
/// lowercase; empty where the token has no letter.
pub open spec fn core_of(token: Seq<char>) -> Seq<char> {
    let lead = leading_non_letters(token) as int;
    let trail = trailing_non_letters(token) as int;
    if lead >= token.len() {
        Seq::empty()
    } else {
        lowercased(token.subrange(lead, token.len() - trail))
    }
}

/// What becomes of one token, given the candidates in lowercase. The token
/// is kept where its core is empty or longer than 50 characters, and where
/// no candidate wins; otherwise the winner takes the place of everything
/// from the first letter to the last.
pub open spec fn corrected_with(
    token: Seq<char>,
    candidates: Seq<Seq<char>>,
    threshold: Threshold,
) -> Seq<char> {
    let lead = leading_non_letters(token) as int;
    let trail = trailing_non_letters(token) as int;
    let core = core_of(token);
    if core.len() == 0 || core.len() > MAX_CORE_LEN {
        token
    } else {
        match winner(core, candidates, threshold) {
            Some(i) => token.take(lead) + recased(token, candidates[i]) + token.skip(
                token.len() - trail,
            ),
            None => token,
        }
    }
}

/// The words in lowercase.
pub open spec fn lowered_words(words: Seq<Seq<char>>) -> Seq<Seq<char>> {
    Seq::new(words.len(), |i: int| lowercased(words[i]))
}

/// What becomes of each of the tokens.
pub open spec fn corrected_all(
    tokens: Seq<Seq<char>>,
    candidates: Seq<Seq<char>>,
    threshold: Threshold,
) -> Seq<Seq<char>> {
    Seq::new(tokens.len(), |i: int| corrected_with(tokens[i], candidates, threshold))
}

/// The corrected text. Without words the text stays as it is, white space
/// included; with words it is cut into tokens, each token is corrected, and
/// the tokens are joined with single spaces.
pub open spec fn corrected_text(text: Seq<char>, words: Seq<Seq<char>>, threshold: Threshold) -> Seq<
    char,
> {
    if words.len() == 0 {
        text
    } else {
        joined(corrected_all(tokens(text), lowered_words(words), threshold))
    }
}

fn count_leading_non_letters(token: &Vec<char>) -> (n: usize)
    ensures
        n == leading_non_letters(token@),
        n <= token@.len(),
        n < token@.len() ==> alphabetic(token@[n as int]),
{
    let mut n: usize = 0;
    while n < token.len() && !char_is_alphabetic(token[n])
        invariant
            n <= token@.len(),
            forall|j: int| 0 <= j < n ==> !alphabetic(#[trigger] token@[j]),
        decreases token@.len() - n,
    {
        n += 1;
    }
    proof {
        lemma_leading_non_letters(token@, n as int);
    }
    n
}

fn count_trailing_non_letters(token: &Vec<char>) -> (n: usize)
    ensures
        n == trailing_non_letters(token@),
        n <= token@.len(),
        forall|j: int| token@.len() - n <= j < token@.len() ==> !alphabetic(#[trigger] token@[j]),
{
    let mut start: usize = token.len();
    while start > 0 && !char_is_alphabetic(token[start - 1])
        invariant
            start <= token@.len(),
            forall|j: int| start <= j < token@.len() ==> !alphabetic(#[trigger] token@[j]),
        decreases start,
    {
        start -= 1;
    }
    let n = token.len() - start;
    proof {
        lemma_trailing_non_letters(token@, n as int);
    }
    n
}

fn run_end(chars: &Vec<char>, start: usize) -> (end: usize)
    requires
        start < chars@.len(),
        !whitespace(chars@[start as int]),
    ensures
        start < end <= chars@.len(),
        end - start == run_length(chars@.skip(start as int)),
{
    let len = chars.len();
    let mut end: usize = start + 1;
    while end < len && !char_is_whitespace(chars[end])
        invariant
            len == chars@.len(),
            start < end <= chars@.len(),
            forall|j: int| start <= j < end ==> !whitespace(#[trigger] chars@[j]),
        decreases chars@.len() - end,
    {
        end += 1;
    }
    proof {
        let rest = chars@.skip(start as int);
        assert forall|j: int| 0 <= j < end - start implies !whitespace(#[trigger] rest[j]) by {
            assert(rest[j] == chars@[start + j]);
        }
        lemma_run_length(rest, end - start);
    }
    end
}

fn lower_all(words: &[String]) -> (lowered: Vec<String>)
    ensures
        texts(lowered@) == lowered_words(texts(words@)),
{
    let mut lowered: Vec<String> = Vec::new();
    let mut i: usize = 0;
    while i < words.len()
        invariant
            i <= words@.len(),
            lowered@.len() == i,
            forall|j: int| 0 <= j < i ==> (#[trigger] lowered@[j])@ == lowercased(words@[j]@),
        decreases words@.len() - i,
    {
        lowered.push(str_to_lowercase(words[i].as_str()));
        i += 1;
    }
    assert(texts(lowered@) =~= lowered_words(texts(words@)));
    lowered
}

fn best_match(core: &str, lowered: &Vec<String>, threshold: Threshold) -> (found: Option<usize>)
    requires
        0 < core@.len() <= 50,
    ensures
        match found {
            Some(i) => i < lowered@.len() && winner(core@, texts(lowered@), threshold) == Some(
                i as int,
            ),
            None => winner(core@, texts(lowered@), threshold) is None,
        },
{
    let core_len = core.unicode_len();
    let ghost candidates = texts(lowered@);
    let mut best: Option<usize> = None;
    let mut best_numerator: u128 = 0;
    let mut best_denominator: u128 = 1;
    let mut i: usize = 0;
    while i < lowered.len()
        invariant
            i <= lowered@.len(),
            candidates == texts(lowered@),
            core_len == core@.len(),
            0 < core_len <= 50,
            match best {
                Some(b) => b < i && best_candidate(core@, candidates, i as nat) == Some(b as int)
                    && best_numerator == score(core@, candidates[b as int]).numerator
                    && best_denominator == score(core@, candidates[b as int]).denominator
                    && 0 < best_denominator <= 550 && best_numerator <= 10 * usize::MAX,
                None => best_candidate(core@, candidates, i as nat) is None,
            },
        decreases lowered@.len() - i,
    {
        let candidate = lowered[i].as_str();
        let candidate_len = candidate.unicode_len();
        assert(candidates[i as int] == candidate@);
        let close = if core_len >= candidate_len {
            core_len - candidate_len <= MAX_LEN_DIFF
        } else {
            candidate_len - core_len <= MAX_LEN_DIFF
        };
        if close {
            let distance = levenshtein(core, candidate);
            let alike = candidate_len > 0 && soundex(core, candidate);
            let longer = if core_len >= candidate_len {
                core_len
            } else {
                candidate_len
            };
            let numerator: u128 = if alike {
                3 * (distance as u128)
            } else {
                10 * (distance as u128)
            };
            let denominator: u128 = 10 * (longer as u128);
            assert(0 < denominator <= 550 && numerator <= 10 * usize::MAX);
            let better = match best {
                None => true,
                Some(_) => {
                    assert(numerator * best_denominator <= 10 * usize::MAX * 550) by (nonlinear_arith)
                        requires
                            numerator <= 10 * usize::MAX,
                            best_denominator <= 550,
                    ;
                    assert(best_numerator * denominator <= 10 * usize::MAX * 550) by (nonlinear_arith)
                        requires
                            best_numerator <= 10 * usize::MAX,
                            denominator <= 550,
                    ;
                    numerator * best_denominator < best_numerator * denominator
                },
            };
            if better {
                best = Some(i);
                best_numerator = numerator;
                best_denominator = denominator;
            }
        }
        i += 1;
    }
    match best {
        Some(b) => {
            assert((threshold.millionths as u128) * best_denominator <= u32::MAX * 550) by (nonlinear_arith)
                requires
                    threshold.millionths <= u32::MAX,
                    best_denominator <= 550,
            ;
            if best_numerator * 1_000_000 < (threshold.millionths as u128) * best_denominator {
                Some(b)
            } else {
                None
            }
        },
        None => None,
    }
}

fn has_only_uppercase_letters(token: &Vec<char>) -> (yes: bool)
    ensures
        yes == all_letters_uppercase(token@),
{
    let mut i: usize = 0;
    while i < token.len()
        invariant
            i <= token@.len(),
            forall|j: int| 0 <= j < i && alphabetic(#[trigger] token@[j]) ==> uppercase_letter(token@[j]),
        decreases token@.len() - i,
    {
        if char_is_alphabetic(token[i]) && !char_is_uppercase(token[i]) {
            return false;
        }
        i += 1;
    }
    true
}

fn capitalize(word: &str) -> (result: Vec<char>)
    ensures
        result@ == capitalized(word@),
{
    let letters = chars_of(word);
    if letters.len() == 0 {
        return letters;
    }
    let upper = char_to_uppercase(letters[0]);
    if upper.len() == 0 {
        return letters;
    }
    let mut result: Vec<char> = Vec::new();
    result.push(upper[0]);
    let rest = slice_of(&letters, 1, letters.len());
    append_chars(&mut result, &rest);
    assert(result@ == seq![upper@[0]] + letters@.drop_first());
    result
}

fn recase(token: &Vec<char>, lead: usize, word: &str) -> (result: Vec<char>)
    requires
        lead == leading_non_letters(token@),
    ensures
        result@ == recased(token@, word@),
{
    if has_only_uppercase_letters(token) {
        let upper = str_to_uppercase(word);
        chars_of(upper.as_str())
    } else if lead < token.len() && char_is_uppercase(token[lead]) {
        capitalize(word)
    } else {
        chars_of(word)
    }
}

fn correct_token(token: &Vec<char>, lowered: &Vec<String>, threshold: Threshold) -> (result: Vec<
    char,
>)
    ensures
        result@ == corrected_with(token@, texts(lowered@), threshold),
{
    let lead = count_leading_non_letters(token);
    if lead >= token.len() {
        return slice_of(token, 0, token.len());
    }
    let trail = count_trailing_non_letters(token);
    assert(lead + trail < token@.len()) by {
        if lead + trail >= token@.len() {
            assert(!alphabetic(token@[lead as int]));
        }
    }
    let trimmed = slice_of(token, lead, token.len() - trail);
    let trimmed_text = string_of(&trimmed);
    let core = str_to_lowercase(trimmed_text.as_str());
    let core_len = core.as_str().unicode_len();
    if core_len == 0 || core_len > MAX_CORE_LEN {
        return slice_of(token, 0, token.len());
    }
    match best_match(core.as_str(), lowered, threshold) {
        None => slice_of(token, 0, token.len()),
        Some(i) => {
            let mut result = slice_of(token, 0, lead);
            let word = recase(token, lead, lowered[i].as_str());
            append_chars(&mut result, &word);
            let suffix = slice_of(token, token.len() - trail, token.len());
            append_chars(&mut result, &suffix);
            assert(texts(lowered@)[i as int] == lowered@[i as int]@);
            result
        },
    }
}

/// Corrects the tokens of `text` against the vocabulary `custom_words`.
///
/// A token is cut down to what lies between its first and its last letter
/// and put in lowercase. Among the words whose length in lowercase differs
/// from that by five characters at most, the one with the lowest score wins,
/// the earlier one where two score the same; where its score lies strictly
/// below `threshold` it takes the place of the token's letters, in the
/// token's case pattern and between the token's own punctuation.
pub fn apply_custom_words(text: &str, custom_words: &[String], threshold: Threshold) -> (corrected:
    String)
    ensures
        corrected@ == corrected_text(text@, texts(custom_words@), threshold),
{
    if custom_words.len() == 0 {
        return String::from_str(text);
    }
    let lowered = lower_all(custom_words);
    let chars = chars_of(text);
    let ghost candidates = texts(lowered@);
    let ghost mut done: Seq<Seq<char>> = Seq::empty();
    let mut out: Vec<char> = Vec::new();
    let mut first = true;
    let mut i: usize = 0;
    assert(chars@.skip(0) == chars@);
    assert(done + tokens(chars@) == tokens(chars@));
    while i < chars.len()
        invariant
            i <= chars@.len(),
            candidates == texts(lowered@),
            done + tokens(chars@.skip(i as int)) == tokens(chars@),
            out@ == joined(corrected_all(done, candidates, threshold)),
            first == (done.len() == 0),
        decreases chars@.len() - i,
    {
        let ghost rest = chars@.skip(i as int);
        if char_is_whitespace(chars[i]) {
            assert(rest.drop_first() == chars@.skip(i + 1));
            i += 1;
        } else {
            let end = run_end(&chars, i);
            let token = slice_of(&chars, i, end);
            let fixed = correct_token(&token, &lowered, threshold);
            if !first {
                out.push(' ');
            }
            append_chars(&mut out, &fixed);
            first = false;
            proof {
                assert(rest.take(end - i) == token@);
                assert(rest.skip(end - i) == chars@.skip(end as int));
                assert(tokens(rest) == seq![token@] + tokens(chars@.skip(end as int)));
                let before = corrected_all(done, candidates, threshold);
                let after = corrected_all(done.push(token@), candidates, threshold);
                assert(after.drop_last() == before);
                assert(after.last() == fixed@);
                assert(done.push(token@) + tokens(chars@.skip(end as int)) == done + tokens(rest));
                done = done.push(token@);
            }
            i = end;
        }
    }
    assert(chars@.skip(chars@.len() as int).len() == 0);
    assert(done == tokens(chars@));
    string_of(&out)
}

/// Without a vocabulary nothing changes, whatever the text and the
/// threshold.
pub proof fn lemma_no_words_no_change(text: Seq<char>, threshold: Threshold)
    ensures
        corrected_text(text, Seq::empty(), threshold) == text,
{
}

/// A token of 51 characters is kept as it is, whatever the vocabulary and
/// the threshold, unless trimming and lowercasing leave a core of 1 to 50
/// characters.
pub proof fn lemma_long_token_is_kept(
    token: Seq<char>,
    candidates: Seq<Seq<char>>,
    threshold: Threshold,
)
    requires
        token.len() == 51,
        core_of(token).len() == 0 || core_of(token).len() > MAX_CORE_LEN,
    ensures
        corrected_with(token, candidates, threshold) == token,
{
}

/// A candidate wins only where it is eligible and its score lies below the
/// threshold, and then no eligible candidate scores less, and none before it
/// scores the same.
pub proof fn lemma_winner_is_best(
    core: Seq<char>,
    candidates: Seq<Seq<char>>,
    threshold: Threshold,
    j: int,
)
    requires
        winner(core, candidates, threshold) is Some,
        0 <= j < candidates.len(),
        eligible(core, candidates[j]),
    ensures
        ({
            let w = winner(core, candidates, threshold)->0;
            &&& 0 <= w < candidates.len()
            &&& eligible(core, candidates[w])
            &&& below(score(core, candidates[w]), threshold)
            &&& !less(score(core, candidates[j]), score(core, candidates[w]))
            &&& j < w ==> less(score(core, candidates[w]), score(core, candidates[j]))
        }),
{
    lemma_best_candidate(core, candidates, candidates.len(), j);
}

proof fn lemma_best_candidate(core: Seq<char>, candidates: Seq<Seq<char>>, n: nat, j: int)
    requires
        n <= candidates.len(),
        forall|k: int| 0 <= k < candidates.len() ==> score(core, #[trigger] candidates[k]).denominator > 0,
    ensures
        match best_candidate(core, candidates, n) {
            Some(b) => {
                &&& 0 <= b < n
                &&& eligible(core, candidates[b])
                &&& 0 <= j < n && eligible(core, candidates[j]) ==> !less(
                    score(core, candidates[j]),
                    score(core, candidates[b]),
                )
                &&& 0 <= j < b && eligible(core, candidates[j]) ==> less(
                    score(core, candidates[b]),
                    score(core, candidates[j]),
                )
            },
            None => 0 <= j < n ==> !eligible(core, candidates[j]),
        },
    decreases n,
{
    if n > 0 {
        lemma_best_candidate(core, candidates, (n - 1) as nat, j);
        let before = best_candidate(core, candidates, (n - 1) as nat);
        let last = candidates[n - 1];
        if before is Some {
            let b = before->0;
            lemma_best_candidate(core, candidates, (n - 1) as nat, b);
            let sl = score(core, last);
            let sb = score(core, candidates[b]);
            if 0 <= j < n - 1 && eligible(core, candidates[j]) {
                let sj = score(core, candidates[j]);
                if eligible(core, last) && less(sl, sb) {
                    lemma_less_chain(sj, sl, sb);
                    if j < b {
                        lemma_less_transitive(sl, sb, sj);
                    } else {
                        lemma_less_chain_keeps(sl, sb, sj);
                    }
                }
            }
        }
    }
}

/// Of three scores, where the second is less than the third and the first
/// is less than the second, the first is less than the third too.
proof fn lemma_less_transitive(a: Score, b: Score, c: Score)
    requires
        a.denominator > 0,
        b.denominator > 0,
        c.denominator > 0,
        less(a, b),
        less(b, c),
    ensures
        less(a, c),
{
    assert(a.numerator * c.denominator < c.numerator * a.denominator) by (nonlinear_arith)
        requires
            a.denominator > 0,
            b.denominator > 0,
            c.denominator > 0,
            a.numerator * b.denominator < b.numerator * a.denominator,
            b.numerator * c.denominator < c.numerator * b.denominator,
    ;
}

/// Where `l` is less than `b` and `b` is not more than `j`, `j` is not less
/// than `l`.
proof fn lemma_less_chain(j: Score, l: Score, b: Score)
    requires
        j.denominator > 0,
        l.denominator > 0,
        b.denominator > 0,
        less(l, b),
        !less(j, b),
    ensures
        !less(j, l),
{
    assert(!(j.numerator * l.denominator < l.numerator * j.denominator)) by (nonlinear_arith)
        requires
            j.denominator > 0,
            l.denominator > 0,
            b.denominator > 0,
            l.numerator * b.denominator < b.numerator * l.denominator,
            !(j.numerator * b.denominator < b.numerator * j.denominator),
    ;
}

/// Where `l` is less than `b` and `b` is not more than `j`, `l` is less
/// than `j`.
proof fn lemma_less_chain_keeps(l: Score, b: Score, j: Score)
    requires
        j.denominator > 0,
        l.denominator > 0,
        b.denominator > 0,
        less(l, b),
        !less(j, b),
    ensures
        less(l, j),
{
    assert(l.numerator * j.denominator < j.numerator * l.denominator) by (nonlinear_arith)
        requires
            j.denominator > 0,
            l.denominator > 0,
            b.denominator > 0,
            l.numerator * b.denominator < b.numerator * l.denominator,
            !(j.numerator * b.denominator < b.numerator * j.denominator),
    ;
}

} // verus!
