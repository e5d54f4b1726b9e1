//! Word-anchored fuzzy matching.
//!
//! A *word* is a maximal run of alphanumeric characters. A match attempt
//! begins at the first character of a word or at a non-alphanumeric
//! character, and then consumes the term greedily from left to right: inside
//! a word it goes on character by character until one fails, after which the
//! rest of that word is passed over. A candidate matches when some attempt
//! consumes the whole term.
//!
//! Which characters are alphanumeric is a fact about Unicode. The matcher
//! itself takes it as an argument: beside the path it is given, for each
//! position, whether the character there belongs to a word.

use vstd::prelude::*;
use crate::text::{alphanumeric, is_alphanumeric};

verus! {

/// An attempt may begin at position `i`: the character there belongs to no
/// word, or it is the first character of one.
pub open spec fn attempt_start(word: Seq<bool>, i: int) -> bool {
    &&& 0 <= i < word.len()
    &&& (!word[i] || i == 0 || !word[i - 1])
}

/// The greedy scan of `path` from position `i`, with `term[..j]` consumed so
/// far. `live` says that the character at `i` may be compared even if it
/// belongs to a word: no character of its word has failed. The scan
/// succeeds as soon as the term is used up and fails when the path runs out
/// first.
pub open spec fn scan(
    path: Seq<char>,
    word: Seq<bool>,
    term: Seq<char>,
    i: int,
    j: int,
    live: bool,
) -> bool
    decreases path.len() - i,
{
    if j >= term.len() {
        true
    } else if i < 0 || i >= path.len() {
        false
    } else if !live && word[i] {
        scan(path, word, term, i + 1, j, false)
    } else if path[i] == term[j] {
        scan(path, word, term, i + 1, j + 1, true)
    } else {
        scan(path, word, term, i + 1, j, !word[i])
    }
}

/// The attempt that begins at position `k` of `path` consumes all of `term`.
pub open spec fn attempt_succeeds(path: Seq<char>, word: Seq<bool>, term: Seq<char>, k: int) -> bool {
    &&& attempt_start(word, k)
    &&& k < path.len()
    &&& term.len() > 0
    &&& path[k] == term[0]
    &&& scan(path, word, term, k + 1, 1, true)
}

/// Some attempt on `path` succeeds, where `word[i]` says whether the
/// character at position `i` belongs to a word.
pub open spec fn matches_words(path: Seq<char>, word: Seq<bool>, term: Seq<char>) -> bool {
    exists|k: int| attempt_succeeds(path, word, term, k)
}

/// For each character of `path`, whether it is alphanumeric.
pub open spec fn word_chars(path: Seq<char>) -> Seq<bool> {
    path.map_values(|c: char| alphanumeric(c))
}

/// `term` fuzzily matches `path`, words being runs of alphanumeric
/// characters.
pub open spec fn fuzzy_matches(path: Seq<char>, term: Seq<char>) -> bool {
    matches_words(path, word_chars(path), term)
}

/// A greedy scan that stands on a copy of the rest of the term consumes it.
proof fn scan_consumes_run(path: Seq<char>, word: Seq<bool>, term: Seq<char>, i: int, j: int)
    requires
        0 <= i,
        0 <= j <= term.len(),
        i + (term.len() - j) <= path.len(),
        path.subrange(i, i + (term.len() - j)) == term.subrange(j, term.len() as int),
    ensures
        scan(path, word, term, i, j, true),
    decreases term.len() - j,
{
    if j < term.len() {
        let rest = path.subrange(i, i + (term.len() - j));
        assert(rest[0] == path[i]);
        assert(term.subrange(j, term.len() as int)[0] == term[j]);
        assert(path.subrange(i + 1, i + 1 + (term.len() - (j + 1))) == rest.drop_first());
        assert(term.subrange(j + 1, term.len() as int) == term.subrange(
            j,
            term.len() as int,
        ).drop_first());
        scan_consumes_run(path, word, term, i + 1, j + 1);
    }
}

/// A non-empty term matches every path that holds it as a contiguous run
/// beginning at a word boundary: at the start of the path, at a
/// non-alphanumeric character, or right after one.
pub proof fn run_at_word_boundary_matches(path: Seq<char>, term: Seq<char>, at: int)
    requires
        term.len() > 0,
        0 <= at,
        at + term.len() <= path.len(),
        path.subrange(at, at + term.len()) == term,
        at == 0 || !alphanumeric(path[at]) || !alphanumeric(path[at - 1]),
    ensures
        fuzzy_matches(path, term),
{
    let word = word_chars(path);
    let run = path.subrange(at, at + term.len());
    assert(run[0] == path[at]);
    assert(path.subrange(at + 1, at + 1 + (term.len() - 1)) == run.drop_first());
    assert(term.subrange(1, term.len() as int) == term.drop_first());
    scan_consumes_run(path, word, term, at + 1, 1);
    assert(attempt_succeeds(path, word, term, at));
}

/// Nothing matches the empty path.
pub proof fn empty_path_never_matches(term: Seq<char>)
    ensures
        !fuzzy_matches(Seq::<char>::empty(), term),
{
}

/// Says of each character of `path` whether it is alphanumeric.
pub fn classify(path: &Vec<char>) -> (word: Vec<bool>)
    ensures
        word@ == word_chars(path@),
{
    let mut word: Vec<bool> = Vec::new();
    let mut i: usize = 0;
    while i < path.len()
        invariant
            i <= path@.len(),
            word@ == word_chars(path@.subrange(0, i as int)),
        decreases path@.len() - i,
    {
        word.push(is_alphanumeric(path[i]));
        assert(path@.subrange(0, i as int + 1) == path@.subrange(0, i as int).push(path@[i as int]));
        i = i + 1;
    }
    assert(path@.subrange(0, i as int) == path@);
    word
}

/// Decides `matches_words` with one pass over `path` per attempt. When the
/// path runs out while an attempt is in progress, the scan is rewound to the
/// position after the one where that attempt began and the term is taken
/// from its start again.
pub fn fuzzy_match(path: &Vec<char>, word: &Vec<bool>, term: &Vec<char>) -> (found: bool)
    requires
        term@.len() > 0,
        word@.len() == path@.len(),
    ensures
        found == matches_words(path@, word@, term@),
{
    let n = path.len();
    let m = term.len();
    // Cursor into `path`, cursor into `term`.
    let mut i: usize = 0;
    let mut j: usize = 0;
    // No character of the word around `i` has failed yet.
    let mut matching_current_word = true;
    // At least one character has matched since the last rewind.
    let mut match_in_progress = false;
    // One past the position where the attempt in progress began; while no
    // attempt is in progress, the position of the next character.
    let mut index_matched_at: usize = 0;
    // Where the current pass over `path` began.
    let ghost mut base: int = 0;
    loop
        invariant
            n == path@.len(),
            n == word@.len(),
            m == term@.len(),
            m > 0,
            0 <= base <= i <= n,
            j < m,
            forall|k: int| 0 <= k < base ==> !attempt_succeeds(path@, word@, term@, k),
            !match_in_progress ==> {
                &&& j == 0
                &&& index_matched_at == i
                &&& matching_current_word == (i == 0 || !word@[i - 1])
                &&& forall|k: int| base <= k < i ==> !attempt_succeeds(path@, word@, term@, k)
            },
            match_in_progress ==> {
                &&& base < index_matched_at <= i
                &&& j >= 1
                &&& forall|k: int|
                    base <= k < index_matched_at - 1 ==> !attempt_succeeds(
                        path@,
                        word@,
                        term@,
                        k,
                    )
                &&& attempt_start(word@, index_matched_at - 1)
                &&& path@[index_matched_at - 1] == term@[0]
                &&& scan(path@, word@, term@, index_matched_at as int, 1, true) == scan(
                    path@,
                    word@,
                    term@,
                    i as int,
                    j as int,
                    matching_current_word,
                )
            },
        decreases n - base, n - i + 1,
    {
        if i < n {
            let c = path[i];
            let in_word = word[i];
            i = i + 1;
            if !match_in_progress {
                index_matched_at = i;
            }
            if !in_word {
                // A character outside words ends the word being skipped.
                matching_current_word = true;
            }
            if matching_current_word {
                if term[j] == c {
                    match_in_progress = true;
                    j = j + 1;
                    if j == m {
                        proof {
                            assert(scan(path@, word@, term@, i as int, j as int, true));
                            assert(attempt_succeeds(path@, word@, term@, index_matched_at - 1));
                        }
                        return true;
                    }
                } else if in_word {
                    matching_current_word = false;
                }
            }
        } else if index_matched_at == n {
            // Nothing matched, or the attempt began at the last character:
            // no position is left to begin another one.
            assert forall|k: int| !attempt_succeeds(path@, word@, term@, k) by {
                if match_in_progress && k == n - 1 {
                    assert(!scan(path@, word@, term@, n as int, j as int, matching_current_word));
                }
            }
            return false;
        } else {
            if !match_in_progress {
                return false;
            }
            assert(!scan(path@, word@, term@, n as int, j as int, matching_current_word));
            match_in_progress = false;
            i = index_matched_at;
            j = 0;
            // The rewound scan stands right after the character that began
            // the last attempt; inside its word, no attempt may begin.
            matching_current_word = !word[i - 1];
            proof {
                base = i as int;
            }
        }
    }
}

} // verus!
