//! ASCII letters: how a typed character becomes a guess.

use vstd::prelude::*;

verus! {

/// Whether `c` is one of the 52 unaccented letters `A`–`Z` and `a`–`z`.
pub open spec fn is_letter(c: char) -> bool {
    ('A' <= c && c <= 'Z') || ('a' <= c && c <= 'z')
}

/// The lowercase form of a letter; any other character is left as it is.
pub open spec fn lower(c: char) -> char {
    if 'A' <= c && c <= 'Z' {
        ((c as u8) + 32) as char
    } else {
        c
    }
}

/// An input character that is no letter and so cannot be a guess.
#[derive(Debug, Clone, Copy)]
pub struct GuessError;

impl GuessError {
    /// What to tell the player.
    pub fn message(&self) -> (text: String)
        ensures
            text@ == "unacceptable guess"@,
    {
        "unacceptable guess".to_owned()
    }
}

/// Whether the byte encodes a letter in `[A-Za-z]`.
pub fn is_alpha_utf(byte: &u8) -> (alpha: bool)
    ensures
        alpha == is_letter(*byte as char),
{
    (65 <= *byte && *byte < 91) || (97 <= *byte && *byte < 123)
}

/// Folds a typed character to the lowercase letter it stands for. Only the
/// letters of `[A-Za-z]` are accepted; every other character is refused.
pub fn lowercase(ch: char) -> (folded: Result<char, GuessError>)
    ensures
        folded is Ok <==> is_letter(ch),
        folded matches Ok(l) ==> l == lower(ch) && 'a' <= l && l <= 'z',
{
    if 'a' <= ch && ch <= 'z' {
        Ok(ch)
    } else if 'A' <= ch && ch <= 'Z' {
        let byte: u8 = ch as u8;
        Ok((byte + 32) as char)
    } else {
        Err(GuessError)
    }
}

/// The first character of a phrase that is outside 7-bit ASCII.
#[derive(Debug, Clone, Copy)]
pub struct InvalidCharacter {
    /// Its position in the phrase, counted in characters from 0.
    pub index: usize,
    pub character: char,
}

/// Whether every character of `phrase` is 7-bit ASCII.
pub open spec fn is_seven_bit(phrase: Seq<char>) -> bool {
    forall|i: int| 0 <= i < phrase.len() ==> (#[trigger] phrase[i]) <= '\u{7f}'
}

/// Whether position `i` holds the first character of `phrase` above `0x7f`.
pub open spec fn first_non_ascii(phrase: Seq<char>, i: int) -> bool {
    &&& 0 <= i < phrase.len()
    &&& phrase[i] > '\u{7f}'
    &&& forall|j: int| 0 <= j < i ==> (#[trigger] phrase[j]) <= '\u{7f}'
}

/// Checks that a phrase is 7-bit ASCII throughout, and names the first
/// character that is not.
pub fn validate_phrase(phrase: &str) -> (checked: Result<(), InvalidCharacter>)
    ensures
        checked is Ok <==> is_seven_bit(phrase@),
        checked matches Err(e) ==> first_non_ascii(phrase@, e.index as int) && e.character
            == phrase@[e.index as int],
{
    let n = phrase.unicode_len();
    let mut index: usize = 0;
    for c in it: phrase.chars()
        invariant
            n == phrase@.len(),
            it.seq() == phrase@,
            index == it.index(),
            forall|j: int| 0 <= j < index ==> (#[trigger] phrase@[j]) <= '\u{7f}',
    {
        if c > '\u{7f}' {
            return Err(InvalidCharacter { index, character: c });
        }
        index += 1;
    }
    assert(index == n);
    Ok(())
}

} // verus!
