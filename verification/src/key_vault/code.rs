//! Join codes as text: two words with one space between them.

use vstd::prelude::*;
use vstd::string::{StrSliceExecFns, StringExecFns};
use crate::key_vault::words::join_words;

verus! {

/// Whether `code` is `prefix`, one space and `suffix`, with no space inside
/// either word.
pub open spec fn splits_into(code: Seq<char>, prefix: Seq<char>, suffix: Seq<char>) -> bool {
    &&& code == join_words(prefix, suffix)
    &&& forall|i: int| 0 <= i < prefix.len() ==> prefix[i] != ' '
    &&& forall|i: int| 0 <= i < suffix.len() ==> suffix[i] != ' '
}

/// Whether `code` is exactly two words with one space between them.
pub open spec fn well_formed_code(code: Seq<char>) -> bool {
    exists|prefix: Seq<char>, suffix: Seq<char>| splits_into(code, prefix, suffix)
}

/// In a code that splits into two words, the one space stands right behind the
/// prefix, and the words are the text on either side of it.
pub proof fn lemma_split_point(code: Seq<char>, prefix: Seq<char>, suffix: Seq<char>)
    requires
        splits_into(code, prefix, suffix),
    ensures
        code.len() == prefix.len() + 1 + suffix.len(),
        code[prefix.len() as int] == ' ',
        forall|i: int| 0 <= i < code.len() && i != prefix.len() ==> code[i] != ' ',
        prefix == code.subrange(0, prefix.len() as int),
        suffix == code.subrange(prefix.len() as int + 1, code.len() as int),
{
    let at = prefix.len() as int;
    assert(code[at] == ' ');
    assert forall|i: int| 0 <= i < code.len() && i != at implies code[i] != ' ' by {
        if i < at {
            assert(code[i] == prefix[i]);
        } else {
            assert(code[i] == suffix[i - at - 1]);
        }
    }
    assert(prefix =~= code.subrange(0, at));
    assert(suffix =~= code.subrange(at + 1, code.len() as int));
}

/// A code splits into two words in one way only.
pub proof fn lemma_split_unique(
    code: Seq<char>,
    prefix: Seq<char>,
    suffix: Seq<char>,
    other_prefix: Seq<char>,
    other_suffix: Seq<char>,
)
    requires
        splits_into(code, prefix, suffix),
        splits_into(code, other_prefix, other_suffix),
    ensures
        prefix == other_prefix,
        suffix == other_suffix,
{
    lemma_split_point(code, prefix, suffix);
    lemma_split_point(code, other_prefix, other_suffix);
}

/// Splits a join code into its two words. Gives nothing unless the text holds
/// exactly one space.
pub fn split_code(code: &str) -> (res: Option<(String, String)>)
    ensures
        res is Some <==> well_formed_code(code@),
        res matches Some(words) ==> splits_into(code@, words.0@, words.1@),
{
    let n = code.unicode_len();
    let mut at: usize = 0;
    let mut found = false;
    while at < n && !found
        invariant
            at <= n,
            n == code@.len(),
            found ==> at < n && code@[at as int] == ' ',
            forall|i: int| 0 <= i < at ==> code@[i] != ' ',
        decreases n - at, (if found { 0int } else { 1int }),
    {
        if code.get_char(at) == ' ' {
            found = true;
        } else {
            at += 1;
        }
    }
    if !found {
        proof {
            assert forall|prefix: Seq<char>, suffix: Seq<char>|
                !splits_into(code@, prefix, suffix) by {
                if splits_into(code@, prefix, suffix) {
                    lemma_split_point(code@, prefix, suffix);
                }
            }
        }
        return None;
    }
    let mut rest: usize = at + 1;
    while rest < n
        invariant
            at < rest <= n,
            n == code@.len(),
            code@[at as int] == ' ',
            forall|i: int| 0 <= i < at ==> code@[i] != ' ',
            forall|i: int| at < i < rest ==> code@[i] != ' ',
        decreases n - rest,
    {
        if code.get_char(rest) == ' ' {
            proof {
                assert forall|prefix: Seq<char>, suffix: Seq<char>|
                    !splits_into(code@, prefix, suffix) by {
                    if splits_into(code@, prefix, suffix) {
                        lemma_split_point(code@, prefix, suffix);
                    }
                }
            }
            return None;
        }
        rest += 1;
    }
    let prefix = String::from_str(code.substring_char(0, at));
    let suffix = String::from_str(code.substring_char(at + 1, n));
    proof {
        assert(code@ =~= join_words(prefix@, suffix@));
        assert(splits_into(code@, prefix@, suffix@));
    }
    Some((prefix, suffix))
}

} // verus!
