//! Rows and pairs as the word store and the clients see them.

use vstd::prelude::*;
use vstd::string::StringExecFns;
use crate::key_vault::words::join_words;

verus! {

/// One word of a vocabulary as the word store holds it.
#[derive(Debug, Clone)]
pub struct JoinKey {
    pub id: String,
    pub word: String,
}

/// A join code with the id it was stored under.
#[derive(Debug)]
pub struct KeyPair {
    pub id: String,
    pub key: String,
}

/// The join code that two rows of the word store spell: the word of the
/// first, one space, the word of the second. Any other number of rows spells
/// nothing.
pub fn get_word_set(rows: &Vec<JoinKey>) -> (res: Option<String>)
    ensures
        res is Some <==> rows@.len() == 2,
        res matches Some(code) ==> code@ == join_words(rows@[0].word@, rows@[1].word@),
{
    if rows.len() != 2 {
        return None;
    }
    proof {
        reveal_strlit(" ");
        assert(" "@ =~= seq![' ']);
    }
    let mut code = rows[0].word.clone();
    code.append(" ");
    code.append(rows[1].word.as_str());
    Some(code)
}

} // verus!
