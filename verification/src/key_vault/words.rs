//! The word pool: two fixed vocabularies and the grid of keys they span.

use vstd::prelude::*;
use vstd::string::StringExecFns;
use crate::key_vault::error::KeyVaultError;

verus! {

/// The keys that come before `(row, col)` in row-major order, in a grid whose
/// rows are `width` long.
pub open spec fn keys_before(row: nat, col: nat, width: nat) -> Set<(usize, usize)> {
    Set::new(
        |k: (usize, usize)| k.1 < width && (k.0 < row || (k.0 == row && k.1 < col)),
    )
}

/// Every key of a grid with `rows` rows of `width` keys.
pub open spec fn grid(rows: nat, width: nat) -> Set<(usize, usize)> {
    Set::new(|k: (usize, usize)| k.0 < rows && k.1 < width)
}

/// The keys before `(row, col)` are `row` full rows and `col` keys more.
pub proof fn lemma_keys_before_len(row: nat, col: nat, width: nat)
    requires
        row <= usize::MAX,
        col <= width <= usize::MAX,
    ensures
        keys_before(row, col, width).finite(),
        keys_before(row, col, width).len() == row * width + col,
    decreases row, col,
{
    if col > 0 {
        lemma_keys_before_len(row, (col - 1) as nat, width);
        let last = (row as usize, (col - 1) as usize);
        assert(keys_before(row, col, width) =~= keys_before(row, (col - 1) as nat, width).insert(
            last,
        ));
    } else if row > 0 {
        lemma_keys_before_len((row - 1) as nat, width, width);
        assert(keys_before(row, 0, width) =~= keys_before((row - 1) as nat, width, width));
        assert(row * width == (row - 1) * width + width) by (nonlinear_arith);
    } else {
        assert(keys_before(0, 0, width) =~= Set::<(usize, usize)>::empty());
        assert(0 * width == 0) by (nonlinear_arith);
    }
}

/// A grid of `rows` rows of `width` keys has `rows * width` keys.
pub proof fn lemma_grid_len(rows: nat, width: nat)
    requires
        rows <= usize::MAX,
        width <= usize::MAX,
    ensures
        grid(rows, width).finite(),
        grid(rows, width).len() == rows * width,
{
    lemma_keys_before_len(rows, 0, width);
    assert(grid(rows, width) =~= keys_before(rows, 0, width));
}

/// The rendering of a key: its prefix word, one space, its suffix word.
pub open spec fn join_words(prefix: Seq<char>, suffix: Seq<char>) -> Seq<char> {
    prefix + seq![' '] + suffix
}

/// Whether `i` is the first place at which `word` stands in `words`.
pub open spec fn first_at(words: Seq<Seq<char>>, word: Seq<char>, i: int) -> bool {
    &&& 0 <= i < words.len()
    &&& words[i] == word
    &&& forall|j: int| 0 <= j < i ==> words[j] != word
}

/// The first place at which the word stands in the list, if it stands there.
fn find_word(words: &Vec<String>, word: &String) -> (res: Option<usize>)
    ensures
        match res {
            Some(i) => {
                &&& i < words@.len()
                &&& words@[i as int]@ == word@
                &&& forall|j: int| 0 <= j < i ==> words@[j]@ != word@
            },
            None => forall|j: int| 0 <= j < words@.len() ==> words@[j]@ != word@,
        },
{
    let mut i: usize = 0;
    while i < words.len()
        invariant
            i <= words@.len(),
            forall|j: int| 0 <= j < i ==> words@[j]@ != word@,
        decreases words@.len() - i,
    {
        if words[i] == *word {
            return Some(i);
        }
        i += 1;
    }
    None
}

/// Two vocabularies, fixed once loaded.
pub struct WordPool {
    prefix: Vec<String>,
    suffix: Vec<String>,
}

impl WordPool {
    /// The prefix vocabulary, word by word.
    pub closed spec fn prefix_words(&self) -> Seq<Seq<char>> {
        Seq::new(self.prefix@.len(), |i: int| self.prefix@[i]@)
    }

    /// The suffix vocabulary, word by word.
    pub closed spec fn suffix_words(&self) -> Seq<Seq<char>> {
        Seq::new(self.suffix@.len(), |i: int| self.suffix@[i]@)
    }

    /// Neither vocabulary is empty, and each can be indexed.
    pub open spec fn wf(&self) -> bool {
        &&& 0 < self.prefix_words().len() <= usize::MAX
        &&& 0 < self.suffix_words().len() <= usize::MAX
    }

    /// The number of keys: every prefix with every suffix.
    pub open spec fn capacity_spec(&self) -> nat {
        self.prefix_words().len() * self.suffix_words().len()
    }

    /// Whether both indices of the key lie in their vocabularies.
    pub open spec fn valid_key(&self, key: (usize, usize)) -> bool {
        key.0 < self.prefix_words().len() && key.1 < self.suffix_words().len()
    }

    /// Every key of the pool.
    pub open spec fn all_keys(&self) -> Set<(usize, usize)> {
        grid(self.prefix_words().len(), self.suffix_words().len())
    }

    /// The join code of a key.
    pub open spec fn code_of(&self, key: (usize, usize)) -> Seq<char> {
        join_words(self.prefix_words()[key.0 as int], self.suffix_words()[key.1 as int])
    }

    /// Whether `key` holds the first place of `prefix` among the prefix words
    /// and the first place of `suffix` among the suffix words.
    pub open spec fn names_key(
        &self,
        key: (usize, usize),
        prefix: Seq<char>,
        suffix: Seq<char>,
    ) -> bool {
        &&& first_at(self.prefix_words(), prefix, key.0 as int)
        &&& first_at(self.suffix_words(), suffix, key.1 as int)
    }

    /// Builds the pool from the two word lists as they were read. Fails when a
    /// list is empty; the lists need not be of one length.
    pub fn new(prefix: Vec<String>, suffix: Vec<String>) -> (res: Result<WordPool, KeyVaultError>)
        ensures
            res is Ok <==> prefix@.len() > 0 && suffix@.len() > 0,
            match res {
                Ok(pool) => {
                    &&& pool.wf()
                    &&& pool.prefix_words() == Seq::new(prefix@.len(), |i: int| prefix@[i]@)
                    &&& pool.suffix_words() == Seq::new(suffix@.len(), |i: int| suffix@[i]@)
                },
                Err(e) => e == KeyVaultError::EmptyVocabulary,
            },
    {
        if prefix.len() == 0 || suffix.len() == 0 {
            return Err(KeyVaultError::EmptyVocabulary);
        }
        Ok(WordPool { prefix, suffix })
    }

    /// The number of prefix words.
    pub fn prefix_count(&self) -> (n: usize)
        ensures
            n == self.prefix_words().len(),
    {
        self.prefix.len()
    }

    /// The number of suffix words.
    pub fn suffix_count(&self) -> (n: usize)
        ensures
            n == self.suffix_words().len(),
    {
        self.suffix.len()
    }

    /// The number of keys that the pool spans. The product of two lengths
    /// need not fit a `usize`, so it is counted in 128 bits.
    pub fn capacity(&self) -> (n: u128)
        ensures
            n == self.capacity_spec(),
    {
        let rows = self.prefix.len();
        let width = self.suffix.len();
        assert(rows * width <= 0xffff_ffff_ffff_ffff * 0xffff_ffff_ffff_ffff) by (nonlinear_arith)
            requires
                rows <= 0xffff_ffff_ffff_ffff,
                width <= 0xffff_ffff_ffff_ffff,
        ;
        (rows as u128) * (width as u128)
    }

    /// The prefix word at an index.
    pub fn prefix_word(&self, i: usize) -> (word: &String)
        requires
            i < self.prefix_words().len(),
        ensures
            word@ == self.prefix_words()[i as int],
    {
        &self.prefix[i]
    }

    /// The suffix word at an index.
    pub fn suffix_word(&self, j: usize) -> (word: &String)
        requires
            j < self.suffix_words().len(),
        ensures
            word@ == self.suffix_words()[j as int],
    {
        &self.suffix[j]
    }

    /// Renders the join code of a key.
    pub fn render(&self, key: (usize, usize)) -> (code: String)
        requires
            self.valid_key(key),
        ensures
            code@ == self.code_of(key),
    {
        proof {
            reveal_strlit(" ");
            assert(" "@ =~= seq![' ']);
        }
        let mut code = self.prefix[key.0].clone();
        code.append(" ");
        code.append(self.suffix[key.1].as_str());
        code
    }

    /// The key that the two words name: the first place of each in its
    /// vocabulary. Gives nothing when either word is in neither place.
    pub fn locate(&self, prefix: &String, suffix: &String) -> (res: Option<(usize, usize)>)
        ensures
            match res {
                Some(key) => self.names_key(key, prefix@, suffix@),
                None => forall|k: (usize, usize)| !self.names_key(k, prefix@, suffix@),
            },
    {
        match find_word(&self.prefix, prefix) {
            None => {
                assert forall|k: (usize, usize)| !self.names_key(k, prefix@, suffix@) by {
                    if self.names_key(k, prefix@, suffix@) {
                        assert(self.prefix@[k.0 as int]@ == prefix@);
                    }
                }
                None
            },
            Some(i) => match find_word(&self.suffix, suffix) {
                None => {
                    assert forall|k: (usize, usize)| !self.names_key(k, prefix@, suffix@) by {
                        if self.names_key(k, prefix@, suffix@) {
                            assert(self.suffix@[k.1 as int]@ == suffix@);
                        }
                    }
                    None
                },
                Some(j) => Some((i, j)),
            },
        }
    }

    /// Two words name one key at most.
    pub proof fn lemma_named_key_unique(
        &self,
        a: (usize, usize),
        b: (usize, usize),
        prefix: Seq<char>,
        suffix: Seq<char>,
    )
        requires
            self.names_key(a, prefix, suffix),
            self.names_key(b, prefix, suffix),
        ensures
            a == b,
    {
    }

    /// The pool's keys are finitely many, as many as its capacity.
    pub proof fn lemma_all_keys(&self)
        requires
            self.wf(),
        ensures
            self.all_keys().finite(),
            self.all_keys().len() == self.capacity_spec(),
            forall|k: (usize, usize)| self.all_keys().contains(k) <==> self.valid_key(k),
    {
        lemma_grid_len(self.prefix_words().len(), self.suffix_words().len());
    }
}

} // verus!
