//! How words are to be pronounced.

use crate::json::{members, no_members, object_insert, object_new};
use crate::json::{Json, JsonValue};
use serde_json::Map as ObjectMap;
use serde_json::Value;
use vstd::prelude::*;

verus! {

/// Words, and what each of them is replaced by before it is spoken. No word occurs
/// twice.
#[derive(Debug)]
pub struct Pronunciations {
    pairs: Vec<(String, String)>,
}

/// Whether no two pairs have the same word.
spec fn distinct_words(pairs: Seq<(String, String)>) -> bool {
    forall|i: int, j: int|
        0 <= i < j < pairs.len() ==> (#[trigger] pairs[i]).0@ != (#[trigger] pairs[j]).0@
}

/// What the words of pairs are replaced by.
spec fn replacements(pairs: Seq<(String, String)>) -> Map<Seq<char>, Seq<char>>
    decreases pairs.len(),
{
    if pairs.len() == 0 {
        Map::empty()
    } else {
        replacements(pairs.drop_last()).insert(pairs.last().0@, pairs.last().1@)
    }
}

/// The members of the object that words are sent as: under each word the string
/// that replaces it.
pub open spec fn text_members(words: Map<Seq<char>, Seq<char>>) -> Map<Seq<char>, Json> {
    words.map_values(|replacement: Seq<char>| Json::String(replacement))
}

/// A new replacement in the place of an old one counts for its word alone.
proof fn lemma_replacement_changes(pairs: Seq<(String, String)>, i: int, pair: (String, String))
    requires
        0 <= i < pairs.len(),
        distinct_words(pairs),
        pairs[i].0@ == pair.0@,
    ensures
        distinct_words(pairs.update(i, pair)),
        replacements(pairs.update(i, pair)) == replacements(pairs).insert(pair.0@, pair.1@),
    decreases pairs.len(),
{
    let front = pairs.drop_last();
    let changed = pairs.update(i, pair);
    if i == pairs.len() - 1 {
        assert(changed.drop_last() =~= front);
        assert(replacements(changed) =~= replacements(pairs).insert(pair.0@, pair.1@));
    } else {
        assert(changed.drop_last() =~= front.update(i, pair));
        lemma_replacement_changes(front, i, pair);
        assert(pairs.last() == pairs[pairs.len() - 1]);
        assert(replacements(changed) =~= replacements(pairs).insert(pair.0@, pair.1@));
    }
}

impl View for Pronunciations {
    type V = Map<Seq<char>, Seq<char>>;

    closed spec fn view(&self) -> Map<Seq<char>, Seq<char>> {
        replacements(self.pairs@)
    }
}

impl Clone for Pronunciations {
    fn clone(&self) -> (copy: Self)
        ensures
            copy@ == self@,
    {
        proof {
            use_type_invariant(self);
        }
        let mut pairs: Vec<(String, String)> = Vec::new();
        let mut i: usize = 0;
        while i < self.pairs.len()
            invariant
                i <= self.pairs@.len(),
                pairs@.len() == i,
                forall|j: int|
                    0 <= j < i ==> (#[trigger] pairs@[j]).0@ == self.pairs@[j].0@ && pairs@[j].1@
                        == self.pairs@[j].1@,
                replacements(pairs@) == replacements(self.pairs@.take(i as int)),
            decreases self.pairs@.len() - i,
        {
            let ghost before = pairs@;
            pairs.push((self.pairs[i].0.clone(), self.pairs[i].1.clone()));
            assert(pairs@.drop_last() =~= before);
            assert(self.pairs@.take(i + 1).drop_last() =~= self.pairs@.take(i as int));
            i = i + 1;
        }
        assert(self.pairs@.take(i as int) =~= self.pairs@);
        Pronunciations { pairs }
    }
}

impl Pronunciations {
    #[verifier::type_invariant]
    spec fn words_differ(self) -> bool {
        distinct_words(self.pairs@)
    }

    /// No words.
    pub fn new() -> (words: Self)
        ensures
            words@ == Map::<Seq<char>, Seq<char>>::empty(),
    {
        Pronunciations { pairs: Vec::new() }
    }

    /// Whether there are no words.
    pub fn is_empty(&self) -> (empty: bool)
        ensures
            empty == (self@ == Map::<Seq<char>, Seq<char>>::empty()),
    {
        proof {
            if self.pairs@.len() > 0 {
                assert(self@.contains_key(self.pairs@.last().0@));
            }
        }
        self.pairs.len() == 0
    }

    /// Has `word` replaced by `replacement`, whatever it was replaced by before.
    pub fn insert(&mut self, word: String, replacement: String)
        ensures
            final(self)@ == old(self)@.insert(word@, replacement@),
    {
        proof {
            use_type_invariant(&*self);
        }
        let mut pairs: Vec<(String, String)> = Vec::new();
        std::mem::swap(&mut pairs, &mut self.pairs);
        let ghost before = pairs@;
        let mut i: usize = 0;
        while i < pairs.len() && pairs[i].0 != word
            invariant
                i <= pairs@.len(),
                forall|j: int| 0 <= j < i ==> (#[trigger] pairs@[j]).0@ != word@,
            decreases pairs@.len() - i,
        {
            i = i + 1;
        }
        if i < pairs.len() {
            proof {
                lemma_replacement_changes(before, i as int, (word, replacement));
            }
            pairs.set(i, (word, replacement));
        } else {
            pairs.push((word, replacement));
            assert(pairs@.drop_last() =~= before);
        }
        self.pairs = pairs;
    }

    /// The object that the words are sent as.
    pub(crate) fn to_object(&self) -> (object: ObjectMap<String, Value>)
        ensures
            members(object) == text_members(self@),
    {
        let mut object = object_new();
        let mut i: usize = 0;
        assert(text_members(replacements(self.pairs@.take(0))) =~= no_members());
        while i < self.pairs.len()
            invariant
                i <= self.pairs@.len(),
                members(object) == text_members(replacements(self.pairs@.take(i as int))),
            decreases self.pairs@.len() - i,
        {
            let ghost words = replacements(self.pairs@.take(i as int));
            let ghost pair = self.pairs@[i as int];
            object_insert(
                &mut object,
                self.pairs[i].0.clone(),
                JsonValue::String(self.pairs[i].1.clone()),
            );
            assert(self.pairs@.take(i + 1).drop_last() =~= self.pairs@.take(i as int));
            assert(text_members(words.insert(pair.0@, pair.1@)) =~= text_members(words).insert(
                pair.0@,
                Json::String(pair.1@),
            ));
            i = i + 1;
        }
        assert(self.pairs@.take(i as int) =~= self.pairs@);
        object
    }
}

} // verus!
