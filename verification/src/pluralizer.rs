//! The singular forms that selection set names of list fields are built from.
use vstd::prelude::*;

use crate::text::{copy_str, str_eq};

verus! {

/// A plural word and its singular form.
#[derive(Clone, Debug)]
pub struct Inflection {
    pub plural: String,
    pub singular: String,
}

/// Gives the singular form of a word by the inflections it was made with: the first
/// inflection for the word decides, and a word without one is its own singular.
#[derive(Clone)]
pub struct Pluralizer {
    pub inflections: Vec<Inflection>,
}

/// The singular form of `word` by the inflections: that of the first inflection whose
/// plural is the word, or else the word itself.
pub open spec fn spec_singularize(inflections: Seq<Inflection>, word: Seq<char>) -> Seq<char>
    decreases inflections.len(),
{
    if inflections.len() == 0 {
        word
    } else if inflections[0].plural@ == word {
        inflections[0].singular@
    } else {
        spec_singularize(inflections.drop_first(), word)
    }
}

/// Copies inflections, each plural and singular form unchanged.
pub fn copy_inflections(v: &Vec<Inflection>) -> (r: Vec<Inflection>)
    ensures
        r@ == v@,
{
    let mut r: Vec<Inflection> = Vec::new();
    let mut i: usize = 0;
    while i < v.len()
        invariant
            i <= v@.len(),
            r@ == v@.take(i as int),
        decreases v.len() - i,
    {
        r.push(Inflection { plural: v[i].plural.clone(), singular: v[i].singular.clone() });
        proof {
            assert(r@ =~= v@.take(i + 1));
        }
        i = i + 1;
    }
    proof {
        assert(v@.take(v@.len() as int) =~= v@);
    }
    r
}

impl Pluralizer {
    /// A pluralizer with the given inflections, the first of them deciding for a word.
    pub fn new(inflections: Vec<Inflection>) -> (r: Self)
        ensures
            r.inflections@ == inflections@,
    {
        Pluralizer { inflections }
    }

    /// The singular form of the word, as `spec_singularize` describes.
    pub fn singularize(&self, word: &str) -> (r: String)
        ensures
            r@ == spec_singularize(self.inflections@, word@),
    {
        let ghost all = self.inflections@;
        proof {
            assert(all.skip(0) =~= all);
        }
        let mut i: usize = 0;
        while i < self.inflections.len()
            invariant
                i <= all.len(),
                all == self.inflections@,
                spec_singularize(all, word@) == spec_singularize(all.skip(i as int), word@),
            decreases all.len() - i,
        {
            proof {
                assert(all.skip(i as int).drop_first() =~= all.skip(i + 1));
                assert(all.skip(i as int)[0] == all[i as int]);
            }
            if str_eq(self.inflections[i].plural.as_str(), word) {
                return copy_str(self.inflections[i].singular.as_str());
            }
            i = i + 1;
        }
        copy_str(word)
    }
}

} // verus!
