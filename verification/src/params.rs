//! Free-form key/value request parameters.
//!
//! The adapter hands every query or form body over as a plain list of
//! key/value pairs; lookup finds the first pair that carries a key.

use vstd::prelude::*;

verus! {

/// The first value stored under `key`, if any.
pub open spec fn lookup(pairs: Seq<(Seq<char>, Seq<char>)>, key: Seq<char>) -> Option<Seq<char>>
    decreases pairs.len(),
{
    if pairs.len() == 0 {
        Option::None
    } else if pairs[0].0 == key {
        Option::Some(pairs[0].1)
    } else {
        lookup(pairs.drop_first(), key)
    }
}

/// Caller-supplied string parameters, as decoded from a query string or a
/// form body.
#[derive(Debug)]
pub struct QueryParams {
    pairs: Vec<(String, String)>,
}

impl View for QueryParams {
    type V = Seq<(Seq<char>, Seq<char>)>;

    closed spec fn view(&self) -> Seq<(Seq<char>, Seq<char>)> {
        self.pairs@.map_values(|pair: (String, String)| (pair.0@, pair.1@))
    }
}

impl QueryParams {
    /// An empty parameter list.
    pub fn new() -> (params: QueryParams)
        ensures
            params@ == Seq::<(Seq<char>, Seq<char>)>::empty(),
    {
        let params = QueryParams { pairs: Vec::new() };
        proof {
            assert(params@ =~= Seq::<(Seq<char>, Seq<char>)>::empty());
        }
        params
    }

    /// Appends one key/value pair.
    pub fn add(&mut self, key: String, value: String)
        ensures
            final(self)@ == old(self)@.push((key@, value@)),
    {
        let ghost before = self@;
        self.pairs.push((key, value));
        proof {
            assert(self@ =~= before.push((self.pairs@.last().0@, self.pairs@.last().1@)));
        }
    }

    /// Whether no parameter was supplied.
    pub fn is_empty(&self) -> (empty: bool)
        ensures
            empty == (self@.len() == 0),
    {
        self.pairs.is_empty()
    }

    /// The first value stored under `key`, copied out.
    pub fn get(&self, key: &String) -> (value: Option<String>)
        ensures
            value matches Some(v) ==> lookup(self@, key@) == Option::Some(v@),
            value is None ==> lookup(self@, key@) is None,
    {
        let mut i: usize = 0;
        proof {
            assert(self@.skip(0) =~= self@);
        }
        while i < self.pairs.len()
            invariant
                i <= self.pairs.len(),
                lookup(self@, key@) == lookup(self@.skip(i as int), key@),
            decreases self.pairs.len() - i,
        {
            proof {
                assert(self@.skip(i as int)[0] == self@[i as int]);
                assert(self@.skip(i as int).drop_first() =~= self@.skip(i as int + 1));
            }
            if self.pairs[i].0 == *key {
                return Some(self.pairs[i].1.clone());
            }
            i += 1;
        }
        proof {
            assert(self@.skip(self.pairs@.len() as int).len() == 0);
        }
        None
    }
}

} // verus!
