//! A snapshot of environment variables: the key/value pairs the
//! validator reconciles the schema against. Lookups return the first
//! pair with the asked-for key.

use crate::text::str_eq;
use vstd::prelude::*;

verus! {

/// The value of `key` in `env`: the value of the first pair carrying
/// that key, if any.
pub open spec fn env_lookup(env: Seq<(Seq<char>, Seq<char>)>, key: Seq<char>) -> Option<
    Seq<char>,
>
    decreases env.len(),
{
    if env.len() == 0 {
        Option::None
    } else if env[0].0 == key {
        Option::Some(env[0].1)
    } else {
        env_lookup(env.skip(1), key)
    }
}

/// `env` holds a pair with the given key.
pub open spec fn env_contains(env: Seq<(Seq<char>, Seq<char>)>, key: Seq<char>) -> bool {
    env_lookup(env, key) is Some
}

/// A snapshot of environment key/value pairs, read once and then
/// reconciled against the schema.
pub struct EnvSnapshot {
    pairs: Vec<(String, String)>,
}

impl View for EnvSnapshot {
    type V = Seq<(Seq<char>, Seq<char>)>;

    closed spec fn view(&self) -> Seq<(Seq<char>, Seq<char>)> {
        self.pairs.deep_view()
    }
}

impl EnvSnapshot {
    /// An empty snapshot.
    pub fn new() -> (s: EnvSnapshot)
        ensures
            s@ =~= Seq::<(Seq<char>, Seq<char>)>::empty(),
    {
        let s = EnvSnapshot { pairs: Vec::new() };
        proof {
            assert(s@ =~= Seq::<(Seq<char>, Seq<char>)>::empty());
        }
        s
    }

    /// Wraps already-collected pairs into a snapshot.
    pub fn from_pairs(pairs: Vec<(String, String)>) -> (s: EnvSnapshot)
        ensures
            s@ == pairs.deep_view(),
    {
        EnvSnapshot { pairs }
    }

    /// Appends one pair at the end of the snapshot.
    pub fn push(&mut self, key: String, value: String)
        ensures
            final(self)@ =~= old(self)@.push((key@, value@)),
    {
        self.pairs.push((key, value));
    }

    /// The number of pairs held.
    pub fn len(&self) -> (n: usize)
        ensures
            n == self@.len(),
    {
        self.pairs.len()
    }

    /// A copy of the pair at the given position.
    pub fn pair_at(&self, i: usize) -> (p: (String, String))
        requires
            i < self@.len(),
        ensures
            p.0@ == self@[i as int].0,
            p.1@ == self@[i as int].1,
    {
        let entry = &self.pairs[i];
        (entry.0.clone(), entry.1.clone())
    }

    /// The value of the first pair with the given key, if any.
    pub fn get(&self, key: &str) -> (r: Option<String>)
        ensures
            match r {
                Option::Some(v) => env_lookup(self@, key@) == Option::Some(v@),
                Option::None => env_lookup(self@, key@) is None,
            },
    {
        let n = self.pairs.len();
        let mut i: usize = 0;
        proof {
            assert(self@.skip(0) =~= self@);
        }
        while i < n
            invariant
                i <= n,
                n == self@.len(),
                n == self.pairs@.len(),
                forall|j: int| 0 <= j < n ==> self@[j] == (
                    self.pairs@[j].0@,
                    self.pairs@[j].1@,
                ),
                env_lookup(self@, key@) == env_lookup(self@.skip(i as int), key@),
            decreases n - i,
        {
            proof {
                assert(self@.skip(i as int)[0] == self@[i as int]);
            }
            let entry = &self.pairs[i];
            if str_eq(entry.0.as_str(), key) {
                return Option::Some(entry.1.clone());
            }
            proof {
                assert(self@.skip(i as int).skip(1) =~= self@.skip(i + 1 as int));
            }
            i = i + 1;
        }
        proof {
            assert(self@.skip(n as int) =~= Seq::<(Seq<char>, Seq<char>)>::empty());
        }
        Option::None
    }

    /// Whether the snapshot holds a pair with the given key.
    pub fn contains_key(&self, key: &str) -> (r: bool)
        ensures
            r == env_contains(self@, key@),
    {
        match self.get(key) {
            Option::Some(_) => true,
            Option::None => false,
        }
    }
}

} // verus!
