//! A snapshot of named environment variables, passed to the generator and to
//! the run-time evaluation as a plain value.

use vstd::prelude::*;

verus! {

/// Name/value pairs, looked up by name with the earliest entry winning.
#[derive(Debug, Clone)]
pub struct EnvMap {
    pub entries: Vec<(String, String)>,
}

/// The value bound to `name` among `entries`, first match first.
pub open spec fn lookup_spec(entries: Seq<(String, String)>, name: Seq<char>) -> Option<Seq<char>>
    decreases entries.len(),
{
    if entries.len() == 0 {
        None
    } else if entries[0].0@ == name {
        Some(entries[0].1@)
    } else {
        lookup_spec(entries.skip(1), name)
    }
}

impl EnvMap {
    /// The value bound to `name`, if any.
    pub open spec fn lookup(self, name: Seq<char>) -> Option<Seq<char>> {
        lookup_spec(self.entries@, name)
    }

    /// Whether `name` is bound.
    pub open spec fn contains(self, name: Seq<char>) -> bool {
        self.lookup(name) is Some
    }

    /// A snapshot with no variables set.
    pub fn empty() -> (r: EnvMap)
        ensures
            forall|n: Seq<char>| r.lookup(n) is None,
    {
        EnvMap { entries: Vec::new() }
    }

    /// Bind `name` to `value`, shadowing any earlier binding of that name.
    pub fn set(&mut self, name: String, value: String)
        ensures
            forall|n: Seq<char>| final(self).lookup(n) == (if n == name@ {
                Some(value@)
            } else {
                old(self).lookup(n)
            }),
    {
        self.entries.insert(0, (name, value));
        proof {
            assert(self.entries@.skip(1) =~= old(self).entries@);
        }
    }

    /// The value bound to `name`, cloned out of the snapshot.
    pub fn get(&self, name: &String) -> (r: Option<String>)
        ensures
            (r is Some) == self.contains(name@),
            r matches Some(v) ==> Some(v@) == self.lookup(name@),
    {
        let n: usize = self.entries.len();
        let mut i: usize = 0;
        proof {
            assert(self.entries@.skip(0) =~= self.entries@);
        }
        while i < n
            invariant
                0 <= i <= n,
                n == self.entries@.len(),
                lookup_spec(self.entries@, name@) == lookup_spec(
                    self.entries@.skip(i as int),
                    name@,
                ),
            decreases n - i,
        {
            let e: &(String, String) = &self.entries[i];
            proof {
                assert(self.entries@.skip(i as int)[0] == self.entries@[i as int]);
            }
            if e.0 == *name {
                return Some(e.1.clone());
            }
            proof {
                assert(self.entries@.skip(i as int).skip(1) =~= self.entries@.skip(i as int + 1));
            }
            i = i + 1;
        }
        None
    }

    /// Whether `name` is set in the snapshot.
    pub fn contains_key(&self, name: &String) -> (r: bool)
        ensures
            r == self.contains(name@),
    {
        match self.get(name) {
            Some(_) => true,
            None => false,
        }
    }
}

} // verus!
