//! Symbol tables from declared names to values, where the newest
//! definition of a name wins.
use vstd::prelude::*;

verus! {

/// What `name` is bound to in a list of definitions, newest first.
pub open spec fn lookup<V>(entries: Seq<(String, V)>, name: Seq<char>) -> Option<V>
    decreases entries.len(),
{
    if entries.len() == 0 {
        None
    } else if entries.last().0@ == name {
        Some(entries.last().1)
    } else {
        lookup(entries.drop_last(), name)
    }
}

/// A table of named definitions. Definitions are only ever added; an earlier
/// one is shadowed by a later one with the same name.
#[derive(Debug)]
pub struct NameTable<V> {
    pub entries: Vec<(String, V)>,
}

impl<V: Copy> NameTable<V> {
    /// What `name` resolves to.
    pub open spec fn get(&self, name: Seq<char>) -> Option<V> {
        lookup(self.entries@, name)
    }

    pub fn new() -> (r: Self)
        ensures
            forall|k: Seq<char>| #[trigger] r.get(k) == None::<V>,
    {
        NameTable { entries: Vec::new() }
    }

    /// Binds `name` to `value`, shadowing any earlier binding.
    pub fn define(&mut self, name: String, value: V)
        ensures
            final(self).get(name@) == Some(value),
            forall|k: Seq<char>| k != name@ ==> #[trigger] final(self).get(k) == old(self).get(k),
    {
        self.entries.push((name, value));
        proof {
            assert(self.entries@.drop_last() =~= old(self).entries@);
        }
    }

    /// The value most recently bound to `name`, if any.
    pub fn resolve(&self, name: &String) -> (r: Option<V>)
        ensures
            r == self.get(name@),
    {
        let mut i: usize = self.entries.len();
        assert(self.entries@.subrange(0, i as int) =~= self.entries@);
        while i > 0
            invariant
                i <= self.entries.len(),
                lookup(self.entries@, name@) == lookup(self.entries@.subrange(0, i as int), name@),
            decreases i,
        {
            let ghost prefix = self.entries@.subrange(0, i as int);
            if self.entries[i - 1].0 == *name {
                return Some(self.entries[i - 1].1);
            }
            assert(prefix.drop_last() =~= self.entries@.subrange(0, i - 1));
            i = i - 1;
        }
        None
    }
}

} // verus!
