//! The registry of open connections and their probing flags.
use std::collections::HashMap;
use vstd::prelude::*;
use vstd::std_specs::hash::spec_hash_map_iter;
use vstd::std_specs::iter::IteratorSpec;

verus! {

broadcast use vstd::std_specs::hash::group_hash_axioms;

/// What the server keeps of one open connection.
#[derive(Clone, Copy, Debug, PartialEq, Eq, Structural)]
pub struct User {
    pub is_bruteforcing: bool,
}

/// The entry of a connection that has just been opened.
pub open spec fn fresh_user() -> User {
    User { is_bruteforcing: false }
}

/// The ids of the open connections that are flagged as probing.
pub open spec fn bruteforcing_ids(m: Map<u32, User>) -> Set<u32> {
    m.dom().filter(|id: u32| m[id].is_bruteforcing)
}

/// How many entries of a sequence are flagged.
spec fn flagged_count(v: Seq<(u32, User)>) -> nat
    decreases v.len(),
{
    if v.len() == 0 {
        0
    } else {
        flagged_count(v.drop_last()) + if v.last().1.is_bruteforcing {
            1nat
        } else {
            0nat
        }
    }
}

/// The ids that a sequence of entries holds with the flag set.
spec fn flagged_keys(v: Seq<(u32, User)>) -> Set<u32> {
    Set::new(|k: u32| exists|i: int| 0 <= i < v.len() && v[i].0 == k && v[i].1.is_bruteforcing)
}

/// A sequence of distinct entries taken from one map flags as many ids as it
/// has flagged entries.
proof fn lemma_flagged_keys_len(v: Seq<(u32, User)>, m: Map<u32, User>)
    requires
        v.no_duplicates(),
        forall|i: int| 0 <= i < v.len() ==> m.contains_key(#[trigger] v[i].0) && m[v[i].0] == v[i].1,
    ensures
        flagged_keys(v).finite(),
        flagged_keys(v).len() == flagged_count(v),
    decreases v.len(),
{
    if v.len() == 0 {
        assert(flagged_keys(v) =~= Set::empty());
    } else {
        let w = v.drop_last();
        let last = v.len() - 1;
        assert forall|i: int| 0 <= i < w.len() implies m.contains_key(#[trigger] w[i].0) && m[w[i].0]
            == w[i].1 by {
            assert(w[i] == v[i]);
        }
        lemma_flagged_keys_len(w, m);
        let k = v[last].0;
        if v[last].1.is_bruteforcing {
            assert(!flagged_keys(w).contains(k)) by {
                if flagged_keys(w).contains(k) {
                    let i = choose|i: int| 0 <= i < w.len() && w[i].0 == k && w[i].1.is_bruteforcing;
                    assert(v[i] == w[i]);
                    assert(v[i] == v[last]);
                }
            }
            assert forall|x: u32| flagged_keys(v).contains(x) <==> flagged_keys(w).insert(k).contains(
                x,
            ) by {
                if flagged_keys(v).contains(x) && x != k {
                    let i = choose|i: int| 0 <= i < v.len() && v[i].0 == x && v[i].1.is_bruteforcing;
                    assert(w[i] == v[i]);
                }
                if flagged_keys(w).contains(x) {
                    let i = choose|i: int| 0 <= i < w.len() && w[i].0 == x && w[i].1.is_bruteforcing;
                    assert(w[i] == v[i]);
                }
            }
            assert(flagged_keys(v) =~= flagged_keys(w).insert(k));
        } else {
            assert forall|x: u32| flagged_keys(v).contains(x) <==> flagged_keys(w).contains(x) by {
                if flagged_keys(v).contains(x) {
                    let i = choose|i: int| 0 <= i < v.len() && v[i].0 == x && v[i].1.is_bruteforcing;
                    assert(w[i] == v[i]);
                }
                if flagged_keys(w).contains(x) {
                    let i = choose|i: int| 0 <= i < w.len() && w[i].0 == x && w[i].1.is_bruteforcing;
                    assert(w[i] == v[i]);
                }
            }
            assert(flagged_keys(v) =~= flagged_keys(w));
        }
    }
}

/// Every open connection, keyed by the id that the transport gave it.
pub struct Registry {
    users: HashMap<u32, User>,
}

impl View for Registry {
    type V = Map<u32, User>;

    closed spec fn view(&self) -> Map<u32, User> {
        self.users@
    }
}

impl Registry {
    /// An empty registry.
    pub fn new() -> (r: Registry)
        ensures
            r@ == Map::<u32, User>::empty(),
    {
        Registry { users: HashMap::new() }
    }

    /// The registry holds finitely many entries.
    pub proof fn lemma_finite(&self)
        ensures
            self@.dom().finite(),
    {
    }

    /// Adds `id` as a connection that is not probing; an entry already under
    /// `id` is replaced.
    pub fn insert(&mut self, id: u32)
        ensures
            final(self)@ == old(self)@.insert(id, fresh_user()),
    {
        self.users.insert(id, User { is_bruteforcing: false });
    }

    /// Drops the entry of `id`, if there is one.
    pub fn remove(&mut self, id: u32)
        ensures
            final(self)@ == old(self)@.remove(id),
    {
        self.users.remove(&id);
    }

    /// Sets the flag of `id` when `id` is open; tells whether it was.
    pub fn set_bruteforcing(&mut self, id: u32, value: bool) -> (found: bool)
        ensures
            found == old(self)@.contains_key(id),
            final(self)@ == if found {
                old(self)@.insert(id, User { is_bruteforcing: value })
            } else {
                old(self)@
            },
    {
        if self.users.contains_key(&id) {
            self.users.insert(id, User { is_bruteforcing: value });
            true
        } else {
            false
        }
    }

    /// Whether `id` is open.
    pub fn contains(&self, id: u32) -> (r: bool)
        ensures
            r == self@.contains_key(id),
    {
        self.users.contains_key(&id)
    }

    /// The number of open connections.
    pub fn watching_count(&self) -> (r: u64)
        ensures
            r == self@.len(),
    {
        self.users.len() as u64
    }

    /// The number of open connections flagged as probing, counted afresh.
    pub fn bruteforcing_count(&self) -> (r: u64)
        ensures
            r == bruteforcing_ids(self@).len(),
            r <= self@.len(),
    {
        let ghost v = spec_hash_map_iter(&self.users).remaining().unref();
        let len = self.users.len();
        let mut n: u64 = 0;
        for entry in it: self.users.iter()
            invariant
                it.seq().unref() == v,
                n == flagged_count(v.take(it.index())),
                n <= it.index(),
                v.len() == len,
        {
            proof {
                assert(v.take(it.index() + 1).drop_last() =~= v.take(it.index()));
            }
            if entry.1.is_bruteforcing {
                n = n + 1;
            }
        }
        proof {
            assert(v.take(v.len() as int) =~= v);
            let m = self@;
            assert forall|i: int| 0 <= i < v.len() implies m.contains_key(#[trigger] v[i].0) && m[v[i].0]
                == v[i].1 by {
                assert(v.to_set().contains(v[i]));
            }
            lemma_flagged_keys_len(v, m);
            assert forall|k: u32| flagged_keys(v).contains(k) <==> bruteforcing_ids(m).contains(k) by {
                if bruteforcing_ids(m).contains(k) {
                    assert(m.kv_pairs().contains((k, m[k])));
                    let i = choose|i: int| 0 <= i < v.len() && v[i] == (k, m[k]);
                }
            }
            assert(flagged_keys(v) =~= bruteforcing_ids(m));
        }
        n
    }
}

} // verus!
