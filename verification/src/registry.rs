//! The client registry: an immutable mapping of caller identity to secret
//! credential, built once at startup from a configuration source and never
//! mutated afterwards.

use vstd::prelude::*;

verus! {

/// Immutable mapping of caller identity to secret credential.
///
/// Built once from (identity, credential) pairs at startup; there is no
/// public mutator. Lookup is an exact, case-sensitive string match. Where the
/// configuration source repeats an identity, the first pair wins.
pub struct ClientRegistry {
    entries: Vec<(String, String)>,
}

/// The mapping that a sequence of (identity, credential) pairs denotes:
/// the first pair with a given identity wins.
pub open spec fn registry_map(entries: Seq<(String, String)>) -> Map<Seq<char>, Seq<char>>
    decreases entries.len(),
{
    if entries.len() == 0 {
        Map::empty()
    } else {
        let prior = registry_map(entries.drop_last());
        if prior.contains_key(entries.last().0@) {
            prior
        } else {
            prior.insert(entries.last().0@, entries.last().1@)
        }
    }
}

impl View for ClientRegistry {
    type V = Map<Seq<char>, Seq<char>>;

    closed spec fn view(&self) -> Map<Seq<char>, Seq<char>> {
        registry_map(self.entries@)
    }
}

/// A key is in the registry map exactly when some entry carries it.
proof fn lemma_registry_map_contains(entries: Seq<(String, String)>, k: Seq<char>)
    ensures
        registry_map(entries).contains_key(k) <==> (exists|i: int|
            0 <= i < entries.len() && entries[i].0@ == k),
    decreases entries.len(),
{
    if entries.len() == 0 {
    } else {
        let prior = entries.drop_last();
        lemma_registry_map_contains(prior, k);
        if registry_map(entries).contains_key(k) {
            if registry_map(prior).contains_key(k) {
                let i = choose|i: int| 0 <= i < prior.len() && prior[i].0@ == k;
                assert(entries[i].0@ == k);
            } else {
                assert(entries[entries.len() - 1].0@ == k);
            }
        }
        if exists|i: int| 0 <= i < entries.len() && entries[i].0@ == k {
            let i = choose|i: int| 0 <= i < entries.len() && entries[i].0@ == k;
            if i < entries.len() - 1 {
                assert(prior[i].0@ == k);
            }
        }
    }
}

/// The first entry that carries a key decides that key's credential.
proof fn lemma_registry_map_first(entries: Seq<(String, String)>, i: int)
    requires
        0 <= i < entries.len(),
        forall|j: int| 0 <= j < i ==> entries[j].0@ != entries[i].0@,
    ensures
        registry_map(entries).contains_key(entries[i].0@),
        registry_map(entries)[entries[i].0@] == entries[i].1@,
    decreases entries.len(),
{
    let k = entries[i].0@;
    let prior = entries.drop_last();
    if i == entries.len() - 1 {
        lemma_registry_map_contains(prior, k);
        assert(!registry_map(prior).contains_key(k));
    } else {
        assert(forall|j: int| 0 <= j < i ==> prior[j].0@ != prior[i].0@);
        lemma_registry_map_first(prior, i);
    }
}

impl ClientRegistry {
    /// Builds the registry from the configuration source's pairs.
    pub fn from_pairs(pairs: Vec<(String, String)>) -> (r: ClientRegistry)
        ensures
            r@ == registry_map(pairs@),
    {
        ClientRegistry { entries: pairs }
    }

    /// Looks an identity up: the credential registered for it, or `None` when
    /// the identity is unknown. Exact, case-sensitive match; no side effects.
    pub fn lookup(&self, identity: &String) -> (r: Option<&String>)
        ensures
            match r {
                Some(credential) => self@.contains_key(identity@)
                    && credential@ == self@[identity@],
                None => !self@.contains_key(identity@),
            },
    {
        let n = self.entries.len();
        let mut i: usize = 0;
        while i < n
            invariant
                i <= n,
                n == self.entries@.len(),
                forall|j: int| 0 <= j < i ==> self.entries@[j].0@ != identity@,
            decreases n - i,
        {
            if self.entries[i].0 == *identity {
                proof {
                    lemma_registry_map_first(self.entries@, i as int);
                }
                return Some(&self.entries[i].1);
            }
            i = i + 1;
        }
        proof {
            lemma_registry_map_contains(self.entries@, identity@);
        }
        None
    }
}

} // verus!
