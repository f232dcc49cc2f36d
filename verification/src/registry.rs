//! Registries of definitions, keyed by their ids.
use vstd::prelude::*;

verus! {

/// An id a registry can be keyed by.
pub trait RegistryKey: Copy + Sized {
    fn same(&self, other: &Self) -> (r: bool)
        ensures
            r == (*self == *other);
}

/// A definition that carries its own id.
pub trait Definition<K>: Sized {
    spec fn spec_key(&self) -> K;

    fn key(&self) -> (r: K)
        ensures
            r == self.spec_key();
}

/// Definitions in the order they were first registered, at most one per id.
pub struct DefRegistry<K: RegistryKey, D: Definition<K>> {
    keys: Vec<K>,
    defs: Vec<D>,
}

impl<K: RegistryKey, D: Definition<K>> DefRegistry<K, D> {
    #[verifier::type_invariant]
    spec fn well_formed(self) -> bool {
        &&& self.keys@.len() == self.defs@.len()
        &&& self.keys@.no_duplicates()
        &&& forall|i: int| 0 <= i < self.keys@.len() ==> #[trigger] self.keys@[i] == self.defs@[i].spec_key()
    }

    /// Each registered id and its definition.
    pub closed spec fn view(&self) -> Map<K, D> {
        Map::new(|k: K| self.keys@.contains(k), |k: K| self.defs@[self.keys@.index_of(k)])
    }

    /// The registered definitions, in registration order.
    pub open spec fn spec_values(&self) -> Seq<D> {
        self.spec_keys().map_values(|k: K| self@[k])
    }

    /// The registered ids, in registration order.
    pub closed spec fn spec_keys(&self) -> Seq<K> {
        self.keys@
    }

    pub fn empty() -> (r: Self)
        ensures
            r@ == Map::<K, D>::empty(),
            r.spec_keys().len() == 0,
    {
        let r = DefRegistry { keys: Vec::new(), defs: Vec::new() };
        assert(r@ =~= Map::<K, D>::empty());
        r
    }

    fn position(&self, key: K) -> (r: Option<usize>)
        ensures
            match r {
                Some(i) => i < self.keys@.len() && self.keys@[i as int] == key,
                None => !self.keys@.contains(key),
            },
    {
        let n = self.keys.len();
        for i in 0..n
            invariant
                n == self.keys@.len(),
                forall|j: int| 0 <= j < i ==> self.keys@[j] != key,
        {
            if self.keys[i].same(&key) {
                return Some(i);
            }
        }
        None
    }

    pub fn contains(&self, key: K) -> (r: bool)
        ensures
            r == self@.contains_key(key),
    {
        self.position(key).is_some()
    }

    pub fn get(&self, key: K) -> (r: Option<&D>)
        ensures
            r is Some <==> self@.contains_key(key),
            r is Some ==> *r->0 == self@[key],
    {
        proof {
            use_type_invariant(self);
        }
        match self.position(key) {
            Some(i) => {
                proof {
                    assert(self.keys@.contains(key));
                    assert(self.keys@[self.keys@.index_of(key)] == key);
                }
                Some(&self.defs[i])
            },
            None => None,
        }
    }

    /// The definitions in registration order.
    pub fn values(&self) -> (r: &Vec<D>)
        ensures
            r@ == self.spec_values(),
            forall|i: int| 0 <= i < r@.len() ==> self@.contains_key(#[trigger] r@[i].spec_key()) && self@[r@[i].spec_key()] == r@[i],
            forall|k: K| #[trigger] self@.contains_key(k) ==> exists|i: int| 0 <= i < r@.len() && r@[i].spec_key() == k,
            forall|i: int, j: int| 0 <= i < r@.len() && 0 <= j < r@.len() && i != j ==> #[trigger] r@[i].spec_key() != #[trigger] r@[j].spec_key(),
    {
        proof {
            use_type_invariant(self);
            assert forall|i: int| 0 <= i < self.defs@.len() implies #[trigger] self.defs@[i] == self@[self.keys@[i]] by {
                let k = self.keys@[i];
                assert(self.keys@.contains(k));
                let j = self.keys@.index_of(k);
                assert(self.keys@[j] == k);
            }
            assert(self.defs@ =~= self.spec_values());
            assert forall|i: int| 0 <= i < self.defs@.len() implies self@.contains_key(#[trigger] self.defs@[i].spec_key()) && self@[self.defs@[i].spec_key()] == self.defs@[i] by {
                let k = self.keys@[i];
                assert(self.keys@.contains(k));
                let j = self.keys@.index_of(k);
                assert(self.keys@[j] == k);
            }
            assert forall|k: K| #[trigger] self@.contains_key(k) implies exists|i: int| 0 <= i < self.defs@.len() && self.defs@[i].spec_key() == k by {
                let i = choose|i: int| 0 <= i < self.keys@.len() && self.keys@[i] == k;
                assert(self.defs@[i].spec_key() == k);
            }
            assert forall|i: int, j: int| 0 <= i < self.defs@.len() && 0 <= j < self.defs@.len() && i != j implies #[trigger] self.defs@[i].spec_key() != #[trigger] self.defs@[j].spec_key() by {
                assert(self.keys@[i] == self.defs@[i].spec_key());
                assert(self.keys@[j] == self.defs@[j].spec_key());
            }
        }
        &self.defs
    }

    /// Adds a definition, replacing one registered under the same id; a new
    /// id comes after every registered one.
    pub fn register(&mut self, def: D)
        ensures
            final(self)@ == old(self)@.insert(def.spec_key(), def),
            final(self).spec_keys() == if old(self)@.contains_key(def.spec_key()) {
                old(self).spec_keys()
            } else {
                old(self).spec_keys().push(def.spec_key())
            },
    {
        proof {
            use_type_invariant(&*self);
        }
        let key = def.key();
        let found = self.position(key);
        let mut taken = DefRegistry { keys: Vec::new(), defs: Vec::new() };
        std::mem::swap(self, &mut taken);
        proof {
            use_type_invariant(&taken);
        }
        let DefRegistry { keys, defs } = taken;
        match found {
            Some(i) => {
                let mut defs = defs;
                let ghost old_defs = defs@;
                defs.set(i, def);
                proof {
                    assert(keys@.index_of(key) == i as int);
                    assert forall|j: int| 0 <= j < keys@.len() implies #[trigger] keys@[j] == defs@[j].spec_key() by {
                        if j != i {
                            assert(defs@[j] == old_defs[j]);
                        }
                    }
                }
                *self = DefRegistry { keys, defs };
                proof {
                    assert(self@ =~= old(self)@.insert(key, def));
                }
            },
            None => {
                let mut defs = defs;
                let mut keys = keys;
                let ghost old_keys = keys@;
                let ghost old_defs = defs@;
                keys.push(key);
                defs.push(def);
                proof {
                    assert forall|j: int| 0 <= j < keys@.len() implies #[trigger] keys@[j] == defs@[j].spec_key() by {
                        if j < old_keys.len() {
                            assert(keys@[j] == old_keys[j]);
                            assert(defs@[j] == old_defs[j]);
                        }
                    }
                    assert(keys@.no_duplicates()) by {
                        assert forall|a: int, b: int| 0 <= a < keys@.len() && 0 <= b < keys@.len() && a != b implies keys@[a] != keys@[b] by {
                            if a < old_keys.len() && b < old_keys.len() {
                                assert(keys@[a] == old_keys[a]);
                                assert(keys@[b] == old_keys[b]);
                            } else if a < old_keys.len() {
                                assert(keys@[a] == old_keys[a]);
                                assert(old_keys.contains(keys@[a]));
                            } else {
                                assert(keys@[b] == old_keys[b]);
                                assert(old_keys.contains(keys@[b]));
                            }
                        }
                    }
                }
                *self = DefRegistry { keys, defs };
                proof {
                    let m = old(self)@.insert(key, def);
                    assert forall|k: K| #[trigger] self@.contains_key(k) <==> m.contains_key(k) by {
                        if k != key && self.keys@.contains(k) {
                            let j = choose|j: int| 0 <= j < self.keys@.len() && self.keys@[j] == k;
                            assert(j < old_keys.len());
                            assert(old_keys[j] == k);
                        }
                        if k != key && old_keys.contains(k) {
                            let j = choose|j: int| 0 <= j < old_keys.len() && old_keys[j] == k;
                            assert(self.keys@[j] == k);
                        }
                        if k == key {
                            assert(self.keys@[old_keys.len() as int] == key);
                        }
                    }
                    assert forall|k: K| #[trigger] self@.contains_key(k) implies self@[k] == m[k] by {
                        if k == key {
                            assert(self.keys@[old_keys.len() as int] == key);
                            assert(self.keys@.index_of(key) == old_keys.len());
                        } else {
                            let j = self.keys@.index_of(k);
                            assert(self.keys@[j] == k);
                            assert(j < old_keys.len());
                            assert(old_keys[j] == k);
                            assert(old_keys.index_of(k) == j);
                        }
                    }
                    assert(self@ =~= m);
                }
            },
        }
    }
}

/// Registering a definition makes it the one found under its id.
pub proof fn lemma_register_then_get<K: RegistryKey, D: Definition<K>>(
    before: DefRegistry<K, D>,
    after: DefRegistry<K, D>,
    def: D,
    other: K,
)
    requires
        after@ == before@.insert(def.spec_key(), def),
    ensures
        after@.contains_key(def.spec_key()),
        after@[def.spec_key()] == def,
        other != def.spec_key() ==> (after@.contains_key(other) == before@.contains_key(other)),
        other != def.spec_key() && before@.contains_key(other) ==> after@[other] == before@[other],
{
}

} // verus!
