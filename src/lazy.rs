use vstd::prelude::*;
use vstd::std_specs::cmp::PartialEqSpec;

verus! {

/// A value derived from a key, re-derived only when a different key is set.
/// The value is always the one derived from the key stored beside it: a
/// failed derivation leaves both as they were.
#[derive(Clone, Copy, Debug)]
pub struct Lazy<K, V> {
    key: K,
    value: V,
}

impl<K: PartialEq + Copy, V: Copy> Lazy<K, V> {
    pub closed spec fn key_spec(&self) -> K {
        self.key
    }

    pub closed spec fn value_spec(&self) -> V {
        self.value
    }

    /// Setting `key` would keep everything as it is: the stored key equals it.
    pub open spec fn keeps(&self, key: K) -> bool {
        K::obeys_eq_spec() && self.key_spec().eq_spec(&key)
    }

    /// Starts from a key and the value derived from it.
    pub fn new(key: K, value: V) -> (r: Self)
        ensures
            r.key_spec() == key,
            r.value_spec() == value,
    {
        Lazy { key, value }
    }

    pub fn key(&self) -> (r: K)
        ensures
            r == self.key_spec(),
    {
        self.key
    }

    pub fn value(&self) -> (r: V)
        ensures
            r == self.value_spec(),
    {
        self.value
    }

    /// Sets `key`. Where it equals the stored key nothing is derived and
    /// `Ok(false)` comes back. Otherwise `derive` runs once on the new key:
    /// on success key and value are replaced and `Ok(true)` comes back; on
    /// failure its error comes back and nothing changes.
    pub fn set<E, F: Fn(K) -> Result<V, E>>(&mut self, key: K, derive: F) -> (r: Result<bool, E>)
        requires
            forall|k: K| derive.requires((k,)),
        ensures
            old(self).keeps(key) ==> r matches Ok(false),
            K::obeys_eq_spec() && !old(self).keeps(key) ==> !(r matches Ok(false)),
            r matches Ok(false) ==> *final(self) == *old(self),
            r is Ok && K::obeys_eq_spec() && key.eq_spec(&key) ==> final(self).keeps(key),
            r matches Ok(true) ==> final(self).key_spec() == key && derive.ensures(
                (key,),
                Ok::<V, E>(final(self).value_spec()),
            ),
            r matches Err(e) ==> *final(self) == *old(self) && derive.ensures((key,), Err::<V, E>(e)),
    {
        if self.key.eq(&key) {
            return Ok(false);
        }
        match derive(key) {
            Ok(value) => {
                self.key = key;
                self.value = value;
                Ok(true)
            },
            Err(e) => Err(e),
        }
    }
}

/// Setting an equal key a second time derives nothing: once a set of `key`
/// has succeeded, the stored key equals `key` wherever equality is
/// reflexive on it, so a repeated set keeps everything.
pub proof fn lemma_set_twice_derives_once<K: PartialEq + Copy, V: Copy>(l: Lazy<K, V>, key: K)
    requires
        K::obeys_eq_spec(),
        key.eq_spec(&key),
        l.key_spec() == key,
    ensures
        l.keeps(key),
{
}

} // verus!
