//! Keyed record stores.
//!
//! The host chain persists records under typed keys; here each store is an
//! explicit association list with first-match lookup.  `KvMap` is keyed by a
//! single account identifier, `PairMap` by an ordered pair of identifiers
//! (a token allowance is keyed by owner and spender).

use vstd::prelude::*;

verus! {

/// First-match lookup in a sequence of key/value pairs.
pub open spec fn seq_get<V>(s: Seq<(u64, V)>, k: u64) -> Option<V>
    decreases s.len(),
{
    if s.len() == 0 {
        None
    } else if s[0].0 == k {
        Some(s[0].1)
    } else {
        seq_get(s.subrange(1, s.len() as int), k)
    }
}

proof fn lemma_seq_get_update<V>(s: Seq<(u64, V)>, i: int, k: u64, v: V)
    requires
        0 <= i < s.len(),
        s[i].0 == k,
        forall|j: int| 0 <= j < i ==> (#[trigger] s[j]).0 != k,
    ensures
        seq_get(s.update(i, (k, v)), k) == Some(v),
        forall|k2: u64| k2 != k ==> seq_get(s.update(i, (k, v)), k2) == seq_get(s, k2),
    decreases i,
{
    let t = s.update(i, (k, v));
    if i == 0 {
        assert(t[0] == (k, v));
        assert(t.subrange(1, t.len() as int) =~= s.subrange(1, s.len() as int));
        assert forall|k2: u64| k2 != k implies seq_get(t, k2) == seq_get(s, k2) by {
            assert(seq_get(t, k2) == seq_get(t.subrange(1, t.len() as int), k2));
            assert(seq_get(s, k2) == seq_get(s.subrange(1, s.len() as int), k2));
        }
    } else {
        assert(t[0] == s[0]);
        assert(s[0].0 != k);
        let s1 = s.subrange(1, s.len() as int);
        let t1 = t.subrange(1, t.len() as int);
        assert(t1 =~= s1.update(i - 1, (k, v)));
        assert(forall|j: int| 0 <= j < i - 1 ==> (#[trigger] s1[j]).0 != k);
        lemma_seq_get_update(s1, i - 1, k, v);
        assert(seq_get(t, k) == seq_get(t1, k));
        assert forall|k2: u64| k2 != k implies seq_get(t, k2) == seq_get(s, k2) by {
            if s[0].0 != k2 {
                assert(seq_get(t, k2) == seq_get(t1, k2));
                assert(seq_get(s, k2) == seq_get(s1, k2));
                assert(seq_get(s1.update(i - 1, (k, v)), k2) == seq_get(s1, k2));
            }
        }
    }
}

proof fn lemma_seq_get_push<V>(s: Seq<(u64, V)>, k: u64, v: V)
    requires
        forall|j: int| 0 <= j < s.len() ==> (#[trigger] s[j]).0 != k,
    ensures
        seq_get(s.push((k, v)), k) == Some(v),
        forall|k2: u64| k2 != k ==> seq_get(s.push((k, v)), k2) == seq_get(s, k2),
    decreases s.len(),
{
    let t = s.push((k, v));
    if s.len() == 0 {
        assert(t[0] == (k, v));
        assert(t.subrange(1, t.len() as int) =~= Seq::<(u64, V)>::empty());
        assert forall|k2: u64| k2 != k implies seq_get(t, k2) == seq_get(s, k2) by {
            assert(seq_get(t, k2) == seq_get(t.subrange(1, t.len() as int), k2));
        }
    } else {
        assert(t[0] == s[0]);
        assert(s[0].0 != k);
        let s1 = s.subrange(1, s.len() as int);
        let t1 = t.subrange(1, t.len() as int);
        assert(t1 =~= s1.push((k, v)));
        assert(forall|j: int| 0 <= j < s1.len() ==> (#[trigger] s1[j]).0 != k);
        lemma_seq_get_push(s1, k, v);
        assert(seq_get(t, k) == seq_get(t1, k));
        assert forall|k2: u64| k2 != k implies seq_get(t, k2) == seq_get(s, k2) by {
            if s[0].0 != k2 {
                assert(seq_get(t, k2) == seq_get(t1, k2));
                assert(seq_get(s, k2) == seq_get(s1, k2));
                assert(seq_get(s1.push((k, v)), k2) == seq_get(s1, k2));
            }
        }
    }
}

/// A record store keyed by a single account identifier.
pub struct KvMap<V> {
    pairs: Vec<(u64, V)>,
}

impl<V: Copy> KvMap<V> {
    /// The value stored under `k`, if any.
    pub closed spec fn spec_get(self, k: u64) -> Option<V> {
        seq_get(self.pairs@, k)
    }

    /// An empty store.
    pub fn new() -> (r: Self)
        ensures
            forall|k: u64| #[trigger] r.spec_get(k) is None,
    {
        KvMap { pairs: Vec::new() }
    }

    /// Looks the key up.
    pub fn get(&self, k: u64) -> (r: Option<V>)
        ensures
            r == self.spec_get(k),
    {
        let n = self.pairs.len();
        proof {
            assert(self.pairs@.subrange(0, n as int) =~= self.pairs@);
        }
        let mut i: usize = 0;
        while i < n
            invariant
                i <= n,
                n == self.pairs@.len(),
                seq_get(self.pairs@, k) == seq_get(
                    self.pairs@.subrange(i as int, n as int),
                    k,
                ),
            decreases n - i,
        {
            let suffix_ghost = Ghost(self.pairs@.subrange(i as int, n as int));
            if self.pairs[i].0 == k {
                proof {
                    assert(suffix_ghost@[0] == self.pairs@[i as int]);
                }
                return Some(self.pairs[i].1);
            }
            proof {
                assert(suffix_ghost@[0] == self.pairs@[i as int]);
                assert(suffix_ghost@.subrange(1, suffix_ghost@.len() as int) =~= self
                    .pairs@
                    .subrange(i as int + 1, n as int));
            }
            i = i + 1;
        }
        proof {
            assert(self.pairs@.subrange(n as int, n as int).len() == 0);
        }
        None
    }

    /// Stores `v` under `k`, replacing any earlier value.
    pub fn set(&mut self, k: u64, v: V)
        ensures
            final(self).spec_get(k) == Some(v),
            forall|k2: u64| k2 != k ==> final(self).spec_get(k2) == old(self).spec_get(k2),
    {
        let n = self.pairs.len();
        let mut i: usize = 0;
        while i < n
            invariant
                i <= n,
                n == self.pairs@.len(),
                self.pairs@ == old(self).pairs@,
                forall|j: int| 0 <= j < i ==> (#[trigger] self.pairs@[j]).0 != k,
            decreases n - i,
        {
            if self.pairs[i].0 == k {
                proof {
                    lemma_seq_get_update(self.pairs@, i as int, k, v);
                }
                self.pairs[i] = (k, v);
                return;
            }
            i = i + 1;
        }
        proof {
            lemma_seq_get_push(self.pairs@, k, v);
        }
        self.pairs.push((k, v));
    }
}

/// First-match lookup in a sequence keyed by a pair of identifiers.
pub open spec fn seq_get2<V>(s: Seq<(u64, u64, V)>, k1: u64, k2: u64) -> Option<V>
    decreases s.len(),
{
    if s.len() == 0 {
        None
    } else if s[0].0 == k1 && s[0].1 == k2 {
        Some(s[0].2)
    } else {
        seq_get2(s.subrange(1, s.len() as int), k1, k2)
    }
}

proof fn lemma_seq_get2_update<V>(s: Seq<(u64, u64, V)>, i: int, k1: u64, k2: u64, v: V)
    requires
        0 <= i < s.len(),
        s[i].0 == k1 && s[i].1 == k2,
        forall|j: int| 0 <= j < i ==> !((#[trigger] s[j]).0 == k1 && s[j].1 == k2),
    ensures
        seq_get2(s.update(i, (k1, k2, v)), k1, k2) == Some(v),
        forall|a: u64, b: u64|
            !(a == k1 && b == k2) ==> seq_get2(s.update(i, (k1, k2, v)), a, b) == seq_get2(
                s,
                a,
                b,
            ),
    decreases i,
{
    let t = s.update(i, (k1, k2, v));
    if i == 0 {
        assert(t[0] == (k1, k2, v));
        assert(t.subrange(1, t.len() as int) =~= s.subrange(1, s.len() as int));
        assert forall|a: u64, b: u64| !(a == k1 && b == k2) implies seq_get2(t, a, b) == seq_get2(
            s,
            a,
            b,
        ) by {
            assert(seq_get2(t, a, b) == seq_get2(t.subrange(1, t.len() as int), a, b));
            assert(seq_get2(s, a, b) == seq_get2(s.subrange(1, s.len() as int), a, b));
        }
    } else {
        assert(t[0] == s[0]);
        let s1 = s.subrange(1, s.len() as int);
        let t1 = t.subrange(1, t.len() as int);
        assert(t1 =~= s1.update(i - 1, (k1, k2, v)));
        assert(forall|j: int| 0 <= j < i - 1 ==> !((#[trigger] s1[j]).0 == k1 && s1[j].1 == k2));
        lemma_seq_get2_update(s1, i - 1, k1, k2, v);
        assert(seq_get2(t, k1, k2) == seq_get2(t1, k1, k2));
        assert forall|a: u64, b: u64| !(a == k1 && b == k2) implies seq_get2(t, a, b) == seq_get2(
            s,
            a,
            b,
        ) by {
            if !(s[0].0 == a && s[0].1 == b) {
                assert(seq_get2(t, a, b) == seq_get2(t1, a, b));
                assert(seq_get2(s, a, b) == seq_get2(s1, a, b));
                assert(seq_get2(s1.update(i - 1, (k1, k2, v)), a, b) == seq_get2(s1, a, b));
            }
        }
    }
}

proof fn lemma_seq_get2_push<V>(s: Seq<(u64, u64, V)>, k1: u64, k2: u64, v: V)
    requires
        forall|j: int| 0 <= j < s.len() ==> !((#[trigger] s[j]).0 == k1 && s[j].1 == k2),
    ensures
        seq_get2(s.push((k1, k2, v)), k1, k2) == Some(v),
        forall|a: u64, b: u64|
            !(a == k1 && b == k2) ==> seq_get2(s.push((k1, k2, v)), a, b) == seq_get2(s, a, b),
    decreases s.len(),
{
    let t = s.push((k1, k2, v));
    if s.len() == 0 {
        assert(t[0] == (k1, k2, v));
        assert(t.subrange(1, t.len() as int) =~= Seq::<(u64, u64, V)>::empty());
        assert forall|a: u64, b: u64| !(a == k1 && b == k2) implies seq_get2(t, a, b) == seq_get2(
            s,
            a,
            b,
        ) by {
            assert(seq_get2(t, a, b) == seq_get2(t.subrange(1, t.len() as int), a, b));
        }
    } else {
        assert(t[0] == s[0]);
        let s1 = s.subrange(1, s.len() as int);
        let t1 = t.subrange(1, t.len() as int);
        assert(t1 =~= s1.push((k1, k2, v)));
        assert(forall|j: int| 0 <= j < s1.len() ==> !((#[trigger] s1[j]).0 == k1 && s1[j].1
            == k2));
        lemma_seq_get2_push(s1, k1, k2, v);
        assert(seq_get2(t, k1, k2) == seq_get2(t1, k1, k2));
        assert forall|a: u64, b: u64| !(a == k1 && b == k2) implies seq_get2(t, a, b) == seq_get2(
            s,
            a,
            b,
        ) by {
            if !(s[0].0 == a && s[0].1 == b) {
                assert(seq_get2(t, a, b) == seq_get2(t1, a, b));
                assert(seq_get2(s, a, b) == seq_get2(s1, a, b));
                assert(seq_get2(s1.push((k1, k2, v)), a, b) == seq_get2(s1, a, b));
            }
        }
    }
}

/// A record store keyed by an ordered pair of account identifiers.
pub struct PairMap<V> {
    triples: Vec<(u64, u64, V)>,
}

impl<V: Copy> PairMap<V> {
    /// The value stored under `(k1, k2)`, if any.
    pub closed spec fn spec_get(self, k1: u64, k2: u64) -> Option<V> {
        seq_get2(self.triples@, k1, k2)
    }

    /// An empty store.
    pub fn new() -> (r: Self)
        ensures
            forall|k1: u64, k2: u64| #[trigger] r.spec_get(k1, k2) is None,
    {
        PairMap { triples: Vec::new() }
    }

    /// Looks the key pair up.
    pub fn get(&self, k1: u64, k2: u64) -> (r: Option<V>)
        ensures
            r == self.spec_get(k1, k2),
    {
        let n = self.triples.len();
        proof {
            assert(self.triples@.subrange(0, n as int) =~= self.triples@);
        }
        let mut i: usize = 0;
        while i < n
            invariant
                i <= n,
                n == self.triples@.len(),
                seq_get2(self.triples@, k1, k2) == seq_get2(
                    self.triples@.subrange(i as int, n as int),
                    k1,
                    k2,
                ),
            decreases n - i,
        {
            let suffix_ghost = Ghost(self.triples@.subrange(i as int, n as int));
            if self.triples[i].0 == k1 && self.triples[i].1 == k2 {
                proof {
                    assert(suffix_ghost@[0] == self.triples@[i as int]);
                }
                return Some(self.triples[i].2);
            }
            proof {
                assert(suffix_ghost@[0] == self.triples@[i as int]);
                assert(suffix_ghost@.subrange(1, suffix_ghost@.len() as int) =~= self
                    .triples@
                    .subrange(i as int + 1, n as int));
            }
            i = i + 1;
        }
        proof {
            assert(self.triples@.subrange(n as int, n as int).len() == 0);
        }
        None
    }

    /// Stores `v` under `(k1, k2)`, replacing any earlier value.
    pub fn set(&mut self, k1: u64, k2: u64, v: V)
        ensures
            final(self).spec_get(k1, k2) == Some(v),
            forall|a: u64, b: u64|
                !(a == k1 && b == k2) ==> final(self).spec_get(a, b) == old(self).spec_get(a, b),
    {
        let n = self.triples.len();
        let mut i: usize = 0;
        while i < n
            invariant
                i <= n,
                n == self.triples@.len(),
                self.triples@ == old(self).triples@,
                forall|j: int| 0 <= j < i ==> !((#[trigger] self.triples@[j]).0 == k1
                    && self.triples@[j].1 == k2),
            decreases n - i,
        {
            if self.triples[i].0 == k1 && self.triples[i].1 == k2 {
                proof {
                    lemma_seq_get2_update(self.triples@, i as int, k1, k2, v);
                }
                self.triples[i] = (k1, k2, v);
                return;
            }
            i = i + 1;
        }
        proof {
            lemma_seq_get2_push(self.triples@, k1, k2, v);
        }
        self.triples.push((k1, k2, v));
    }
}

} // verus!
