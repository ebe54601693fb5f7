//! The interning arena: an append-only sequence of values in which no value
//! occurs twice, addressed by the position at which a value was first
//! stored, with an index from the digest of a value to the positions that it
//! can stand at.

use std::collections::HashMap;
use vstd::prelude::*;

verus! {

broadcast use vstd::std_specs::hash::group_hash_axioms;

/// The integer behind every handle: a position in an arena.
pub type BiMapIndex = usize;

/// A value that an arena can intern: it has a structural equality that
/// executable code can decide and a way to make an independent copy.
pub trait Interned: Sized {
    /// Structural equality: both values are the same alternative and hold the
    /// same scalars, the same handles and the same sequences of elements.
    spec fn alike(&self, other: &Self) -> bool;

    /// Structural equality is an equivalence relation.
    proof fn alike_is_equivalence(a: &Self, b: &Self, c: &Self)
        ensures
            a.alike(a),
            a.alike(b) ==> b.alike(a),
            a.alike(b) && b.alike(c) ==> a.alike(c),
    ;

    /// Decides structural equality.
    fn same(&self, other: &Self) -> (r: bool)
        ensures
            r == self.alike(other),
    ;

    /// An independent copy of the value.
    fn duplicate(&self) -> (r: Self)
        ensures
            r.alike(self),
    ;

    /// A number that structurally equal values share: the key under which
    /// an arena finds a value again.
    spec fn digest(&self) -> u64;

    /// Structurally equal values have the same digest.
    proof fn digest_respects_alike(a: &Self, b: &Self)
        requires
            a.alike(b),
        ensures
            a.digest() == b.digest(),
    ;

    /// Computes the digest.
    fn fingerprint(&self) -> (r: u64)
        ensures
            r == self.digest(),
    ;
}

/// No two entries of `s` are structurally equal.
pub open spec fn distinct<T: Interned>(s: Seq<T>) -> bool {
    forall|i: int, j: int| 0 <= i < j < s.len() ==> !(#[trigger] s[i]).alike(#[trigger] &s[j])
}

/// Some entry of `s` is structurally equal to `v`.
pub open spec fn holds<T: Interned>(s: Seq<T>, v: &T) -> bool {
    exists|i: int| 0 <= i < s.len() && (#[trigger] s[i]).alike(v)
}

/// What interning `v` into the contents `pre` gives: the contents `post` and
/// the position `h`. A value that is already held is found again and nothing
/// changes; any other value is appended.
pub open spec fn interned<T: Interned>(pre: Seq<T>, v: &T, post: Seq<T>, h: int) -> bool {
    &&& 0 <= h < post.len()
    &&& post[h].alike(v)
    &&& holds(pre, v) ==> post == pre
    &&& !holds(pre, v) ==> post == pre.push(*v) && h == pre.len()
}

/// An append-only store that gives each structurally distinct value one
/// stable position. The values are held in the order in which they were
/// first interned; beside them an index leads from the digest of a value to
/// the positions of the values with that digest, so that a value is found
/// again without a walk through all of them.
pub struct Arena<T: Interned> {
    items: Vec<T>,
    index: HashMap<u64, Vec<BiMapIndex>>,
}

impl<T: Interned> Arena<T> {
    /// The stored values, in the order in which they were first interned.
    pub closed spec fn view(&self) -> Seq<T> {
        self.items@
    }

    /// The index is complete: the position of every stored value stands
    /// under the digest of the value.
    pub closed spec fn indexed(&self) -> bool {
        forall|i: int|
            0 <= i < self.items@.len() ==> self.index@.contains_key(
                (#[trigger] self.items@[i]).digest(),
            ) && self.index@[self.items@[i].digest()]@.contains(i as usize)
    }

    /// No value is stored twice, and the index is complete.
    pub open spec fn wf(&self) -> bool {
        distinct(self@) && self.indexed()
    }

    /// An arena that holds nothing.
    pub fn new() -> (r: Self)
        ensures
            r@ == Seq::<T>::empty(),
            r.wf(),
    {
        Arena { items: Vec::new(), index: HashMap::new() }
    }

    /// The number of stored values.
    pub fn len(&self) -> (n: usize)
        ensures
            n == self@.len(),
    {
        self.items.len()
    }

    /// The position of the stored value that is structurally equal to `v`.
    pub fn find(&self, v: &T) -> (r: Option<BiMapIndex>)
        requires
            self.indexed(),
        ensures
            match r {
                Some(h) => h < self@.len() && self@[h as int].alike(v),
                None => !holds(self@, v),
            },
    {
        let d = v.fingerprint();
        match self.index.get(&d) {
            Some(bucket) => {
                let mut k: usize = 0;
                while k < bucket.len()
                    invariant
                        self.indexed(),
                        d == v.digest(),
                        self.index@.contains_key(d),
                        self.index@[d]@ == bucket@,
                        k <= bucket.len(),
                        forall|p: int|
                            0 <= p < k && (#[trigger] bucket@[p]) < self.items@.len()
                                ==> !self.items@[bucket@[p] as int].alike(v),
                    decreases bucket.len() - k,
                {
                    let h = bucket[k];
                    if h < self.items.len() && self.items[h].same(v) {
                        return Some(h);
                    }
                    k += 1;
                }
                proof {
                    assert(self.items@.len() == self.items.len());
                    assert forall|i: int| 0 <= i < self.items@.len() implies !(
                    #[trigger] self.items@[i]).alike(v) by {
                        if self.items@[i].alike(v) {
                            T::digest_respects_alike(&self.items@[i], v);
                            assert(bucket@.contains(i as usize));
                            let p = choose|p: int|
                                0 <= p < bucket@.len() && bucket@[p] == i as usize;
                            assert(bucket@[p] < self.items@.len());
                        }
                    }
                }
                None
            },
            None => {
                proof {
                    assert forall|i: int| 0 <= i < self.items@.len() implies !(
                    #[trigger] self.items@[i]).alike(v) by {
                        if self.items@[i].alike(v) {
                            T::digest_respects_alike(&self.items@[i], v);
                        }
                    }
                }
                None
            },
        }
    }

    /// Interns `v`: returns the position of the equal value already stored,
    /// or appends `v` and returns its new position.
    pub fn insert(&mut self, v: T) -> (h: BiMapIndex)
        requires
            old(self).wf(),
        ensures
            final(self).wf(),
            interned(old(self)@, &v, final(self)@, h as int),
    {
        match self.find(&v) {
            Some(h) => h,
            None => {
                let h = self.items.len();
                let d = v.fingerprint();
                let mut bucket = match self.index.get(&d) {
                    Some(b) => duplicate_list(b),
                    None => Vec::new(),
                };
                let ghost before = bucket@;
                bucket.push(h);
                proof {
                    let pre = self.items@;
                    let post = pre.push(v);
                    assert forall|i: int, j: int| 0 <= i < j < post.len() implies !(
                    #[trigger] post[i]).alike(#[trigger] &post[j]) by {
                        if j == pre.len() {
                            assert(!pre[i].alike(&v));
                        }
                    }
                    T::alike_is_equivalence(&v, &v, &v);
                    assert(bucket@[before.len() as int] == h);
                    assert forall|j: usize| #[trigger] before.contains(j) implies bucket@.contains(
                        j,
                    ) by {
                        let p = choose|p: int| 0 <= p < before.len() && before[p] == j;
                        assert(bucket@[p] == j);
                    }
                }
                self.index.insert(d, bucket);
                self.items.push(v);
                h
            },
        }
    }

    /// The value stored at `h`.
    pub fn get(&self, h: BiMapIndex) -> (r: &T)
        requires
            h < self@.len(),
        ensures
            *r == self@[h as int],
    {
        &self.items[h]
    }
}

/// Copies a list of values that are copied bit by bit.
pub fn duplicate_list<T: Copy>(v: &Vec<T>) -> (r: Vec<T>)
    ensures
        r@ == v@,
{
    let mut r: Vec<T> = Vec::new();
    let mut i: usize = 0;
    while i < v.len()
        invariant
            i <= v.len(),
            r@ == v@.take(i as int),
        decreases v.len() - i,
    {
        r.push(v[i]);
        proof {
            assert(v@.take(i as int).push(v@[i as int]) =~= v@.take(i + 1));
        }
        i += 1;
    }
    proof {
        assert(v@.take(v.len() as int) =~= v@);
    }
    r
}

/// Interning is idempotent: interning a value that is structurally equal to
/// one interned just before returns the same position and leaves the contents
/// as they were, and the value stored at that position is structurally equal
/// to the one that was interned.
pub proof fn law_intern_idempotent<T: Interned>(
    s0: Seq<T>,
    v: T,
    s1: Seq<T>,
    h1: int,
    w: T,
    s2: Seq<T>,
    h2: int,
)
    requires
        distinct(s0),
        interned(s0, &v, s1, h1),
        w.alike(&v),
        interned(s1, &w, s2, h2),
    ensures
        h1 == h2,
        s2 == s1,
        s1[h1].alike(&v),
        distinct(s1),
{
    lemma_interned_distinct(s0, v, s1, h1);
    T::alike_is_equivalence(&s1[h1], &v, &w);
    T::alike_is_equivalence(&w, &v, &w);
    assert(s1[h1].alike(&w));
    assert(holds(s1, &w));
    lemma_distinct_position(s1, h1, h2, w);
}

/// Interning keeps the contents free of repetitions.
pub proof fn lemma_interned_distinct<T: Interned>(s0: Seq<T>, v: T, s1: Seq<T>, h: int)
    requires
        distinct(s0),
        interned(s0, &v, s1, h),
    ensures
        distinct(s1),
{
    if !holds(s0, &v) {
        assert forall|i: int, j: int| 0 <= i < j < s1.len() implies !(#[trigger] s1[i]).alike(
            #[trigger] &s1[j],
        ) by {
            if j == s0.len() {
                assert(!s0[i].alike(&v));
            }
        }
    }
}

/// In contents without repetitions, two positions whose values are both
/// structurally equal to `v` are one position.
pub proof fn lemma_distinct_position<T: Interned>(s: Seq<T>, i: int, j: int, v: T)
    requires
        distinct(s),
        0 <= i < s.len(),
        0 <= j < s.len(),
        s[i].alike(&v),
        s[j].alike(&v),
    ensures
        i == j,
{
    T::alike_is_equivalence(&s[j], &v, &s[i]);
    T::alike_is_equivalence(&s[i], &v, &s[j]);
    T::alike_is_equivalence(&v, &s[j], &s[j]);
    T::alike_is_equivalence(&v, &s[i], &s[i]);
    if i < j {
        assert(!s[i].alike(&s[j]));
    } else if j < i {
        assert(!s[j].alike(&s[i]));
    }
}

/// In contents without repetitions, two positions whose values are
/// structurally equal are one position.
pub proof fn lemma_distinct_alike<T: Interned>(s: Seq<T>, i: int, j: int)
    requires
        distinct(s),
        0 <= i < s.len(),
        0 <= j < s.len(),
        s[i].alike(&s[j]),
    ensures
        i == j,
{
    T::alike_is_equivalence(&s[j], &s[j], &s[j]);
    lemma_distinct_position(s, i, j, s[j]);
}

} // verus!
