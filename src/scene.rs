use vstd::prelude::*;

verus! {

/// An ordered collection of scene objects, tested together for the nearest hit.
pub struct HittableList<T> {
    pub objects: Vec<T>,
}

impl<T> HittableList<T> {
    /// An empty scene.
    pub fn new() -> (r: Self)
        ensures
            r.objects@ == Seq::<T>::empty(),
    {
        HittableList { objects: Vec::new() }
    }

    /// Removes every object.
    pub fn clear(&mut self)
        ensures
            final(self).objects@ == Seq::<T>::empty(),
    {
        self.objects.clear();
    }

    /// Adds `object` after those already present.
    pub fn add(&mut self, object: T)
        ensures
            final(self).objects@ == old(self).objects@.push(object),
    {
        self.objects.push(object);
    }
}

/// `keys[i]` is the hit of object `i`, if it has one, given as a key that orders hits
/// as their ray parameters do. Object `i` holds the nearest hit: no other hit is
/// nearer, and no later object's hit is as near (of equal hits the last one tested
/// wins, since each object is tested up to and including the nearest hit so far).
pub open spec fn is_nearest(keys: Seq<Option<u64>>, i: int) -> bool {
    &&& 0 <= i < keys.len()
    &&& keys[i] is Some
    &&& forall|j: int| 0 <= j < keys.len() && keys[j] is Some ==> keys[i]->0 <= keys[j]->0
    &&& forall|j: int| i < j < keys.len() && keys[j] is Some ==> keys[i]->0 < keys[j]->0
}

/// No object has a hit.
pub open spec fn all_miss(keys: Seq<Option<u64>>) -> bool {
    forall|j: int| 0 <= j < keys.len() ==> keys[j] is None
}

/// The object with the nearest hit, scanning the objects in order and keeping the
/// nearest hit found so far; `None` when no object has a hit.
pub fn nearest_hit(keys: &Vec<Option<u64>>) -> (r: Option<usize>)
    ensures
        r is None <==> all_miss(keys@),
        r matches Some(i) ==> is_nearest(keys@, i as int),
{
    let mut best: Option<usize> = None;
    let mut i: usize = 0;
    while i < keys.len()
        invariant
            i <= keys@.len(),
            best is None <==> all_miss(keys@.subrange(0, i as int)),
            best matches Some(b) ==> is_nearest(keys@.subrange(0, i as int), b as int),
        decreases keys@.len() - i,
    {
        let ghost prefix = keys@.subrange(0, i as int);
        let ghost next = keys@.subrange(0, i + 1);
        assert(next =~= prefix.push(keys@[i as int]));
        match keys[i] {
            Some(k) => {
                match best {
                    Some(b) => {
                        let kb = keys[b].unwrap();
                        if k <= kb {
                            best = Some(i);
                        }
                    },
                    None => {
                        best = Some(i);
                    },
                }
            },
            None => {},
        }
        i = i + 1;
    }
    assert(keys@.subrange(0, keys@.len() as int) =~= keys@);
    best
}

/// The nearest hit does not depend on the order in which the objects are tested:
/// over any reordering of the same hits, the nearest object's hit is the same.
pub proof fn lemma_nearest_order_free(a: Seq<Option<u64>>, b: Seq<Option<u64>>, i: int, j: int)
    requires
        a.to_multiset() =~= b.to_multiset(),
        is_nearest(a, i),
        is_nearest(b, j),
    ensures
        a[i] == b[j],
{
    broadcast use vstd::seq_lib::to_multiset_contains;

    assert(a.contains(a[i]));
    assert(a.to_multiset().count(a[i]) > 0);
    assert(b.contains(a[i]));
    assert(b.contains(b[j]));
    assert(b.to_multiset().count(b[j]) > 0);
    assert(a.contains(b[j]));
}

/// Two objects that are both hit, tested as `[A, B]` or as `[B, A]`: the nearest hit
/// is the same, and where the two hits are at different distances, so is the object
/// that holds it.
pub proof fn lemma_nearest_pair_order_free(ka: u64, kb: u64, i: int, j: int)
    requires
        is_nearest(seq![Some(ka), Some(kb)], i),
        is_nearest(seq![Some(kb), Some(ka)], j),
    ensures
        seq![Some(ka), Some(kb)][i] == seq![Some(kb), Some(ka)][j],
        ka != kb ==> j == 1 - i,
{
    let a = seq![Some(ka), Some(kb)];
    let b = seq![Some(kb), Some(ka)];
    assert(a[0] == Some(ka) && a[1] == Some(kb));
    assert(b[0] == Some(kb) && b[1] == Some(ka));
}

} // verus!
