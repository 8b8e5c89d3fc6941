//! The rules of the stored collections: add, replace by id, delete by id.

use vstd::prelude::*;
use crate::models::ApiCollection;

verus! {

/// The position of the first collection with the given id, if any.
pub open spec fn first_with_id(cs: Seq<ApiCollection>, id: u128) -> Option<int>
    decreases cs.len(),
{
    if cs.len() == 0 {
        None
    } else if cs[0].id == id {
        Some(0)
    } else {
        match first_with_id(cs.drop_first(), id) {
            Some(i) => Some(i + 1),
            None => None,
        }
    }
}

/// The collections whose id is not `id`, in order.
pub open spec fn without_id(cs: Seq<ApiCollection>, id: u128) -> Seq<ApiCollection> {
    cs.filter(|c: ApiCollection| c.id != id)
}

/// Whether any collection has the given id.
pub open spec fn has_id(cs: Seq<ApiCollection>, id: u128) -> bool {
    exists|i: int| 0 <= i < cs.len() && #[trigger] cs[i].id == id
}

proof fn lemma_first_with_id(cs: Seq<ApiCollection>, id: u128)
    ensures
        match first_with_id(cs, id) {
            Some(i) => 0 <= i < cs.len() && cs[i].id == id && forall|j: int|
                0 <= j < i ==> #[trigger] cs[j].id != id,
            None => forall|j: int| 0 <= j < cs.len() ==> #[trigger] cs[j].id != id,
        },
    decreases cs.len(),
{
    if cs.len() > 0 && cs[0].id != id {
        lemma_first_with_id(cs.drop_first(), id);
        match first_with_id(cs.drop_first(), id) {
            Some(i) => {
                assert forall|j: int| 0 <= j < i + 1 implies #[trigger] cs[j].id != id by {
                    if j > 0 {
                        assert(cs[j] == cs.drop_first()[j - 1]);
                    }
                }
            },
            None => {
                assert forall|j: int| 0 <= j < cs.len() implies #[trigger] cs[j].id != id by {
                    if j > 0 {
                        assert(cs[j] == cs.drop_first()[j - 1]);
                    }
                }
            },
        }
    }
}

proof fn lemma_filter_keeps_all<T>(s: Seq<T>, pred: spec_fn(T) -> bool)
    requires
        forall|i: int| 0 <= i < s.len() ==> pred(#[trigger] s[i]),
    ensures
        s.filter(pred) == s,
    decreases s.len(),
{
    reveal(Seq::filter);
    if s.len() > 0 {
        lemma_filter_keeps_all(s.drop_last(), pred);
        assert(s.drop_last().push(s.last()) =~= s);
    }
}

/// After deleting an id no collection has it, and deleting it again
/// changes nothing.
pub proof fn lemma_delete_removes_id(cs: Seq<ApiCollection>, id: u128)
    ensures
        !has_id(without_id(cs, id), id),
        without_id(without_id(cs, id), id) == without_id(cs, id),
{
    let pred = |c: ApiCollection| c.id != id;
    let d = without_id(cs, id);
    assert forall|i: int| 0 <= i < d.len() implies pred(#[trigger] d[i]) by {
        cs.lemma_filter_pred(pred, i);
    }
    lemma_filter_keeps_all(d, pred);
}

/// Deleting the id of a collection just added, whose id no other collection
/// had, gives back the collections as they were.
pub proof fn lemma_delete_undoes_add(cs: Seq<ApiCollection>, collection: ApiCollection)
    requires
        !has_id(cs, collection.id),
    ensures
        without_id(cs.push(collection), collection.id) == cs,
{
    let pred = |c: ApiCollection| c.id != collection.id;
    assert forall|i: int| 0 <= i < cs.len() implies pred(#[trigger] cs[i]) by {
        if cs[i].id == collection.id {
            assert(has_id(cs, collection.id));
        }
    }
    lemma_filter_keeps_all(cs, pred);
    reveal_with_fuel(Seq::<ApiCollection>::filter, 1);
    assert(cs.push(collection).drop_last() =~= cs);
}

/// Replacing a collection keeps the number of collections and every id, and
/// the collection found by that id afterwards is the new one.
pub proof fn lemma_update_keeps_ids(cs: Seq<ApiCollection>, collection: ApiCollection)
    requires
        first_with_id(cs, collection.id) is Some,
    ensures
        ({
            let i = first_with_id(cs, collection.id)->0;
            let r = cs.update(i, collection);
            &&& r.len() == cs.len()
            &&& forall|j: int| 0 <= j < cs.len() ==> #[trigger] r[j].id == cs[j].id
            &&& first_with_id(r, collection.id) == Some(i)
            &&& r[i] == collection
        }),
{
    let i = first_with_id(cs, collection.id)->0;
    let r = cs.update(i, collection);
    lemma_first_with_id(cs, collection.id);
    lemma_first_with_id(r, collection.id);
    match first_with_id(r, collection.id) {
        Some(k) => {
            if k < i {
                assert(r[k] == cs[k]);
            } else if k > i {
                assert(r[i].id == collection.id);
            }
        },
        None => {
            assert(r[i].id == collection.id);
        },
    }
}

/// The stored collections (its file holds a list of [`ApiCollection`]s).
pub struct CollectionsStorage;

impl CollectionsStorage {
    /// Appends `collection` to the loaded collections.
    pub fn add_collection(collections: &mut Vec<ApiCollection>, collection: ApiCollection)
        ensures
            final(collections)@ == old(collections)@.push(collection),
    {
        collections.push(collection);
    }

    /// Replaces the first loaded collection with the id of `collection` by
    /// it. Returns whether there was one (only then is the file rewritten).
    pub fn update_collection(collections: &mut Vec<ApiCollection>, collection: ApiCollection) -> (r:
        bool)
        ensures
            r == (first_with_id(old(collections)@, collection.id) is Some),
            match first_with_id(old(collections)@, collection.id) {
                Some(i) => final(collections)@ == old(collections)@.update(i, collection),
                None => final(collections)@ == old(collections)@,
            },
    {
        proof {
            lemma_first_with_id(collections@, collection.id);
        }
        let n = collections.len();
        let mut i: usize = 0;
        while i < n
            invariant
                n == collections@.len(),
                collections@ == old(collections)@,
                i <= n,
                forall|j: int| 0 <= j < i ==> #[trigger] collections@[j].id != collection.id,
            decreases n - i,
        {
            if collections[i].id == collection.id {
                proof {
                    lemma_first_with_id(collections@, collection.id);
                }
                collections.set(i, collection);
                return true;
            }
            i = i + 1;
        }
        false
    }

    /// Removes every loaded collection with the id `collection_id`.
    pub fn delete_collection(collections: &mut Vec<ApiCollection>, collection_id: u128)
        ensures
            final(collections)@ == without_id(old(collections)@, collection_id),
    {
        let mut loaded: Vec<ApiCollection> = Vec::new();
        std::mem::swap(&mut loaded, collections);
        let ghost all = loaded@;
        let ghost pred = |c: ApiCollection| c.id != collection_id;
        for c in it: loaded.into_iter()
            invariant
                it.seq() == all,
                pred == (|x: ApiCollection| x.id != collection_id),
                collections@ == all.take(it.index()).filter(pred),
        {
            let ghost i = it.index();
            let keep = c.id != collection_id;
            proof {
                reveal_with_fuel(Seq::<ApiCollection>::filter, 1);
                assert(all.take(i + 1).drop_last() =~= all.take(i));
                assert(all.take(i + 1).last() == c);
            }
            if keep {
                collections.push(c);
            }
        }
        assert(all.take(all.len() as int) =~= all);
    }
}

} // verus!
