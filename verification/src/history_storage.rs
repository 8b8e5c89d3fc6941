//! The rules of the stored request history: newest first, one entry per
//! URL and method, at most a hundred entries.

use vstd::prelude::*;
use crate::api_tab::HistoryItem;

verus! {

broadcast use vstd::string::group_string_axioms;

/// The most entries the stored history keeps.
pub const MAX_HISTORY_ITEMS: usize = 100;

/// Two history entries are for the same request when URL and method agree.
pub open spec fn same_request(a: HistoryItem, b: HistoryItem) -> bool {
    a.url@ == b.url@ && a.method@ == b.method@
}

/// The first `n` elements of `s`, or all of `s` when it is shorter.
pub open spec fn at_most<T>(s: Seq<T>, n: nat) -> Seq<T> {
    if s.len() <= n {
        s
    } else {
        s.take(n as int)
    }
}

/// The entries of `history` that are not for the same request as `item`.
pub open spec fn without_request(history: Seq<HistoryItem>, item: HistoryItem) -> Seq<HistoryItem> {
    history.filter(|h: HistoryItem| !same_request(h, item))
}

/// The history after recording `item`: `item` first, then the older entries
/// for other requests, cut to the first hundred.
pub open spec fn history_after_add(history: Seq<HistoryItem>, item: HistoryItem) -> Seq<
    HistoryItem,
> {
    at_most(seq![item] + without_request(history, item), MAX_HISTORY_ITEMS as nat)
}

proof fn lemma_filter_keeps_all<T>(s: Seq<T>, pred: spec_fn(T) -> bool)
    requires
        forall|i: int| 0 <= i < s.len() ==> pred(#[trigger] s[i]),
    ensures
        s.filter(pred) == s,
    decreases s.len(),
{
    reveal(Seq::filter);
    if s.len() > 0 {
        lemma_filter_keeps_all(s.drop_last(), pred);
        assert(s.drop_last().push(s.last()) =~= s);
    }
}

/// Recording the same request twice in a row leaves the history as
/// recording it once.
pub proof fn lemma_add_item_idempotent(history: Seq<HistoryItem>, item: HistoryItem)
    ensures
        history_after_add(history_after_add(history, item), item) == history_after_add(
            history,
            item,
        ),
{
    let pred = |h: HistoryItem| !same_request(h, item);
    let f = without_request(history, item);
    let a = seq![item] + f;
    let b = history_after_add(history, item);
    let m: int = if a.len() <= 100 { a.len() as int } else { 100 };
    assert(b =~= a.take(m));
    assert(b =~= seq![item] + f.take(m - 1));
    assert forall|i: int| 0 <= i < f.take(m - 1).len() implies pred(#[trigger] f.take(m - 1)[i]) by {
        history.lemma_filter_pred(pred, i);
    }
    lemma_filter_keeps_all(f.take(m - 1), pred);
    Seq::filter_distributes_over_add(seq![item], f.take(m - 1), pred);
    reveal_with_fuel(Seq::<HistoryItem>::filter, 2);
    assert(seq![item].drop_last() =~= Seq::<HistoryItem>::empty());
    assert(seq![item].filter(pred) =~= Seq::<HistoryItem>::empty());
    assert(without_request(b, item) =~= f.take(m - 1));
    assert(seq![item] + without_request(b, item) =~= b);
}

/// After recording `item`, the history starts with `item`, holds no other
/// entry for the same URL and method, and has between one and a hundred
/// entries.
pub proof fn lemma_add_item_shape(history: Seq<HistoryItem>, item: HistoryItem)
    ensures
        ({
            let r = history_after_add(history, item);
            &&& 1 <= r.len() <= MAX_HISTORY_ITEMS
            &&& r[0] == item
            &&& forall|i: int| 1 <= i < r.len() ==> !same_request(#[trigger] r[i], item)
        }),
{
    let pred = |h: HistoryItem| !same_request(h, item);
    let f = without_request(history, item);
    let r = history_after_add(history, item);
    assert forall|i: int| 1 <= i < r.len() implies !same_request(#[trigger] r[i], item) by {
        assert(r[i] == f[i - 1]);
        history.lemma_filter_pred(pred, i - 1);
    }
}

/// No two entries of `history` are for the same URL and method.
pub open spec fn requests_distinct(history: Seq<HistoryItem>) -> bool {
    forall|i: int, j: int|
        0 <= i < j < history.len() ==> !(#[trigger] history[i].url@ == #[trigger] history[j].url@
            && history[i].method@ == history[j].method@)
}

proof fn lemma_filter_keeps_distinct(s: Seq<HistoryItem>, pred: spec_fn(HistoryItem) -> bool)
    requires
        requests_distinct(s),
    ensures
        requests_distinct(s.filter(pred)),
    decreases s.len(),
{
    reveal(Seq::filter);
    if s.len() > 0 {
        let init = s.drop_last();
        let last = s.last();
        lemma_filter_keeps_distinct(init, pred);
        let f = init.filter(pred);
        if pred(last) {
            assert forall|k: int| 0 <= k < f.len() implies !same_request(#[trigger] f[k], last) by {
                assert(f.contains(f[k]));
                init.lemma_filter_contains_rev(pred, f[k]);
                let m = choose|m: int| 0 <= m < init.len() && init[m] == f[k];
                assert(s[m] == f[k]);
                assert(s[s.len() - 1] == last);
            }
            let g = f.push(last);
            assert forall|i: int, j: int| 0 <= i < j < g.len() implies !same_request(
                #[trigger] g[i],
                #[trigger] g[j],
            ) by {
                if j == g.len() - 1 {
                    assert(g[i] == f[i]);
                } else {
                    assert(g[i] == f[i] && g[j] == f[j]);
                }
            }
        }
    }
}

/// Recording a request keeps a history free of two entries for the same URL
/// and method.
pub proof fn lemma_add_item_keeps_requests_distinct(history: Seq<HistoryItem>, item: HistoryItem)
    requires
        requests_distinct(history),
    ensures
        requests_distinct(history_after_add(history, item)),
{
    let pred = |h: HistoryItem| !same_request(h, item);
    let f = without_request(history, item);
    lemma_filter_keeps_distinct(history, pred);
    lemma_add_item_shape(history, item);
    let a = seq![item] + f;
    let r = history_after_add(history, item);
    assert forall|i: int, j: int| 0 <= i < j < r.len() implies !same_request(
        #[trigger] r[i],
        #[trigger] r[j],
    ) by {
        assert(r[j] == a[j]);
        assert(r[i] == a[i]);
        if i == 0 {
            assert(!same_request(r[j], item));
        } else {
            assert(a[i] == f[i - 1] && a[j] == f[j - 1]);
        }
    }
}

/// After recording `item`, the history starts with `item` and no later entry
/// has the item's URL text and method text, whatever its other fields; every
/// later entry is an older one, and while fewer than a hundred entries were
/// stored, every older entry for another URL or method is kept.
pub proof fn lemma_add_item_replaces_same_url_and_method(
    history: Seq<HistoryItem>,
    item: HistoryItem,
)
    ensures
        ({
            let r = history_after_add(history, item);
            &&& r[0] == item
            &&& forall|i: int|
                1 <= i < r.len() ==> !((#[trigger] r[i]).url@ == item.url@ && r[i].method@
                    == item.method@)
            &&& forall|i: int| 1 <= i < r.len() ==> history.contains(#[trigger] r[i])
            &&& history.len() < MAX_HISTORY_ITEMS ==> forall|j: int|
                0 <= j < history.len() && (history[j].url@ != item.url@ || history[j].method@
                    != item.method@) ==> r.contains(#[trigger] history[j])
        }),
{
    let pred = |h: HistoryItem| !same_request(h, item);
    let f = without_request(history, item);
    let a = seq![item] + f;
    let r = history_after_add(history, item);
    lemma_add_item_shape(history, item);
    assert forall|i: int| 1 <= i < r.len() implies history.contains(#[trigger] r[i]) by {
        assert(r[i] == f[i - 1]);
        assert(f.contains(f[i - 1]));
        history.lemma_filter_contains_rev(pred, f[i - 1]);
    }
    if history.len() < MAX_HISTORY_ITEMS {
        history.lemma_filter_len(pred);
        assert(r == a);
        assert forall|j: int|
            0 <= j < history.len() && (history[j].url@ != item.url@ || history[j].method@
                != item.method@) implies r.contains(#[trigger] history[j]) by {
            history.lemma_filter_contains(pred, j);
            let k = choose|k: int| 0 <= k < f.len() && f[k] == history[j];
            assert(a[k + 1] == history[j]);
        }
    }
}

/// Whether the URLs and methods of two entries agree.
pub fn is_same_request(a: &HistoryItem, b: &HistoryItem) -> (r: bool)
    ensures
        r == same_request(*a, *b),
{
    a.url == b.url && a.method == b.method
}

/// The stored history (its file holds a list of [`HistoryItem`]s).
pub struct HistoryStorage;

impl HistoryStorage {
    /// Records `item` in the loaded history `history`: drops the entries for
    /// the same URL and method, puts `item` first and keeps the first hundred.
    pub fn add_item(history: &mut Vec<HistoryItem>, item: HistoryItem)
        ensures
            final(history)@ == history_after_add(old(history)@, item),
    {
        let mut loaded: Vec<HistoryItem> = Vec::new();
        std::mem::swap(&mut loaded, history);
        let ghost all = loaded@;
        let ghost pred = |h: HistoryItem| !same_request(h, item);
        for h in it: loaded.into_iter()
            invariant
                it.seq() == all,
                pred == (|x: HistoryItem| !same_request(x, item)),
                history@ == all.take(it.index()).filter(pred),
        {
            let ghost i = it.index();
            proof {
                reveal_with_fuel(Seq::<HistoryItem>::filter, 1);
                assert(all.take(i + 1).drop_last() =~= all.take(i));
                assert(all.take(i + 1).last() == h);
            }
            let keep = !is_same_request(&h, &item);
            if keep {
                history.push(h);
            }
        }
        assert(all.take(all.len() as int) =~= all);
        history.insert(0, item);
        assert(history@ =~= seq![item] + without_request(all, item));
        history.truncate(MAX_HISTORY_ITEMS);
    }

    /// Cuts the history to what is written to the file: its first hundred
    /// entries.
    pub fn items_to_save(history: &mut Vec<HistoryItem>)
        ensures
            final(history)@ == at_most(old(history)@, MAX_HISTORY_ITEMS as nat),
    {
        history.truncate(MAX_HISTORY_ITEMS);
    }
}

} // verus!
