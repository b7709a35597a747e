//! Stable sorting by key. A key is a sequence of numbers and texts compared
//! in turn; texts compare character by character, as strings do. Equal keys
//! keep their input order.

use vstd::prelude::*;

verus! {

/// One component of a sort key.
#[derive(Debug, Clone, PartialEq, Eq)]
pub enum KeyPart {
    Number(u64),
    Text(Vec<char>),
}

/// A key component, as a number or characters.
pub enum PartView {
    Number(u64),
    Text(Seq<char>),
}

impl View for KeyPart {
    type V = PartView;

    open spec fn view(&self) -> PartView {
        match *self {
            KeyPart::Number(n) => PartView::Number(n),
            KeyPart::Text(t) => PartView::Text(t@),
        }
    }
}

/// The view of a whole key.
pub open spec fn key_view(parts: Seq<KeyPart>) -> Seq<PartView> {
    parts.map_values(|p: KeyPart| p@)
}

/// Character-by-character order of texts; a proper prefix comes first.
pub open spec fn text_lt(a: Seq<char>, b: Seq<char>) -> bool
    decreases a.len(),
{
    if a.len() == 0 {
        b.len() > 0
    } else if b.len() == 0 {
        false
    } else if a[0] != b[0] {
        a[0] < b[0]
    } else {
        text_lt(a.drop_first(), b.drop_first())
    }
}

/// Order of key components: numbers by value, texts as above.
pub open spec fn part_lt(a: PartView, b: PartView) -> bool {
    match (a, b) {
        (PartView::Number(x), PartView::Number(y)) => x < y,
        (PartView::Text(x), PartView::Text(y)) => text_lt(x, y),
        (PartView::Number(_), PartView::Text(_)) => true,
        (PartView::Text(_), PartView::Number(_)) => false,
    }
}

/// Order of keys: component by component; a proper prefix comes first.
pub open spec fn key_lt(a: Seq<PartView>, b: Seq<PartView>) -> bool
    decreases a.len(),
{
    if a.len() == 0 {
        b.len() > 0
    } else if b.len() == 0 {
        false
    } else if a[0] != b[0] {
        part_lt(a[0], b[0])
    } else {
        key_lt(a.drop_first(), b.drop_first())
    }
}

/// No text comes before itself.
pub proof fn lemma_text_irreflexive(a: Seq<char>)
    ensures
        !text_lt(a, a),
    decreases a.len(),
{
    if a.len() > 0 {
        lemma_text_irreflexive(a.drop_first());
    }
}

/// Of two texts, at most one comes before the other.
pub proof fn lemma_text_asymmetric(a: Seq<char>, b: Seq<char>)
    ensures
        text_lt(a, b) ==> !text_lt(b, a),
    decreases a.len(),
{
    if a.len() > 0 && b.len() > 0 {
        lemma_text_asymmetric(a.drop_first(), b.drop_first());
    }
}

/// The text order is transitive.
pub proof fn lemma_text_transitive(a: Seq<char>, b: Seq<char>, c: Seq<char>)
    ensures
        text_lt(a, b) && text_lt(b, c) ==> text_lt(a, c),
    decreases a.len(),
{
    if a.len() > 0 && b.len() > 0 && c.len() > 0 {
        lemma_text_transitive(a.drop_first(), b.drop_first(), c.drop_first());
    }
}

/// Of two different texts, one comes before the other.
pub proof fn lemma_text_total(a: Seq<char>, b: Seq<char>)
    ensures
        a != b ==> text_lt(a, b) || text_lt(b, a),
    decreases a.len(),
{
    if a.len() > 0 && b.len() > 0 {
        lemma_text_total(a.drop_first(), b.drop_first());
        if a[0] == b[0] && a.drop_first() == b.drop_first() {
            assert forall|i: int| 0 <= i < a.len() implies a[i] == b[i] by {
                if i > 0 {
                    assert(a[i] == a.drop_first()[i - 1]);
                    assert(b[i] == b.drop_first()[i - 1]);
                }
            }
            assert(a =~= b);
        }
    }
    if a.len() == 0 && b.len() == 0 {
        assert(a =~= b);
    }
}

/// The component order is a strict total order.
pub proof fn lemma_part_order(a: PartView, b: PartView, c: PartView)
    ensures
        !part_lt(a, a),
        part_lt(a, b) ==> !part_lt(b, a),
        part_lt(a, b) && part_lt(b, c) ==> part_lt(a, c),
        a != b ==> part_lt(a, b) || part_lt(b, a),
{
    match (a, b, c) {
        (PartView::Text(x), PartView::Text(y), PartView::Text(z)) => {
            lemma_text_irreflexive(x);
            lemma_text_asymmetric(x, y);
            lemma_text_transitive(x, y, z);
            lemma_text_total(x, y);
        },
        (PartView::Text(x), PartView::Text(y), _) => {
            lemma_text_irreflexive(x);
            lemma_text_asymmetric(x, y);
            lemma_text_total(x, y);
        },
        (PartView::Text(x), _, _) => {
            lemma_text_irreflexive(x);
        },
        _ => {},
    }
}

/// No key comes before itself.
pub proof fn lemma_key_irreflexive(a: Seq<PartView>)
    ensures
        !key_lt(a, a),
    decreases a.len(),
{
    if a.len() > 0 {
        lemma_key_irreflexive(a.drop_first());
    }
}

/// Of two keys, at most one comes before the other.
pub proof fn lemma_key_asymmetric(a: Seq<PartView>, b: Seq<PartView>)
    ensures
        key_lt(a, b) ==> !key_lt(b, a),
    decreases a.len(),
{
    if a.len() > 0 && b.len() > 0 {
        lemma_key_asymmetric(a.drop_first(), b.drop_first());
        lemma_part_order(a[0], b[0], a[0]);
    }
}

/// The key order is transitive.
pub proof fn lemma_key_transitive(a: Seq<PartView>, b: Seq<PartView>, c: Seq<PartView>)
    ensures
        key_lt(a, b) && key_lt(b, c) ==> key_lt(a, c),
    decreases a.len(),
{
    if a.len() > 0 && b.len() > 0 && c.len() > 0 {
        lemma_key_transitive(a.drop_first(), b.drop_first(), c.drop_first());
        lemma_part_order(a[0], b[0], c[0]);
        lemma_part_order(b[0], c[0], a[0]);
        lemma_part_order(c[0], a[0], b[0]);
    }
}

/// Of two different keys, one comes before the other.
pub proof fn lemma_key_total(a: Seq<PartView>, b: Seq<PartView>)
    ensures
        a != b ==> key_lt(a, b) || key_lt(b, a),
    decreases a.len(),
{
    if a.len() > 0 && b.len() > 0 {
        lemma_key_total(a.drop_first(), b.drop_first());
        lemma_part_order(a[0], b[0], a[0]);
        if a[0] == b[0] && a.drop_first() == b.drop_first() {
            assert forall|i: int| 0 <= i < a.len() implies a[i] == b[i] by {
                if i > 0 {
                    assert(a[i] == a.drop_first()[i - 1]);
                    assert(b[i] == b.drop_first()[i - 1]);
                }
            }
            assert(a =~= b);
        }
    }
    if a.len() == 0 && b.len() == 0 {
        assert(a =~= b);
    }
}

/// The key order is a strict total order.
pub proof fn lemma_key_order(a: Seq<PartView>, b: Seq<PartView>, c: Seq<PartView>)
    ensures
        !key_lt(a, a),
        key_lt(a, b) ==> !key_lt(b, a),
        key_lt(a, b) && key_lt(b, c) ==> key_lt(a, c),
        a != b ==> key_lt(a, b) || key_lt(b, a),
{
    lemma_key_irreflexive(a);
    lemma_key_asymmetric(a, b);
    lemma_key_transitive(a, b, c);
    lemma_key_total(a, b);
}

/// Where an item with key `k` goes in `sorted`: after every item whose key
/// is not greater, scanning from the end.
pub open spec fn insert_pos<T>(sorted: Seq<T>, key: spec_fn(T) -> Seq<PartView>, k: Seq<PartView>) -> nat
    decreases sorted.len(),
{
    if sorted.len() == 0 {
        0
    } else if key_lt(k, key(sorted.last())) {
        insert_pos(sorted.drop_last(), key, k)
    } else {
        sorted.len()
    }
}

/// `s` sorted by `key`, stably: each item in turn is placed after every
/// earlier item whose key is not greater than its own.
pub open spec fn stable_sort_by<T>(s: Seq<T>, key: spec_fn(T) -> Seq<PartView>) -> Seq<T>
    decreases s.len(),
{
    if s.len() == 0 {
        s
    } else {
        let sorted = stable_sort_by(s.drop_last(), key);
        sorted.insert(insert_pos(sorted, key, key(s.last())) as int, s.last())
    }
}

/// The keys of `s` never decrease.
pub open spec fn sorted_by<T>(s: Seq<T>, key: spec_fn(T) -> Seq<PartView>) -> bool {
    forall|i: int, j: int| 0 <= i < j < s.len() ==> !key_lt(key(#[trigger] s[j]), key(#[trigger] s[i]))
}

/// The test for items whose key is `k`.
pub open spec fn has_key<T>(key: spec_fn(T) -> Seq<PartView>, k: Seq<PartView>) -> spec_fn(T) -> bool {
    |x: T| key(x) == k
}

/// The items of `s` whose key is `k`, in order.
pub open spec fn with_key<T>(s: Seq<T>, key: spec_fn(T) -> Seq<PartView>, k: Seq<PartView>) -> Seq<T> {
    s.filter(has_key(key, k))
}

/// The insert position splits `sorted`: the items after it have greater
/// keys, the one just before it does not.
proof fn lemma_insert_pos<T>(sorted: Seq<T>, key: spec_fn(T) -> Seq<PartView>, k: Seq<PartView>)
    ensures
        insert_pos(sorted, key, k) <= sorted.len(),
        forall|j: int|
            insert_pos(sorted, key, k) <= j < sorted.len() ==> key_lt(k, key(#[trigger] sorted[j])),
        insert_pos(sorted, key, k) > 0 ==> !key_lt(k, key(sorted[insert_pos(sorted, key, k) - 1])),
    decreases sorted.len(),
{
    if sorted.len() > 0 && key_lt(k, key(sorted.last())) {
        lemma_insert_pos(sorted.drop_last(), key, k);
        assert forall|j: int|
            insert_pos(sorted, key, k) <= j < sorted.len() implies key_lt(k, key(#[trigger] sorted[j])) by {
            if j < sorted.len() - 1 {
                assert(sorted.drop_last()[j] == sorted[j]);
            }
        }
        let p = insert_pos(sorted, key, k);
        if p > 0 {
            assert(sorted.drop_last()[p - 1] == sorted[p - 1]);
        }
    }
}

/// A stable sort orders its items by key.
pub proof fn lemma_stable_sort_sorted<T>(s: Seq<T>, key: spec_fn(T) -> Seq<PartView>)
    ensures
        sorted_by(stable_sort_by(s, key), key),
        stable_sort_by(s, key).len() == s.len(),
    decreases s.len(),
{
    if s.len() > 0 {
        let sorted = stable_sort_by(s.drop_last(), key);
        lemma_stable_sort_sorted(s.drop_last(), key);
        let x = s.last();
        let p = insert_pos(sorted, key, key(x));
        lemma_insert_pos(sorted, key, key(x));
        let r = sorted.insert(p as int, x);
        assert forall|i: int, j: int| 0 <= i < j < r.len() implies !key_lt(key(#[trigger] r[j]), key(#[trigger] r[i])) by {
            if j < p {
                assert(r[i] == sorted[i] && r[j] == sorted[j]);
            } else if j == p {
                assert(r[j] == x && r[i] == sorted[i]);
                if i < p - 1 {
                    lemma_key_order(key(x), key(sorted[p - 1]), key(sorted[i]));
                    assert(!key_lt(key(sorted[p - 1]), key(sorted[i])));
                    lemma_key_order(key(x), key(sorted[i]), key(sorted[p - 1]));
                    lemma_key_order(key(sorted[i]), key(sorted[p - 1]), key(x));
                }
            } else if i == p {
                assert(r[i] == x && r[j] == sorted[j - 1]);
                lemma_key_order(key(x), key(sorted[j - 1]), key(x));
            } else if i < p {
                assert(r[i] == sorted[i] && r[j] == sorted[j - 1]);
            } else {
                assert(r[i] == sorted[i - 1] && r[j] == sorted[j - 1]);
            }
        }
    }
}

/// A stable sort keeps exactly the items it was given.
pub proof fn lemma_stable_sort_permutation<T>(s: Seq<T>, key: spec_fn(T) -> Seq<PartView>)
    ensures
        stable_sort_by(s, key).to_multiset() == s.to_multiset(),
    decreases s.len(),
{
    broadcast use vstd::seq_lib::group_to_multiset_ensures;
    if s.len() > 0 {
        let sorted = stable_sort_by(s.drop_last(), key);
        lemma_stable_sort_permutation(s.drop_last(), key);
        lemma_stable_sort_sorted(s.drop_last(), key);
        let x = s.last();
        let p = insert_pos(sorted, key, key(x));
        lemma_insert_pos(sorted, key, key(x));
        let r = sorted.insert(p as int, x);
        assert(r =~= sorted.take(p as int) + seq![x] + sorted.skip(p as int));
        assert(sorted =~= sorted.take(p as int) + sorted.skip(p as int));
        vstd::seq_lib::lemma_multiset_commutative(sorted.take(p as int) + seq![x], sorted.skip(p as int));
        vstd::seq_lib::lemma_multiset_commutative(sorted.take(p as int), seq![x]);
        vstd::seq_lib::lemma_multiset_commutative(sorted.take(p as int), sorted.skip(p as int));
        assert(s =~= s.drop_last().push(x));
    }
}

/// Filtering a one-item sequence keeps the item exactly when it passes.
proof fn lemma_filter_single<T>(x: T, pred: spec_fn(T) -> bool)
    ensures
        seq![x].filter(pred) == if pred(x) {
            seq![x]
        } else {
            Seq::<T>::empty()
        },
{
    reveal(Seq::filter);
    assert(seq![x].drop_last() =~= Seq::<T>::empty());
    assert(Seq::<T>::empty().filter(pred) =~= Seq::<T>::empty());
    assert(Seq::<T>::empty().push(x) =~= seq![x]);
}

/// A stable sort keeps the input order of items with equal keys.
pub proof fn lemma_stable_sort_stable<T>(s: Seq<T>, key: spec_fn(T) -> Seq<PartView>, k: Seq<PartView>)
    ensures
        with_key(stable_sort_by(s, key), key, k) == with_key(s, key, k),
    decreases s.len(),
{
    let pred = has_key(key, k);
    if s.len() == 0 {
        reveal(Seq::filter);
    } else {
        let sorted = stable_sort_by(s.drop_last(), key);
        lemma_stable_sort_stable(s.drop_last(), key, k);
        let x = s.last();
        let p = insert_pos(sorted, key, key(x));
        lemma_insert_pos(sorted, key, key(x));
        let front = sorted.take(p as int);
        let back = sorted.skip(p as int);
        let r = sorted.insert(p as int, x);
        assert(r == stable_sort_by(s, key));
        assert(r =~= front + (seq![x] + back));
        assert(sorted =~= front + back);
        Seq::filter_distributes_over_add(front, seq![x] + back, pred);
        Seq::filter_distributes_over_add(seq![x], back, pred);
        Seq::filter_distributes_over_add(front, back, pred);
        assert(s =~= s.drop_last() + seq![x]);
        Seq::filter_distributes_over_add(s.drop_last(), seq![x], pred);
        lemma_filter_single(x, pred);
        assert(sorted.filter(pred) == s.drop_last().filter(pred));
        if key(x) == k {
            assert forall|j: int| 0 <= j < back.len() implies !pred(#[trigger] back[j]) by {
                assert(back[j] == sorted[p + j]);
                lemma_key_irreflexive(key(x));
            }
            back.lemma_all_neg_filter_empty(pred);
            assert(r.filter(pred) =~= front.filter(pred) + seq![x]);
            assert(sorted.filter(pred) =~= front.filter(pred));
            assert(s.filter(pred) =~= s.drop_last().filter(pred) + seq![x]);
        } else {
            assert(r.filter(pred) =~= front.filter(pred) + back.filter(pred));
            assert(s.filter(pred) =~= s.drop_last().filter(pred));
        }
    }
}

/// The view of the key of each entry is the key of its item.
pub open spec fn keys_match<T>(entries: Seq<(Vec<KeyPart>, T)>, key: spec_fn(T) -> Seq<PartView>) -> bool {
    forall|i: int| 0 <= i < entries.len() ==> key_view((#[trigger] entries[i]).0@) == key(entries[i].1)
}

/// Whether text `a` comes before text `b`.
fn text_less(a: &Vec<char>, b: &Vec<char>) -> (r: bool)
    ensures
        r == text_lt(a@, b@),
{
    let mut i: usize = 0;
    assert(a@.skip(0) =~= a@ && b@.skip(0) =~= b@);
    while i < a.len() && i < b.len() && a[i] == b[i]
        invariant
            i <= a@.len(),
            i <= b@.len(),
            text_lt(a@, b@) == text_lt(a@.skip(i as int), b@.skip(i as int)),
        decreases a@.len() - i,
    {
        assert(a@.skip(i as int).drop_first() =~= a@.skip(i + 1));
        assert(b@.skip(i as int).drop_first() =~= b@.skip(i + 1));
        i = i + 1;
    }
    if i == a.len() {
        i < b.len()
    } else if i == b.len() {
        false
    } else {
        a[i] < b[i]
    }
}

/// Whether key component `a` comes before `b`.
fn part_less(a: &KeyPart, b: &KeyPart) -> (r: bool)
    ensures
        r == part_lt(a@, b@),
{
    match (a, b) {
        (KeyPart::Number(x), KeyPart::Number(y)) => *x < *y,
        (KeyPart::Text(x), KeyPart::Text(y)) => text_less(x, y),
        (KeyPart::Number(_), KeyPart::Text(_)) => true,
        (KeyPart::Text(_), KeyPart::Number(_)) => false,
    }
}

/// Whether key component `a` equals `b`.
fn part_equal(a: &KeyPart, b: &KeyPart) -> (r: bool)
    ensures
        r == (a@ == b@),
{
    match (a, b) {
        (KeyPart::Number(x), KeyPart::Number(y)) => *x == *y,
        (KeyPart::Text(x), KeyPart::Text(y)) => crate::text::chars_eq(x, y),
        _ => false,
    }
}

/// Whether key `a` comes before key `b`.
pub fn key_less(a: &Vec<KeyPart>, b: &Vec<KeyPart>) -> (r: bool)
    ensures
        r == key_lt(key_view(a@), key_view(b@)),
{
    let ghost av = key_view(a@);
    let ghost bv = key_view(b@);
    let mut i: usize = 0;
    assert(av.skip(0) =~= av && bv.skip(0) =~= bv);
    while i < a.len() && i < b.len() && part_equal(&a[i], &b[i])
        invariant
            i <= a@.len(),
            i <= b@.len(),
            av == key_view(a@),
            bv == key_view(b@),
            key_lt(av, bv) == key_lt(av.skip(i as int), bv.skip(i as int)),
        decreases a@.len() - i,
    {
        assert(av.skip(i as int).drop_first() =~= av.skip(i + 1));
        assert(bv.skip(i as int).drop_first() =~= bv.skip(i + 1));
        i = i + 1;
    }
    if i == a.len() {
        i < b.len()
    } else if i == b.len() {
        false
    } else {
        assert(av.skip(i as int)[0] == a@[i as int]@);
        assert(bv.skip(i as int)[0] == b@[i as int]@);
        part_less(&a[i], &b[i])
    }
}

/// The items sorted stably by their entry keys.
pub fn sort_keyed<T>(entries: Vec<(Vec<KeyPart>, T)>, Ghost(key): Ghost<spec_fn(T) -> Seq<PartView>>) -> (r:
    Vec<T>)
    requires
        keys_match(entries@, key),
    ensures
        r@ == stable_sort_by(entries@.map_values(|e: (Vec<KeyPart>, T)| e.1), key),
{
    let ghost all = entries@;
    let ghost items = all.map_values(|e: (Vec<KeyPart>, T)| e.1);
    let mut out: Vec<(Vec<KeyPart>, T)> = Vec::new();
    for entry in it: entries.into_iter()
        invariant
            it.seq() == all,
            keys_match(all, key),
            items == all.map_values(|e: (Vec<KeyPart>, T)| e.1),
            keys_match(out@, key),
            out@.map_values(|e: (Vec<KeyPart>, T)| e.1) == stable_sort_by(
                items.take(it.index() as int),
                key,
            ),
    {
        let ghost k = it.index() as int;
        let ghost placed = out@.map_values(|e: (Vec<KeyPart>, T)| e.1);
        assert(items.take(k + 1).drop_last() =~= items.take(k));
        assert(items.take(k + 1).last() == entry.1);
        assert(key_view(entry.0@) == key(entry.1));
        let mut pos: usize = out.len();
        assert(placed.take(pos as int) =~= placed);
        while pos > 0 && key_less(&entry.0, &out[pos - 1].0)
            invariant
                pos <= out@.len(),
                keys_match(out@, key),
                placed == out@.map_values(|e: (Vec<KeyPart>, T)| e.1),
                key_view(entry.0@) == key(entry.1),
                insert_pos(placed, key, key(entry.1)) == insert_pos(placed.take(pos as int), key, key(entry.1)),
            decreases pos,
        {
            assert(placed.take(pos as int).drop_last() =~= placed.take(pos - 1));
            assert(placed.take(pos as int).last() == out@[pos - 1].1);
            pos = pos - 1;
        }
        proof {
            if pos > 0 {
                assert(placed.take(pos as int).last() == out@[pos - 1].1);
            }
        }
        let ghost before = out@;
        out.insert(pos, entry);
        assert(out@.map_values(|e: (Vec<KeyPart>, T)| e.1) =~= placed.insert(pos as int, entry.1));
        assert forall|i: int| 0 <= i < out@.len() implies key_view((#[trigger] out@[i]).0@) == key(out@[i].1) by {
            if i < pos {
                assert(out@[i] == before[i]);
            } else if i > pos {
                assert(out@[i] == before[i - 1]);
            }
        }
    }
    assert(items.take(all.len() as int) =~= items);
    let mut result: Vec<T> = Vec::new();
    let ghost sorted_entries = out@;
    for entry in it: out.into_iter()
        invariant
            it.seq() == sorted_entries,
            result@ == sorted_entries.map_values(|e: (Vec<KeyPart>, T)| e.1).take(it.index() as int),
    {
        result.push(entry.1);
        assert(result@ =~= sorted_entries.map_values(|e: (Vec<KeyPart>, T)| e.1).take(it.index() + 1));
    }
    assert(sorted_entries.map_values(|e: (Vec<KeyPart>, T)| e.1).take(sorted_entries.len() as int)
        =~= sorted_entries.map_values(|e: (Vec<KeyPart>, T)| e.1));
    result
}

/// The key `key` applied after `f`.
pub open spec fn key_after<A, B>(key: spec_fn(B) -> Seq<PartView>, f: spec_fn(A) -> B) -> spec_fn(A) -> Seq<PartView> {
    |a: A| key(f(a))
}

/// Insert positions agree whether the keys are read before or after `f`.
proof fn lemma_insert_pos_map<A, B>(
    s: Seq<A>,
    f: spec_fn(A) -> B,
    key: spec_fn(B) -> Seq<PartView>,
    k: Seq<PartView>,
)
    ensures
        insert_pos(s, key_after(key, f), k) == insert_pos(s.map_values(f), key, k),
    decreases s.len(),
{
    if s.len() > 0 {
        assert(s.map_values(f).drop_last() =~= s.drop_last().map_values(f));
        assert(s.map_values(f).last() == f(s.last()));
        lemma_insert_pos_map(s.drop_last(), f, key, k);
    }
}

/// Sorting by a key read through `f` and then applying `f` is sorting the
/// images under `f`.
pub proof fn lemma_stable_sort_map<A, B>(s: Seq<A>, f: spec_fn(A) -> B, key: spec_fn(B) -> Seq<PartView>)
    ensures
        stable_sort_by(s, key_after(key, f)).map_values(f) == stable_sort_by(s.map_values(f), key),
    decreases s.len(),
{
    if s.len() > 0 {
        let p = s.drop_last();
        let kf = key_after(key, f);
        lemma_stable_sort_map(p, f, key);
        let sorted = stable_sort_by(p, kf);
        let x = s.last();
        lemma_insert_pos_map(sorted, f, key, key(f(x)));
        lemma_insert_pos(sorted, kf, kf(x));
        let pos = insert_pos(sorted, kf, kf(x));
        assert(s.map_values(f).drop_last() =~= p.map_values(f));
        assert(s.map_values(f).last() == f(x));
        assert(sorted.insert(pos as int, x).map_values(f) =~= sorted.map_values(f).insert(
            pos as int,
            f(x),
        ));
    }
}


/// Sorting the items of `s` that pass `pred` gives only such items, each
/// one of `s`.
pub proof fn lemma_sorted_filter_members<T>(s: Seq<T>, pred: spec_fn(T) -> bool, key: spec_fn(T) -> Seq<PartView>)
    ensures
        forall|i: int|
            0 <= i < stable_sort_by(s.filter(pred), key).len() ==> pred(
                #[trigger] stable_sort_by(s.filter(pred), key)[i],
            ) && s.contains(stable_sort_by(s.filter(pred), key)[i]),
{
    let f = s.filter(pred);
    let r = stable_sort_by(f, key);
    lemma_stable_sort_permutation(f, key);
    assert forall|i: int| 0 <= i < r.len() implies pred(#[trigger] r[i]) && s.contains(r[i]) by {
        let x = r[i];
        r.to_multiset_ensures();
        f.to_multiset_ensures();
        assert(r.contains(x));
        assert(r.to_multiset().count(x) > 0);
        assert(f.to_multiset().count(x) > 0);
        assert(f.contains(x));
        let j = choose|j: int| 0 <= j < f.len() && f[j] == x;
        s.lemma_filter_pred(pred, j);
        s.lemma_filter_contains_rev(pred, x);
    }
}


/// Sorting by a key that is one number `f(x)` puts the numbers in
/// non-decreasing order and keeps exactly the items given.
pub proof fn lemma_sort_by_number<T>(s: Seq<T>, key: spec_fn(T) -> Seq<PartView>, f: spec_fn(T) -> u64)
    requires
        forall|x: T| #[trigger] key(x) == seq![PartView::Number(f(x))],
    ensures
        forall|i: int, j: int|
            0 <= i < j < stable_sort_by(s, key).len() ==> f(#[trigger] stable_sort_by(s, key)[i]) <= f(
                #[trigger] stable_sort_by(s, key)[j],
            ),
        stable_sort_by(s, key).to_multiset() == s.to_multiset(),
{
    let r = stable_sort_by(s, key);
    lemma_stable_sort_sorted(s, key);
    lemma_stable_sort_permutation(s, key);
    assert forall|i: int, j: int| 0 <= i < j < r.len() implies f(#[trigger] r[i]) <= f(#[trigger] r[j]) by {
        assert(!key_lt(key(r[j]), key(r[i])));
        assert(key(r[j]) == seq![PartView::Number(f(r[j]))]);
        assert(key(r[i]) == seq![PartView::Number(f(r[i]))]);
        if f(r[j]) < f(r[i]) {
            assert(key(r[j])[0] != key(r[i])[0]);
        }
    }
}

/// Sorting by a key that is one text `g(x)` puts the texts in
/// character order (no text before a smaller one) and keeps exactly the
/// items given.
pub proof fn lemma_sort_by_text<T>(s: Seq<T>, key: spec_fn(T) -> Seq<PartView>, g: spec_fn(T) -> Seq<char>)
    requires
        forall|x: T| #[trigger] key(x) == seq![PartView::Text(g(x))],
    ensures
        forall|i: int, j: int|
            0 <= i < j < stable_sort_by(s, key).len() ==> !text_lt(
                g(#[trigger] stable_sort_by(s, key)[j]),
                g(#[trigger] stable_sort_by(s, key)[i]),
            ),
        stable_sort_by(s, key).to_multiset() == s.to_multiset(),
{
    let r = stable_sort_by(s, key);
    lemma_stable_sort_sorted(s, key);
    lemma_stable_sort_permutation(s, key);
    assert forall|i: int, j: int| 0 <= i < j < r.len() implies !text_lt(g(#[trigger] r[j]), g(#[trigger] r[i])) by {
        assert(!key_lt(key(r[j]), key(r[i])));
        assert(key(r[j]) == seq![PartView::Text(g(r[j]))]);
        assert(key(r[i]) == seq![PartView::Text(g(r[i]))]);
        if g(r[j]) == g(r[i]) {
            lemma_text_irreflexive(g(r[j]));
        } else {
            assert(key(r[j])[0] != key(r[i])[0]);
        }
    }
}

} // verus!
