//! Tables as sequences of rows, and the few query forms the services need:
//! test for a matching row, find the first one, count, delete and update the
//! matching rows.
use vstd::prelude::*;

verus! {

/// A condition on the rows of a table, as a query states it.
pub trait Matcher<T> {
    /// The rows that meet the condition.
    spec fn pred(&self) -> spec_fn(T) -> bool;

    /// Whether `row` meets the condition.
    fn test(&self, row: &T) -> (r: bool)
        ensures
            r == (self.pred())(*row),
    ;
}

/// A change that a query makes to each row it selects.
pub trait Patch<T> {
    /// The row after the change.
    spec fn change(&self) -> spec_fn(T) -> T;

    /// Makes the change to `row`.
    fn apply(&self, row: &mut T)
        ensures
            *final(row) == (self.change())(*old(row)),
    ;
}

/// A change that a query makes to each row it selects, where the new row is
/// fixed by a relation to the old one rather than computed from it: a new
/// text is fixed by its characters only.
pub trait Rewrite<T> {
    /// Whether `after` is what the change makes of `before`.
    spec fn relates(&self) -> spec_fn(T, T) -> bool;

    /// Makes the change to `row`.
    fn rewrite(&self, row: &mut T)
        ensures
            (self.relates())(*old(row), *final(row)),
    ;
}

/// `post` is `pre` with each row that meets `p` replaced by a row that `rel`
/// relates to it, and every other row as it was.
pub open spec fn rewritten<T>(
    pre: Seq<T>,
    post: Seq<T>,
    p: spec_fn(T) -> bool,
    rel: spec_fn(T, T) -> bool,
) -> bool {
    &&& post.len() == pre.len()
    &&& forall|i: int|
        0 <= i < pre.len() ==> if p(pre[i]) {
            rel(pre[i], #[trigger] post[i])
        } else {
            post[i] == pre[i]
        }
}

/// Some row of `rows` meets `p`.
pub open spec fn any<T>(rows: Seq<T>, p: spec_fn(T) -> bool) -> bool {
    exists|i: int| 0 <= i < rows.len() && p(#[trigger] rows[i])
}

/// Row `i` of `rows` meets `p` and no earlier row does.
pub open spec fn is_first<T>(rows: Seq<T>, p: spec_fn(T) -> bool, i: int) -> bool {
    &&& 0 <= i < rows.len()
    &&& p(rows[i])
    &&& forall|j: int| 0 <= j < i ==> !p(#[trigger] rows[j])
}

/// The first row of `rows` that meets `p`, if any row does.
pub open spec fn first<T>(rows: Seq<T>, p: spec_fn(T) -> bool) -> Option<T> {
    if any(rows, p) {
        Some(rows[choose|i: int| is_first(rows, p, i)])
    } else {
        None
    }
}

/// The number of rows of `rows` that meet `p`.
pub open spec fn count<T>(rows: Seq<T>, p: spec_fn(T) -> bool) -> nat {
    rows.filter(p).len()
}

/// The condition that holds of a row exactly when `p` does not.
pub open spec fn not<T>(p: spec_fn(T) -> bool) -> spec_fn(T) -> bool {
    |row: T| !p(row)
}

/// `rows` without the rows that meet `p`, in the same order.
pub open spec fn without<T>(rows: Seq<T>, p: spec_fn(T) -> bool) -> Seq<T> {
    rows.filter(not(p))
}

/// The change `f` limited to the rows that meet `p`.
pub open spec fn change_where<T>(p: spec_fn(T) -> bool, f: spec_fn(T) -> T) -> spec_fn(T) -> T {
    |row: T|
        if p(row) {
            f(row)
        } else {
            row
        }
}

/// `rows` with `f` applied to each row that meets `p`.
pub open spec fn updated<T>(rows: Seq<T>, p: spec_fn(T) -> bool, f: spec_fn(T) -> T) -> Seq<T> {
    rows.map_values(change_where(p, f))
}

/// Filtering a prefix that is one row longer either appends that row or
/// changes nothing.
pub proof fn lemma_filter_step<T>(rows: Seq<T>, p: spec_fn(T) -> bool, i: int)
    requires
        0 <= i < rows.len(),
    ensures
        rows.take(i + 1).filter(p) == if p(rows[i]) {
            rows.take(i).filter(p).push(rows[i])
        } else {
            rows.take(i).filter(p)
        },
{
    reveal(Seq::filter);
    assert(rows.take(i + 1).drop_last() =~= rows.take(i));
}

/// Filtering a sequence with one more row at its end.
pub proof fn lemma_filter_push<T>(rows: Seq<T>, p: spec_fn(T) -> bool, row: T)
    ensures
        rows.push(row).filter(p) == if p(row) {
            rows.filter(p).push(row)
        } else {
            rows.filter(p)
        },
{
    reveal(Seq::filter);
    assert(rows.push(row).drop_last() =~= rows);
}

/// At most one row is the first that meets `p`.
pub proof fn lemma_first_unique<T>(rows: Seq<T>, p: spec_fn(T) -> bool, i: int, j: int)
    requires
        is_first(rows, p, i),
        is_first(rows, p, j),
    ensures
        i == j,
{
}

/// If row `i` is the first that meets `p`, it is what [`first`] names.
pub proof fn lemma_first_is<T>(rows: Seq<T>, p: spec_fn(T) -> bool, i: int)
    requires
        is_first(rows, p, i),
    ensures
        any(rows, p),
        first(rows, p) == Some(rows[i]),
{
    let k = choose|k: int| is_first(rows, p, k);
    lemma_first_unique(rows, p, i, k);
}

/// Where some row meets `p`, one of them is the first, and that is the row
/// that [`first`] names.
pub proof fn lemma_any_has_first<T>(rows: Seq<T>, p: spec_fn(T) -> bool) -> (i: int)
    requires
        any(rows, p),
    ensures
        is_first(rows, p, i),
        first(rows, p) == Some(rows[i]),
    decreases rows.len(),
{
    let rest = rows.drop_last();
    let w = choose|w: int| 0 <= w < rows.len() && p(#[trigger] rows[w]);
    let i = if w < rows.len() - 1 {
        assert(p(rest[w]));
        let k = lemma_any_has_first(rest, p);
        assert forall|j: int| 0 <= j < k implies !p(#[trigger] rows[j]) by {
            assert(rows[j] == rest[j]);
        }
        assert(rows[k] == rest[k]);
        k
    } else if any(rest, p) {
        let k = lemma_any_has_first(rest, p);
        assert forall|j: int| 0 <= j < k implies !p(#[trigger] rows[j]) by {
            assert(rows[j] == rest[j]);
        }
        assert(rows[k] == rest[k]);
        k
    } else {
        assert forall|j: int| 0 <= j < w implies !p(#[trigger] rows[j]) by {
            assert(rows[j] == rest[j]);
        }
        w
    };
    lemma_first_is(rows, p, i);
    i
}

/// No row that meets `p` is left after the rows that meet `p` are removed,
/// and every other row stays.
pub proof fn lemma_without<T>(rows: Seq<T>, p: spec_fn(T) -> bool)
    ensures
        !any(without(rows, p), p),
        forall|q: spec_fn(T) -> bool|
            (forall|row: T| #[trigger] q(row) ==> !p(row)) ==> #[trigger] count(
                without(rows, p),
                q,
            ) == count(rows, q),
        without(rows, p).len() + count(rows, p) == rows.len(),
    decreases rows.len(),
{
    reveal(Seq::filter);
    if rows.len() > 0 {
        let rest = rows.drop_last();
        let last = rows.last();
        lemma_without(rest, p);
        assert(rows =~= rest.push(last));
        lemma_filter_push(rest, not(p), last);
        lemma_filter_push(rest, p, last);
        if any(without(rows, p), p) {
            let i = choose|i: int|
                0 <= i < without(rows, p).len() && p(#[trigger] without(rows, p)[i]);
            if i < without(rest, p).len() {
                assert(p(without(rest, p)[i]));
            }
        }
        assert forall|q: spec_fn(T) -> bool|
            (forall|row: T| #[trigger] q(row) ==> !p(row)) implies #[trigger] count(
            without(rows, p),
            q,
        ) == count(rows, q) by {
            lemma_filter_push(rest, q, last);
            assert(count(without(rest, p), q) == count(rest, q));
            if !p(last) {
                lemma_filter_push(without(rest, p), q, last);
            } else {
                assert(!q(last));
            }
        }
    }
}

/// A row that does not meet `p` is still there after the rows that meet
/// `p` are removed.
pub proof fn lemma_without_keeps<T>(rows: Seq<T>, p: spec_fn(T) -> bool, i: int)
    requires
        0 <= i < rows.len(),
        !p(rows[i]),
    ensures
        without(rows, p).contains(rows[i]),
{
    rows.lemma_filter_contains(not(p), i);
}

/// A change that leaves a condition `q` as it finds it leaves the number of
/// rows that meet `q` as it is.
pub proof fn lemma_count_updated_same<T>(
    rows: Seq<T>,
    p: spec_fn(T) -> bool,
    f: spec_fn(T) -> T,
    q: spec_fn(T) -> bool,
)
    requires
        forall|row: T| p(row) ==> q(#[trigger] f(row)) == q(row),
    ensures
        count(updated(rows, p, f), q) == count(rows, q),
    decreases rows.len(),
{
    reveal(Seq::filter);
    if rows.len() > 0 {
        let rest = rows.drop_last();
        lemma_count_updated_same(rest, p, f, q);
        assert(updated(rows, p, f).drop_last() =~= updated(rest, p, f));
        assert(updated(rows, p, f).last() == change_where(p, f)(rows.last()));
    }
}

/// A change that ends a condition `q` for every row it touches takes the
/// touched rows out of the count of `q`: what is left are the rows that met
/// `q` and were not touched.
pub proof fn lemma_count_updated_ends<T>(
    rows: Seq<T>,
    p: spec_fn(T) -> bool,
    f: spec_fn(T) -> T,
    q: spec_fn(T) -> bool,
)
    requires
        forall|row: T| p(row) ==> !q(#[trigger] f(row)),
    ensures
        count(updated(rows, p, f), q) + count(rows, |row: T| q(row) && p(row)) == count(rows, q),
    decreases rows.len(),
{
    reveal(Seq::filter);
    if rows.len() > 0 {
        let rest = rows.drop_last();
        lemma_count_updated_ends(rest, p, f, q);
        assert(updated(rows, p, f).drop_last() =~= updated(rest, p, f));
        assert(updated(rows, p, f).last() == change_where(p, f)(rows.last()));
    }
}

/// Whether some row of `rows` meets the condition `m`.
pub fn exists_where<T, M: Matcher<T>>(rows: &Vec<T>, m: &M) -> (r: bool)
    ensures
        r == any(rows@, m.pred()),
{
    let mut i: usize = 0;
    while i < rows.len()
        invariant
            i <= rows@.len(),
            forall|j: int| 0 <= j < i ==> !(m.pred())(#[trigger] rows@[j]),
        decreases rows@.len() - i,
    {
        if m.test(&rows[i]) {
            return true;
        }
        i += 1;
    }
    false
}

/// The position of the first row of `rows` that meets the condition `m`.
pub fn position_where<T, M: Matcher<T>>(rows: &Vec<T>, m: &M) -> (r: Option<usize>)
    ensures
        match r {
            Some(i) => is_first(rows@, m.pred(), i as int) && first(rows@, m.pred()) == Some(
                rows@[i as int],
            ),
            None => !any(rows@, m.pred()) && first(rows@, m.pred()) is None,
        },
{
    let mut i: usize = 0;
    while i < rows.len()
        invariant
            i <= rows@.len(),
            forall|j: int| 0 <= j < i ==> !(m.pred())(#[trigger] rows@[j]),
        decreases rows@.len() - i,
    {
        if m.test(&rows[i]) {
            proof {
                lemma_first_is(rows@, m.pred(), i as int);
            }
            return Some(i);
        }
        i += 1;
    }
    None
}

/// The number of rows of `rows` that meet the condition `m`.
pub fn count_where<T, M: Matcher<T>>(rows: &Vec<T>, m: &M) -> (r: usize)
    ensures
        r == count(rows@, m.pred()),
{
    let mut i: usize = 0;
    let mut n: usize = 0;
    while i < rows.len()
        invariant
            i <= rows@.len(),
            n <= i,
            n == count(rows@.take(i as int), m.pred()),
        decreases rows@.len() - i,
    {
        proof {
            lemma_filter_step(rows@, m.pred(), i as int);
        }
        if m.test(&rows[i]) {
            n += 1;
        }
        i += 1;
    }
    assert(rows@.take(rows@.len() as int) =~= rows@);
    n
}

/// Removes from `rows` the rows that meet the condition `m`, keeping the
/// others in order; returns how many were removed.
pub fn delete_where<T, M: Matcher<T>>(rows: &mut Vec<T>, m: &M) -> (removed: usize)
    ensures
        final(rows)@ == without(old(rows)@, m.pred()),
        removed == count(old(rows)@, m.pred()),
{
    let ghost orig = rows@;
    let ghost p = m.pred();
    let mut kept_reversed: Vec<T> = Vec::new();
    let mut removed: usize = 0;
    let total = rows.len();
    proof {
        assert(orig.len() == total);
        assert(orig.skip(orig.len() as int) =~= Seq::<T>::empty());
        reveal(Seq::filter);
    }
    while rows.len() > 0
        invariant
            p == m.pred(),
            rows@ == orig.take(rows@.len() as int),
            rows@.len() <= orig.len(),
            kept_reversed@.reverse() == without(orig.skip(rows@.len() as int), p),
            removed == count(orig.skip(rows@.len() as int), p),
            removed + rows@.len() <= orig.len(),
            orig.len() <= usize::MAX,
        decreases rows@.len(),
    {
        let ghost k = rows@.len() as int;
        let row = rows.pop().unwrap();
        proof {
            assert(row == orig[k - 1]);
            assert(orig.skip(k - 1) =~= seq![row] + orig.skip(k));
            Seq::filter_distributes_over_add(seq![row], orig.skip(k), p);
            Seq::filter_distributes_over_add(seq![row], orig.skip(k), not(p));
            lemma_filter_push(Seq::<T>::empty(), p, row);
            lemma_filter_push(Seq::<T>::empty(), not(p), row);
            assert(Seq::<T>::empty().push(row) =~= seq![row]);
            reveal(Seq::filter);
            assert(Seq::<T>::empty().filter(p) =~= Seq::<T>::empty());
            assert(Seq::<T>::empty().filter(not(p)) =~= Seq::<T>::empty());
            assert(rows@ =~= orig.take(k - 1));
        }
        if m.test(&row) {
            removed += 1;
            proof {
                assert(seq![row].filter(not(p)) =~= Seq::<T>::empty());
                assert(Seq::<T>::empty() + without(orig.skip(k), p) =~= without(orig.skip(k), p));
            }
        } else {
            let ghost before = kept_reversed@;
            kept_reversed.push(row);
            proof {
                assert(seq![row].filter(not(p)) =~= seq![row]);
                assert(seq![row].filter(p) =~= Seq::<T>::empty());
                assert(before.push(row).reverse() =~= seq![row] + before.reverse());
            }
        }
    }
    proof {
        assert(orig.skip(0) =~= orig);
    }
    let ghost kept = kept_reversed@.reverse();
    while kept_reversed.len() > 0
        invariant
            kept == without(orig, p),
            rows@ + kept_reversed@.reverse() == kept,
        decreases kept_reversed@.len(),
    {
        let ghost before = kept_reversed@;
        let ghost sofar = rows@;
        let row = kept_reversed.pop().unwrap();
        rows.push(row);
        proof {
            assert(before =~= kept_reversed@.push(row));
            assert(before.reverse() =~= seq![row] + kept_reversed@.reverse());
            assert(sofar.push(row) + kept_reversed@.reverse() =~= sofar + before.reverse());
        }
    }
    proof {
        assert(kept_reversed@.reverse() =~= Seq::<T>::empty());
        assert(rows@ + Seq::<T>::empty() =~= rows@);
    }
    removed
}

/// Applies the change `c` to each row of `rows` that meets the condition
/// `m`; returns how many rows were changed.
pub fn update_where<T, M: Matcher<T>, C: Patch<T>>(rows: &mut Vec<T>, m: &M, c: &C) -> (changed:
    usize)
    ensures
        final(rows)@ == updated(old(rows)@, m.pred(), c.change()),
        changed == count(old(rows)@, m.pred()),
{
    let ghost orig = rows@;
    let mut i: usize = 0;
    let mut changed: usize = 0;
    while i < rows.len()
        invariant
            rows@.len() == orig.len(),
            i <= rows@.len(),
            changed <= i,
            changed == count(orig.take(i as int), m.pred()),
            forall|j: int|
                0 <= j < i ==> #[trigger] rows@[j] == change_where(m.pred(), c.change())(orig[j]),
            forall|j: int| i <= j < orig.len() ==> #[trigger] rows@[j] == orig[j],
        decreases rows@.len() - i,
    {
        proof {
            lemma_filter_step(orig, m.pred(), i as int);
        }
        if m.test(&rows[i]) {
            c.apply(&mut rows[i]);
            changed += 1;
        }
        i += 1;
    }
    proof {
        assert(orig.take(orig.len() as int) =~= orig);
        assert(rows@ =~= updated(orig, m.pred(), c.change()));
    }
    changed
}

/// Rewrites each row of `rows` that meets the condition `m` as `c` says;
/// returns how many rows were rewritten.
pub fn rewrite_where<T, M: Matcher<T>, C: Rewrite<T>>(rows: &mut Vec<T>, m: &M, c: &C) -> (changed:
    usize)
    ensures
        rewritten(old(rows)@, final(rows)@, m.pred(), c.relates()),
        changed == count(old(rows)@, m.pred()),
{
    let ghost orig = rows@;
    let mut i: usize = 0;
    let mut changed: usize = 0;
    while i < rows.len()
        invariant
            rows@.len() == orig.len(),
            i <= rows@.len(),
            changed <= i,
            changed == count(orig.take(i as int), m.pred()),
            forall|j: int|
                0 <= j < i ==> if (m.pred())(orig[j]) {
                    (c.relates())(orig[j], #[trigger] rows@[j])
                } else {
                    rows@[j] == orig[j]
                },
            forall|j: int| i <= j < orig.len() ==> #[trigger] rows@[j] == orig[j],
        decreases rows@.len() - i,
    {
        proof {
            lemma_filter_step(orig, m.pred(), i as int);
        }
        if m.test(&rows[i]) {
            c.rewrite(&mut rows[i]);
            changed += 1;
        }
        i += 1;
    }
    proof {
        assert(orig.take(orig.len() as int) =~= orig);
    }
    changed
}

} // verus!
