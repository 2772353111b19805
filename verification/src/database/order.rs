//! Reading rows out of a table: selecting copies of the rows that meet a
//! condition, putting them in an order, and cutting out a page.
use vstd::prelude::*;
use crate::database::table::{lemma_filter_step, Matcher};

verus! {

/// A row type whose values can be copied.
pub trait Row: Sized {
    /// A copy of this row.
    fn copy(&self) -> (r: Self)
        ensures
            r == *self,
    ;
}

/// An order in which rows are listed. Rows that the order does not tell
/// apart may come either way round.
pub trait Order<T> {
    /// Whether `a` may come before `b`.
    spec fn before(&self) -> spec_fn(T, T) -> bool;

    /// Of two rows one may come before the other.
    proof fn total(&self, a: T, b: T)
        ensures
            (self.before())(a, b) || (self.before())(b, a),
    ;

    /// If `a` may come before `b` and `b` before `c`, then `a` may come
    /// before `c`.
    proof fn transitive(&self, a: T, b: T, c: T)
        requires
            (self.before())(a, b),
            (self.before())(b, c),
        ensures
            (self.before())(a, c),
    ;

    /// Whether `a` may come before `b`.
    fn precedes(&self, a: &T, b: &T) -> (r: bool)
        ensures
            r == (self.before())(*a, *b),
    ;
}

/// Every row of `rows` may come before every later one.
pub open spec fn sorted<T>(rows: Seq<T>, before: spec_fn(T, T) -> bool) -> bool {
    forall|i: int, j: int| 0 <= i < j < rows.len() ==> before(rows[i], rows[j])
}

/// `listed` holds the rows of `rows`, each as often as `rows` does, in the
/// order `before`.
pub open spec fn is_sorting<T>(rows: Seq<T>, listed: Seq<T>, before: spec_fn(T, T) -> bool) -> bool {
    sorted(listed, before) && listed.to_multiset() == rows.to_multiset()
}

/// The start of the page that skips `offset` rows of `len`: a negative
/// offset skips none, one beyond the end skips all.
pub open spec fn page_start(len: int, offset: i64) -> int {
    if offset < 0 {
        0
    } else if offset > len {
        len
    } else {
        offset as int
    }
}

/// The end of the page of at most `limit` rows that starts at `start`: a
/// negative limit means no limit.
pub open spec fn page_end(len: int, start: int, limit: i64) -> int {
    if limit < 0 || start + limit > len {
        len
    } else {
        start + limit
    }
}

/// The page of `rows` that skips `offset` rows and holds at most `limit`.
pub open spec fn page<T>(rows: Seq<T>, limit: i64, offset: i64) -> Seq<T> {
    let start = page_start(rows.len() as int, offset);
    rows.subrange(start, page_end(rows.len() as int, start, limit))
}

/// Copies of the rows of `rows` that meet the condition `m`, in table order.
pub fn select_where<T: Row, M: Matcher<T>>(rows: &Vec<T>, m: &M) -> (r: Vec<T>)
    ensures
        r@ == rows@.filter(m.pred()),
{
    let mut out: Vec<T> = Vec::new();
    let mut i: usize = 0;
    proof {
        reveal(Seq::filter);
        assert(rows@.take(0) =~= Seq::<T>::empty());
    }
    while i < rows.len()
        invariant
            i <= rows@.len(),
            out@ == rows@.take(i as int).filter(m.pred()),
        decreases rows@.len() - i,
    {
        proof {
            lemma_filter_step(rows@, m.pred(), i as int);
        }
        if m.test(&rows[i]) {
            out.push(rows[i].copy());
        }
        i += 1;
    }
    proof {
        assert(rows@.take(rows@.len() as int) =~= rows@);
    }
    out
}

/// Inserting a row into a sequence adds it to the rows that the sequence
/// holds.
pub proof fn lemma_insert_to_multiset<T>(rows: Seq<T>, i: int, row: T)
    requires
        0 <= i <= rows.len(),
    ensures
        rows.insert(i, row).to_multiset() =~= rows.to_multiset().insert(row),
{
    let grown = rows.insert(i, row);
    grown.to_multiset_ensures();
    assert(grown.remove(i) =~= rows);
    assert(grown[i] == row);
    assert(grown.contains(row));
    assert(grown.to_multiset().count(row) > 0);
    assert(rows.to_multiset() =~= grown.to_multiset().remove(row));
    assert(grown.to_multiset() =~= rows.to_multiset().insert(row));
}

/// Puts `rows` in the order `o`.
pub fn sort_by<T, O: Order<T>>(rows: Vec<T>, o: &O) -> (r: Vec<T>)
    ensures
        is_sorting(rows@, r@, o.before()),
{
    let ghost orig = rows@;
    let mut rest = rows;
    let mut out: Vec<T> = Vec::new();
    proof {
        out@.to_multiset_ensures();
        vstd::multiset::lemma_multiset_empty_len(out@.to_multiset());
    }
    while rest.len() > 0
        invariant
            sorted(out@, o.before()),
            out@.to_multiset().add(rest@.to_multiset()) =~= orig.to_multiset(),
        decreases rest@.len(),
    {
        let ghost rest_before = rest@;
        let ghost out_before = out@;
        let row = rest.pop().unwrap();
        let mut j: usize = 0;
        while j < out.len() && o.precedes(&out[j], &row)
            invariant
                j <= out@.len(),
                out@ == out_before,
                forall|k: int| 0 <= k < j ==> (o.before())(#[trigger] out@[k], row),
            decreases out@.len() - j,
        {
            j += 1;
        }
        out.insert(j, row);
        proof {
            lemma_insert_to_multiset(out_before, j as int, row);
            rest@.to_multiset_ensures();
            assert(rest_before =~= rest@.push(row));
            assert forall|a: int, b: int| 0 <= a < b < out@.len() implies (o.before())(
                out@[a],
                out@[b],
            ) by {
                if b == j {
                    assert(out@[a] == out_before[a]);
                } else if a == j {
                    o.total(out_before[j as int], row);
                    if b > j + 1 {
                        o.transitive(row, out_before[j as int], out_before[b - 1]);
                    }
                } else {
                    let a0 = if a < j { a } else { a - 1 };
                    let b0 = if b < j { b } else { b - 1 };
                    assert(out@[a] == out_before[a0]);
                    assert(out@[b] == out_before[b0]);
                }
            }
        }
    }
    proof {
        rest@.to_multiset_ensures();
        vstd::multiset::lemma_multiset_empty_len(rest@.to_multiset());
        assert(out@.to_multiset().add(rest@.to_multiset()) =~= out@.to_multiset());
    }
    out
}

/// Cuts the page that skips `offset` rows and holds at most `limit` out of
/// `rows`.
pub fn take_page<T>(rows: Vec<T>, limit: i64, offset: i64) -> (r: Vec<T>)
    ensures
        r@ == page(rows@, limit, offset),
{
    let ghost orig = rows@;
    let mut rows = rows;
    let len = rows.len();
    let start: usize = if offset < 0 {
        0
    } else if (offset as u64) > (len as u64) {
        len
    } else {
        offset as usize
    };
    let mut tail = rows.split_off(start);
    if limit >= 0 && (limit as u64) < (tail.len() as u64) {
        tail.truncate(limit as usize);
    }
    proof {
        assert(tail@ =~= page(orig, limit, offset));
    }
    tail
}

} // verus!
