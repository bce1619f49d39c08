use vstd::prelude::*;

verus! {

/// The number of tiles per row: the requested count, and at least one.
pub open spec fn row_width(columns: nat) -> nat {
    if columns == 0 { 1 } else { columns }
}

/// Row `i` of the tiles `items` laid out `width` to a row.
pub open spec fn panel_row<T>(items: Seq<T>, width: nat, i: int) -> Seq<T> {
    let start = i * width;
    let end = if (i + 1) * width <= items.len() { (i + 1) * width } else { items.len() as int };
    items.subrange(start, end)
}

/// The number of rows needed for `n` tiles, `width` to a row.
pub open spec fn row_count(n: nat, width: nat) -> nat
    recommends
        width > 0,
{
    ((n + width - 1) as nat) / width
}

/// Lays out indicator tiles in rows of `columns` (at least one) tiles, in order:
/// every row is full but the last, which holds what is left.
pub fn panel_rows<T: Copy>(items: &[T], columns: usize) -> (rows: Vec<Vec<T>>)
    ensures
        rows.len() == row_count(items@.len(), row_width(columns as nat)),
        forall|i: int|
            0 <= i < rows.len() ==> #[trigger] rows[i]@ == panel_row(
                items@,
                row_width(columns as nat),
                i,
            ),
{
    let width: usize = if columns == 0 { 1 } else { columns };
    let n = items.len();
    let mut rows: Vec<Vec<T>> = Vec::new();
    let mut start: usize = 0;
    assert(rows.len() * width == 0) by (nonlinear_arith)
        requires
            rows.len() == 0,
    ;
    while start < n
        invariant
            width == row_width(columns as nat),
            width > 0,
            n == items@.len(),
            start <= n,
            start < n ==> start == rows.len() * width,
            start == n ==> rows.len() * width >= n,
            rows.len() > 0 ==> (rows.len() - 1) * width < n,
            forall|i: int|
                0 <= i < rows.len() ==> #[trigger] rows[i]@ == panel_row(items@, width as nat, i),
        decreases n - start,
    {
        let end: usize = if n - start >= width { start + width } else { n };
        let mut row: Vec<T> = Vec::new();
        let mut k: usize = start;
        while k < end
            invariant
                start <= k <= end <= n,
                n == items@.len(),
                row@ == items@.subrange(start as int, k as int),
            decreases end - k,
        {
            row.push(items[k]);
            k = k + 1;
            assert(row@ =~= items@.subrange(start as int, k as int));
        }
        let ghost r = rows.len() as int;
        assert((r + 1) * width == start + width) by (nonlinear_arith)
            requires
                start == r * width,
        ;
        rows.push(row);
        start = end;
        assert(rows[r]@ == panel_row(items@, width as nat, r));
    }
    proof {
        lemma_row_count(n as nat, width as nat, rows.len() as nat);
    }
    rows
}

/// A count of rows that covers `n` tiles, with its last row not empty, is the
/// ceiling of `n / width`.
proof fn lemma_row_count(n: nat, width: nat, rows: nat)
    requires
        width > 0,
        rows * width >= n,
        rows > 0 ==> (rows - 1) * width < n,
        rows == 0 ==> n == 0,
    ensures
        rows == row_count(n, width),
{
    let c = row_count(n, width);
    if rows == 0 {
        assert(c == 0) by (nonlinear_arith)
            requires
                c == ((n + width - 1) as nat) / width,
                n == 0,
                width > 0,
        ;
    } else {
        assert(rows == c) by (nonlinear_arith)
            requires
                c == ((n + width - 1) as nat) / width,
                rows * width >= n,
                (rows - 1) * width < n,
                width > 0,
                rows > 0,
        ;
    }
}

/// The rows needed for `n` tiles cover them, and the last row is not empty.
proof fn lemma_row_count_bounds(n: nat, width: nat)
    requires
        width > 0,
    ensures
        row_count(n, width) * width >= n,
        row_count(n, width) > 0 ==> (row_count(n, width) - 1) * width < n,
{
    let c = row_count(n, width);
    assert(c * width >= n && (c > 0 ==> (c - 1) * width < n)) by (nonlinear_arith)
        requires
            c == ((n + width - 1) as nat) / width,
            width > 0,
    ;
}

/// The first `k` rows, read one after another, are the first tiles.
proof fn lemma_rows_prefix<T>(items: Seq<T>, width: nat, rows: Seq<Seq<T>>, k: nat)
    requires
        width > 0,
        rows.len() == row_count(items.len(), width),
        forall|i: int| 0 <= i < rows.len() ==> #[trigger] rows[i] == panel_row(items, width, i),
        k <= rows.len(),
    ensures
        rows.take(k as int).flatten_alt() == items.subrange(
            0,
            if k * width <= items.len() { (k * width) as int } else { items.len() as int },
        ),
    decreases k,
{
    lemma_row_count_bounds(items.len(), width);
    if k == 0 {
        assert(k * width == 0) by (nonlinear_arith)
            requires
                k == 0,
        ;
        assert(rows.take(0) =~= Seq::<Seq<T>>::empty());
        assert(items.subrange(0, 0) =~= Seq::<T>::empty());
    } else {
        let j = (k - 1) as nat;
        lemma_rows_prefix(items, width, rows, j);
        assert(j * width < items.len()) by (nonlinear_arith)
            requires
                j < rows.len(),
                rows.len() > 0 ==> (rows.len() - 1) * width < items.len(),
                width > 0,
        ;
        assert(k * width == j * width + width) by (nonlinear_arith)
            requires
                k == j + 1,
        ;
        let t = rows.take(k as int);
        assert(t.drop_last() =~= rows.take(j as int));
        assert(t.last() == rows[j as int]);
        let end = if k * width <= items.len() { (k * width) as int } else { items.len() as int };
        assert(rows[j as int] == items.subrange((j * width) as int, end));
        assert(t.flatten_alt() == t.drop_last().flatten_alt() + t.last());
        assert(items.subrange(0, (j * width) as int) + items.subrange((j * width) as int, end)
            =~= items.subrange(0, end));
    }
}

/// Read one after another, the rows of a panel give back every tile exactly
/// once, in the order given.
pub proof fn lemma_panel_rows_cover<T>(items: Seq<T>, width: nat, rows: Seq<Seq<T>>)
    requires
        width > 0,
        rows.len() == row_count(items.len(), width),
        forall|i: int| 0 <= i < rows.len() ==> #[trigger] rows[i] == panel_row(items, width, i),
    ensures
        rows.flatten() == items,
{
    lemma_row_count_bounds(items.len(), width);
    lemma_rows_prefix(items, width, rows, rows.len());
    assert(rows.take(rows.len() as int) =~= rows);
    assert(items.subrange(0, items.len() as int) =~= items);
    rows.lemma_flatten_and_flatten_alt_are_equivalent();
}

} // verus!
