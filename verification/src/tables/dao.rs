//! The traits shared by the entries of the installer tables and by the
//! tables that hold them.

use vstd::prelude::*;
use crate::error::MsiBuilderError;
use crate::identifier::Identifier;
use crate::tables::column::{ColumnSpec, ColumnView, columns_view, primary_key_positions};
use crate::value::{Value, ValueView, row_view, value_lt, value_less, lemma_value_lt_irreflexive, lemma_value_lt_transitive};

verus! {

/// An entry that may conflict with another entry of its table.
pub trait MsiBuilderListEntry: Sized {
    /// Whether `self` conflicts with `other`: the two cannot stand in one
    /// table together.
    spec fn conflicts_spec(&self, other: &Self) -> bool;

    fn conflicts(&self, other: &Self) -> (r: bool)
        ensures
            r == self.conflicts_spec(other),
    ;
}

/// An entry that becomes one row of its table.
pub trait IsDao: Sized {
    /// The row that the entry becomes.
    spec fn row_spec(&self) -> Seq<ValueView>;

    fn to_row(&self) -> (r: Vec<Value>)
        ensures
            row_view(r@) == self.row_spec(),
    ;
}

/// An entry whose key must be unique across the whole package.
pub trait ToUniqueMsiIdentifier: Sized {
    /// The key that must be unique, if the entry has one.
    spec fn unique_id_spec(&self) -> Option<Seq<char>>;

    fn to_unique_msi_identifier(&self) -> (r: Option<Identifier>)
        ensures
            match r {
                Some(id) => self.unique_id_spec() == Some(id@),
                None => self.unique_id_spec() is None,
            },
    ;
}

/// Whether `x` conflicts with an entry of `s`.
pub open spec fn any_conflict<D: MsiBuilderListEntry>(s: Seq<D>, x: D) -> bool {
    exists|i: int| 0 <= i < s.len() && #[trigger] s[i].conflicts_spec(&x)
}

/// No entry of `s` conflicts with an entry that follows it.
pub open spec fn conflict_free<D: MsiBuilderListEntry>(s: Seq<D>) -> bool {
    forall|i: int, j: int| 0 <= i < j < s.len() ==> !#[trigger] s[i].conflicts_spec(&#[trigger] s[j])
}

/// The entries after adding each of `xs` to `s` in turn, stopping at the
/// first that conflicts, and whether none conflicted.
pub open spec fn add_all_result<D: MsiBuilderListEntry>(s: Seq<D>, xs: Seq<D>) -> (Seq<D>, bool)
    decreases xs.len(),
{
    if xs.len() == 0 {
        (s, true)
    } else if any_conflict(s, xs[0]) {
        (s, false)
    } else {
        add_all_result(s.push(xs[0]), xs.drop_first())
    }
}

/// Adding entries in turn, each only when it conflicts with no entry
/// already present, keeps a table free of conflicts.
pub proof fn lemma_add_all_keeps_conflict_free<D: MsiBuilderListEntry>(s: Seq<D>, xs: Seq<D>)
    requires
        conflict_free(s),
    ensures
        conflict_free(add_all_result(s, xs).0),
    decreases xs.len(),
{
    if xs.len() > 0 && !any_conflict(s, xs[0]) {
        let t = s.push(xs[0]);
        assert forall|i: int, j: int| 0 <= i < j < t.len() implies !#[trigger] t[i].conflicts_spec(&#[trigger] t[j]) by {
            if j == s.len() {
                assert(t[i] == s[i]);
                assert(!s[i].conflicts_spec(&xs[0]));
            } else {
                assert(t[i] == s[i] && t[j] == s[j]);
            }
        }
        lemma_add_all_keeps_conflict_free(t, xs.drop_first());
    }
}

/// A table: a list of entries that do not conflict with each other.
pub trait DaoContainer: Sized {
    type Dao: MsiBuilderListEntry;

    /// The entries, in the order they were added.
    spec fn entries_spec(&self) -> Seq<Self::Dao>;

    fn entries(&self) -> (r: &Vec<Self::Dao>)
        ensures
            r@ == self.entries_spec(),
    ;

    /// Appends an entry without any check.
    fn push_entry(&mut self, entry: Self::Dao)
        ensures
            final(self).entries_spec() == old(self).entries_spec().push(entry),
    ;

    /// Whether the table has no entries.
    fn is_empty(&self) -> (r: bool)
        ensures
            r == (self.entries_spec().len() == 0),
    {
        self.entries().len() == 0
    }

    /// The number of entries.
    fn len(&self) -> (r: usize)
        ensures
            r == self.entries_spec().len(),
    {
        self.entries().len()
    }

    /// Whether `other` conflicts with an entry of the table.
    fn contains(&self, other: &Self::Dao) -> (r: bool)
        ensures
            r == any_conflict(self.entries_spec(), *other),
    {
        let entries = self.entries();
        let mut i: usize = 0;
        while i < entries.len()
            invariant
                entries@ == self.entries_spec(),
                i <= entries.len(),
                forall|k: int| 0 <= k < i ==> !(#[trigger] entries@[k]).conflicts_spec(other),
            decreases entries.len() - i,
        {
            if entries[i].conflicts(other) {
                return true;
            }
            i = i + 1;
        }
        false
    }

    /// Adds an entry unless it conflicts with one already present.
    fn add(&mut self, entry: Self::Dao) -> (r: Result<(), MsiBuilderError>)
        ensures
            r is Ok <==> !any_conflict(old(self).entries_spec(), entry),
            r is Ok ==> final(self).entries_spec() == old(self).entries_spec().push(entry),
            r matches Err(e) ==> e is EntryConflict && final(self).entries_spec() == old(self).entries_spec(),
    {
        if self.contains(&entry) {
            return Err(MsiBuilderError::EntryConflict);
        }
        self.push_entry(entry);
        Ok(())
    }

    /// Adds the entries in turn, stopping at the first that conflicts; the
    /// entries added before it stay.
    fn add_all(&mut self, entries: Vec<Self::Dao>) -> (r: Result<(), MsiBuilderError>)
        ensures
            final(self).entries_spec() == add_all_result(old(self).entries_spec(), entries@).0,
            r is Ok <==> add_all_result(old(self).entries_spec(), entries@).1,
            r matches Err(e) ==> e is EntryConflict,
    {
        let ghost all = entries@;
        let mut rest = entries;
        let ghost mut k: int = 0;
        while rest.len() > 0
            invariant
                all == entries@,
                0 <= k <= all.len(),
                rest@ == all.skip(k),
                add_all_result(old(self).entries_spec(), all)
                    == add_all_result(self.entries_spec(), rest@),
            decreases rest.len(),
        {
            assert(add_all_result(old(self).entries_spec(), all) == add_all_result(self.entries_spec(), all.skip(k)));
            let entry = rest.remove(0);
            let ghost before = self.entries_spec();
            let ghost rest_before = all.skip(k);
            assert(rest_before.drop_first() =~= all.skip(k + 1));
            let added = self.add(entry);
            if added.is_err() {
                assert(rest_before[0] == entry);
                assert(add_all_result(before, rest_before) == (before, false));
                assert(self.entries_spec() == before);
                assert(add_all_result(old(self).entries_spec(), all) == (before, false));
                assert(self.entries_spec() == add_all_result(old(self).entries_spec(), all).0);
                assert(!add_all_result(old(self).entries_spec(), all).1);
                return added;
            }
            proof {
                k = k + 1;
            }
            assert(rest@ =~= all.skip(k));
        }
        assert(rest@ =~= Seq::<Self::Dao>::empty());
        Ok(())
    }
}

/// The rows, as mathematical values.
pub open spec fn rows_view(rows: Seq<Vec<Value>>) -> Seq<Seq<ValueView>> {
    rows.map_values(|r: Vec<Value>| row_view(r@))
}

/// The cell by which rows are ordered: the first one.
pub open spec fn row_key(row: Seq<ValueView>) -> ValueView {
    if row.len() == 0 {
        ValueView::Null
    } else {
        row[0]
    }
}

/// Where `row` goes in the ordered rows `sorted`: after every row whose key
/// does not come after its key.
pub open spec fn insert_position(sorted: Seq<Seq<ValueView>>, row: Seq<ValueView>) -> nat
    decreases sorted.len(),
{
    if sorted.len() == 0 {
        0
    } else if value_lt(row_key(row), row_key(sorted[0])) {
        0
    } else {
        1 + insert_position(sorted.drop_first(), row)
    }
}

/// The rows ordered by their first cell; rows with equal first cells keep
/// their order.
pub open spec fn sort_rows(rows: Seq<Seq<ValueView>>) -> Seq<Seq<ValueView>>
    decreases rows.len(),
{
    if rows.len() == 0 {
        rows
    } else {
        let sorted = sort_rows(rows.drop_last());
        sorted.insert(insert_position(sorted, rows.last()) as int, rows.last())
    }
}

/// Every row comes before the row where `row` is inserted, and `row`
/// comes before the row at that place.
proof fn lemma_insert_position(sorted: Seq<Seq<ValueView>>, row: Seq<ValueView>)
    ensures
        insert_position(sorted, row) <= sorted.len(),
        forall|k: int| 0 <= k < insert_position(sorted, row) ==> !value_lt(row_key(row), row_key(#[trigger] sorted[k])),
        insert_position(sorted, row) < sorted.len() ==> value_lt(row_key(row), row_key(sorted[insert_position(sorted, row) as int])),
    decreases sorted.len(),
{
    if sorted.len() > 0 && !value_lt(row_key(row), row_key(sorted[0])) {
        let rest = sorted.drop_first();
        lemma_insert_position(rest, row);
        assert forall|k: int| 0 <= k < insert_position(sorted, row) implies !value_lt(row_key(row), row_key(#[trigger] sorted[k])) by {
            if k > 0 {
                assert(sorted[k] == rest[k - 1]);
            }
        }
        if insert_position(sorted, row) < sorted.len() {
            assert(sorted[insert_position(sorted, row) as int] == rest[insert_position(rest, row) as int]);
        }
    }
}

/// The rows are ordered by their first cell: no row's first cell comes
/// before that of a row above it.
pub open spec fn rows_sorted(rows: Seq<Seq<ValueView>>) -> bool {
    forall|i: int, j: int| 0 <= i < j < rows.len() ==> !value_lt(row_key(#[trigger] rows[j]), row_key(#[trigger] rows[i]))
}

/// The rows a table writes come ordered by their first cell, one row for
/// each entry.
pub proof fn lemma_sort_rows_sorted(rows: Seq<Seq<ValueView>>)
    ensures
        rows_sorted(sort_rows(rows)),
        sort_rows(rows).len() == rows.len(),
    decreases rows.len(),
{
    if rows.len() > 0 {
        let sorted = sort_rows(rows.drop_last());
        let x = rows.last();
        lemma_sort_rows_sorted(rows.drop_last());
        lemma_insert_position(sorted, x);
        let pos = insert_position(sorted, x) as int;
        let r = sorted.insert(pos, x);
        assert forall|i: int, j: int| 0 <= i < j < r.len() implies !value_lt(row_key(#[trigger] r[j]), row_key(#[trigger] r[i])) by {
            if j < pos {
                assert(r[i] == sorted[i] && r[j] == sorted[j]);
            } else if j == pos {
                assert(r[i] == sorted[i]);
            } else if i == pos {
                assert(r[j] == sorted[j - 1]);
                if value_lt(row_key(sorted[j - 1]), row_key(x)) {
                    lemma_value_lt_transitive(row_key(sorted[j - 1]), row_key(x), row_key(sorted[pos]));
                    if j - 1 == pos {
                        lemma_value_lt_irreflexive(row_key(sorted[pos]));
                    }
                }
            } else if i < pos {
                assert(r[i] == sorted[i] && r[j] == sorted[j - 1]);
            } else {
                assert(r[i] == sorted[i - 1] && r[j] == sorted[j - 1]);
            }
        }
    }
}

/// Whether the first cell of `a` comes before the first cell of `b`.
fn row_less(a: &Vec<Value>, b: &Vec<Value>) -> (r: bool)
    ensures
        r == value_lt(row_key(row_view(a@)), row_key(row_view(b@))),
{
    let null = Value::Null;
    let ka = if a.len() == 0 { &null } else { &a[0] };
    let kb = if b.len() == 0 { &null } else { &b[0] };
    value_less(ka, kb)
}

/// Inserts `row` into the ordered rows `sorted` after every row whose first
/// cell does not come after its first cell.
fn insert_row(sorted: &mut Vec<Vec<Value>>, row: Vec<Value>)
    ensures
        rows_view(final(sorted)@) == rows_view(old(sorted)@).insert(
            insert_position(rows_view(old(sorted)@), row_view(row@)) as int,
            row_view(row@),
        ),
{
    let ghost s = rows_view(sorted@);
    let ghost x = row_view(row@);
    let mut p: usize = 0;
    assert(s.skip(0) =~= s);
    while p < sorted.len() && !row_less(&row, &sorted[p])
        invariant
            s == rows_view(sorted@),
            x == row_view(row@),
            p <= sorted.len(),
            insert_position(s, x) == p + insert_position(s.skip(p as int), x),
        decreases sorted.len() - p,
    {
        assert(s.skip(p as int)[0] == s[p as int]);
        assert(s.skip(p as int).drop_first() =~= s.skip(p + 1));
        p = p + 1;
    }
    if p < sorted.len() {
        assert(s.skip(p as int)[0] == s[p as int]);
    } else {
        assert(s.skip(p as int) =~= Seq::<Seq<ValueView>>::empty());
    }
    sorted.insert(p, row);
    assert(rows_view(sorted@) =~= s.insert(p as int, x));
}

/// The columns of a table and the rows its entries become.
pub trait PackageWriter: DaoContainer where Self::Dao: IsDao {
    /// The name of the table.
    spec fn name_spec() -> Seq<char>;

    /// The columns of the table.
    spec fn columns_spec() -> Seq<ColumnView>;

    fn name(&self) -> (r: &'static str)
        ensures
            r@ == Self::name_spec(),
    ;

    fn columns(&self) -> (r: Vec<ColumnSpec>)
        ensures
            columns_view(r@) == Self::columns_spec(),
    ;

    /// Every entry becomes a row with one cell per column.
    proof fn lemma_row_arity(entry: &Self::Dao)
        ensures
            entry.row_spec().len() == Self::columns_spec().len(),
    ;

    /// The positions of the primary key columns.
    fn primary_key_indices(&self) -> (r: Vec<usize>)
        ensures
            r@ == primary_key_positions(Self::columns_spec()),
    {
        let cols = self.columns();
        let ghost cv = columns_view(cols@);
        let mut r: Vec<usize> = Vec::new();
        let mut i: usize = 0;
        while i < cols.len()
            invariant
                cv == columns_view(cols@),
                cv == Self::columns_spec(),
                i <= cols.len(),
                r@ == primary_key_positions(cv.take(i as int)),
            decreases cols.len() - i,
        {
            assert(cv.take(i + 1).drop_last() =~= cv.take(i as int));
            if cols[i].primary_key {
                r.push(i);
            }
            i = i + 1;
        }
        assert(cv.take(cols.len() as int) =~= cv);
        r
    }

    /// The rows of all entries, ordered by their first cell; rows with equal
    /// first cells keep the order in which their entries were added.
    fn rows(&self) -> (r: Vec<Vec<Value>>)
        ensures
            rows_view(r@) == sort_rows(self.entries_spec().map_values(|d: Self::Dao| d.row_spec())),
    {
        let entries = self.entries();
        let ghost specs = entries@.map_values(|d: Self::Dao| d.row_spec());
        let mut sorted: Vec<Vec<Value>> = Vec::new();
        let mut i: usize = 0;
        assert(specs.take(0) =~= Seq::<Seq<ValueView>>::empty());
        assert(rows_view(sorted@) =~= Seq::<Seq<ValueView>>::empty());
        while i < entries.len()
            invariant
                entries@ == self.entries_spec(),
                specs == entries@.map_values(|d: Self::Dao| d.row_spec()),
                i <= entries.len(),
                rows_view(sorted@) == sort_rows(specs.take(i as int)),
            decreases entries.len() - i,
        {
            let row = entries[i].to_row();
            insert_row(&mut sorted, row);
            assert(specs.take(i + 1).drop_last() =~= specs.take(i as int));
            assert(specs.take(i + 1).last() == specs[i as int]);
            i = i + 1;
        }
        assert(specs.take(entries.len() as int) =~= specs);
        sorted
    }
}

} // verus!
