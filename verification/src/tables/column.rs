//! Column definitions of the installer tables.

use vstd::prelude::*;
use crate::value::ValueView;

verus! {

/// The kind of data a string column holds.
#[derive(Clone, Copy, PartialEq, Eq, Structural)]
pub enum Category {
    Text,
    Identifier,
    Property,
    Filename,
    DefaultDir,
    RegPath,
    Formatted,
    Condition,
    Guid,
    Version,
    Language,
    CustomSource,
    Cabinet,
    Shortcut,
}

/// The storage type of a column.
#[derive(Clone, Copy, PartialEq, Eq, Structural)]
pub enum ColumnKind {
    /// A 16-bit integer.
    Int16,
    /// A 32-bit integer.
    Int32,
    /// A string of the given category, at most the given number of
    /// characters long (0 means unbounded).
    Str(Category, usize),
    /// A reference to a binary stream.
    Binary,
}

/// One column of an installer table.
pub struct ColumnSpec {
    pub name: String,
    pub kind: ColumnKind,
    pub primary_key: bool,
    pub nullable: bool,
    pub localizable: bool,
}

/// A column, as a mathematical value.
pub struct ColumnView {
    pub name: Seq<char>,
    pub kind: ColumnKind,
    pub primary_key: bool,
    pub nullable: bool,
    pub localizable: bool,
}

impl View for ColumnSpec {
    type V = ColumnView;

    open spec fn view(&self) -> ColumnView {
        ColumnView {
            name: self.name@,
            kind: self.kind,
            primary_key: self.primary_key,
            nullable: self.nullable,
            localizable: self.localizable,
        }
    }
}

/// The columns of a table, as mathematical values.
pub open spec fn columns_view(cols: Seq<ColumnSpec>) -> Seq<ColumnView> {
    cols.map_values(|c: ColumnSpec| c@)
}

/// `name` names exactly one column of `cols`: the one at position `k`.
pub open spec fn column_at(cols: Seq<ColumnView>, name: Seq<char>, k: int) -> bool {
    &&& 0 <= k < cols.len()
    &&& cols[k].name == name
    &&& forall|j: int| 0 <= j < cols.len() && j != k ==> (#[trigger] cols[j]).name != name
}

/// The row `row` has one cell per column of `cols`, and the cell under the
/// one column named `name` holds `v`.
pub open spec fn cell_under(row: Seq<ValueView>, cols: Seq<ColumnView>, name: Seq<char>, v: ValueView) -> bool {
    &&& row.len() == cols.len()
    &&& exists|k: int| #[trigger] column_at(cols, name, k) && row[k] == v
}

/// A column description.
pub open spec fn col(
    name: Seq<char>,
    kind: ColumnKind,
    primary_key: bool,
    nullable: bool,
    localizable: bool,
) -> ColumnView {
    ColumnView { name, kind, primary_key, nullable, localizable }
}

/// Builds a column.
pub fn column(
    name: &str,
    kind: ColumnKind,
    primary_key: bool,
    nullable: bool,
    localizable: bool,
) -> (r: ColumnSpec)
    ensures
        r@ == col(name@, kind, primary_key, nullable, localizable),
{
    ColumnSpec { name: crate::text::owned(name), kind, primary_key, nullable, localizable }
}

/// The positions of the primary key columns, in column order.
pub open spec fn primary_key_positions(cols: Seq<ColumnView>) -> Seq<usize>
    decreases cols.len(),
{
    if cols.len() == 0 {
        Seq::empty()
    } else {
        let rest = primary_key_positions(cols.drop_last());
        if cols.last().primary_key {
            rest.push((cols.len() - 1) as usize)
        } else {
            rest
        }
    }
}

} // verus!
