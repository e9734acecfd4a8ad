//! The Icon table: the icons of shortcuts and of the product.

use vstd::prelude::*;
use vstd::string::*;
use crate::identifier::{Identifier, opt_id_value, opt_id_view, IconIdentifier};
use crate::tables::column::{Category, ColumnKind, ColumnSpec, ColumnView, col, column, columns_view, cell_under, column_at};
use crate::tables::dao::{DaoContainer, IsDao, MsiBuilderListEntry, PackageWriter, ToUniqueMsiIdentifier};
use crate::value::{Value, ValueView, row_view, opt_str_value, opt_str_view, i16_value, opt_i16_value, opt_i32_value, opt_int_view};
use crate::constants::{DEFAULT_IDENTIFIER_MAX_LEN};

verus! {

/// One icon. Its image goes into a stream of its own, named after the
/// table and the icon's key; the row refers to that stream.
pub struct IconDao {
    pub name: IconIdentifier,
}

impl IconDao {
    /// The icon keyed `name`.
    pub fn new(name: IconIdentifier) -> (r: IconDao)
        ensures
            r.name == name,
    {
        IconDao { name }
    }
}

impl IsDao for IconDao {
    open spec fn row_spec(&self) -> Seq<ValueView> {
        seq![
            ValueView::Str(self.name@),
            ValueView::Binary,
        ]
    }

    fn to_row(&self) -> (r: Vec<Value>) {
        let r = vec![
            self.name.to_value(),
            Value::Binary,
        ];
        assert(row_view(r@) =~= self.row_spec());
        r
    }
}

impl MsiBuilderListEntry for IconDao {
    /// Two icons conflict when they have the same key.
    open spec fn conflicts_spec(&self, other: &Self) -> bool {
        self.name@ == other.name@
    }

    fn conflicts(&self, other: &Self) -> (r: bool) {
        self.name.same(&other.name)
    }
}

impl ToUniqueMsiIdentifier for IconDao {
    open spec fn unique_id_spec(&self) -> Option<Seq<char>> {
        Some(self.name@)
    }

    fn to_unique_msi_identifier(&self) -> (r: Option<Identifier>) {
        Some(self.name.clone())
    }
}

/// The Icon table.
pub struct IconTable {
    entries: Vec<IconDao>,
}

impl IconTable {
    /// An empty table.
    pub fn new() -> (r: IconTable)
        ensures
            r.entries_spec() == Seq::<IconDao>::empty(),
    {
        IconTable { entries: Vec::new() }
    }
}

impl DaoContainer for IconTable {
    type Dao = IconDao;

    closed spec fn entries_spec(&self) -> Seq<IconDao> {
        self.entries@
    }

    fn entries(&self) -> (r: &Vec<IconDao>) {
        &self.entries
    }

    fn push_entry(&mut self, entry: IconDao) {
        self.entries.push(entry);
    }
}

impl PackageWriter for IconTable {
    open spec fn name_spec() -> Seq<char> {
        "Icon"@
    }

    open spec fn columns_spec() -> Seq<ColumnView> {
        seq![
            col("Name"@, ColumnKind::Str(Category::Identifier, DEFAULT_IDENTIFIER_MAX_LEN), true, false, false),
            col("Data"@, ColumnKind::Binary, false, false, false),
        ]
    }

    fn name(&self) -> (r: &'static str) {
        "Icon"
    }

    fn columns(&self) -> (r: Vec<ColumnSpec>) {
        let r = vec![
            column("Name", ColumnKind::Str(Category::Identifier, DEFAULT_IDENTIFIER_MAX_LEN), true, false, false),
            column("Data", ColumnKind::Binary, false, false, false),
        ];
        assert(columns_view(r@) =~= Self::columns_spec());
        r
    }

    proof fn lemma_row_arity(entry: &IconDao) {
    }
}

/// The row of a Icon entry has one cell per column, and each cell lies under
/// the column of the field it holds: `Name` holds `name`, `Data` holds the
/// data.
pub proof fn lemma_icon_dao_row_columns(d: IconDao)
    ensures
        cell_under(d.row_spec(), IconTable::columns_spec(), "Name"@, ValueView::Str(d.name@)),
        cell_under(d.row_spec(), IconTable::columns_spec(), "Data"@, ValueView::Binary),
{
    let cols = IconTable::columns_spec();
    reveal_strlit("Name");
    reveal_strlit("Data");
    assert(column_at(cols, "Name"@, 0)) by {
        assert forall|j: int| 0 <= j < cols.len() && j != 0 implies (#[trigger] cols[j]).name != "Name"@ by {
            if j == 1 {
                assert(cols[1].name == "Data"@);
                assert("Data"@[0] != "Name"@[0]);
            }
        }
    }
    assert(column_at(cols, "Data"@, 1)) by {
        assert forall|j: int| 0 <= j < cols.len() && j != 1 implies (#[trigger] cols[j]).name != "Data"@ by {
            if j == 0 {
                assert(cols[0].name == "Name"@);
                assert("Name"@[0] != "Data"@[0]);
            }
        }
    }
}

} // verus!
