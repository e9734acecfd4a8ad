//! The Binary table: binary data that custom actions use.

use vstd::prelude::*;
use crate::identifier::{Identifier, opt_id_value, opt_id_view, BinaryIdentifier};
use crate::tables::column::{Category, ColumnKind, ColumnSpec, ColumnView, col, column, columns_view};
use crate::tables::dao::{DaoContainer, IsDao, MsiBuilderListEntry, PackageWriter, ToUniqueMsiIdentifier};
use crate::value::{Value, ValueView, row_view, opt_str_value, opt_str_view, i16_value, opt_i16_value, opt_i32_value, opt_int_view};
use crate::constants::{DEFAULT_IDENTIFIER_MAX_LEN};

verus! {

/// One binary stream used by custom actions.
pub struct BinaryDao {
    pub name: BinaryIdentifier,
    pub data: Vec<u8>,
}

impl MsiBuilderListEntry for BinaryDao {
    /// Two binaries conflict when they have the same name.
    open spec fn conflicts_spec(&self, other: &Self) -> bool {
        self.name@ == other.name@
    }

    fn conflicts(&self, other: &Self) -> (r: bool) {
        self.name.same(&other.name)
    }
}

impl ToUniqueMsiIdentifier for BinaryDao {
    open spec fn unique_id_spec(&self) -> Option<Seq<char>> {
        None
    }

    fn to_unique_msi_identifier(&self) -> (r: Option<Identifier>) {
        None
    }
}

/// The Binary table. Its entries do not become rows: no row format for
/// their data is defined.
pub struct BinaryTable {
    entries: Vec<BinaryDao>,
}

impl BinaryTable {
    /// An empty table.
    pub fn default() -> (r: BinaryTable)
        ensures
            r.entries_spec() == Seq::<BinaryDao>::empty(),
    {
        BinaryTable { entries: Vec::new() }
    }

    /// The columns the table would have.
    pub fn columns(&self) -> (r: Vec<ColumnSpec>)
        ensures
            columns_view(r@) == seq![
                col("Name"@, ColumnKind::Str(Category::Identifier, DEFAULT_IDENTIFIER_MAX_LEN), true, false, false),
                col("Data"@, ColumnKind::Binary, false, false, false),
            ],
    {
        let r = vec![
            column("Name", ColumnKind::Str(Category::Identifier, DEFAULT_IDENTIFIER_MAX_LEN), true, false, false),
            column("Data", ColumnKind::Binary, false, false, false),
        ];
        assert(columns_view(r@) =~= seq![
            col("Name"@, ColumnKind::Str(Category::Identifier, DEFAULT_IDENTIFIER_MAX_LEN), true, false, false),
            col("Data"@, ColumnKind::Binary, false, false, false),
        ]);
        r
    }
}

impl DaoContainer for BinaryTable {
    type Dao = BinaryDao;

    closed spec fn entries_spec(&self) -> Seq<BinaryDao> {
        self.entries@
    }

    fn entries(&self) -> (r: &Vec<BinaryDao>) {
        &self.entries
    }

    fn push_entry(&mut self, entry: BinaryDao) {
        self.entries.push(entry);
    }
}
} // verus!
