//! The CustomAction table: actions that the package defines itself.

use vstd::prelude::*;
use vstd::string::*;
use crate::identifier::{Identifier, opt_id_value, opt_id_view};
use crate::tables::column::{Category, ColumnKind, ColumnSpec, ColumnView, col, column, columns_view, cell_under, column_at};
use crate::tables::dao::{DaoContainer, IsDao, MsiBuilderListEntry, PackageWriter, ToUniqueMsiIdentifier};
use crate::value::{Value, ValueView, row_view, opt_str_value, opt_str_view, i16_value, opt_i16_value, opt_i32_value, opt_int_view};
use crate::constants::{DEFAULT_IDENTIFIER_MAX_LEN};
use crate::types::{CustomSource, Formatted};

verus! {

/// One custom action.
pub struct CustomActionDao {
    pub action: Identifier,
    pub typ: i16,
    pub source: Option<CustomSource>,
    pub target: Option<Formatted>,
    pub extended_type: i32,
}

impl IsDao for CustomActionDao {
    open spec fn row_spec(&self) -> Seq<ValueView> {
        seq![
            ValueView::Str(self.action@),
            ValueView::Int(self.typ as int),
            opt_str_view(&self.source),
            opt_str_view(&self.target),
            ValueView::Int(self.extended_type as int),
        ]
    }

    fn to_row(&self) -> (r: Vec<Value>) {
        let r = vec![
            self.action.to_value(),
            i16_value(self.typ),
            opt_str_value(&self.source),
            opt_str_value(&self.target),
            Value::Int(self.extended_type),
        ];
        assert(row_view(r@) =~= self.row_spec());
        r
    }
}

impl MsiBuilderListEntry for CustomActionDao {
    /// Two custom actions conflict when they have the same name.
    open spec fn conflicts_spec(&self, other: &Self) -> bool {
        self.action@ == other.action@
    }

    fn conflicts(&self, other: &Self) -> (r: bool) {
        self.action.same(&other.action)
    }
}

impl ToUniqueMsiIdentifier for CustomActionDao {
    open spec fn unique_id_spec(&self) -> Option<Seq<char>> {
        None
    }

    fn to_unique_msi_identifier(&self) -> (r: Option<Identifier>) {
        None
    }
}

/// The CustomAction table.
pub struct CustomActionTable {
    entries: Vec<CustomActionDao>,
}

impl CustomActionTable {
    /// An empty table.
    pub fn new() -> (r: CustomActionTable)
        ensures
            r.entries_spec() == Seq::<CustomActionDao>::empty(),
    {
        CustomActionTable { entries: Vec::new() }
    }
}

impl DaoContainer for CustomActionTable {
    type Dao = CustomActionDao;

    closed spec fn entries_spec(&self) -> Seq<CustomActionDao> {
        self.entries@
    }

    fn entries(&self) -> (r: &Vec<CustomActionDao>) {
        &self.entries
    }

    fn push_entry(&mut self, entry: CustomActionDao) {
        self.entries.push(entry);
    }
}

impl PackageWriter for CustomActionTable {
    open spec fn name_spec() -> Seq<char> {
        "CustomAction"@
    }

    open spec fn columns_spec() -> Seq<ColumnView> {
        seq![
            col("Action"@, ColumnKind::Str(Category::Identifier, DEFAULT_IDENTIFIER_MAX_LEN), true, false, false),
            col("Type"@, ColumnKind::Int16, false, false, false),
            col("Source"@, ColumnKind::Str(Category::CustomSource, DEFAULT_IDENTIFIER_MAX_LEN), false, true, false),
            col("Target"@, ColumnKind::Str(Category::Formatted, 255), false, true, false),
            col("ExtendedType"@, ColumnKind::Int32, false, true, false),
        ]
    }

    fn name(&self) -> (r: &'static str) {
        "CustomAction"
    }

    fn columns(&self) -> (r: Vec<ColumnSpec>) {
        let r = vec![
            column("Action", ColumnKind::Str(Category::Identifier, DEFAULT_IDENTIFIER_MAX_LEN), true, false, false),
            column("Type", ColumnKind::Int16, false, false, false),
            column("Source", ColumnKind::Str(Category::CustomSource, DEFAULT_IDENTIFIER_MAX_LEN), false, true, false),
            column("Target", ColumnKind::Str(Category::Formatted, 255), false, true, false),
            column("ExtendedType", ColumnKind::Int32, false, true, false),
        ];
        assert(columns_view(r@) =~= Self::columns_spec());
        r
    }

    proof fn lemma_row_arity(entry: &CustomActionDao) {
    }
}

/// The row of a CustomAction entry has one cell per column, and each cell lies
/// under the column of the field it holds: `Action` holds `action`, `Type`
/// holds `typ`, `Source` holds `source`, `Target` holds `target`,
/// `ExtendedType` holds `extended_type`.
pub proof fn lemma_custom_action_dao_row_columns(d: CustomActionDao)
    ensures
        cell_under(d.row_spec(), CustomActionTable::columns_spec(), "Action"@, ValueView::Str(d.action@)),
        cell_under(d.row_spec(), CustomActionTable::columns_spec(), "Type"@, ValueView::Int(d.typ as int)),
        cell_under(d.row_spec(), CustomActionTable::columns_spec(), "Source"@, opt_str_view(&d.source)),
        cell_under(d.row_spec(), CustomActionTable::columns_spec(), "Target"@, opt_str_view(&d.target)),
        cell_under(d.row_spec(), CustomActionTable::columns_spec(), "ExtendedType"@, ValueView::Int(d.extended_type as int)),
{
    let cols = CustomActionTable::columns_spec();
    reveal_strlit("Action");
    reveal_strlit("Type");
    reveal_strlit("Source");
    reveal_strlit("Target");
    reveal_strlit("ExtendedType");
    assert(column_at(cols, "Action"@, 0)) by {
        assert forall|j: int| 0 <= j < cols.len() && j != 0 implies (#[trigger] cols[j]).name != "Action"@ by {
            if j == 1 {
                assert(cols[1].name == "Type"@);
                assert("Type"@.len() != "Action"@.len());
            } else if j == 2 {
                assert(cols[2].name == "Source"@);
                assert("Source"@[0] != "Action"@[0]);
            } else if j == 3 {
                assert(cols[3].name == "Target"@);
                assert("Target"@[0] != "Action"@[0]);
            } else if j == 4 {
                assert(cols[4].name == "ExtendedType"@);
                assert("ExtendedType"@.len() != "Action"@.len());
            }
        }
    }
    assert(column_at(cols, "Type"@, 1)) by {
        assert forall|j: int| 0 <= j < cols.len() && j != 1 implies (#[trigger] cols[j]).name != "Type"@ by {
            if j == 0 {
                assert(cols[0].name == "Action"@);
                assert("Action"@.len() != "Type"@.len());
            } else if j == 2 {
                assert(cols[2].name == "Source"@);
                assert("Source"@.len() != "Type"@.len());
            } else if j == 3 {
                assert(cols[3].name == "Target"@);
                assert("Target"@.len() != "Type"@.len());
            } else if j == 4 {
                assert(cols[4].name == "ExtendedType"@);
                assert("ExtendedType"@.len() != "Type"@.len());
            }
        }
    }
    assert(column_at(cols, "Source"@, 2)) by {
        assert forall|j: int| 0 <= j < cols.len() && j != 2 implies (#[trigger] cols[j]).name != "Source"@ by {
            if j == 0 {
                assert(cols[0].name == "Action"@);
                assert("Action"@[0] != "Source"@[0]);
            } else if j == 1 {
                assert(cols[1].name == "Type"@);
                assert("Type"@.len() != "Source"@.len());
            } else if j == 3 {
                assert(cols[3].name == "Target"@);
                assert("Target"@[0] != "Source"@[0]);
            } else if j == 4 {
                assert(cols[4].name == "ExtendedType"@);
                assert("ExtendedType"@.len() != "Source"@.len());
            }
        }
    }
    assert(column_at(cols, "Target"@, 3)) by {
        assert forall|j: int| 0 <= j < cols.len() && j != 3 implies (#[trigger] cols[j]).name != "Target"@ by {
            if j == 0 {
                assert(cols[0].name == "Action"@);
                assert("Action"@[0] != "Target"@[0]);
            } else if j == 1 {
                assert(cols[1].name == "Type"@);
                assert("Type"@.len() != "Target"@.len());
            } else if j == 2 {
                assert(cols[2].name == "Source"@);
                assert("Source"@[0] != "Target"@[0]);
            } else if j == 4 {
                assert(cols[4].name == "ExtendedType"@);
                assert("ExtendedType"@.len() != "Target"@.len());
            }
        }
    }
    assert(column_at(cols, "ExtendedType"@, 4)) by {
        assert forall|j: int| 0 <= j < cols.len() && j != 4 implies (#[trigger] cols[j]).name != "ExtendedType"@ by {
            if j == 0 {
                assert(cols[0].name == "Action"@);
                assert("Action"@.len() != "ExtendedType"@.len());
            } else if j == 1 {
                assert(cols[1].name == "Type"@);
                assert("Type"@.len() != "ExtendedType"@.len());
            } else if j == 2 {
                assert(cols[2].name == "Source"@);
                assert("Source"@.len() != "ExtendedType"@.len());
            } else if j == 3 {
                assert(cols[3].name == "Target"@);
                assert("Target"@.len() != "ExtendedType"@.len());
            }
        }
    }
}

} // verus!
