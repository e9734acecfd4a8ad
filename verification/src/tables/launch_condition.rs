//! The LaunchCondition table: conditions the target system must meet.

use vstd::prelude::*;
use vstd::string::*;
use crate::identifier::{Identifier, opt_id_value, opt_id_view};
use crate::tables::column::{Category, ColumnKind, ColumnSpec, ColumnView, col, column, columns_view, cell_under, column_at};
use crate::tables::dao::{DaoContainer, IsDao, MsiBuilderListEntry, PackageWriter, ToUniqueMsiIdentifier};
use crate::value::{Value, ValueView, row_view, opt_str_value, opt_str_view, i16_value, opt_i16_value, opt_i32_value, opt_int_view};
use crate::constants::{DEFAULT_IDENTIFIER_MAX_LEN, CONDITION_MAX_LEN};
use crate::types::{Condition, Formatted};

verus! {

/// One condition that must hold for the installation to go ahead, and the
/// message shown when it does not.
pub struct LaunchConditionDao {
    pub condition: Condition,
    pub description: Formatted,
}

impl IsDao for LaunchConditionDao {
    open spec fn row_spec(&self) -> Seq<ValueView> {
        seq![
            ValueView::Str(self.condition@),
            ValueView::Str(self.description@),
        ]
    }

    fn to_row(&self) -> (r: Vec<Value>) {
        let r = vec![
            Value::Str(self.condition.clone()),
            Value::Str(self.description.clone()),
        ];
        assert(row_view(r@) =~= self.row_spec());
        r
    }
}

impl MsiBuilderListEntry for LaunchConditionDao {
    /// Two launch conditions conflict when they are the same.
    open spec fn conflicts_spec(&self, other: &Self) -> bool {
        self.condition@ == other.condition@ && self.description@ == other.description@
    }

    fn conflicts(&self, other: &Self) -> (r: bool) {
        self.condition == other.condition && self.description == other.description
    }
}

impl ToUniqueMsiIdentifier for LaunchConditionDao {
    open spec fn unique_id_spec(&self) -> Option<Seq<char>> {
        None
    }

    fn to_unique_msi_identifier(&self) -> (r: Option<Identifier>) {
        None
    }
}

/// The LaunchCondition table.
pub struct LaunchConditionTable {
    entries: Vec<LaunchConditionDao>,
}

impl LaunchConditionTable {
    /// An empty table.
    pub fn new() -> (r: LaunchConditionTable)
        ensures
            r.entries_spec() == Seq::<LaunchConditionDao>::empty(),
    {
        LaunchConditionTable { entries: Vec::new() }
    }
}

impl DaoContainer for LaunchConditionTable {
    type Dao = LaunchConditionDao;

    closed spec fn entries_spec(&self) -> Seq<LaunchConditionDao> {
        self.entries@
    }

    fn entries(&self) -> (r: &Vec<LaunchConditionDao>) {
        &self.entries
    }

    fn push_entry(&mut self, entry: LaunchConditionDao) {
        self.entries.push(entry);
    }
}

impl PackageWriter for LaunchConditionTable {
    open spec fn name_spec() -> Seq<char> {
        "LaunchCondition"@
    }

    open spec fn columns_spec() -> Seq<ColumnView> {
        seq![
            col("Condition"@, ColumnKind::Str(Category::Condition, CONDITION_MAX_LEN), true, false, false),
            col("Description"@, ColumnKind::Str(Category::Formatted, 255), false, false, true),
        ]
    }

    fn name(&self) -> (r: &'static str) {
        "LaunchCondition"
    }

    fn columns(&self) -> (r: Vec<ColumnSpec>) {
        let r = vec![
            column("Condition", ColumnKind::Str(Category::Condition, CONDITION_MAX_LEN), true, false, false),
            column("Description", ColumnKind::Str(Category::Formatted, 255), false, false, true),
        ];
        assert(columns_view(r@) =~= Self::columns_spec());
        r
    }

    proof fn lemma_row_arity(entry: &LaunchConditionDao) {
    }
}

/// The row of a LaunchCondition entry has one cell per column, and each cell
/// lies under the column of the field it holds: `Condition` holds `condition`,
/// `Description` holds `description`.
pub proof fn lemma_launch_condition_dao_row_columns(d: LaunchConditionDao)
    ensures
        cell_under(d.row_spec(), LaunchConditionTable::columns_spec(), "Condition"@, ValueView::Str(d.condition@)),
        cell_under(d.row_spec(), LaunchConditionTable::columns_spec(), "Description"@, ValueView::Str(d.description@)),
{
    let cols = LaunchConditionTable::columns_spec();
    reveal_strlit("Condition");
    reveal_strlit("Description");
    assert(column_at(cols, "Condition"@, 0)) by {
        assert forall|j: int| 0 <= j < cols.len() && j != 0 implies (#[trigger] cols[j]).name != "Condition"@ by {
            if j == 1 {
                assert(cols[1].name == "Description"@);
                assert("Description"@.len() != "Condition"@.len());
            }
        }
    }
    assert(column_at(cols, "Description"@, 1)) by {
        assert forall|j: int| 0 <= j < cols.len() && j != 1 implies (#[trigger] cols[j]).name != "Description"@ by {
            if j == 0 {
                assert(cols[0].name == "Condition"@);
                assert("Condition"@.len() != "Description"@.len());
            }
        }
    }
}

} // verus!
