//! The Registry table: registry values that the package writes.

use vstd::prelude::*;
use vstd::string::*;
use crate::identifier::{Identifier, opt_id_value, opt_id_view, RegistryIdentifier, ComponentIdentifier};
use crate::tables::column::{Category, ColumnKind, ColumnSpec, ColumnView, col, column, columns_view, cell_under, column_at};
use crate::tables::dao::{DaoContainer, IsDao, MsiBuilderListEntry, PackageWriter, ToUniqueMsiIdentifier};
use crate::value::{Value, ValueView, row_view, opt_str_value, opt_str_view, i16_value, opt_i16_value, opt_i32_value, opt_int_view};
use crate::constants::{DEFAULT_IDENTIFIER_MAX_LEN, REGPATH_MAX_LEN, REGISTRY_NAME_MAX_LEN, REGISTRY_VALUE_MAX_LEN};
use crate::types::{Formatted, RegPath};

verus! {

/// One registry value that the package writes.
pub struct RegistryDao {
    pub registry: RegistryIdentifier,
    pub root: i16,
    pub key: RegPath,
    pub name: Option<Formatted>,
    pub value: Option<Formatted>,
    pub component: ComponentIdentifier,
}

impl IsDao for RegistryDao {
    open spec fn row_spec(&self) -> Seq<ValueView> {
        seq![
            ValueView::Str(self.registry@),
            ValueView::Int(self.root as int),
            ValueView::Str(self.key@),
            opt_str_view(&self.name),
            opt_str_view(&self.value),
            ValueView::Str(self.component@),
        ]
    }

    fn to_row(&self) -> (r: Vec<Value>) {
        let r = vec![
            self.registry.to_value(),
            i16_value(self.root),
            Value::Str(self.key.clone()),
            opt_str_value(&self.name),
            opt_str_value(&self.value),
            self.component.to_value(),
        ];
        assert(row_view(r@) =~= self.row_spec());
        r
    }
}

impl MsiBuilderListEntry for RegistryDao {
    /// Two registry values conflict when they have the same key.
    open spec fn conflicts_spec(&self, other: &Self) -> bool {
        self.registry@ == other.registry@
    }

    fn conflicts(&self, other: &Self) -> (r: bool) {
        self.registry.same(&other.registry)
    }
}

impl ToUniqueMsiIdentifier for RegistryDao {
    open spec fn unique_id_spec(&self) -> Option<Seq<char>> {
        Some(self.registry@)
    }

    fn to_unique_msi_identifier(&self) -> (r: Option<Identifier>) {
        Some(self.registry.clone())
    }
}

/// The Registry table.
pub struct RegistryTable {
    entries: Vec<RegistryDao>,
}

impl RegistryTable {
    /// An empty table.
    pub fn new() -> (r: RegistryTable)
        ensures
            r.entries_spec() == Seq::<RegistryDao>::empty(),
    {
        RegistryTable { entries: Vec::new() }
    }
}

impl DaoContainer for RegistryTable {
    type Dao = RegistryDao;

    closed spec fn entries_spec(&self) -> Seq<RegistryDao> {
        self.entries@
    }

    fn entries(&self) -> (r: &Vec<RegistryDao>) {
        &self.entries
    }

    fn push_entry(&mut self, entry: RegistryDao) {
        self.entries.push(entry);
    }
}

impl PackageWriter for RegistryTable {
    open spec fn name_spec() -> Seq<char> {
        "Registry"@
    }

    open spec fn columns_spec() -> Seq<ColumnView> {
        seq![
            col("Registry"@, ColumnKind::Str(Category::Identifier, DEFAULT_IDENTIFIER_MAX_LEN), true, false, false),
            col("Root"@, ColumnKind::Int16, false, false, false),
            col("Key"@, ColumnKind::Str(Category::RegPath, REGPATH_MAX_LEN), false, false, true),
            col("Name"@, ColumnKind::Str(Category::Formatted, REGISTRY_NAME_MAX_LEN), false, true, true),
            col("Value"@, ColumnKind::Str(Category::Formatted, REGISTRY_VALUE_MAX_LEN), false, true, true),
            col("Component_"@, ColumnKind::Str(Category::Identifier, DEFAULT_IDENTIFIER_MAX_LEN), false, false, false),
        ]
    }

    fn name(&self) -> (r: &'static str) {
        "Registry"
    }

    fn columns(&self) -> (r: Vec<ColumnSpec>) {
        let r = vec![
            column("Registry", ColumnKind::Str(Category::Identifier, DEFAULT_IDENTIFIER_MAX_LEN), true, false, false),
            column("Root", ColumnKind::Int16, false, false, false),
            column("Key", ColumnKind::Str(Category::RegPath, REGPATH_MAX_LEN), false, false, true),
            column("Name", ColumnKind::Str(Category::Formatted, REGISTRY_NAME_MAX_LEN), false, true, true),
            column("Value", ColumnKind::Str(Category::Formatted, REGISTRY_VALUE_MAX_LEN), false, true, true),
            column("Component_", ColumnKind::Str(Category::Identifier, DEFAULT_IDENTIFIER_MAX_LEN), false, false, false),
        ];
        assert(columns_view(r@) =~= Self::columns_spec());
        r
    }

    proof fn lemma_row_arity(entry: &RegistryDao) {
    }
}

/// The row of a Registry entry has one cell per column, and each cell lies
/// under the column of the field it holds: `Registry` holds `registry`, `Root`
/// holds `root`, `Key` holds `key`, `Name` holds `name`, `Value` holds `value`,
/// `Component_` holds `component`.
pub proof fn lemma_registry_dao_row_columns(d: RegistryDao)
    ensures
        cell_under(d.row_spec(), RegistryTable::columns_spec(), "Registry"@, ValueView::Str(d.registry@)),
        cell_under(d.row_spec(), RegistryTable::columns_spec(), "Root"@, ValueView::Int(d.root as int)),
        cell_under(d.row_spec(), RegistryTable::columns_spec(), "Key"@, ValueView::Str(d.key@)),
        cell_under(d.row_spec(), RegistryTable::columns_spec(), "Name"@, opt_str_view(&d.name)),
        cell_under(d.row_spec(), RegistryTable::columns_spec(), "Value"@, opt_str_view(&d.value)),
        cell_under(d.row_spec(), RegistryTable::columns_spec(), "Component_"@, ValueView::Str(d.component@)),
{
    let cols = RegistryTable::columns_spec();
    reveal_strlit("Registry");
    reveal_strlit("Root");
    reveal_strlit("Key");
    reveal_strlit("Name");
    reveal_strlit("Value");
    reveal_strlit("Component_");
    assert(column_at(cols, "Registry"@, 0)) by {
        assert forall|j: int| 0 <= j < cols.len() && j != 0 implies (#[trigger] cols[j]).name != "Registry"@ by {
            if j == 1 {
                assert(cols[1].name == "Root"@);
                assert("Root"@.len() != "Registry"@.len());
            } else if j == 2 {
                assert(cols[2].name == "Key"@);
                assert("Key"@.len() != "Registry"@.len());
            } else if j == 3 {
                assert(cols[3].name == "Name"@);
                assert("Name"@.len() != "Registry"@.len());
            } else if j == 4 {
                assert(cols[4].name == "Value"@);
                assert("Value"@.len() != "Registry"@.len());
            } else if j == 5 {
                assert(cols[5].name == "Component_"@);
                assert("Component_"@.len() != "Registry"@.len());
            }
        }
    }
    assert(column_at(cols, "Root"@, 1)) by {
        assert forall|j: int| 0 <= j < cols.len() && j != 1 implies (#[trigger] cols[j]).name != "Root"@ by {
            if j == 0 {
                assert(cols[0].name == "Registry"@);
                assert("Registry"@.len() != "Root"@.len());
            } else if j == 2 {
                assert(cols[2].name == "Key"@);
                assert("Key"@.len() != "Root"@.len());
            } else if j == 3 {
                assert(cols[3].name == "Name"@);
                assert("Name"@[0] != "Root"@[0]);
            } else if j == 4 {
                assert(cols[4].name == "Value"@);
                assert("Value"@.len() != "Root"@.len());
            } else if j == 5 {
                assert(cols[5].name == "Component_"@);
                assert("Component_"@.len() != "Root"@.len());
            }
        }
    }
    assert(column_at(cols, "Key"@, 2)) by {
        assert forall|j: int| 0 <= j < cols.len() && j != 2 implies (#[trigger] cols[j]).name != "Key"@ by {
            if j == 0 {
                assert(cols[0].name == "Registry"@);
                assert("Registry"@.len() != "Key"@.len());
            } else if j == 1 {
                assert(cols[1].name == "Root"@);
                assert("Root"@.len() != "Key"@.len());
            } else if j == 3 {
                assert(cols[3].name == "Name"@);
                assert("Name"@.len() != "Key"@.len());
            } else if j == 4 {
                assert(cols[4].name == "Value"@);
                assert("Value"@.len() != "Key"@.len());
            } else if j == 5 {
                assert(cols[5].name == "Component_"@);
                assert("Component_"@.len() != "Key"@.len());
            }
        }
    }
    assert(column_at(cols, "Name"@, 3)) by {
        assert forall|j: int| 0 <= j < cols.len() && j != 3 implies (#[trigger] cols[j]).name != "Name"@ by {
            if j == 0 {
                assert(cols[0].name == "Registry"@);
                assert("Registry"@.len() != "Name"@.len());
            } else if j == 1 {
                assert(cols[1].name == "Root"@);
                assert("Root"@[0] != "Name"@[0]);
            } else if j == 2 {
                assert(cols[2].name == "Key"@);
                assert("Key"@.len() != "Name"@.len());
            } else if j == 4 {
                assert(cols[4].name == "Value"@);
                assert("Value"@.len() != "Name"@.len());
            } else if j == 5 {
                assert(cols[5].name == "Component_"@);
                assert("Component_"@.len() != "Name"@.len());
            }
        }
    }
    assert(column_at(cols, "Value"@, 4)) by {
        assert forall|j: int| 0 <= j < cols.len() && j != 4 implies (#[trigger] cols[j]).name != "Value"@ by {
            if j == 0 {
                assert(cols[0].name == "Registry"@);
                assert("Registry"@.len() != "Value"@.len());
            } else if j == 1 {
                assert(cols[1].name == "Root"@);
                assert("Root"@.len() != "Value"@.len());
            } else if j == 2 {
                assert(cols[2].name == "Key"@);
                assert("Key"@.len() != "Value"@.len());
            } else if j == 3 {
                assert(cols[3].name == "Name"@);
                assert("Name"@.len() != "Value"@.len());
            } else if j == 5 {
                assert(cols[5].name == "Component_"@);
                assert("Component_"@.len() != "Value"@.len());
            }
        }
    }
    assert(column_at(cols, "Component_"@, 5)) by {
        assert forall|j: int| 0 <= j < cols.len() && j != 5 implies (#[trigger] cols[j]).name != "Component_"@ by {
            if j == 0 {
                assert(cols[0].name == "Registry"@);
                assert("Registry"@.len() != "Component_"@.len());
            } else if j == 1 {
                assert(cols[1].name == "Root"@);
                assert("Root"@.len() != "Component_"@.len());
            } else if j == 2 {
                assert(cols[2].name == "Key"@);
                assert("Key"@.len() != "Component_"@.len());
            } else if j == 3 {
                assert(cols[3].name == "Name"@);
                assert("Name"@.len() != "Component_"@.len());
            } else if j == 4 {
                assert(cols[4].name == "Value"@);
                assert("Value"@.len() != "Component_"@.len());
            }
        }
    }
}

} // verus!
