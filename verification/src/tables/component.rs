//! The Component table: the units in which the installer installs files and
//! settings.

use vstd::prelude::*;
use vstd::string::*;
use crate::identifier::{Identifier, opt_id_value, opt_id_view, ComponentIdentifier, DirectoryIdentifier};
use crate::tables::column::{Category, ColumnKind, ColumnSpec, ColumnView, col, column, columns_view, cell_under, column_at};
use crate::tables::dao::{DaoContainer, IsDao, MsiBuilderListEntry, PackageWriter, ToUniqueMsiIdentifier};
use crate::value::{Value, ValueView, row_view, opt_str_value, opt_str_view, i16_value, opt_i16_value, opt_i32_value, opt_int_view};
use crate::constants::{DEFAULT_IDENTIFIER_MAX_LEN, GUID_MAX_LEN, CONDITION_MAX_LEN};
use crate::types::{Condition, Guid};

verus! {

/// The remote execution options of a component, as bit flags.
#[derive(Clone, Copy, Debug, PartialEq, Eq, Structural)]
pub struct ComponentAttributes {
    pub bits: i16,
}

impl ComponentAttributes {
    /// The component is installed to run locally (no flag set).
    pub fn local_only() -> (r: ComponentAttributes)
        ensures
            r.bits == 0,
    {
        ComponentAttributes { bits: 0 }
    }

    /// The component runs from the source only.
    pub fn source_only() -> (r: ComponentAttributes)
        ensures
            r.bits == 1,
    {
        ComponentAttributes { bits: 1 }
    }

    /// The component may run locally or from the source.
    pub fn optional() -> (r: ComponentAttributes)
        ensures
            r.bits == 2,
    {
        ComponentAttributes { bits: 2 }
    }

    /// The flags of both.
    pub fn union(self, other: ComponentAttributes) -> (r: ComponentAttributes)
        ensures
            r.bits == self.bits | other.bits,
    {
        ComponentAttributes { bits: self.bits | other.bits }
    }

    /// The flags as a number.
    pub fn bits(&self) -> (r: i16)
        ensures
            r == self.bits,
    {
        self.bits
    }
}

/// One component: what it installs into which directory, and the file or
/// key by which the installer detects it.
pub struct ComponentDao {
    pub component: ComponentIdentifier,
    pub component_id: Option<Guid>,
    pub directory: DirectoryIdentifier,
    pub attributes: ComponentAttributes,
    pub condition: Option<Condition>,
    pub key_path: Option<Identifier>,
}

impl ComponentDao {
    /// A component keyed `component` that installs into the directory keyed
    /// `directory`, with no GUID, no condition, no key path and no attribute
    /// set.
    pub fn new(component: ComponentIdentifier, directory: DirectoryIdentifier) -> (r: ComponentDao)
        ensures
            r.component == component,
            r.directory == directory,
            r.component_id is None,
            r.attributes.bits == 0,
            r.condition is None,
            r.key_path is None,
    {
        ComponentDao {
            component,
            component_id: None,
            directory,
            attributes: ComponentAttributes::local_only(),
            condition: None,
            key_path: None,
        }
    }

    /// The same component with `key_path` as its key path.
    pub fn with_keypath(self, key_path: Identifier) -> (r: ComponentDao)
        ensures
            r.key_path == Some(key_path),
            r.component == self.component,
            r.directory == self.directory,
            r.component_id == self.component_id,
            r.attributes == self.attributes,
            r.condition == self.condition,
    {
        ComponentDao { key_path: Some(key_path), ..self }
    }
}

impl IsDao for ComponentDao {
    open spec fn row_spec(&self) -> Seq<ValueView> {
        seq![
            ValueView::Str(self.component@),
            opt_str_view(&self.component_id),
            ValueView::Str(self.directory@),
            ValueView::Int(self.attributes.bits as int),
            opt_str_view(&self.condition),
            opt_id_view(self.key_path),
        ]
    }

    fn to_row(&self) -> (r: Vec<Value>) {
        let r = vec![
            self.component.to_value(),
            opt_str_value(&self.component_id),
            self.directory.to_value(),
            i16_value(self.attributes.bits),
            opt_str_value(&self.condition),
            opt_id_value(&self.key_path),
        ];
        assert(row_view(r@) =~= self.row_spec());
        r
    }
}

impl MsiBuilderListEntry for ComponentDao {
    /// Two components conflict when they have the same key.
    open spec fn conflicts_spec(&self, other: &Self) -> bool {
        self.component@ == other.component@
    }

    fn conflicts(&self, other: &Self) -> (r: bool) {
        self.component.same(&other.component)
    }
}

impl ToUniqueMsiIdentifier for ComponentDao {
    open spec fn unique_id_spec(&self) -> Option<Seq<char>> {
        Some(self.component@)
    }

    fn to_unique_msi_identifier(&self) -> (r: Option<Identifier>) {
        Some(self.component.clone())
    }
}

/// The Component table.
pub struct ComponentTable {
    entries: Vec<ComponentDao>,
}

impl ComponentTable {
    /// An empty table.
    pub fn new() -> (r: ComponentTable)
        ensures
            r.entries_spec() == Seq::<ComponentDao>::empty(),
    {
        ComponentTable { entries: Vec::new() }
    }

    /// The component keyed `id`.
    pub fn entry_with_id(&self, id: &Identifier) -> (r: Option<&ComponentDao>)
        ensures
            match r {
                Some(x) => exists|i: int|
                    0 <= i < self.entries_spec().len() && self.entries_spec()[i] == *x && x.component@ == id@
                        && forall|k: int| 0 <= k < i ==> (#[trigger] self.entries_spec()[k]).component@ != id@,
                None => forall|i: int| 0 <= i < self.entries_spec().len()
                    ==> (#[trigger] self.entries_spec()[i]).component@ != id@,
            },
    {
        let mut i: usize = 0;
        while i < self.entries.len()
            invariant
                i <= self.entries@.len(),
                forall|k: int| 0 <= k < i ==> (#[trigger] self.entries@[k]).component@ != id@,
            decreases self.entries@.len() - i,
        {
            if self.entries[i].component.same(id) {
                return Some(&self.entries[i]);
            }
            i = i + 1;
        }
        None
    }
}

impl DaoContainer for ComponentTable {
    type Dao = ComponentDao;

    closed spec fn entries_spec(&self) -> Seq<ComponentDao> {
        self.entries@
    }

    fn entries(&self) -> (r: &Vec<ComponentDao>) {
        &self.entries
    }

    fn push_entry(&mut self, entry: ComponentDao) {
        self.entries.push(entry);
    }
}

impl PackageWriter for ComponentTable {
    open spec fn name_spec() -> Seq<char> {
        "Component"@
    }

    open spec fn columns_spec() -> Seq<ColumnView> {
        seq![
            col("Component"@, ColumnKind::Str(Category::Identifier, DEFAULT_IDENTIFIER_MAX_LEN), true, false, false),
            col("ComponentId"@, ColumnKind::Str(Category::Guid, GUID_MAX_LEN), false, true, false),
            col("Directory_"@, ColumnKind::Str(Category::Identifier, DEFAULT_IDENTIFIER_MAX_LEN), false, false, false),
            col("Attributes"@, ColumnKind::Int16, false, false, false),
            col("Condition"@, ColumnKind::Str(Category::Condition, CONDITION_MAX_LEN), false, true, false),
            col("KeyPath"@, ColumnKind::Str(Category::Identifier, DEFAULT_IDENTIFIER_MAX_LEN), false, true, false),
        ]
    }

    fn name(&self) -> (r: &'static str) {
        "Component"
    }

    fn columns(&self) -> (r: Vec<ColumnSpec>) {
        let r = vec![
            column("Component", ColumnKind::Str(Category::Identifier, DEFAULT_IDENTIFIER_MAX_LEN), true, false, false),
            column("ComponentId", ColumnKind::Str(Category::Guid, GUID_MAX_LEN), false, true, false),
            column("Directory_", ColumnKind::Str(Category::Identifier, DEFAULT_IDENTIFIER_MAX_LEN), false, false, false),
            column("Attributes", ColumnKind::Int16, false, false, false),
            column("Condition", ColumnKind::Str(Category::Condition, CONDITION_MAX_LEN), false, true, false),
            column("KeyPath", ColumnKind::Str(Category::Identifier, DEFAULT_IDENTIFIER_MAX_LEN), false, true, false),
        ];
        assert(columns_view(r@) =~= Self::columns_spec());
        r
    }

    proof fn lemma_row_arity(entry: &ComponentDao) {
    }
}

/// The row of a Component entry has one cell per column, and each cell lies
/// under the column of the field it holds: `Component` holds `component`,
/// `ComponentId` holds `component_id`, `Directory_` holds `directory`,
/// `Attributes` holds `attributes`, `Condition` holds `condition`, `KeyPath`
/// holds `key_path`.
pub proof fn lemma_component_dao_row_columns(d: ComponentDao)
    ensures
        cell_under(d.row_spec(), ComponentTable::columns_spec(), "Component"@, ValueView::Str(d.component@)),
        cell_under(d.row_spec(), ComponentTable::columns_spec(), "ComponentId"@, opt_str_view(&d.component_id)),
        cell_under(d.row_spec(), ComponentTable::columns_spec(), "Directory_"@, ValueView::Str(d.directory@)),
        cell_under(d.row_spec(), ComponentTable::columns_spec(), "Attributes"@, ValueView::Int(d.attributes.bits as int)),
        cell_under(d.row_spec(), ComponentTable::columns_spec(), "Condition"@, opt_str_view(&d.condition)),
        cell_under(d.row_spec(), ComponentTable::columns_spec(), "KeyPath"@, opt_id_view(d.key_path)),
{
    let cols = ComponentTable::columns_spec();
    reveal_strlit("Component");
    reveal_strlit("ComponentId");
    reveal_strlit("Directory_");
    reveal_strlit("Attributes");
    reveal_strlit("Condition");
    reveal_strlit("KeyPath");
    assert(column_at(cols, "Component"@, 0)) by {
        assert forall|j: int| 0 <= j < cols.len() && j != 0 implies (#[trigger] cols[j]).name != "Component"@ by {
            if j == 1 {
                assert(cols[1].name == "ComponentId"@);
                assert("ComponentId"@.len() != "Component"@.len());
            } else if j == 2 {
                assert(cols[2].name == "Directory_"@);
                assert("Directory_"@.len() != "Component"@.len());
            } else if j == 3 {
                assert(cols[3].name == "Attributes"@);
                assert("Attributes"@.len() != "Component"@.len());
            } else if j == 4 {
                assert(cols[4].name == "Condition"@);
                assert("Condition"@[2] != "Component"@[2]);
            } else if j == 5 {
                assert(cols[5].name == "KeyPath"@);
                assert("KeyPath"@.len() != "Component"@.len());
            }
        }
    }
    assert(column_at(cols, "ComponentId"@, 1)) by {
        assert forall|j: int| 0 <= j < cols.len() && j != 1 implies (#[trigger] cols[j]).name != "ComponentId"@ by {
            if j == 0 {
                assert(cols[0].name == "Component"@);
                assert("Component"@.len() != "ComponentId"@.len());
            } else if j == 2 {
                assert(cols[2].name == "Directory_"@);
                assert("Directory_"@.len() != "ComponentId"@.len());
            } else if j == 3 {
                assert(cols[3].name == "Attributes"@);
                assert("Attributes"@.len() != "ComponentId"@.len());
            } else if j == 4 {
                assert(cols[4].name == "Condition"@);
                assert("Condition"@.len() != "ComponentId"@.len());
            } else if j == 5 {
                assert(cols[5].name == "KeyPath"@);
                assert("KeyPath"@.len() != "ComponentId"@.len());
            }
        }
    }
    assert(column_at(cols, "Directory_"@, 2)) by {
        assert forall|j: int| 0 <= j < cols.len() && j != 2 implies (#[trigger] cols[j]).name != "Directory_"@ by {
            if j == 0 {
                assert(cols[0].name == "Component"@);
                assert("Component"@.len() != "Directory_"@.len());
            } else if j == 1 {
                assert(cols[1].name == "ComponentId"@);
                assert("ComponentId"@.len() != "Directory_"@.len());
            } else if j == 3 {
                assert(cols[3].name == "Attributes"@);
                assert("Attributes"@[0] != "Directory_"@[0]);
            } else if j == 4 {
                assert(cols[4].name == "Condition"@);
                assert("Condition"@.len() != "Directory_"@.len());
            } else if j == 5 {
                assert(cols[5].name == "KeyPath"@);
                assert("KeyPath"@.len() != "Directory_"@.len());
            }
        }
    }
    assert(column_at(cols, "Attributes"@, 3)) by {
        assert forall|j: int| 0 <= j < cols.len() && j != 3 implies (#[trigger] cols[j]).name != "Attributes"@ by {
            if j == 0 {
                assert(cols[0].name == "Component"@);
                assert("Component"@.len() != "Attributes"@.len());
            } else if j == 1 {
                assert(cols[1].name == "ComponentId"@);
                assert("ComponentId"@.len() != "Attributes"@.len());
            } else if j == 2 {
                assert(cols[2].name == "Directory_"@);
                assert("Directory_"@[0] != "Attributes"@[0]);
            } else if j == 4 {
                assert(cols[4].name == "Condition"@);
                assert("Condition"@.len() != "Attributes"@.len());
            } else if j == 5 {
                assert(cols[5].name == "KeyPath"@);
                assert("KeyPath"@.len() != "Attributes"@.len());
            }
        }
    }
    assert(column_at(cols, "Condition"@, 4)) by {
        assert forall|j: int| 0 <= j < cols.len() && j != 4 implies (#[trigger] cols[j]).name != "Condition"@ by {
            if j == 0 {
                assert(cols[0].name == "Component"@);
                assert("Component"@[2] != "Condition"@[2]);
            } else if j == 1 {
                assert(cols[1].name == "ComponentId"@);
                assert("ComponentId"@.len() != "Condition"@.len());
            } else if j == 2 {
                assert(cols[2].name == "Directory_"@);
                assert("Directory_"@.len() != "Condition"@.len());
            } else if j == 3 {
                assert(cols[3].name == "Attributes"@);
                assert("Attributes"@.len() != "Condition"@.len());
            } else if j == 5 {
                assert(cols[5].name == "KeyPath"@);
                assert("KeyPath"@.len() != "Condition"@.len());
            }
        }
    }
    assert(column_at(cols, "KeyPath"@, 5)) by {
        assert forall|j: int| 0 <= j < cols.len() && j != 5 implies (#[trigger] cols[j]).name != "KeyPath"@ by {
            if j == 0 {
                assert(cols[0].name == "Component"@);
                assert("Component"@.len() != "KeyPath"@.len());
            } else if j == 1 {
                assert(cols[1].name == "ComponentId"@);
                assert("ComponentId"@.len() != "KeyPath"@.len());
            } else if j == 2 {
                assert(cols[2].name == "Directory_"@);
                assert("Directory_"@.len() != "KeyPath"@.len());
            } else if j == 3 {
                assert(cols[3].name == "Attributes"@);
                assert("Attributes"@.len() != "KeyPath"@.len());
            } else if j == 4 {
                assert(cols[4].name == "Condition"@);
                assert("Condition"@.len() != "KeyPath"@.len());
            }
        }
    }
}

} // verus!
