//! The Shortcut table: shortcuts that the package creates.

use vstd::prelude::*;
use vstd::string::*;
use crate::identifier::{Identifier, opt_id_value, opt_id_view, ShortcutIdentifier, ComponentIdentifier, DirectoryIdentifier, IconIdentifier};
use crate::tables::column::{Category, ColumnKind, ColumnSpec, ColumnView, col, column, columns_view, cell_under, column_at};
use crate::tables::dao::{DaoContainer, IsDao, MsiBuilderListEntry, PackageWriter, ToUniqueMsiIdentifier};
use crate::value::{Value, ValueView, row_view, opt_str_value, opt_str_view, i16_value, opt_i16_value, opt_i32_value, opt_int_view};
use crate::constants::{DEFAULT_IDENTIFIER_MAX_LEN};
use crate::types::{Filename, Formatted, Shortcut};

verus! {

/// One shortcut that the package creates.
pub struct ShortcutDao {
    pub identifier: ShortcutIdentifier,
    pub component_: ComponentIdentifier,
    pub name: Filename,
    pub directory_: DirectoryIdentifier,
    pub target: Shortcut,
    pub arguments: Option<Formatted>,
    pub description: Option<String>,
    pub hotkey: Option<i16>,
    pub icon_: Option<IconIdentifier>,
    pub icon_index: Option<i16>,
    pub show_cmd: Option<i16>,
    pub wk_dir: Option<Identifier>,
    pub display_resource_dll: Option<Formatted>,
    pub display_resource_id: Option<i16>,
    pub description_resource_dll: Option<Formatted>,
    pub description_resource_id: Option<i16>,
}

impl ShortcutDao {
    /// A shortcut keyed `shortcut_id`, named `name`, placed in the directory
    /// `directory_id`, pointing at `target`, and installed with the
    /// component `component_id`; every optional column is left empty.
    pub fn new(
        shortcut_id: ShortcutIdentifier,
        directory_id: DirectoryIdentifier,
        name: Filename,
        component_id: ComponentIdentifier,
        target: Shortcut,
    ) -> (r: ShortcutDao)
        ensures
            r.identifier == shortcut_id,
            r.directory_ == directory_id,
            r.name == name,
            r.component_ == component_id,
            r.target == target,
            r.arguments is None,
            r.description is None,
            r.hotkey is None,
            r.icon_ is None,
            r.icon_index is None,
            r.show_cmd is None,
            r.wk_dir is None,
            r.display_resource_dll is None,
            r.display_resource_id is None,
            r.description_resource_dll is None,
            r.description_resource_id is None,
    {
        ShortcutDao {
            identifier: shortcut_id,
            directory_: directory_id,
            name,
            component_: component_id,
            target,
            arguments: None,
            description: None,
            hotkey: None,
            icon_: None,
            icon_index: None,
            show_cmd: None,
            wk_dir: None,
            display_resource_dll: None,
            display_resource_id: None,
            description_resource_dll: None,
            description_resource_id: None,
        }
    }

    /// The same shortcut with the icon `icon`.
    pub fn with_icon_(self, icon: Option<IconIdentifier>) -> (r: ShortcutDao)
        ensures
            r == (ShortcutDao { icon_: icon, ..self }),
    {
        ShortcutDao { icon_: icon, ..self }
    }

    /// The same shortcut with the icon at position `index` in the icon file.
    pub fn with_icon_index(self, index: Option<i16>) -> (r: ShortcutDao)
        ensures
            r == (ShortcutDao { icon_index: index, ..self }),
    {
        ShortcutDao { icon_index: index, ..self }
    }
}

impl IsDao for ShortcutDao {
    open spec fn row_spec(&self) -> Seq<ValueView> {
        seq![
            ValueView::Str(self.identifier@),
            ValueView::Str(self.directory_@),
            ValueView::Str(self.name@),
            ValueView::Str(self.component_@),
            ValueView::Str(self.target@),
            opt_str_view(&self.arguments),
            opt_str_view(&self.description),
            opt_int_view(match self.hotkey { Some(v) => Some(v as int), None => None }),
            opt_id_view(self.icon_),
            opt_int_view(match self.icon_index { Some(v) => Some(v as int), None => None }),
            opt_int_view(match self.show_cmd { Some(v) => Some(v as int), None => None }),
            opt_id_view(self.wk_dir),
            opt_str_view(&self.display_resource_dll),
            opt_int_view(match self.display_resource_id { Some(v) => Some(v as int), None => None }),
            opt_str_view(&self.description_resource_dll),
            opt_int_view(match self.description_resource_id { Some(v) => Some(v as int), None => None }),
        ]
    }

    fn to_row(&self) -> (r: Vec<Value>) {
        let r = vec![
            self.identifier.to_value(),
            self.directory_.to_value(),
            self.name.to_value(),
            self.component_.to_value(),
            self.target.to_value(),
            opt_str_value(&self.arguments),
            opt_str_value(&self.description),
            opt_i16_value(self.hotkey),
            opt_id_value(&self.icon_),
            opt_i16_value(self.icon_index),
            opt_i16_value(self.show_cmd),
            opt_id_value(&self.wk_dir),
            opt_str_value(&self.display_resource_dll),
            opt_i16_value(self.display_resource_id),
            opt_str_value(&self.description_resource_dll),
            opt_i16_value(self.description_resource_id),
        ];
        assert(row_view(r@) =~= self.row_spec());
        r
    }
}

impl MsiBuilderListEntry for ShortcutDao {
    /// Two shortcuts conflict when they have the same key.
    open spec fn conflicts_spec(&self, other: &Self) -> bool {
        self.identifier@ == other.identifier@
    }

    fn conflicts(&self, other: &Self) -> (r: bool) {
        self.identifier.same(&other.identifier)
    }
}

impl ToUniqueMsiIdentifier for ShortcutDao {
    open spec fn unique_id_spec(&self) -> Option<Seq<char>> {
        Some(self.identifier@)
    }

    fn to_unique_msi_identifier(&self) -> (r: Option<Identifier>) {
        Some(self.identifier.clone())
    }
}

/// The Shortcut table.
pub struct ShortcutTable {
    entries: Vec<ShortcutDao>,
}

impl ShortcutTable {
    /// An empty table.
    pub fn new() -> (r: ShortcutTable)
        ensures
            r.entries_spec() == Seq::<ShortcutDao>::empty(),
    {
        ShortcutTable { entries: Vec::new() }
    }
}

impl DaoContainer for ShortcutTable {
    type Dao = ShortcutDao;

    closed spec fn entries_spec(&self) -> Seq<ShortcutDao> {
        self.entries@
    }

    fn entries(&self) -> (r: &Vec<ShortcutDao>) {
        &self.entries
    }

    fn push_entry(&mut self, entry: ShortcutDao) {
        self.entries.push(entry);
    }
}

impl PackageWriter for ShortcutTable {
    open spec fn name_spec() -> Seq<char> {
        "Shortcut"@
    }

    open spec fn columns_spec() -> Seq<ColumnView> {
        seq![
            col("Shortcut"@, ColumnKind::Str(Category::Identifier, DEFAULT_IDENTIFIER_MAX_LEN), true, false, false),
            col("Directory_"@, ColumnKind::Str(Category::Identifier, DEFAULT_IDENTIFIER_MAX_LEN), false, false, false),
            col("Name"@, ColumnKind::Str(Category::Filename, 255), false, false, true),
            col("Component_"@, ColumnKind::Str(Category::Identifier, DEFAULT_IDENTIFIER_MAX_LEN), false, false, false),
            col("Target"@, ColumnKind::Str(Category::Shortcut, 255), false, false, false),
            col("Arguments"@, ColumnKind::Str(Category::Formatted, 255), false, true, false),
            col("Description"@, ColumnKind::Str(Category::Formatted, 255), false, true, false),
            col("Hotkey"@, ColumnKind::Int16, false, true, false),
            col("Icon_"@, ColumnKind::Str(Category::Identifier, DEFAULT_IDENTIFIER_MAX_LEN), false, true, false),
            col("IconIndex"@, ColumnKind::Int16, false, true, false),
            col("ShowCmd"@, ColumnKind::Int16, false, true, false),
            col("WkDir"@, ColumnKind::Str(Category::Identifier, DEFAULT_IDENTIFIER_MAX_LEN), false, true, false),
            col("DisplayResourceDLL"@, ColumnKind::Str(Category::Formatted, 255), false, true, false),
            col("DisplayResourceId"@, ColumnKind::Int16, false, true, false),
            col("DescriptionResourceDLL"@, ColumnKind::Str(Category::Formatted, 255), false, true, false),
            col("DescriptionResourceId"@, ColumnKind::Int16, false, true, false),
        ]
    }

    fn name(&self) -> (r: &'static str) {
        "Shortcut"
    }

    fn columns(&self) -> (r: Vec<ColumnSpec>) {
        let r = vec![
            column("Shortcut", ColumnKind::Str(Category::Identifier, DEFAULT_IDENTIFIER_MAX_LEN), true, false, false),
            column("Directory_", ColumnKind::Str(Category::Identifier, DEFAULT_IDENTIFIER_MAX_LEN), false, false, false),
            column("Name", ColumnKind::Str(Category::Filename, 255), false, false, true),
            column("Component_", ColumnKind::Str(Category::Identifier, DEFAULT_IDENTIFIER_MAX_LEN), false, false, false),
            column("Target", ColumnKind::Str(Category::Shortcut, 255), false, false, false),
            column("Arguments", ColumnKind::Str(Category::Formatted, 255), false, true, false),
            column("Description", ColumnKind::Str(Category::Formatted, 255), false, true, false),
            column("Hotkey", ColumnKind::Int16, false, true, false),
            column("Icon_", ColumnKind::Str(Category::Identifier, DEFAULT_IDENTIFIER_MAX_LEN), false, true, false),
            column("IconIndex", ColumnKind::Int16, false, true, false),
            column("ShowCmd", ColumnKind::Int16, false, true, false),
            column("WkDir", ColumnKind::Str(Category::Identifier, DEFAULT_IDENTIFIER_MAX_LEN), false, true, false),
            column("DisplayResourceDLL", ColumnKind::Str(Category::Formatted, 255), false, true, false),
            column("DisplayResourceId", ColumnKind::Int16, false, true, false),
            column("DescriptionResourceDLL", ColumnKind::Str(Category::Formatted, 255), false, true, false),
            column("DescriptionResourceId", ColumnKind::Int16, false, true, false),
        ];
        assert(columns_view(r@) =~= Self::columns_spec());
        r
    }

    proof fn lemma_row_arity(entry: &ShortcutDao) {
    }
}

/// The row of a Shortcut entry has one cell per column, and each cell lies
/// under the column of the field it holds: `Shortcut` holds `identifier`,
/// `Directory_` holds `directory_`, `Name` holds `name`, `Component_` holds
/// `component_`, `Target` holds `target`, `Arguments` holds `arguments`,
/// `Description` holds `description`, `Hotkey` holds `hotkey`, `Icon_` holds
/// `icon_`, `IconIndex` holds `icon_index`, `ShowCmd` holds `show_cmd`, `WkDir`
/// holds `wk_dir`, `DisplayResourceDLL` holds `display_resource_dll`,
/// `DisplayResourceId` holds `display_resource_id`, `DescriptionResourceDLL`
/// holds `description_resource_dll`, `DescriptionResourceId` holds
/// `description_resource_id`.
pub proof fn lemma_shortcut_dao_row_columns(d: ShortcutDao)
    ensures
        cell_under(d.row_spec(), ShortcutTable::columns_spec(), "Shortcut"@, ValueView::Str(d.identifier@)),
        cell_under(d.row_spec(), ShortcutTable::columns_spec(), "Directory_"@, ValueView::Str(d.directory_@)),
        cell_under(d.row_spec(), ShortcutTable::columns_spec(), "Name"@, ValueView::Str(d.name@)),
        cell_under(d.row_spec(), ShortcutTable::columns_spec(), "Component_"@, ValueView::Str(d.component_@)),
        cell_under(d.row_spec(), ShortcutTable::columns_spec(), "Target"@, ValueView::Str(d.target@)),
        cell_under(d.row_spec(), ShortcutTable::columns_spec(), "Arguments"@, opt_str_view(&d.arguments)),
        cell_under(d.row_spec(), ShortcutTable::columns_spec(), "Description"@, opt_str_view(&d.description)),
        cell_under(d.row_spec(), ShortcutTable::columns_spec(), "Hotkey"@, opt_int_view(match d.hotkey { Some(v) => Some(v as int), None => None })),
        cell_under(d.row_spec(), ShortcutTable::columns_spec(), "Icon_"@, opt_id_view(d.icon_)),
        cell_under(d.row_spec(), ShortcutTable::columns_spec(), "IconIndex"@, opt_int_view(match d.icon_index { Some(v) => Some(v as int), None => None })),
        cell_under(d.row_spec(), ShortcutTable::columns_spec(), "ShowCmd"@, opt_int_view(match d.show_cmd { Some(v) => Some(v as int), None => None })),
        cell_under(d.row_spec(), ShortcutTable::columns_spec(), "WkDir"@, opt_id_view(d.wk_dir)),
        cell_under(d.row_spec(), ShortcutTable::columns_spec(), "DisplayResourceDLL"@, opt_str_view(&d.display_resource_dll)),
        cell_under(d.row_spec(), ShortcutTable::columns_spec(), "DisplayResourceId"@, opt_int_view(match d.display_resource_id { Some(v) => Some(v as int), None => None })),
        cell_under(d.row_spec(), ShortcutTable::columns_spec(), "DescriptionResourceDLL"@, opt_str_view(&d.description_resource_dll)),
        cell_under(d.row_spec(), ShortcutTable::columns_spec(), "DescriptionResourceId"@, opt_int_view(match d.description_resource_id { Some(v) => Some(v as int), None => None })),
{
    let cols = ShortcutTable::columns_spec();
    reveal_strlit("Shortcut");
    reveal_strlit("Directory_");
    reveal_strlit("Name");
    reveal_strlit("Component_");
    reveal_strlit("Target");
    reveal_strlit("Arguments");
    reveal_strlit("Description");
    reveal_strlit("Hotkey");
    reveal_strlit("Icon_");
    reveal_strlit("IconIndex");
    reveal_strlit("ShowCmd");
    reveal_strlit("WkDir");
    reveal_strlit("DisplayResourceDLL");
    reveal_strlit("DisplayResourceId");
    reveal_strlit("DescriptionResourceDLL");
    reveal_strlit("DescriptionResourceId");
    assert(column_at(cols, "Shortcut"@, 0)) by {
        assert forall|j: int| 0 <= j < cols.len() && j != 0 implies (#[trigger] cols[j]).name != "Shortcut"@ by {
            if j == 1 {
                assert(cols[1].name == "Directory_"@);
                assert("Directory_"@.len() != "Shortcut"@.len());
            } else if j == 2 {
                assert(cols[2].name == "Name"@);
                assert("Name"@.len() != "Shortcut"@.len());
            } else if j == 3 {
                assert(cols[3].name == "Component_"@);
                assert("Component_"@.len() != "Shortcut"@.len());
            } else if j == 4 {
                assert(cols[4].name == "Target"@);
                assert("Target"@.len() != "Shortcut"@.len());
            } else if j == 5 {
                assert(cols[5].name == "Arguments"@);
                assert("Arguments"@.len() != "Shortcut"@.len());
            } else if j == 6 {
                assert(cols[6].name == "Description"@);
                assert("Description"@.len() != "Shortcut"@.len());
            } else if j == 7 {
                assert(cols[7].name == "Hotkey"@);
                assert("Hotkey"@.len() != "Shortcut"@.len());
            } else if j == 8 {
                assert(cols[8].name == "Icon_"@);
                assert("Icon_"@.len() != "Shortcut"@.len());
            } else if j == 9 {
                assert(cols[9].name == "IconIndex"@);
                assert("IconIndex"@.len() != "Shortcut"@.len());
            } else if j == 10 {
                assert(cols[10].name == "ShowCmd"@);
                assert("ShowCmd"@.len() != "Shortcut"@.len());
            } else if j == 11 {
                assert(cols[11].name == "WkDir"@);
                assert("WkDir"@.len() != "Shortcut"@.len());
            } else if j == 12 {
                assert(cols[12].name == "DisplayResourceDLL"@);
                assert("DisplayResourceDLL"@.len() != "Shortcut"@.len());
            } else if j == 13 {
                assert(cols[13].name == "DisplayResourceId"@);
                assert("DisplayResourceId"@.len() != "Shortcut"@.len());
            } else if j == 14 {
                assert(cols[14].name == "DescriptionResourceDLL"@);
                assert("DescriptionResourceDLL"@.len() != "Shortcut"@.len());
            } else if j == 15 {
                assert(cols[15].name == "DescriptionResourceId"@);
                assert("DescriptionResourceId"@.len() != "Shortcut"@.len());
            }
        }
    }
    assert(column_at(cols, "Directory_"@, 1)) by {
        assert forall|j: int| 0 <= j < cols.len() && j != 1 implies (#[trigger] cols[j]).name != "Directory_"@ by {
            if j == 0 {
                assert(cols[0].name == "Shortcut"@);
                assert("Shortcut"@.len() != "Directory_"@.len());
            } else if j == 2 {
                assert(cols[2].name == "Name"@);
                assert("Name"@.len() != "Directory_"@.len());
            } else if j == 3 {
                assert(cols[3].name == "Component_"@);
                assert("Component_"@[0] != "Directory_"@[0]);
            } else if j == 4 {
                assert(cols[4].name == "Target"@);
                assert("Target"@.len() != "Directory_"@.len());
            } else if j == 5 {
                assert(cols[5].name == "Arguments"@);
                assert("Arguments"@.len() != "Directory_"@.len());
            } else if j == 6 {
                assert(cols[6].name == "Description"@);
                assert("Description"@.len() != "Directory_"@.len());
            } else if j == 7 {
                assert(cols[7].name == "Hotkey"@);
                assert("Hotkey"@.len() != "Directory_"@.len());
            } else if j == 8 {
                assert(cols[8].name == "Icon_"@);
                assert("Icon_"@.len() != "Directory_"@.len());
            } else if j == 9 {
                assert(cols[9].name == "IconIndex"@);
                assert("IconIndex"@.len() != "Directory_"@.len());
            } else if j == 10 {
                assert(cols[10].name == "ShowCmd"@);
                assert("ShowCmd"@.len() != "Directory_"@.len());
            } else if j == 11 {
                assert(cols[11].name == "WkDir"@);
                assert("WkDir"@.len() != "Directory_"@.len());
            } else if j == 12 {
                assert(cols[12].name == "DisplayResourceDLL"@);
                assert("DisplayResourceDLL"@.len() != "Directory_"@.len());
            } else if j == 13 {
                assert(cols[13].name == "DisplayResourceId"@);
                assert("DisplayResourceId"@.len() != "Directory_"@.len());
            } else if j == 14 {
                assert(cols[14].name == "DescriptionResourceDLL"@);
                assert("DescriptionResourceDLL"@.len() != "Directory_"@.len());
            } else if j == 15 {
                assert(cols[15].name == "DescriptionResourceId"@);
                assert("DescriptionResourceId"@.len() != "Directory_"@.len());
            }
        }
    }
    assert(column_at(cols, "Name"@, 2)) by {
        assert forall|j: int| 0 <= j < cols.len() && j != 2 implies (#[trigger] cols[j]).name != "Name"@ by {
            if j == 0 {
                assert(cols[0].name == "Shortcut"@);
                assert("Shortcut"@.len() != "Name"@.len());
            } else if j == 1 {
                assert(cols[1].name == "Directory_"@);
                assert("Directory_"@.len() != "Name"@.len());
            } else if j == 3 {
                assert(cols[3].name == "Component_"@);
                assert("Component_"@.len() != "Name"@.len());
            } else if j == 4 {
                assert(cols[4].name == "Target"@);
                assert("Target"@.len() != "Name"@.len());
            } else if j == 5 {
                assert(cols[5].name == "Arguments"@);
                assert("Arguments"@.len() != "Name"@.len());
            } else if j == 6 {
                assert(cols[6].name == "Description"@);
                assert("Description"@.len() != "Name"@.len());
            } else if j == 7 {
                assert(cols[7].name == "Hotkey"@);
                assert("Hotkey"@.len() != "Name"@.len());
            } else if j == 8 {
                assert(cols[8].name == "Icon_"@);
                assert("Icon_"@.len() != "Name"@.len());
            } else if j == 9 {
                assert(cols[9].name == "IconIndex"@);
                assert("IconIndex"@.len() != "Name"@.len());
            } else if j == 10 {
                assert(cols[10].name == "ShowCmd"@);
                assert("ShowCmd"@.len() != "Name"@.len());
            } else if j == 11 {
                assert(cols[11].name == "WkDir"@);
                assert("WkDir"@.len() != "Name"@.len());
            } else if j == 12 {
                assert(cols[12].name == "DisplayResourceDLL"@);
                assert("DisplayResourceDLL"@.len() != "Name"@.len());
            } else if j == 13 {
                assert(cols[13].name == "DisplayResourceId"@);
                assert("DisplayResourceId"@.len() != "Name"@.len());
            } else if j == 14 {
                assert(cols[14].name == "DescriptionResourceDLL"@);
                assert("DescriptionResourceDLL"@.len() != "Name"@.len());
            } else if j == 15 {
                assert(cols[15].name == "DescriptionResourceId"@);
                assert("DescriptionResourceId"@.len() != "Name"@.len());
            }
        }
    }
    assert(column_at(cols, "Component_"@, 3)) by {
        assert forall|j: int| 0 <= j < cols.len() && j != 3 implies (#[trigger] cols[j]).name != "Component_"@ by {
            if j == 0 {
                assert(cols[0].name == "Shortcut"@);
                assert("Shortcut"@.len() != "Component_"@.len());
            } else if j == 1 {
                assert(cols[1].name == "Directory_"@);
                assert("Directory_"@[0] != "Component_"@[0]);
            } else if j == 2 {
                assert(cols[2].name == "Name"@);
                assert("Name"@.len() != "Component_"@.len());
            } else if j == 4 {
                assert(cols[4].name == "Target"@);
                assert("Target"@.len() != "Component_"@.len());
            } else if j == 5 {
                assert(cols[5].name == "Arguments"@);
                assert("Arguments"@.len() != "Component_"@.len());
            } else if j == 6 {
                assert(cols[6].name == "Description"@);
                assert("Description"@.len() != "Component_"@.len());
            } else if j == 7 {
                assert(cols[7].name == "Hotkey"@);
                assert("Hotkey"@.len() != "Component_"@.len());
            } else if j == 8 {
                assert(cols[8].name == "Icon_"@);
                assert("Icon_"@.len() != "Component_"@.len());
            } else if j == 9 {
                assert(cols[9].name == "IconIndex"@);
                assert("IconIndex"@.len() != "Component_"@.len());
            } else if j == 10 {
                assert(cols[10].name == "ShowCmd"@);
                assert("ShowCmd"@.len() != "Component_"@.len());
            } else if j == 11 {
                assert(cols[11].name == "WkDir"@);
                assert("WkDir"@.len() != "Component_"@.len());
            } else if j == 12 {
                assert(cols[12].name == "DisplayResourceDLL"@);
                assert("DisplayResourceDLL"@.len() != "Component_"@.len());
            } else if j == 13 {
                assert(cols[13].name == "DisplayResourceId"@);
                assert("DisplayResourceId"@.len() != "Component_"@.len());
            } else if j == 14 {
                assert(cols[14].name == "DescriptionResourceDLL"@);
                assert("DescriptionResourceDLL"@.len() != "Component_"@.len());
            } else if j == 15 {
                assert(cols[15].name == "DescriptionResourceId"@);
                assert("DescriptionResourceId"@.len() != "Component_"@.len());
            }
        }
    }
    assert(column_at(cols, "Target"@, 4)) by {
        assert forall|j: int| 0 <= j < cols.len() && j != 4 implies (#[trigger] cols[j]).name != "Target"@ by {
            if j == 0 {
                assert(cols[0].name == "Shortcut"@);
                assert("Shortcut"@.len() != "Target"@.len());
            } else if j == 1 {
                assert(cols[1].name == "Directory_"@);
                assert("Directory_"@.len() != "Target"@.len());
            } else if j == 2 {
                assert(cols[2].name == "Name"@);
                assert("Name"@.len() != "Target"@.len());
            } else if j == 3 {
                assert(cols[3].name == "Component_"@);
                assert("Component_"@.len() != "Target"@.len());
            } else if j == 5 {
                assert(cols[5].name == "Arguments"@);
                assert("Arguments"@.len() != "Target"@.len());
            } else if j == 6 {
                assert(cols[6].name == "Description"@);
                assert("Description"@.len() != "Target"@.len());
            } else if j == 7 {
                assert(cols[7].name == "Hotkey"@);
                assert("Hotkey"@[0] != "Target"@[0]);
            } else if j == 8 {
                assert(cols[8].name == "Icon_"@);
                assert("Icon_"@.len() != "Target"@.len());
            } else if j == 9 {
                assert(cols[9].name == "IconIndex"@);
                assert("IconIndex"@.len() != "Target"@.len());
            } else if j == 10 {
                assert(cols[10].name == "ShowCmd"@);
                assert("ShowCmd"@.len() != "Target"@.len());
            } else if j == 11 {
                assert(cols[11].name == "WkDir"@);
                assert("WkDir"@.len() != "Target"@.len());
            } else if j == 12 {
                assert(cols[12].name == "DisplayResourceDLL"@);
                assert("DisplayResourceDLL"@.len() != "Target"@.len());
            } else if j == 13 {
                assert(cols[13].name == "DisplayResourceId"@);
                assert("DisplayResourceId"@.len() != "Target"@.len());
            } else if j == 14 {
                assert(cols[14].name == "DescriptionResourceDLL"@);
                assert("DescriptionResourceDLL"@.len() != "Target"@.len());
            } else if j == 15 {
                assert(cols[15].name == "DescriptionResourceId"@);
                assert("DescriptionResourceId"@.len() != "Target"@.len());
            }
        }
    }
    assert(column_at(cols, "Arguments"@, 5)) by {
        assert forall|j: int| 0 <= j < cols.len() && j != 5 implies (#[trigger] cols[j]).name != "Arguments"@ by {
            if j == 0 {
                assert(cols[0].name == "Shortcut"@);
                assert("Shortcut"@.len() != "Arguments"@.len());
            } else if j == 1 {
                assert(cols[1].name == "Directory_"@);
                assert("Directory_"@.len() != "Arguments"@.len());
            } else if j == 2 {
                assert(cols[2].name == "Name"@);
                assert("Name"@.len() != "Arguments"@.len());
            } else if j == 3 {
                assert(cols[3].name == "Component_"@);
                assert("Component_"@.len() != "Arguments"@.len());
            } else if j == 4 {
                assert(cols[4].name == "Target"@);
                assert("Target"@.len() != "Arguments"@.len());
            } else if j == 6 {
                assert(cols[6].name == "Description"@);
                assert("Description"@.len() != "Arguments"@.len());
            } else if j == 7 {
                assert(cols[7].name == "Hotkey"@);
                assert("Hotkey"@.len() != "Arguments"@.len());
            } else if j == 8 {
                assert(cols[8].name == "Icon_"@);
                assert("Icon_"@.len() != "Arguments"@.len());
            } else if j == 9 {
                assert(cols[9].name == "IconIndex"@);
                assert("IconIndex"@[0] != "Arguments"@[0]);
            } else if j == 10 {
                assert(cols[10].name == "ShowCmd"@);
                assert("ShowCmd"@.len() != "Arguments"@.len());
            } else if j == 11 {
                assert(cols[11].name == "WkDir"@);
                assert("WkDir"@.len() != "Arguments"@.len());
            } else if j == 12 {
                assert(cols[12].name == "DisplayResourceDLL"@);
                assert("DisplayResourceDLL"@.len() != "Arguments"@.len());
            } else if j == 13 {
                assert(cols[13].name == "DisplayResourceId"@);
                assert("DisplayResourceId"@.len() != "Arguments"@.len());
            } else if j == 14 {
                assert(cols[14].name == "DescriptionResourceDLL"@);
                assert("DescriptionResourceDLL"@.len() != "Arguments"@.len());
            } else if j == 15 {
                assert(cols[15].name == "DescriptionResourceId"@);
                assert("DescriptionResourceId"@.len() != "Arguments"@.len());
            }
        }
    }
    assert(column_at(cols, "Description"@, 6)) by {
        assert forall|j: int| 0 <= j < cols.len() && j != 6 implies (#[trigger] cols[j]).name != "Description"@ by {
            if j == 0 {
                assert(cols[0].name == "Shortcut"@);
                assert("Shortcut"@.len() != "Description"@.len());
            } else if j == 1 {
                assert(cols[1].name == "Directory_"@);
                assert("Directory_"@.len() != "Description"@.len());
            } else if j == 2 {
                assert(cols[2].name == "Name"@);
                assert("Name"@.len() != "Description"@.len());
            } else if j == 3 {
                assert(cols[3].name == "Component_"@);
                assert("Component_"@.len() != "Description"@.len());
            } else if j == 4 {
                assert(cols[4].name == "Target"@);
                assert("Target"@.len() != "Description"@.len());
            } else if j == 5 {
                assert(cols[5].name == "Arguments"@);
                assert("Arguments"@.len() != "Description"@.len());
            } else if j == 7 {
                assert(cols[7].name == "Hotkey"@);
                assert("Hotkey"@.len() != "Description"@.len());
            } else if j == 8 {
                assert(cols[8].name == "Icon_"@);
                assert("Icon_"@.len() != "Description"@.len());
            } else if j == 9 {
                assert(cols[9].name == "IconIndex"@);
                assert("IconIndex"@.len() != "Description"@.len());
            } else if j == 10 {
                assert(cols[10].name == "ShowCmd"@);
                assert("ShowCmd"@.len() != "Description"@.len());
            } else if j == 11 {
                assert(cols[11].name == "WkDir"@);
                assert("WkDir"@.len() != "Description"@.len());
            } else if j == 12 {
                assert(cols[12].name == "DisplayResourceDLL"@);
                assert("DisplayResourceDLL"@.len() != "Description"@.len());
            } else if j == 13 {
                assert(cols[13].name == "DisplayResourceId"@);
                assert("DisplayResourceId"@.len() != "Description"@.len());
            } else if j == 14 {
                assert(cols[14].name == "DescriptionResourceDLL"@);
                assert("DescriptionResourceDLL"@.len() != "Description"@.len());
            } else if j == 15 {
                assert(cols[15].name == "DescriptionResourceId"@);
                assert("DescriptionResourceId"@.len() != "Description"@.len());
            }
        }
    }
    assert(column_at(cols, "Hotkey"@, 7)) by {
        assert forall|j: int| 0 <= j < cols.len() && j != 7 implies (#[trigger] cols[j]).name != "Hotkey"@ by {
            if j == 0 {
                assert(cols[0].name == "Shortcut"@);
                assert("Shortcut"@.len() != "Hotkey"@.len());
            } else if j == 1 {
                assert(cols[1].name == "Directory_"@);
                assert("Directory_"@.len() != "Hotkey"@.len());
            } else if j == 2 {
                assert(cols[2].name == "Name"@);
                assert("Name"@.len() != "Hotkey"@.len());
            } else if j == 3 {
                assert(cols[3].name == "Component_"@);
                assert("Component_"@.len() != "Hotkey"@.len());
            } else if j == 4 {
                assert(cols[4].name == "Target"@);
                assert("Target"@[0] != "Hotkey"@[0]);
            } else if j == 5 {
                assert(cols[5].name == "Arguments"@);
                assert("Arguments"@.len() != "Hotkey"@.len());
            } else if j == 6 {
                assert(cols[6].name == "Description"@);
                assert("Description"@.len() != "Hotkey"@.len());
            } else if j == 8 {
                assert(cols[8].name == "Icon_"@);
                assert("Icon_"@.len() != "Hotkey"@.len());
            } else if j == 9 {
                assert(cols[9].name == "IconIndex"@);
                assert("IconIndex"@.len() != "Hotkey"@.len());
            } else if j == 10 {
                assert(cols[10].name == "ShowCmd"@);
                assert("ShowCmd"@.len() != "Hotkey"@.len());
            } else if j == 11 {
                assert(cols[11].name == "WkDir"@);
                assert("WkDir"@.len() != "Hotkey"@.len());
            } else if j == 12 {
                assert(cols[12].name == "DisplayResourceDLL"@);
                assert("DisplayResourceDLL"@.len() != "Hotkey"@.len());
            } else if j == 13 {
                assert(cols[13].name == "DisplayResourceId"@);
                assert("DisplayResourceId"@.len() != "Hotkey"@.len());
            } else if j == 14 {
                assert(cols[14].name == "DescriptionResourceDLL"@);
                assert("DescriptionResourceDLL"@.len() != "Hotkey"@.len());
            } else if j == 15 {
                assert(cols[15].name == "DescriptionResourceId"@);
                assert("DescriptionResourceId"@.len() != "Hotkey"@.len());
            }
        }
    }
    assert(column_at(cols, "Icon_"@, 8)) by {
        assert forall|j: int| 0 <= j < cols.len() && j != 8 implies (#[trigger] cols[j]).name != "Icon_"@ by {
            if j == 0 {
                assert(cols[0].name == "Shortcut"@);
                assert("Shortcut"@.len() != "Icon_"@.len());
            } else if j == 1 {
                assert(cols[1].name == "Directory_"@);
                assert("Directory_"@.len() != "Icon_"@.len());
            } else if j == 2 {
                assert(cols[2].name == "Name"@);
                assert("Name"@.len() != "Icon_"@.len());
            } else if j == 3 {
                assert(cols[3].name == "Component_"@);
                assert("Component_"@.len() != "Icon_"@.len());
            } else if j == 4 {
                assert(cols[4].name == "Target"@);
                assert("Target"@.len() != "Icon_"@.len());
            } else if j == 5 {
                assert(cols[5].name == "Arguments"@);
                assert("Arguments"@.len() != "Icon_"@.len());
            } else if j == 6 {
                assert(cols[6].name == "Description"@);
                assert("Description"@.len() != "Icon_"@.len());
            } else if j == 7 {
                assert(cols[7].name == "Hotkey"@);
                assert("Hotkey"@.len() != "Icon_"@.len());
            } else if j == 9 {
                assert(cols[9].name == "IconIndex"@);
                assert("IconIndex"@.len() != "Icon_"@.len());
            } else if j == 10 {
                assert(cols[10].name == "ShowCmd"@);
                assert("ShowCmd"@.len() != "Icon_"@.len());
            } else if j == 11 {
                assert(cols[11].name == "WkDir"@);
                assert("WkDir"@[0] != "Icon_"@[0]);
            } else if j == 12 {
                assert(cols[12].name == "DisplayResourceDLL"@);
                assert("DisplayResourceDLL"@.len() != "Icon_"@.len());
            } else if j == 13 {
                assert(cols[13].name == "DisplayResourceId"@);
                assert("DisplayResourceId"@.len() != "Icon_"@.len());
            } else if j == 14 {
                assert(cols[14].name == "DescriptionResourceDLL"@);
                assert("DescriptionResourceDLL"@.len() != "Icon_"@.len());
            } else if j == 15 {
                assert(cols[15].name == "DescriptionResourceId"@);
                assert("DescriptionResourceId"@.len() != "Icon_"@.len());
            }
        }
    }
    assert(column_at(cols, "IconIndex"@, 9)) by {
        assert forall|j: int| 0 <= j < cols.len() && j != 9 implies (#[trigger] cols[j]).name != "IconIndex"@ by {
            if j == 0 {
                assert(cols[0].name == "Shortcut"@);
                assert("Shortcut"@.len() != "IconIndex"@.len());
            } else if j == 1 {
                assert(cols[1].name == "Directory_"@);
                assert("Directory_"@.len() != "IconIndex"@.len());
            } else if j == 2 {
                assert(cols[2].name == "Name"@);
                assert("Name"@.len() != "IconIndex"@.len());
            } else if j == 3 {
                assert(cols[3].name == "Component_"@);
                assert("Component_"@.len() != "IconIndex"@.len());
            } else if j == 4 {
                assert(cols[4].name == "Target"@);
                assert("Target"@.len() != "IconIndex"@.len());
            } else if j == 5 {
                assert(cols[5].name == "Arguments"@);
                assert("Arguments"@[0] != "IconIndex"@[0]);
            } else if j == 6 {
                assert(cols[6].name == "Description"@);
                assert("Description"@.len() != "IconIndex"@.len());
            } else if j == 7 {
                assert(cols[7].name == "Hotkey"@);
                assert("Hotkey"@.len() != "IconIndex"@.len());
            } else if j == 8 {
                assert(cols[8].name == "Icon_"@);
                assert("Icon_"@.len() != "IconIndex"@.len());
            } else if j == 10 {
                assert(cols[10].name == "ShowCmd"@);
                assert("ShowCmd"@.len() != "IconIndex"@.len());
            } else if j == 11 {
                assert(cols[11].name == "WkDir"@);
                assert("WkDir"@.len() != "IconIndex"@.len());
            } else if j == 12 {
                assert(cols[12].name == "DisplayResourceDLL"@);
                assert("DisplayResourceDLL"@.len() != "IconIndex"@.len());
            } else if j == 13 {
                assert(cols[13].name == "DisplayResourceId"@);
                assert("DisplayResourceId"@.len() != "IconIndex"@.len());
            } else if j == 14 {
                assert(cols[14].name == "DescriptionResourceDLL"@);
                assert("DescriptionResourceDLL"@.len() != "IconIndex"@.len());
            } else if j == 15 {
                assert(cols[15].name == "DescriptionResourceId"@);
                assert("DescriptionResourceId"@.len() != "IconIndex"@.len());
            }
        }
    }
    assert(column_at(cols, "ShowCmd"@, 10)) by {
        assert forall|j: int| 0 <= j < cols.len() && j != 10 implies (#[trigger] cols[j]).name != "ShowCmd"@ by {
            if j == 0 {
                assert(cols[0].name == "Shortcut"@);
                assert("Shortcut"@.len() != "ShowCmd"@.len());
            } else if j == 1 {
                assert(cols[1].name == "Directory_"@);
                assert("Directory_"@.len() != "ShowCmd"@.len());
            } else if j == 2 {
                assert(cols[2].name == "Name"@);
                assert("Name"@.len() != "ShowCmd"@.len());
            } else if j == 3 {
                assert(cols[3].name == "Component_"@);
                assert("Component_"@.len() != "ShowCmd"@.len());
            } else if j == 4 {
                assert(cols[4].name == "Target"@);
                assert("Target"@.len() != "ShowCmd"@.len());
            } else if j == 5 {
                assert(cols[5].name == "Arguments"@);
                assert("Arguments"@.len() != "ShowCmd"@.len());
            } else if j == 6 {
                assert(cols[6].name == "Description"@);
                assert("Description"@.len() != "ShowCmd"@.len());
            } else if j == 7 {
                assert(cols[7].name == "Hotkey"@);
                assert("Hotkey"@.len() != "ShowCmd"@.len());
            } else if j == 8 {
                assert(cols[8].name == "Icon_"@);
                assert("Icon_"@.len() != "ShowCmd"@.len());
            } else if j == 9 {
                assert(cols[9].name == "IconIndex"@);
                assert("IconIndex"@.len() != "ShowCmd"@.len());
            } else if j == 11 {
                assert(cols[11].name == "WkDir"@);
                assert("WkDir"@.len() != "ShowCmd"@.len());
            } else if j == 12 {
                assert(cols[12].name == "DisplayResourceDLL"@);
                assert("DisplayResourceDLL"@.len() != "ShowCmd"@.len());
            } else if j == 13 {
                assert(cols[13].name == "DisplayResourceId"@);
                assert("DisplayResourceId"@.len() != "ShowCmd"@.len());
            } else if j == 14 {
                assert(cols[14].name == "DescriptionResourceDLL"@);
                assert("DescriptionResourceDLL"@.len() != "ShowCmd"@.len());
            } else if j == 15 {
                assert(cols[15].name == "DescriptionResourceId"@);
                assert("DescriptionResourceId"@.len() != "ShowCmd"@.len());
            }
        }
    }
    assert(column_at(cols, "WkDir"@, 11)) by {
        assert forall|j: int| 0 <= j < cols.len() && j != 11 implies (#[trigger] cols[j]).name != "WkDir"@ by {
            if j == 0 {
                assert(cols[0].name == "Shortcut"@);
                assert("Shortcut"@.len() != "WkDir"@.len());
            } else if j == 1 {
                assert(cols[1].name == "Directory_"@);
                assert("Directory_"@.len() != "WkDir"@.len());
            } else if j == 2 {
                assert(cols[2].name == "Name"@);
                assert("Name"@.len() != "WkDir"@.len());
            } else if j == 3 {
                assert(cols[3].name == "Component_"@);
                assert("Component_"@.len() != "WkDir"@.len());
            } else if j == 4 {
                assert(cols[4].name == "Target"@);
                assert("Target"@.len() != "WkDir"@.len());
            } else if j == 5 {
                assert(cols[5].name == "Arguments"@);
                assert("Arguments"@.len() != "WkDir"@.len());
            } else if j == 6 {
                assert(cols[6].name == "Description"@);
                assert("Description"@.len() != "WkDir"@.len());
            } else if j == 7 {
                assert(cols[7].name == "Hotkey"@);
                assert("Hotkey"@.len() != "WkDir"@.len());
            } else if j == 8 {
                assert(cols[8].name == "Icon_"@);
                assert("Icon_"@[0] != "WkDir"@[0]);
            } else if j == 9 {
                assert(cols[9].name == "IconIndex"@);
                assert("IconIndex"@.len() != "WkDir"@.len());
            } else if j == 10 {
                assert(cols[10].name == "ShowCmd"@);
                assert("ShowCmd"@.len() != "WkDir"@.len());
            } else if j == 12 {
                assert(cols[12].name == "DisplayResourceDLL"@);
                assert("DisplayResourceDLL"@.len() != "WkDir"@.len());
            } else if j == 13 {
                assert(cols[13].name == "DisplayResourceId"@);
                assert("DisplayResourceId"@.len() != "WkDir"@.len());
            } else if j == 14 {
                assert(cols[14].name == "DescriptionResourceDLL"@);
                assert("DescriptionResourceDLL"@.len() != "WkDir"@.len());
            } else if j == 15 {
                assert(cols[15].name == "DescriptionResourceId"@);
                assert("DescriptionResourceId"@.len() != "WkDir"@.len());
            }
        }
    }
    assert(column_at(cols, "DisplayResourceDLL"@, 12)) by {
        assert forall|j: int| 0 <= j < cols.len() && j != 12 implies (#[trigger] cols[j]).name != "DisplayResourceDLL"@ by {
            if j == 0 {
                assert(cols[0].name == "Shortcut"@);
                assert("Shortcut"@.len() != "DisplayResourceDLL"@.len());
            } else if j == 1 {
                assert(cols[1].name == "Directory_"@);
                assert("Directory_"@.len() != "DisplayResourceDLL"@.len());
            } else if j == 2 {
                assert(cols[2].name == "Name"@);
                assert("Name"@.len() != "DisplayResourceDLL"@.len());
            } else if j == 3 {
                assert(cols[3].name == "Component_"@);
                assert("Component_"@.len() != "DisplayResourceDLL"@.len());
            } else if j == 4 {
                assert(cols[4].name == "Target"@);
                assert("Target"@.len() != "DisplayResourceDLL"@.len());
            } else if j == 5 {
                assert(cols[5].name == "Arguments"@);
                assert("Arguments"@.len() != "DisplayResourceDLL"@.len());
            } else if j == 6 {
                assert(cols[6].name == "Description"@);
                assert("Description"@.len() != "DisplayResourceDLL"@.len());
            } else if j == 7 {
                assert(cols[7].name == "Hotkey"@);
                assert("Hotkey"@.len() != "DisplayResourceDLL"@.len());
            } else if j == 8 {
                assert(cols[8].name == "Icon_"@);
                assert("Icon_"@.len() != "DisplayResourceDLL"@.len());
            } else if j == 9 {
                assert(cols[9].name == "IconIndex"@);
                assert("IconIndex"@.len() != "DisplayResourceDLL"@.len());
            } else if j == 10 {
                assert(cols[10].name == "ShowCmd"@);
                assert("ShowCmd"@.len() != "DisplayResourceDLL"@.len());
            } else if j == 11 {
                assert(cols[11].name == "WkDir"@);
                assert("WkDir"@.len() != "DisplayResourceDLL"@.len());
            } else if j == 13 {
                assert(cols[13].name == "DisplayResourceId"@);
                assert("DisplayResourceId"@.len() != "DisplayResourceDLL"@.len());
            } else if j == 14 {
                assert(cols[14].name == "DescriptionResourceDLL"@);
                assert("DescriptionResourceDLL"@.len() != "DisplayResourceDLL"@.len());
            } else if j == 15 {
                assert(cols[15].name == "DescriptionResourceId"@);
                assert("DescriptionResourceId"@.len() != "DisplayResourceDLL"@.len());
            }
        }
    }
    assert(column_at(cols, "DisplayResourceId"@, 13)) by {
        assert forall|j: int| 0 <= j < cols.len() && j != 13 implies (#[trigger] cols[j]).name != "DisplayResourceId"@ by {
            if j == 0 {
                assert(cols[0].name == "Shortcut"@);
                assert("Shortcut"@.len() != "DisplayResourceId"@.len());
            } else if j == 1 {
                assert(cols[1].name == "Directory_"@);
                assert("Directory_"@.len() != "DisplayResourceId"@.len());
            } else if j == 2 {
                assert(cols[2].name == "Name"@);
                assert("Name"@.len() != "DisplayResourceId"@.len());
            } else if j == 3 {
                assert(cols[3].name == "Component_"@);
                assert("Component_"@.len() != "DisplayResourceId"@.len());
            } else if j == 4 {
                assert(cols[4].name == "Target"@);
                assert("Target"@.len() != "DisplayResourceId"@.len());
            } else if j == 5 {
                assert(cols[5].name == "Arguments"@);
                assert("Arguments"@.len() != "DisplayResourceId"@.len());
            } else if j == 6 {
                assert(cols[6].name == "Description"@);
                assert("Description"@.len() != "DisplayResourceId"@.len());
            } else if j == 7 {
                assert(cols[7].name == "Hotkey"@);
                assert("Hotkey"@.len() != "DisplayResourceId"@.len());
            } else if j == 8 {
                assert(cols[8].name == "Icon_"@);
                assert("Icon_"@.len() != "DisplayResourceId"@.len());
            } else if j == 9 {
                assert(cols[9].name == "IconIndex"@);
                assert("IconIndex"@.len() != "DisplayResourceId"@.len());
            } else if j == 10 {
                assert(cols[10].name == "ShowCmd"@);
                assert("ShowCmd"@.len() != "DisplayResourceId"@.len());
            } else if j == 11 {
                assert(cols[11].name == "WkDir"@);
                assert("WkDir"@.len() != "DisplayResourceId"@.len());
            } else if j == 12 {
                assert(cols[12].name == "DisplayResourceDLL"@);
                assert("DisplayResourceDLL"@.len() != "DisplayResourceId"@.len());
            } else if j == 14 {
                assert(cols[14].name == "DescriptionResourceDLL"@);
                assert("DescriptionResourceDLL"@.len() != "DisplayResourceId"@.len());
            } else if j == 15 {
                assert(cols[15].name == "DescriptionResourceId"@);
                assert("DescriptionResourceId"@.len() != "DisplayResourceId"@.len());
            }
        }
    }
    assert(column_at(cols, "DescriptionResourceDLL"@, 14)) by {
        assert forall|j: int| 0 <= j < cols.len() && j != 14 implies (#[trigger] cols[j]).name != "DescriptionResourceDLL"@ by {
            if j == 0 {
                assert(cols[0].name == "Shortcut"@);
                assert("Shortcut"@.len() != "DescriptionResourceDLL"@.len());
            } else if j == 1 {
                assert(cols[1].name == "Directory_"@);
                assert("Directory_"@.len() != "DescriptionResourceDLL"@.len());
            } else if j == 2 {
                assert(cols[2].name == "Name"@);
                assert("Name"@.len() != "DescriptionResourceDLL"@.len());
            } else if j == 3 {
                assert(cols[3].name == "Component_"@);
                assert("Component_"@.len() != "DescriptionResourceDLL"@.len());
            } else if j == 4 {
                assert(cols[4].name == "Target"@);
                assert("Target"@.len() != "DescriptionResourceDLL"@.len());
            } else if j == 5 {
                assert(cols[5].name == "Arguments"@);
                assert("Arguments"@.len() != "DescriptionResourceDLL"@.len());
            } else if j == 6 {
                assert(cols[6].name == "Description"@);
                assert("Description"@.len() != "DescriptionResourceDLL"@.len());
            } else if j == 7 {
                assert(cols[7].name == "Hotkey"@);
                assert("Hotkey"@.len() != "DescriptionResourceDLL"@.len());
            } else if j == 8 {
                assert(cols[8].name == "Icon_"@);
                assert("Icon_"@.len() != "DescriptionResourceDLL"@.len());
            } else if j == 9 {
                assert(cols[9].name == "IconIndex"@);
                assert("IconIndex"@.len() != "DescriptionResourceDLL"@.len());
            } else if j == 10 {
                assert(cols[10].name == "ShowCmd"@);
                assert("ShowCmd"@.len() != "DescriptionResourceDLL"@.len());
            } else if j == 11 {
                assert(cols[11].name == "WkDir"@);
                assert("WkDir"@.len() != "DescriptionResourceDLL"@.len());
            } else if j == 12 {
                assert(cols[12].name == "DisplayResourceDLL"@);
                assert("DisplayResourceDLL"@.len() != "DescriptionResourceDLL"@.len());
            } else if j == 13 {
                assert(cols[13].name == "DisplayResourceId"@);
                assert("DisplayResourceId"@.len() != "DescriptionResourceDLL"@.len());
            } else if j == 15 {
                assert(cols[15].name == "DescriptionResourceId"@);
                assert("DescriptionResourceId"@.len() != "DescriptionResourceDLL"@.len());
            }
        }
    }
    assert(column_at(cols, "DescriptionResourceId"@, 15)) by {
        assert forall|j: int| 0 <= j < cols.len() && j != 15 implies (#[trigger] cols[j]).name != "DescriptionResourceId"@ by {
            if j == 0 {
                assert(cols[0].name == "Shortcut"@);
                assert("Shortcut"@.len() != "DescriptionResourceId"@.len());
            } else if j == 1 {
                assert(cols[1].name == "Directory_"@);
                assert("Directory_"@.len() != "DescriptionResourceId"@.len());
            } else if j == 2 {
                assert(cols[2].name == "Name"@);
                assert("Name"@.len() != "DescriptionResourceId"@.len());
            } else if j == 3 {
                assert(cols[3].name == "Component_"@);
                assert("Component_"@.len() != "DescriptionResourceId"@.len());
            } else if j == 4 {
                assert(cols[4].name == "Target"@);
                assert("Target"@.len() != "DescriptionResourceId"@.len());
            } else if j == 5 {
                assert(cols[5].name == "Arguments"@);
                assert("Arguments"@.len() != "DescriptionResourceId"@.len());
            } else if j == 6 {
                assert(cols[6].name == "Description"@);
                assert("Description"@.len() != "DescriptionResourceId"@.len());
            } else if j == 7 {
                assert(cols[7].name == "Hotkey"@);
                assert("Hotkey"@.len() != "DescriptionResourceId"@.len());
            } else if j == 8 {
                assert(cols[8].name == "Icon_"@);
                assert("Icon_"@.len() != "DescriptionResourceId"@.len());
            } else if j == 9 {
                assert(cols[9].name == "IconIndex"@);
                assert("IconIndex"@.len() != "DescriptionResourceId"@.len());
            } else if j == 10 {
                assert(cols[10].name == "ShowCmd"@);
                assert("ShowCmd"@.len() != "DescriptionResourceId"@.len());
            } else if j == 11 {
                assert(cols[11].name == "WkDir"@);
                assert("WkDir"@.len() != "DescriptionResourceId"@.len());
            } else if j == 12 {
                assert(cols[12].name == "DisplayResourceDLL"@);
                assert("DisplayResourceDLL"@.len() != "DescriptionResourceId"@.len());
            } else if j == 13 {
                assert(cols[13].name == "DisplayResourceId"@);
                assert("DisplayResourceId"@.len() != "DescriptionResourceId"@.len());
            } else if j == 14 {
                assert(cols[14].name == "DescriptionResourceDLL"@);
                assert("DescriptionResourceDLL"@.len() != "DescriptionResourceId"@.len());
            }
        }
    }
}

} // verus!
