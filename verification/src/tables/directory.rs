//! The Directory table: the layout of directories on the target system.

use vstd::prelude::*;
use vstd::string::*;
use crate::identifier::{DirectoryIdentifier, Identifier, opt_id_value, opt_id_view};
use crate::system_folder::{SystemFolder, folder_name};
use crate::tables::column::{Category, ColumnKind, ColumnSpec, ColumnView, col, column, columns_view, cell_under, column_at};
use crate::tables::dao::{DaoContainer, IsDao, MsiBuilderListEntry, PackageWriter, ToUniqueMsiIdentifier};
use crate::types::{DefaultDir, Filename, same_default_dir};
use crate::value::{Value, ValueView, row_view};
use crate::constants::{DEFAULT_IDENTIFIER_MAX_LEN, DEFAULT_DIR_MAX_LEN};

verus! {

/// One directory: its name, its key, and the key of the directory that
/// holds it (none for the root).
#[derive(Debug, PartialEq)]
pub struct DirectoryDao {
    pub default_dir: DefaultDir,
    pub directory: DirectoryIdentifier,
    pub parent: Option<DirectoryIdentifier>,
}

impl DirectoryDao {
    /// A directory named `name`, keyed `path_id`, inside the directory keyed
    /// `parent_id`.
    pub fn new(name: DefaultDir, path_id: DirectoryIdentifier, parent_id: DirectoryIdentifier) -> (r: DirectoryDao)
        ensures
            r.default_dir == name,
            r.directory == path_id,
            r.parent == Some(parent_id),
    {
        DirectoryDao { default_dir: name, directory: path_id, parent: Some(parent_id) }
    }

    /// The entry for a system folder. `TARGETDIR` is the root: it has no
    /// parent and is named `SourceDir`. Every other folder sits in
    /// `TARGETDIR` and is named `.`, so that it adds no level of its own.
    pub fn from(value: SystemFolder) -> (r: DirectoryDao)
        ensures
            r.directory@ == folder_name(value),
            value == SystemFolder::TARGETDIR ==> r.parent is None && r.default_dir is Identifier
                && r.default_dir@ == "SourceDir"@,
            value != SystemFolder::TARGETDIR ==> (r.parent matches Some(p) && p@ == folder_name(
                SystemFolder::TARGETDIR,
            ) && r.default_dir is Filename && r.default_dir@ == "."@),
    {
        if value == SystemFolder::TARGETDIR {
            proof {
                reveal_strlit("SourceDir");
            }
            return DirectoryDao {
                directory: value.to_identifier(),
                parent: None,
                default_dir: DefaultDir::Identifier(Identifier::from_valid(crate::text::owned("SourceDir"))),
            };
        }
        proof {
            reveal_strlit(".");
        }
        DirectoryDao {
            directory: value.to_identifier(),
            parent: Some(SystemFolder::TARGETDIR.to_identifier()),
            default_dir: DefaultDir::Filename(Filename::from_valid(crate::text::owned("."))),
        }
    }

    /// The name of the directory.
    pub fn default_dir(&self) -> (r: &DefaultDir)
        ensures
            r == self.default_dir,
    {
        &self.default_dir
    }

    /// The key of the directory.
    pub fn directory(&self) -> (r: &DirectoryIdentifier)
        ensures
            r == self.directory,
    {
        &self.directory
    }

    /// The key of the parent directory.
    pub fn parent(&self) -> (r: &Option<DirectoryIdentifier>)
        ensures
            r == self.parent,
    {
        &self.parent
    }
}

impl Clone for DirectoryDao {
    fn clone(&self) -> (r: Self)
        ensures
            r.directory@ == self.directory@,
            r.default_dir@ == self.default_dir@,
            r.default_dir is Filename <==> self.default_dir is Filename,
            match (r.parent, self.parent) {
                (Some(a), Some(b)) => a@ == b@,
                (None, None) => true,
                _ => false,
            },
    {
        DirectoryDao {
            default_dir: self.default_dir.clone(),
            directory: self.directory.clone(),
            parent: match &self.parent {
                Some(p) => Some(p.clone()),
                None => None,
            },
        }
    }
}

impl IsDao for DirectoryDao {
    open spec fn row_spec(&self) -> Seq<ValueView> {
        seq![ValueView::Str(self.directory@), opt_id_view(self.parent), ValueView::Str(self.default_dir@)]
    }

    fn to_row(&self) -> (r: Vec<Value>) {
        let r = vec![self.directory.to_value(), opt_id_value(&self.parent), self.default_dir.to_value()];
        assert(row_view(r@) =~= self.row_spec());
        r
    }
}

impl MsiBuilderListEntry for DirectoryDao {
    /// Two directories conflict when they have the same key. Directories of
    /// the same name in the same parent are allowed, so that different
    /// components can install into one location under different conditions.
    open spec fn conflicts_spec(&self, other: &Self) -> bool {
        self.directory@ == other.directory@
    }

    fn conflicts(&self, other: &Self) -> (r: bool) {
        self.directory.same(&other.directory)
    }
}

impl ToUniqueMsiIdentifier for DirectoryDao {
    open spec fn unique_id_spec(&self) -> Option<Seq<char>> {
        Some(self.directory@)
    }

    fn to_unique_msi_identifier(&self) -> (r: Option<Identifier>) {
        Some(self.directory.clone())
    }
}

/// The Directory table.
pub struct DirectoryTable {
    entries: Vec<DirectoryDao>,
}

impl DirectoryTable {
    /// An empty table.
    pub fn new() -> (r: DirectoryTable)
        ensures
            r.entries_spec() == Seq::<DirectoryDao>::empty(),
    {
        DirectoryTable { entries: Vec::new() }
    }

    /// The first directory named `name`, a name of the same kind (file
    /// name or identifier) with the same characters.
    pub fn entry_with_name(&self, name: &DefaultDir) -> (r: Option<&DirectoryDao>)
        ensures
            match r {
                Some(d) => exists|i: int|
                    0 <= i < self.entries_spec().len() && self.entries_spec()[i] == *d && same_default_dir(d.default_dir, *name)
                    && forall|k: int| 0 <= k < i ==> !same_default_dir((#[trigger] self.entries_spec()[k]).default_dir, *name),
                None => forall|k: int|
                    0 <= k < self.entries_spec().len() ==> !same_default_dir((#[trigger] self.entries_spec()[k]).default_dir, *name),
            },
    {
        let entries = self.entries();
        let mut i: usize = 0;
        while i < entries.len()
            invariant
                entries@ == self.entries_spec(),
                i <= entries.len(),
                forall|k: int| 0 <= k < i ==> !same_default_dir((#[trigger] entries@[k]).default_dir, *name),
            decreases entries.len() - i,
        {
            if entries[i].default_dir.same(name) {
                return Some(&entries[i]);
            }
            i = i + 1;
        }
        None
    }
}

impl DaoContainer for DirectoryTable {
    type Dao = DirectoryDao;

    closed spec fn entries_spec(&self) -> Seq<DirectoryDao> {
        self.entries@
    }

    fn entries(&self) -> (r: &Vec<DirectoryDao>) {
        &self.entries
    }

    fn push_entry(&mut self, entry: DirectoryDao) {
        self.entries.push(entry);
    }
}

impl PackageWriter for DirectoryTable {
    open spec fn name_spec() -> Seq<char> {
        "Directory"@
    }

    open spec fn columns_spec() -> Seq<ColumnView> {
        seq![
            col("Directory"@, ColumnKind::Str(Category::Identifier, DEFAULT_IDENTIFIER_MAX_LEN), true, false, false),
            col("Directory_Parent"@, ColumnKind::Str(Category::Identifier, DEFAULT_IDENTIFIER_MAX_LEN), false, true, false),
            col("DefaultDir"@, ColumnKind::Str(Category::DefaultDir, DEFAULT_DIR_MAX_LEN), false, false, true),
        ]
    }

    fn name(&self) -> (r: &'static str) {
        "Directory"
    }

    fn columns(&self) -> (r: Vec<ColumnSpec>) {
        let r = vec![
            column("Directory", ColumnKind::Str(Category::Identifier, DEFAULT_IDENTIFIER_MAX_LEN), true, false, false),
            column("Directory_Parent", ColumnKind::Str(Category::Identifier, DEFAULT_IDENTIFIER_MAX_LEN), false, true, false),
            column("DefaultDir", ColumnKind::Str(Category::DefaultDir, DEFAULT_DIR_MAX_LEN), false, false, true),
        ];
        assert(columns_view(r@) =~= Self::columns_spec());
        r
    }

    proof fn lemma_row_arity(entry: &DirectoryDao) {
    }
}


/// The row of a Directory entry has one cell per column, and each cell lies
/// under the column of the field it holds: `Directory` holds `directory`,
/// `Directory_Parent` holds `parent`, `DefaultDir` holds `default_dir`.
pub proof fn lemma_directory_dao_row_columns(d: DirectoryDao)
    ensures
        cell_under(d.row_spec(), DirectoryTable::columns_spec(), "Directory"@, ValueView::Str(d.directory@)),
        cell_under(d.row_spec(), DirectoryTable::columns_spec(), "Directory_Parent"@, opt_id_view(d.parent)),
        cell_under(d.row_spec(), DirectoryTable::columns_spec(), "DefaultDir"@, ValueView::Str(d.default_dir@)),
{
    let cols = DirectoryTable::columns_spec();
    reveal_strlit("Directory");
    reveal_strlit("Directory_Parent");
    reveal_strlit("DefaultDir");
    assert(column_at(cols, "Directory"@, 0)) by {
        assert forall|j: int| 0 <= j < cols.len() && j != 0 implies (#[trigger] cols[j]).name != "Directory"@ by {
            if j == 1 {
                assert(cols[1].name == "Directory_Parent"@);
                assert("Directory_Parent"@.len() != "Directory"@.len());
            } else if j == 2 {
                assert(cols[2].name == "DefaultDir"@);
                assert("DefaultDir"@.len() != "Directory"@.len());
            }
        }
    }
    assert(column_at(cols, "Directory_Parent"@, 1)) by {
        assert forall|j: int| 0 <= j < cols.len() && j != 1 implies (#[trigger] cols[j]).name != "Directory_Parent"@ by {
            if j == 0 {
                assert(cols[0].name == "Directory"@);
                assert("Directory"@.len() != "Directory_Parent"@.len());
            } else if j == 2 {
                assert(cols[2].name == "DefaultDir"@);
                assert("DefaultDir"@.len() != "Directory_Parent"@.len());
            }
        }
    }
    assert(column_at(cols, "DefaultDir"@, 2)) by {
        assert forall|j: int| 0 <= j < cols.len() && j != 2 implies (#[trigger] cols[j]).name != "DefaultDir"@ by {
            if j == 0 {
                assert(cols[0].name == "Directory"@);
                assert("Directory"@.len() != "DefaultDir"@.len());
            } else if j == 1 {
                assert(cols[1].name == "Directory_Parent"@);
                assert("Directory_Parent"@.len() != "DefaultDir"@.len());
            }
        }
    }
}

} // verus!
