//! The File table and the MsiFileHash table.

use vstd::prelude::*;
use vstd::string::*;
use crate::identifier::{Identifier, opt_id_value, opt_id_view, ComponentIdentifier, FileIdentifier};
use crate::tables::column::{Category, ColumnKind, ColumnSpec, ColumnView, col, column, columns_view, cell_under, column_at};
use crate::tables::dao::{DaoContainer, IsDao, MsiBuilderListEntry, PackageWriter, ToUniqueMsiIdentifier};
use crate::value::{Value, ValueView, row_view, opt_str_value, opt_str_view, i16_value, opt_i16_value, opt_i32_value, opt_int_view};
use crate::constants::{DEFAULT_IDENTIFIER_MAX_LEN, FILENAME_MAX_LEN, VERSION_MAX_LEN, LANGUAGE_MAX_LEN};
use crate::types::Filename;

verus! {

/// One file that the package installs.
pub struct FileDao {
    pub file: FileIdentifier,
    pub component: ComponentIdentifier,
    pub name: Filename,
    pub size: i32,
    pub version: Option<String>,
    pub language: Option<String>,
    pub attributes: Option<i16>,
    pub sequence: i32,
}

impl FileDao {
    /// A file keyed `file`, installed by the component keyed `component`
    /// under the name `name`, `size` bytes long, at position `sequence` in
    /// the media; with no version, language or attributes.
    pub fn install_file(
        file: FileIdentifier,
        component: ComponentIdentifier,
        name: Filename,
        size: i32,
        sequence: i32,
    ) -> (r: FileDao)
        ensures
            r.file == file,
            r.component == component,
            r.name == name,
            r.size == size,
            r.sequence == sequence,
            r.version is None,
            r.language is None,
            r.attributes is None,
    {
        FileDao { file, component, name, size, version: None, language: None, attributes: None, sequence }
    }
}

impl IsDao for FileDao {
    open spec fn row_spec(&self) -> Seq<ValueView> {
        seq![
            ValueView::Str(self.file@),
            ValueView::Str(self.component@),
            ValueView::Str(self.name@),
            ValueView::Int(self.size as int),
            opt_str_view(&self.version),
            opt_str_view(&self.language),
            opt_int_view(match self.attributes { Some(v) => Some(v as int), None => None }),
            ValueView::Int(self.sequence as int),
        ]
    }

    fn to_row(&self) -> (r: Vec<Value>) {
        let r = vec![
            self.file.to_value(),
            self.component.to_value(),
            self.name.to_value(),
            Value::Int(self.size),
            opt_str_value(&self.version),
            opt_str_value(&self.language),
            opt_i16_value(self.attributes),
            Value::Int(self.sequence),
        ];
        assert(row_view(r@) =~= self.row_spec());
        r
    }
}

impl MsiBuilderListEntry for FileDao {
    /// Two files conflict when they have the same key.
    open spec fn conflicts_spec(&self, other: &Self) -> bool {
        self.file@ == other.file@
    }

    fn conflicts(&self, other: &Self) -> (r: bool) {
        self.file.same(&other.file)
    }
}

impl ToUniqueMsiIdentifier for FileDao {
    open spec fn unique_id_spec(&self) -> Option<Seq<char>> {
        Some(self.file@)
    }

    fn to_unique_msi_identifier(&self) -> (r: Option<Identifier>) {
        Some(self.file.clone())
    }
}

/// The File table.
pub struct FileTable {
    entries: Vec<FileDao>,
}

impl FileTable {
    /// An empty table.
    pub fn new() -> (r: FileTable)
        ensures
            r.entries_spec() == Seq::<FileDao>::empty(),
    {
        FileTable { entries: Vec::new() }
    }

    /// The file keyed `id`.
    pub fn entry_with_id(&self, id: &Identifier) -> (r: Option<&FileDao>)
        ensures
            match r {
                Some(x) => exists|i: int|
                    0 <= i < self.entries_spec().len() && self.entries_spec()[i] == *x && x.file@ == id@
                        && forall|k: int| 0 <= k < i ==> (#[trigger] self.entries_spec()[k]).file@ != id@,
                None => forall|i: int| 0 <= i < self.entries_spec().len()
                    ==> (#[trigger] self.entries_spec()[i]).file@ != id@,
            },
    {
        let mut i: usize = 0;
        while i < self.entries.len()
            invariant
                i <= self.entries@.len(),
                forall|k: int| 0 <= k < i ==> (#[trigger] self.entries@[k]).file@ != id@,
            decreases self.entries@.len() - i,
        {
            if self.entries[i].file.same(id) {
                return Some(&self.entries[i]);
            }
            i = i + 1;
        }
        None
    }

    /// The first file named `name`.
    pub fn entry_with_name(&self, name: &str) -> (r: Option<&FileDao>)
        ensures
            match r {
                Some(x) => exists|i: int|
                    0 <= i < self.entries_spec().len() && self.entries_spec()[i] == *x && x.name@ == name@
                        && forall|k: int| 0 <= k < i ==> (#[trigger] self.entries_spec()[k]).name@ != name@,
                None => forall|i: int| 0 <= i < self.entries_spec().len()
                    ==> (#[trigger] self.entries_spec()[i]).name@ != name@,
            },
    {
        let mut i: usize = 0;
        while i < self.entries.len()
            invariant
                i <= self.entries@.len(),
                forall|k: int| 0 <= k < i ==> (#[trigger] self.entries@[k]).name@ != name@,
            decreases self.entries@.len() - i,
        {
            if crate::text::str_eq(self.entries[i].name.as_str(), name) {
                return Some(&self.entries[i]);
            }
            i = i + 1;
        }
        None
    }
}

impl DaoContainer for FileTable {
    type Dao = FileDao;

    closed spec fn entries_spec(&self) -> Seq<FileDao> {
        self.entries@
    }

    fn entries(&self) -> (r: &Vec<FileDao>) {
        &self.entries
    }

    fn push_entry(&mut self, entry: FileDao) {
        self.entries.push(entry);
    }
}

impl PackageWriter for FileTable {
    open spec fn name_spec() -> Seq<char> {
        "File"@
    }

    open spec fn columns_spec() -> Seq<ColumnView> {
        seq![
            col("File"@, ColumnKind::Str(Category::Identifier, DEFAULT_IDENTIFIER_MAX_LEN), true, false, false),
            col("Component_"@, ColumnKind::Str(Category::Identifier, DEFAULT_IDENTIFIER_MAX_LEN), false, false, false),
            col("FileName"@, ColumnKind::Str(Category::Filename, FILENAME_MAX_LEN), false, false, true),
            col("FileSize"@, ColumnKind::Int32, false, false, false),
            col("Version"@, ColumnKind::Str(Category::Version, VERSION_MAX_LEN), false, true, false),
            col("Language"@, ColumnKind::Str(Category::Language, LANGUAGE_MAX_LEN), false, true, false),
            col("Attributes"@, ColumnKind::Int16, false, true, false),
            col("Sequence"@, ColumnKind::Int32, false, false, false),
        ]
    }

    fn name(&self) -> (r: &'static str) {
        "File"
    }

    fn columns(&self) -> (r: Vec<ColumnSpec>) {
        let r = vec![
            column("File", ColumnKind::Str(Category::Identifier, DEFAULT_IDENTIFIER_MAX_LEN), true, false, false),
            column("Component_", ColumnKind::Str(Category::Identifier, DEFAULT_IDENTIFIER_MAX_LEN), false, false, false),
            column("FileName", ColumnKind::Str(Category::Filename, FILENAME_MAX_LEN), false, false, true),
            column("FileSize", ColumnKind::Int32, false, false, false),
            column("Version", ColumnKind::Str(Category::Version, VERSION_MAX_LEN), false, true, false),
            column("Language", ColumnKind::Str(Category::Language, LANGUAGE_MAX_LEN), false, true, false),
            column("Attributes", ColumnKind::Int16, false, true, false),
            column("Sequence", ColumnKind::Int32, false, false, false),
        ];
        assert(columns_view(r@) =~= Self::columns_spec());
        r
    }

    proof fn lemma_row_arity(entry: &FileDao) {
    }
}

/// The MD5 hash of an unversioned file, as four 32-bit parts.
pub struct MsiFileHashDao {
    pub file: FileIdentifier,
    pub options: i16,
    pub hash_part1: i32,
    pub hash_part2: i32,
    pub hash_part3: i32,
    pub hash_part4: i32,
}

impl MsiFileHashDao {
    /// The hash entry of the file keyed `file`, with no options.
    pub fn new(file: FileIdentifier, hash: (i32, i32, i32, i32)) -> (r: MsiFileHashDao)
        ensures
            r.file == file,
            r.options == 0,
            r.hash_part1 == hash.0,
            r.hash_part2 == hash.1,
            r.hash_part3 == hash.2,
            r.hash_part4 == hash.3,
    {
        MsiFileHashDao {
            file,
            options: 0,
            hash_part1: hash.0,
            hash_part2: hash.1,
            hash_part3: hash.2,
            hash_part4: hash.3,
        }
    }
}

impl IsDao for MsiFileHashDao {
    open spec fn row_spec(&self) -> Seq<ValueView> {
        seq![
            ValueView::Str(self.file@),
            ValueView::Int(self.options as int),
            ValueView::Int(self.hash_part1 as int),
            ValueView::Int(self.hash_part2 as int),
            ValueView::Int(self.hash_part3 as int),
            ValueView::Int(self.hash_part4 as int),
        ]
    }

    fn to_row(&self) -> (r: Vec<Value>) {
        let r = vec![
            self.file.to_value(),
            i16_value(self.options),
            Value::Int(self.hash_part1),
            Value::Int(self.hash_part2),
            Value::Int(self.hash_part3),
            Value::Int(self.hash_part4),
        ];
        assert(row_view(r@) =~= self.row_spec());
        r
    }
}

impl MsiBuilderListEntry for MsiFileHashDao {
    /// Two hashes conflict when they are of the same file.
    open spec fn conflicts_spec(&self, other: &Self) -> bool {
        self.file@ == other.file@
    }

    fn conflicts(&self, other: &Self) -> (r: bool) {
        self.file.same(&other.file)
    }
}

impl ToUniqueMsiIdentifier for MsiFileHashDao {
    open spec fn unique_id_spec(&self) -> Option<Seq<char>> {
        None
    }

    fn to_unique_msi_identifier(&self) -> (r: Option<Identifier>) {
        None
    }
}

/// The MsiFileHash table.
pub struct MsiFileHashTable {
    entries: Vec<MsiFileHashDao>,
}

impl MsiFileHashTable {
    /// An empty table.
    pub fn new() -> (r: MsiFileHashTable)
        ensures
            r.entries_spec() == Seq::<MsiFileHashDao>::empty(),
    {
        MsiFileHashTable { entries: Vec::new() }
    }
}

impl DaoContainer for MsiFileHashTable {
    type Dao = MsiFileHashDao;

    closed spec fn entries_spec(&self) -> Seq<MsiFileHashDao> {
        self.entries@
    }

    fn entries(&self) -> (r: &Vec<MsiFileHashDao>) {
        &self.entries
    }

    fn push_entry(&mut self, entry: MsiFileHashDao) {
        self.entries.push(entry);
    }
}

impl PackageWriter for MsiFileHashTable {
    open spec fn name_spec() -> Seq<char> {
        "MsiFileHash"@
    }

    open spec fn columns_spec() -> Seq<ColumnView> {
        seq![
            col("File_"@, ColumnKind::Str(Category::Identifier, DEFAULT_IDENTIFIER_MAX_LEN), true, false, false),
            col("Options"@, ColumnKind::Int16, false, false, false),
            col("HashPart1"@, ColumnKind::Int32, false, false, false),
            col("HashPart2"@, ColumnKind::Int32, false, false, false),
            col("HashPart3"@, ColumnKind::Int32, false, false, false),
            col("HashPart4"@, ColumnKind::Int32, false, false, false),
        ]
    }

    fn name(&self) -> (r: &'static str) {
        "MsiFileHash"
    }

    fn columns(&self) -> (r: Vec<ColumnSpec>) {
        let r = vec![
            column("File_", ColumnKind::Str(Category::Identifier, DEFAULT_IDENTIFIER_MAX_LEN), true, false, false),
            column("Options", ColumnKind::Int16, false, false, false),
            column("HashPart1", ColumnKind::Int32, false, false, false),
            column("HashPart2", ColumnKind::Int32, false, false, false),
            column("HashPart3", ColumnKind::Int32, false, false, false),
            column("HashPart4", ColumnKind::Int32, false, false, false),
        ];
        assert(columns_view(r@) =~= Self::columns_spec());
        r
    }

    proof fn lemma_row_arity(entry: &MsiFileHashDao) {
    }
}

/// The row of a File entry has one cell per column, and each cell lies under
/// the column of the field it holds: `File` holds `file`, `Component_` holds
/// `component`, `FileName` holds `name`, `FileSize` holds `size`, `Version`
/// holds `version`, `Language` holds `language`, `Attributes` holds
/// `attributes`, `Sequence` holds `sequence`.
pub proof fn lemma_file_dao_row_columns(d: FileDao)
    ensures
        cell_under(d.row_spec(), FileTable::columns_spec(), "File"@, ValueView::Str(d.file@)),
        cell_under(d.row_spec(), FileTable::columns_spec(), "Component_"@, ValueView::Str(d.component@)),
        cell_under(d.row_spec(), FileTable::columns_spec(), "FileName"@, ValueView::Str(d.name@)),
        cell_under(d.row_spec(), FileTable::columns_spec(), "FileSize"@, ValueView::Int(d.size as int)),
        cell_under(d.row_spec(), FileTable::columns_spec(), "Version"@, opt_str_view(&d.version)),
        cell_under(d.row_spec(), FileTable::columns_spec(), "Language"@, opt_str_view(&d.language)),
        cell_under(d.row_spec(), FileTable::columns_spec(), "Attributes"@, opt_int_view(match d.attributes { Some(v) => Some(v as int), None => None })),
        cell_under(d.row_spec(), FileTable::columns_spec(), "Sequence"@, ValueView::Int(d.sequence as int)),
{
    let cols = FileTable::columns_spec();
    reveal_strlit("File");
    reveal_strlit("Component_");
    reveal_strlit("FileName");
    reveal_strlit("FileSize");
    reveal_strlit("Version");
    reveal_strlit("Language");
    reveal_strlit("Attributes");
    reveal_strlit("Sequence");
    assert(column_at(cols, "File"@, 0)) by {
        assert forall|j: int| 0 <= j < cols.len() && j != 0 implies (#[trigger] cols[j]).name != "File"@ by {
            if j == 1 {
                assert(cols[1].name == "Component_"@);
                assert("Component_"@.len() != "File"@.len());
            } else if j == 2 {
                assert(cols[2].name == "FileName"@);
                assert("FileName"@.len() != "File"@.len());
            } else if j == 3 {
                assert(cols[3].name == "FileSize"@);
                assert("FileSize"@.len() != "File"@.len());
            } else if j == 4 {
                assert(cols[4].name == "Version"@);
                assert("Version"@.len() != "File"@.len());
            } else if j == 5 {
                assert(cols[5].name == "Language"@);
                assert("Language"@.len() != "File"@.len());
            } else if j == 6 {
                assert(cols[6].name == "Attributes"@);
                assert("Attributes"@.len() != "File"@.len());
            } else if j == 7 {
                assert(cols[7].name == "Sequence"@);
                assert("Sequence"@.len() != "File"@.len());
            }
        }
    }
    assert(column_at(cols, "Component_"@, 1)) by {
        assert forall|j: int| 0 <= j < cols.len() && j != 1 implies (#[trigger] cols[j]).name != "Component_"@ by {
            if j == 0 {
                assert(cols[0].name == "File"@);
                assert("File"@.len() != "Component_"@.len());
            } else if j == 2 {
                assert(cols[2].name == "FileName"@);
                assert("FileName"@.len() != "Component_"@.len());
            } else if j == 3 {
                assert(cols[3].name == "FileSize"@);
                assert("FileSize"@.len() != "Component_"@.len());
            } else if j == 4 {
                assert(cols[4].name == "Version"@);
                assert("Version"@.len() != "Component_"@.len());
            } else if j == 5 {
                assert(cols[5].name == "Language"@);
                assert("Language"@.len() != "Component_"@.len());
            } else if j == 6 {
                assert(cols[6].name == "Attributes"@);
                assert("Attributes"@[0] != "Component_"@[0]);
            } else if j == 7 {
                assert(cols[7].name == "Sequence"@);
                assert("Sequence"@.len() != "Component_"@.len());
            }
        }
    }
    assert(column_at(cols, "FileName"@, 2)) by {
        assert forall|j: int| 0 <= j < cols.len() && j != 2 implies (#[trigger] cols[j]).name != "FileName"@ by {
            if j == 0 {
                assert(cols[0].name == "File"@);
                assert("File"@.len() != "FileName"@.len());
            } else if j == 1 {
                assert(cols[1].name == "Component_"@);
                assert("Component_"@.len() != "FileName"@.len());
            } else if j == 3 {
                assert(cols[3].name == "FileSize"@);
                assert("FileSize"@[4] != "FileName"@[4]);
            } else if j == 4 {
                assert(cols[4].name == "Version"@);
                assert("Version"@.len() != "FileName"@.len());
            } else if j == 5 {
                assert(cols[5].name == "Language"@);
                assert("Language"@[0] != "FileName"@[0]);
            } else if j == 6 {
                assert(cols[6].name == "Attributes"@);
                assert("Attributes"@.len() != "FileName"@.len());
            } else if j == 7 {
                assert(cols[7].name == "Sequence"@);
                assert("Sequence"@[0] != "FileName"@[0]);
            }
        }
    }
    assert(column_at(cols, "FileSize"@, 3)) by {
        assert forall|j: int| 0 <= j < cols.len() && j != 3 implies (#[trigger] cols[j]).name != "FileSize"@ by {
            if j == 0 {
                assert(cols[0].name == "File"@);
                assert("File"@.len() != "FileSize"@.len());
            } else if j == 1 {
                assert(cols[1].name == "Component_"@);
                assert("Component_"@.len() != "FileSize"@.len());
            } else if j == 2 {
                assert(cols[2].name == "FileName"@);
                assert("FileName"@[4] != "FileSize"@[4]);
            } else if j == 4 {
                assert(cols[4].name == "Version"@);
                assert("Version"@.len() != "FileSize"@.len());
            } else if j == 5 {
                assert(cols[5].name == "Language"@);
                assert("Language"@[0] != "FileSize"@[0]);
            } else if j == 6 {
                assert(cols[6].name == "Attributes"@);
                assert("Attributes"@.len() != "FileSize"@.len());
            } else if j == 7 {
                assert(cols[7].name == "Sequence"@);
                assert("Sequence"@[0] != "FileSize"@[0]);
            }
        }
    }
    assert(column_at(cols, "Version"@, 4)) by {
        assert forall|j: int| 0 <= j < cols.len() && j != 4 implies (#[trigger] cols[j]).name != "Version"@ by {
            if j == 0 {
                assert(cols[0].name == "File"@);
                assert("File"@.len() != "Version"@.len());
            } else if j == 1 {
                assert(cols[1].name == "Component_"@);
                assert("Component_"@.len() != "Version"@.len());
            } else if j == 2 {
                assert(cols[2].name == "FileName"@);
                assert("FileName"@.len() != "Version"@.len());
            } else if j == 3 {
                assert(cols[3].name == "FileSize"@);
                assert("FileSize"@.len() != "Version"@.len());
            } else if j == 5 {
                assert(cols[5].name == "Language"@);
                assert("Language"@.len() != "Version"@.len());
            } else if j == 6 {
                assert(cols[6].name == "Attributes"@);
                assert("Attributes"@.len() != "Version"@.len());
            } else if j == 7 {
                assert(cols[7].name == "Sequence"@);
                assert("Sequence"@.len() != "Version"@.len());
            }
        }
    }
    assert(column_at(cols, "Language"@, 5)) by {
        assert forall|j: int| 0 <= j < cols.len() && j != 5 implies (#[trigger] cols[j]).name != "Language"@ by {
            if j == 0 {
                assert(cols[0].name == "File"@);
                assert("File"@.len() != "Language"@.len());
            } else if j == 1 {
                assert(cols[1].name == "Component_"@);
                assert("Component_"@.len() != "Language"@.len());
            } else if j == 2 {
                assert(cols[2].name == "FileName"@);
                assert("FileName"@[0] != "Language"@[0]);
            } else if j == 3 {
                assert(cols[3].name == "FileSize"@);
                assert("FileSize"@[0] != "Language"@[0]);
            } else if j == 4 {
                assert(cols[4].name == "Version"@);
                assert("Version"@.len() != "Language"@.len());
            } else if j == 6 {
                assert(cols[6].name == "Attributes"@);
                assert("Attributes"@.len() != "Language"@.len());
            } else if j == 7 {
                assert(cols[7].name == "Sequence"@);
                assert("Sequence"@[0] != "Language"@[0]);
            }
        }
    }
    assert(column_at(cols, "Attributes"@, 6)) by {
        assert forall|j: int| 0 <= j < cols.len() && j != 6 implies (#[trigger] cols[j]).name != "Attributes"@ by {
            if j == 0 {
                assert(cols[0].name == "File"@);
                assert("File"@.len() != "Attributes"@.len());
            } else if j == 1 {
                assert(cols[1].name == "Component_"@);
                assert("Component_"@[0] != "Attributes"@[0]);
            } else if j == 2 {
                assert(cols[2].name == "FileName"@);
                assert("FileName"@.len() != "Attributes"@.len());
            } else if j == 3 {
                assert(cols[3].name == "FileSize"@);
                assert("FileSize"@.len() != "Attributes"@.len());
            } else if j == 4 {
                assert(cols[4].name == "Version"@);
                assert("Version"@.len() != "Attributes"@.len());
            } else if j == 5 {
                assert(cols[5].name == "Language"@);
                assert("Language"@.len() != "Attributes"@.len());
            } else if j == 7 {
                assert(cols[7].name == "Sequence"@);
                assert("Sequence"@.len() != "Attributes"@.len());
            }
        }
    }
    assert(column_at(cols, "Sequence"@, 7)) by {
        assert forall|j: int| 0 <= j < cols.len() && j != 7 implies (#[trigger] cols[j]).name != "Sequence"@ by {
            if j == 0 {
                assert(cols[0].name == "File"@);
                assert("File"@.len() != "Sequence"@.len());
            } else if j == 1 {
                assert(cols[1].name == "Component_"@);
                assert("Component_"@.len() != "Sequence"@.len());
            } else if j == 2 {
                assert(cols[2].name == "FileName"@);
                assert("FileName"@[0] != "Sequence"@[0]);
            } else if j == 3 {
                assert(cols[3].name == "FileSize"@);
                assert("FileSize"@[0] != "Sequence"@[0]);
            } else if j == 4 {
                assert(cols[4].name == "Version"@);
                assert("Version"@.len() != "Sequence"@.len());
            } else if j == 5 {
                assert(cols[5].name == "Language"@);
                assert("Language"@[0] != "Sequence"@[0]);
            } else if j == 6 {
                assert(cols[6].name == "Attributes"@);
                assert("Attributes"@.len() != "Sequence"@.len());
            }
        }
    }
}

/// The row of a MsiFileHash entry has one cell per column, and each cell lies
/// under the column of the field it holds: `File_` holds `file`, `Options`
/// holds `options`, `HashPart1` holds `hash_part1`, `HashPart2` holds
/// `hash_part2`, `HashPart3` holds `hash_part3`, `HashPart4` holds
/// `hash_part4`.
pub proof fn lemma_msi_file_hash_dao_row_columns(d: MsiFileHashDao)
    ensures
        cell_under(d.row_spec(), MsiFileHashTable::columns_spec(), "File_"@, ValueView::Str(d.file@)),
        cell_under(d.row_spec(), MsiFileHashTable::columns_spec(), "Options"@, ValueView::Int(d.options as int)),
        cell_under(d.row_spec(), MsiFileHashTable::columns_spec(), "HashPart1"@, ValueView::Int(d.hash_part1 as int)),
        cell_under(d.row_spec(), MsiFileHashTable::columns_spec(), "HashPart2"@, ValueView::Int(d.hash_part2 as int)),
        cell_under(d.row_spec(), MsiFileHashTable::columns_spec(), "HashPart3"@, ValueView::Int(d.hash_part3 as int)),
        cell_under(d.row_spec(), MsiFileHashTable::columns_spec(), "HashPart4"@, ValueView::Int(d.hash_part4 as int)),
{
    let cols = MsiFileHashTable::columns_spec();
    reveal_strlit("File_");
    reveal_strlit("Options");
    reveal_strlit("HashPart1");
    reveal_strlit("HashPart2");
    reveal_strlit("HashPart3");
    reveal_strlit("HashPart4");
    assert(column_at(cols, "File_"@, 0)) by {
        assert forall|j: int| 0 <= j < cols.len() && j != 0 implies (#[trigger] cols[j]).name != "File_"@ by {
            if j == 1 {
                assert(cols[1].name == "Options"@);
                assert("Options"@.len() != "File_"@.len());
            } else if j == 2 {
                assert(cols[2].name == "HashPart1"@);
                assert("HashPart1"@.len() != "File_"@.len());
            } else if j == 3 {
                assert(cols[3].name == "HashPart2"@);
                assert("HashPart2"@.len() != "File_"@.len());
            } else if j == 4 {
                assert(cols[4].name == "HashPart3"@);
                assert("HashPart3"@.len() != "File_"@.len());
            } else if j == 5 {
                assert(cols[5].name == "HashPart4"@);
                assert("HashPart4"@.len() != "File_"@.len());
            }
        }
    }
    assert(column_at(cols, "Options"@, 1)) by {
        assert forall|j: int| 0 <= j < cols.len() && j != 1 implies (#[trigger] cols[j]).name != "Options"@ by {
            if j == 0 {
                assert(cols[0].name == "File_"@);
                assert("File_"@.len() != "Options"@.len());
            } else if j == 2 {
                assert(cols[2].name == "HashPart1"@);
                assert("HashPart1"@.len() != "Options"@.len());
            } else if j == 3 {
                assert(cols[3].name == "HashPart2"@);
                assert("HashPart2"@.len() != "Options"@.len());
            } else if j == 4 {
                assert(cols[4].name == "HashPart3"@);
                assert("HashPart3"@.len() != "Options"@.len());
            } else if j == 5 {
                assert(cols[5].name == "HashPart4"@);
                assert("HashPart4"@.len() != "Options"@.len());
            }
        }
    }
    assert(column_at(cols, "HashPart1"@, 2)) by {
        assert forall|j: int| 0 <= j < cols.len() && j != 2 implies (#[trigger] cols[j]).name != "HashPart1"@ by {
            if j == 0 {
                assert(cols[0].name == "File_"@);
                assert("File_"@.len() != "HashPart1"@.len());
            } else if j == 1 {
                assert(cols[1].name == "Options"@);
                assert("Options"@.len() != "HashPart1"@.len());
            } else if j == 3 {
                assert(cols[3].name == "HashPart2"@);
                assert("HashPart2"@[8] != "HashPart1"@[8]);
            } else if j == 4 {
                assert(cols[4].name == "HashPart3"@);
                assert("HashPart3"@[8] != "HashPart1"@[8]);
            } else if j == 5 {
                assert(cols[5].name == "HashPart4"@);
                assert("HashPart4"@[8] != "HashPart1"@[8]);
            }
        }
    }
    assert(column_at(cols, "HashPart2"@, 3)) by {
        assert forall|j: int| 0 <= j < cols.len() && j != 3 implies (#[trigger] cols[j]).name != "HashPart2"@ by {
            if j == 0 {
                assert(cols[0].name == "File_"@);
                assert("File_"@.len() != "HashPart2"@.len());
            } else if j == 1 {
                assert(cols[1].name == "Options"@);
                assert("Options"@.len() != "HashPart2"@.len());
            } else if j == 2 {
                assert(cols[2].name == "HashPart1"@);
                assert("HashPart1"@[8] != "HashPart2"@[8]);
            } else if j == 4 {
                assert(cols[4].name == "HashPart3"@);
                assert("HashPart3"@[8] != "HashPart2"@[8]);
            } else if j == 5 {
                assert(cols[5].name == "HashPart4"@);
                assert("HashPart4"@[8] != "HashPart2"@[8]);
            }
        }
    }
    assert(column_at(cols, "HashPart3"@, 4)) by {
        assert forall|j: int| 0 <= j < cols.len() && j != 4 implies (#[trigger] cols[j]).name != "HashPart3"@ by {
            if j == 0 {
                assert(cols[0].name == "File_"@);
                assert("File_"@.len() != "HashPart3"@.len());
            } else if j == 1 {
                assert(cols[1].name == "Options"@);
                assert("Options"@.len() != "HashPart3"@.len());
            } else if j == 2 {
                assert(cols[2].name == "HashPart1"@);
                assert("HashPart1"@[8] != "HashPart3"@[8]);
            } else if j == 3 {
                assert(cols[3].name == "HashPart2"@);
                assert("HashPart2"@[8] != "HashPart3"@[8]);
            } else if j == 5 {
                assert(cols[5].name == "HashPart4"@);
                assert("HashPart4"@[8] != "HashPart3"@[8]);
            }
        }
    }
    assert(column_at(cols, "HashPart4"@, 5)) by {
        assert forall|j: int| 0 <= j < cols.len() && j != 5 implies (#[trigger] cols[j]).name != "HashPart4"@ by {
            if j == 0 {
                assert(cols[0].name == "File_"@);
                assert("File_"@.len() != "HashPart4"@.len());
            } else if j == 1 {
                assert(cols[1].name == "Options"@);
                assert("Options"@.len() != "HashPart4"@.len());
            } else if j == 2 {
                assert(cols[2].name == "HashPart1"@);
                assert("HashPart1"@[8] != "HashPart4"@[8]);
            } else if j == 3 {
                assert(cols[3].name == "HashPart2"@);
                assert("HashPart2"@[8] != "HashPart4"@[8]);
            } else if j == 4 {
                assert(cols[4].name == "HashPart3"@);
                assert("HashPart3"@[8] != "HashPart4"@[8]);
            }
        }
    }
}

} // verus!
