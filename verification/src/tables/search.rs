//! The tables of searches on the target system: Signature, AppSearch and RegLocator.

use vstd::prelude::*;
use vstd::string::*;
use crate::identifier::{Identifier, opt_id_value, opt_id_view, SignatureIdentifier};
use crate::tables::column::{Category, ColumnKind, ColumnSpec, ColumnView, col, column, columns_view, cell_under, column_at};
use crate::tables::dao::{DaoContainer, IsDao, MsiBuilderListEntry, PackageWriter, ToUniqueMsiIdentifier};
use crate::value::{Value, ValueView, row_view, opt_str_value, opt_str_view, i16_value, opt_i16_value, opt_i32_value, opt_int_view};
use crate::constants::{DEFAULT_IDENTIFIER_MAX_LEN, FILENAME_MAX_LEN, REGPATH_MAX_LEN};
use crate::types::{Formatted, RegPath};

verus! {

/// One file signature that the installer searches for.
pub struct SignatureDao {
    pub signature: SignatureIdentifier,
    pub filename: String,
    pub min_version: Option<String>,
    pub max_version: Option<String>,
    pub min_size: Option<i32>,
    pub max_size: Option<i32>,
    pub min_date: Option<i32>,
    pub max_date: Option<i32>,
    pub languages: Option<String>,
}

impl IsDao for SignatureDao {
    open spec fn row_spec(&self) -> Seq<ValueView> {
        seq![
            ValueView::Str(self.signature@),
            ValueView::Str(self.filename@),
            opt_str_view(&self.min_version),
            opt_str_view(&self.max_version),
            opt_int_view(match self.min_size { Some(v) => Some(v as int), None => None }),
            opt_int_view(match self.max_size { Some(v) => Some(v as int), None => None }),
            opt_int_view(match self.min_date { Some(v) => Some(v as int), None => None }),
            opt_int_view(match self.max_date { Some(v) => Some(v as int), None => None }),
            opt_str_view(&self.languages),
        ]
    }

    fn to_row(&self) -> (r: Vec<Value>) {
        let r = vec![
            self.signature.to_value(),
            Value::Str(self.filename.clone()),
            opt_str_value(&self.min_version),
            opt_str_value(&self.max_version),
            opt_i32_value(self.min_size),
            opt_i32_value(self.max_size),
            opt_i32_value(self.min_date),
            opt_i32_value(self.max_date),
            opt_str_value(&self.languages),
        ];
        assert(row_view(r@) =~= self.row_spec());
        r
    }
}

impl MsiBuilderListEntry for SignatureDao {
    /// Two signatures conflict when they have the same key.
    open spec fn conflicts_spec(&self, other: &Self) -> bool {
        self.signature@ == other.signature@
    }

    fn conflicts(&self, other: &Self) -> (r: bool) {
        self.signature.same(&other.signature)
    }
}

impl ToUniqueMsiIdentifier for SignatureDao {
    open spec fn unique_id_spec(&self) -> Option<Seq<char>> {
        Some(self.signature@)
    }

    fn to_unique_msi_identifier(&self) -> (r: Option<Identifier>) {
        Some(self.signature.clone())
    }
}

/// The Signature table.
pub struct SignatureTable {
    entries: Vec<SignatureDao>,
}

impl SignatureTable {
    /// An empty table.
    pub fn new() -> (r: SignatureTable)
        ensures
            r.entries_spec() == Seq::<SignatureDao>::empty(),
    {
        SignatureTable { entries: Vec::new() }
    }
}

impl DaoContainer for SignatureTable {
    type Dao = SignatureDao;

    closed spec fn entries_spec(&self) -> Seq<SignatureDao> {
        self.entries@
    }

    fn entries(&self) -> (r: &Vec<SignatureDao>) {
        &self.entries
    }

    fn push_entry(&mut self, entry: SignatureDao) {
        self.entries.push(entry);
    }
}

impl PackageWriter for SignatureTable {
    open spec fn name_spec() -> Seq<char> {
        "Signature"@
    }

    open spec fn columns_spec() -> Seq<ColumnView> {
        seq![
            col("Signature"@, ColumnKind::Str(Category::Identifier, DEFAULT_IDENTIFIER_MAX_LEN), true, false, false),
            col("FileName"@, ColumnKind::Str(Category::Text, FILENAME_MAX_LEN), false, false, false),
            col("MinVersion"@, ColumnKind::Str(Category::Text, 20), false, true, false),
            col("MaxVersion"@, ColumnKind::Str(Category::Text, 20), false, true, false),
            col("MinSize"@, ColumnKind::Int32, false, true, false),
            col("MaxSize"@, ColumnKind::Int32, false, true, false),
            col("MinDate"@, ColumnKind::Int32, false, true, false),
            col("MaxDate"@, ColumnKind::Int32, false, true, false),
            col("Language"@, ColumnKind::Str(Category::Text, 255), false, true, false),
        ]
    }

    fn name(&self) -> (r: &'static str) {
        "Signature"
    }

    fn columns(&self) -> (r: Vec<ColumnSpec>) {
        let r = vec![
            column("Signature", ColumnKind::Str(Category::Identifier, DEFAULT_IDENTIFIER_MAX_LEN), true, false, false),
            column("FileName", ColumnKind::Str(Category::Text, FILENAME_MAX_LEN), false, false, false),
            column("MinVersion", ColumnKind::Str(Category::Text, 20), false, true, false),
            column("MaxVersion", ColumnKind::Str(Category::Text, 20), false, true, false),
            column("MinSize", ColumnKind::Int32, false, true, false),
            column("MaxSize", ColumnKind::Int32, false, true, false),
            column("MinDate", ColumnKind::Int32, false, true, false),
            column("MaxDate", ColumnKind::Int32, false, true, false),
            column("Language", ColumnKind::Str(Category::Text, 255), false, true, false),
        ];
        assert(columns_view(r@) =~= Self::columns_spec());
        r
    }

    proof fn lemma_row_arity(entry: &SignatureDao) {
    }
}

/// One search: the property that receives what the signature finds.
pub struct AppSearchDao {
    pub property: Identifier,
    pub signature: SignatureIdentifier,
}

impl IsDao for AppSearchDao {
    open spec fn row_spec(&self) -> Seq<ValueView> {
        seq![
            ValueView::Str(self.property@),
            ValueView::Str(self.signature@),
        ]
    }

    fn to_row(&self) -> (r: Vec<Value>) {
        let r = vec![
            self.property.to_value(),
            self.signature.to_value(),
        ];
        assert(row_view(r@) =~= self.row_spec());
        r
    }
}

impl MsiBuilderListEntry for AppSearchDao {
    /// Two searches conflict when they fill the same property.
    open spec fn conflicts_spec(&self, other: &Self) -> bool {
        self.property@ == other.property@
    }

    fn conflicts(&self, other: &Self) -> (r: bool) {
        self.property.same(&other.property)
    }
}

impl ToUniqueMsiIdentifier for AppSearchDao {
    open spec fn unique_id_spec(&self) -> Option<Seq<char>> {
        None
    }

    fn to_unique_msi_identifier(&self) -> (r: Option<Identifier>) {
        None
    }
}

/// The AppSearch table.
pub struct AppSearchTable {
    entries: Vec<AppSearchDao>,
}

impl AppSearchTable {
    /// An empty table.
    pub fn new() -> (r: AppSearchTable)
        ensures
            r.entries_spec() == Seq::<AppSearchDao>::empty(),
    {
        AppSearchTable { entries: Vec::new() }
    }
}

impl DaoContainer for AppSearchTable {
    type Dao = AppSearchDao;

    closed spec fn entries_spec(&self) -> Seq<AppSearchDao> {
        self.entries@
    }

    fn entries(&self) -> (r: &Vec<AppSearchDao>) {
        &self.entries
    }

    fn push_entry(&mut self, entry: AppSearchDao) {
        self.entries.push(entry);
    }
}

impl PackageWriter for AppSearchTable {
    open spec fn name_spec() -> Seq<char> {
        "AppSearch"@
    }

    open spec fn columns_spec() -> Seq<ColumnView> {
        seq![
            col("Property"@, ColumnKind::Str(Category::Identifier, DEFAULT_IDENTIFIER_MAX_LEN), true, false, false),
            col("Signature_"@, ColumnKind::Str(Category::Identifier, DEFAULT_IDENTIFIER_MAX_LEN), true, false, false),
        ]
    }

    fn name(&self) -> (r: &'static str) {
        "AppSearch"
    }

    fn columns(&self) -> (r: Vec<ColumnSpec>) {
        let r = vec![
            column("Property", ColumnKind::Str(Category::Identifier, DEFAULT_IDENTIFIER_MAX_LEN), true, false, false),
            column("Signature_", ColumnKind::Str(Category::Identifier, DEFAULT_IDENTIFIER_MAX_LEN), true, false, false),
        ];
        assert(columns_view(r@) =~= Self::columns_spec());
        r
    }

    proof fn lemma_row_arity(entry: &AppSearchDao) {
    }
}

/// One registry location to search for a signature.
pub struct RegLocatorDao {
    pub signature: SignatureIdentifier,
    pub root: i16,
    pub key: RegPath,
    pub name: Option<Formatted>,
    pub typ: Option<i16>,
}

impl IsDao for RegLocatorDao {
    open spec fn row_spec(&self) -> Seq<ValueView> {
        seq![
            ValueView::Str(self.signature@),
            ValueView::Int(self.root as int),
            ValueView::Str(self.key@),
            opt_str_view(&self.name),
            opt_int_view(match self.typ { Some(v) => Some(v as int), None => None }),
        ]
    }

    fn to_row(&self) -> (r: Vec<Value>) {
        let r = vec![
            self.signature.to_value(),
            i16_value(self.root),
            Value::Str(self.key.clone()),
            opt_str_value(&self.name),
            opt_i16_value(self.typ),
        ];
        assert(row_view(r@) =~= self.row_spec());
        r
    }
}

impl MsiBuilderListEntry for RegLocatorDao {
    /// Two locators conflict when they are for the same signature.
    open spec fn conflicts_spec(&self, other: &Self) -> bool {
        self.signature@ == other.signature@
    }

    fn conflicts(&self, other: &Self) -> (r: bool) {
        self.signature.same(&other.signature)
    }
}

impl ToUniqueMsiIdentifier for RegLocatorDao {
    open spec fn unique_id_spec(&self) -> Option<Seq<char>> {
        None
    }

    fn to_unique_msi_identifier(&self) -> (r: Option<Identifier>) {
        None
    }
}

/// The RegLocator table.
pub struct RegLocatorTable {
    entries: Vec<RegLocatorDao>,
}

impl RegLocatorTable {
    /// An empty table.
    pub fn new() -> (r: RegLocatorTable)
        ensures
            r.entries_spec() == Seq::<RegLocatorDao>::empty(),
    {
        RegLocatorTable { entries: Vec::new() }
    }
}

impl DaoContainer for RegLocatorTable {
    type Dao = RegLocatorDao;

    closed spec fn entries_spec(&self) -> Seq<RegLocatorDao> {
        self.entries@
    }

    fn entries(&self) -> (r: &Vec<RegLocatorDao>) {
        &self.entries
    }

    fn push_entry(&mut self, entry: RegLocatorDao) {
        self.entries.push(entry);
    }
}

impl PackageWriter for RegLocatorTable {
    open spec fn name_spec() -> Seq<char> {
        "RegLocator"@
    }

    open spec fn columns_spec() -> Seq<ColumnView> {
        seq![
            col("Signature_"@, ColumnKind::Str(Category::Identifier, DEFAULT_IDENTIFIER_MAX_LEN), true, false, false),
            col("Root"@, ColumnKind::Int16, false, false, false),
            col("Key"@, ColumnKind::Str(Category::RegPath, REGPATH_MAX_LEN), false, false, false),
            col("Name"@, ColumnKind::Str(Category::Formatted, 255), false, true, false),
            col("Type"@, ColumnKind::Int16, false, true, false),
        ]
    }

    fn name(&self) -> (r: &'static str) {
        "RegLocator"
    }

    fn columns(&self) -> (r: Vec<ColumnSpec>) {
        let r = vec![
            column("Signature_", ColumnKind::Str(Category::Identifier, DEFAULT_IDENTIFIER_MAX_LEN), true, false, false),
            column("Root", ColumnKind::Int16, false, false, false),
            column("Key", ColumnKind::Str(Category::RegPath, REGPATH_MAX_LEN), false, false, false),
            column("Name", ColumnKind::Str(Category::Formatted, 255), false, true, false),
            column("Type", ColumnKind::Int16, false, true, false),
        ];
        assert(columns_view(r@) =~= Self::columns_spec());
        r
    }

    proof fn lemma_row_arity(entry: &RegLocatorDao) {
    }
}

/// The row of a Signature entry has one cell per column, and each cell lies
/// under the column of the field it holds: `Signature` holds `signature`,
/// `FileName` holds `filename`, `MinVersion` holds `min_version`, `MaxVersion`
/// holds `max_version`, `MinSize` holds `min_size`, `MaxSize` holds `max_size`,
/// `MinDate` holds `min_date`, `MaxDate` holds `max_date`, `Language` holds
/// `languages`.
pub proof fn lemma_signature_dao_row_columns(d: SignatureDao)
    ensures
        cell_under(d.row_spec(), SignatureTable::columns_spec(), "Signature"@, ValueView::Str(d.signature@)),
        cell_under(d.row_spec(), SignatureTable::columns_spec(), "FileName"@, ValueView::Str(d.filename@)),
        cell_under(d.row_spec(), SignatureTable::columns_spec(), "MinVersion"@, opt_str_view(&d.min_version)),
        cell_under(d.row_spec(), SignatureTable::columns_spec(), "MaxVersion"@, opt_str_view(&d.max_version)),
        cell_under(d.row_spec(), SignatureTable::columns_spec(), "MinSize"@, opt_int_view(match d.min_size { Some(v) => Some(v as int), None => None })),
        cell_under(d.row_spec(), SignatureTable::columns_spec(), "MaxSize"@, opt_int_view(match d.max_size { Some(v) => Some(v as int), None => None })),
        cell_under(d.row_spec(), SignatureTable::columns_spec(), "MinDate"@, opt_int_view(match d.min_date { Some(v) => Some(v as int), None => None })),
        cell_under(d.row_spec(), SignatureTable::columns_spec(), "MaxDate"@, opt_int_view(match d.max_date { Some(v) => Some(v as int), None => None })),
        cell_under(d.row_spec(), SignatureTable::columns_spec(), "Language"@, opt_str_view(&d.languages)),
{
    let cols = SignatureTable::columns_spec();
    reveal_strlit("Signature");
    reveal_strlit("FileName");
    reveal_strlit("MinVersion");
    reveal_strlit("MaxVersion");
    reveal_strlit("MinSize");
    reveal_strlit("MaxSize");
    reveal_strlit("MinDate");
    reveal_strlit("MaxDate");
    reveal_strlit("Language");
    assert(column_at(cols, "Signature"@, 0)) by {
        assert forall|j: int| 0 <= j < cols.len() && j != 0 implies (#[trigger] cols[j]).name != "Signature"@ by {
            if j == 1 {
                assert(cols[1].name == "FileName"@);
                assert("FileName"@.len() != "Signature"@.len());
            } else if j == 2 {
                assert(cols[2].name == "MinVersion"@);
                assert("MinVersion"@.len() != "Signature"@.len());
            } else if j == 3 {
                assert(cols[3].name == "MaxVersion"@);
                assert("MaxVersion"@.len() != "Signature"@.len());
            } else if j == 4 {
                assert(cols[4].name == "MinSize"@);
                assert("MinSize"@.len() != "Signature"@.len());
            } else if j == 5 {
                assert(cols[5].name == "MaxSize"@);
                assert("MaxSize"@.len() != "Signature"@.len());
            } else if j == 6 {
                assert(cols[6].name == "MinDate"@);
                assert("MinDate"@.len() != "Signature"@.len());
            } else if j == 7 {
                assert(cols[7].name == "MaxDate"@);
                assert("MaxDate"@.len() != "Signature"@.len());
            } else if j == 8 {
                assert(cols[8].name == "Language"@);
                assert("Language"@.len() != "Signature"@.len());
            }
        }
    }
    assert(column_at(cols, "FileName"@, 1)) by {
        assert forall|j: int| 0 <= j < cols.len() && j != 1 implies (#[trigger] cols[j]).name != "FileName"@ by {
            if j == 0 {
                assert(cols[0].name == "Signature"@);
                assert("Signature"@.len() != "FileName"@.len());
            } else if j == 2 {
                assert(cols[2].name == "MinVersion"@);
                assert("MinVersion"@.len() != "FileName"@.len());
            } else if j == 3 {
                assert(cols[3].name == "MaxVersion"@);
                assert("MaxVersion"@.len() != "FileName"@.len());
            } else if j == 4 {
                assert(cols[4].name == "MinSize"@);
                assert("MinSize"@.len() != "FileName"@.len());
            } else if j == 5 {
                assert(cols[5].name == "MaxSize"@);
                assert("MaxSize"@.len() != "FileName"@.len());
            } else if j == 6 {
                assert(cols[6].name == "MinDate"@);
                assert("MinDate"@.len() != "FileName"@.len());
            } else if j == 7 {
                assert(cols[7].name == "MaxDate"@);
                assert("MaxDate"@.len() != "FileName"@.len());
            } else if j == 8 {
                assert(cols[8].name == "Language"@);
                assert("Language"@[0] != "FileName"@[0]);
            }
        }
    }
    assert(column_at(cols, "MinVersion"@, 2)) by {
        assert forall|j: int| 0 <= j < cols.len() && j != 2 implies (#[trigger] cols[j]).name != "MinVersion"@ by {
            if j == 0 {
                assert(cols[0].name == "Signature"@);
                assert("Signature"@.len() != "MinVersion"@.len());
            } else if j == 1 {
                assert(cols[1].name == "FileName"@);
                assert("FileName"@.len() != "MinVersion"@.len());
            } else if j == 3 {
                assert(cols[3].name == "MaxVersion"@);
                assert("MaxVersion"@[1] != "MinVersion"@[1]);
            } else if j == 4 {
                assert(cols[4].name == "MinSize"@);
                assert("MinSize"@.len() != "MinVersion"@.len());
            } else if j == 5 {
                assert(cols[5].name == "MaxSize"@);
                assert("MaxSize"@.len() != "MinVersion"@.len());
            } else if j == 6 {
                assert(cols[6].name == "MinDate"@);
                assert("MinDate"@.len() != "MinVersion"@.len());
            } else if j == 7 {
                assert(cols[7].name == "MaxDate"@);
                assert("MaxDate"@.len() != "MinVersion"@.len());
            } else if j == 8 {
                assert(cols[8].name == "Language"@);
                assert("Language"@.len() != "MinVersion"@.len());
            }
        }
    }
    assert(column_at(cols, "MaxVersion"@, 3)) by {
        assert forall|j: int| 0 <= j < cols.len() && j != 3 implies (#[trigger] cols[j]).name != "MaxVersion"@ by {
            if j == 0 {
                assert(cols[0].name == "Signature"@);
                assert("Signature"@.len() != "MaxVersion"@.len());
            } else if j == 1 {
                assert(cols[1].name == "FileName"@);
                assert("FileName"@.len() != "MaxVersion"@.len());
            } else if j == 2 {
                assert(cols[2].name == "MinVersion"@);
                assert("MinVersion"@[1] != "MaxVersion"@[1]);
            } else if j == 4 {
                assert(cols[4].name == "MinSize"@);
                assert("MinSize"@.len() != "MaxVersion"@.len());
            } else if j == 5 {
                assert(cols[5].name == "MaxSize"@);
                assert("MaxSize"@.len() != "MaxVersion"@.len());
            } else if j == 6 {
                assert(cols[6].name == "MinDate"@);
                assert("MinDate"@.len() != "MaxVersion"@.len());
            } else if j == 7 {
                assert(cols[7].name == "MaxDate"@);
                assert("MaxDate"@.len() != "MaxVersion"@.len());
            } else if j == 8 {
                assert(cols[8].name == "Language"@);
                assert("Language"@.len() != "MaxVersion"@.len());
            }
        }
    }
    assert(column_at(cols, "MinSize"@, 4)) by {
        assert forall|j: int| 0 <= j < cols.len() && j != 4 implies (#[trigger] cols[j]).name != "MinSize"@ by {
            if j == 0 {
                assert(cols[0].name == "Signature"@);
                assert("Signature"@.len() != "MinSize"@.len());
            } else if j == 1 {
                assert(cols[1].name == "FileName"@);
                assert("FileName"@.len() != "MinSize"@.len());
            } else if j == 2 {
                assert(cols[2].name == "MinVersion"@);
                assert("MinVersion"@.len() != "MinSize"@.len());
            } else if j == 3 {
                assert(cols[3].name == "MaxVersion"@);
                assert("MaxVersion"@.len() != "MinSize"@.len());
            } else if j == 5 {
                assert(cols[5].name == "MaxSize"@);
                assert("MaxSize"@[1] != "MinSize"@[1]);
            } else if j == 6 {
                assert(cols[6].name == "MinDate"@);
                assert("MinDate"@[3] != "MinSize"@[3]);
            } else if j == 7 {
                assert(cols[7].name == "MaxDate"@);
                assert("MaxDate"@[1] != "MinSize"@[1]);
            } else if j == 8 {
                assert(cols[8].name == "Language"@);
                assert("Language"@.len() != "MinSize"@.len());
            }
        }
    }
    assert(column_at(cols, "MaxSize"@, 5)) by {
        assert forall|j: int| 0 <= j < cols.len() && j != 5 implies (#[trigger] cols[j]).name != "MaxSize"@ by {
            if j == 0 {
                assert(cols[0].name == "Signature"@);
                assert("Signature"@.len() != "MaxSize"@.len());
            } else if j == 1 {
                assert(cols[1].name == "FileName"@);
                assert("FileName"@.len() != "MaxSize"@.len());
            } else if j == 2 {
                assert(cols[2].name == "MinVersion"@);
                assert("MinVersion"@.len() != "MaxSize"@.len());
            } else if j == 3 {
                assert(cols[3].name == "MaxVersion"@);
                assert("MaxVersion"@.len() != "MaxSize"@.len());
            } else if j == 4 {
                assert(cols[4].name == "MinSize"@);
                assert("MinSize"@[1] != "MaxSize"@[1]);
            } else if j == 6 {
                assert(cols[6].name == "MinDate"@);
                assert("MinDate"@[1] != "MaxSize"@[1]);
            } else if j == 7 {
                assert(cols[7].name == "MaxDate"@);
                assert("MaxDate"@[3] != "MaxSize"@[3]);
            } else if j == 8 {
                assert(cols[8].name == "Language"@);
                assert("Language"@.len() != "MaxSize"@.len());
            }
        }
    }
    assert(column_at(cols, "MinDate"@, 6)) by {
        assert forall|j: int| 0 <= j < cols.len() && j != 6 implies (#[trigger] cols[j]).name != "MinDate"@ by {
            if j == 0 {
                assert(cols[0].name == "Signature"@);
                assert("Signature"@.len() != "MinDate"@.len());
            } else if j == 1 {
                assert(cols[1].name == "FileName"@);
                assert("FileName"@.len() != "MinDate"@.len());
            } else if j == 2 {
                assert(cols[2].name == "MinVersion"@);
                assert("MinVersion"@.len() != "MinDate"@.len());
            } else if j == 3 {
                assert(cols[3].name == "MaxVersion"@);
                assert("MaxVersion"@.len() != "MinDate"@.len());
            } else if j == 4 {
                assert(cols[4].name == "MinSize"@);
                assert("MinSize"@[3] != "MinDate"@[3]);
            } else if j == 5 {
                assert(cols[5].name == "MaxSize"@);
                assert("MaxSize"@[1] != "MinDate"@[1]);
            } else if j == 7 {
                assert(cols[7].name == "MaxDate"@);
                assert("MaxDate"@[1] != "MinDate"@[1]);
            } else if j == 8 {
                assert(cols[8].name == "Language"@);
                assert("Language"@.len() != "MinDate"@.len());
            }
        }
    }
    assert(column_at(cols, "MaxDate"@, 7)) by {
        assert forall|j: int| 0 <= j < cols.len() && j != 7 implies (#[trigger] cols[j]).name != "MaxDate"@ by {
            if j == 0 {
                assert(cols[0].name == "Signature"@);
                assert("Signature"@.len() != "MaxDate"@.len());
            } else if j == 1 {
                assert(cols[1].name == "FileName"@);
                assert("FileName"@.len() != "MaxDate"@.len());
            } else if j == 2 {
                assert(cols[2].name == "MinVersion"@);
                assert("MinVersion"@.len() != "MaxDate"@.len());
            } else if j == 3 {
                assert(cols[3].name == "MaxVersion"@);
                assert("MaxVersion"@.len() != "MaxDate"@.len());
            } else if j == 4 {
                assert(cols[4].name == "MinSize"@);
                assert("MinSize"@[1] != "MaxDate"@[1]);
            } else if j == 5 {
                assert(cols[5].name == "MaxSize"@);
                assert("MaxSize"@[3] != "MaxDate"@[3]);
            } else if j == 6 {
                assert(cols[6].name == "MinDate"@);
                assert("MinDate"@[1] != "MaxDate"@[1]);
            } else if j == 8 {
                assert(cols[8].name == "Language"@);
                assert("Language"@.len() != "MaxDate"@.len());
            }
        }
    }
    assert(column_at(cols, "Language"@, 8)) by {
        assert forall|j: int| 0 <= j < cols.len() && j != 8 implies (#[trigger] cols[j]).name != "Language"@ by {
            if j == 0 {
                assert(cols[0].name == "Signature"@);
                assert("Signature"@.len() != "Language"@.len());
            } else if j == 1 {
                assert(cols[1].name == "FileName"@);
                assert("FileName"@[0] != "Language"@[0]);
            } else if j == 2 {
                assert(cols[2].name == "MinVersion"@);
                assert("MinVersion"@.len() != "Language"@.len());
            } else if j == 3 {
                assert(cols[3].name == "MaxVersion"@);
                assert("MaxVersion"@.len() != "Language"@.len());
            } else if j == 4 {
                assert(cols[4].name == "MinSize"@);
                assert("MinSize"@.len() != "Language"@.len());
            } else if j == 5 {
                assert(cols[5].name == "MaxSize"@);
                assert("MaxSize"@.len() != "Language"@.len());
            } else if j == 6 {
                assert(cols[6].name == "MinDate"@);
                assert("MinDate"@.len() != "Language"@.len());
            } else if j == 7 {
                assert(cols[7].name == "MaxDate"@);
                assert("MaxDate"@.len() != "Language"@.len());
            }
        }
    }
}

/// The row of a AppSearch entry has one cell per column, and each cell lies
/// under the column of the field it holds: `Property` holds `property`,
/// `Signature_` holds `signature`.
pub proof fn lemma_app_search_dao_row_columns(d: AppSearchDao)
    ensures
        cell_under(d.row_spec(), AppSearchTable::columns_spec(), "Property"@, ValueView::Str(d.property@)),
        cell_under(d.row_spec(), AppSearchTable::columns_spec(), "Signature_"@, ValueView::Str(d.signature@)),
{
    let cols = AppSearchTable::columns_spec();
    reveal_strlit("Property");
    reveal_strlit("Signature_");
    assert(column_at(cols, "Property"@, 0)) by {
        assert forall|j: int| 0 <= j < cols.len() && j != 0 implies (#[trigger] cols[j]).name != "Property"@ by {
            if j == 1 {
                assert(cols[1].name == "Signature_"@);
                assert("Signature_"@.len() != "Property"@.len());
            }
        }
    }
    assert(column_at(cols, "Signature_"@, 1)) by {
        assert forall|j: int| 0 <= j < cols.len() && j != 1 implies (#[trigger] cols[j]).name != "Signature_"@ by {
            if j == 0 {
                assert(cols[0].name == "Property"@);
                assert("Property"@.len() != "Signature_"@.len());
            }
        }
    }
}

/// The row of a RegLocator entry has one cell per column, and each cell lies
/// under the column of the field it holds: `Signature_` holds `signature`,
/// `Root` holds `root`, `Key` holds `key`, `Name` holds `name`, `Type` holds
/// `typ`.
pub proof fn lemma_reg_locator_dao_row_columns(d: RegLocatorDao)
    ensures
        cell_under(d.row_spec(), RegLocatorTable::columns_spec(), "Signature_"@, ValueView::Str(d.signature@)),
        cell_under(d.row_spec(), RegLocatorTable::columns_spec(), "Root"@, ValueView::Int(d.root as int)),
        cell_under(d.row_spec(), RegLocatorTable::columns_spec(), "Key"@, ValueView::Str(d.key@)),
        cell_under(d.row_spec(), RegLocatorTable::columns_spec(), "Name"@, opt_str_view(&d.name)),
        cell_under(d.row_spec(), RegLocatorTable::columns_spec(), "Type"@, opt_int_view(match d.typ { Some(v) => Some(v as int), None => None })),
{
    let cols = RegLocatorTable::columns_spec();
    reveal_strlit("Signature_");
    reveal_strlit("Root");
    reveal_strlit("Key");
    reveal_strlit("Name");
    reveal_strlit("Type");
    assert(column_at(cols, "Signature_"@, 0)) by {
        assert forall|j: int| 0 <= j < cols.len() && j != 0 implies (#[trigger] cols[j]).name != "Signature_"@ by {
            if j == 1 {
                assert(cols[1].name == "Root"@);
                assert("Root"@.len() != "Signature_"@.len());
            } else if j == 2 {
                assert(cols[2].name == "Key"@);
                assert("Key"@.len() != "Signature_"@.len());
            } else if j == 3 {
                assert(cols[3].name == "Name"@);
                assert("Name"@.len() != "Signature_"@.len());
            } else if j == 4 {
                assert(cols[4].name == "Type"@);
                assert("Type"@.len() != "Signature_"@.len());
            }
        }
    }
    assert(column_at(cols, "Root"@, 1)) by {
        assert forall|j: int| 0 <= j < cols.len() && j != 1 implies (#[trigger] cols[j]).name != "Root"@ by {
            if j == 0 {
                assert(cols[0].name == "Signature_"@);
                assert("Signature_"@.len() != "Root"@.len());
            } else if j == 2 {
                assert(cols[2].name == "Key"@);
                assert("Key"@.len() != "Root"@.len());
            } else if j == 3 {
                assert(cols[3].name == "Name"@);
                assert("Name"@[0] != "Root"@[0]);
            } else if j == 4 {
                assert(cols[4].name == "Type"@);
                assert("Type"@[0] != "Root"@[0]);
            }
        }
    }
    assert(column_at(cols, "Key"@, 2)) by {
        assert forall|j: int| 0 <= j < cols.len() && j != 2 implies (#[trigger] cols[j]).name != "Key"@ by {
            if j == 0 {
                assert(cols[0].name == "Signature_"@);
                assert("Signature_"@.len() != "Key"@.len());
            } else if j == 1 {
                assert(cols[1].name == "Root"@);
                assert("Root"@.len() != "Key"@.len());
            } else if j == 3 {
                assert(cols[3].name == "Name"@);
                assert("Name"@.len() != "Key"@.len());
            } else if j == 4 {
                assert(cols[4].name == "Type"@);
                assert("Type"@.len() != "Key"@.len());
            }
        }
    }
    assert(column_at(cols, "Name"@, 3)) by {
        assert forall|j: int| 0 <= j < cols.len() && j != 3 implies (#[trigger] cols[j]).name != "Name"@ by {
            if j == 0 {
                assert(cols[0].name == "Signature_"@);
                assert("Signature_"@.len() != "Name"@.len());
            } else if j == 1 {
                assert(cols[1].name == "Root"@);
                assert("Root"@[0] != "Name"@[0]);
            } else if j == 2 {
                assert(cols[2].name == "Key"@);
                assert("Key"@.len() != "Name"@.len());
            } else if j == 4 {
                assert(cols[4].name == "Type"@);
                assert("Type"@[0] != "Name"@[0]);
            }
        }
    }
    assert(column_at(cols, "Type"@, 4)) by {
        assert forall|j: int| 0 <= j < cols.len() && j != 4 implies (#[trigger] cols[j]).name != "Type"@ by {
            if j == 0 {
                assert(cols[0].name == "Signature_"@);
                assert("Signature_"@.len() != "Type"@.len());
            } else if j == 1 {
                assert(cols[1].name == "Root"@);
                assert("Root"@[0] != "Type"@[0]);
            } else if j == 2 {
                assert(cols[2].name == "Key"@);
                assert("Key"@.len() != "Type"@.len());
            } else if j == 3 {
                assert(cols[3].name == "Name"@);
                assert("Name"@[0] != "Type"@[0]);
            }
        }
    }
}

} // verus!
