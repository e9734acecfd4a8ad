//! The Feature table and the FeatureComponents table.

use vstd::prelude::*;
use crate::identifier::{Identifier, opt_id_value, opt_id_view, ComponentIdentifier};
use crate::tables::column::{Category, ColumnKind, ColumnSpec, ColumnView, col, column, columns_view, cell_under, column_at};
use crate::tables::dao::{DaoContainer, IsDao, MsiBuilderListEntry, PackageWriter, ToUniqueMsiIdentifier};
use crate::value::{Value, ValueView, row_view, opt_str_value, opt_str_view, i16_value, opt_i16_value, opt_i32_value, opt_int_view};
use crate::constants::{DEFAULT_IDENTIFIER_MAX_LEN, FEATURE_IDENTIFIER_MAX_LEN, DEFAULT_FEATURE_DISPLAY, DEFAULT_FEATURE_LEVEL, DESCRIPTION_MAX_LEN, TITLE_MAX_LEN};
use crate::error::MsiBuilderError;
use vstd::string::*;

verus! {

/// The key of the Feature table: an identifier of at most 38 characters.
#[derive(Debug, PartialEq)]
pub struct FeatureIdentifier(pub Identifier);

impl View for FeatureIdentifier {
    type V = Seq<char>;

    open spec fn view(&self) -> Seq<char> {
        self.0@
    }
}

impl Clone for FeatureIdentifier {
    fn clone(&self) -> (r: Self)
        ensures
            r@ == self@,
    {
        FeatureIdentifier(self.0.clone())
    }
}

/// The identifier of the feature that every component joins unless told
/// otherwise.
pub open spec fn default_feature_name() -> Seq<char> {
    "DEFAULT_FEATURE"@
}

/// The title of the default feature.
pub open spec fn default_feature_title() -> Seq<char> {
    "Default Feature"@
}

impl FeatureIdentifier {
    /// Parses `s` as a feature identifier: it must follow the identifier
    /// rule and be at most 38 characters long (identifier characters
    /// are ASCII, so that is also its length in bytes).
    pub fn from_str(s: &str) -> (r: Result<FeatureIdentifier, MsiBuilderError>)
        ensures
            r is Ok <==> (s@.len() <= FEATURE_IDENTIFIER_MAX_LEN && crate::identifier::valid_identifier(s@)),
            r matches Ok(id) ==> id@ == s@,
            r matches Err(e) ==> (if s@.len() > FEATURE_IDENTIFIER_MAX_LEN {
                e is FeatureIdentifierTooLong
            } else {
                e is InvalidIdentifier
            }),
    {
        if s.unicode_len() > FEATURE_IDENTIFIER_MAX_LEN {
            return Err(MsiBuilderError::FeatureIdentifierTooLong);
        }
        match Identifier::from_str(s) {
            Ok(id) => Ok(FeatureIdentifier(id)),
            Err(e) => Err(e),
        }
    }

    /// The identifier of the default feature.
    pub fn default_feature() -> (r: FeatureIdentifier)
        ensures
            r@ == default_feature_name(),
    {
        proof {
            reveal_strlit("DEFAULT_FEATURE");
        }
        FeatureIdentifier(Identifier::from_valid(crate::text::owned("DEFAULT_FEATURE")))
    }

    /// Whether two feature identifiers are the same.
    pub fn same(&self, other: &FeatureIdentifier) -> (r: bool)
        ensures
            r == (self@ == other@),
    {
        self.0.same(&other.0)
    }
}

/// The cell for an optional feature identifier.
pub open spec fn opt_feature_view(f: Option<FeatureIdentifier>) -> ValueView {
    match f {
        Some(f) => ValueView::Str(f@),
        None => ValueView::Null,
    }
}

/// A string cell for a feature identifier, or a null cell.
pub fn opt_feature_value(f: &Option<FeatureIdentifier>) -> (r: Value)
    ensures
        r@ == opt_feature_view(*f),
{
    match f {
        Some(f) => f.0.to_value(),
        None => Value::Null,
    }
}

/// One feature: a unit of the product that the user may choose to install.
pub struct FeatureDao {
    pub feature: FeatureIdentifier,
    pub feature_parent: Option<FeatureIdentifier>,
    pub title: Option<String>,
    pub description: Option<String>,
    pub display: Option<i16>,
    pub level: i16,
    pub directory: Option<Identifier>,
    pub attributes: i16,
}

impl FeatureDao {
    /// The default feature: titled "Default Feature", displayed collapsed
    /// (display 2), installed at level 1, with no parent, description,
    /// directory or attributes.
    pub fn default() -> (r: FeatureDao)
        ensures
            r.feature@ == default_feature_name(),
            r.title matches Some(t) && t@ == default_feature_title(),
            r.display == Some(DEFAULT_FEATURE_DISPLAY),
            r.level == DEFAULT_FEATURE_LEVEL,
            r.feature_parent is None,
            r.description is None,
            r.directory is None,
            r.attributes == 0,
    {
        FeatureDao {
            feature: FeatureIdentifier::default_feature(),
            title: Some(crate::text::owned("Default Feature")),
            display: Some(DEFAULT_FEATURE_DISPLAY),
            level: DEFAULT_FEATURE_LEVEL,
            feature_parent: None,
            description: None,
            directory: None,
            attributes: 0,
        }
    }

    /// A feature keyed `feature_identifier` with the settings of the default
    /// feature. Its title is always "Default Feature": the `title` argument
    /// is not used.
    pub fn new(feature_identifier: FeatureIdentifier, title: &str) -> (r: FeatureDao)
        ensures
            r.feature == feature_identifier,
            r.title matches Some(t) && t@ == default_feature_title(),
            r.display == Some(DEFAULT_FEATURE_DISPLAY),
            r.level == DEFAULT_FEATURE_LEVEL,
            r.feature_parent is None,
            r.description is None,
            r.directory is None,
            r.attributes == 0,
    {
        let d = FeatureDao::default();
        FeatureDao { feature: feature_identifier, ..d }
    }
}

impl IsDao for FeatureDao {
    open spec fn row_spec(&self) -> Seq<ValueView> {
        seq![
            ValueView::Str(self.feature@),
            opt_feature_view(self.feature_parent),
            opt_str_view(&self.title),
            opt_str_view(&self.description),
            opt_int_view(match self.display { Some(v) => Some(v as int), None => None }),
            ValueView::Int(self.level as int),
            opt_id_view(self.directory),
            ValueView::Int(self.attributes as int),
        ]
    }

    fn to_row(&self) -> (r: Vec<Value>) {
        let r = vec![
            self.feature.0.to_value(),
            opt_feature_value(&self.feature_parent),
            opt_str_value(&self.title),
            opt_str_value(&self.description),
            opt_i16_value(self.display),
            i16_value(self.level),
            opt_id_value(&self.directory),
            i16_value(self.attributes),
        ];
        assert(row_view(r@) =~= self.row_spec());
        r
    }
}

impl MsiBuilderListEntry for FeatureDao {
    /// Two features conflict when they have the same key.
    open spec fn conflicts_spec(&self, other: &Self) -> bool {
        self.feature@ == other.feature@
    }

    fn conflicts(&self, other: &Self) -> (r: bool) {
        self.feature.same(&other.feature)
    }
}

impl ToUniqueMsiIdentifier for FeatureDao {
    open spec fn unique_id_spec(&self) -> Option<Seq<char>> {
        Some(self.feature@)
    }

    fn to_unique_msi_identifier(&self) -> (r: Option<Identifier>) {
        Some(self.feature.0.clone())
    }
}

/// The Feature table.
pub struct FeatureTable {
    entries: Vec<FeatureDao>,
}

impl FeatureTable {
    /// An empty table.
    pub fn new() -> (r: FeatureTable)
        ensures
            r.entries_spec() == Seq::<FeatureDao>::empty(),
    {
        FeatureTable { entries: Vec::new() }
    }

    /// The table of a new package: it holds the default feature alone.
    pub fn with_default_feature() -> (r: FeatureTable)
        ensures
            r.entries_spec().len() == 1,
            r.entries_spec()[0].feature@ == default_feature_name(),
    {
        FeatureTable { entries: vec![FeatureDao::default()] }
    }

    /// The default feature, if the table holds it.
    pub fn get_default_feature(&self) -> (r: Option<&FeatureDao>)
        ensures
            match r {
                Some(f) => f.feature@ == default_feature_name()
                    && exists|i: int| 0 <= i < self.entries_spec().len() && self.entries_spec()[i] == *f,
                None => forall|i: int| 0 <= i < self.entries_spec().len()
                    ==> (#[trigger] self.entries_spec()[i]).feature@ != default_feature_name(),
            },
    {
        let target = FeatureIdentifier::default_feature();
        let mut i: usize = 0;
        while i < self.entries.len()
            invariant
                i <= self.entries@.len(),
                target@ == default_feature_name(),
                forall|k: int| 0 <= k < i ==> (#[trigger] self.entries@[k]).feature@ != default_feature_name(),
            decreases self.entries@.len() - i,
        {
            if self.entries[i].feature.same(&target) {
                return Some(&self.entries[i]);
            }
            i = i + 1;
        }
        None
    }
}

impl DaoContainer for FeatureTable {
    type Dao = FeatureDao;

    closed spec fn entries_spec(&self) -> Seq<FeatureDao> {
        self.entries@
    }

    fn entries(&self) -> (r: &Vec<FeatureDao>) {
        &self.entries
    }

    fn push_entry(&mut self, entry: FeatureDao) {
        self.entries.push(entry);
    }
}

impl PackageWriter for FeatureTable {
    open spec fn name_spec() -> Seq<char> {
        "Feature"@
    }

    open spec fn columns_spec() -> Seq<ColumnView> {
        seq![
            col("Feature"@, ColumnKind::Str(Category::Identifier, FEATURE_IDENTIFIER_MAX_LEN), true, false, false),
            col("Feature_Parent"@, ColumnKind::Str(Category::Identifier, FEATURE_IDENTIFIER_MAX_LEN), false, true, false),
            col("Title"@, ColumnKind::Str(Category::Text, TITLE_MAX_LEN), false, true, true),
            col("Description"@, ColumnKind::Str(Category::Text, DESCRIPTION_MAX_LEN), false, true, true),
            col("Display"@, ColumnKind::Int16, false, true, false),
            col("Level"@, ColumnKind::Int16, false, false, false),
            col("Directory_"@, ColumnKind::Str(Category::Identifier, DEFAULT_IDENTIFIER_MAX_LEN), false, true, false),
            col("Attributes"@, ColumnKind::Int16, false, false, false),
        ]
    }

    fn name(&self) -> (r: &'static str) {
        "Feature"
    }

    fn columns(&self) -> (r: Vec<ColumnSpec>) {
        let r = vec![
            column("Feature", ColumnKind::Str(Category::Identifier, FEATURE_IDENTIFIER_MAX_LEN), true, false, false),
            column("Feature_Parent", ColumnKind::Str(Category::Identifier, FEATURE_IDENTIFIER_MAX_LEN), false, true, false),
            column("Title", ColumnKind::Str(Category::Text, TITLE_MAX_LEN), false, true, true),
            column("Description", ColumnKind::Str(Category::Text, DESCRIPTION_MAX_LEN), false, true, true),
            column("Display", ColumnKind::Int16, false, true, false),
            column("Level", ColumnKind::Int16, false, false, false),
            column("Directory_", ColumnKind::Str(Category::Identifier, DEFAULT_IDENTIFIER_MAX_LEN), false, true, false),
            column("Attributes", ColumnKind::Int16, false, false, false),
        ];
        assert(columns_view(r@) =~= Self::columns_spec());
        r
    }

    proof fn lemma_row_arity(entry: &FeatureDao) {
    }
}

/// One membership of a component in a feature.
pub struct FeatureComponentsDao {
    pub feature: FeatureIdentifier,
    pub component: ComponentIdentifier,
}

impl FeatureComponentsDao {
    /// Puts the component keyed `component` into the feature keyed `feature`.
    pub fn new(feature: FeatureIdentifier, component: ComponentIdentifier) -> (r: FeatureComponentsDao)
        ensures
            r.feature == feature,
            r.component == component,
    {
        FeatureComponentsDao { feature, component }
    }
}

impl IsDao for FeatureComponentsDao {
    open spec fn row_spec(&self) -> Seq<ValueView> {
        seq![
            ValueView::Str(self.feature@),
            ValueView::Str(self.component@),
        ]
    }

    fn to_row(&self) -> (r: Vec<Value>) {
        let r = vec![
            self.feature.0.to_value(),
            self.component.to_value(),
        ];
        assert(row_view(r@) =~= self.row_spec());
        r
    }
}

impl MsiBuilderListEntry for FeatureComponentsDao {
    /// Two memberships conflict when they put the same component into the same feature.
    open spec fn conflicts_spec(&self, other: &Self) -> bool {
        self.feature@ == other.feature@ && self.component@ == other.component@
    }

    fn conflicts(&self, other: &Self) -> (r: bool) {
        self.feature.same(&other.feature) && self.component.same(&other.component)
    }
}

impl ToUniqueMsiIdentifier for FeatureComponentsDao {
    open spec fn unique_id_spec(&self) -> Option<Seq<char>> {
        None
    }

    fn to_unique_msi_identifier(&self) -> (r: Option<Identifier>) {
        None
    }
}

/// The FeatureComponents table: which components make up which features.
pub struct FeatureComponentsTable {
    entries: Vec<FeatureComponentsDao>,
}

impl FeatureComponentsTable {
    /// An empty table.
    pub fn new() -> (r: FeatureComponentsTable)
        ensures
            r.entries_spec() == Seq::<FeatureComponentsDao>::empty(),
    {
        FeatureComponentsTable { entries: Vec::new() }
    }
}

impl DaoContainer for FeatureComponentsTable {
    type Dao = FeatureComponentsDao;

    closed spec fn entries_spec(&self) -> Seq<FeatureComponentsDao> {
        self.entries@
    }

    fn entries(&self) -> (r: &Vec<FeatureComponentsDao>) {
        &self.entries
    }

    fn push_entry(&mut self, entry: FeatureComponentsDao) {
        self.entries.push(entry);
    }
}

impl PackageWriter for FeatureComponentsTable {
    open spec fn name_spec() -> Seq<char> {
        "FeatureComponents"@
    }

    open spec fn columns_spec() -> Seq<ColumnView> {
        seq![
            col("Feature_"@, ColumnKind::Str(Category::Identifier, FEATURE_IDENTIFIER_MAX_LEN), true, false, false),
            col("Component_"@, ColumnKind::Str(Category::Identifier, DEFAULT_IDENTIFIER_MAX_LEN), true, false, false),
        ]
    }

    fn name(&self) -> (r: &'static str) {
        "FeatureComponents"
    }

    fn columns(&self) -> (r: Vec<ColumnSpec>) {
        let r = vec![
            column("Feature_", ColumnKind::Str(Category::Identifier, FEATURE_IDENTIFIER_MAX_LEN), true, false, false),
            column("Component_", ColumnKind::Str(Category::Identifier, DEFAULT_IDENTIFIER_MAX_LEN), true, false, false),
        ];
        assert(columns_view(r@) =~= Self::columns_spec());
        r
    }

    proof fn lemma_row_arity(entry: &FeatureComponentsDao) {
    }
}

/// The row of a Feature entry has one cell per column, and each cell lies under
/// the column of the field it holds: `Feature` holds `feature`,
/// `Feature_Parent` holds `feature_parent`, `Title` holds `title`,
/// `Description` holds `description`, `Display` holds `display`, `Level` holds
/// `level`, `Directory_` holds `directory`, `Attributes` holds `attributes`.
pub proof fn lemma_feature_dao_row_columns(d: FeatureDao)
    ensures
        cell_under(d.row_spec(), FeatureTable::columns_spec(), "Feature"@, ValueView::Str(d.feature@)),
        cell_under(d.row_spec(), FeatureTable::columns_spec(), "Feature_Parent"@, opt_feature_view(d.feature_parent)),
        cell_under(d.row_spec(), FeatureTable::columns_spec(), "Title"@, opt_str_view(&d.title)),
        cell_under(d.row_spec(), FeatureTable::columns_spec(), "Description"@, opt_str_view(&d.description)),
        cell_under(d.row_spec(), FeatureTable::columns_spec(), "Display"@, opt_int_view(match d.display { Some(v) => Some(v as int), None => None })),
        cell_under(d.row_spec(), FeatureTable::columns_spec(), "Level"@, ValueView::Int(d.level as int)),
        cell_under(d.row_spec(), FeatureTable::columns_spec(), "Directory_"@, opt_id_view(d.directory)),
        cell_under(d.row_spec(), FeatureTable::columns_spec(), "Attributes"@, ValueView::Int(d.attributes as int)),
{
    let cols = FeatureTable::columns_spec();
    reveal_strlit("Feature");
    reveal_strlit("Feature_Parent");
    reveal_strlit("Title");
    reveal_strlit("Description");
    reveal_strlit("Display");
    reveal_strlit("Level");
    reveal_strlit("Directory_");
    reveal_strlit("Attributes");
    assert(column_at(cols, "Feature"@, 0)) by {
        assert forall|j: int| 0 <= j < cols.len() && j != 0 implies (#[trigger] cols[j]).name != "Feature"@ by {
            if j == 1 {
                assert(cols[1].name == "Feature_Parent"@);
                assert("Feature_Parent"@.len() != "Feature"@.len());
            } else if j == 2 {
                assert(cols[2].name == "Title"@);
                assert("Title"@.len() != "Feature"@.len());
            } else if j == 3 {
                assert(cols[3].name == "Description"@);
                assert("Description"@.len() != "Feature"@.len());
            } else if j == 4 {
                assert(cols[4].name == "Display"@);
                assert("Display"@[0] != "Feature"@[0]);
            } else if j == 5 {
                assert(cols[5].name == "Level"@);
                assert("Level"@.len() != "Feature"@.len());
            } else if j == 6 {
                assert(cols[6].name == "Directory_"@);
                assert("Directory_"@.len() != "Feature"@.len());
            } else if j == 7 {
                assert(cols[7].name == "Attributes"@);
                assert("Attributes"@.len() != "Feature"@.len());
            }
        }
    }
    assert(column_at(cols, "Feature_Parent"@, 1)) by {
        assert forall|j: int| 0 <= j < cols.len() && j != 1 implies (#[trigger] cols[j]).name != "Feature_Parent"@ by {
            if j == 0 {
                assert(cols[0].name == "Feature"@);
                assert("Feature"@.len() != "Feature_Parent"@.len());
            } else if j == 2 {
                assert(cols[2].name == "Title"@);
                assert("Title"@.len() != "Feature_Parent"@.len());
            } else if j == 3 {
                assert(cols[3].name == "Description"@);
                assert("Description"@.len() != "Feature_Parent"@.len());
            } else if j == 4 {
                assert(cols[4].name == "Display"@);
                assert("Display"@.len() != "Feature_Parent"@.len());
            } else if j == 5 {
                assert(cols[5].name == "Level"@);
                assert("Level"@.len() != "Feature_Parent"@.len());
            } else if j == 6 {
                assert(cols[6].name == "Directory_"@);
                assert("Directory_"@.len() != "Feature_Parent"@.len());
            } else if j == 7 {
                assert(cols[7].name == "Attributes"@);
                assert("Attributes"@.len() != "Feature_Parent"@.len());
            }
        }
    }
    assert(column_at(cols, "Title"@, 2)) by {
        assert forall|j: int| 0 <= j < cols.len() && j != 2 implies (#[trigger] cols[j]).name != "Title"@ by {
            if j == 0 {
                assert(cols[0].name == "Feature"@);
                assert("Feature"@.len() != "Title"@.len());
            } else if j == 1 {
                assert(cols[1].name == "Feature_Parent"@);
                assert("Feature_Parent"@.len() != "Title"@.len());
            } else if j == 3 {
                assert(cols[3].name == "Description"@);
                assert("Description"@.len() != "Title"@.len());
            } else if j == 4 {
                assert(cols[4].name == "Display"@);
                assert("Display"@.len() != "Title"@.len());
            } else if j == 5 {
                assert(cols[5].name == "Level"@);
                assert("Level"@[0] != "Title"@[0]);
            } else if j == 6 {
                assert(cols[6].name == "Directory_"@);
                assert("Directory_"@.len() != "Title"@.len());
            } else if j == 7 {
                assert(cols[7].name == "Attributes"@);
                assert("Attributes"@.len() != "Title"@.len());
            }
        }
    }
    assert(column_at(cols, "Description"@, 3)) by {
        assert forall|j: int| 0 <= j < cols.len() && j != 3 implies (#[trigger] cols[j]).name != "Description"@ by {
            if j == 0 {
                assert(cols[0].name == "Feature"@);
                assert("Feature"@.len() != "Description"@.len());
            } else if j == 1 {
                assert(cols[1].name == "Feature_Parent"@);
                assert("Feature_Parent"@.len() != "Description"@.len());
            } else if j == 2 {
                assert(cols[2].name == "Title"@);
                assert("Title"@.len() != "Description"@.len());
            } else if j == 4 {
                assert(cols[4].name == "Display"@);
                assert("Display"@.len() != "Description"@.len());
            } else if j == 5 {
                assert(cols[5].name == "Level"@);
                assert("Level"@.len() != "Description"@.len());
            } else if j == 6 {
                assert(cols[6].name == "Directory_"@);
                assert("Directory_"@.len() != "Description"@.len());
            } else if j == 7 {
                assert(cols[7].name == "Attributes"@);
                assert("Attributes"@.len() != "Description"@.len());
            }
        }
    }
    assert(column_at(cols, "Display"@, 4)) by {
        assert forall|j: int| 0 <= j < cols.len() && j != 4 implies (#[trigger] cols[j]).name != "Display"@ by {
            if j == 0 {
                assert(cols[0].name == "Feature"@);
                assert("Feature"@[0] != "Display"@[0]);
            } else if j == 1 {
                assert(cols[1].name == "Feature_Parent"@);
                assert("Feature_Parent"@.len() != "Display"@.len());
            } else if j == 2 {
                assert(cols[2].name == "Title"@);
                assert("Title"@.len() != "Display"@.len());
            } else if j == 3 {
                assert(cols[3].name == "Description"@);
                assert("Description"@.len() != "Display"@.len());
            } else if j == 5 {
                assert(cols[5].name == "Level"@);
                assert("Level"@.len() != "Display"@.len());
            } else if j == 6 {
                assert(cols[6].name == "Directory_"@);
                assert("Directory_"@.len() != "Display"@.len());
            } else if j == 7 {
                assert(cols[7].name == "Attributes"@);
                assert("Attributes"@.len() != "Display"@.len());
            }
        }
    }
    assert(column_at(cols, "Level"@, 5)) by {
        assert forall|j: int| 0 <= j < cols.len() && j != 5 implies (#[trigger] cols[j]).name != "Level"@ by {
            if j == 0 {
                assert(cols[0].name == "Feature"@);
                assert("Feature"@.len() != "Level"@.len());
            } else if j == 1 {
                assert(cols[1].name == "Feature_Parent"@);
                assert("Feature_Parent"@.len() != "Level"@.len());
            } else if j == 2 {
                assert(cols[2].name == "Title"@);
                assert("Title"@[0] != "Level"@[0]);
            } else if j == 3 {
                assert(cols[3].name == "Description"@);
                assert("Description"@.len() != "Level"@.len());
            } else if j == 4 {
                assert(cols[4].name == "Display"@);
                assert("Display"@.len() != "Level"@.len());
            } else if j == 6 {
                assert(cols[6].name == "Directory_"@);
                assert("Directory_"@.len() != "Level"@.len());
            } else if j == 7 {
                assert(cols[7].name == "Attributes"@);
                assert("Attributes"@.len() != "Level"@.len());
            }
        }
    }
    assert(column_at(cols, "Directory_"@, 6)) by {
        assert forall|j: int| 0 <= j < cols.len() && j != 6 implies (#[trigger] cols[j]).name != "Directory_"@ by {
            if j == 0 {
                assert(cols[0].name == "Feature"@);
                assert("Feature"@.len() != "Directory_"@.len());
            } else if j == 1 {
                assert(cols[1].name == "Feature_Parent"@);
                assert("Feature_Parent"@.len() != "Directory_"@.len());
            } else if j == 2 {
                assert(cols[2].name == "Title"@);
                assert("Title"@.len() != "Directory_"@.len());
            } else if j == 3 {
                assert(cols[3].name == "Description"@);
                assert("Description"@.len() != "Directory_"@.len());
            } else if j == 4 {
                assert(cols[4].name == "Display"@);
                assert("Display"@.len() != "Directory_"@.len());
            } else if j == 5 {
                assert(cols[5].name == "Level"@);
                assert("Level"@.len() != "Directory_"@.len());
            } else if j == 7 {
                assert(cols[7].name == "Attributes"@);
                assert("Attributes"@[0] != "Directory_"@[0]);
            }
        }
    }
    assert(column_at(cols, "Attributes"@, 7)) by {
        assert forall|j: int| 0 <= j < cols.len() && j != 7 implies (#[trigger] cols[j]).name != "Attributes"@ by {
            if j == 0 {
                assert(cols[0].name == "Feature"@);
                assert("Feature"@.len() != "Attributes"@.len());
            } else if j == 1 {
                assert(cols[1].name == "Feature_Parent"@);
                assert("Feature_Parent"@.len() != "Attributes"@.len());
            } else if j == 2 {
                assert(cols[2].name == "Title"@);
                assert("Title"@.len() != "Attributes"@.len());
            } else if j == 3 {
                assert(cols[3].name == "Description"@);
                assert("Description"@.len() != "Attributes"@.len());
            } else if j == 4 {
                assert(cols[4].name == "Display"@);
                assert("Display"@.len() != "Attributes"@.len());
            } else if j == 5 {
                assert(cols[5].name == "Level"@);
                assert("Level"@.len() != "Attributes"@.len());
            } else if j == 6 {
                assert(cols[6].name == "Directory_"@);
                assert("Directory_"@[0] != "Attributes"@[0]);
            }
        }
    }
}

/// The row of a FeatureComponents entry has one cell per column, and each cell
/// lies under the column of the field it holds: `Feature_` holds `feature`,
/// `Component_` holds `component`.
pub proof fn lemma_feature_components_dao_row_columns(d: FeatureComponentsDao)
    ensures
        cell_under(d.row_spec(), FeatureComponentsTable::columns_spec(), "Feature_"@, ValueView::Str(d.feature@)),
        cell_under(d.row_spec(), FeatureComponentsTable::columns_spec(), "Component_"@, ValueView::Str(d.component@)),
{
    let cols = FeatureComponentsTable::columns_spec();
    reveal_strlit("Feature_");
    reveal_strlit("Component_");
    assert(column_at(cols, "Feature_"@, 0)) by {
        assert forall|j: int| 0 <= j < cols.len() && j != 0 implies (#[trigger] cols[j]).name != "Feature_"@ by {
            if j == 1 {
                assert(cols[1].name == "Component_"@);
                assert("Component_"@.len() != "Feature_"@.len());
            }
        }
    }
    assert(column_at(cols, "Component_"@, 1)) by {
        assert forall|j: int| 0 <= j < cols.len() && j != 1 implies (#[trigger] cols[j]).name != "Component_"@ by {
            if j == 0 {
                assert(cols[0].name == "Feature_"@);
                assert("Feature_"@.len() != "Component_"@.len());
            }
        }
    }
}

} // verus!
