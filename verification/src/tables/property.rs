//! The Property table: the named values the installer works with.

use vstd::prelude::*;
use crate::identifier::{Identifier, opt_id_value, opt_id_view};
use crate::tables::column::{Category, ColumnKind, ColumnSpec, ColumnView, col, column, columns_view, cell_under, column_at};
use crate::tables::dao::{DaoContainer, IsDao, MsiBuilderListEntry, PackageWriter, ToUniqueMsiIdentifier};
use crate::value::{Value, ValueView, row_view, opt_str_value, opt_str_view, i16_value, opt_i16_value, opt_i32_value, opt_int_view};
use crate::constants::{DEFAULT_IDENTIFIER_MAX_LEN, PROPERTY_VALUE_MAX_LEN};
use crate::error::MsiBuilderError;
use vstd::string::*;

verus! {

/// One property: a named value that the installer uses while it runs.
pub struct PropertyDao {
    pub property: Identifier,
    pub value: String,
}

impl PropertyDao {
    /// The property `property` set to `value`. A property value may not be
    /// empty: an empty `value` fails.
    pub fn new(property: Identifier, value: String) -> (r: Result<PropertyDao, MsiBuilderError>)
        ensures
            r is Ok <==> value@.len() > 0,
            r matches Ok(p) ==> p.property == property && p.value == value,
            r matches Err(e) ==> e is EmptyPropertyValue,
    {
        if value.as_str().unicode_len() == 0 {
            return Err(MsiBuilderError::EmptyPropertyValue);
        }
        Ok(PropertyDao { property, value })
    }
}

impl IsDao for PropertyDao {
    open spec fn row_spec(&self) -> Seq<ValueView> {
        seq![
            ValueView::Str(self.property@),
            ValueView::Str(self.value@),
        ]
    }

    fn to_row(&self) -> (r: Vec<Value>) {
        let r = vec![
            self.property.to_value(),
            Value::Str(self.value.clone()),
        ];
        assert(row_view(r@) =~= self.row_spec());
        r
    }
}

impl MsiBuilderListEntry for PropertyDao {
    /// Two properties conflict when they have the same name.
    open spec fn conflicts_spec(&self, other: &Self) -> bool {
        self.property@ == other.property@
    }

    fn conflicts(&self, other: &Self) -> (r: bool) {
        self.property.same(&other.property)
    }
}

impl ToUniqueMsiIdentifier for PropertyDao {
    open spec fn unique_id_spec(&self) -> Option<Seq<char>> {
        None
    }

    fn to_unique_msi_identifier(&self) -> (r: Option<Identifier>) {
        None
    }
}

/// The Property table.
pub struct PropertyTable {
    entries: Vec<PropertyDao>,
}

impl PropertyTable {
    /// An empty table.
    pub fn new() -> (r: PropertyTable)
        ensures
            r.entries_spec() == Seq::<PropertyDao>::empty(),
    {
        PropertyTable { entries: Vec::new() }
    }

    /// The value of the first property named `name`.
    pub fn get(&self, name: &str) -> (r: Option<&String>)
        ensures
            match r {
                Some(v) => exists|i: int|
                    0 <= i < self.entries_spec().len() && (#[trigger] self.entries_spec()[i]).property@ == name@
                    && self.entries_spec()[i].value == *v
                    && forall|k: int| 0 <= k < i ==> (#[trigger] self.entries_spec()[k]).property@ != name@,
                None => forall|i: int| 0 <= i < self.entries_spec().len()
                    ==> (#[trigger] self.entries_spec()[i]).property@ != name@,
            },
    {
        let mut i: usize = 0;
        while i < self.entries.len()
            invariant
                i <= self.entries@.len(),
                forall|k: int| 0 <= k < i ==> (#[trigger] self.entries@[k]).property@ != name@,
            decreases self.entries@.len() - i,
        {
            if crate::text::str_eq(self.entries[i].property.as_str(), name) {
                assert(self.entries_spec()[i as int].property@ == name@);
                return Some(&self.entries[i].value);
            }
            i = i + 1;
        }
        None
    }
}

impl DaoContainer for PropertyTable {
    type Dao = PropertyDao;

    closed spec fn entries_spec(&self) -> Seq<PropertyDao> {
        self.entries@
    }

    fn entries(&self) -> (r: &Vec<PropertyDao>) {
        &self.entries
    }

    fn push_entry(&mut self, entry: PropertyDao) {
        self.entries.push(entry);
    }
}

impl PackageWriter for PropertyTable {
    open spec fn name_spec() -> Seq<char> {
        "Property"@
    }

    open spec fn columns_spec() -> Seq<ColumnView> {
        seq![
            col("Property"@, ColumnKind::Str(Category::Identifier, DEFAULT_IDENTIFIER_MAX_LEN), true, false, false),
            col("Value"@, ColumnKind::Str(Category::Text, PROPERTY_VALUE_MAX_LEN), false, false, true),
        ]
    }

    fn name(&self) -> (r: &'static str) {
        "Property"
    }

    fn columns(&self) -> (r: Vec<ColumnSpec>) {
        let r = vec![
            column("Property", ColumnKind::Str(Category::Identifier, DEFAULT_IDENTIFIER_MAX_LEN), true, false, false),
            column("Value", ColumnKind::Str(Category::Text, PROPERTY_VALUE_MAX_LEN), false, false, true),
        ];
        assert(columns_view(r@) =~= Self::columns_spec());
        r
    }

    proof fn lemma_row_arity(entry: &PropertyDao) {
    }
}

/// The row of a Property entry has one cell per column, and each cell lies
/// under the column of the field it holds: `Property` holds `property`, `Value`
/// holds `value`.
pub proof fn lemma_property_dao_row_columns(d: PropertyDao)
    ensures
        cell_under(d.row_spec(), PropertyTable::columns_spec(), "Property"@, ValueView::Str(d.property@)),
        cell_under(d.row_spec(), PropertyTable::columns_spec(), "Value"@, ValueView::Str(d.value@)),
{
    let cols = PropertyTable::columns_spec();
    reveal_strlit("Property");
    reveal_strlit("Value");
    assert(column_at(cols, "Property"@, 0)) by {
        assert forall|j: int| 0 <= j < cols.len() && j != 0 implies (#[trigger] cols[j]).name != "Property"@ by {
            if j == 1 {
                assert(cols[1].name == "Value"@);
                assert("Value"@.len() != "Property"@.len());
            }
        }
    }
    assert(column_at(cols, "Value"@, 1)) by {
        assert forall|j: int| 0 <= j < cols.len() && j != 1 implies (#[trigger] cols[j]).name != "Value"@ by {
            if j == 0 {
                assert(cols[0].name == "Property"@);
                assert("Property"@.len() != "Value"@.len());
            }
        }
    }
}

} // verus!
