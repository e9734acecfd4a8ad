//! The LockPermissions table: access rights on installed objects.

use vstd::prelude::*;
use vstd::string::*;
use crate::identifier::{Identifier, opt_id_value, opt_id_view, FileIdentifier, RegistryIdentifier, ServiceInstallIdentifier};
use crate::tables::column::{Category, ColumnKind, ColumnSpec, ColumnView, col, column, columns_view, cell_under, column_at};
use crate::tables::dao::{DaoContainer, IsDao, MsiBuilderListEntry, PackageWriter, ToUniqueMsiIdentifier};
use crate::value::{Value, ValueView, row_view, opt_str_value, opt_str_view, i16_value, opt_i16_value, opt_i32_value, opt_int_view};
use crate::constants::{DEFAULT_IDENTIFIER_MAX_LEN};
use crate::types::Formatted;

verus! {

/// What a permission is set on: a file, a registry value, or a service.
pub enum LockObject {
    File(FileIdentifier),
    Registry(RegistryIdentifier),
    ServiceInstall(ServiceInstallIdentifier),
}

/// The table that holds the object.
pub open spec fn lock_table_name(o: LockObject) -> Seq<char> {
    match o {
        LockObject::File(_) => "File"@,
        LockObject::Registry(_) => "Registry"@,
        LockObject::ServiceInstall(_) => "ServiceInstall"@,
    }
}

/// The key of the object in its table.
pub open spec fn lock_object_key(o: LockObject) -> Seq<char> {
    match o {
        LockObject::File(i) => i@,
        LockObject::Registry(i) => i@,
        LockObject::ServiceInstall(i) => i@,
    }
}

/// Whether two objects are the same: of the same table, with the same key.
pub open spec fn same_lock_object(a: LockObject, b: LockObject) -> bool {
    &&& lock_object_key(a) == lock_object_key(b)
    &&& match (a, b) {
        (LockObject::File(_), LockObject::File(_)) => true,
        (LockObject::Registry(_), LockObject::Registry(_)) => true,
        (LockObject::ServiceInstall(_), LockObject::ServiceInstall(_)) => true,
        _ => false,
    }
}

impl LockObject {
    /// The name of the table that holds the object.
    pub fn table(&self) -> (r: &'static str)
        ensures
            r@ == lock_table_name(*self),
    {
        match self {
            LockObject::File(_) => "File",
            LockObject::Registry(_) => "Registry",
            LockObject::ServiceInstall(_) => "ServiceInstall",
        }
    }

    /// The key of the object.
    pub fn to_identifier(&self) -> (r: Identifier)
        ensures
            r@ == lock_object_key(*self),
    {
        match self {
            LockObject::File(i) => i.clone(),
            LockObject::Registry(i) => i.clone(),
            LockObject::ServiceInstall(i) => i.clone(),
        }
    }

    /// Whether two objects are the same.
    pub fn same(&self, other: &LockObject) -> (r: bool)
        ensures
            r == same_lock_object(*self, *other),
    {
        match (self, other) {
            (LockObject::File(a), LockObject::File(b)) => a.same(b),
            (LockObject::Registry(a), LockObject::Registry(b)) => a.same(b),
            (LockObject::ServiceInstall(a), LockObject::ServiceInstall(b)) => a.same(b),
            _ => false,
        }
    }
}

/// A level of access.
#[derive(Clone, Copy, Debug, PartialEq, Eq, Structural)]
pub enum LockPermissions {
    /// Read, write, and execute access.
    ALL,
    /// Execute access.
    EXECUTE,
    /// Write access.
    WRITE,
}

/// The access mask of a level.
pub open spec fn permission_mask(p: LockPermissions) -> i32 {
    match p {
        LockPermissions::ALL => 0x10000000,
        LockPermissions::EXECUTE => 0x20000000,
        LockPermissions::WRITE => 0x40000000,
    }
}

impl LockPermissions {
    /// The access mask.
    pub fn mask(&self) -> (r: i32)
        ensures
            r == permission_mask(*self),
    {
        match self {
            LockPermissions::ALL => 0x10000000,
            LockPermissions::EXECUTE => 0x20000000,
            LockPermissions::WRITE => 0x40000000,
        }
    }

    /// The cell: the mask cut to its low 16 bits.
    pub fn to_value(&self) -> (r: Value)
        ensures
            r@ == ValueView::Int(permission_mask(*self) as i16 as int),
    {
        let m = self.mask();
        Value::Int((m as i16) as i32)
    }
}

/// One permission: the access that a user of a domain gets to an object.
pub struct LockPermissionsDao {
    pub lock_object: LockObject,
    pub table: String,
    pub domain: Option<Formatted>,
    pub user: Formatted,
    pub permission: LockPermissions,
}

impl LockPermissionsDao {
    /// The permission `permission` on `lock_object` for `user`, in no
    /// particular domain.
    pub fn new(lock_object: LockObject, user: Formatted, permission: LockPermissions) -> (r: LockPermissionsDao)
        ensures
            r.lock_object == lock_object,
            r.table@ == lock_table_name(lock_object),
            r.domain is None,
            r.user == user,
            r.permission == permission,
    {
        let table = crate::text::owned(lock_object.table());
        LockPermissionsDao { lock_object, table, domain: None, user, permission }
    }
}

/// The cell for an optional domain.
pub open spec fn opt_domain_view(d: Option<Formatted>) -> ValueView {
    match d {
        Some(d) => ValueView::Str(d@),
        None => ValueView::Null,
    }
}

/// Whether two optional domains are the same.
pub open spec fn same_domain(a: Option<Formatted>, b: Option<Formatted>) -> bool {
    match (a, b) {
        (Some(x), Some(y)) => x@ == y@,
        (None, None) => true,
        _ => false,
    }
}

fn domain_eq(a: &Option<Formatted>, b: &Option<Formatted>) -> (r: bool)
    ensures
        r == same_domain(*a, *b),
{
    match (a, b) {
        (Some(x), Some(y)) => *x == *y,
        (None, None) => true,
        _ => false,
    }
}

impl IsDao for LockPermissionsDao {
    open spec fn row_spec(&self) -> Seq<ValueView> {
        seq![
            ValueView::Str(lock_object_key(self.lock_object)),
            ValueView::Str(lock_table_name(self.lock_object)),
            opt_domain_view(self.domain),
            ValueView::Str(self.user@),
            ValueView::Int(permission_mask(self.permission) as i16 as int),
        ]
    }

    fn to_row(&self) -> (r: Vec<Value>) {
        let r = vec![
            self.lock_object.to_identifier().to_value(),
            crate::value::str_value(self.lock_object.table()),
            opt_str_value(&self.domain),
            Value::Str(self.user.clone()),
            self.permission.to_value(),
        ];
        assert(row_view(r@) =~= self.row_spec());
        r
    }
}

impl MsiBuilderListEntry for LockPermissionsDao {
    /// Two permissions conflict when they are for the same user of the same domain on the same object.
    open spec fn conflicts_spec(&self, other: &Self) -> bool {
        same_lock_object(self.lock_object, other.lock_object) && same_domain(self.domain, other.domain) && self.user@ == other.user@
    }

    fn conflicts(&self, other: &Self) -> (r: bool) {
        self.lock_object.same(&other.lock_object) && domain_eq(&self.domain, &other.domain) && self.user == other.user
    }
}

impl ToUniqueMsiIdentifier for LockPermissionsDao {
    open spec fn unique_id_spec(&self) -> Option<Seq<char>> {
        None
    }

    fn to_unique_msi_identifier(&self) -> (r: Option<Identifier>) {
        None
    }
}

/// The LockPermissions table.
pub struct LockPermissionsTable {
    entries: Vec<LockPermissionsDao>,
}

impl LockPermissionsTable {
    /// An empty table.
    pub fn new() -> (r: LockPermissionsTable)
        ensures
            r.entries_spec() == Seq::<LockPermissionsDao>::empty(),
    {
        LockPermissionsTable { entries: Vec::new() }
    }
}

impl DaoContainer for LockPermissionsTable {
    type Dao = LockPermissionsDao;

    closed spec fn entries_spec(&self) -> Seq<LockPermissionsDao> {
        self.entries@
    }

    fn entries(&self) -> (r: &Vec<LockPermissionsDao>) {
        &self.entries
    }

    fn push_entry(&mut self, entry: LockPermissionsDao) {
        self.entries.push(entry);
    }
}

impl PackageWriter for LockPermissionsTable {
    open spec fn name_spec() -> Seq<char> {
        "LockPermissions"@
    }

    open spec fn columns_spec() -> Seq<ColumnView> {
        seq![
            col("LockObject"@, ColumnKind::Str(Category::Identifier, 72), true, false, false),
            col("Table"@, ColumnKind::Str(Category::Text, 255), false, false, false),
            col("Domain"@, ColumnKind::Str(Category::Formatted, 255), false, true, false),
            col("User"@, ColumnKind::Str(Category::Formatted, 255), false, false, false),
            col("Permission"@, ColumnKind::Int32, false, true, false),
        ]
    }

    fn name(&self) -> (r: &'static str) {
        "LockPermissions"
    }

    fn columns(&self) -> (r: Vec<ColumnSpec>) {
        let r = vec![
            column("LockObject", ColumnKind::Str(Category::Identifier, 72), true, false, false),
            column("Table", ColumnKind::Str(Category::Text, 255), false, false, false),
            column("Domain", ColumnKind::Str(Category::Formatted, 255), false, true, false),
            column("User", ColumnKind::Str(Category::Formatted, 255), false, false, false),
            column("Permission", ColumnKind::Int32, false, true, false),
        ];
        assert(columns_view(r@) =~= Self::columns_spec());
        r
    }

    proof fn lemma_row_arity(entry: &LockPermissionsDao) {
    }
}

/// The row of a LockPermissions entry has one cell per column, and each cell
/// lies under the column of the field it holds: `LockObject` holds
/// `lock_object`, `Table` holds `lock_object`, `Domain` holds `domain`, `User`
/// holds `user`, `Permission` holds `permission`.
pub proof fn lemma_lock_permissions_dao_row_columns(d: LockPermissionsDao)
    ensures
        cell_under(d.row_spec(), LockPermissionsTable::columns_spec(), "LockObject"@, ValueView::Str(lock_object_key(d.lock_object))),
        cell_under(d.row_spec(), LockPermissionsTable::columns_spec(), "Table"@, ValueView::Str(lock_table_name(d.lock_object))),
        cell_under(d.row_spec(), LockPermissionsTable::columns_spec(), "Domain"@, opt_domain_view(d.domain)),
        cell_under(d.row_spec(), LockPermissionsTable::columns_spec(), "User"@, ValueView::Str(d.user@)),
        cell_under(d.row_spec(), LockPermissionsTable::columns_spec(), "Permission"@, ValueView::Int(permission_mask(d.permission) as i16 as int)),
{
    let cols = LockPermissionsTable::columns_spec();
    reveal_strlit("LockObject");
    reveal_strlit("Table");
    reveal_strlit("Domain");
    reveal_strlit("User");
    reveal_strlit("Permission");
    assert(column_at(cols, "LockObject"@, 0)) by {
        assert forall|j: int| 0 <= j < cols.len() && j != 0 implies (#[trigger] cols[j]).name != "LockObject"@ by {
            if j == 1 {
                assert(cols[1].name == "Table"@);
                assert("Table"@.len() != "LockObject"@.len());
            } else if j == 2 {
                assert(cols[2].name == "Domain"@);
                assert("Domain"@.len() != "LockObject"@.len());
            } else if j == 3 {
                assert(cols[3].name == "User"@);
                assert("User"@.len() != "LockObject"@.len());
            } else if j == 4 {
                assert(cols[4].name == "Permission"@);
                assert("Permission"@[0] != "LockObject"@[0]);
            }
        }
    }
    assert(column_at(cols, "Table"@, 1)) by {
        assert forall|j: int| 0 <= j < cols.len() && j != 1 implies (#[trigger] cols[j]).name != "Table"@ by {
            if j == 0 {
                assert(cols[0].name == "LockObject"@);
                assert("LockObject"@.len() != "Table"@.len());
            } else if j == 2 {
                assert(cols[2].name == "Domain"@);
                assert("Domain"@.len() != "Table"@.len());
            } else if j == 3 {
                assert(cols[3].name == "User"@);
                assert("User"@.len() != "Table"@.len());
            } else if j == 4 {
                assert(cols[4].name == "Permission"@);
                assert("Permission"@.len() != "Table"@.len());
            }
        }
    }
    assert(column_at(cols, "Domain"@, 2)) by {
        assert forall|j: int| 0 <= j < cols.len() && j != 2 implies (#[trigger] cols[j]).name != "Domain"@ by {
            if j == 0 {
                assert(cols[0].name == "LockObject"@);
                assert("LockObject"@.len() != "Domain"@.len());
            } else if j == 1 {
                assert(cols[1].name == "Table"@);
                assert("Table"@.len() != "Domain"@.len());
            } else if j == 3 {
                assert(cols[3].name == "User"@);
                assert("User"@.len() != "Domain"@.len());
            } else if j == 4 {
                assert(cols[4].name == "Permission"@);
                assert("Permission"@.len() != "Domain"@.len());
            }
        }
    }
    assert(column_at(cols, "User"@, 3)) by {
        assert forall|j: int| 0 <= j < cols.len() && j != 3 implies (#[trigger] cols[j]).name != "User"@ by {
            if j == 0 {
                assert(cols[0].name == "LockObject"@);
                assert("LockObject"@.len() != "User"@.len());
            } else if j == 1 {
                assert(cols[1].name == "Table"@);
                assert("Table"@.len() != "User"@.len());
            } else if j == 2 {
                assert(cols[2].name == "Domain"@);
                assert("Domain"@.len() != "User"@.len());
            } else if j == 4 {
                assert(cols[4].name == "Permission"@);
                assert("Permission"@.len() != "User"@.len());
            }
        }
    }
    assert(column_at(cols, "Permission"@, 4)) by {
        assert forall|j: int| 0 <= j < cols.len() && j != 4 implies (#[trigger] cols[j]).name != "Permission"@ by {
            if j == 0 {
                assert(cols[0].name == "LockObject"@);
                assert("LockObject"@[0] != "Permission"@[0]);
            } else if j == 1 {
                assert(cols[1].name == "Table"@);
                assert("Table"@.len() != "Permission"@.len());
            } else if j == 2 {
                assert(cols[2].name == "Domain"@);
                assert("Domain"@.len() != "Permission"@.len());
            } else if j == 3 {
                assert(cols[3].name == "User"@);
                assert("User"@.len() != "Permission"@.len());
            }
        }
    }
}

} // verus!
