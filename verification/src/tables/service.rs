//! The ServiceInstall and ServiceControl tables: services that the package installs and operates.

use vstd::prelude::*;
use vstd::string::*;
use crate::identifier::{Identifier, opt_id_value, opt_id_view, ServiceControlIdentifier, ServiceInstallIdentifier, ComponentIdentifier};
use crate::tables::column::{Category, ColumnKind, ColumnSpec, ColumnView, col, column, columns_view, cell_under, column_at};
use crate::tables::dao::{DaoContainer, IsDao, MsiBuilderListEntry, PackageWriter, ToUniqueMsiIdentifier};
use crate::value::{Value, ValueView, row_view, opt_str_value, opt_str_view, i16_value, opt_i16_value, opt_i32_value, opt_int_view};
use crate::constants::{DEFAULT_IDENTIFIER_MAX_LEN};
use crate::types::Formatted;

verus! {

/// The operations to perform on a service, as bit flags. When a service
/// stops, the services that depend on it stop too; when a running service is
/// deleted, the installer stops it first.
#[derive(Clone, Copy, Debug, PartialEq, Eq, Structural)]
pub struct Event {
    pub bits: i16,
}

impl Event {
    /// No operation.
    pub fn empty() -> (r: Event)
        ensures
            r.bits == 0,
    {
        Event { bits: 0 }
    }

    /// Start the service during StartServices when installing.
    pub fn install_start() -> (r: Event)
        ensures
            r.bits == 1,
    {
        Event { bits: 1 }
    }

    /// Stop the service during StopServices when installing.
    pub fn install_stop() -> (r: Event)
        ensures
            r.bits == 4,
    {
        Event { bits: 4 }
    }

    /// Delete the service during DeleteServices when installing.
    pub fn install_delete() -> (r: Event)
        ensures
            r.bits == 16,
    {
        Event { bits: 16 }
    }

    /// Start the service during StartServices when uninstalling.
    pub fn uninstall_start() -> (r: Event)
        ensures
            r.bits == 32,
    {
        Event { bits: 32 }
    }

    /// Stop the service during StopServices when uninstalling.
    pub fn uninstall_stop() -> (r: Event)
        ensures
            r.bits == 64,
    {
        Event { bits: 64 }
    }

    /// Delete the service during DeleteServices when uninstalling.
    pub fn uninstall_delete() -> (r: Event)
        ensures
            r.bits == 256,
    {
        Event { bits: 256 }
    }

    /// The operations of either.
    pub fn union(self, other: Event) -> (r: Event)
        ensures
            r.bits == self.bits | other.bits,
    {
        Event { bits: self.bits | other.bits }
    }

    /// The operations of both.
    pub fn intersection(self, other: Event) -> (r: Event)
        ensures
            r.bits == self.bits & other.bits,
    {
        Event { bits: self.bits & other.bits }
    }

    /// The flags as a number.
    pub fn bits(&self) -> (r: i16)
        ensures
            r == self.bits,
    {
        self.bits
    }
}

/// The kind of service.
#[derive(Clone, Copy, Debug, PartialEq, Eq, Structural)]
pub enum ServiceType {
    /// A service that runs in a process of its own.
    OwnProcess,
    /// A service that shares a process with others.
    ShareProcess,
}

impl ServiceType {
    /// The number that the column holds.
    pub open spec fn spec_value(self) -> i16 {
        match self {
        ServiceType::OwnProcess => 16,
        ServiceType::ShareProcess => 32,
        }
    }

    /// The number that the column holds.
    pub fn value(&self) -> (r: i16)
        ensures
            r == self.spec_value(),
    {
        match self {
            ServiceType::OwnProcess => 16,
            ServiceType::ShareProcess => 32,
        }
    }
}

/// When the service starts.
#[derive(Clone, Copy, Debug, PartialEq, Eq, Structural)]
pub enum StartType {
    /// When the system starts.
    AutoStart,
    /// When something asks for it.
    DemandStart,
    /// Never.
    Disabled,
}

impl StartType {
    /// The number that the column holds.
    pub open spec fn spec_value(self) -> i16 {
        match self {
        StartType::AutoStart => 2,
        StartType::DemandStart => 3,
        StartType::Disabled => 4,
        }
    }

    /// The number that the column holds.
    pub fn value(&self) -> (r: i16)
        ensures
            r == self.spec_value(),
    {
        match self {
            StartType::AutoStart => 2,
            StartType::DemandStart => 3,
            StartType::Disabled => 4,
        }
    }
}

/// What happens when the service fails to start at system start.
#[derive(Clone, Copy, Debug, PartialEq, Eq, Structural)]
pub enum ErrorControl {
    /// The error is logged and startup goes on.
    Ignore,
    /// The error is logged, shown, and startup goes on.
    Normal,
    /// The error is logged and the system restarts with the last good configuration.
    Critical,
}

impl ErrorControl {
    /// The number that the column holds.
    pub open spec fn spec_value(self) -> i16 {
        match self {
        ErrorControl::Ignore => 0,
        ErrorControl::Normal => 1,
        ErrorControl::Critical => 3,
        }
    }

    /// The number that the column holds.
    pub fn value(&self) -> (r: i16)
        ensures
            r == self.spec_value(),
    {
        match self {
            ErrorControl::Ignore => 0,
            ErrorControl::Normal => 1,
            ErrorControl::Critical => 3,
        }
    }
}

/// One operation on a service: what to do to it and when.
pub struct ServiceControlDao {
    pub service_control: ServiceControlIdentifier,
    pub name: Formatted,
    pub event: Event,
    pub arguments: Option<Formatted>,
    pub wait: Option<i16>,
    pub component_: ComponentIdentifier,
}

impl ServiceControlDao {
    /// The operations `event` on the service named `name`, tied to the
    /// component `component_id`. The installer waits for them to finish
    /// when `wait` holds (the Wait column then holds 1; otherwise it is
    /// empty).
    pub fn new(
        identifier: ServiceControlIdentifier,
        name: Formatted,
        event: Event,
        wait: bool,
        component_id: ComponentIdentifier,
    ) -> (r: ServiceControlDao)
        ensures
            r.service_control == identifier,
            r.name == name,
            r.event == event,
            r.arguments is None,
            r.wait == (if wait { Some(1i16) } else { None }),
            r.component_ == component_id,
    {
        ServiceControlDao {
            service_control: identifier,
            name,
            event,
            arguments: None,
            wait: if wait { Some(1) } else { None },
            component_: component_id,
        }
    }
}

impl IsDao for ServiceControlDao {
    open spec fn row_spec(&self) -> Seq<ValueView> {
        seq![
            ValueView::Str(self.service_control@),
            ValueView::Str(self.name@),
            ValueView::Int(self.event.bits as int),
            opt_str_view(&self.arguments),
            opt_int_view(match self.wait { Some(v) => Some(v as int), None => None }),
            ValueView::Str(self.component_@),
        ]
    }

    fn to_row(&self) -> (r: Vec<Value>) {
        let r = vec![
            self.service_control.to_value(),
            Value::Str(self.name.clone()),
            Value::Int(self.event.bits() as i32),
            opt_str_value(&self.arguments),
            opt_i16_value(self.wait),
            self.component_.to_value(),
        ];
        assert(row_view(r@) =~= self.row_spec());
        r
    }
}

impl MsiBuilderListEntry for ServiceControlDao {
    /// Two service operations conflict when they have the same key.
    open spec fn conflicts_spec(&self, other: &Self) -> bool {
        self.service_control@ == other.service_control@
    }

    fn conflicts(&self, other: &Self) -> (r: bool) {
        self.service_control.same(&other.service_control)
    }
}

impl ToUniqueMsiIdentifier for ServiceControlDao {
    open spec fn unique_id_spec(&self) -> Option<Seq<char>> {
        Some(self.service_control@)
    }

    fn to_unique_msi_identifier(&self) -> (r: Option<Identifier>) {
        Some(self.service_control.clone())
    }
}

/// The ServiceControl table.
pub struct ServiceControlTable {
    entries: Vec<ServiceControlDao>,
}

impl ServiceControlTable {
    /// An empty table.
    pub fn new() -> (r: ServiceControlTable)
        ensures
            r.entries_spec() == Seq::<ServiceControlDao>::empty(),
    {
        ServiceControlTable { entries: Vec::new() }
    }
}

impl DaoContainer for ServiceControlTable {
    type Dao = ServiceControlDao;

    closed spec fn entries_spec(&self) -> Seq<ServiceControlDao> {
        self.entries@
    }

    fn entries(&self) -> (r: &Vec<ServiceControlDao>) {
        &self.entries
    }

    fn push_entry(&mut self, entry: ServiceControlDao) {
        self.entries.push(entry);
    }
}

impl PackageWriter for ServiceControlTable {
    open spec fn name_spec() -> Seq<char> {
        "ServiceControl"@
    }

    open spec fn columns_spec() -> Seq<ColumnView> {
        seq![
            col("ServiceControl"@, ColumnKind::Str(Category::Identifier, DEFAULT_IDENTIFIER_MAX_LEN), true, false, false),
            col("Name"@, ColumnKind::Str(Category::Text, 255), false, false, false),
            col("Event"@, ColumnKind::Int16, false, false, false),
            col("Arguments"@, ColumnKind::Str(Category::Formatted, 255), false, true, false),
            col("Wait"@, ColumnKind::Int16, false, true, false),
            col("Component_"@, ColumnKind::Str(Category::Identifier, DEFAULT_IDENTIFIER_MAX_LEN), false, false, false),
        ]
    }

    fn name(&self) -> (r: &'static str) {
        "ServiceControl"
    }

    fn columns(&self) -> (r: Vec<ColumnSpec>) {
        let r = vec![
            column("ServiceControl", ColumnKind::Str(Category::Identifier, DEFAULT_IDENTIFIER_MAX_LEN), true, false, false),
            column("Name", ColumnKind::Str(Category::Text, 255), false, false, false),
            column("Event", ColumnKind::Int16, false, false, false),
            column("Arguments", ColumnKind::Str(Category::Formatted, 255), false, true, false),
            column("Wait", ColumnKind::Int16, false, true, false),
            column("Component_", ColumnKind::Str(Category::Identifier, DEFAULT_IDENTIFIER_MAX_LEN), false, false, false),
        ];
        assert(columns_view(r@) =~= Self::columns_spec());
        r
    }

    proof fn lemma_row_arity(entry: &ServiceControlDao) {
    }
}

/// One service that the package installs.
pub struct ServiceInstallDao {
    pub identifier: ServiceInstallIdentifier,
    pub name: Formatted,
    pub display_name: Option<Formatted>,
    pub service_type: ServiceType,
    pub start_type: StartType,
    pub error_control: ErrorControl,
    pub load_order_group: Option<Formatted>,
    pub dependencies: Option<Formatted>,
    pub start_name: Option<Formatted>,
    pub password: Option<Formatted>,
    pub arguments: Option<Formatted>,
    pub component_: ComponentIdentifier,
    pub description: Option<Formatted>,
}

impl ServiceInstallDao {
    /// The service named `name`, installed with the component
    /// `component_id`; every optional column is left empty.
    pub fn new(
        identifier: ServiceInstallIdentifier,
        name: Formatted,
        service_type: ServiceType,
        start_type: StartType,
        error_control: ErrorControl,
        component_id: ComponentIdentifier,
    ) -> (r: ServiceInstallDao)
        ensures
            r.identifier == identifier,
            r.name == name,
            r.service_type == service_type,
            r.start_type == start_type,
            r.error_control == error_control,
            r.component_ == component_id,
            r.display_name is None,
            r.load_order_group is None,
            r.dependencies is None,
            r.start_name is None,
            r.password is None,
            r.arguments is None,
            r.description is None,
    {
        ServiceInstallDao {
            identifier,
            name,
            display_name: None,
            service_type,
            start_type,
            error_control,
            load_order_group: None,
            dependencies: None,
            start_name: None,
            password: None,
            arguments: None,
            component_: component_id,
            description: None,
        }
    }
}

impl IsDao for ServiceInstallDao {
    open spec fn row_spec(&self) -> Seq<ValueView> {
        seq![
            ValueView::Str(self.identifier@),
            ValueView::Str(self.name@),
            opt_str_view(&self.display_name),
            ValueView::Int(self.service_type.spec_value() as int),
            ValueView::Int(self.start_type.spec_value() as int),
            ValueView::Int(self.error_control.spec_value() as int),
            opt_str_view(&self.load_order_group),
            opt_str_view(&self.dependencies),
            opt_str_view(&self.start_name),
            opt_str_view(&self.password),
            opt_str_view(&self.arguments),
            ValueView::Str(self.component_@),
            opt_str_view(&self.description),
        ]
    }

    fn to_row(&self) -> (r: Vec<Value>) {
        let r = vec![
            self.identifier.to_value(),
            Value::Str(self.name.clone()),
            opt_str_value(&self.display_name),
            i16_value(self.service_type.value()),
            i16_value(self.start_type.value()),
            i16_value(self.error_control.value()),
            opt_str_value(&self.load_order_group),
            opt_str_value(&self.dependencies),
            opt_str_value(&self.start_name),
            opt_str_value(&self.password),
            opt_str_value(&self.arguments),
            self.component_.to_value(),
            opt_str_value(&self.description),
        ];
        assert(row_view(r@) =~= self.row_spec());
        r
    }
}

impl MsiBuilderListEntry for ServiceInstallDao {
    /// Two services conflict when they have the same key.
    open spec fn conflicts_spec(&self, other: &Self) -> bool {
        self.identifier@ == other.identifier@
    }

    fn conflicts(&self, other: &Self) -> (r: bool) {
        self.identifier.same(&other.identifier)
    }
}

impl ToUniqueMsiIdentifier for ServiceInstallDao {
    open spec fn unique_id_spec(&self) -> Option<Seq<char>> {
        Some(self.identifier@)
    }

    fn to_unique_msi_identifier(&self) -> (r: Option<Identifier>) {
        Some(self.identifier.clone())
    }
}

/// The ServiceInstall table.
pub struct ServiceInstallTable {
    entries: Vec<ServiceInstallDao>,
}

impl ServiceInstallTable {
    /// An empty table.
    pub fn new() -> (r: ServiceInstallTable)
        ensures
            r.entries_spec() == Seq::<ServiceInstallDao>::empty(),
    {
        ServiceInstallTable { entries: Vec::new() }
    }

    /// The service keyed `id`.
    pub fn entry_with_id(&self, id: &Identifier) -> (r: Option<&ServiceInstallDao>)
        ensures
            match r {
                Some(x) => exists|i: int|
                    0 <= i < self.entries_spec().len() && self.entries_spec()[i] == *x && x.identifier@ == id@
                        && forall|k: int| 0 <= k < i ==> (#[trigger] self.entries_spec()[k]).identifier@ != id@,
                None => forall|i: int| 0 <= i < self.entries_spec().len()
                    ==> (#[trigger] self.entries_spec()[i]).identifier@ != id@,
            },
    {
        let mut i: usize = 0;
        while i < self.entries.len()
            invariant
                i <= self.entries@.len(),
                forall|k: int| 0 <= k < i ==> (#[trigger] self.entries@[k]).identifier@ != id@,
            decreases self.entries@.len() - i,
        {
            if self.entries[i].identifier.same(id) {
                return Some(&self.entries[i]);
            }
            i = i + 1;
        }
        None
    }
}

impl DaoContainer for ServiceInstallTable {
    type Dao = ServiceInstallDao;

    closed spec fn entries_spec(&self) -> Seq<ServiceInstallDao> {
        self.entries@
    }

    fn entries(&self) -> (r: &Vec<ServiceInstallDao>) {
        &self.entries
    }

    fn push_entry(&mut self, entry: ServiceInstallDao) {
        self.entries.push(entry);
    }
}

impl PackageWriter for ServiceInstallTable {
    open spec fn name_spec() -> Seq<char> {
        "ServiceInstall"@
    }

    open spec fn columns_spec() -> Seq<ColumnView> {
        seq![
            col("ServiceInstall"@, ColumnKind::Str(Category::Identifier, DEFAULT_IDENTIFIER_MAX_LEN), true, false, false),
            col("Name"@, ColumnKind::Str(Category::Formatted, 255), false, false, false),
            col("DisplayName"@, ColumnKind::Str(Category::Formatted, 255), false, true, false),
            col("ServiceType"@, ColumnKind::Int32, false, false, false),
            col("StartType"@, ColumnKind::Int32, false, false, false),
            col("ErrorControl"@, ColumnKind::Int32, false, false, false),
            col("LoadOrderGroup"@, ColumnKind::Str(Category::Formatted, 255), false, true, false),
            col("Dependencies"@, ColumnKind::Str(Category::Formatted, 255), false, true, false),
            col("StartName"@, ColumnKind::Str(Category::Formatted, 255), false, true, false),
            col("Password"@, ColumnKind::Str(Category::Formatted, 255), false, true, false),
            col("Arguments"@, ColumnKind::Str(Category::Formatted, 255), false, true, false),
            col("Component_"@, ColumnKind::Str(Category::Identifier, DEFAULT_IDENTIFIER_MAX_LEN), false, false, false),
            col("Description"@, ColumnKind::Str(Category::Formatted, 255), false, true, false),
        ]
    }

    fn name(&self) -> (r: &'static str) {
        "ServiceInstall"
    }

    fn columns(&self) -> (r: Vec<ColumnSpec>) {
        let r = vec![
            column("ServiceInstall", ColumnKind::Str(Category::Identifier, DEFAULT_IDENTIFIER_MAX_LEN), true, false, false),
            column("Name", ColumnKind::Str(Category::Formatted, 255), false, false, false),
            column("DisplayName", ColumnKind::Str(Category::Formatted, 255), false, true, false),
            column("ServiceType", ColumnKind::Int32, false, false, false),
            column("StartType", ColumnKind::Int32, false, false, false),
            column("ErrorControl", ColumnKind::Int32, false, false, false),
            column("LoadOrderGroup", ColumnKind::Str(Category::Formatted, 255), false, true, false),
            column("Dependencies", ColumnKind::Str(Category::Formatted, 255), false, true, false),
            column("StartName", ColumnKind::Str(Category::Formatted, 255), false, true, false),
            column("Password", ColumnKind::Str(Category::Formatted, 255), false, true, false),
            column("Arguments", ColumnKind::Str(Category::Formatted, 255), false, true, false),
            column("Component_", ColumnKind::Str(Category::Identifier, DEFAULT_IDENTIFIER_MAX_LEN), false, false, false),
            column("Description", ColumnKind::Str(Category::Formatted, 255), false, true, false),
        ];
        assert(columns_view(r@) =~= Self::columns_spec());
        r
    }

    proof fn lemma_row_arity(entry: &ServiceInstallDao) {
    }
}

/// The row of a ServiceControl entry has one cell per column, and each cell
/// lies under the column of the field it holds: `ServiceControl` holds
/// `service_control`, `Name` holds `name`, `Event` holds `event`, `Arguments`
/// holds `arguments`, `Wait` holds `wait`, `Component_` holds `component_`.
pub proof fn lemma_service_control_dao_row_columns(d: ServiceControlDao)
    ensures
        cell_under(d.row_spec(), ServiceControlTable::columns_spec(), "ServiceControl"@, ValueView::Str(d.service_control@)),
        cell_under(d.row_spec(), ServiceControlTable::columns_spec(), "Name"@, ValueView::Str(d.name@)),
        cell_under(d.row_spec(), ServiceControlTable::columns_spec(), "Event"@, ValueView::Int(d.event.bits as int)),
        cell_under(d.row_spec(), ServiceControlTable::columns_spec(), "Arguments"@, opt_str_view(&d.arguments)),
        cell_under(d.row_spec(), ServiceControlTable::columns_spec(), "Wait"@, opt_int_view(match d.wait { Some(v) => Some(v as int), None => None })),
        cell_under(d.row_spec(), ServiceControlTable::columns_spec(), "Component_"@, ValueView::Str(d.component_@)),
{
    let cols = ServiceControlTable::columns_spec();
    reveal_strlit("ServiceControl");
    reveal_strlit("Name");
    reveal_strlit("Event");
    reveal_strlit("Arguments");
    reveal_strlit("Wait");
    reveal_strlit("Component_");
    assert(column_at(cols, "ServiceControl"@, 0)) by {
        assert forall|j: int| 0 <= j < cols.len() && j != 0 implies (#[trigger] cols[j]).name != "ServiceControl"@ by {
            if j == 1 {
                assert(cols[1].name == "Name"@);
                assert("Name"@.len() != "ServiceControl"@.len());
            } else if j == 2 {
                assert(cols[2].name == "Event"@);
                assert("Event"@.len() != "ServiceControl"@.len());
            } else if j == 3 {
                assert(cols[3].name == "Arguments"@);
                assert("Arguments"@.len() != "ServiceControl"@.len());
            } else if j == 4 {
                assert(cols[4].name == "Wait"@);
                assert("Wait"@.len() != "ServiceControl"@.len());
            } else if j == 5 {
                assert(cols[5].name == "Component_"@);
                assert("Component_"@.len() != "ServiceControl"@.len());
            }
        }
    }
    assert(column_at(cols, "Name"@, 1)) by {
        assert forall|j: int| 0 <= j < cols.len() && j != 1 implies (#[trigger] cols[j]).name != "Name"@ by {
            if j == 0 {
                assert(cols[0].name == "ServiceControl"@);
                assert("ServiceControl"@.len() != "Name"@.len());
            } else if j == 2 {
                assert(cols[2].name == "Event"@);
                assert("Event"@.len() != "Name"@.len());
            } else if j == 3 {
                assert(cols[3].name == "Arguments"@);
                assert("Arguments"@.len() != "Name"@.len());
            } else if j == 4 {
                assert(cols[4].name == "Wait"@);
                assert("Wait"@[0] != "Name"@[0]);
            } else if j == 5 {
                assert(cols[5].name == "Component_"@);
                assert("Component_"@.len() != "Name"@.len());
            }
        }
    }
    assert(column_at(cols, "Event"@, 2)) by {
        assert forall|j: int| 0 <= j < cols.len() && j != 2 implies (#[trigger] cols[j]).name != "Event"@ by {
            if j == 0 {
                assert(cols[0].name == "ServiceControl"@);
                assert("ServiceControl"@.len() != "Event"@.len());
            } else if j == 1 {
                assert(cols[1].name == "Name"@);
                assert("Name"@.len() != "Event"@.len());
            } else if j == 3 {
                assert(cols[3].name == "Arguments"@);
                assert("Arguments"@.len() != "Event"@.len());
            } else if j == 4 {
                assert(cols[4].name == "Wait"@);
                assert("Wait"@.len() != "Event"@.len());
            } else if j == 5 {
                assert(cols[5].name == "Component_"@);
                assert("Component_"@.len() != "Event"@.len());
            }
        }
    }
    assert(column_at(cols, "Arguments"@, 3)) by {
        assert forall|j: int| 0 <= j < cols.len() && j != 3 implies (#[trigger] cols[j]).name != "Arguments"@ by {
            if j == 0 {
                assert(cols[0].name == "ServiceControl"@);
                assert("ServiceControl"@.len() != "Arguments"@.len());
            } else if j == 1 {
                assert(cols[1].name == "Name"@);
                assert("Name"@.len() != "Arguments"@.len());
            } else if j == 2 {
                assert(cols[2].name == "Event"@);
                assert("Event"@.len() != "Arguments"@.len());
            } else if j == 4 {
                assert(cols[4].name == "Wait"@);
                assert("Wait"@.len() != "Arguments"@.len());
            } else if j == 5 {
                assert(cols[5].name == "Component_"@);
                assert("Component_"@.len() != "Arguments"@.len());
            }
        }
    }
    assert(column_at(cols, "Wait"@, 4)) by {
        assert forall|j: int| 0 <= j < cols.len() && j != 4 implies (#[trigger] cols[j]).name != "Wait"@ by {
            if j == 0 {
                assert(cols[0].name == "ServiceControl"@);
                assert("ServiceControl"@.len() != "Wait"@.len());
            } else if j == 1 {
                assert(cols[1].name == "Name"@);
                assert("Name"@[0] != "Wait"@[0]);
            } else if j == 2 {
                assert(cols[2].name == "Event"@);
                assert("Event"@.len() != "Wait"@.len());
            } else if j == 3 {
                assert(cols[3].name == "Arguments"@);
                assert("Arguments"@.len() != "Wait"@.len());
            } else if j == 5 {
                assert(cols[5].name == "Component_"@);
                assert("Component_"@.len() != "Wait"@.len());
            }
        }
    }
    assert(column_at(cols, "Component_"@, 5)) by {
        assert forall|j: int| 0 <= j < cols.len() && j != 5 implies (#[trigger] cols[j]).name != "Component_"@ by {
            if j == 0 {
                assert(cols[0].name == "ServiceControl"@);
                assert("ServiceControl"@.len() != "Component_"@.len());
            } else if j == 1 {
                assert(cols[1].name == "Name"@);
                assert("Name"@.len() != "Component_"@.len());
            } else if j == 2 {
                assert(cols[2].name == "Event"@);
                assert("Event"@.len() != "Component_"@.len());
            } else if j == 3 {
                assert(cols[3].name == "Arguments"@);
                assert("Arguments"@.len() != "Component_"@.len());
            } else if j == 4 {
                assert(cols[4].name == "Wait"@);
                assert("Wait"@.len() != "Component_"@.len());
            }
        }
    }
}

/// The row of a ServiceInstall entry has one cell per column, and each cell
/// lies under the column of the field it holds: `ServiceInstall` holds
/// `identifier`, `Name` holds `name`, `DisplayName` holds `display_name`,
/// `ServiceType` holds `service_type`, `StartType` holds `start_type`,
/// `ErrorControl` holds `error_control`, `LoadOrderGroup` holds
/// `load_order_group`, `Dependencies` holds `dependencies`, `StartName` holds
/// `start_name`, `Password` holds `password`, `Arguments` holds `arguments`,
/// `Component_` holds `component_`, `Description` holds `description`.
pub proof fn lemma_service_install_dao_row_columns(d: ServiceInstallDao)
    ensures
        cell_under(d.row_spec(), ServiceInstallTable::columns_spec(), "ServiceInstall"@, ValueView::Str(d.identifier@)),
        cell_under(d.row_spec(), ServiceInstallTable::columns_spec(), "Name"@, ValueView::Str(d.name@)),
        cell_under(d.row_spec(), ServiceInstallTable::columns_spec(), "DisplayName"@, opt_str_view(&d.display_name)),
        cell_under(d.row_spec(), ServiceInstallTable::columns_spec(), "ServiceType"@, ValueView::Int(d.service_type.spec_value() as int)),
        cell_under(d.row_spec(), ServiceInstallTable::columns_spec(), "StartType"@, ValueView::Int(d.start_type.spec_value() as int)),
        cell_under(d.row_spec(), ServiceInstallTable::columns_spec(), "ErrorControl"@, ValueView::Int(d.error_control.spec_value() as int)),
        cell_under(d.row_spec(), ServiceInstallTable::columns_spec(), "LoadOrderGroup"@, opt_str_view(&d.load_order_group)),
        cell_under(d.row_spec(), ServiceInstallTable::columns_spec(), "Dependencies"@, opt_str_view(&d.dependencies)),
        cell_under(d.row_spec(), ServiceInstallTable::columns_spec(), "StartName"@, opt_str_view(&d.start_name)),
        cell_under(d.row_spec(), ServiceInstallTable::columns_spec(), "Password"@, opt_str_view(&d.password)),
        cell_under(d.row_spec(), ServiceInstallTable::columns_spec(), "Arguments"@, opt_str_view(&d.arguments)),
        cell_under(d.row_spec(), ServiceInstallTable::columns_spec(), "Component_"@, ValueView::Str(d.component_@)),
        cell_under(d.row_spec(), ServiceInstallTable::columns_spec(), "Description"@, opt_str_view(&d.description)),
{
    let cols = ServiceInstallTable::columns_spec();
    reveal_strlit("ServiceInstall");
    reveal_strlit("Name");
    reveal_strlit("DisplayName");
    reveal_strlit("ServiceType");
    reveal_strlit("StartType");
    reveal_strlit("ErrorControl");
    reveal_strlit("LoadOrderGroup");
    reveal_strlit("Dependencies");
    reveal_strlit("StartName");
    reveal_strlit("Password");
    reveal_strlit("Arguments");
    reveal_strlit("Component_");
    reveal_strlit("Description");
    assert(column_at(cols, "ServiceInstall"@, 0)) by {
        assert forall|j: int| 0 <= j < cols.len() && j != 0 implies (#[trigger] cols[j]).name != "ServiceInstall"@ by {
            if j == 1 {
                assert(cols[1].name == "Name"@);
                assert("Name"@.len() != "ServiceInstall"@.len());
            } else if j == 2 {
                assert(cols[2].name == "DisplayName"@);
                assert("DisplayName"@.len() != "ServiceInstall"@.len());
            } else if j == 3 {
                assert(cols[3].name == "ServiceType"@);
                assert("ServiceType"@.len() != "ServiceInstall"@.len());
            } else if j == 4 {
                assert(cols[4].name == "StartType"@);
                assert("StartType"@.len() != "ServiceInstall"@.len());
            } else if j == 5 {
                assert(cols[5].name == "ErrorControl"@);
                assert("ErrorControl"@.len() != "ServiceInstall"@.len());
            } else if j == 6 {
                assert(cols[6].name == "LoadOrderGroup"@);
                assert("LoadOrderGroup"@[0] != "ServiceInstall"@[0]);
            } else if j == 7 {
                assert(cols[7].name == "Dependencies"@);
                assert("Dependencies"@.len() != "ServiceInstall"@.len());
            } else if j == 8 {
                assert(cols[8].name == "StartName"@);
                assert("StartName"@.len() != "ServiceInstall"@.len());
            } else if j == 9 {
                assert(cols[9].name == "Password"@);
                assert("Password"@.len() != "ServiceInstall"@.len());
            } else if j == 10 {
                assert(cols[10].name == "Arguments"@);
                assert("Arguments"@.len() != "ServiceInstall"@.len());
            } else if j == 11 {
                assert(cols[11].name == "Component_"@);
                assert("Component_"@.len() != "ServiceInstall"@.len());
            } else if j == 12 {
                assert(cols[12].name == "Description"@);
                assert("Description"@.len() != "ServiceInstall"@.len());
            }
        }
    }
    assert(column_at(cols, "Name"@, 1)) by {
        assert forall|j: int| 0 <= j < cols.len() && j != 1 implies (#[trigger] cols[j]).name != "Name"@ by {
            if j == 0 {
                assert(cols[0].name == "ServiceInstall"@);
                assert("ServiceInstall"@.len() != "Name"@.len());
            } else if j == 2 {
                assert(cols[2].name == "DisplayName"@);
                assert("DisplayName"@.len() != "Name"@.len());
            } else if j == 3 {
                assert(cols[3].name == "ServiceType"@);
                assert("ServiceType"@.len() != "Name"@.len());
            } else if j == 4 {
                assert(cols[4].name == "StartType"@);
                assert("StartType"@.len() != "Name"@.len());
            } else if j == 5 {
                assert(cols[5].name == "ErrorControl"@);
                assert("ErrorControl"@.len() != "Name"@.len());
            } else if j == 6 {
                assert(cols[6].name == "LoadOrderGroup"@);
                assert("LoadOrderGroup"@.len() != "Name"@.len());
            } else if j == 7 {
                assert(cols[7].name == "Dependencies"@);
                assert("Dependencies"@.len() != "Name"@.len());
            } else if j == 8 {
                assert(cols[8].name == "StartName"@);
                assert("StartName"@.len() != "Name"@.len());
            } else if j == 9 {
                assert(cols[9].name == "Password"@);
                assert("Password"@.len() != "Name"@.len());
            } else if j == 10 {
                assert(cols[10].name == "Arguments"@);
                assert("Arguments"@.len() != "Name"@.len());
            } else if j == 11 {
                assert(cols[11].name == "Component_"@);
                assert("Component_"@.len() != "Name"@.len());
            } else if j == 12 {
                assert(cols[12].name == "Description"@);
                assert("Description"@.len() != "Name"@.len());
            }
        }
    }
    assert(column_at(cols, "DisplayName"@, 2)) by {
        assert forall|j: int| 0 <= j < cols.len() && j != 2 implies (#[trigger] cols[j]).name != "DisplayName"@ by {
            if j == 0 {
                assert(cols[0].name == "ServiceInstall"@);
                assert("ServiceInstall"@.len() != "DisplayName"@.len());
            } else if j == 1 {
                assert(cols[1].name == "Name"@);
                assert("Name"@.len() != "DisplayName"@.len());
            } else if j == 3 {
                assert(cols[3].name == "ServiceType"@);
                assert("ServiceType"@[0] != "DisplayName"@[0]);
            } else if j == 4 {
                assert(cols[4].name == "StartType"@);
                assert("StartType"@.len() != "DisplayName"@.len());
            } else if j == 5 {
                assert(cols[5].name == "ErrorControl"@);
                assert("ErrorControl"@.len() != "DisplayName"@.len());
            } else if j == 6 {
                assert(cols[6].name == "LoadOrderGroup"@);
                assert("LoadOrderGroup"@.len() != "DisplayName"@.len());
            } else if j == 7 {
                assert(cols[7].name == "Dependencies"@);
                assert("Dependencies"@.len() != "DisplayName"@.len());
            } else if j == 8 {
                assert(cols[8].name == "StartName"@);
                assert("StartName"@.len() != "DisplayName"@.len());
            } else if j == 9 {
                assert(cols[9].name == "Password"@);
                assert("Password"@.len() != "DisplayName"@.len());
            } else if j == 10 {
                assert(cols[10].name == "Arguments"@);
                assert("Arguments"@.len() != "DisplayName"@.len());
            } else if j == 11 {
                assert(cols[11].name == "Component_"@);
                assert("Component_"@.len() != "DisplayName"@.len());
            } else if j == 12 {
                assert(cols[12].name == "Description"@);
                assert("Description"@[1] != "DisplayName"@[1]);
            }
        }
    }
    assert(column_at(cols, "ServiceType"@, 3)) by {
        assert forall|j: int| 0 <= j < cols.len() && j != 3 implies (#[trigger] cols[j]).name != "ServiceType"@ by {
            if j == 0 {
                assert(cols[0].name == "ServiceInstall"@);
                assert("ServiceInstall"@.len() != "ServiceType"@.len());
            } else if j == 1 {
                assert(cols[1].name == "Name"@);
                assert("Name"@.len() != "ServiceType"@.len());
            } else if j == 2 {
                assert(cols[2].name == "DisplayName"@);
                assert("DisplayName"@[0] != "ServiceType"@[0]);
            } else if j == 4 {
                assert(cols[4].name == "StartType"@);
                assert("StartType"@.len() != "ServiceType"@.len());
            } else if j == 5 {
                assert(cols[5].name == "ErrorControl"@);
                assert("ErrorControl"@.len() != "ServiceType"@.len());
            } else if j == 6 {
                assert(cols[6].name == "LoadOrderGroup"@);
                assert("LoadOrderGroup"@.len() != "ServiceType"@.len());
            } else if j == 7 {
                assert(cols[7].name == "Dependencies"@);
                assert("Dependencies"@.len() != "ServiceType"@.len());
            } else if j == 8 {
                assert(cols[8].name == "StartName"@);
                assert("StartName"@.len() != "ServiceType"@.len());
            } else if j == 9 {
                assert(cols[9].name == "Password"@);
                assert("Password"@.len() != "ServiceType"@.len());
            } else if j == 10 {
                assert(cols[10].name == "Arguments"@);
                assert("Arguments"@.len() != "ServiceType"@.len());
            } else if j == 11 {
                assert(cols[11].name == "Component_"@);
                assert("Component_"@.len() != "ServiceType"@.len());
            } else if j == 12 {
                assert(cols[12].name == "Description"@);
                assert("Description"@[0] != "ServiceType"@[0]);
            }
        }
    }
    assert(column_at(cols, "StartType"@, 4)) by {
        assert forall|j: int| 0 <= j < cols.len() && j != 4 implies (#[trigger] cols[j]).name != "StartType"@ by {
            if j == 0 {
                assert(cols[0].name == "ServiceInstall"@);
                assert("ServiceInstall"@.len() != "StartType"@.len());
            } else if j == 1 {
                assert(cols[1].name == "Name"@);
                assert("Name"@.len() != "StartType"@.len());
            } else if j == 2 {
                assert(cols[2].name == "DisplayName"@);
                assert("DisplayName"@.len() != "StartType"@.len());
            } else if j == 3 {
                assert(cols[3].name == "ServiceType"@);
                assert("ServiceType"@.len() != "StartType"@.len());
            } else if j == 5 {
                assert(cols[5].name == "ErrorControl"@);
                assert("ErrorControl"@.len() != "StartType"@.len());
            } else if j == 6 {
                assert(cols[6].name == "LoadOrderGroup"@);
                assert("LoadOrderGroup"@.len() != "StartType"@.len());
            } else if j == 7 {
                assert(cols[7].name == "Dependencies"@);
                assert("Dependencies"@.len() != "StartType"@.len());
            } else if j == 8 {
                assert(cols[8].name == "StartName"@);
                assert("StartName"@[5] != "StartType"@[5]);
            } else if j == 9 {
                assert(cols[9].name == "Password"@);
                assert("Password"@.len() != "StartType"@.len());
            } else if j == 10 {
                assert(cols[10].name == "Arguments"@);
                assert("Arguments"@[0] != "StartType"@[0]);
            } else if j == 11 {
                assert(cols[11].name == "Component_"@);
                assert("Component_"@.len() != "StartType"@.len());
            } else if j == 12 {
                assert(cols[12].name == "Description"@);
                assert("Description"@.len() != "StartType"@.len());
            }
        }
    }
    assert(column_at(cols, "ErrorControl"@, 5)) by {
        assert forall|j: int| 0 <= j < cols.len() && j != 5 implies (#[trigger] cols[j]).name != "ErrorControl"@ by {
            if j == 0 {
                assert(cols[0].name == "ServiceInstall"@);
                assert("ServiceInstall"@.len() != "ErrorControl"@.len());
            } else if j == 1 {
                assert(cols[1].name == "Name"@);
                assert("Name"@.len() != "ErrorControl"@.len());
            } else if j == 2 {
                assert(cols[2].name == "DisplayName"@);
                assert("DisplayName"@.len() != "ErrorControl"@.len());
            } else if j == 3 {
                assert(cols[3].name == "ServiceType"@);
                assert("ServiceType"@.len() != "ErrorControl"@.len());
            } else if j == 4 {
                assert(cols[4].name == "StartType"@);
                assert("StartType"@.len() != "ErrorControl"@.len());
            } else if j == 6 {
                assert(cols[6].name == "LoadOrderGroup"@);
                assert("LoadOrderGroup"@.len() != "ErrorControl"@.len());
            } else if j == 7 {
                assert(cols[7].name == "Dependencies"@);
                assert("Dependencies"@[0] != "ErrorControl"@[0]);
            } else if j == 8 {
                assert(cols[8].name == "StartName"@);
                assert("StartName"@.len() != "ErrorControl"@.len());
            } else if j == 9 {
                assert(cols[9].name == "Password"@);
                assert("Password"@.len() != "ErrorControl"@.len());
            } else if j == 10 {
                assert(cols[10].name == "Arguments"@);
                assert("Arguments"@.len() != "ErrorControl"@.len());
            } else if j == 11 {
                assert(cols[11].name == "Component_"@);
                assert("Component_"@.len() != "ErrorControl"@.len());
            } else if j == 12 {
                assert(cols[12].name == "Description"@);
                assert("Description"@.len() != "ErrorControl"@.len());
            }
        }
    }
    assert(column_at(cols, "LoadOrderGroup"@, 6)) by {
        assert forall|j: int| 0 <= j < cols.len() && j != 6 implies (#[trigger] cols[j]).name != "LoadOrderGroup"@ by {
            if j == 0 {
                assert(cols[0].name == "ServiceInstall"@);
                assert("ServiceInstall"@[0] != "LoadOrderGroup"@[0]);
            } else if j == 1 {
                assert(cols[1].name == "Name"@);
                assert("Name"@.len() != "LoadOrderGroup"@.len());
            } else if j == 2 {
                assert(cols[2].name == "DisplayName"@);
                assert("DisplayName"@.len() != "LoadOrderGroup"@.len());
            } else if j == 3 {
                assert(cols[3].name == "ServiceType"@);
                assert("ServiceType"@.len() != "LoadOrderGroup"@.len());
            } else if j == 4 {
                assert(cols[4].name == "StartType"@);
                assert("StartType"@.len() != "LoadOrderGroup"@.len());
            } else if j == 5 {
                assert(cols[5].name == "ErrorControl"@);
                assert("ErrorControl"@.len() != "LoadOrderGroup"@.len());
            } else if j == 7 {
                assert(cols[7].name == "Dependencies"@);
                assert("Dependencies"@.len() != "LoadOrderGroup"@.len());
            } else if j == 8 {
                assert(cols[8].name == "StartName"@);
                assert("StartName"@.len() != "LoadOrderGroup"@.len());
            } else if j == 9 {
                assert(cols[9].name == "Password"@);
                assert("Password"@.len() != "LoadOrderGroup"@.len());
            } else if j == 10 {
                assert(cols[10].name == "Arguments"@);
                assert("Arguments"@.len() != "LoadOrderGroup"@.len());
            } else if j == 11 {
                assert(cols[11].name == "Component_"@);
                assert("Component_"@.len() != "LoadOrderGroup"@.len());
            } else if j == 12 {
                assert(cols[12].name == "Description"@);
                assert("Description"@.len() != "LoadOrderGroup"@.len());
            }
        }
    }
    assert(column_at(cols, "Dependencies"@, 7)) by {
        assert forall|j: int| 0 <= j < cols.len() && j != 7 implies (#[trigger] cols[j]).name != "Dependencies"@ by {
            if j == 0 {
                assert(cols[0].name == "ServiceInstall"@);
                assert("ServiceInstall"@.len() != "Dependencies"@.len());
            } else if j == 1 {
                assert(cols[1].name == "Name"@);
                assert("Name"@.len() != "Dependencies"@.len());
            } else if j == 2 {
                assert(cols[2].name == "DisplayName"@);
                assert("DisplayName"@.len() != "Dependencies"@.len());
            } else if j == 3 {
                assert(cols[3].name == "ServiceType"@);
                assert("ServiceType"@.len() != "Dependencies"@.len());
            } else if j == 4 {
                assert(cols[4].name == "StartType"@);
                assert("StartType"@.len() != "Dependencies"@.len());
            } else if j == 5 {
                assert(cols[5].name == "ErrorControl"@);
                assert("ErrorControl"@[0] != "Dependencies"@[0]);
            } else if j == 6 {
                assert(cols[6].name == "LoadOrderGroup"@);
                assert("LoadOrderGroup"@.len() != "Dependencies"@.len());
            } else if j == 8 {
                assert(cols[8].name == "StartName"@);
                assert("StartName"@.len() != "Dependencies"@.len());
            } else if j == 9 {
                assert(cols[9].name == "Password"@);
                assert("Password"@.len() != "Dependencies"@.len());
            } else if j == 10 {
                assert(cols[10].name == "Arguments"@);
                assert("Arguments"@.len() != "Dependencies"@.len());
            } else if j == 11 {
                assert(cols[11].name == "Component_"@);
                assert("Component_"@.len() != "Dependencies"@.len());
            } else if j == 12 {
                assert(cols[12].name == "Description"@);
                assert("Description"@.len() != "Dependencies"@.len());
            }
        }
    }
    assert(column_at(cols, "StartName"@, 8)) by {
        assert forall|j: int| 0 <= j < cols.len() && j != 8 implies (#[trigger] cols[j]).name != "StartName"@ by {
            if j == 0 {
                assert(cols[0].name == "ServiceInstall"@);
                assert("ServiceInstall"@.len() != "StartName"@.len());
            } else if j == 1 {
                assert(cols[1].name == "Name"@);
                assert("Name"@.len() != "StartName"@.len());
            } else if j == 2 {
                assert(cols[2].name == "DisplayName"@);
                assert("DisplayName"@.len() != "StartName"@.len());
            } else if j == 3 {
                assert(cols[3].name == "ServiceType"@);
                assert("ServiceType"@.len() != "StartName"@.len());
            } else if j == 4 {
                assert(cols[4].name == "StartType"@);
                assert("StartType"@[5] != "StartName"@[5]);
            } else if j == 5 {
                assert(cols[5].name == "ErrorControl"@);
                assert("ErrorControl"@.len() != "StartName"@.len());
            } else if j == 6 {
                assert(cols[6].name == "LoadOrderGroup"@);
                assert("LoadOrderGroup"@.len() != "StartName"@.len());
            } else if j == 7 {
                assert(cols[7].name == "Dependencies"@);
                assert("Dependencies"@.len() != "StartName"@.len());
            } else if j == 9 {
                assert(cols[9].name == "Password"@);
                assert("Password"@.len() != "StartName"@.len());
            } else if j == 10 {
                assert(cols[10].name == "Arguments"@);
                assert("Arguments"@[0] != "StartName"@[0]);
            } else if j == 11 {
                assert(cols[11].name == "Component_"@);
                assert("Component_"@.len() != "StartName"@.len());
            } else if j == 12 {
                assert(cols[12].name == "Description"@);
                assert("Description"@.len() != "StartName"@.len());
            }
        }
    }
    assert(column_at(cols, "Password"@, 9)) by {
        assert forall|j: int| 0 <= j < cols.len() && j != 9 implies (#[trigger] cols[j]).name != "Password"@ by {
            if j == 0 {
                assert(cols[0].name == "ServiceInstall"@);
                assert("ServiceInstall"@.len() != "Password"@.len());
            } else if j == 1 {
                assert(cols[1].name == "Name"@);
                assert("Name"@.len() != "Password"@.len());
            } else if j == 2 {
                assert(cols[2].name == "DisplayName"@);
                assert("DisplayName"@.len() != "Password"@.len());
            } else if j == 3 {
                assert(cols[3].name == "ServiceType"@);
                assert("ServiceType"@.len() != "Password"@.len());
            } else if j == 4 {
                assert(cols[4].name == "StartType"@);
                assert("StartType"@.len() != "Password"@.len());
            } else if j == 5 {
                assert(cols[5].name == "ErrorControl"@);
                assert("ErrorControl"@.len() != "Password"@.len());
            } else if j == 6 {
                assert(cols[6].name == "LoadOrderGroup"@);
                assert("LoadOrderGroup"@.len() != "Password"@.len());
            } else if j == 7 {
                assert(cols[7].name == "Dependencies"@);
                assert("Dependencies"@.len() != "Password"@.len());
            } else if j == 8 {
                assert(cols[8].name == "StartName"@);
                assert("StartName"@.len() != "Password"@.len());
            } else if j == 10 {
                assert(cols[10].name == "Arguments"@);
                assert("Arguments"@.len() != "Password"@.len());
            } else if j == 11 {
                assert(cols[11].name == "Component_"@);
                assert("Component_"@.len() != "Password"@.len());
            } else if j == 12 {
                assert(cols[12].name == "Description"@);
                assert("Description"@.len() != "Password"@.len());
            }
        }
    }
    assert(column_at(cols, "Arguments"@, 10)) by {
        assert forall|j: int| 0 <= j < cols.len() && j != 10 implies (#[trigger] cols[j]).name != "Arguments"@ by {
            if j == 0 {
                assert(cols[0].name == "ServiceInstall"@);
                assert("ServiceInstall"@.len() != "Arguments"@.len());
            } else if j == 1 {
                assert(cols[1].name == "Name"@);
                assert("Name"@.len() != "Arguments"@.len());
            } else if j == 2 {
                assert(cols[2].name == "DisplayName"@);
                assert("DisplayName"@.len() != "Arguments"@.len());
            } else if j == 3 {
                assert(cols[3].name == "ServiceType"@);
                assert("ServiceType"@.len() != "Arguments"@.len());
            } else if j == 4 {
                assert(cols[4].name == "StartType"@);
                assert("StartType"@[0] != "Arguments"@[0]);
            } else if j == 5 {
                assert(cols[5].name == "ErrorControl"@);
                assert("ErrorControl"@.len() != "Arguments"@.len());
            } else if j == 6 {
                assert(cols[6].name == "LoadOrderGroup"@);
                assert("LoadOrderGroup"@.len() != "Arguments"@.len());
            } else if j == 7 {
                assert(cols[7].name == "Dependencies"@);
                assert("Dependencies"@.len() != "Arguments"@.len());
            } else if j == 8 {
                assert(cols[8].name == "StartName"@);
                assert("StartName"@[0] != "Arguments"@[0]);
            } else if j == 9 {
                assert(cols[9].name == "Password"@);
                assert("Password"@.len() != "Arguments"@.len());
            } else if j == 11 {
                assert(cols[11].name == "Component_"@);
                assert("Component_"@.len() != "Arguments"@.len());
            } else if j == 12 {
                assert(cols[12].name == "Description"@);
                assert("Description"@.len() != "Arguments"@.len());
            }
        }
    }
    assert(column_at(cols, "Component_"@, 11)) by {
        assert forall|j: int| 0 <= j < cols.len() && j != 11 implies (#[trigger] cols[j]).name != "Component_"@ by {
            if j == 0 {
                assert(cols[0].name == "ServiceInstall"@);
                assert("ServiceInstall"@.len() != "Component_"@.len());
            } else if j == 1 {
                assert(cols[1].name == "Name"@);
                assert("Name"@.len() != "Component_"@.len());
            } else if j == 2 {
                assert(cols[2].name == "DisplayName"@);
                assert("DisplayName"@.len() != "Component_"@.len());
            } else if j == 3 {
                assert(cols[3].name == "ServiceType"@);
                assert("ServiceType"@.len() != "Component_"@.len());
            } else if j == 4 {
                assert(cols[4].name == "StartType"@);
                assert("StartType"@.len() != "Component_"@.len());
            } else if j == 5 {
                assert(cols[5].name == "ErrorControl"@);
                assert("ErrorControl"@.len() != "Component_"@.len());
            } else if j == 6 {
                assert(cols[6].name == "LoadOrderGroup"@);
                assert("LoadOrderGroup"@.len() != "Component_"@.len());
            } else if j == 7 {
                assert(cols[7].name == "Dependencies"@);
                assert("Dependencies"@.len() != "Component_"@.len());
            } else if j == 8 {
                assert(cols[8].name == "StartName"@);
                assert("StartName"@.len() != "Component_"@.len());
            } else if j == 9 {
                assert(cols[9].name == "Password"@);
                assert("Password"@.len() != "Component_"@.len());
            } else if j == 10 {
                assert(cols[10].name == "Arguments"@);
                assert("Arguments"@.len() != "Component_"@.len());
            } else if j == 12 {
                assert(cols[12].name == "Description"@);
                assert("Description"@.len() != "Component_"@.len());
            }
        }
    }
    assert(column_at(cols, "Description"@, 12)) by {
        assert forall|j: int| 0 <= j < cols.len() && j != 12 implies (#[trigger] cols[j]).name != "Description"@ by {
            if j == 0 {
                assert(cols[0].name == "ServiceInstall"@);
                assert("ServiceInstall"@.len() != "Description"@.len());
            } else if j == 1 {
                assert(cols[1].name == "Name"@);
                assert("Name"@.len() != "Description"@.len());
            } else if j == 2 {
                assert(cols[2].name == "DisplayName"@);
                assert("DisplayName"@[1] != "Description"@[1]);
            } else if j == 3 {
                assert(cols[3].name == "ServiceType"@);
                assert("ServiceType"@[0] != "Description"@[0]);
            } else if j == 4 {
                assert(cols[4].name == "StartType"@);
                assert("StartType"@.len() != "Description"@.len());
            } else if j == 5 {
                assert(cols[5].name == "ErrorControl"@);
                assert("ErrorControl"@.len() != "Description"@.len());
            } else if j == 6 {
                assert(cols[6].name == "LoadOrderGroup"@);
                assert("LoadOrderGroup"@.len() != "Description"@.len());
            } else if j == 7 {
                assert(cols[7].name == "Dependencies"@);
                assert("Dependencies"@.len() != "Description"@.len());
            } else if j == 8 {
                assert(cols[8].name == "StartName"@);
                assert("StartName"@.len() != "Description"@.len());
            } else if j == 9 {
                assert(cols[9].name == "Password"@);
                assert("Password"@.len() != "Description"@.len());
            } else if j == 10 {
                assert(cols[10].name == "Arguments"@);
                assert("Arguments"@.len() != "Description"@.len());
            } else if j == 11 {
                assert(cols[11].name == "Component_"@);
                assert("Component_"@.len() != "Description"@.len());
            }
        }
    }
}

} // verus!
