//! The sequence tables: which actions the installer takes, under which
//! conditions, and in which order.

use vstd::prelude::*;
use vstd::string::*;
use crate::identifier::Identifier;
use crate::tables::column::{Category, ColumnKind, ColumnSpec, ColumnView, col, column, columns_view, cell_under, column_at};
use crate::tables::dao::{DaoContainer, IsDao, MsiBuilderListEntry, PackageWriter, ToUniqueMsiIdentifier, conflict_free, add_all_result, any_conflict};
use crate::types::Condition;
use crate::value::{Value, ValueView, row_view, opt_str_value, opt_str_view, opt_i16_value, opt_int_view};
use crate::constants::{CONDITION_MAX_LEN, DEFAULT_IDENTIFIER_MAX_LEN};

verus! {

/// The standard actions of the installer that the builder schedules.
#[derive(Clone, Copy, Debug, PartialEq, Eq, Structural)]
pub enum StandardAction {
    CostInitialize,
    FileCost,
    CostFinalize,
    ExecuteAction,
    InstallValidate,
    InstallInitialize,
    StopServices,
    DeleteServices,
    RemoveShortcuts,
    RemoveFiles,
    RemoveFolders,
    CreateFolders,
    InstallAdminPackage,
    InstallFiles,
    CreateShortcuts,
    InstallServices,
    StartServices,
    RegisterUser,
    RegisterProduct,
    PublishFeatures,
    PublishProduct,
    InstallFinalize,
}

/// The name by which the sequence tables refer to a standard action.
pub open spec fn action_name(a: StandardAction) -> Seq<char> {
    match a {
        StandardAction::CostInitialize => "CostInitialize"@,
        StandardAction::FileCost => "FileCost"@,
        StandardAction::CostFinalize => "CostFinalize"@,
        StandardAction::ExecuteAction => "ExecuteAction"@,
        StandardAction::InstallValidate => "InstallValidate"@,
        StandardAction::InstallInitialize => "InstallInitialize"@,
        StandardAction::StopServices => "StopServices"@,
        StandardAction::DeleteServices => "DeleteServices"@,
        StandardAction::RemoveShortcuts => "RemoveShortcuts"@,
        StandardAction::RemoveFiles => "RemoveFiles"@,
        StandardAction::RemoveFolders => "RemoveFolders"@,
        StandardAction::CreateFolders => "CreateFolders"@,
        StandardAction::InstallAdminPackage => "InstallAdminPackage"@,
        StandardAction::InstallFiles => "InstallFiles"@,
        StandardAction::CreateShortcuts => "CreateShortcuts"@,
        StandardAction::InstallServices => "InstallServices"@,
        StandardAction::StartServices => "StartServices"@,
        StandardAction::RegisterUser => "RegisterUser"@,
        StandardAction::RegisterProduct => "RegisterProduct"@,
        StandardAction::PublishFeatures => "PublishFeatures"@,
        StandardAction::PublishProduct => "PublishProduct"@,
        StandardAction::InstallFinalize => "InstallFinalize"@,
    }
}

/// The place in its sequence that the installer's documentation suggests
/// for a standard action.
pub open spec fn action_sequence(a: StandardAction) -> i16 {
    match a {
        StandardAction::CostInitialize => 800,
        StandardAction::FileCost => 900,
        StandardAction::CostFinalize => 1000,
        StandardAction::ExecuteAction => 1300,
        StandardAction::InstallValidate => 1400,
        StandardAction::InstallInitialize => 1500,
        StandardAction::StopServices => 1900,
        StandardAction::DeleteServices => 2000,
        StandardAction::RemoveShortcuts => 3200,
        StandardAction::RemoveFiles => 3500,
        StandardAction::RemoveFolders => 3600,
        StandardAction::CreateFolders => 3700,
        StandardAction::InstallAdminPackage => 3900,
        StandardAction::InstallFiles => 4000,
        StandardAction::CreateShortcuts => 4500,
        StandardAction::InstallServices => 5800,
        StandardAction::StartServices => 5900,
        StandardAction::RegisterUser => 6000,
        StandardAction::RegisterProduct => 6100,
        StandardAction::PublishFeatures => 6300,
        StandardAction::PublishProduct => 6400,
        StandardAction::InstallFinalize => 6600,
    }
}

impl StandardAction {
    /// The name of the action.
    pub fn name(&self) -> (r: &'static str)
        ensures
            r@ == action_name(*self),
    {
        match self {
            StandardAction::CostInitialize => "CostInitialize",
            StandardAction::FileCost => "FileCost",
            StandardAction::CostFinalize => "CostFinalize",
            StandardAction::ExecuteAction => "ExecuteAction",
            StandardAction::InstallValidate => "InstallValidate",
            StandardAction::InstallInitialize => "InstallInitialize",
            StandardAction::StopServices => "StopServices",
            StandardAction::DeleteServices => "DeleteServices",
            StandardAction::RemoveShortcuts => "RemoveShortcuts",
            StandardAction::RemoveFiles => "RemoveFiles",
            StandardAction::RemoveFolders => "RemoveFolders",
            StandardAction::CreateFolders => "CreateFolders",
            StandardAction::InstallAdminPackage => "InstallAdminPackage",
            StandardAction::InstallFiles => "InstallFiles",
            StandardAction::CreateShortcuts => "CreateShortcuts",
            StandardAction::InstallServices => "InstallServices",
            StandardAction::StartServices => "StartServices",
            StandardAction::RegisterUser => "RegisterUser",
            StandardAction::RegisterProduct => "RegisterProduct",
            StandardAction::PublishFeatures => "PublishFeatures",
            StandardAction::PublishProduct => "PublishProduct",
            StandardAction::InstallFinalize => "InstallFinalize",
        }
    }

    /// The suggested place of the action in its sequence.
    pub fn sequence(&self) -> (r: i16)
        ensures
            r == action_sequence(*self),
    {
        match self {
            StandardAction::CostInitialize => 800,
            StandardAction::FileCost => 900,
            StandardAction::CostFinalize => 1000,
            StandardAction::ExecuteAction => 1300,
            StandardAction::InstallValidate => 1400,
            StandardAction::InstallInitialize => 1500,
            StandardAction::StopServices => 1900,
            StandardAction::DeleteServices => 2000,
            StandardAction::RemoveShortcuts => 3200,
            StandardAction::RemoveFiles => 3500,
            StandardAction::RemoveFolders => 3600,
            StandardAction::CreateFolders => 3700,
            StandardAction::InstallAdminPackage => 3900,
            StandardAction::InstallFiles => 4000,
            StandardAction::CreateShortcuts => 4500,
            StandardAction::InstallServices => 5800,
            StandardAction::StartServices => 5900,
            StandardAction::RegisterUser => 6000,
            StandardAction::RegisterProduct => 6100,
            StandardAction::PublishFeatures => 6300,
            StandardAction::PublishProduct => 6400,
            StandardAction::InstallFinalize => 6600,
        }
    }
}

/// The standard actions that may appear in the AdvtExecuteSequence table.
#[derive(Clone, Copy, Debug, PartialEq, Eq, Structural)]
pub enum AdvtAction {
    InstallValidate,
    CostInitialize,
    CostFinalize,
    InstallFinalize,
    PublishFeatures,
    PublishProduct,
}

/// The standard action that an advertising action is.
pub open spec fn advt_standard(a: AdvtAction) -> StandardAction {
    match a {
        AdvtAction::InstallValidate => StandardAction::InstallValidate,
        AdvtAction::CostInitialize => StandardAction::CostInitialize,
        AdvtAction::CostFinalize => StandardAction::CostFinalize,
        AdvtAction::InstallFinalize => StandardAction::InstallFinalize,
        AdvtAction::PublishFeatures => StandardAction::PublishFeatures,
        AdvtAction::PublishProduct => StandardAction::PublishProduct,
    }
}

impl AdvtAction {
    /// The standard action that this advertising action is.
    pub fn to_standard(&self) -> (r: StandardAction)
        ensures
            r == advt_standard(*self),
    {
        match self {
            AdvtAction::InstallValidate => StandardAction::InstallValidate,
            AdvtAction::CostInitialize => StandardAction::CostInitialize,
            AdvtAction::CostFinalize => StandardAction::CostFinalize,
            AdvtAction::InstallFinalize => StandardAction::InstallFinalize,
            AdvtAction::PublishFeatures => StandardAction::PublishFeatures,
            AdvtAction::PublishProduct => StandardAction::PublishProduct,
        }
    }
}

/// The action of a row of a sequence table: a standard action, or a custom
/// action.
#[derive(Clone, Copy, Debug, PartialEq, Eq, Structural)]
pub enum ActionIdentifier {
    StandardAction(StandardAction),
    CustomAction,
}

/// The name by which the sequence tables refer to an action.
pub open spec fn action_identifier_name(a: ActionIdentifier) -> Seq<char> {
    match a {
        ActionIdentifier::StandardAction(s) => action_name(s),
        ActionIdentifier::CustomAction => "CustomAction"@,
    }
}

impl ActionIdentifier {
    /// The name of the action.
    pub fn name(&self) -> (r: &'static str)
        ensures
            r@ == action_identifier_name(*self),
    {
        match self {
            ActionIdentifier::StandardAction(s) => s.name(),
            ActionIdentifier::CustomAction => "CustomAction",
        }
    }

    /// The name of the action as an owned string.
    pub fn to_string(&self) -> (r: String)
        ensures
            r@ == action_identifier_name(*self),
    {
        crate::text::owned(self.name())
    }
}

impl From<StandardAction> for ActionIdentifier {
    fn from(value: StandardAction) -> (r: ActionIdentifier) {
        ActionIdentifier::StandardAction(value)
    }
}

impl vstd::std_specs::convert::FromSpecImpl<StandardAction> for ActionIdentifier {
    open spec fn obeys_from_spec() -> bool {
        true
    }

    open spec fn from_spec(v: StandardAction) -> ActionIdentifier {
        ActionIdentifier::StandardAction(v)
    }
}

/// One row of a sequence table: an action, the condition under which it is
/// taken, and its place in the sequence.
pub struct SequenceDao {
    pub action: ActionIdentifier,
    pub condition: Option<Condition>,
    pub sequence: Option<i16>,
}

/// The row that schedules a standard action unconditionally at its
/// suggested place.
pub open spec fn scheduled(a: StandardAction) -> SequenceDao {
    SequenceDao {
        action: ActionIdentifier::StandardAction(a),
        condition: None,
        sequence: Some(action_sequence(a)),
    }
}

/// The rows that schedule each of `actions` in turn.
pub open spec fn scheduled_all(actions: Seq<StandardAction>) -> Seq<SequenceDao> {
    actions.map_values(|a: StandardAction| scheduled(a))
}

/// `entries` schedules the standard action `a`.
pub open spec fn schedules(entries: Seq<SequenceDao>, a: StandardAction) -> bool {
    exists|i: int| 0 <= i < entries.len() && (#[trigger] entries[i]).action == ActionIdentifier::StandardAction(a)
}

/// Scheduling the actions `actions` in turn, each unless it is scheduled
/// already (the first that is stops the rest): every row stays where it
/// was, the first action is scheduled afterwards, and when none of the
/// actions was scheduled before and no two are the same, each of them is
/// scheduled afterwards.
pub proof fn lemma_schedule_all(s: Seq<SequenceDao>, actions: Seq<StandardAction>)
    ensures
        add_all_result(s, scheduled_all(actions)).0.len() >= s.len(),
        add_all_result(s, scheduled_all(actions)).0.take(s.len() as int) == s,
        actions.len() > 0 ==> schedules(add_all_result(s, scheduled_all(actions)).0, actions[0]),
        (forall|k: int| 0 <= k < actions.len() ==> !schedules(s, #[trigger] actions[k])) && actions.no_duplicates()
            ==> forall|k: int| 0 <= k < actions.len() ==> schedules(add_all_result(s, scheduled_all(actions)).0, #[trigger] actions[k]),
    decreases actions.len(),
{
    let xs = scheduled_all(actions);
    let r = add_all_result(s, xs).0;
    if actions.len() == 0 {
        assert(r.take(s.len() as int) =~= s);
    } else {
        let a0 = actions[0];
        let rest = actions.drop_first();
        assert(xs[0] == scheduled(a0));
        if any_conflict(s, xs[0]) {
            let i = choose|i: int| 0 <= i < s.len() && #[trigger] s[i].conflicts_spec(&xs[0]);
            assert(s[i].action == ActionIdentifier::StandardAction(a0));
            assert(r.take(s.len() as int) =~= s);
        } else {
            let t = s.push(xs[0]);
            assert(xs.drop_first() =~= scheduled_all(rest));
            lemma_schedule_all(t, rest);
            assert(r == add_all_result(t, scheduled_all(rest)).0);
            assert(r.take(t.len() as int) == t);
            assert(r.take(s.len() as int) =~= s) by {
                assert forall|k: int| 0 <= k < s.len() implies r[k] == s[k] by {
                    assert(r.take(t.len() as int)[k] == t[k]);
                }
            }
            assert(r[s.len() as int] == t[s.len() as int]) by {
                assert(r.take(t.len() as int)[s.len() as int] == t[s.len() as int]);
            }
            assert(schedules(r, a0));
            if (forall|k: int| 0 <= k < actions.len() ==> !schedules(s, #[trigger] actions[k])) && actions.no_duplicates() {
                assert forall|k: int| 0 <= k < rest.len() implies !schedules(t, #[trigger] rest[k]) by {
                    assert(rest[k] == actions[k + 1]);
                    assert(!schedules(s, actions[k + 1]));
                    if schedules(t, rest[k]) {
                        let i = choose|i: int| 0 <= i < t.len() && (#[trigger] t[i]).action == ActionIdentifier::StandardAction(rest[k]);
                        if i < s.len() {
                            assert(t[i] == s[i]);
                        } else {
                            assert(actions[0] == actions[k + 1]);
                        }
                    }
                }
                assert(rest.no_duplicates()) by {
                    assert forall|p: int, q: int| 0 <= p < rest.len() && 0 <= q < rest.len() && p != q implies rest[p] != rest[q] by {
                        assert(rest[p] == actions[p + 1]);
                        assert(rest[q] == actions[q + 1]);
                    }
                }
                assert forall|k: int| 0 <= k < actions.len() implies schedules(r, #[trigger] actions[k]) by {
                    if k > 0 {
                        assert(actions[k] == rest[k - 1]);
                    }
                }
            }
        }
    }
}

impl SequenceDao {
    /// The row that schedules `action` unconditionally at its suggested
    /// place.
    pub fn scheduled(action: StandardAction) -> (r: SequenceDao)
        ensures
            r == scheduled(action),
    {
        SequenceDao { action: ActionIdentifier::StandardAction(action), condition: None, sequence: Some(action.sequence()) }
    }

    /// The rows that schedule each of `actions` in turn.
    pub fn scheduled_all(actions: &Vec<StandardAction>) -> (r: Vec<SequenceDao>)
        ensures
            r@ == scheduled_all(actions@),
    {
        let mut r: Vec<SequenceDao> = Vec::new();
        let mut i: usize = 0;
        while i < actions.len()
            invariant
                i <= actions.len(),
                r@ == scheduled_all(actions@.take(i as int)),
            decreases actions.len() - i,
        {
            r.push(SequenceDao::scheduled(actions[i]));
            assert(scheduled_all(actions@.take(i + 1)) =~= scheduled_all(actions@.take(i as int)).push(scheduled(actions@[i as int])));
            i = i + 1;
        }
        assert(actions@.take(actions.len() as int) =~= actions@);
        r
    }
}

impl From<StandardAction> for SequenceDao {
    fn from(value: StandardAction) -> (r: SequenceDao) {
        SequenceDao::scheduled(value)
    }
}

impl vstd::std_specs::convert::FromSpecImpl<StandardAction> for SequenceDao {
    open spec fn obeys_from_spec() -> bool {
        true
    }

    open spec fn from_spec(v: StandardAction) -> SequenceDao {
        scheduled(v)
    }
}

impl IsDao for SequenceDao {
    open spec fn row_spec(&self) -> Seq<ValueView> {
        seq![
            ValueView::Str(action_identifier_name(self.action)),
            opt_str_view(&self.condition),
            opt_int_view(match self.sequence { Some(v) => Some(v as int), None => None }),
        ]
    }

    fn to_row(&self) -> (r: Vec<Value>) {
        let r = vec![
            Value::Str(self.action.to_string()),
            opt_str_value(&self.condition),
            opt_i16_value(self.sequence),
        ];
        assert(row_view(r@) =~= self.row_spec());
        r
    }
}

impl MsiBuilderListEntry for SequenceDao {
    /// Two rows conflict when they schedule the same action.
    open spec fn conflicts_spec(&self, other: &Self) -> bool {
        self.action == other.action
    }

    fn conflicts(&self, other: &Self) -> (r: bool) {
        self.action == other.action
    }
}

impl ToUniqueMsiIdentifier for SequenceDao {
    open spec fn unique_id_spec(&self) -> Option<Seq<char>> {
        None
    }

    fn to_unique_msi_identifier(&self) -> (r: Option<Identifier>) {
        None
    }
}

/// Rows that schedule distinct actions do not conflict.
pub proof fn lemma_scheduled_all_conflict_free(actions: Seq<StandardAction>)
    requires
        actions.no_duplicates(),
    ensures
        conflict_free(scheduled_all(actions)),
{
    let s = scheduled_all(actions);
    assert forall|i: int, j: int| 0 <= i < j < s.len() implies !#[trigger] s[i].conflicts_spec(&#[trigger] s[j]) by {
        assert(actions[i] != actions[j]);
    }
}

/// The columns of every sequence table.
pub open spec fn sequence_columns() -> Seq<ColumnView> {
    seq![
        col("Action"@, ColumnKind::Str(Category::Identifier, DEFAULT_IDENTIFIER_MAX_LEN), true, false, false),
        col("Condition"@, ColumnKind::Str(Category::Condition, CONDITION_MAX_LEN), false, true, false),
        col("Sequence"@, ColumnKind::Int16, false, true, false),
    ]
}

fn sequence_column_specs() -> (r: Vec<ColumnSpec>)
    ensures
        columns_view(r@) == sequence_columns(),
{
    let r = vec![
        column("Action", ColumnKind::Str(Category::Identifier, DEFAULT_IDENTIFIER_MAX_LEN), true, false, false),
        column("Condition", ColumnKind::Str(Category::Condition, CONDITION_MAX_LEN), false, true, false),
        column("Sequence", ColumnKind::Int16, false, true, false),
    ];
    assert(columns_view(r@) =~= sequence_columns());
    r
}

/// The actions that the AdvtExecuteSequence table starts with.
pub open spec fn advt_execute_sequence_defaults() -> Seq<StandardAction> {
    seq![StandardAction::InstallValidate, StandardAction::CostInitialize, StandardAction::CostFinalize, StandardAction::InstallFinalize, StandardAction::PublishFeatures, StandardAction::PublishProduct]
}

fn advt_execute_sequence_defaults_vec() -> (r: Vec<StandardAction>)
    ensures
        r@ == advt_execute_sequence_defaults(),
{
    let advt = vec![AdvtAction::InstallValidate, AdvtAction::CostInitialize, AdvtAction::CostFinalize, AdvtAction::InstallFinalize, AdvtAction::PublishFeatures, AdvtAction::PublishProduct];
    let mut r: Vec<StandardAction> = Vec::new();
    let mut i: usize = 0;
    while i < advt.len()
        invariant
            i <= advt.len(),
            advt@ == seq![AdvtAction::InstallValidate, AdvtAction::CostInitialize, AdvtAction::CostFinalize, AdvtAction::InstallFinalize, AdvtAction::PublishFeatures, AdvtAction::PublishProduct],
            r@ == advt@.take(i as int).map_values(|a: AdvtAction| advt_standard(a)),
        decreases advt.len() - i,
    {
        r.push(advt[i].to_standard());
        assert(advt@.take(i + 1).map_values(|a: AdvtAction| advt_standard(a)) =~= advt@.take(i as int).map_values(|a: AdvtAction| advt_standard(a)).push(advt_standard(advt@[i as int])));
        i = i + 1;
    }
    assert(r@ =~= advt_execute_sequence_defaults());
    r
}

/// The AdvtExecuteSequence table: the actions taken when the product is advertised.
pub struct AdvtExecuteSequenceTable {
    entries: Vec<SequenceDao>,
}

impl Default for AdvtExecuteSequenceTable {
    /// The table with its standard actions scheduled at their suggested
    /// places.
    fn default() -> (r: AdvtExecuteSequenceTable)
        ensures
            r.entries_spec() == scheduled_all(advt_execute_sequence_defaults()),
    {
        AdvtExecuteSequenceTable { entries: SequenceDao::scheduled_all(&advt_execute_sequence_defaults_vec()) }
    }
}

impl DaoContainer for AdvtExecuteSequenceTable {
    type Dao = SequenceDao;

    closed spec fn entries_spec(&self) -> Seq<SequenceDao> {
        self.entries@
    }

    fn entries(&self) -> (r: &Vec<SequenceDao>) {
        &self.entries
    }

    fn push_entry(&mut self, entry: SequenceDao) {
        self.entries.push(entry);
    }
}

impl PackageWriter for AdvtExecuteSequenceTable {
    open spec fn name_spec() -> Seq<char> {
        "AdvtExecuteSequence"@
    }

    open spec fn columns_spec() -> Seq<ColumnView> {
        sequence_columns()
    }

    fn name(&self) -> (r: &'static str) {
        "AdvtExecuteSequence"
    }

    fn columns(&self) -> (r: Vec<ColumnSpec>) {
        sequence_column_specs()
    }

    proof fn lemma_row_arity(entry: &SequenceDao) {
    }
}

/// The actions that the AdminExecuteSequence table starts with.
pub open spec fn admin_execute_sequence_defaults() -> Seq<StandardAction> {
    seq![StandardAction::CostInitialize, StandardAction::FileCost, StandardAction::CostFinalize, StandardAction::InstallValidate, StandardAction::InstallInitialize, StandardAction::InstallAdminPackage, StandardAction::InstallFiles, StandardAction::InstallFinalize]
}

fn admin_execute_sequence_defaults_vec() -> (r: Vec<StandardAction>)
    ensures
        r@ == admin_execute_sequence_defaults(),
{
    let r = vec![StandardAction::CostInitialize, StandardAction::FileCost, StandardAction::CostFinalize, StandardAction::InstallValidate, StandardAction::InstallInitialize, StandardAction::InstallAdminPackage, StandardAction::InstallFiles, StandardAction::InstallFinalize];
    assert(r@ =~= admin_execute_sequence_defaults());
    r
}

/// The AdminExecuteSequence table: the actions taken by an administrative installation.
pub struct AdminExecuteSequenceTable {
    entries: Vec<SequenceDao>,
}

impl Default for AdminExecuteSequenceTable {
    /// The table with its standard actions scheduled at their suggested
    /// places.
    fn default() -> (r: AdminExecuteSequenceTable)
        ensures
            r.entries_spec() == scheduled_all(admin_execute_sequence_defaults()),
    {
        AdminExecuteSequenceTable { entries: SequenceDao::scheduled_all(&admin_execute_sequence_defaults_vec()) }
    }
}

impl DaoContainer for AdminExecuteSequenceTable {
    type Dao = SequenceDao;

    closed spec fn entries_spec(&self) -> Seq<SequenceDao> {
        self.entries@
    }

    fn entries(&self) -> (r: &Vec<SequenceDao>) {
        &self.entries
    }

    fn push_entry(&mut self, entry: SequenceDao) {
        self.entries.push(entry);
    }
}

impl PackageWriter for AdminExecuteSequenceTable {
    open spec fn name_spec() -> Seq<char> {
        "AdminExecuteSequence"@
    }

    open spec fn columns_spec() -> Seq<ColumnView> {
        sequence_columns()
    }

    fn name(&self) -> (r: &'static str) {
        "AdminExecuteSequence"
    }

    fn columns(&self) -> (r: Vec<ColumnSpec>) {
        sequence_column_specs()
    }

    proof fn lemma_row_arity(entry: &SequenceDao) {
    }
}

/// The actions that the AdminUISequence table starts with.
pub open spec fn admin_ui_sequence_defaults() -> Seq<StandardAction> {
    seq![StandardAction::CostInitialize, StandardAction::FileCost, StandardAction::CostFinalize, StandardAction::ExecuteAction]
}

fn admin_ui_sequence_defaults_vec() -> (r: Vec<StandardAction>)
    ensures
        r@ == admin_ui_sequence_defaults(),
{
    let r = vec![StandardAction::CostInitialize, StandardAction::FileCost, StandardAction::CostFinalize, StandardAction::ExecuteAction];
    assert(r@ =~= admin_ui_sequence_defaults());
    r
}

/// The AdminUISequence table: the actions of the user interface of an administrative installation.
pub struct AdminUiSequenceTable {
    entries: Vec<SequenceDao>,
}

impl Default for AdminUiSequenceTable {
    /// The table with its standard actions scheduled at their suggested
    /// places.
    fn default() -> (r: AdminUiSequenceTable)
        ensures
            r.entries_spec() == scheduled_all(admin_ui_sequence_defaults()),
    {
        AdminUiSequenceTable { entries: SequenceDao::scheduled_all(&admin_ui_sequence_defaults_vec()) }
    }
}

impl DaoContainer for AdminUiSequenceTable {
    type Dao = SequenceDao;

    closed spec fn entries_spec(&self) -> Seq<SequenceDao> {
        self.entries@
    }

    fn entries(&self) -> (r: &Vec<SequenceDao>) {
        &self.entries
    }

    fn push_entry(&mut self, entry: SequenceDao) {
        self.entries.push(entry);
    }
}

impl PackageWriter for AdminUiSequenceTable {
    open spec fn name_spec() -> Seq<char> {
        "AdminUISequence"@
    }

    open spec fn columns_spec() -> Seq<ColumnView> {
        sequence_columns()
    }

    fn name(&self) -> (r: &'static str) {
        "AdminUISequence"
    }

    fn columns(&self) -> (r: Vec<ColumnSpec>) {
        sequence_column_specs()
    }

    proof fn lemma_row_arity(entry: &SequenceDao) {
    }
}

/// The actions that the InstallExecuteSequence table starts with.
pub open spec fn install_execute_sequence_defaults() -> Seq<StandardAction> {
    seq![StandardAction::InstallValidate, StandardAction::FileCost, StandardAction::CostInitialize, StandardAction::CostFinalize, StandardAction::InstallInitialize, StandardAction::RegisterUser, StandardAction::RegisterProduct, StandardAction::PublishFeatures, StandardAction::PublishProduct, StandardAction::InstallFinalize]
}

fn install_execute_sequence_defaults_vec() -> (r: Vec<StandardAction>)
    ensures
        r@ == install_execute_sequence_defaults(),
{
    let r = vec![StandardAction::InstallValidate, StandardAction::FileCost, StandardAction::CostInitialize, StandardAction::CostFinalize, StandardAction::InstallInitialize, StandardAction::RegisterUser, StandardAction::RegisterProduct, StandardAction::PublishFeatures, StandardAction::PublishProduct, StandardAction::InstallFinalize];
    assert(r@ =~= install_execute_sequence_defaults());
    r
}

/// The InstallExecuteSequence table: the actions taken by an installation.
pub struct InstallExecuteSequenceTable {
    entries: Vec<SequenceDao>,
}

impl Default for InstallExecuteSequenceTable {
    /// The table with its standard actions scheduled at their suggested
    /// places.
    fn default() -> (r: InstallExecuteSequenceTable)
        ensures
            r.entries_spec() == scheduled_all(install_execute_sequence_defaults()),
    {
        InstallExecuteSequenceTable { entries: SequenceDao::scheduled_all(&install_execute_sequence_defaults_vec()) }
    }
}

impl DaoContainer for InstallExecuteSequenceTable {
    type Dao = SequenceDao;

    closed spec fn entries_spec(&self) -> Seq<SequenceDao> {
        self.entries@
    }

    fn entries(&self) -> (r: &Vec<SequenceDao>) {
        &self.entries
    }

    fn push_entry(&mut self, entry: SequenceDao) {
        self.entries.push(entry);
    }
}

impl PackageWriter for InstallExecuteSequenceTable {
    open spec fn name_spec() -> Seq<char> {
        "InstallExecuteSequence"@
    }

    open spec fn columns_spec() -> Seq<ColumnView> {
        sequence_columns()
    }

    fn name(&self) -> (r: &'static str) {
        "InstallExecuteSequence"
    }

    fn columns(&self) -> (r: Vec<ColumnSpec>) {
        sequence_column_specs()
    }

    proof fn lemma_row_arity(entry: &SequenceDao) {
    }
}

/// The actions that the InstallUISequence table starts with.
pub open spec fn install_ui_sequence_defaults() -> Seq<StandardAction> {
    seq![StandardAction::CostInitialize, StandardAction::FileCost, StandardAction::CostFinalize, StandardAction::ExecuteAction]
}

fn install_ui_sequence_defaults_vec() -> (r: Vec<StandardAction>)
    ensures
        r@ == install_ui_sequence_defaults(),
{
    let r = vec![StandardAction::CostInitialize, StandardAction::FileCost, StandardAction::CostFinalize, StandardAction::ExecuteAction];
    assert(r@ =~= install_ui_sequence_defaults());
    r
}

/// The InstallUISequence table: the actions of the user interface of an installation.
pub struct InstallUiSequenceTable {
    entries: Vec<SequenceDao>,
}

impl Default for InstallUiSequenceTable {
    /// The table with its standard actions scheduled at their suggested
    /// places.
    fn default() -> (r: InstallUiSequenceTable)
        ensures
            r.entries_spec() == scheduled_all(install_ui_sequence_defaults()),
    {
        InstallUiSequenceTable { entries: SequenceDao::scheduled_all(&install_ui_sequence_defaults_vec()) }
    }
}

impl DaoContainer for InstallUiSequenceTable {
    type Dao = SequenceDao;

    closed spec fn entries_spec(&self) -> Seq<SequenceDao> {
        self.entries@
    }

    fn entries(&self) -> (r: &Vec<SequenceDao>) {
        &self.entries
    }

    fn push_entry(&mut self, entry: SequenceDao) {
        self.entries.push(entry);
    }
}

impl PackageWriter for InstallUiSequenceTable {
    open spec fn name_spec() -> Seq<char> {
        "InstallUISequence"@
    }

    open spec fn columns_spec() -> Seq<ColumnView> {
        sequence_columns()
    }

    fn name(&self) -> (r: &'static str) {
        "InstallUISequence"
    }

    fn columns(&self) -> (r: Vec<ColumnSpec>) {
        sequence_column_specs()
    }

    proof fn lemma_row_arity(entry: &SequenceDao) {
    }
}


/// The row of a sequence entry has one cell per column, and each cell lies
/// under the column of the field it holds: `Action` holds `action`, `Condition`
/// holds `condition`, `Sequence` holds `sequence`.
pub proof fn lemma_sequence_dao_row_columns(d: SequenceDao)
    ensures
        cell_under(d.row_spec(), sequence_columns(), "Action"@, ValueView::Str(action_identifier_name(d.action))),
        cell_under(d.row_spec(), sequence_columns(), "Condition"@, opt_str_view(&d.condition)),
        cell_under(d.row_spec(), sequence_columns(), "Sequence"@, opt_int_view(match d.sequence { Some(v) => Some(v as int), None => None })),
{
    let cols = sequence_columns();
    reveal_strlit("Action");
    reveal_strlit("Condition");
    reveal_strlit("Sequence");
    assert(column_at(cols, "Action"@, 0)) by {
        assert forall|j: int| 0 <= j < cols.len() && j != 0 implies (#[trigger] cols[j]).name != "Action"@ by {
            if j == 1 {
                assert(cols[1].name == "Condition"@);
                assert("Condition"@.len() != "Action"@.len());
            } else if j == 2 {
                assert(cols[2].name == "Sequence"@);
                assert("Sequence"@.len() != "Action"@.len());
            }
        }
    }
    assert(column_at(cols, "Condition"@, 1)) by {
        assert forall|j: int| 0 <= j < cols.len() && j != 1 implies (#[trigger] cols[j]).name != "Condition"@ by {
            if j == 0 {
                assert(cols[0].name == "Action"@);
                assert("Action"@.len() != "Condition"@.len());
            } else if j == 2 {
                assert(cols[2].name == "Sequence"@);
                assert("Sequence"@.len() != "Condition"@.len());
            }
        }
    }
    assert(column_at(cols, "Sequence"@, 2)) by {
        assert forall|j: int| 0 <= j < cols.len() && j != 2 implies (#[trigger] cols[j]).name != "Sequence"@ by {
            if j == 0 {
                assert(cols[0].name == "Action"@);
                assert("Action"@.len() != "Sequence"@.len());
            } else if j == 1 {
                assert(cols[1].name == "Condition"@);
                assert("Condition"@.len() != "Sequence"@.len());
            }
        }
    }
}

} // verus!
