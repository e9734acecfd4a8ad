//! The builder: an installer package held in memory, whose tables are kept
//! consistent with each other while it is filled.

use vstd::prelude::*;
use vstd::multiset::Multiset;
use crate::cabinet::{CabinetFile, CabinetInfo, Cabinets, cabinet_index, lemma_cabinet_index};
use crate::error::MsiBuilderError;
use crate::identifier::{ShortcutIdentifier, ServiceControlIdentifier, ServiceInstallIdentifier, valid_identifier, is_identifier_char, CabinetIdentifier, ComponentIdentifier, DirectoryIdentifier, FileIdentifier, Identifier, IconIdentifier};
use crate::constants::LAST_SEQUENCE_MAX;
use crate::system_folder::{SystemFolder, folder_name, parse_folder, lemma_folder_name_valid};
use crate::types::{DefaultDir, Filename, Formatted, Shortcut, same_default_dir, valid_filename, is_filename_forbidden};
use crate::resolve::{
    component_values, get_component_value, get_last_component, get_reserved_property, last_component_spec,
    pairs_view, path_components, path_components_spec, portable_path, portable_values, resolve_last, resolved_last, path_resolves_portably, reaches_portable, lemma_all_reach_each,
    reserved_value, result_view,
};
use crate::tables::sequence::StandardAction;
use crate::tables::dao::{add_all_result, lemma_add_all_keeps_conflict_free};
use crate::registry::{generate_id, generated_id, is_first_free, add_outcome, id_multiset, ids_view, lemma_id_multiset_has, lemma_id_multiset_push, lemma_push_keeps_conflict_free, register_and_add, first_free_id, lemma_first_free_unique};
use crate::tables::dao::{DaoContainer, MsiBuilderListEntry, ToUniqueMsiIdentifier, any_conflict, conflict_free};
use crate::tables::meta::MetaInformation;
use crate::tables::feature::{FeatureIdentifier, FeatureTable, FeatureDao, FeatureComponentsTable, FeatureComponentsDao, default_feature_name};
use crate::tables::sequence::{
    AdminExecuteSequenceTable, AdminUiSequenceTable, AdvtExecuteSequenceTable, InstallExecuteSequenceTable,
    InstallUiSequenceTable, SequenceDao, scheduled_all, lemma_scheduled_all_conflict_free, schedules, lemma_schedule_all,
    admin_execute_sequence_defaults, admin_ui_sequence_defaults, advt_execute_sequence_defaults,
    install_execute_sequence_defaults, install_ui_sequence_defaults,
};
use crate::tables::component::{ComponentTable, ComponentDao};
use crate::tables::directory::{DirectoryTable, DirectoryDao};
use crate::tables::file::{FileTable, FileDao, MsiFileHashTable, MsiFileHashDao};
use crate::tables::media::{MediaTable, MediaDao};
use crate::tables::property::{PropertyTable, PropertyDao};
use crate::tables::registry::{RegistryTable, RegistryDao};
use crate::tables::search::{SignatureTable, SignatureDao, RegLocatorTable, RegLocatorDao, AppSearchTable, AppSearchDao};
use crate::tables::launch_condition::{LaunchConditionTable, LaunchConditionDao};
use crate::tables::custom_action::{CustomActionTable, CustomActionDao};
use crate::tables::service::{ServiceControlTable, ServiceControlDao, ServiceInstallTable, ServiceInstallDao, ServiceType, StartType, ErrorControl, Event};
use crate::tables::shortcut::{ShortcutTable, ShortcutDao};
use crate::tables::icon::{IconTable, IconDao};
use crate::tables::lock_permissions::{LockPermissionsTable, LockPermissionsDao, LockObject, LockPermissions, same_lock_object};

verus! {

/// An icon to be stored in the package: where its contents are read from,
/// and its key in the Icon table.
pub struct IconInfo {
    pub path: String,
    pub identifier: IconIdentifier,
}

impl IconInfo {
    /// The name of the stream that holds the icon's data: the name of the
    /// Icon table, a period, and the icon's key.
    pub fn stream_name(&self) -> (r: String)
        ensures
            r@ == "Icon."@ + self.identifier@,
    {
        let mut s = String::new();
        crate::text::push_char(&mut s, 'I');
        crate::text::push_char(&mut s, 'c');
        crate::text::push_char(&mut s, 'o');
        crate::text::push_char(&mut s, 'n');
        crate::text::push_char(&mut s, '.');
        let id = self.identifier.as_str();
        let n = id.unicode_len();
        let mut i: usize = 0;
        while i < n
            invariant
                n == id@.len(),
                id@ == self.identifier@,
                i <= n,
                s@ == seq!['I', 'c', 'o', 'n', '.'] + id@.take(i as int),
            decreases n - i,
        {
            crate::text::push_char(&mut s, id.get_char(i));
            assert(id@.take(i + 1) =~= id@.take(i as int).push(id@[i as int]));
            i = i + 1;
        }
        proof {
            reveal_strlit("Icon.");
            assert(id@.take(n as int) =~= id@);
            assert("Icon."@ =~= seq!['I', 'c', 'o', 'n', '.']);
        }
        s
    }
}

/// A part of the builder, to say which parts an operation changes.
#[derive(Clone, Copy, Debug, PartialEq, Eq, Structural)]
pub enum Part {
    Meta,
    Identifiers,
    Cabinets,
    Icons,
    Component,
    Directory,
    File,
    Media,
    Feature,
    FeatureComponents,
    Property,
    Registry,
    MsiFileHash,
    AdminExecuteSequence,
    AdminUiSequence,
    AdvtExecuteSequence,
    InstallExecuteSequence,
    InstallUiSequence,
    Signature,
    LaunchCondition,
    RegLocator,
    AppSearch,
    CustomAction,
    ServiceControl,
    ServiceInstall,
    Shortcut,
    Icon,
    LockPermissions,
}

/// An installer package held in memory.
pub struct MsiBuilder {
    /// Information about the whole package; it must be given before the
    /// package is built.
    meta: Option<MetaInformation>,
    /// Every key that must be unique across the package, so that no key is
    /// used twice.
    identifiers: Vec<Identifier>,
    cabinets: Cabinets,
    icon_information: Vec<IconInfo>,
    component: ComponentTable,
    directory: DirectoryTable,
    file: FileTable,
    media: MediaTable,
    feature: FeatureTable,
    feature_components: FeatureComponentsTable,
    property: PropertyTable,
    registry: RegistryTable,
    msi_file_hash: MsiFileHashTable,
    admin_execute_sequence: AdminExecuteSequenceTable,
    admin_ui_sequence: AdminUiSequenceTable,
    advt_execute_sequence: AdvtExecuteSequenceTable,
    install_execute_sequence: InstallExecuteSequenceTable,
    install_ui_sequence: InstallUiSequenceTable,
    signature: SignatureTable,
    launch_condition: LaunchConditionTable,
    reg_locator: RegLocatorTable,
    app_search: AppSearchTable,
    custom_action: CustomActionTable,
    service_control: ServiceControlTable,
    service_install: ServiceInstallTable,
    shortcut: ShortcutTable,
    icon: IconTable,
    lock_permissions: LockPermissionsTable,
}

impl MsiBuilder {
    /// The information about the whole package.
    pub closed spec fn meta_spec(&self) -> Option<MetaInformation> {
        self.meta
    }

    /// The registered keys.
    pub closed spec fn registered_ids(&self) -> Seq<Seq<char>> {
        ids_view(self.identifiers@)
    }

    /// The cabinets.
    pub closed spec fn cabinet_entries(&self) -> Seq<CabinetInfo> {
        self.cabinets.entries_spec()
    }

    /// The icons to be stored.
    pub closed spec fn icon_infos(&self) -> Seq<IconInfo> {
        self.icon_information@
    }

    /// The entries of the Component table.
    pub closed spec fn component_entries(&self) -> Seq<ComponentDao> {
        self.component.entries_spec()
    }

    /// The entries of the Directory table.
    pub closed spec fn directory_entries(&self) -> Seq<DirectoryDao> {
        self.directory.entries_spec()
    }

    /// The entries of the File table.
    pub closed spec fn file_entries(&self) -> Seq<FileDao> {
        self.file.entries_spec()
    }

    /// The entries of the Media table.
    pub closed spec fn media_entries(&self) -> Seq<MediaDao> {
        self.media.entries_spec()
    }

    /// The entries of the Feature table.
    pub closed spec fn feature_entries(&self) -> Seq<FeatureDao> {
        self.feature.entries_spec()
    }

    /// The entries of the FeatureComponents table.
    pub closed spec fn feature_components_entries(&self) -> Seq<FeatureComponentsDao> {
        self.feature_components.entries_spec()
    }

    /// The entries of the Property table.
    pub closed spec fn property_entries(&self) -> Seq<PropertyDao> {
        self.property.entries_spec()
    }

    /// The entries of the Registry table.
    pub closed spec fn registry_entries(&self) -> Seq<RegistryDao> {
        self.registry.entries_spec()
    }

    /// The entries of the MsiFileHash table.
    pub closed spec fn msi_file_hash_entries(&self) -> Seq<MsiFileHashDao> {
        self.msi_file_hash.entries_spec()
    }

    /// The entries of the AdminExecuteSequence table.
    pub closed spec fn admin_execute_sequence_entries(&self) -> Seq<SequenceDao> {
        self.admin_execute_sequence.entries_spec()
    }

    /// The entries of the AdminUiSequence table.
    pub closed spec fn admin_ui_sequence_entries(&self) -> Seq<SequenceDao> {
        self.admin_ui_sequence.entries_spec()
    }

    /// The entries of the AdvtExecuteSequence table.
    pub closed spec fn advt_execute_sequence_entries(&self) -> Seq<SequenceDao> {
        self.advt_execute_sequence.entries_spec()
    }

    /// The entries of the InstallExecuteSequence table.
    pub closed spec fn install_execute_sequence_entries(&self) -> Seq<SequenceDao> {
        self.install_execute_sequence.entries_spec()
    }

    /// The entries of the InstallUiSequence table.
    pub closed spec fn install_ui_sequence_entries(&self) -> Seq<SequenceDao> {
        self.install_ui_sequence.entries_spec()
    }

    /// The entries of the Signature table.
    pub closed spec fn signature_entries(&self) -> Seq<SignatureDao> {
        self.signature.entries_spec()
    }

    /// The entries of the LaunchCondition table.
    pub closed spec fn launch_condition_entries(&self) -> Seq<LaunchConditionDao> {
        self.launch_condition.entries_spec()
    }

    /// The entries of the RegLocator table.
    pub closed spec fn reg_locator_entries(&self) -> Seq<RegLocatorDao> {
        self.reg_locator.entries_spec()
    }

    /// The entries of the AppSearch table.
    pub closed spec fn app_search_entries(&self) -> Seq<AppSearchDao> {
        self.app_search.entries_spec()
    }

    /// The entries of the CustomAction table.
    pub closed spec fn custom_action_entries(&self) -> Seq<CustomActionDao> {
        self.custom_action.entries_spec()
    }

    /// The entries of the ServiceControl table.
    pub closed spec fn service_control_entries(&self) -> Seq<ServiceControlDao> {
        self.service_control.entries_spec()
    }

    /// The entries of the ServiceInstall table.
    pub closed spec fn service_install_entries(&self) -> Seq<ServiceInstallDao> {
        self.service_install.entries_spec()
    }

    /// The entries of the Shortcut table.
    pub closed spec fn shortcut_entries(&self) -> Seq<ShortcutDao> {
        self.shortcut.entries_spec()
    }

    /// The entries of the Icon table.
    pub closed spec fn icon_entries(&self) -> Seq<IconDao> {
        self.icon.entries_spec()
    }

    /// The entries of the LockPermissions table.
    pub closed spec fn lock_permissions_entries(&self) -> Seq<LockPermissionsDao> {
        self.lock_permissions.entries_spec()
    }

    /// Every key that must be unique across the package, counted as often as
    /// an entry holds it.
    pub open spec fn package_ids(&self) -> Multiset<Seq<char>> {
        id_multiset(self.cabinet_entries())
            .add(id_multiset(self.component_entries()))
            .add(id_multiset(self.directory_entries()))
            .add(id_multiset(self.file_entries()))
            .add(id_multiset(self.feature_entries()))
            .add(id_multiset(self.registry_entries()))
            .add(id_multiset(self.signature_entries()))
            .add(id_multiset(self.service_control_entries()))
            .add(id_multiset(self.service_install_entries()))
            .add(id_multiset(self.shortcut_entries()))
            .add(id_multiset(self.icon_entries()))
    }

    /// Every table is free of conflicts.
    pub open spec fn tables_conflict_free(&self) -> bool {
        &&& conflict_free(self.cabinet_entries())
        &&& conflict_free(self.component_entries())
        &&& conflict_free(self.directory_entries())
        &&& conflict_free(self.file_entries())
        &&& conflict_free(self.media_entries())
        &&& conflict_free(self.feature_entries())
        &&& conflict_free(self.feature_components_entries())
        &&& conflict_free(self.property_entries())
        &&& conflict_free(self.registry_entries())
        &&& conflict_free(self.msi_file_hash_entries())
        &&& conflict_free(self.admin_execute_sequence_entries())
        &&& conflict_free(self.admin_ui_sequence_entries())
        &&& conflict_free(self.advt_execute_sequence_entries())
        &&& conflict_free(self.install_execute_sequence_entries())
        &&& conflict_free(self.install_ui_sequence_entries())
        &&& conflict_free(self.signature_entries())
        &&& conflict_free(self.launch_condition_entries())
        &&& conflict_free(self.reg_locator_entries())
        &&& conflict_free(self.app_search_entries())
        &&& conflict_free(self.custom_action_entries())
        &&& conflict_free(self.service_control_entries())
        &&& conflict_free(self.service_install_entries())
        &&& conflict_free(self.shortcut_entries())
        &&& conflict_free(self.icon_entries())
        &&& conflict_free(self.lock_permissions_entries())
    }

    /// Every disk keeps its files in a cabinet that the package holds.
    pub open spec fn media_in_cabinets(&self) -> bool {
        forall|i: int|
            0 <= i < self.media_entries().len() ==> ((#[trigger] self.media_entries()[i]).cabinet matches Some(c)
                && cabinet_index(self.cabinet_entries(), c@) is Some)
    }

    /// The builder is consistent: no key is registered twice, every key of
    /// an entry is registered and held by no other entry, no table holds
    /// entries that conflict, every disk has its cabinet, and the file hashes
    /// and feature links refer to registered keys.
    pub open spec fn wf(&self) -> bool {
        &&& self.registered_ids().no_duplicates()
        &&& forall|x: Seq<char>| #[trigger] self.package_ids().count(x) > 0 ==> self.registered_ids().contains(x)
        &&& forall|x: Seq<char>| #[trigger] self.package_ids().count(x) <= 1
        &&& self.tables_conflict_free()
        &&& self.media_in_cabinets()
        &&& self.references_registered()
        &&& self.has_default_feature()
    }

    /// The Feature table holds the default feature.
    pub open spec fn has_default_feature(&self) -> bool {
        exists|i: int|
            0 <= i < self.feature_entries().len() && (#[trigger] self.feature_entries()[i]).feature@
                == default_feature_name()
    }

    /// Every file hash belongs to a registered file key, and every link of a
    /// feature to a component names a registered component key.
    pub open spec fn references_registered(&self) -> bool {
        &&& forall|i: int|
            0 <= i < self.msi_file_hash_entries().len() ==> self.registered_ids().contains(
                (#[trigger] self.msi_file_hash_entries()[i]).file@,
            )
        &&& forall|i: int|
            0 <= i < self.feature_components_entries().len() ==> self.registered_ids().contains(
                (#[trigger] self.feature_components_entries()[i]).component@,
            )
    }
}

/// `a` and `b` agree on every part outside `changed`.
pub open spec fn same_except(a: &MsiBuilder, b: &MsiBuilder, changed: Set<Part>) -> bool {
    &&& (!changed.contains(Part::Meta) ==> a.meta_spec() == b.meta_spec())
    &&& (!changed.contains(Part::Identifiers) ==> a.registered_ids() == b.registered_ids())
    &&& (!changed.contains(Part::Cabinets) ==> a.cabinet_entries() == b.cabinet_entries())
    &&& (!changed.contains(Part::Icons) ==> a.icon_infos() == b.icon_infos())
    &&& (!changed.contains(Part::Component) ==> a.component_entries() == b.component_entries())
    &&& (!changed.contains(Part::Directory) ==> a.directory_entries() == b.directory_entries())
    &&& (!changed.contains(Part::File) ==> a.file_entries() == b.file_entries())
    &&& (!changed.contains(Part::Media) ==> a.media_entries() == b.media_entries())
    &&& (!changed.contains(Part::Feature) ==> a.feature_entries() == b.feature_entries())
    &&& (!changed.contains(Part::FeatureComponents) ==> a.feature_components_entries() == b.feature_components_entries())
    &&& (!changed.contains(Part::Property) ==> a.property_entries() == b.property_entries())
    &&& (!changed.contains(Part::Registry) ==> a.registry_entries() == b.registry_entries())
    &&& (!changed.contains(Part::MsiFileHash) ==> a.msi_file_hash_entries() == b.msi_file_hash_entries())
    &&& (!changed.contains(Part::AdminExecuteSequence) ==> a.admin_execute_sequence_entries() == b.admin_execute_sequence_entries())
    &&& (!changed.contains(Part::AdminUiSequence) ==> a.admin_ui_sequence_entries() == b.admin_ui_sequence_entries())
    &&& (!changed.contains(Part::AdvtExecuteSequence) ==> a.advt_execute_sequence_entries() == b.advt_execute_sequence_entries())
    &&& (!changed.contains(Part::InstallExecuteSequence) ==> a.install_execute_sequence_entries() == b.install_execute_sequence_entries())
    &&& (!changed.contains(Part::InstallUiSequence) ==> a.install_ui_sequence_entries() == b.install_ui_sequence_entries())
    &&& (!changed.contains(Part::Signature) ==> a.signature_entries() == b.signature_entries())
    &&& (!changed.contains(Part::LaunchCondition) ==> a.launch_condition_entries() == b.launch_condition_entries())
    &&& (!changed.contains(Part::RegLocator) ==> a.reg_locator_entries() == b.reg_locator_entries())
    &&& (!changed.contains(Part::AppSearch) ==> a.app_search_entries() == b.app_search_entries())
    &&& (!changed.contains(Part::CustomAction) ==> a.custom_action_entries() == b.custom_action_entries())
    &&& (!changed.contains(Part::ServiceControl) ==> a.service_control_entries() == b.service_control_entries())
    &&& (!changed.contains(Part::ServiceInstall) ==> a.service_install_entries() == b.service_install_entries())
    &&& (!changed.contains(Part::Shortcut) ==> a.shortcut_entries() == b.shortcut_entries())
    &&& (!changed.contains(Part::Icon) ==> a.icon_entries() == b.icon_entries())
    &&& (!changed.contains(Part::LockPermissions) ==> a.lock_permissions_entries() == b.lock_permissions_entries())
}

impl MsiBuilder {
    /// The information about the whole package.
    pub fn meta(&self) -> (r: &Option<MetaInformation>)
        ensures
            *r == self.meta_spec(),
    {
        &self.meta
    }

    /// The registered keys.
    pub fn identifiers(&self) -> (r: &Vec<Identifier>)
        ensures
            ids_view(r@) == self.registered_ids(),
    {
        &self.identifiers
    }

    /// The cabinets.
    pub fn cabinets(&self) -> (r: &Cabinets)
        ensures
            r.entries_spec() == self.cabinet_entries(),
    {
        &self.cabinets
    }

    /// The icons to be stored.
    pub fn icon_information(&self) -> (r: &Vec<IconInfo>)
        ensures
            r@ == self.icon_infos(),
    {
        &self.icon_information
    }

    /// The Component table.
    pub fn component(&self) -> (r: &ComponentTable)
        ensures
            r.entries_spec() == self.component_entries(),
    {
        &self.component
    }

    /// The Directory table.
    pub fn directory(&self) -> (r: &DirectoryTable)
        ensures
            r.entries_spec() == self.directory_entries(),
    {
        &self.directory
    }

    /// The File table.
    pub fn file(&self) -> (r: &FileTable)
        ensures
            r.entries_spec() == self.file_entries(),
    {
        &self.file
    }

    /// The Media table.
    pub fn media(&self) -> (r: &MediaTable)
        ensures
            r.entries_spec() == self.media_entries(),
    {
        &self.media
    }

    /// The Feature table.
    pub fn feature(&self) -> (r: &FeatureTable)
        ensures
            r.entries_spec() == self.feature_entries(),
    {
        &self.feature
    }

    /// The FeatureComponents table.
    pub fn feature_components(&self) -> (r: &FeatureComponentsTable)
        ensures
            r.entries_spec() == self.feature_components_entries(),
    {
        &self.feature_components
    }

    /// The Property table.
    pub fn property(&self) -> (r: &PropertyTable)
        ensures
            r.entries_spec() == self.property_entries(),
    {
        &self.property
    }

    /// The Registry table.
    pub fn registry(&self) -> (r: &RegistryTable)
        ensures
            r.entries_spec() == self.registry_entries(),
    {
        &self.registry
    }

    /// The MsiFileHash table.
    pub fn msi_file_hash(&self) -> (r: &MsiFileHashTable)
        ensures
            r.entries_spec() == self.msi_file_hash_entries(),
    {
        &self.msi_file_hash
    }

    /// The AdminExecuteSequence table.
    pub fn admin_execute_sequence(&self) -> (r: &AdminExecuteSequenceTable)
        ensures
            r.entries_spec() == self.admin_execute_sequence_entries(),
    {
        &self.admin_execute_sequence
    }

    /// The AdminUiSequence table.
    pub fn admin_ui_sequence(&self) -> (r: &AdminUiSequenceTable)
        ensures
            r.entries_spec() == self.admin_ui_sequence_entries(),
    {
        &self.admin_ui_sequence
    }

    /// The AdvtExecuteSequence table.
    pub fn advt_execute_sequence(&self) -> (r: &AdvtExecuteSequenceTable)
        ensures
            r.entries_spec() == self.advt_execute_sequence_entries(),
    {
        &self.advt_execute_sequence
    }

    /// The InstallExecuteSequence table.
    pub fn install_execute_sequence(&self) -> (r: &InstallExecuteSequenceTable)
        ensures
            r.entries_spec() == self.install_execute_sequence_entries(),
    {
        &self.install_execute_sequence
    }

    /// The InstallUiSequence table.
    pub fn install_ui_sequence(&self) -> (r: &InstallUiSequenceTable)
        ensures
            r.entries_spec() == self.install_ui_sequence_entries(),
    {
        &self.install_ui_sequence
    }

    /// The Signature table.
    pub fn signature(&self) -> (r: &SignatureTable)
        ensures
            r.entries_spec() == self.signature_entries(),
    {
        &self.signature
    }

    /// The LaunchCondition table.
    pub fn launch_condition(&self) -> (r: &LaunchConditionTable)
        ensures
            r.entries_spec() == self.launch_condition_entries(),
    {
        &self.launch_condition
    }

    /// The RegLocator table.
    pub fn reg_locator(&self) -> (r: &RegLocatorTable)
        ensures
            r.entries_spec() == self.reg_locator_entries(),
    {
        &self.reg_locator
    }

    /// The AppSearch table.
    pub fn app_search(&self) -> (r: &AppSearchTable)
        ensures
            r.entries_spec() == self.app_search_entries(),
    {
        &self.app_search
    }

    /// The CustomAction table.
    pub fn custom_action(&self) -> (r: &CustomActionTable)
        ensures
            r.entries_spec() == self.custom_action_entries(),
    {
        &self.custom_action
    }

    /// The ServiceControl table.
    pub fn service_control(&self) -> (r: &ServiceControlTable)
        ensures
            r.entries_spec() == self.service_control_entries(),
    {
        &self.service_control
    }

    /// The ServiceInstall table.
    pub fn service_install(&self) -> (r: &ServiceInstallTable)
        ensures
            r.entries_spec() == self.service_install_entries(),
    {
        &self.service_install
    }

    /// The Shortcut table.
    pub fn shortcut(&self) -> (r: &ShortcutTable)
        ensures
            r.entries_spec() == self.shortcut_entries(),
    {
        &self.shortcut
    }

    /// The Icon table.
    pub fn icon(&self) -> (r: &IconTable)
        ensures
            r.entries_spec() == self.icon_entries(),
    {
        &self.icon
    }

    /// The LockPermissions table.
    pub fn lock_permissions(&self) -> (r: &LockPermissionsTable)
        ensures
            r.entries_spec() == self.lock_permissions_entries(),
    {
        &self.lock_permissions
    }
}

impl Default for MsiBuilder {
    /// An empty package: no information yet, the default feature, and the
    /// standard actions in the sequence tables. The key of the default
    /// feature is registered.
    fn default() -> (r: MsiBuilder)
        ensures
            r.wf(),
            r.meta_spec() is None,
            r.registered_ids() == seq![default_feature_name()],
            r.cabinet_entries().len() == 0,
            r.icon_infos().len() == 0,
            r.feature_entries().len() == 1,
            r.feature_entries()[0].feature@ == default_feature_name(),
            r.admin_execute_sequence_entries() == scheduled_all(admin_execute_sequence_defaults()),
            r.admin_ui_sequence_entries() == scheduled_all(admin_ui_sequence_defaults()),
            r.advt_execute_sequence_entries() == scheduled_all(advt_execute_sequence_defaults()),
            r.install_execute_sequence_entries() == scheduled_all(install_execute_sequence_defaults()),
            r.install_ui_sequence_entries() == scheduled_all(install_ui_sequence_defaults()),
            r.component_entries().len() == 0,
            r.directory_entries().len() == 0,
            r.file_entries().len() == 0,
            r.media_entries().len() == 0,
            r.feature_components_entries().len() == 0,
            r.property_entries().len() == 0,
            r.registry_entries().len() == 0,
            r.msi_file_hash_entries().len() == 0,
            r.signature_entries().len() == 0,
            r.launch_condition_entries().len() == 0,
            r.reg_locator_entries().len() == 0,
            r.app_search_entries().len() == 0,
            r.custom_action_entries().len() == 0,
            r.service_control_entries().len() == 0,
            r.service_install_entries().len() == 0,
            r.shortcut_entries().len() == 0,
            r.icon_entries().len() == 0,
            r.lock_permissions_entries().len() == 0,
    {
        let mut identifiers: Vec<Identifier> = Vec::new();
        identifiers.push(FeatureIdentifier::default_feature().0);
        let r = MsiBuilder {
            meta: None,
            identifiers,
            cabinets: Cabinets::new(),
            icon_information: Vec::new(),
            component: ComponentTable::new(),
            directory: DirectoryTable::new(),
            file: FileTable::new(),
            media: MediaTable::new(),
            feature: FeatureTable::with_default_feature(),
            feature_components: FeatureComponentsTable::new(),
            property: PropertyTable::new(),
            registry: RegistryTable::new(),
            msi_file_hash: MsiFileHashTable::new(),
            admin_execute_sequence: AdminExecuteSequenceTable::default(),
            admin_ui_sequence: AdminUiSequenceTable::default(),
            advt_execute_sequence: AdvtExecuteSequenceTable::default(),
            install_execute_sequence: InstallExecuteSequenceTable::default(),
            install_ui_sequence: InstallUiSequenceTable::default(),
            signature: SignatureTable::new(),
            launch_condition: LaunchConditionTable::new(),
            reg_locator: RegLocatorTable::new(),
            app_search: AppSearchTable::new(),
            custom_action: CustomActionTable::new(),
            service_control: ServiceControlTable::new(),
            service_install: ServiceInstallTable::new(),
            shortcut: ShortcutTable::new(),
            icon: IconTable::new(),
            lock_permissions: LockPermissionsTable::new(),
        };
        proof {
            assert(r.registered_ids() =~= seq![default_feature_name()]);
            assert(admin_execute_sequence_defaults().no_duplicates());
            assert(admin_ui_sequence_defaults().no_duplicates());
            assert(advt_execute_sequence_defaults().no_duplicates());
            assert(install_execute_sequence_defaults().no_duplicates());
            assert(install_ui_sequence_defaults().no_duplicates());
            lemma_scheduled_all_conflict_free(admin_execute_sequence_defaults());
            lemma_scheduled_all_conflict_free(admin_ui_sequence_defaults());
            lemma_scheduled_all_conflict_free(advt_execute_sequence_defaults());
            lemma_scheduled_all_conflict_free(install_execute_sequence_defaults());
            lemma_scheduled_all_conflict_free(install_ui_sequence_defaults());
            let f = r.feature_entries();
            assert(f =~= Seq::<FeatureDao>::empty().push(f[0]));
            assert(id_multiset(f) == Multiset::<Seq<char>>::empty().insert(default_feature_name())) by {
                assert(f.drop_last() =~= Seq::<FeatureDao>::empty());
                assert(id_multiset(f.drop_last()) == Multiset::<Seq<char>>::empty());
                assert(f.last().unique_id_spec() == Some(default_feature_name()));
            }
            assert(r.package_ids() =~= Multiset::<Seq<char>>::empty().insert(default_feature_name()));
            assert(r.feature_entries()[0].feature@ == default_feature_name());
            assert forall|x: Seq<char>| #[trigger] r.package_ids().count(x) > 0 implies r.registered_ids().contains(x) by {
                assert(x == default_feature_name());
                assert(r.registered_ids()[0] == x);
            }
        }
        r
    }
}

/// Registering a fresh key, and adding to the package at most the entry
/// that holds it, keeps the builder consistent.
proof fn lemma_register_keeps_wf(b: MsiBuilder, b2: MsiBuilder, x: Seq<char>, added: bool)
    requires
        b.wf(),
        !b.registered_ids().contains(x),
        b2.registered_ids() == b.registered_ids().push(x),
        b2.package_ids() == (if added { b.package_ids().insert(x) } else { b.package_ids() }),
        b2.tables_conflict_free(),
        b2.media_in_cabinets(),
        b2.msi_file_hash_entries() == b.msi_file_hash_entries(),
        b2.feature_components_entries() == b.feature_components_entries(),
        b2.has_default_feature(),
    ensures
        b2.wf(),
{
    let old_ids = b.registered_ids();
    let new_ids = b2.registered_ids();
    assert forall|i: int, j: int| 0 <= i < new_ids.len() && 0 <= j < new_ids.len() && i != j implies new_ids[i] != new_ids[j] by {
        if i < old_ids.len() && j < old_ids.len() {
            assert(new_ids[i] == old_ids[i] && new_ids[j] == old_ids[j]);
        } else if i < old_ids.len() {
            assert(new_ids[i] == old_ids[i]);
            assert(old_ids.contains(old_ids[i]));
        } else {
            assert(new_ids[j] == old_ids[j]);
            assert(old_ids.contains(old_ids[j]));
        }
    }
    assert forall|y: Seq<char>| #[trigger] b2.package_ids().count(y) > 0 implies new_ids.contains(y) by {
        if y == x {
            assert(new_ids[old_ids.len() as int] == x);
        } else {
            assert(b.package_ids().count(y) > 0);
            let i = choose|i: int| 0 <= i < old_ids.len() && old_ids[i] == y;
            assert(new_ids[i] == y);
        }
    }
    assert forall|y: Seq<char>| old_ids.contains(y) implies new_ids.contains(y) by {
        let i = choose|i: int| 0 <= i < old_ids.len() && old_ids[i] == y;
        assert(new_ids[i] == y);
    }
    assert forall|y: Seq<char>| #[trigger] b2.package_ids().count(y) <= 1 by {
        if y == x {
            if b.package_ids().count(x) > 0 {
                assert(old_ids.contains(x));
            }
        } else {
            assert(b.package_ids().count(y) <= 1);
        }
    }
}

impl MsiBuilder {
    fn add_component_entry(&mut self, dao: ComponentDao) -> (r: Result<(), MsiBuilderError>)
        requires
            old(self).wf(),
        ensures
            final(self).wf(),
            add_outcome(
                old(self).registered_ids(),
                final(self).registered_ids(),
                old(self).component_entries(),
                final(self).component_entries(),
                dao,
                r,
            ),
            same_except(&*old(self), &*final(self), set![Part::Identifiers, Part::Component]),
            !old(self).registered_ids().contains(dao.unique_id_spec().unwrap()) ==> r is Ok,
    {
        let r = register_and_add(&mut self.identifiers, &mut self.component, dao);
        proof {
            let x = dao.unique_id_spec().unwrap();
            if !old(self).registered_ids().contains(x) {
                if any_conflict(old(self).component_entries(), dao) {
                    let i = choose|i: int| 0 <= i < old(self).component_entries().len() && #[trigger] old(self).component_entries()[i].conflicts_spec(&dao);
                    lemma_id_multiset_has(old(self).component_entries(), i);
                    assert(old(self).package_ids().count(x) > 0);
                }
            }
            if r is Err {
                assert(self.package_ids() =~= old(self).package_ids());
            }
            if !old(self).registered_ids().contains(x) {
                lemma_id_multiset_push(old(self).component_entries(), dao);
                if r is Ok {
                    lemma_push_keeps_conflict_free(old(self).component_entries(), dao);
                    assert(self.package_ids() =~= old(self).package_ids().insert(x));
                    
                    lemma_register_keeps_wf(*old(self), *self, x, true);
                } else {
                    lemma_register_keeps_wf(*old(self), *self, x, false);
                }
            }
        }
        r
    }

    fn add_directory_entry(&mut self, dao: DirectoryDao) -> (r: Result<(), MsiBuilderError>)
        requires
            old(self).wf(),
        ensures
            final(self).wf(),
            add_outcome(
                old(self).registered_ids(),
                final(self).registered_ids(),
                old(self).directory_entries(),
                final(self).directory_entries(),
                dao,
                r,
            ),
            same_except(&*old(self), &*final(self), set![Part::Identifiers, Part::Directory]),
            !old(self).registered_ids().contains(dao.unique_id_spec().unwrap()) ==> r is Ok,
    {
        let r = register_and_add(&mut self.identifiers, &mut self.directory, dao);
        proof {
            let x = dao.unique_id_spec().unwrap();
            if !old(self).registered_ids().contains(x) {
                if any_conflict(old(self).directory_entries(), dao) {
                    let i = choose|i: int| 0 <= i < old(self).directory_entries().len() && #[trigger] old(self).directory_entries()[i].conflicts_spec(&dao);
                    lemma_id_multiset_has(old(self).directory_entries(), i);
                    assert(old(self).package_ids().count(x) > 0);
                }
            }
            if r is Err {
                assert(self.package_ids() =~= old(self).package_ids());
            }
            if !old(self).registered_ids().contains(x) {
                lemma_id_multiset_push(old(self).directory_entries(), dao);
                if r is Ok {
                    lemma_push_keeps_conflict_free(old(self).directory_entries(), dao);
                    assert(self.package_ids() =~= old(self).package_ids().insert(x));
                    
                    lemma_register_keeps_wf(*old(self), *self, x, true);
                } else {
                    lemma_register_keeps_wf(*old(self), *self, x, false);
                }
            }
        }
        r
    }

    fn add_file_entry(&mut self, dao: FileDao) -> (r: Result<(), MsiBuilderError>)
        requires
            old(self).wf(),
        ensures
            final(self).wf(),
            add_outcome(
                old(self).registered_ids(),
                final(self).registered_ids(),
                old(self).file_entries(),
                final(self).file_entries(),
                dao,
                r,
            ),
            same_except(&*old(self), &*final(self), set![Part::Identifiers, Part::File]),
            !old(self).registered_ids().contains(dao.unique_id_spec().unwrap()) ==> r is Ok,
    {
        let r = register_and_add(&mut self.identifiers, &mut self.file, dao);
        proof {
            let x = dao.unique_id_spec().unwrap();
            if !old(self).registered_ids().contains(x) {
                if any_conflict(old(self).file_entries(), dao) {
                    let i = choose|i: int| 0 <= i < old(self).file_entries().len() && #[trigger] old(self).file_entries()[i].conflicts_spec(&dao);
                    lemma_id_multiset_has(old(self).file_entries(), i);
                    assert(old(self).package_ids().count(x) > 0);
                }
            }
            if r is Err {
                assert(self.package_ids() =~= old(self).package_ids());
            }
            if !old(self).registered_ids().contains(x) {
                lemma_id_multiset_push(old(self).file_entries(), dao);
                if r is Ok {
                    lemma_push_keeps_conflict_free(old(self).file_entries(), dao);
                    assert(self.package_ids() =~= old(self).package_ids().insert(x));
                    
                    lemma_register_keeps_wf(*old(self), *self, x, true);
                } else {
                    lemma_register_keeps_wf(*old(self), *self, x, false);
                }
            }
        }
        r
    }

    fn add_media_entry(&mut self, dao: MediaDao) -> (r: Result<(), MsiBuilderError>)
        requires
            old(self).wf(),
            dao.cabinet matches Some(c) && cabinet_index(old(self).cabinet_entries(), c@) is Some,
        ensures
            final(self).wf(),
            add_outcome(
                old(self).registered_ids(),
                final(self).registered_ids(),
                old(self).media_entries(),
                final(self).media_entries(),
                dao,
                r,
            ),
            same_except(&*old(self), &*final(self), set![Part::Identifiers, Part::Media]),
    {
        let r = register_and_add(&mut self.identifiers, &mut self.media, dao);
        proof {
            assert(self.package_ids() =~= old(self).package_ids());
            if r is Ok {
                lemma_push_keeps_conflict_free(old(self).media_entries(), dao);
            }
        }
        r
    }

    fn add_feature_entry(&mut self, dao: FeatureDao) -> (r: Result<(), MsiBuilderError>)
        requires
            old(self).wf(),
        ensures
            final(self).wf(),
            add_outcome(
                old(self).registered_ids(),
                final(self).registered_ids(),
                old(self).feature_entries(),
                final(self).feature_entries(),
                dao,
                r,
            ),
            same_except(&*old(self), &*final(self), set![Part::Identifiers, Part::Feature]),
            !old(self).registered_ids().contains(dao.unique_id_spec().unwrap()) ==> r is Ok,
    {
        let r = register_and_add(&mut self.identifiers, &mut self.feature, dao);
        proof {
            let x = dao.unique_id_spec().unwrap();
            if !old(self).registered_ids().contains(x) {
                if any_conflict(old(self).feature_entries(), dao) {
                    let i = choose|i: int| 0 <= i < old(self).feature_entries().len() && #[trigger] old(self).feature_entries()[i].conflicts_spec(&dao);
                    lemma_id_multiset_has(old(self).feature_entries(), i);
                    assert(old(self).package_ids().count(x) > 0);
                }
            }
            if r is Err {
                assert(self.package_ids() =~= old(self).package_ids());
            }
            if !old(self).registered_ids().contains(x) {
                lemma_id_multiset_push(old(self).feature_entries(), dao);
                if r is Ok {
                    lemma_push_keeps_conflict_free(old(self).feature_entries(), dao);
                    assert(self.package_ids() =~= old(self).package_ids().insert(x));
                    let i = choose|i: int| 0 <= i < old(self).feature_entries().len() && (#[trigger] old(self).feature_entries()[i]).feature@ == default_feature_name();
                    assert(self.feature_entries()[i] == old(self).feature_entries()[i]);
                    lemma_register_keeps_wf(*old(self), *self, x, true);
                } else {
                    lemma_register_keeps_wf(*old(self), *self, x, false);
                }
            }
        }
        r
    }

    fn add_feature_components_entry(&mut self, dao: FeatureComponentsDao) -> (r: Result<(), MsiBuilderError>)
        requires
            old(self).wf(),
            old(self).registered_ids().contains(dao.component@),
        ensures
            final(self).wf(),
            add_outcome(
                old(self).registered_ids(),
                final(self).registered_ids(),
                old(self).feature_components_entries(),
                final(self).feature_components_entries(),
                dao,
                r,
            ),
            same_except(&*old(self), &*final(self), set![Part::Identifiers, Part::FeatureComponents]),
    {
        let r = register_and_add(&mut self.identifiers, &mut self.feature_components, dao);
        proof {
            assert(self.package_ids() =~= old(self).package_ids());
            if r is Ok {
                lemma_push_keeps_conflict_free(old(self).feature_components_entries(), dao);
            }
        }
        r
    }

    fn add_property_entry(&mut self, dao: PropertyDao) -> (r: Result<(), MsiBuilderError>)
        requires
            old(self).wf(),
        ensures
            final(self).wf(),
            add_outcome(
                old(self).registered_ids(),
                final(self).registered_ids(),
                old(self).property_entries(),
                final(self).property_entries(),
                dao,
                r,
            ),
            same_except(&*old(self), &*final(self), set![Part::Identifiers, Part::Property]),
    {
        let r = register_and_add(&mut self.identifiers, &mut self.property, dao);
        proof {
            assert(self.package_ids() =~= old(self).package_ids());
            if r is Ok {
                lemma_push_keeps_conflict_free(old(self).property_entries(), dao);
            }
        }
        r
    }

    fn add_registry_entry(&mut self, dao: RegistryDao) -> (r: Result<(), MsiBuilderError>)
        requires
            old(self).wf(),
        ensures
            final(self).wf(),
            add_outcome(
                old(self).registered_ids(),
                final(self).registered_ids(),
                old(self).registry_entries(),
                final(self).registry_entries(),
                dao,
                r,
            ),
            same_except(&*old(self), &*final(self), set![Part::Identifiers, Part::Registry]),
            !old(self).registered_ids().contains(dao.unique_id_spec().unwrap()) ==> r is Ok,
    {
        let r = register_and_add(&mut self.identifiers, &mut self.registry, dao);
        proof {
            let x = dao.unique_id_spec().unwrap();
            if !old(self).registered_ids().contains(x) {
                if any_conflict(old(self).registry_entries(), dao) {
                    let i = choose|i: int| 0 <= i < old(self).registry_entries().len() && #[trigger] old(self).registry_entries()[i].conflicts_spec(&dao);
                    lemma_id_multiset_has(old(self).registry_entries(), i);
                    assert(old(self).package_ids().count(x) > 0);
                }
            }
            if r is Err {
                assert(self.package_ids() =~= old(self).package_ids());
            }
            if !old(self).registered_ids().contains(x) {
                lemma_id_multiset_push(old(self).registry_entries(), dao);
                if r is Ok {
                    lemma_push_keeps_conflict_free(old(self).registry_entries(), dao);
                    assert(self.package_ids() =~= old(self).package_ids().insert(x));
                    
                    lemma_register_keeps_wf(*old(self), *self, x, true);
                } else {
                    lemma_register_keeps_wf(*old(self), *self, x, false);
                }
            }
        }
        r
    }

    fn add_msi_file_hash_entry(&mut self, dao: MsiFileHashDao) -> (r: Result<(), MsiBuilderError>)
        requires
            old(self).wf(),
            old(self).registered_ids().contains(dao.file@),
        ensures
            final(self).wf(),
            add_outcome(
                old(self).registered_ids(),
                final(self).registered_ids(),
                old(self).msi_file_hash_entries(),
                final(self).msi_file_hash_entries(),
                dao,
                r,
            ),
            same_except(&*old(self), &*final(self), set![Part::Identifiers, Part::MsiFileHash]),
    {
        let r = register_and_add(&mut self.identifiers, &mut self.msi_file_hash, dao);
        proof {
            assert(self.package_ids() =~= old(self).package_ids());
            if r is Ok {
                lemma_push_keeps_conflict_free(old(self).msi_file_hash_entries(), dao);
            }
        }
        r
    }

    fn add_service_control_entry(&mut self, dao: ServiceControlDao) -> (r: Result<(), MsiBuilderError>)
        requires
            old(self).wf(),
        ensures
            final(self).wf(),
            add_outcome(
                old(self).registered_ids(),
                final(self).registered_ids(),
                old(self).service_control_entries(),
                final(self).service_control_entries(),
                dao,
                r,
            ),
            same_except(&*old(self), &*final(self), set![Part::Identifiers, Part::ServiceControl]),
            !old(self).registered_ids().contains(dao.unique_id_spec().unwrap()) ==> r is Ok,
    {
        let r = register_and_add(&mut self.identifiers, &mut self.service_control, dao);
        proof {
            let x = dao.unique_id_spec().unwrap();
            if !old(self).registered_ids().contains(x) {
                if any_conflict(old(self).service_control_entries(), dao) {
                    let i = choose|i: int| 0 <= i < old(self).service_control_entries().len() && #[trigger] old(self).service_control_entries()[i].conflicts_spec(&dao);
                    lemma_id_multiset_has(old(self).service_control_entries(), i);
                    assert(old(self).package_ids().count(x) > 0);
                }
            }
            if r is Err {
                assert(self.package_ids() =~= old(self).package_ids());
            }
            if !old(self).registered_ids().contains(x) {
                lemma_id_multiset_push(old(self).service_control_entries(), dao);
                if r is Ok {
                    lemma_push_keeps_conflict_free(old(self).service_control_entries(), dao);
                    assert(self.package_ids() =~= old(self).package_ids().insert(x));
                    
                    lemma_register_keeps_wf(*old(self), *self, x, true);
                } else {
                    lemma_register_keeps_wf(*old(self), *self, x, false);
                }
            }
        }
        r
    }

    fn add_service_install_entry(&mut self, dao: ServiceInstallDao) -> (r: Result<(), MsiBuilderError>)
        requires
            old(self).wf(),
        ensures
            final(self).wf(),
            add_outcome(
                old(self).registered_ids(),
                final(self).registered_ids(),
                old(self).service_install_entries(),
                final(self).service_install_entries(),
                dao,
                r,
            ),
            same_except(&*old(self), &*final(self), set![Part::Identifiers, Part::ServiceInstall]),
            !old(self).registered_ids().contains(dao.unique_id_spec().unwrap()) ==> r is Ok,
    {
        let r = register_and_add(&mut self.identifiers, &mut self.service_install, dao);
        proof {
            let x = dao.unique_id_spec().unwrap();
            if !old(self).registered_ids().contains(x) {
                if any_conflict(old(self).service_install_entries(), dao) {
                    let i = choose|i: int| 0 <= i < old(self).service_install_entries().len() && #[trigger] old(self).service_install_entries()[i].conflicts_spec(&dao);
                    lemma_id_multiset_has(old(self).service_install_entries(), i);
                    assert(old(self).package_ids().count(x) > 0);
                }
            }
            if r is Err {
                assert(self.package_ids() =~= old(self).package_ids());
            }
            if !old(self).registered_ids().contains(x) {
                lemma_id_multiset_push(old(self).service_install_entries(), dao);
                if r is Ok {
                    lemma_push_keeps_conflict_free(old(self).service_install_entries(), dao);
                    assert(self.package_ids() =~= old(self).package_ids().insert(x));
                    
                    lemma_register_keeps_wf(*old(self), *self, x, true);
                } else {
                    lemma_register_keeps_wf(*old(self), *self, x, false);
                }
            }
        }
        r
    }

    fn add_shortcut_entry(&mut self, dao: ShortcutDao) -> (r: Result<(), MsiBuilderError>)
        requires
            old(self).wf(),
        ensures
            final(self).wf(),
            add_outcome(
                old(self).registered_ids(),
                final(self).registered_ids(),
                old(self).shortcut_entries(),
                final(self).shortcut_entries(),
                dao,
                r,
            ),
            same_except(&*old(self), &*final(self), set![Part::Identifiers, Part::Shortcut]),
            !old(self).registered_ids().contains(dao.unique_id_spec().unwrap()) ==> r is Ok,
    {
        let r = register_and_add(&mut self.identifiers, &mut self.shortcut, dao);
        proof {
            let x = dao.unique_id_spec().unwrap();
            if !old(self).registered_ids().contains(x) {
                if any_conflict(old(self).shortcut_entries(), dao) {
                    let i = choose|i: int| 0 <= i < old(self).shortcut_entries().len() && #[trigger] old(self).shortcut_entries()[i].conflicts_spec(&dao);
                    lemma_id_multiset_has(old(self).shortcut_entries(), i);
                    assert(old(self).package_ids().count(x) > 0);
                }
            }
            if r is Err {
                assert(self.package_ids() =~= old(self).package_ids());
            }
            if !old(self).registered_ids().contains(x) {
                lemma_id_multiset_push(old(self).shortcut_entries(), dao);
                if r is Ok {
                    lemma_push_keeps_conflict_free(old(self).shortcut_entries(), dao);
                    assert(self.package_ids() =~= old(self).package_ids().insert(x));
                    
                    lemma_register_keeps_wf(*old(self), *self, x, true);
                } else {
                    lemma_register_keeps_wf(*old(self), *self, x, false);
                }
            }
        }
        r
    }

    fn add_icon_entry(&mut self, dao: IconDao) -> (r: Result<(), MsiBuilderError>)
        requires
            old(self).wf(),
        ensures
            final(self).wf(),
            add_outcome(
                old(self).registered_ids(),
                final(self).registered_ids(),
                old(self).icon_entries(),
                final(self).icon_entries(),
                dao,
                r,
            ),
            same_except(&*old(self), &*final(self), set![Part::Identifiers, Part::Icon]),
            !old(self).registered_ids().contains(dao.unique_id_spec().unwrap()) ==> r is Ok,
    {
        let r = register_and_add(&mut self.identifiers, &mut self.icon, dao);
        proof {
            let x = dao.unique_id_spec().unwrap();
            if !old(self).registered_ids().contains(x) {
                if any_conflict(old(self).icon_entries(), dao) {
                    let i = choose|i: int| 0 <= i < old(self).icon_entries().len() && #[trigger] old(self).icon_entries()[i].conflicts_spec(&dao);
                    lemma_id_multiset_has(old(self).icon_entries(), i);
                    assert(old(self).package_ids().count(x) > 0);
                }
            }
            if r is Err {
                assert(self.package_ids() =~= old(self).package_ids());
            }
            if !old(self).registered_ids().contains(x) {
                lemma_id_multiset_push(old(self).icon_entries(), dao);
                if r is Ok {
                    lemma_push_keeps_conflict_free(old(self).icon_entries(), dao);
                    assert(self.package_ids() =~= old(self).package_ids().insert(x));
                    
                    lemma_register_keeps_wf(*old(self), *self, x, true);
                } else {
                    lemma_register_keeps_wf(*old(self), *self, x, false);
                }
            }
        }
        r
    }

    fn add_lock_permissions_entry(&mut self, dao: LockPermissionsDao) -> (r: Result<(), MsiBuilderError>)
        requires
            old(self).wf(),
        ensures
            final(self).wf(),
            add_outcome(
                old(self).registered_ids(),
                final(self).registered_ids(),
                old(self).lock_permissions_entries(),
                final(self).lock_permissions_entries(),
                dao,
                r,
            ),
            same_except(&*old(self), &*final(self), set![Part::Identifiers, Part::LockPermissions]),
    {
        let r = register_and_add(&mut self.identifiers, &mut self.lock_permissions, dao);
        proof {
            assert(self.package_ids() =~= old(self).package_ids());
            if r is Ok {
                lemma_push_keeps_conflict_free(old(self).lock_permissions_entries(), dao);
            }
        }
        r
    }

}

/// An entry of one of the tables that the builder fills.
pub enum Dao {
    Component(ComponentDao),
    Directory(DirectoryDao),
    File(FileDao),
    Registry(RegistryDao),
    Feature(FeatureDao),
    Shortcut(ShortcutDao),
    ServiceInstall(ServiceInstallDao),
    ServiceControl(ServiceControlDao),
    Icon(IconDao),
    Property(PropertyDao),
    Media(MediaDao),
    MsiFileHash(MsiFileHashDao),
    FeatureComponents(FeatureComponentsDao),
    LockPermissions(LockPermissionsDao),
}

/// What adding `dao` does to its table and to the register, given the
/// outcome `r`; every other part stays as it was.
pub open spec fn add_to_tables_outcome(b: &MsiBuilder, b2: &MsiBuilder, dao: Dao, r: Result<(), MsiBuilderError>) -> bool {
    match dao {
        Dao::Component(d) => add_outcome(b.registered_ids(), b2.registered_ids(), b.component_entries(), b2.component_entries(), d, r)
            && same_except(b, b2, set![Part::Identifiers, Part::Component]),
        Dao::Directory(d) => add_outcome(b.registered_ids(), b2.registered_ids(), b.directory_entries(), b2.directory_entries(), d, r)
            && same_except(b, b2, set![Part::Identifiers, Part::Directory]),
        Dao::File(d) => add_outcome(b.registered_ids(), b2.registered_ids(), b.file_entries(), b2.file_entries(), d, r)
            && same_except(b, b2, set![Part::Identifiers, Part::File]),
        Dao::Registry(d) => add_outcome(b.registered_ids(), b2.registered_ids(), b.registry_entries(), b2.registry_entries(), d, r)
            && same_except(b, b2, set![Part::Identifiers, Part::Registry]),
        Dao::Feature(d) => add_outcome(b.registered_ids(), b2.registered_ids(), b.feature_entries(), b2.feature_entries(), d, r)
            && same_except(b, b2, set![Part::Identifiers, Part::Feature]),
        Dao::Shortcut(d) => add_outcome(b.registered_ids(), b2.registered_ids(), b.shortcut_entries(), b2.shortcut_entries(), d, r)
            && same_except(b, b2, set![Part::Identifiers, Part::Shortcut]),
        Dao::ServiceInstall(d) => add_outcome(b.registered_ids(), b2.registered_ids(), b.service_install_entries(), b2.service_install_entries(), d, r)
            && same_except(b, b2, set![Part::Identifiers, Part::ServiceInstall]),
        Dao::ServiceControl(d) => add_outcome(b.registered_ids(), b2.registered_ids(), b.service_control_entries(), b2.service_control_entries(), d, r)
            && same_except(b, b2, set![Part::Identifiers, Part::ServiceControl]),
        Dao::Icon(d) => add_outcome(b.registered_ids(), b2.registered_ids(), b.icon_entries(), b2.icon_entries(), d, r)
            && same_except(b, b2, set![Part::Identifiers, Part::Icon]),
        Dao::Property(d) => add_outcome(b.registered_ids(), b2.registered_ids(), b.property_entries(), b2.property_entries(), d, r)
            && same_except(b, b2, set![Part::Identifiers, Part::Property]),
        Dao::Media(d) => add_outcome(b.registered_ids(), b2.registered_ids(), b.media_entries(), b2.media_entries(), d, r)
            && same_except(b, b2, set![Part::Identifiers, Part::Media]),
        Dao::MsiFileHash(d) => add_outcome(b.registered_ids(), b2.registered_ids(), b.msi_file_hash_entries(), b2.msi_file_hash_entries(), d, r)
            && same_except(b, b2, set![Part::Identifiers, Part::MsiFileHash]),
        Dao::FeatureComponents(d) => add_outcome(b.registered_ids(), b2.registered_ids(), b.feature_components_entries(), b2.feature_components_entries(), d, r)
            && same_except(b, b2, set![Part::Identifiers, Part::FeatureComponents]),
        Dao::LockPermissions(d) => add_outcome(b.registered_ids(), b2.registered_ids(), b.lock_permissions_entries(), b2.lock_permissions_entries(), d, r)
            && same_except(b, b2, set![Part::Identifiers, Part::LockPermissions]),
    }
}

impl MsiBuilder {
    /// Adds an entry to its table. An entry with a key that must be unique
    /// across the package has the key registered first; a key already
    /// registered is refused. An entry that conflicts with one already in
    /// its table is refused. A disk must carry a cabinet of the package, and
    /// a file hash and a feature link must refer to registered keys.
    pub fn add_to_tables(&mut self, dao: Dao) -> (r: Result<(), MsiBuilderError>)
        requires
            old(self).wf(),
            dao matches Dao::Media(m) ==> (m.cabinet matches Some(c) && cabinet_index(old(self).cabinet_entries(), c@) is Some),
            dao matches Dao::MsiFileHash(h) ==> old(self).registered_ids().contains(h.file@),
            dao matches Dao::FeatureComponents(fc) ==> old(self).registered_ids().contains(fc.component@),
        ensures
            final(self).wf(),
            add_to_tables_outcome(&*old(self), &*final(self), dao, r),
    {
        match dao {
            Dao::Component(d) => self.add_component_entry(d),
            Dao::Directory(d) => self.add_directory_entry(d),
            Dao::File(d) => self.add_file_entry(d),
            Dao::Registry(d) => self.add_registry_entry(d),
            Dao::Feature(d) => self.add_feature_entry(d),
            Dao::Shortcut(d) => self.add_shortcut_entry(d),
            Dao::ServiceInstall(d) => self.add_service_install_entry(d),
            Dao::ServiceControl(d) => self.add_service_control_entry(d),
            Dao::Icon(d) => self.add_icon_entry(d),
            Dao::Property(d) => self.add_property_entry(d),
            Dao::Media(d) => self.add_media_entry(d),
            Dao::MsiFileHash(d) => self.add_msi_file_hash_entry(d),
            Dao::FeatureComponents(d) => self.add_feature_components_entry(d),
            Dao::LockPermissions(d) => self.add_lock_permissions_entry(d),
        }
    }
}

/// What a directory entry says: its key, the key of its parent, and its
/// name.
pub open spec fn directory_view(d: DirectoryDao) -> (Seq<char>, Option<Seq<char>>, Seq<char>) {
    (
        d.directory@,
        match d.parent {
            Some(p) => Some(p@),
            None => None,
        },
        d.default_dir@,
    )
}

/// What the entries of a Directory table say.
pub open spec fn directory_views(s: Seq<DirectoryDao>) -> Seq<(Seq<char>, Option<Seq<char>>, Seq<char>)> {
    s.map_values(|d: DirectoryDao| directory_view(d))
}

/// What the entry of a system folder says: `TARGETDIR` is the root, named
/// `SourceDir`; every other folder sits in `TARGETDIR`, named `.`.
pub open spec fn folder_directory_view(f: SystemFolder) -> (Seq<char>, Option<Seq<char>>, Seq<char>) {
    if f == SystemFolder::TARGETDIR {
        (folder_name(f), None, "SourceDir"@)
    } else {
        (folder_name(f), Some(folder_name(SystemFolder::TARGETDIR)), "."@)
    }
}

/// The system folders whose entries are added before an entry whose parent
/// is `parent`: when the parent is a system folder, the root `TARGETDIR`
/// and then the parent itself.
pub open spec fn parent_folder_chain(parent: Option<Seq<char>>) -> Seq<SystemFolder> {
    match parent {
        Some(p) => match parse_folder(p) {
            Some(f) => if f == SystemFolder::TARGETDIR {
                seq![SystemFolder::TARGETDIR]
            } else {
                seq![SystemFolder::TARGETDIR, f]
            },
            None => Seq::empty(),
        },
        None => Seq::empty(),
    }
}

/// One directory entry added to the register `ids` and the entries `dirs`:
/// skipped when its key is registered, else its key registered and the entry
/// appended.
pub open spec fn directory_step(
    state: (Seq<Seq<char>>, Seq<(Seq<char>, Option<Seq<char>>, Seq<char>)>),
    d: (Seq<char>, Option<Seq<char>>, Seq<char>),
) -> (Seq<Seq<char>>, Seq<(Seq<char>, Option<Seq<char>>, Seq<char>)>) {
    if state.0.contains(d.0) {
        state
    } else {
        (state.0.push(d.0), state.1.push(d))
    }
}

/// Directory entries added in turn.
pub open spec fn directory_steps(
    state: (Seq<Seq<char>>, Seq<(Seq<char>, Option<Seq<char>>, Seq<char>)>),
    ds: Seq<(Seq<char>, Option<Seq<char>>, Seq<char>)>,
) -> (Seq<Seq<char>>, Seq<(Seq<char>, Option<Seq<char>>, Seq<char>)>)
    decreases ds.len(),
{
    if ds.len() == 0 {
        state
    } else {
        directory_step(directory_steps(state, ds.drop_last()), ds.last())
    }
}

/// The directory entries that adding an entry tries, in order: those of the
/// system folders that its parent needs, then its own.
pub open spec fn directory_attempts(d: (Seq<char>, Option<Seq<char>>, Seq<char>)) -> Seq<
    (Seq<char>, Option<Seq<char>>, Seq<char>),
> {
    parent_folder_chain(d.1).map_values(|f: SystemFolder| folder_directory_view(f)).push(d)
}

/// The register and the directory entries of a builder.
pub open spec fn directory_state(b: &MsiBuilder) -> (Seq<Seq<char>>, Seq<(Seq<char>, Option<Seq<char>>, Seq<char>)>) {
    (b.registered_ids(), directory_views(b.directory_entries()))
}

/// What adding the directory `name` inside the directory keyed `parent` did
/// to `b`, giving `b2`, when it got the key `id`: `id` is the first free
/// `_DIRECTORY_<n>`; the entries of the system folders that the parent
/// needs, then the directory's own, were added, each unless its key was
/// registered; the directory's own entry, the last, names it by a file
/// name; and the folder actions were scheduled.
pub open spec fn directory_added(b: &MsiBuilder, b2: &MsiBuilder, name: Seq<char>, parent: Seq<char>, id: Seq<char>) -> bool {
    &&& is_first_free(b.registered_ids(), "DIRECTORY_"@, id)
    &&& directory_state(b2) == directory_steps(directory_state(b), directory_attempts((id, Some(parent), name)))
    &&& b2.directory_entries().len() > 0 && b2.directory_entries().last().default_dir is Filename
    &&& b2.install_execute_sequence_entries() == add_all_result(
        b.install_execute_sequence_entries(),
        scheduled_all(directory_actions()),
    ).0
    &&& same_except(b, b2, set![Part::Identifiers, Part::Directory, Part::InstallExecuteSequence])
}

impl MsiBuilder {
    /// Adds the entry of a system folder unless its key is registered.
    fn add_system_folder(&mut self, folder: SystemFolder)
        requires
            old(self).wf(),
        ensures
            final(self).wf(),
            directory_state(&*final(self)) == directory_step(directory_state(&*old(self)), folder_directory_view(folder)),
            same_except(&*old(self), &*final(self), set![Part::Identifiers, Part::Directory]),
    {
        let dao = DirectoryDao::from(folder);
        proof {
            reveal_strlit("SourceDir");
            reveal_strlit(".");
            assert(directory_view(dao) == folder_directory_view(folder));
        }
        let r = self.add_directory_entry(dao);
        proof {
            if r is Ok {
                assert(directory_views(self.directory_entries()) =~= directory_views(old(self).directory_entries()).push(
                    directory_view(dao),
                ));
            }
        }
    }

    /// Adds a directory entry. When its parent is a system folder, the
    /// entries of `TARGETDIR` and of that folder are added first, each unless
    /// its key is registered. The entry itself is refused with
    /// `IdentifierConflict` when its key is registered by then.
    pub fn add_directory_dao(&mut self, dao: DirectoryDao) -> (r: Result<(), MsiBuilderError>)
        requires
            old(self).wf(),
        ensures
            final(self).wf(),
            directory_state(&*final(self)) == directory_steps(directory_state(&*old(self)), directory_attempts(directory_view(dao))),
            r is Ok <==> !directory_steps(
                directory_state(&*old(self)),
                directory_attempts(directory_view(dao)).drop_last(),
            ).0.contains(dao.directory@),
            r matches Err(e) ==> (e matches MsiBuilderError::IdentifierConflict { identifier } && identifier@ == dao.directory@),
            r is Ok ==> final(self).directory_entries().len() > 0 && final(self).directory_entries().last() == dao,
            same_except(&*old(self), &*final(self), set![Part::Identifiers, Part::Directory]),
    {
        let ghost s0 = directory_state(&*self);
        let ghost view = directory_view(dao);
        let ghost chain = parent_folder_chain(view.1).map_values(|f: SystemFolder| folder_directory_view(f));
        let ghost attempts = directory_attempts(view);
        assert(attempts.drop_last() =~= chain);
        match &dao.parent {
            Some(parent) => {
                match SystemFolder::from_str(parent.as_str()) {
                    Some(folder) => {
                        if folder != SystemFolder::TARGETDIR {
                            self.add_system_folder(SystemFolder::TARGETDIR);
                            let ghost s1 = directory_state(&*self);
                            self.add_system_folder(folder);
                            proof {
                                assert(chain =~= seq![folder_directory_view(SystemFolder::TARGETDIR), folder_directory_view(folder)]);
                                assert(chain.drop_last() =~= seq![folder_directory_view(SystemFolder::TARGETDIR)]);
                                assert(chain.drop_last().drop_last() =~= Seq::<(Seq<char>, Option<Seq<char>>, Seq<char>)>::empty());
                                assert(directory_steps(s0, chain.drop_last().drop_last()) == s0);
                                assert(directory_steps(s0, chain.drop_last()) == s1);
                            }
                        } else {
                            self.add_system_folder(SystemFolder::TARGETDIR);
                            proof {
                                assert(chain =~= seq![folder_directory_view(SystemFolder::TARGETDIR)]);
                                assert(chain.drop_last() =~= Seq::<(Seq<char>, Option<Seq<char>>, Seq<char>)>::empty());
                                assert(directory_steps(s0, chain.drop_last()) == s0);
                            }
                        }
                    },
                    None => {
                        assert(chain =~= Seq::<(Seq<char>, Option<Seq<char>>, Seq<char>)>::empty());
                    },
                }
            },
            None => {
                assert(chain =~= Seq::<(Seq<char>, Option<Seq<char>>, Seq<char>)>::empty());
            },
        }
        assert(directory_state(&*self) == directory_steps(s0, chain));
        let ghost mid = directory_state(&*self);
        let ghost before = *self;
        let r = self.add_directory_entry(dao);
        proof {
            assert(attempts.last() == view);
            if r is Ok {
                assert(self.directory_entries() == before.directory_entries().push(dao));
                assert(directory_views(self.directory_entries()) =~= directory_views(before.directory_entries()).push(view));
            }
            assert(directory_state(&*self) == directory_step(mid, view));
        }
        r
    }

    /// Adds a directory named `name` inside the directory keyed `parent`,
    /// under a freshly generated key `_DIRECTORY_<n>`, and schedules the
    /// actions that remove and create folders. Fails with `InvalidFilename`,
    /// changing nothing, when `name` is not a valid file name.
    pub fn add_directory(&mut self, name: &str, parent: DirectoryIdentifier) -> (r: Result<DirectoryIdentifier, MsiBuilderError>)
        requires
            old(self).wf(),
        ensures
            final(self).wf(),
            r is Ok <==> valid_filename(name@),
            r matches Err(e) ==> e is InvalidFilename && *final(self) == *old(self),
            r matches Ok(id) ==> directory_added(&*old(self), &*final(self), name@, parent@, id@),
    {
        let filename = match Filename::strict_parse(name) {
            Ok(f) => f,
            Err(e) => return Err(e),
        };
        proof {
            reveal_strlit("DIRECTORY_");
        }
        let id = generate_id(&self.identifiers, "DIRECTORY_");
        let dao = DirectoryDao::new(DefaultDir::Filename(filename), id.clone(), parent);
        let ghost view = directory_view(dao);
        assert(view == (id@, Some(parent@), name@));
        let ghost s0 = directory_state(&*self);
        let ghost chain = directory_attempts(view).drop_last();
        proof {
            lemma_chain_keeps_fresh(s0, view.1, id@);
            assert(directory_attempts(view).drop_last() =~= parent_folder_chain(view.1).map_values(
                |f: SystemFolder| folder_directory_view(f),
            ));
        }
        let added = self.add_directory_dao(dao);
        match added {
            Ok(()) => {},
            Err(e) => {
                return Err(e);
            },
        }
        self.add_directory_actions();
        Ok(id)
    }

    /// Schedules the actions that remove and create folders, each unless it
    /// is scheduled already.
    fn add_directory_actions(&mut self)
        requires
            old(self).wf(),
        ensures
            final(self).wf(),
            final(self).install_execute_sequence_entries() == add_all_result(
                old(self).install_execute_sequence_entries(),
                scheduled_all(directory_actions()),
            ).0,
            same_except(&*old(self), &*final(self), set![Part::InstallExecuteSequence]),
    {
        let actions = vec![StandardAction::RemoveFolders, StandardAction::CreateFolders];
        assert(actions@ =~= directory_actions());
        self.schedule(&actions);
    }

    /// Schedules each of `actions` in turn, unless it is scheduled already.
    fn schedule(&mut self, actions: &Vec<StandardAction>)
        requires
            old(self).wf(),
        ensures
            final(self).wf(),
            final(self).install_execute_sequence_entries() == add_all_result(
                old(self).install_execute_sequence_entries(),
                scheduled_all(actions@),
            ).0,
            same_except(&*old(self), &*final(self), set![Part::InstallExecuteSequence]),
    {
        let rows = SequenceDao::scheduled_all(actions);
        let _ = self.install_execute_sequence.add_all(rows);
        proof {
            lemma_add_all_keeps_conflict_free(old(self).install_execute_sequence_entries(), scheduled_all(actions@));
            assert(self.package_ids() =~= old(self).package_ids());
        }
    }
}

/// The actions that adding a directory schedules.
pub open spec fn directory_actions() -> Seq<StandardAction> {
    seq![StandardAction::RemoveFolders, StandardAction::CreateFolders]
}

/// Adding the entries of system folders never registers a key that starts
/// with `_`.
proof fn lemma_chain_keeps_fresh(
    s: (Seq<Seq<char>>, Seq<(Seq<char>, Option<Seq<char>>, Seq<char>)>),
    parent: Option<Seq<char>>,
    x: Seq<char>,
)
    requires
        !s.0.contains(x),
        x.len() > 0 && x[0] == '_',
    ensures
        !directory_steps(s, parent_folder_chain(parent).map_values(|f: SystemFolder| folder_directory_view(f))).0.contains(x),
{
    let chain = parent_folder_chain(parent).map_values(|f: SystemFolder| folder_directory_view(f));
    lemma_folder_name_valid(SystemFolder::TARGETDIR);
    let t = folder_directory_view(SystemFolder::TARGETDIR);
    let empty = Seq::<(Seq<char>, Option<Seq<char>>, Seq<char>)>::empty();
    match parent {
        Some(p) => match parse_folder(p) {
            Some(f) => {
                lemma_folder_name_valid(f);
                if f == SystemFolder::TARGETDIR {
                    assert(chain =~= seq![t]);
                    assert(chain.drop_last() =~= empty);
                    assert(directory_steps(s, chain.drop_last()) == s);
                } else {
                    let g = folder_directory_view(f);
                    assert(chain =~= seq![t, g]);
                    assert(chain.drop_last() =~= seq![t]);
                    assert(chain.drop_last().drop_last() =~= empty);
                    assert(directory_steps(s, chain.drop_last().drop_last()) == s);
                    let s1 = directory_steps(s, chain.drop_last());
                    assert(s1 == directory_step(s, t));
                    assert(!s1.0.contains(x));
                }
            },
            None => {
                assert(chain =~= empty);
            },
        },
        None => {
            assert(chain =~= empty);
        },
    }
}

/// Two generated identifiers whose prefixes differ at some position differ.
pub proof fn lemma_generated_ids_differ(p1: Seq<char>, n1: nat, p2: Seq<char>, n2: nat, k: int)
    requires
        0 <= k < p1.len(),
        k < p2.len(),
        p1[k] != p2[k],
    ensures
        generated_id(p1, n1) != generated_id(p2, n2),
{
    assert(generated_id(p1, n1)[1 + k] == p1[k]);
    assert(generated_id(p2, n2)[1 + k] == p2[k]);
}

/// Two first-free identifiers for prefixes that differ at some position
/// differ.
proof fn lemma_first_free_differ(ids: Seq<Seq<char>>, p1: Seq<char>, x1: Seq<char>, p2: Seq<char>, x2: Seq<char>, k: int)
    requires
        is_first_free(ids, p1, x1),
        is_first_free(ids, p2, x2),
        0 <= k < p1.len(),
        k < p2.len(),
        p1[k] != p2[k],
    ensures
        x1 != x2,
{
    let n1 = choose|n: nat| x1 == generated_id(p1, n) && !ids.contains(generated_id(p1, n))
        && forall|j: nat| j < n ==> ids.contains(#[trigger] generated_id(p1, j));
    let n2 = choose|n: nat| x2 == generated_id(p2, n) && !ids.contains(generated_id(p2, n))
        && forall|j: nat| j < n ==> ids.contains(#[trigger] generated_id(p2, j));
    lemma_generated_ids_differ(p1, n1, p2, n2, k);
}

/// The entries of `s` keep the keys they had in `t`, position by position.
proof fn lemma_id_multiset_same_keys<D: ToUniqueMsiIdentifier>(s: Seq<D>, t: Seq<D>)
    requires
        s.len() == t.len(),
        forall|k: int| 0 <= k < s.len() ==> (#[trigger] s[k]).unique_id_spec() == t[k].unique_id_spec(),
    ensures
        id_multiset(s) == id_multiset(t),
    decreases s.len(),
{
    if s.len() > 0 {
        lemma_id_multiset_same_keys(s.drop_last(), t.drop_last());
        assert(s.last().unique_id_spec() == t.last().unique_id_spec());
    }
}

/// The files of the cabinet of the last disk, if there is one.
pub open spec fn last_media_cabinet_files(b: &MsiBuilder) -> Seq<CabinetFile> {
    if b.media_entries().len() == 0 {
        Seq::empty()
    } else {
        match b.media_entries().last().cabinet {
            Some(c) => match cabinet_index(b.cabinet_entries(), c@) {
                Some(i) => b.cabinet_entries()[i].files@,
                None => Seq::empty(),
            },
            None => Seq::empty(),
        }
    }
}

impl MsiBuilder {
    /// Creates an empty cabinet under a freshly generated key
    /// `_CABINET_<n>` and returns the key.
    fn new_cabinet(&mut self) -> (r: CabinetIdentifier)
        requires
            old(self).wf(),
        ensures
            final(self).wf(),
            is_first_free(old(self).registered_ids(), "CABINET_"@, r@),
            final(self).registered_ids() == old(self).registered_ids().push(r@),
            final(self).cabinet_entries().len() == old(self).cabinet_entries().len() + 1,
            final(self).cabinet_entries().drop_last() == old(self).cabinet_entries(),
            final(self).cabinet_entries().last().id@ == r@,
            final(self).cabinet_entries().last().files@.len() == 0,
            same_except(&*old(self), &*final(self), set![Part::Identifiers, Part::Cabinets]),
    {
        proof {
            reveal_strlit("CABINET_");
        }
        let id = generate_id(&self.identifiers, "CABINET_");
        let info = CabinetInfo::new(id.clone());
        let ghost x = id@;
        proof {
            if any_conflict(old(self).cabinet_entries(), info) {
                let i = choose|i: int| 0 <= i < old(self).cabinet_entries().len() && #[trigger] old(self).cabinet_entries()[i].conflicts_spec(&info);
                lemma_id_multiset_has(old(self).cabinet_entries(), i);
                assert(old(self).package_ids().count(x) > 0);
            }
        }
        let r = register_and_add(&mut self.identifiers, &mut self.cabinets, info);
        proof {
            lemma_id_multiset_push(old(self).cabinet_entries(), info);
            lemma_push_keeps_conflict_free(old(self).cabinet_entries(), info);
            assert(self.package_ids() =~= old(self).package_ids().insert(x));
            assert forall|i: int| 0 <= i < self.media_entries().len() implies ((#[trigger] self.media_entries()[i]).cabinet matches Some(c)
                && cabinet_index(self.cabinet_entries(), c@) is Some) by {
                let c = self.media_entries()[i].cabinet.unwrap();
                lemma_cabinet_index(old(self).cabinet_entries(), c@);
                lemma_cabinet_index(self.cabinet_entries(), c@);
                let j = cabinet_index(old(self).cabinet_entries(), c@).unwrap();
                assert(self.cabinet_entries()[j] == old(self).cabinet_entries()[j]);
            }
            lemma_register_keeps_wf(*old(self), *self, x, true);
            assert(self.cabinet_entries().drop_last() =~= old(self).cabinet_entries());
        }
        id
    }

    /// Puts a file into the cabinet of the last disk, creating the first
    /// disk and its cabinet when there is no disk yet, and makes the number
    /// of files in that cabinet the last sequence number of the disk. Returns
    /// that number, the sequence number of the file. Fails with
    /// `SequenceOverflow` when it would exceed 32767; the file then stays in
    /// the cabinet.
    fn add_to_media(&mut self, file_id: FileIdentifier, file_path: String) -> (r: Result<i16, MsiBuilderError>)
        requires
            old(self).wf(),
        ensures
            final(self).wf(),
            r is Ok <==> last_media_cabinet_files(&*old(self)).len() + 1 <= LAST_SEQUENCE_MAX,
            r matches Err(e) ==> e is SequenceOverflow,
            last_media_cabinet_files(&*final(self)) == last_media_cabinet_files(&*old(self)).push(
                CabinetFile { id: file_id, path: file_path },
            ),
            r matches Ok(n) ==> n == last_media_cabinet_files(&*final(self)).len()
                && final(self).media_entries().last().last_sequence == n,
            final(self).media_entries().len() > 0,
            old(self).media_entries().len() > 0 ==> final(self).media_entries().len() == old(self).media_entries().len(),
            old(self).media_entries().len() > 0 ==> final(self).media_entries().drop_last() == old(self).media_entries().drop_last()
                && final(self).media_entries().last().disk_id == old(self).media_entries().last().disk_id,
            old(self).media_entries().len() == 0 ==> final(self).media_entries().len() == 1
                && final(self).media_entries()[0].disk_id == 1,
            old(self).media_entries().len() > 0 ==> final(self).registered_ids() == old(self).registered_ids(),
            old(self).media_entries().len() == 0 ==> exists|c: Seq<char>|
                is_first_free(old(self).registered_ids(), "CABINET_"@, c) && final(self).registered_ids()
                    == old(self).registered_ids().push(c),
            same_except(&*old(self), &*final(self), set![Part::Identifiers, Part::Cabinets, Part::Media]),
    {
        if self.media.is_empty() {
            let cabinet_id = self.new_cabinet();
            let ghost c = cabinet_id@;
            let dao = match MediaDao::internal(1, cabinet_id) {
                Ok(d) => d,
                Err(e) => {
                    return Err(e);
                },
            };
            proof {
                lemma_cabinet_index(self.cabinet_entries(), c);
                let last = self.cabinet_entries().len() - 1;
                assert(self.cabinet_entries()[last].id@ == c);
                assert(!any_conflict(self.media_entries(), dao));
            }
            let added = self.add_to_tables(Dao::Media(dao));
            match added {
                Ok(()) => {},
                Err(e) => {
                    return Err(e);
                },
            }
            proof {
                assert(self.media_entries() =~= seq![dao]);
                let cabs = self.cabinet_entries();
                let last = cabs.len() - 1;
                assert forall|k: int| 0 <= k < last implies (#[trigger] cabs[k]).id@ != c by {
                    assert(cabs[k] == old(self).cabinet_entries()[k]);
                    if cabs[k].id@ == c {
                        lemma_id_multiset_has(old(self).cabinet_entries(), k);
                        assert(old(self).package_ids().count(c) > 0);
                    }
                }
                lemma_cabinet_index(cabs, c);
                assert(cabinet_index(cabs, c) == Some(last));
                assert(last_media_cabinet_files(&*self).len() == 0);
            }
        }
        let ghost mid = *self;
        let ghost files_before = last_media_cabinet_files(&mid);
        proof {
            assert(files_before =~= last_media_cabinet_files(&*old(self)));
            let last = self.media_entries().len() - 1;
            assert(self.media_entries()[last] == self.media_entries().last());
            assert(MediaTable::last_internal_index(self.media_entries()) == Some(last));
        }
        let cabinet_id = match self.media.get_last_internal_media_mut() {
            Some(m) => match m.cabinet_id() {
                Some(c) => c.clone(),
                None => {
                    return Err(MsiBuilderError::EntryConflict);
                },
            },
            None => {
                return Err(MsiBuilderError::EntryConflict);
            },
        };
        assert(self.media_entries() == mid.media_entries());
        let ghost ci = cabinet_index(self.cabinet_entries(), cabinet_id@).unwrap();
        let count = match self.cabinets.add_file(cabinet_id.as_str(), file_id, file_path) {
            Some(n) => n,
            None => {
                return Err(MsiBuilderError::EntryConflict);
            },
        };
        proof {
            assert(files_before == mid.cabinet_entries()[ci].files@);
            assert(count == files_before.len() + 1);
            lemma_id_multiset_same_keys(self.cabinet_entries(), mid.cabinet_entries());
            assert(self.package_ids() =~= mid.package_ids());
            assert forall|i: int, j: int| 0 <= i < j < self.cabinet_entries().len() implies !#[trigger] self.cabinet_entries()[i].conflicts_spec(
                &#[trigger] self.cabinet_entries()[j],
            ) by {
                assert(self.cabinet_entries()[i].id == mid.cabinet_entries()[i].id);
                assert(self.cabinet_entries()[j].id == mid.cabinet_entries()[j].id);
                assert(!mid.cabinet_entries()[i].conflicts_spec(&mid.cabinet_entries()[j]));
            }
            assert forall|id: Seq<char>| #![auto] cabinet_index(self.cabinet_entries(), id) == cabinet_index(mid.cabinet_entries(), id) by {
                lemma_cabinet_index(self.cabinet_entries(), id);
                lemma_cabinet_index(mid.cabinet_entries(), id);
                assert forall|k: int| 0 <= k < self.cabinet_entries().len() implies (#[trigger] self.cabinet_entries()[k]).id@
                    == mid.cabinet_entries()[k].id@ by {
                    if k != ci {
                        assert(self.cabinet_entries()[k] == mid.cabinet_entries()[k]);
                    }
                }
                match cabinet_index(self.cabinet_entries(), id) {
                    Some(a) => match cabinet_index(mid.cabinet_entries(), id) {
                        Some(b) => {
                            if a < b {
                                assert(mid.cabinet_entries()[a].id@ == id);
                            } else if b < a {
                                assert(self.cabinet_entries()[b].id@ == id);
                            }
                        },
                        None => {
                            assert(mid.cabinet_entries()[a].id@ == id);
                        },
                    },
                    None => match cabinet_index(mid.cabinet_entries(), id) {
                        Some(b) => {
                            assert(self.cabinet_entries()[b].id@ == id);
                        },
                        None => {},
                    },
                }
            }
        }
        let ghost before_seq = *self;
        let r = match self.media.get_last_internal_media_mut() {
            Some(m) => m.set_last_sequence(count),
            None => Err(MsiBuilderError::EntryConflict),
        };
        proof {
            let last = self.media_entries().len() - 1;
            assert(self.media_entries().len() == before_seq.media_entries().len());
            assert forall|k: int| 0 <= k < self.media_entries().len() && k != last implies #[trigger] self.media_entries()[k]
                == before_seq.media_entries()[k] by {}
            assert(self.media_entries()[last].cabinet == before_seq.media_entries()[last].cabinet);
            assert(self.media_entries()[last].disk_id == before_seq.media_entries()[last].disk_id);
            assert(self.media_entries().drop_last() =~= before_seq.media_entries().drop_last());
            assert forall|i: int, j: int| 0 <= i < j < self.media_entries().len() implies !#[trigger] self.media_entries()[i].conflicts_spec(
                &#[trigger] self.media_entries()[j],
            ) by {
                assert(self.media_entries()[i].disk_id == before_seq.media_entries()[i].disk_id);
                assert(self.media_entries()[j].disk_id == before_seq.media_entries()[j].disk_id);
                assert(!before_seq.media_entries()[i].conflicts_spec(&before_seq.media_entries()[j]));
            }
            assert forall|i: int| 0 <= i < self.media_entries().len() implies ((#[trigger] self.media_entries()[i]).cabinet matches Some(c)
                && cabinet_index(self.cabinet_entries(), c@) is Some) by {
                assert(self.media_entries()[i].cabinet == before_seq.media_entries()[i].cabinet);
                assert(before_seq.media_entries()[i].cabinet == mid.media_entries()[i].cabinet);
            }
            assert(self.package_ids() == before_seq.package_ids());
            lemma_cabinet_index(mid.cabinet_entries(), cabinet_id@);
            assert(last_media_cabinet_files(&*self) =~= files_before.push(CabinetFile { id: file_id, path: file_path }));
        }
        r
    }

    /// Links the component keyed `component_id` to the default feature.
    /// Fails with `NoDefaultFeature` when the Feature table lacks it, and
    /// with `EntryConflict` when the link exists already.
    fn add_to_default_feature(&mut self, component_id: &ComponentIdentifier) -> (r: Result<(), MsiBuilderError>)
        requires
            old(self).wf(),
            old(self).registered_ids().contains(component_id@),
        ensures
            final(self).wf(),
            r is Ok <==> !exists|i: int|
                0 <= i < old(self).feature_components_entries().len()
                    && (#[trigger] old(self).feature_components_entries()[i]).feature@ == default_feature_name()
                    && old(self).feature_components_entries()[i].component@ == component_id@,
            r matches Err(e) ==> e is EntryConflict,
            r is Ok ==> final(self).feature_components_entries().len() == old(self).feature_components_entries().len() + 1
                && final(self).feature_components_entries().drop_last() == old(self).feature_components_entries()
                && final(self).feature_components_entries().last().feature@ == default_feature_name()
                && final(self).feature_components_entries().last().component@ == component_id@,
            r is Err ==> final(self).feature_components_entries() == old(self).feature_components_entries(),
            same_except(&*old(self), &*final(self), set![Part::FeatureComponents]),
    {
        let default = match self.feature.get_default_feature() {
            Some(d) => d.feature.clone(),
            None => {
                return Err(MsiBuilderError::NoDefaultFeature);
            },
        };
        self.add_component_to_feature(&default, component_id)
    }

    /// Links the component keyed `component_id` to the feature keyed
    /// `feature_id`, unless the link exists already.
    fn add_component_to_feature(&mut self, feature_id: &FeatureIdentifier, component_id: &ComponentIdentifier) -> (r: Result<
        (),
        MsiBuilderError,
    >)
        requires
            old(self).wf(),
            old(self).registered_ids().contains(component_id@),
        ensures
            final(self).wf(),
            r is Ok <==> !exists|i: int|
                0 <= i < old(self).feature_components_entries().len()
                    && (#[trigger] old(self).feature_components_entries()[i]).feature@ == feature_id@
                    && old(self).feature_components_entries()[i].component@ == component_id@,
            r matches Err(e) ==> e is EntryConflict,
            r is Ok ==> final(self).feature_components_entries().len() == old(self).feature_components_entries().len() + 1
                && final(self).feature_components_entries().drop_last() == old(self).feature_components_entries()
                && final(self).feature_components_entries().last().feature@ == feature_id@
                && final(self).feature_components_entries().last().component@ == component_id@,
            r is Err ==> final(self).feature_components_entries() == old(self).feature_components_entries(),
            same_except(&*old(self), &*final(self), set![Part::FeatureComponents]),
    {
        let dao = FeatureComponentsDao::new(feature_id.clone(), component_id.clone());
        let r = self.add_to_tables(Dao::FeatureComponents(dao));
        proof {
            if r is Ok {
                assert(self.feature_components_entries().drop_last() =~= old(self).feature_components_entries());
                assert forall|i: int| 0 <= i < old(self).feature_components_entries().len() implies !(
                    (#[trigger] old(self).feature_components_entries()[i]).feature@ == feature_id@
                    && old(self).feature_components_entries()[i].component@ == component_id@) by {
                    if old(self).feature_components_entries()[i].feature@ == feature_id@
                        && old(self).feature_components_entries()[i].component@ == component_id@ {
                        assert(old(self).feature_components_entries()[i].conflicts_spec(&dao));
                    }
                }
            } else {
                let i = choose|i: int| 0 <= i < old(self).feature_components_entries().len()
                    && #[trigger] old(self).feature_components_entries()[i].conflicts_spec(&dao);
                assert(old(self).feature_components_entries()[i].feature@ == feature_id@);
            }
        }
        r
    }
}

/// A file to be installed, as found on disk: where its contents are read
/// from, the name it is installed under, its size in bytes, and its hash.
pub struct SourceFile {
    pub path: String,
    pub name: Filename,
    pub size: i32,
    pub hash: (i32, i32, i32, i32),
}

/// The actions that adding a file schedules.
pub open spec fn file_actions() -> Seq<StandardAction> {
    seq![StandardAction::RemoveFiles, StandardAction::InstallFiles]
}

/// What adding the file `source` into the directory keyed `parent` did to
/// `b`, giving `b2`, when the file got the key `fid` and its component the
/// key `cid`: one entry each in the File, Component, MsiFileHash and
/// FeatureComponents tables, the file in the cabinet of the last disk, whose
/// last sequence number became the file's sequence number (the first disk,
/// number 1, is created when there is none; no other disk is added and the
/// disks keep their numbers), and the file actions scheduled.
pub open spec fn file_added(b: &MsiBuilder, b2: &MsiBuilder, source: SourceFile, parent: Seq<char>, fid: Seq<char>, cid: Seq<char>) -> bool {
    let sequence = last_media_cabinet_files(b).len() + 1;
    let files = b2.file_entries();
    let components = b2.component_entries();
    let hashes = b2.msi_file_hash_entries();
    let links = b2.feature_components_entries();
    let cabinet = last_media_cabinet_files(b2);
    &&& is_first_free(b.registered_ids(), "FILE_"@, fid)
    &&& is_first_free(b.registered_ids(), "COMPONENT_"@, cid)
    &&& files.len() == b.file_entries().len() + 1 && files.drop_last() == b.file_entries()
    &&& files.last().file@ == fid && files.last().component@ == cid && files.last().name == source.name
    &&& files.last().size == source.size && files.last().sequence == sequence
    &&& files.last().version is None && files.last().language is None && files.last().attributes is None
    &&& components.len() == b.component_entries().len() + 1 && components.drop_last() == b.component_entries()
    &&& components.last().component@ == cid && components.last().directory@ == parent
    &&& (components.last().key_path matches Some(k) && k@ == fid)
    &&& components.last().component_id is None && components.last().condition is None
    &&& components.last().attributes.bits == 0
    &&& hashes.len() == b.msi_file_hash_entries().len() + 1 && hashes.drop_last() == b.msi_file_hash_entries()
    &&& hashes.last().file@ == fid && hashes.last().options == 0
    &&& hashes.last().hash_part1 == source.hash.0 && hashes.last().hash_part2 == source.hash.1
    &&& hashes.last().hash_part3 == source.hash.2 && hashes.last().hash_part4 == source.hash.3
    &&& links.len() == b.feature_components_entries().len() + 1 && links.drop_last() == b.feature_components_entries()
    &&& links.last().feature@ == default_feature_name() && links.last().component@ == cid
    &&& cabinet.len() == last_media_cabinet_files(b).len() + 1 && cabinet.drop_last() == last_media_cabinet_files(b)
    &&& cabinet.last().id@ == fid && cabinet.last().path == source.path
    &&& b2.media_entries().last().last_sequence == sequence
    &&& b.media_entries().len() > 0 ==> b2.media_entries().len() == b.media_entries().len()
    &&& b.media_entries().len() > 0 ==> b2.media_entries().drop_last() == b.media_entries().drop_last()
        && b2.media_entries().last().disk_id == b.media_entries().last().disk_id
    &&& b.media_entries().len() == 0 ==> b2.media_entries().len() == 1 && b2.media_entries()[0].disk_id == 1
    &&& b2.install_execute_sequence_entries() == add_all_result(b.install_execute_sequence_entries(), scheduled_all(file_actions())).0
    &&& b.media_entries().len() > 0 ==> b2.registered_ids() == b.registered_ids().push(fid).push(cid)
    &&& b.media_entries().len() == 0 ==> exists|c: Seq<char>|
        is_first_free(b.registered_ids(), "CABINET_"@, c) && b2.registered_ids() == b.registered_ids().push(c).push(fid).push(cid)
    &&& same_except(
        b,
        b2,
        set![
            Part::Identifiers,
            Part::Cabinets,
            Part::Media,
            Part::File,
            Part::Component,
            Part::MsiFileHash,
            Part::FeatureComponents,
            Part::InstallExecuteSequence,
        ],
    )
}

impl MsiBuilder {
    /// Adds a file to be installed into the directory keyed `parent_id`: a
    /// File entry under a fresh key `_FILE_<n>`, a Component entry under a
    /// fresh key `_COMPONENT_<m>` that installs into that directory with the
    /// file as its key path, the file's hash, the component's link to the
    /// default feature, and the file in the cabinet of the last disk (the
    /// first disk and cabinet are created when there is none). The file's
    /// sequence number is the number of files in that cabinet. Fails with
    /// `SequenceOverflow` when that number would exceed 32767; the file then
    /// stays in the cabinet, under its fresh key, and no entry is added.
    pub fn add_file_path(&mut self, source: SourceFile, parent_id: DirectoryIdentifier) -> (r: Result<(), MsiBuilderError>)
        requires
            old(self).wf(),
        ensures
            final(self).wf(),
            r is Ok <==> last_media_cabinet_files(&*old(self)).len() + 1 <= LAST_SEQUENCE_MAX,
            r matches Err(e) ==> e is SequenceOverflow,
            r is Err ==> {
                let files = last_media_cabinet_files(&*final(self));
                &&& same_except(&*old(self), &*final(self), set![Part::Identifiers, Part::Cabinets, Part::Media])
                &&& files.len() > 0 && files.drop_last() == last_media_cabinet_files(&*old(self))
                &&& files.last().path == source.path
                &&& is_first_free(old(self).registered_ids(), "FILE_"@, files.last().id@)
            },
            r is Ok ==> exists|fid: Seq<char>, cid: Seq<char>|
                file_added(&*old(self), &*final(self), source, parent_id@, fid, cid),
    {
        proof {
            reveal_strlit("FILE_");
            reveal_strlit("COMPONENT_");
            reveal_strlit("CABINET_");
        }
        let ghost b0 = *self;
        let ghost src = source;
        let file_id = generate_id(&self.identifiers, "FILE_");
        let component_id = generate_id(&self.identifiers, "COMPONENT_");
        let ghost fid = file_id@;
        let ghost cid = component_id@;
        proof {
            lemma_first_free_differ(b0.registered_ids(), "FILE_"@, fid, "COMPONENT_"@, cid, 0);
        }
        let SourceFile { path, name, size, hash } = source;
        let sequence = match self.add_to_media(file_id.clone(), path) {
            Ok(n) => n,
            Err(e) => {
                proof {
                    assert(last_media_cabinet_files(&*self).drop_last() =~= last_media_cabinet_files(&b0));
                }
                return Err(e);
            },
        };
        let ghost b1 = *self;
        proof {
            if b0.media_entries().len() == 0 {
                let c = choose|c: Seq<char>|
                    is_first_free(b0.registered_ids(), "CABINET_"@, c) && b1.registered_ids() == b0.registered_ids().push(c);
                lemma_first_free_differ(b0.registered_ids(), "FILE_"@, fid, "CABINET_"@, c, 0);
                lemma_first_free_differ(b0.registered_ids(), "COMPONENT_"@, cid, "CABINET_"@, c, 1);
            }
            assert(!b1.registered_ids().contains(fid));
            assert(!b1.registered_ids().contains(cid));
        }
        let file_dao = FileDao::install_file(file_id.clone(), component_id.clone(), name, size, sequence as i32);
        let component_dao = ComponentDao::new(component_id.clone(), parent_id).with_keypath(file_id.clone());
        let hash_dao = MsiFileHashDao::new(file_id, hash);
        proof {
            if any_conflict(b1.file_entries(), file_dao) {
                let i = choose|i: int| 0 <= i < b1.file_entries().len() && #[trigger] b1.file_entries()[i].conflicts_spec(&file_dao);
                lemma_id_multiset_has(b1.file_entries(), i);
                assert(b1.package_ids().count(fid) > 0);
            }
        }
        match self.add_to_tables(Dao::File(file_dao)) {
            Ok(()) => {},
            Err(e) => {
                return Err(e);
            },
        }
        let ghost b2 = *self;
        proof {
            assert(b2.registered_ids().contains(fid)) by {
                assert(b2.registered_ids()[b1.registered_ids().len() as int] == fid);
            }
            if any_conflict(b2.msi_file_hash_entries(), hash_dao) {
                let i = choose|i: int| 0 <= i < b2.msi_file_hash_entries().len()
                    && #[trigger] b2.msi_file_hash_entries()[i].conflicts_spec(&hash_dao);
                assert(b0.msi_file_hash_entries()[i] == b2.msi_file_hash_entries()[i]);
                assert(b0.registered_ids().contains(fid));
            }
        }
        match self.add_to_tables(Dao::MsiFileHash(hash_dao)) {
            Ok(()) => {},
            Err(e) => {
                return Err(e);
            },
        }
        let ghost b3 = *self;
        proof {
            assert(!b3.registered_ids().contains(cid)) by {
                if b3.registered_ids().contains(cid) {
                    let i = choose|i: int| 0 <= i < b3.registered_ids().len() && b3.registered_ids()[i] == cid;
                    if i < b1.registered_ids().len() {
                        assert(b1.registered_ids()[i] == cid);
                    }
                }
            }
        }
        proof {
            if any_conflict(b3.component_entries(), component_dao) {
                let i = choose|i: int| 0 <= i < b3.component_entries().len() && #[trigger] b3.component_entries()[i].conflicts_spec(&component_dao);
                lemma_id_multiset_has(b3.component_entries(), i);
                assert(b3.package_ids().count(cid) > 0);
            }
        }
        match self.add_to_tables(Dao::Component(component_dao)) {
            Ok(()) => {},
            Err(e) => {
                return Err(e);
            },
        }
        let ghost b4 = *self;
        proof {
            assert(b4.registered_ids().contains(cid)) by {
                assert(b4.registered_ids()[b3.registered_ids().len() as int] == cid);
            }
            assert forall|i: int| 0 <= i < b4.feature_components_entries().len() implies !(
                (#[trigger] b4.feature_components_entries()[i]).feature@ == default_feature_name()
                && b4.feature_components_entries()[i].component@ == cid) by {
                assert(b0.feature_components_entries()[i] == b4.feature_components_entries()[i]);
                if b4.feature_components_entries()[i].component@ == cid {
                    assert(b0.registered_ids().contains(cid));
                }
            }
        }
        match self.add_to_default_feature(&component_id) {
            Ok(()) => {},
            Err(e) => {
                return Err(e);
            },
        }
        self.add_file_actions();
        proof {
            assert(self.file_entries().drop_last() =~= b0.file_entries());
            assert(self.component_entries().drop_last() =~= b0.component_entries());
            assert(self.msi_file_hash_entries().drop_last() =~= b0.msi_file_hash_entries());
            assert(last_media_cabinet_files(&*self).drop_last() =~= last_media_cabinet_files(&b0));
            assert(file_added(&b0, &*self, src, parent_id@, fid, cid));
        }
        Ok(())
    }

    /// The builder with a file added as by `add_file_path`.
    pub fn with_file_path(self, source: SourceFile, parent_id: DirectoryIdentifier) -> (r: Result<MsiBuilder, MsiBuilderError>)
        requires
            self.wf(),
        ensures
            r is Ok <==> last_media_cabinet_files(&self).len() + 1 <= LAST_SEQUENCE_MAX,
            r matches Err(e) ==> e is SequenceOverflow,
            r matches Ok(b) ==> b.wf() && exists|fid: Seq<char>, cid: Seq<char>| file_added(&self, &b, source, parent_id@, fid, cid),
    {
        let mut b = self;
        match b.add_file_path(source, parent_id) {
            Ok(()) => Ok(b),
            Err(e) => Err(e),
        }
    }

    /// Schedules the actions that remove and install files, each unless it
    /// is scheduled already.
    fn add_file_actions(&mut self)
        requires
            old(self).wf(),
        ensures
            final(self).wf(),
            final(self).install_execute_sequence_entries() == add_all_result(
                old(self).install_execute_sequence_entries(),
                scheduled_all(file_actions()),
            ).0,
            same_except(&*old(self), &*final(self), set![Part::InstallExecuteSequence]),
    {
        let actions = vec![StandardAction::RemoveFiles, StandardAction::InstallFiles];
        assert(actions@ =~= file_actions());
        self.schedule(&actions);
    }
}

/// The actions that adding a service schedules.
pub open spec fn service_actions() -> Seq<StandardAction> {
    seq![
        StandardAction::StopServices,
        StandardAction::DeleteServices,
        StandardAction::InstallServices,
        StandardAction::StartServices,
    ]
}

/// The actions that adding a shortcut schedules.
pub open spec fn shortcut_actions() -> Seq<StandardAction> {
    seq![StandardAction::RemoveShortcuts, StandardAction::CreateShortcuts]
}

/// What installing the service named `name` did to `b`, giving `b2`, when
/// the service got the key `sid` and its component the key `cid`.
pub open spec fn service_installed(
    b: &MsiBuilder,
    b2: &MsiBuilder,
    name: Formatted,
    service_type: ServiceType,
    start_type: StartType,
    error_control: ErrorControl,
    file_id: Seq<char>,
    directory_id: Seq<char>,
    sid: Seq<char>,
    cid: Seq<char>,
) -> bool {
    let components = b2.component_entries();
    let services = b2.service_install_entries();
    let links = b2.feature_components_entries();
    &&& is_first_free(b.registered_ids(), "SERVICEINST_"@, sid)
    &&& is_first_free(b.registered_ids(), "COMPONENT_"@, cid)
    &&& b2.registered_ids() == b.registered_ids().push(cid).push(sid)
    &&& components.len() == b.component_entries().len() + 1
    &&& components.drop_last() == b.component_entries()
    &&& components.last().component@ == cid && components.last().directory@ == directory_id
    &&& (components.last().key_path matches Some(k) && k@ == file_id)
    &&& links.len() == b.feature_components_entries().len() + 1
    &&& links.drop_last() == b.feature_components_entries()
    &&& links.last().feature@ == default_feature_name() && links.last().component@ == cid
    &&& services.len() == b.service_install_entries().len() + 1
    &&& services.drop_last() == b.service_install_entries()
    &&& services.last().identifier@ == sid && services.last().name == name
    &&& services.last().service_type == service_type && services.last().start_type == start_type
    &&& services.last().error_control == error_control && services.last().component_@ == cid
    &&& b2.install_execute_sequence_entries() == add_all_result(
        b.install_execute_sequence_entries(),
        scheduled_all(service_actions()),
    ).0
    &&& same_except(
        b,
        b2,
        set![
            Part::Identifiers,
            Part::Component,
            Part::FeatureComponents,
            Part::ServiceInstall,
            Part::InstallExecuteSequence,
        ],
    )
            }

/// What installing the service named `name` did to `b`, giving `b2`, when
/// the service got the key `sid`: `service_installed` for the key its
/// component got.
pub open spec fn service_install_outcome(
    b: &MsiBuilder,
    b2: &MsiBuilder,
    name: Formatted,
    service_type: ServiceType,
    start_type: StartType,
    error_control: ErrorControl,
    file_id: Seq<char>,
    directory_id: Seq<char>,
    sid: Seq<char>,
) -> bool {
    exists|cid: Seq<char>|
        service_installed(b, b2, name, service_type, start_type, error_control, file_id, directory_id, sid, cid)
}

impl MsiBuilder {
    /// The builder with the given information about the whole package.
    pub fn with_meta(self, meta: MetaInformation) -> (r: MsiBuilder)
        requires
            self.wf(),
        ensures
            r.wf(),
            r.meta_spec() == Some(meta),
            same_except(&self, &r, set![Part::Meta]),
    {
        let mut b = self;
        b.meta = Some(meta);
        proof {
            assert(b.package_ids() =~= self.package_ids());
            assert(b.feature_entries() == self.feature_entries());
        }
        b
    }

    /// Replaces the information about the whole package.
    pub fn set_meta(&mut self, meta: Option<MetaInformation>)
        requires
            old(self).wf(),
        ensures
            final(self).wf(),
            final(self).meta_spec() == meta,
            same_except(&*old(self), &*final(self), set![Part::Meta]),
    {
        self.meta = meta;
        proof {
            assert(self.package_ids() =~= old(self).package_ids());
            assert(self.feature_entries() == old(self).feature_entries());
        }
    }

    /// Sets the property named `key` to `value`. Fails with
    /// `InvalidIdentifier` when `key` is not an identifier, else with
    /// `EmptyPropertyValue` when `value` is empty, else with `EntryConflict`
    /// when the property is set already; nothing changes then.
    pub fn add_property(&mut self, key: &str, value: &str) -> (r: Result<(), MsiBuilderError>)
        requires
            old(self).wf(),
        ensures
            final(self).wf(),
            r is Ok <==> valid_identifier(key@) && value@.len() > 0 && !exists|i: int|
                0 <= i < old(self).property_entries().len() && (#[trigger] old(self).property_entries()[i]).property@ == key@,
            r matches Err(e) ==> (if !valid_identifier(key@) {
                e is InvalidIdentifier
            } else if value@.len() == 0 {
                e is EmptyPropertyValue
            } else {
                e is EntryConflict
            }),
            r is Ok ==> final(self).property_entries().len() == old(self).property_entries().len() + 1
                && final(self).property_entries().drop_last() == old(self).property_entries()
                && final(self).property_entries().last().property@ == key@
                && final(self).property_entries().last().value@ == value@,
            r is Err ==> same_except(&*old(self), &*final(self), Set::empty()),
            same_except(&*old(self), &*final(self), set![Part::Property]),
    {
        let property = match Identifier::from_str(key) {
            Ok(p) => p,
            Err(e) => {
                return Err(e);
            },
        };
        let dao = match PropertyDao::new(property, crate::text::owned(value)) {
            Ok(d) => d,
            Err(e) => {
                return Err(e);
            },
        };
        let ghost before = *self;
        let r = self.add_to_tables(Dao::Property(dao));
        proof {
            if r is Ok {
                assert(self.property_entries().drop_last() =~= old(self).property_entries());
                assert forall|i: int| 0 <= i < old(self).property_entries().len() implies
                    (#[trigger] old(self).property_entries()[i]).property@ != key@ by {
                    if old(self).property_entries()[i].property@ == key@ {
                        assert(old(self).property_entries()[i].conflicts_spec(&dao));
                    }
                }
            } else {
                let i = choose|i: int| 0 <= i < old(self).property_entries().len()
                    && #[trigger] old(self).property_entries()[i].conflicts_spec(&dao);
                assert(old(self).property_entries()[i].property@ == key@);
                assert(self.property_entries() == before.property_entries());
                assert(self.registered_ids() == before.registered_ids());
            }
        }
        r
    }

    /// The builder with the property set as by `add_property`.
    pub fn with_property(self, key: &str, value: &str) -> (r: Result<MsiBuilder, MsiBuilderError>)
        requires
            self.wf(),
        ensures
            r is Ok <==> valid_identifier(key@) && value@.len() > 0 && !exists|i: int|
                0 <= i < self.property_entries().len() && (#[trigger] self.property_entries()[i]).property@ == key@,
            r matches Ok(b) ==> b.wf() && b.property_entries().drop_last() == self.property_entries()
                && b.property_entries().len() == self.property_entries().len() + 1
                && b.property_entries().last().property@ == key@ && b.property_entries().last().value@ == value@
                && same_except(&self, &b, set![Part::Property]),
    {
        let mut b = self;
        match b.add_property(key, value) {
            Ok(()) => Ok(b),
            Err(e) => Err(e),
        }
    }

    /// Adds an icon, read from `icon_path` when the package is built, under
    /// a fresh key `_ICON_<n>`, and returns the key.
    pub fn add_icon(&mut self, icon_path: &str) -> (r: Result<IconIdentifier, MsiBuilderError>)
        requires
            old(self).wf(),
        ensures
            final(self).wf(),
            r matches Ok(id) && {
                &&& is_first_free(old(self).registered_ids(), "ICON_"@, id@)
                &&& final(self).registered_ids() == old(self).registered_ids().push(id@)
                &&& final(self).icon_entries().len() == old(self).icon_entries().len() + 1
                &&& final(self).icon_entries().drop_last() == old(self).icon_entries()
                &&& final(self).icon_entries().last().name@ == id@
                &&& final(self).icon_infos().len() == old(self).icon_infos().len() + 1
                &&& final(self).icon_infos().drop_last() == old(self).icon_infos()
                &&& final(self).icon_infos().last().path@ == icon_path@
                &&& final(self).icon_infos().last().identifier@ == id@
                &&& same_except(&*old(self), &*final(self), set![Part::Identifiers, Part::Icon, Part::Icons])
            },
    {
        proof {
            reveal_strlit("ICON_");
        }
        let icon_id = generate_id(&self.identifiers, "ICON_");
        let dao = IconDao::new(icon_id.clone());
        proof {
            if any_conflict(self.icon_entries(), dao) {
                let i = choose|i: int| 0 <= i < self.icon_entries().len() && #[trigger] self.icon_entries()[i].conflicts_spec(&dao);
                lemma_id_multiset_has(self.icon_entries(), i);
                assert(self.package_ids().count(icon_id@) > 0);
            }
        }
        match self.add_to_tables(Dao::Icon(dao)) {
            Ok(()) => {},
            Err(e) => {
                return Err(e);
            },
        }
        let ghost b1 = *self;
        self.icon_information.push(IconInfo { path: crate::text::owned(icon_path), identifier: icon_id.clone() });
        proof {
            assert(self.package_ids() =~= b1.package_ids());
            assert(self.feature_entries() == b1.feature_entries());
            assert(self.icon_entries().drop_last() =~= old(self).icon_entries());
            assert(self.icon_infos().drop_last() =~= old(self).icon_infos());
        }
        Ok(icon_id)
    }

    /// Installs the service named `name`, run from the file keyed `file_id`:
    /// a component under a fresh key `_COMPONENT_<m>` installs into the
    /// directory keyed `directory_id` with the file as its key path and is
    /// linked to the default feature, and a ServiceInstall entry under a
    /// fresh key `_SERVICEINST_<n>` belongs to it. Returns the service's key.
    pub fn add_service_install(
        &mut self,
        name: Formatted,
        service_type: ServiceType,
        start_type: StartType,
        error_control: ErrorControl,
        file_id: FileIdentifier,
        directory_id: DirectoryIdentifier,
    ) -> (r: Result<ServiceInstallIdentifier, MsiBuilderError>)
        requires
            old(self).wf(),
        ensures
            final(self).wf(),
            r is Ok,
            r matches Ok(sid) ==> service_install_outcome(&*old(self), &*final(self), name, service_type, start_type, error_control, file_id@, directory_id@, sid@),
    {
        proof {
            reveal_strlit("SERVICEINST_");
            reveal_strlit("COMPONENT_");
        }
        let ghost b0 = *self;
        let ghost nm = name;
        let ghost fl = file_id@;
        let ghost dr = directory_id@;
        let service_id = generate_id(&self.identifiers, "SERVICEINST_");
        let component_id = generate_id(&self.identifiers, "COMPONENT_");
        let ghost sid = service_id@;
        let ghost cid = component_id@;
        proof {
            lemma_first_free_differ(b0.registered_ids(), "SERVICEINST_"@, sid, "COMPONENT_"@, cid, 0);
        }
        let component_dao = ComponentDao::new(component_id.clone(), directory_id).with_keypath(file_id);
        proof {
            if any_conflict(b0.component_entries(), component_dao) {
                let i = choose|i: int| 0 <= i < b0.component_entries().len() && #[trigger] b0.component_entries()[i].conflicts_spec(&component_dao);
                lemma_id_multiset_has(b0.component_entries(), i);
                assert(b0.package_ids().count(cid) > 0);
            }
        }
        match self.add_to_tables(Dao::Component(component_dao)) {
            Ok(()) => {},
            Err(e) => {
                return Err(e);
            },
        }
        let ghost b1 = *self;
        proof {
            assert(b1.registered_ids()[b0.registered_ids().len() as int] == cid);
            assert forall|i: int| 0 <= i < b1.feature_components_entries().len() implies !(
                (#[trigger] b1.feature_components_entries()[i]).feature@ == default_feature_name()
                && b1.feature_components_entries()[i].component@ == cid) by {
                if b1.feature_components_entries()[i].component@ == cid {
                    assert(b0.feature_components_entries()[i] == b1.feature_components_entries()[i]);
                    assert(b0.registered_ids().contains(cid));
                }
            }
        }
        match self.add_to_default_feature(&component_id) {
            Ok(()) => {},
            Err(e) => {
                return Err(e);
            },
        }
        let ghost b2 = *self;
        let service_dao = ServiceInstallDao::new(service_id.clone(), name, service_type, start_type, error_control, component_id);
        proof {
            assert(!b2.registered_ids().contains(sid)) by {
                if b2.registered_ids().contains(sid) {
                    let i = choose|i: int| 0 <= i < b2.registered_ids().len() && b2.registered_ids()[i] == sid;
                    if i < b0.registered_ids().len() {
                        assert(b0.registered_ids()[i] == sid);
                    }
                }
            }
            if any_conflict(b2.service_install_entries(), service_dao) {
                let i = choose|i: int| 0 <= i < b2.service_install_entries().len() && #[trigger] b2.service_install_entries()[i].conflicts_spec(&service_dao);
                lemma_id_multiset_has(b2.service_install_entries(), i);
                assert(b2.package_ids().count(sid) > 0);
            }
        }
        match self.add_to_tables(Dao::ServiceInstall(service_dao)) {
            Ok(()) => {},
            Err(e) => {
                return Err(e);
            },
        }
        self.add_service_actions();
        proof {
            assert(self.component_entries().drop_last() =~= b0.component_entries());
            assert(self.service_install_entries().drop_last() =~= b0.service_install_entries());
            assert(service_installed(&*old(self), &*self, nm, service_type, start_type, error_control, fl, dr, sid, cid));
            assert(nm == name);
            assert(fl == file_id@);
            assert(dr == directory_id@);
            assert(service_install_outcome(&*old(self), &*self, name, service_type, start_type, error_control, file_id@, directory_id@, service_id@));
        }
        Ok(service_id)
    }

    /// Controls the service keyed `service_install_id`: a ServiceControl
    /// entry under a fresh key `_SERVICECTRL_<n>` runs the operations `event`
    /// on the service named `name`, tied to the service's component. Fails
    /// with `ServiceInstallNotFound`, changing nothing, when no service has
    /// that key.
    pub fn add_service_control(
        &mut self,
        service_install_id: &ServiceInstallIdentifier,
        name: Formatted,
        event: Event,
        wait: bool,
    ) -> (r: Result<ServiceControlIdentifier, MsiBuilderError>)
        requires
            old(self).wf(),
        ensures
            final(self).wf(),
            r is Ok <==> exists|i: int|
                0 <= i < old(self).service_install_entries().len()
                    && (#[trigger] old(self).service_install_entries()[i]).identifier@ == service_install_id@,
            r matches Err(e) ==> e is ServiceInstallNotFound && *final(self) == *old(self),
            r matches Ok(id) ==> {
                let controls = final(self).service_control_entries();
                &&& is_first_free(old(self).registered_ids(), "SERVICECTRL_"@, id@)
                &&& final(self).registered_ids() == old(self).registered_ids().push(id@)
                &&& controls.len() == old(self).service_control_entries().len() + 1
                &&& controls.drop_last() == old(self).service_control_entries()
                &&& controls.last().service_control@ == id@ && controls.last().name == name
                &&& controls.last().event == event && controls.last().arguments is None
                &&& controls.last().wait == (if wait { Some(1i16) } else { None })
                &&& exists|i: int|
                    0 <= i < old(self).service_install_entries().len()
                        && (#[trigger] old(self).service_install_entries()[i]).identifier@ == service_install_id@
                        && controls.last().component_@ == old(self).service_install_entries()[i].component_@
                &&& final(self).install_execute_sequence_entries() == add_all_result(
                    old(self).install_execute_sequence_entries(),
                    scheduled_all(service_actions()),
                ).0
                &&& same_except(
                    &*old(self),
                    &*final(self),
                    set![Part::Identifiers, Part::ServiceControl, Part::InstallExecuteSequence],
                )
            },
    {
        let component_id = match self.service_install.entry_with_id(service_install_id) {
            Some(s) => s.component_.clone(),
            None => {
                return Err(MsiBuilderError::ServiceInstallNotFound);
            },
        };
        proof {
            reveal_strlit("SERVICECTRL_");
        }
        let control_id = generate_id(&self.identifiers, "SERVICECTRL_");
        let dao = ServiceControlDao::new(control_id.clone(), name, event, wait, component_id);
        proof {
            if any_conflict(self.service_control_entries(), dao) {
                let i = choose|i: int| 0 <= i < self.service_control_entries().len() && #[trigger] self.service_control_entries()[i].conflicts_spec(&dao);
                lemma_id_multiset_has(self.service_control_entries(), i);
                assert(self.package_ids().count(control_id@) > 0);
            }
        }
        match self.add_to_tables(Dao::ServiceControl(dao)) {
            Ok(()) => {},
            Err(e) => {
                return Err(e);
            },
        }
        self.add_service_actions();
        proof {
            assert(self.service_control_entries().drop_last() =~= old(self).service_control_entries());
        }
        Ok(control_id)
    }

    /// Sets the permission `permission` of `user` on `lock_object`. Fails
    /// with `EntryConflict`, changing nothing, when that user has a
    /// permission on that object already.
    pub fn add_lock_permissions(&mut self, lock_object: LockObject, user: Formatted, permission: LockPermissions) -> (r: Result<
        (),
        MsiBuilderError,
    >)
        requires
            old(self).wf(),
        ensures
            final(self).wf(),
            r is Ok <==> !exists|i: int|
                0 <= i < old(self).lock_permissions_entries().len()
                    && same_lock_object((#[trigger] old(self).lock_permissions_entries()[i]).lock_object, lock_object)
                    && old(self).lock_permissions_entries()[i].domain is None
                    && old(self).lock_permissions_entries()[i].user@ == user@,
            r matches Err(e) ==> e is EntryConflict,
            r is Ok ==> final(self).lock_permissions_entries().len() == old(self).lock_permissions_entries().len() + 1
                && final(self).lock_permissions_entries().drop_last() == old(self).lock_permissions_entries()
                && final(self).lock_permissions_entries().last().lock_object == lock_object
                && final(self).lock_permissions_entries().last().user == user
                && final(self).lock_permissions_entries().last().permission == permission
                && final(self).lock_permissions_entries().last().domain is None,
            r is Err ==> final(self).lock_permissions_entries() == old(self).lock_permissions_entries(),
            same_except(&*old(self), &*final(self), set![Part::LockPermissions]),
    {
        let dao = LockPermissionsDao::new(lock_object, user, permission);
        let r = self.add_to_tables(Dao::LockPermissions(dao));
        proof {
            if r is Ok {
                assert(self.lock_permissions_entries().drop_last() =~= old(self).lock_permissions_entries());
                assert forall|i: int| 0 <= i < old(self).lock_permissions_entries().len() implies !(
                    same_lock_object((#[trigger] old(self).lock_permissions_entries()[i]).lock_object, lock_object)
                    && old(self).lock_permissions_entries()[i].domain is None
                    && old(self).lock_permissions_entries()[i].user@ == user@) by {
                    if same_lock_object(old(self).lock_permissions_entries()[i].lock_object, lock_object)
                        && old(self).lock_permissions_entries()[i].domain is None
                        && old(self).lock_permissions_entries()[i].user@ == user@ {
                        assert(old(self).lock_permissions_entries()[i].conflicts_spec(&dao));
                    }
                }
            } else {
                let i = choose|i: int| 0 <= i < old(self).lock_permissions_entries().len()
                    && #[trigger] old(self).lock_permissions_entries()[i].conflicts_spec(&dao);
                assert(same_lock_object(old(self).lock_permissions_entries()[i].lock_object, lock_object));
            }
        }
        r
    }

    /// Schedules the actions that stop, delete, install and start services,
    /// each unless it is scheduled already.
    fn add_service_actions(&mut self)
        requires
            old(self).wf(),
        ensures
            final(self).wf(),
            final(self).install_execute_sequence_entries() == add_all_result(
                old(self).install_execute_sequence_entries(),
                scheduled_all(service_actions()),
            ).0,
            same_except(&*old(self), &*final(self), set![Part::InstallExecuteSequence]),
    {
        let actions = vec![
            StandardAction::StopServices,
            StandardAction::DeleteServices,
            StandardAction::InstallServices,
            StandardAction::StartServices,
        ];
        assert(actions@ =~= service_actions());
        self.schedule(&actions);
    }

    /// Schedules the actions that remove and create shortcuts, each unless
    /// it is scheduled already.
    fn add_shortcut_actions(&mut self)
        requires
            old(self).wf(),
        ensures
            final(self).wf(),
            final(self).install_execute_sequence_entries() == add_all_result(
                old(self).install_execute_sequence_entries(),
                scheduled_all(shortcut_actions()),
            ).0,
            same_except(&*old(self), &*final(self), set![Part::InstallExecuteSequence]),
    {
        let actions = vec![StandardAction::RemoveShortcuts, StandardAction::CreateShortcuts];
        assert(actions@ =~= shortcut_actions());
        self.schedule(&actions);
    }
}

/// The position of the first element of `s` that satisfies `p`.
#[verifier::opaque]
pub open spec fn first_index<A>(s: Seq<A>, p: spec_fn(A) -> bool) -> Option<int> {
    if exists|i: int| 0 <= i < s.len() && #[trigger] p(s[i]) {
        Some(choose|i: int| 0 <= i < s.len() && p(s[i]) && forall|k: int| 0 <= k < i ==> !#[trigger] p(s[k]))
    } else {
        None
    }
}

/// The first element that satisfies `p` is found where it stands.
pub proof fn lemma_first_index<A>(s: Seq<A>, p: spec_fn(A) -> bool, i: int)
    requires
        0 <= i < s.len(),
        p(s[i]),
        forall|k: int| 0 <= k < i ==> !#[trigger] p(s[k]),
    ensures
        first_index(s, p) == Some(i),
{
    reveal(first_index);
    let j = choose|j: int| 0 <= j < s.len() && p(s[j]) && forall|k: int| 0 <= k < j ==> !#[trigger] p(s[k]);
    assert(0 <= j < s.len() && p(s[j]) && forall|k: int| 0 <= k < j ==> !#[trigger] p(s[k]));
    if j < i {
        assert(!p(s[j]));
    } else if i < j {
        assert(!p(s[i]));
    }
}

/// When no element satisfies `p`, there is no first one.
pub proof fn lemma_first_index_none<A>(s: Seq<A>, p: spec_fn(A) -> bool)
    requires
        forall|k: int| 0 <= k < s.len() ==> !#[trigger] p(s[k]),
    ensures
        first_index(s, p) is None,
{
    reveal(first_index);
}

/// The files that a list of references points at.
pub open spec fn deref_files(s: Seq<&FileDao>) -> Seq<FileDao> {
    s.map_values(|f: &FileDao| *f)
}

/// The properties of the package, as (name, value) pairs.
pub open spec fn builder_properties(b: &MsiBuilder) -> Seq<(Seq<char>, Seq<char>)> {
    b.property_entries().map_values(|p: PropertyDao| (p.property@, p.value@))
}

/// Whether a directory's name is the file name `name`.
pub open spec fn has_directory_file_name(name: Seq<char>) -> spec_fn(DirectoryDao) -> bool {
    |d: DirectoryDao| d.default_dir is Filename && d.default_dir@ == name
}

/// Whether a component has the key `cid`.
pub open spec fn has_component_key(cid: Seq<char>) -> spec_fn(ComponentDao) -> bool {
    |c: ComponentDao| c.component@ == cid
}

/// Whether a file is named `name`.
pub open spec fn has_file_name(name: Seq<char>) -> spec_fn(FileDao) -> bool {
    |f: FileDao| f.name@ == name
}

/// The key of the first directory whose name is the file name `name`.
pub open spec fn directory_named(dirs: Seq<DirectoryDao>, name: Seq<char>) -> Option<Seq<char>> {
    match first_index(dirs, has_directory_file_name(name)) {
        Some(i) => Some(dirs[i].directory@),
        None => None,
    }
}

/// The key of the directory that a resolved path component names: a system
/// folder's own key, or else the key of the first directory with that file
/// name.
pub open spec fn directory_for_name(b: &MsiBuilder, name: Seq<char>) -> Option<Seq<char>> {
    match parse_folder(name) {
        Some(f) => Some(folder_name(f)),
        None => if valid_filename(name) {
            directory_named(b.directory_entries(), name)
        } else {
            None
        },
    }
}

/// The key of the directory that the path `path` names: the directory for
/// the last value of its last component.
pub open spec fn directory_id_of_path(b: &MsiBuilder, path: Seq<char>) -> Option<Seq<char>> {
    match last_component_spec(builder_properties(b), path) {
        Some(name) => directory_for_name(b, name),
        None => None,
    }
}

/// The directory of the first component keyed `cid`.
pub open spec fn component_directory(components: Seq<ComponentDao>, cid: Seq<char>) -> Option<Seq<char>> {
    match first_index(components, has_component_key(cid)) {
        Some(i) => Some(components[i].directory@),
        None => None,
    }
}

/// Whether a file's component, the first with its component key among
/// `components`, installs into the directory keyed `d`.
pub open spec fn installs_into(components: Seq<ComponentDao>, d: Seq<char>) -> spec_fn(FileDao) -> bool {
    |f: FileDao| component_directory(components, f.component@) == Some(d)
}

/// The files whose component installs into the directory keyed `d`.
pub open spec fn files_in_directory(b: &MsiBuilder, d: Seq<char>) -> Seq<FileDao> {
    b.file_entries().filter(installs_into(b.component_entries(), d))
}

/// The key of the first of `files` named `name`.
pub open spec fn file_named(files: Seq<FileDao>, name: Seq<char>) -> Option<Seq<char>> {
    match first_index(files, has_file_name(name)) {
        Some(i) => Some(files[i].file@),
        None => None,
    }
}

/// The keys of the file that the path `path` names and of its directory:
/// the directory named by the component before the last, and in it the
/// first file named by the last component.
pub open spec fn ids_of_path(b: &MsiBuilder, path: Seq<char>) -> Option<(Seq<char>, Seq<char>)> {
    let components = path_components_spec(path);
    if components.len() < 2 {
        None
    } else {
        match resolved_last(builder_properties(b), components[components.len() - 2]) {
            None => None,
            Some(parent) => match directory_for_name(b, parent) {
                None => None,
                Some(d) => if components.last() == seq!['.', '.'] {
                    None
                } else {
                    match file_named(files_in_directory(b, d), components.last()) {
                        Some(f) => Some((f, d)),
                        None => None,
                    }
                },
            },
        }
    }
}

impl MsiBuilder {
    /// The properties of the package, as (name, value) pairs.
    pub fn property_pairs(&self) -> (r: Vec<(String, String)>)
        ensures
            pairs_view(r@) == builder_properties(self),
    {
        let entries = self.property.entries();
        let mut r: Vec<(String, String)> = Vec::new();
        let mut i: usize = 0;
        while i < entries.len()
            invariant
                entries@ == self.property_entries(),
                i <= entries.len(),
                pairs_view(r@) == builder_properties(self).take(i as int),
            decreases entries.len() - i,
        {
            let ghost before = pairs_view(r@);
            let pair = (entries[i].property.to_string(), entries[i].value.clone());
            assert(pair.0@ == entries@[i as int].property@ && pair.1@ == entries@[i as int].value@);
            r.push(pair);
            assert(pairs_view(r@) =~= before.push((pair.0@, pair.1@)));
            assert(builder_properties(self).take(i + 1) =~= builder_properties(self).take(i as int).push(
                (entries@[i as int].property@, entries@[i as int].value@),
            ));
            i = i + 1;
        }
        assert(builder_properties(self).take(i as int) =~= builder_properties(self));
        r
    }

    /// The name of the system folder that a reserved reference `[[Name]]`
    /// in `prop` names; see `resolve::get_reserved_property`.
    pub fn get_reserved_property(prop: &str) -> (r: Result<Option<String>, MsiBuilderError>)
        ensures
            match reserved_value(prop@) {
                Some(Ok(name)) => r matches Ok(Some(s)) && s@ == name,
                Some(Err(e)) => r == Err::<Option<String>, MsiBuilderError>(e),
                None => r matches Ok(None),
            },
    {
        get_reserved_property(prop)
    }

    /// What the path component `component` stands for, given the properties
    /// of the package; see `resolve::get_component_value`.
    pub fn get_component_value(&self, component: &str) -> (r: Result<Vec<String>, MsiBuilderError>)
        ensures
            reaches_portable(builder_properties(self), component@, self.property_entries().len()) ==> result_view(r)
                == component_values(
                builder_properties(self),
                component@,
                self.property_entries().len(),
            ),
    {
        let props = self.property_pairs();
        get_component_value(component, &props)
    }

    /// The last value that the last component of `path` stands for, given
    /// the properties of the package; see `resolve::get_last_component`.
    pub fn get_last_component(&self, path: &str) -> (r: Option<String>)
        requires
            path@.len() > 0,
        ensures
            path_resolves_portably(builder_properties(self), path@) ==> match r {
                Some(s) => last_component_spec(builder_properties(self), path@) == Some(s@),
                None => last_component_spec(builder_properties(self), path@) is None,
            },
    {
        let props = self.property_pairs();
        get_last_component(path, &props)
    }

    /// The key of the directory that a resolved path component `name`
    /// names.
    pub fn directory_for(&self, name: &str) -> (r: Option<DirectoryIdentifier>)
        ensures
            match r {
                Some(d) => directory_for_name(self, name@) == Some(d@),
                None => directory_for_name(self, name@) is None,
            },
    {
        match SystemFolder::from_str(name) {
            Some(folder) => {
                return Some(folder.to_identifier());
            },
            None => {},
        }
        let filename = match Filename::strict_parse(name) {
            Ok(f) => f,
            Err(_) => {
                return None;
            },
        };
        let key = DefaultDir::Filename(filename);
        let ghost p = has_directory_file_name(name@);
        match self.directory.entry_with_name(&key) {
            Some(d) => {
                proof {
                    let i = choose|i: int|
                        0 <= i < self.directory_entries().len() && self.directory_entries()[i] == *d && same_default_dir(d.default_dir, key)
                            && forall|k: int| 0 <= k < i ==> !same_default_dir((#[trigger] self.directory_entries()[k]).default_dir, key);
                    assert forall|k: int| 0 <= k < i implies !#[trigger] p(self.directory_entries()[k]) by {
                        assert(!same_default_dir(self.directory_entries()[k].default_dir, key));
                    }
                    lemma_first_index(self.directory_entries(), p, i);
                }
                Some(d.directory.clone())
            },
            None => {
                proof {
                    assert forall|i: int| 0 <= i < self.directory_entries().len() implies !#[trigger] p(self.directory_entries()[i]) by {
                        assert(!same_default_dir(self.directory_entries()[i].default_dir, key));
                    }
                    lemma_first_index_none(self.directory_entries(), p);
                }
                None
            },
        }
    }

    /// The key of the directory that the path `path` names: the system
    /// folder, or else the first directory with the file name, that the last
    /// value of its last component names. Stated for paths that every
    /// platform reads alike whose resolution reaches only such property
    /// values.
    pub fn get_directory_id_of_path(&self, path: &str) -> (r: Option<DirectoryIdentifier>)
        requires
            path@.len() > 0,
        ensures
            path_resolves_portably(builder_properties(self), path@) ==> match r {
                Some(d) => directory_id_of_path(self, path@) == Some(d@),
                None => directory_id_of_path(self, path@) is None,
            },
    {
        match self.get_last_component(path) {
            Some(name) => self.directory_for(name.as_str()),
            None => None,
        }
    }

    /// The files whose component, the first with the file's component key,
    /// installs into the directory keyed `directory_id`, in the order of the
    /// File table.
    pub fn file_entries_with_directory_id(&self, directory_id: &DirectoryIdentifier) -> (r: Vec<&FileDao>)
        ensures
            deref_files(r@) == files_in_directory(self, directory_id@),
    {
        let files = self.file.entries();
        let ghost pred = installs_into(self.component_entries(), directory_id@);
        let mut r: Vec<&FileDao> = Vec::new();
        let mut i: usize = 0;
        while i < files.len()
            invariant
                files@ == self.file_entries(),
                i <= files.len(),
                pred == installs_into(self.component_entries(), directory_id@),
                deref_files(r@) == files@.take(i as int).filter(pred),
            decreases files.len() - i,
        {
            let file = &files[i];
            let ghost cp = has_component_key(file.component@);
            let inside = match self.component.entry_with_id(&file.component) {
                Some(c) => {
                    proof {
                        let j = choose|j: int|
                            0 <= j < self.component_entries().len() && self.component_entries()[j] == *c && c.component@ == file.component@
                                && forall|k: int| 0 <= k < j ==> (#[trigger] self.component_entries()[k]).component@ != file.component@;
                        assert forall|k: int| 0 <= k < j implies !#[trigger] cp(self.component_entries()[k]) by {}
                        lemma_first_index(self.component_entries(), cp, j);
                    }
                    c.directory.same(directory_id)
                },
                None => {
                    proof {
                        assert forall|k: int| 0 <= k < self.component_entries().len() implies !#[trigger] cp(self.component_entries()[k]) by {}
                        lemma_first_index_none(self.component_entries(), cp);
                    }
                    false
                },
            };
            proof {
                reveal(Seq::filter);
                assert(files@.take(i + 1).drop_last() =~= files@.take(i as int));
                assert(files@.take(i + 1).last() == *file);
                assert(inside == pred(*file));
            }
            if inside {
                r.push(file);
                assert(deref_files(r@) =~= files@.take(i as int).filter(pred).push(*file));
            }
            i = i + 1;
        }
        assert(files@.take(i as int) =~= files@);
        r
    }

    /// The key of the first file named `name` among those in the directory
    /// keyed `directory_id`.
    fn file_named_in(&self, directory_id: &DirectoryIdentifier, name: &str) -> (r: Option<FileIdentifier>)
        ensures
            match r {
                Some(f) => file_named(files_in_directory(self, directory_id@), name@) == Some(f@),
                None => file_named(files_in_directory(self, directory_id@), name@) is None,
            },
    {
        let files = self.file_entries_with_directory_id(directory_id);
        let ghost fs = deref_files(files@);
        let ghost p = has_file_name(name@);
        let mut i: usize = 0;
        while i < files.len()
            invariant
                fs == deref_files(files@),
                fs == files_in_directory(self, directory_id@),
                p == has_file_name(name@),
                i <= files.len(),
                forall|k: int| 0 <= k < i ==> !#[trigger] p(fs[k]),
            decreases files.len() - i,
        {
            if crate::text::str_eq(files[i].name.as_str(), name) {
                proof {
                    assert(fs[i as int] == *files@[i as int]);
                    lemma_first_index(fs, p, i as int);
                }
                return Some(files[i].file.clone());
            }
            i = i + 1;
        }
        proof {
            lemma_first_index_none(fs, p);
        }
        None
    }

    /// The keys of the file that the path `path` names and of its directory:
    /// the directory that the component before the last names, and in it the
    /// first file named by the last component. Stated for paths that every
    /// platform reads alike whose resolution reaches only such property
    /// values.
    pub fn get_ids_of_path(&self, path: &str) -> (r: Option<(FileIdentifier, DirectoryIdentifier)>)
        ensures
            path_resolves_portably(builder_properties(self), path@) ==> match r {
                Some((f, d)) => ids_of_path(self, path@) == Some((f@, d@)),
                None => ids_of_path(self, path@) is None,
            },
    {
        let components = path_components(path);
        let n = components.len();
        if n < 2 {
            return None;
        }
        proof {
            if path_resolves_portably(builder_properties(self), path@) {
                let cs = path_components_spec(path@);
                assert(cs[n - 2] == components@[n - 2]@);
                assert(cs.last() == components@[n - 1]@);
                lemma_all_reach_each(builder_properties(self), cs, self.property_entries().len());
            }
        }
        let props = self.property_pairs();
        let parent = match resolve_last(components[n - 2].as_str(), &props) {
            Some(p) => p,
            None => {
                return None;
            },
        };
        let directory_id = match self.directory_for(parent.as_str()) {
            Some(d) => d,
            None => {
                return None;
            },
        };
        let name = components[n - 1].as_str();
        if crate::text::str_eq(name, "..") {
            proof {
                reveal_strlit("..");
                assert(".."@ =~= seq!['.', '.']);
            }
            return None;
        }
        proof {
            reveal_strlit("..");
            assert(".."@ =~= seq!['.', '.']);
        }
        match self.file_named_in(&directory_id, name) {
            Some(f) => Some((f, directory_id)),
            None => None,
        }
    }
}

/// Whether a file has the key `fid`.
pub open spec fn has_file_key(fid: Seq<char>) -> spec_fn(FileDao) -> bool {
    |f: FileDao| f.file@ == fid
}

/// Whether a link of a feature to a component is for the feature `feature`.
pub open spec fn links_feature(feature: Seq<char>) -> spec_fn(FeatureComponentsDao) -> bool {
    |l: FeatureComponentsDao| l.feature@ == feature
}

/// The key of the component that installs the shortcut's target: for a
/// path, the component of the file that the path names; for a feature, the
/// component of the feature's first link. `None` when there is no such
/// file or link.
pub open spec fn shortcut_component(b: &MsiBuilder, target: Shortcut) -> Option<Seq<char>> {
    match target {
        Shortcut::Formatted(path) => match ids_of_path(b, path@) {
            Some((fid, _)) => match first_index(b.file_entries(), has_file_key(fid)) {
                Some(i) => Some(b.file_entries()[i].component@),
                None => None,
            },
            None => None,
        },
        Shortcut::Identifier(feature) => match first_index(b.feature_components_entries(), links_feature(feature@)) {
            Some(i) => Some(b.feature_components_entries()[i].component@),
            None => None,
        },
    }
}

/// The component key of a shortcut's target can be told: the target is a
/// feature, or a path that every platform reads alike whose resolution
/// reaches only property values that every platform reads alike.
pub open spec fn shortcut_target_portable(b: &MsiBuilder, target: Shortcut) -> bool {
    match target {
        Shortcut::Formatted(path) => path_resolves_portably(builder_properties(b), path@),
        Shortcut::Identifier(_) => true,
    }
}

/// What adding the shortcut did to `b`, giving `b2`: an icon under the key
/// `icon` as by `add_icon`, a Shortcut entry under the key `sid`, named
/// `sid`, in the directory keyed `dir`, pointing at `target`, installed with
/// the component keyed `cid`, showing the first icon of that icon; and the
/// shortcut actions scheduled.
pub open spec fn shortcut_added(
    b: &MsiBuilder,
    b2: &MsiBuilder,
    dir: Seq<char>,
    target: Shortcut,
    icon_path: Seq<char>,
    cid: Seq<char>,
    sid: Seq<char>,
    icon: Seq<char>,
) -> bool {
    let s = b2.shortcut_entries();
    &&& is_first_free(b.registered_ids(), "SHORTCUT_"@, sid)
    &&& is_first_free(b.registered_ids(), "ICON_"@, icon)
    &&& b2.registered_ids() == b.registered_ids().push(icon).push(sid)
    &&& b2.icon_entries() == b.icon_entries().push(b2.icon_entries().last()) && b2.icon_entries().last().name@ == icon
    &&& b2.icon_infos().len() == b.icon_infos().len() + 1 && b2.icon_infos().drop_last() == b.icon_infos()
    &&& b2.icon_infos().last().path@ == icon_path && b2.icon_infos().last().identifier@ == icon
    &&& s.len() == b.shortcut_entries().len() + 1 && s.drop_last() == b.shortcut_entries()
    &&& s.last().identifier@ == sid && s.last().name@ == sid && s.last().directory_@ == dir
    &&& s.last().component_@ == cid && s.last().target == target
    &&& (s.last().icon_ matches Some(i) && i@ == icon) && s.last().icon_index == Some(0i16)
    &&& s.last().arguments is None && s.last().description is None && s.last().hotkey is None
    &&& s.last().show_cmd is None && s.last().wk_dir is None
    &&& b2.install_execute_sequence_entries() == add_all_result(b.install_execute_sequence_entries(), scheduled_all(shortcut_actions())).0
    &&& same_except(
        b,
        b2,
        set![Part::Identifiers, Part::Icon, Part::Icons, Part::Shortcut, Part::InstallExecuteSequence],
    )
}

/// `shortcut_added`, for the key that the shortcut's icon got.
pub open spec fn shortcut_added_with_icon(
    b: &MsiBuilder,
    b2: &MsiBuilder,
    dir: Seq<char>,
    target: Shortcut,
    icon_path: Seq<char>,
    cid: Seq<char>,
    sid: Seq<char>,
) -> bool {
    exists|icon: Seq<char>| shortcut_added(b, b2, dir, target, icon_path, cid, sid, icon)
}

impl MsiBuilder {
    /// The key of the component that installs the shortcut's target.
    fn shortcut_target_component(&self, target: &Shortcut) -> (r: Option<ComponentIdentifier>)
        ensures
            shortcut_target_portable(self, *target) ==> match r {
                Some(c) => shortcut_component(self, *target) == Some(c@),
                None => shortcut_component(self, *target) is None,
            },
    {
        match target {
            Shortcut::Formatted(path) => {
                let file_id = match self.get_ids_of_path(path.as_str()) {
                    Some((f, _)) => f,
                    None => {
                        return None;
                    },
                };
                let ghost p = has_file_key(file_id@);
                match self.file.entry_with_id(&file_id) {
                    Some(file) => {
                        proof {
                            let i = choose|i: int|
                                0 <= i < self.file_entries().len() && self.file_entries()[i] == *file && file.file@ == file_id@
                                    && forall|k: int| 0 <= k < i ==> (#[trigger] self.file_entries()[k]).file@ != file_id@;
                            assert forall|k: int| 0 <= k < i implies !#[trigger] p(self.file_entries()[k]) by {}
                            lemma_first_index(self.file_entries(), p, i);
                        }
                        Some(file.component.clone())
                    },
                    None => {
                        proof {
                            assert forall|k: int| 0 <= k < self.file_entries().len() implies !#[trigger] p(self.file_entries()[k]) by {}
                            lemma_first_index_none(self.file_entries(), p);
                        }
                        None
                    },
                }
            },
            Shortcut::Identifier(feature) => {
                let links = self.feature_components.entries();
                let ghost p = links_feature(feature@);
                let mut i: usize = 0;
                while i < links.len()
                    invariant
                        links@ == self.feature_components_entries(),
                        p == links_feature(feature@),
                        *target == Shortcut::Identifier(*feature),
                        i <= links.len(),
                        forall|k: int| 0 <= k < i ==> !#[trigger] p(links@[k]),
                    decreases links.len() - i,
                {
                    if links[i].feature.same(feature) {
                        proof {
                            lemma_first_index(links@, p, i as int);
                        }
                        return Some(links[i].component.clone());
                    }
                    i = i + 1;
                }
                proof {
                    lemma_first_index_none(links@, p);
                }
                None
            },
        }
    }

    /// Adds a shortcut in the directory keyed `directory_id` that points at
    /// `target`, under a fresh key `_SHORTCUT_<n>`, which also names it,
    /// with an icon read from `icon_path` added as by `add_icon`. The
    /// shortcut is installed with the component of its target: the component
    /// of the file that a path target names, or of the first link of a
    /// feature target. Fails, changing nothing, with `ShortcutSourceNotFound`
    /// when no file matches a path target and with `ShortcutFeatureNotFound`
    /// when no component is linked to a feature target; succeeds otherwise.
    pub fn add_shortcut(&mut self, directory_id: DirectoryIdentifier, target: Shortcut, icon_path: &str) -> (r: Result<
        ShortcutIdentifier,
        MsiBuilderError,
    >)
        requires
            old(self).wf(),
        ensures
            final(self).wf(),
            shortcut_target_portable(&*old(self), target) ==> match shortcut_component(&*old(self), target) {
                None => (r matches Err(e) && (if target is Formatted {
                    e is ShortcutSourceNotFound
                } else {
                    e is ShortcutFeatureNotFound
                })) && same_except(&*old(self), &*final(self), Set::empty()),
                Some(cid) => r matches Ok(sid) && shortcut_added_with_icon(
                    &*old(self),
                    &*final(self),
                    directory_id@,
                    target,
                    icon_path@,
                    cid,
                    sid@,
                ) && valid_filename(sid@),
            },
    {
        proof {
            reveal_strlit("SHORTCUT_");
            reveal_strlit("ICON_");
        }
        let ghost b0 = *self;
        let ghost t = target;
        let shortcut_id = generate_id(&self.identifiers, "SHORTCUT_");
        let component_id = match self.shortcut_target_component(&target) {
            Some(c) => c,
            None => {
                return match target {
                    Shortcut::Formatted(_) => Err(MsiBuilderError::ShortcutSourceNotFound),
                    Shortcut::Identifier(_) => Err(MsiBuilderError::ShortcutFeatureNotFound),
                };
            },
        };
        let icon_id = match self.add_icon(icon_path) {
            Ok(i) => i,
            Err(e) => {
                return Err(e);
            },
        };
        let ghost b1 = *self;
        shortcut_id.check_valid();
        proof {
            let sid = shortcut_id@;
            assert forall|i: int| 0 <= i < sid.len() implies !is_filename_forbidden(#[trigger] sid[i]) by {
                assert(is_identifier_char(sid[i]));
            }
            assert(valid_filename(sid));
        }
        let name = match Filename::strict_parse(shortcut_id.as_str()) {
            Ok(n) => n,
            Err(e) => {
                return Err(e);
            },
        };
        let dao = ShortcutDao::new(shortcut_id.clone(), directory_id, name, component_id, target).with_icon_(Some(icon_id)).with_icon_index(
            Some(0),
        );
        let ghost sid = shortcut_id@;
        proof {
            lemma_first_free_differ(b0.registered_ids(), "SHORTCUT_"@, sid, "ICON_"@, icon_id@, 0);
            assert(!b1.registered_ids().contains(sid)) by {
                if b1.registered_ids().contains(sid) {
                    let i = choose|i: int| 0 <= i < b1.registered_ids().len() && b1.registered_ids()[i] == sid;
                    if i < b0.registered_ids().len() {
                        assert(b0.registered_ids()[i] == sid);
                    }
                }
            }
            if any_conflict(b1.shortcut_entries(), dao) {
                let i = choose|i: int| 0 <= i < b1.shortcut_entries().len() && #[trigger] b1.shortcut_entries()[i].conflicts_spec(&dao);
                lemma_id_multiset_has(b1.shortcut_entries(), i);
                assert(b1.package_ids().count(sid) > 0);
            }
        }
        match self.add_to_tables(Dao::Shortcut(dao)) {
            Ok(()) => {},
            Err(e) => {
                return Err(e);
            },
        }
        self.add_shortcut_actions();
        proof {
            assert(self.shortcut_entries().drop_last() =~= b0.shortcut_entries());
            assert(self.icon_entries() =~= b0.icon_entries().push(self.icon_entries().last()));
            assert(shortcut_added(&b0, &*self, directory_id@, t, icon_path@, component_id@, sid, icon_id@));
            assert(shortcut_added_with_icon(&b0, &*self, directory_id@, t, icon_path@, component_id@, sid));
        }
        Ok(shortcut_id)
    }
}


/// What adding the shortcut without an icon did to `b`, giving `b2`: a
/// Shortcut entry under the key `sid`, named `sid`, in the directory keyed
/// `dir`, pointing at `target`, installed with the component keyed `cid`,
/// with no icon; and the shortcut actions scheduled.
pub open spec fn plain_shortcut_added(
    b: &MsiBuilder,
    b2: &MsiBuilder,
    dir: Seq<char>,
    target: Shortcut,
    cid: Seq<char>,
    sid: Seq<char>,
) -> bool {
    let s = b2.shortcut_entries();
    &&& is_first_free(b.registered_ids(), "SHORTCUT_"@, sid)
    &&& b2.registered_ids() == b.registered_ids().push(sid)
    &&& s.len() == b.shortcut_entries().len() + 1 && s.drop_last() == b.shortcut_entries()
    &&& s.last().identifier@ == sid && s.last().name@ == sid && s.last().directory_@ == dir
    &&& s.last().component_@ == cid && s.last().target == target
    &&& s.last().icon_ is None && s.last().icon_index is None
    &&& s.last().arguments is None && s.last().description is None && s.last().hotkey is None
    &&& s.last().show_cmd is None && s.last().wk_dir is None
    &&& b2.install_execute_sequence_entries() == add_all_result(b.install_execute_sequence_entries(), scheduled_all(shortcut_actions())).0
    &&& same_except(b, b2, set![Part::Identifiers, Part::Shortcut, Part::InstallExecuteSequence])
}

impl MsiBuilder {
    /// Adds a shortcut without an icon in the directory keyed
    /// `directory_id` that points at `target`, under a fresh key
    /// `_SHORTCUT_<n>`, which also names it, installed with the component of
    /// its target as by `add_shortcut`. Fails, changing nothing, with
    /// `ShortcutSourceNotFound` when no file matches a path target and with
    /// `ShortcutFeatureNotFound` when no component is linked to a feature
    /// target; succeeds otherwise.
    pub fn add_shortcut_without_icon(&mut self, directory_id: DirectoryIdentifier, target: Shortcut) -> (r: Result<
        ShortcutIdentifier,
        MsiBuilderError,
    >)
        requires
            old(self).wf(),
        ensures
            final(self).wf(),
            shortcut_target_portable(&*old(self), target) ==> match shortcut_component(&*old(self), target) {
                None => (r matches Err(e) && (if target is Formatted {
                    e is ShortcutSourceNotFound
                } else {
                    e is ShortcutFeatureNotFound
                })) && same_except(&*old(self), &*final(self), Set::empty()),
                Some(cid) => r matches Ok(sid) && plain_shortcut_added(
                    &*old(self),
                    &*final(self),
                    directory_id@,
                    target,
                    cid,
                    sid@,
                ) && valid_filename(sid@),
            },
    {
        proof {
            reveal_strlit("SHORTCUT_");
        }
        let ghost b0 = *self;
        let ghost t = target;
        let shortcut_id = generate_id(&self.identifiers, "SHORTCUT_");
        let component_id = match self.shortcut_target_component(&target) {
            Some(c) => c,
            None => {
                return match target {
                    Shortcut::Formatted(_) => Err(MsiBuilderError::ShortcutSourceNotFound),
                    Shortcut::Identifier(_) => Err(MsiBuilderError::ShortcutFeatureNotFound),
                };
            },
        };
        shortcut_id.check_valid();
        proof {
            let sid = shortcut_id@;
            assert forall|i: int| 0 <= i < sid.len() implies !is_filename_forbidden(#[trigger] sid[i]) by {
                assert(is_identifier_char(sid[i]));
            }
            assert(valid_filename(sid));
        }
        let name = match Filename::strict_parse(shortcut_id.as_str()) {
            Ok(n) => n,
            Err(e) => {
                return Err(e);
            },
        };
        let dao = ShortcutDao::new(shortcut_id.clone(), directory_id, name, component_id, target);
        let ghost sid = shortcut_id@;
        proof {
            if any_conflict(b0.shortcut_entries(), dao) {
                let i = choose|i: int| 0 <= i < b0.shortcut_entries().len() && #[trigger] b0.shortcut_entries()[i].conflicts_spec(&dao);
                lemma_id_multiset_has(b0.shortcut_entries(), i);
                assert(b0.package_ids().count(sid) > 0);
            }
        }
        match self.add_to_tables(Dao::Shortcut(dao)) {
            Ok(()) => {},
            Err(e) => {
                return Err(e);
            },
        }
        self.add_shortcut_actions();
        proof {
            assert(self.shortcut_entries().drop_last() =~= b0.shortcut_entries());
            assert(plain_shortcut_added(&b0, &*self, directory_id@, t, component_id@, sid));
        }
        Ok(shortcut_id)
    }
}
/// The name that the path `path` ends with: its last component, unless it
/// has none or the last is `.`, `..` or the root.
pub open spec fn path_file_name(path: Seq<char>) -> Option<Seq<char>> {
    let components = path_components_spec(path);
    if components.len() == 0 || components.last() == seq!['.'] || components.last() == seq!['.', '.']
        || components.last() == seq!['/'] {
        None
    } else {
        Some(components.last())
    }
}

impl MsiBuilder {
    /// Adds a directory named after the last component of `path` inside the
    /// directory keyed `parent`, as by `add_directory`. Fails with
    /// `NoDirectoryName`, changing nothing, when the path ends with no name
    /// (no component, or `.`, `..` or the root alone). The name is stated for paths that
    /// every platform reads alike.
    pub fn add_directory_from_path(&mut self, path: &str, parent: DirectoryIdentifier) -> (r: Result<
        DirectoryIdentifier,
        MsiBuilderError,
    >)
        requires
            old(self).wf(),
        ensures
            final(self).wf(),
            r matches Err(e) ==> (e is NoDirectoryName || e is InvalidFilename) && *final(self) == *old(self),
            portable_path(path@) ==> match path_file_name(path@) {
                None => r matches Err(e) && e is NoDirectoryName,
                Some(name) => (r is Ok <==> valid_filename(name)) && (r matches Ok(id) ==> directory_added(
                    &*old(self),
                    &*final(self),
                    name,
                    parent@,
                    id@,
                )),
            },
    {
        let components = path_components(path);
        let n = components.len();
        if n == 0 {
            return Err(MsiBuilderError::NoDirectoryName);
        }
        let name = components[n - 1].as_str();
        proof {
            reveal_strlit(".");
            reveal_strlit("..");
            reveal_strlit("/");
            assert("."@ =~= seq!['.']);
            assert(".."@ =~= seq!['.', '.']);
            assert("/"@ =~= seq!['/']);
            if portable_path(path@) {
                assert(path_components_spec(path@).last() == name@);
            }
        }
        if crate::text::str_eq(name, ".") || crate::text::str_eq(name, "..") || crate::text::str_eq(name, "/") {
            return Err(MsiBuilderError::NoDirectoryName);
        }
        self.add_directory(name, parent)
    }
}

/// Two entries that hold the same key count it twice.
proof fn lemma_id_multiset_two<D: ToUniqueMsiIdentifier>(s: Seq<D>, i: int, j: int)
    requires
        0 <= i < j < s.len(),
        s[i].unique_id_spec() is Some,
        s[j].unique_id_spec() == s[i].unique_id_spec(),
    ensures
        id_multiset(s).count(s[i].unique_id_spec().unwrap()) >= 2,
    decreases s.len(),
{
    let x = s[i].unique_id_spec().unwrap();
    let rest = s.drop_last();
    if j < s.len() - 1 {
        assert(rest[i] == s[i] && rest[j] == s[j]);
        lemma_id_multiset_two(rest, i, j);
    } else {
        assert(rest[i] == s[i]);
        lemma_id_multiset_has(rest, i);
    }
}

/// In a consistent package no two entries share a key: two directories
/// have different keys, as do two files and two components, and no file
/// shares its key with a directory or a component.
pub proof fn lemma_keys_unique(b: &MsiBuilder)
    requires
        b.wf(),
    ensures
        forall|i: int, j: int|
            0 <= i < j < b.directory_entries().len() ==> (#[trigger] b.directory_entries()[i]).directory@
                != (#[trigger] b.directory_entries()[j]).directory@,
        forall|i: int, j: int|
            0 <= i < j < b.file_entries().len() ==> (#[trigger] b.file_entries()[i]).file@ != (#[trigger] b.file_entries()[j]).file@,
        forall|i: int, j: int|
            0 <= i < j < b.component_entries().len() ==> (#[trigger] b.component_entries()[i]).component@
                != (#[trigger] b.component_entries()[j]).component@,
        forall|i: int, j: int|
            0 <= i < b.file_entries().len() && 0 <= j < b.directory_entries().len() ==> (#[trigger] b.file_entries()[i]).file@
                != (#[trigger] b.directory_entries()[j]).directory@,
        forall|i: int, j: int|
            0 <= i < b.file_entries().len() && 0 <= j < b.component_entries().len() ==> (#[trigger] b.file_entries()[i]).file@
                != (#[trigger] b.component_entries()[j]).component@,
{
    assert forall|i: int, j: int| 0 <= i < j < b.directory_entries().len() implies (#[trigger] b.directory_entries()[i]).directory@
        != (#[trigger] b.directory_entries()[j]).directory@ by {
        if b.directory_entries()[i].directory@ == b.directory_entries()[j].directory@ {
            lemma_id_multiset_two(b.directory_entries(), i, j);
            assert(b.package_ids().count(b.directory_entries()[i].directory@) >= 2);
        }
    }
    assert forall|i: int, j: int| 0 <= i < j < b.file_entries().len() implies (#[trigger] b.file_entries()[i]).file@
        != (#[trigger] b.file_entries()[j]).file@ by {
        if b.file_entries()[i].file@ == b.file_entries()[j].file@ {
            lemma_id_multiset_two(b.file_entries(), i, j);
            assert(b.package_ids().count(b.file_entries()[i].file@) >= 2);
        }
    }
    assert forall|i: int, j: int| 0 <= i < j < b.component_entries().len() implies (#[trigger] b.component_entries()[i]).component@
        != (#[trigger] b.component_entries()[j]).component@ by {
        if b.component_entries()[i].component@ == b.component_entries()[j].component@ {
            lemma_id_multiset_two(b.component_entries(), i, j);
            assert(b.package_ids().count(b.component_entries()[i].component@) >= 2);
        }
    }
    assert forall|i: int, j: int| 0 <= i < b.file_entries().len() && 0 <= j < b.directory_entries().len() implies (
    #[trigger] b.file_entries()[i]).file@ != (#[trigger] b.directory_entries()[j]).directory@ by {
        if b.file_entries()[i].file@ == b.directory_entries()[j].directory@ {
            lemma_id_multiset_has(b.file_entries(), i);
            lemma_id_multiset_has(b.directory_entries(), j);
            assert(b.package_ids().count(b.file_entries()[i].file@) >= 2);
        }
    }
    assert forall|i: int, j: int| 0 <= i < b.file_entries().len() && 0 <= j < b.component_entries().len() implies (
    #[trigger] b.file_entries()[i]).file@ != (#[trigger] b.component_entries()[j]).component@ by {
        if b.file_entries()[i].file@ == b.component_entries()[j].component@ {
            lemma_id_multiset_has(b.file_entries(), i);
            lemma_id_multiset_has(b.component_entries(), j);
            assert(b.package_ids().count(b.file_entries()[i].file@) >= 2);
        }
    }
}


/// Where the disk `m` goes among the disks `sorted`, ordered by their last
/// sequence numbers: after every disk whose number is not greater.
pub open spec fn media_position(sorted: Seq<MediaDao>, m: MediaDao) -> nat
    decreases sorted.len(),
{
    if sorted.len() == 0 {
        0
    } else if m.last_sequence < sorted[0].last_sequence {
        0
    } else {
        1 + media_position(sorted.drop_first(), m)
    }
}

/// The disks ordered by their last sequence numbers; disks with equal
/// numbers keep their order.
pub open spec fn sort_media(s: Seq<MediaDao>) -> Seq<MediaDao>
    decreases s.len(),
{
    if s.len() == 0 {
        s
    } else {
        let sorted = sort_media(s.drop_last());
        sorted.insert(media_position(sorted, s.last()) as int, s.last())
    }
}

/// The disks of `s` whose cabinets are written: those that have a cabinet
/// and hold files (a last sequence number other than 0), in order.
pub open spec fn writable_media(s: Seq<MediaDao>) -> Seq<MediaDao>
    decreases s.len(),
{
    if s.len() == 0 {
        s
    } else {
        let rest = writable_media(s.drop_last());
        if s.last().cabinet is Some && s.last().last_sequence != 0 {
            rest.push(s.last())
        } else {
            rest
        }
    }
}

/// The cabinet of the disk `m` among the cabinets of `b`.
pub open spec fn media_cabinet(b: &MsiBuilder, m: MediaDao) -> CabinetInfo {
    b.cabinet_entries()[cabinet_index(b.cabinet_entries(), m.cabinet.unwrap()@).unwrap()]
}

/// The cabinets that building `b` writes, in the order it writes them.
pub open spec fn cabinets_to_write_spec(b: &MsiBuilder) -> Seq<MediaDao> {
    writable_media(sort_media(b.media_entries()))
}

proof fn lemma_media_position_bound(sorted: Seq<MediaDao>, m: MediaDao)
    ensures
        media_position(sorted, m) <= sorted.len(),
    decreases sorted.len(),
{
    if sorted.len() > 0 && !(m.last_sequence < sorted[0].last_sequence) {
        lemma_media_position_bound(sorted.drop_first(), m);
    }
}

/// The disks ordered by last sequence number: no disk's number is less
/// than that of a disk before it.
pub open spec fn media_sorted(s: Seq<MediaDao>) -> bool {
    forall|i: int, j: int| 0 <= i < j < s.len() ==> (#[trigger] s[i]).last_sequence <= (#[trigger] s[j]).last_sequence
}

proof fn lemma_media_position(sorted: Seq<MediaDao>, m: MediaDao)
    ensures
        media_position(sorted, m) <= sorted.len(),
        forall|k: int| 0 <= k < media_position(sorted, m) ==> (#[trigger] sorted[k]).last_sequence <= m.last_sequence,
        media_position(sorted, m) < sorted.len() ==> m.last_sequence < sorted[media_position(sorted, m) as int].last_sequence,
    decreases sorted.len(),
{
    if sorted.len() > 0 && !(m.last_sequence < sorted[0].last_sequence) {
        let rest = sorted.drop_first();
        lemma_media_position(rest, m);
        assert forall|k: int| 0 <= k < media_position(sorted, m) implies (#[trigger] sorted[k]).last_sequence <= m.last_sequence by {
            if k > 0 {
                assert(sorted[k] == rest[k - 1]);
            }
        }
        if media_position(sorted, m) < sorted.len() {
            assert(sorted[media_position(sorted, m) as int] == rest[media_position(rest, m) as int]);
        }
    }
}

/// The disks come out ordered by their last sequence numbers, one for each
/// disk.
pub proof fn lemma_sort_media_sorted(s: Seq<MediaDao>)
    ensures
        media_sorted(sort_media(s)),
        sort_media(s).len() == s.len(),
    decreases s.len(),
{
    if s.len() > 0 {
        let sorted = sort_media(s.drop_last());
        let x = s.last();
        lemma_sort_media_sorted(s.drop_last());
        lemma_media_position(sorted, x);
        let pos = media_position(sorted, x) as int;
        let r = sorted.insert(pos, x);
        assert forall|i: int, j: int| 0 <= i < j < r.len() implies (#[trigger] r[i]).last_sequence <= (#[trigger] r[j]).last_sequence by {
            if j < pos {
                assert(r[i] == sorted[i] && r[j] == sorted[j]);
            } else if j == pos {
                assert(r[i] == sorted[i]);
            } else if i == pos {
                assert(r[j] == sorted[j - 1]);
                assert(sorted[pos].last_sequence <= sorted[j - 1].last_sequence);
            } else if i < pos {
                assert(r[i] == sorted[i] && r[j] == sorted[j - 1]);
            } else {
                assert(r[i] == sorted[i - 1] && r[j] == sorted[j - 1]);
            }
        }
    }
}

/// Every disk of the ordered disks is one of the disks.
proof fn lemma_sort_media_members(s: Seq<MediaDao>)
    ensures
        sort_media(s).len() == s.len(),
        forall|k: int| 0 <= k < s.len() ==> s.contains(#[trigger] sort_media(s)[k]),
    decreases s.len(),
{
    if s.len() > 0 {
        let rest = s.drop_last();
        lemma_sort_media_members(rest);
        let sorted = sort_media(rest);
        lemma_media_position_bound(sorted, s.last());
        let pos = media_position(sorted, s.last()) as int;
        assert forall|k: int| 0 <= k < s.len() implies s.contains(#[trigger] sort_media(s)[k]) by {
            if k < pos {
                assert(sort_media(s)[k] == sorted[k]);
                assert(rest.contains(sorted[k]));
                let j = choose|j: int| 0 <= j < rest.len() && rest[j] == sorted[k];
                assert(s[j] == rest[j]);
            } else if k == pos {
                assert(s[s.len() - 1] == s.last());
            } else {
                assert(sort_media(s)[k] == sorted[k - 1]);
                assert(rest.contains(sorted[k - 1]));
                let j = choose|j: int| 0 <= j < rest.len() && rest[j] == sorted[k - 1];
                assert(s[j] == rest[j]);
            }
        }
    }
}

/// The disks, as values.
pub open spec fn media_values(s: Seq<&MediaDao>) -> Seq<MediaDao> {
    s.map_values(|m: &MediaDao| *m)
}

/// Inserts the disk `m` into the ordered disks `sorted` after every disk
/// whose last sequence number is not greater.
fn insert_media<'a>(sorted: &mut Vec<&'a MediaDao>, m: &'a MediaDao)
    ensures
        media_values(final(sorted)@) == media_values(old(sorted)@).insert(
            media_position(media_values(old(sorted)@), *m) as int,
            *m,
        ),
{
    let ghost s = media_values(sorted@);
    let mut p: usize = 0;
    assert(s.skip(0) =~= s);
    while p < sorted.len() && !(m.last_sequence < sorted[p].last_sequence)
        invariant
            s == media_values(sorted@),
            p <= sorted.len(),
            media_position(s, *m) == p + media_position(s.skip(p as int), *m),
        decreases sorted.len() - p,
    {
        assert(s.skip(p as int)[0] == s[p as int]);
        assert(s.skip(p as int).drop_first() =~= s.skip(p + 1));
        p = p + 1;
    }
    if p < sorted.len() {
        assert(s.skip(p as int)[0] == s[p as int]);
    } else {
        assert(s.skip(p as int) =~= Seq::<MediaDao>::empty());
    }
    sorted.insert(p, m);
    assert(media_values(sorted@) =~= s.insert(p as int, *m));
}

impl MsiBuilder {
    /// The cabinets to store in the package, in the order they are stored:
    /// the disks are taken in the order of their last sequence numbers
    /// (equal numbers in the order the disks were added), and each disk that
    /// holds files gives its cabinet.
    pub fn cabinets_to_write(&self) -> (r: Vec<&CabinetInfo>)
        requires
            self.wf(),
        ensures
            r@.len() == cabinets_to_write_spec(self).len(),
            forall|k: int| 0 <= k < r@.len() ==> *r@[k] == media_cabinet(self, #[trigger] cabinets_to_write_spec(self)[k]),
    {
        let entries = self.media.entries();
        let ghost all = self.media_entries();
        let mut sorted: Vec<&MediaDao> = Vec::new();
        let mut i: usize = 0;
        assert(all.take(0) =~= Seq::<MediaDao>::empty());
        assert(media_values(sorted@) =~= Seq::<MediaDao>::empty());
        while i < entries.len()
            invariant
                entries@ == all,
                all == self.media_entries(),
                i <= entries.len(),
                media_values(sorted@) == sort_media(all.take(i as int)),
            decreases entries.len() - i,
        {
            insert_media(&mut sorted, &entries[i]);
            assert(all.take(i + 1).drop_last() =~= all.take(i as int));
            assert(all.take(i + 1).last() == all[i as int]);
            i = i + 1;
        }
        assert(all.take(entries.len() as int) =~= all);
        let ghost ordered = sort_media(all);
        proof {
            lemma_sort_media_members(all);
        }
        let mut r: Vec<&CabinetInfo> = Vec::new();
        let mut j: usize = 0;
        assert(ordered.take(0) =~= Seq::<MediaDao>::empty());
        while j < sorted.len()
            invariant
                media_values(sorted@) == ordered,
                ordered == sort_media(all),
                all == self.media_entries(),
                self.wf(),
                ordered.len() == all.len(),
                forall|k: int| 0 <= k < all.len() ==> all.contains(#[trigger] ordered[k]),
                j <= sorted.len(),
                r@.len() == writable_media(ordered.take(j as int)).len(),
                forall|k: int| 0 <= k < r@.len() ==> *r@[k] == media_cabinet(self, #[trigger] writable_media(ordered.take(j as int))[k]),
            decreases sorted.len() - j,
        {
            let m = sorted[j];
            let ghost before = writable_media(ordered.take(j as int));
            assert(ordered.take(j + 1).drop_last() =~= ordered.take(j as int));
            assert(ordered.take(j + 1).last() == ordered[j as int]);
            assert(*m == ordered[j as int]);
            if m.last_sequence != 0 {
                match m.cabinet_id() {
                    Some(c) => {
                        proof {
                            assert(all.contains(ordered[j as int]));
                            let q = choose|q: int| 0 <= q < all.len() && all[q] == ordered[j as int];
                            assert(self.media_entries()[q] == all[q]);
                        }
                        match self.cabinets.find_id(c.as_str()) {
                            Some(info) => {
                                r.push(info);
                                proof {
                                    assert(writable_media(ordered.take(j + 1)) == before.push(*m));
                                    assert forall|k: int| 0 <= k < r@.len() implies *r@[k] == media_cabinet(self, #[trigger] writable_media(ordered.take(j + 1))[k]) by {
                                        if k < before.len() {
                                            assert(writable_media(ordered.take(j + 1))[k] == before[k]);
                                        }
                                    }
                                }
                            },
                            None => {
                                proof {
                                    assert(false);
                                }
                            },
                        }
                    },
                    None => {},
                }
            }
            j = j + 1;
        }
        assert(ordered.take(sorted.len() as int) =~= ordered);
        r
    }
}

/// Adding directory entries in turn keeps the entries already there, and
/// every entry it adds is one of those tried.
proof fn lemma_directory_steps_extend(
    s: (Seq<Seq<char>>, Seq<(Seq<char>, Option<Seq<char>>, Seq<char>)>),
    ds: Seq<(Seq<char>, Option<Seq<char>>, Seq<char>)>,
)
    ensures
        directory_steps(s, ds).1.len() >= s.1.len(),
        forall|k: int| 0 <= k < s.1.len() ==> #[trigger] directory_steps(s, ds).1[k] == s.1[k],
        forall|k: int| s.1.len() <= k < directory_steps(s, ds).1.len() ==> ds.contains(#[trigger] directory_steps(s, ds).1[k]),
    decreases ds.len(),
{
    if ds.len() > 0 {
        let rest = ds.drop_last();
        lemma_directory_steps_extend(s, rest);
        let mid = directory_steps(s, rest);
        let r = directory_steps(s, ds);
        assert(r == directory_step(mid, ds.last()));
        assert forall|k: int| s.1.len() <= k < r.1.len() implies ds.contains(#[trigger] r.1[k]) by {
            if k < mid.1.len() {
                assert(r.1[k] == mid.1[k]);
                assert(rest.contains(mid.1[k]));
                let j = choose|j: int| 0 <= j < rest.len() && rest[j] == mid.1[k];
                assert(ds[j] == rest[j]);
            } else {
                assert(r.1[k] == ds.last());
                assert(ds[ds.len() - 1] == ds.last());
            }
        }
        assert forall|k: int| 0 <= k < s.1.len() implies #[trigger] r.1[k] == s.1[k] by {
            assert(r.1[k] == mid.1[k]);
        }
    }
}

/// After a directory named `name` is added to a package that has no
/// directory of that name, the directory that the name is resolved to is
/// the one added. The names `SourceDir` and `.`, which the entries of
/// system folders carry, are left out.
pub proof fn lemma_directory_read_after_write(b: &MsiBuilder, b2: &MsiBuilder, name: Seq<char>, parent: Seq<char>, id: Seq<char>)
    requires
        directory_added(b, b2, name, parent, id),
        valid_filename(name),
        parse_folder(name) is None,
        name != "SourceDir"@,
        name != "."@,
        forall|k: int| 0 <= k < b.directory_entries().len() ==> (#[trigger] b.directory_entries()[k]).default_dir@ != name,
    ensures
        directory_for_name(b2, name) == Some(id),
{
    let s = directory_state(b);
    let own = (id, Some(parent), name);
    let attempts = directory_attempts(own);
    let chain = attempts.drop_last();
    let folders = parent_folder_chain(Some(parent)).map_values(|f: SystemFolder| folder_directory_view(f));
    assert(chain =~= folders);
    let n = choose|n: nat|
        id == generated_id("DIRECTORY_"@, n) && !b.registered_ids().contains(generated_id("DIRECTORY_"@, n))
            && forall|k: nat| k < n ==> b.registered_ids().contains(#[trigger] generated_id("DIRECTORY_"@, k));
    assert(id[0] == '_');
    lemma_chain_keeps_fresh(s, Some(parent), id);
    let mid = directory_steps(s, chain);
    assert(attempts.last() == own);
    assert(directory_steps(s, attempts) == directory_step(mid, own));
    let fin = directory_steps(s, attempts);
    assert(fin.1 == mid.1.push(own));
    lemma_directory_steps_extend(s, chain);
    let entries = b2.directory_entries();
    assert(directory_views(entries) == fin.1);
    let last = entries.len() - 1;
    assert(entries.len() == mid.1.len() + 1);
    reveal_strlit("SourceDir");
    reveal_strlit(".");
    assert forall|k: int| 0 <= k < last implies !#[trigger] has_directory_file_name(name)(entries[k]) by {
        assert(directory_views(entries)[k] == fin.1[k]);
        assert(fin.1[k] == mid.1[k]);
        if k < s.1.len() {
            assert(mid.1[k] == s.1[k]);
            assert(s.1 == directory_views(b.directory_entries()));
            assert(s.1[k].2 == b.directory_entries()[k].default_dir@);
        } else {
            assert(chain.contains(mid.1[k]));
            let j = choose|j: int| 0 <= j < chain.len() && chain[j] == mid.1[k];
            let f = parent_folder_chain(Some(parent))[j];
            assert(folders[j] == folder_directory_view(f));
            assert(mid.1[k].2 == "SourceDir"@ || mid.1[k].2 == "."@);
        }
    }
    assert(directory_views(entries)[last] == own);
    assert(has_directory_file_name(name)(entries[last]));
    lemma_first_index(entries, has_directory_file_name(name), last);
}

/// After a file is added into the directory keyed `parent` of a package
/// that has no file of that name, looking the name up among the files of
/// that directory finds the file added.
pub proof fn lemma_file_read_after_write(
    b: &MsiBuilder,
    b2: &MsiBuilder,
    source: SourceFile,
    parent: Seq<char>,
    fid: Seq<char>,
    cid: Seq<char>,
)
    requires
        b.wf(),
        file_added(b, b2, source, parent, fid, cid),
        forall|k: int| 0 <= k < b.file_entries().len() ==> (#[trigger] b.file_entries()[k]).name@ != source.name@,
    ensures
        file_named(files_in_directory(b2, parent), source.name@) == Some(fid),
{
    let name = source.name@;
    let comps = b.component_entries();
    let comps2 = b2.component_entries();
    let files = b.file_entries();
    let files2 = b2.file_entries();
    let p = installs_into(comps2, parent);
    let n = choose|n: nat|
        cid == generated_id("COMPONENT_"@, n) && !b.registered_ids().contains(generated_id("COMPONENT_"@, n))
            && forall|k: nat| k < n ==> b.registered_ids().contains(#[trigger] generated_id("COMPONENT_"@, k));
    assert(!b.registered_ids().contains(cid));
    let last = comps2.len() - 1;
    assert forall|k: int| 0 <= k < last implies !#[trigger] has_component_key(cid)(comps2[k]) by {
        assert(comps2[k] == comps[k]);
        if comps[k].component@ == cid {
            lemma_id_multiset_has(comps, k);
            assert(b.package_ids().count(cid) > 0);
        }
    }
    lemma_first_index(comps2, has_component_key(cid), last);
    let new = files2.last();
    assert(p(new));
    assert(files2.drop_last() == files);
    reveal(Seq::filter);
    let f2 = files2.filter(p);
    assert(f2 == files.filter(p).push(new));
    assert forall|i: int| 0 <= i < f2.len() - 1 implies !#[trigger] has_file_name(name)(f2[i]) by {
        let x = f2[i];
        assert(x == files.filter(p)[i]);
        assert(files.filter(p).contains(x));
        files.lemma_filter_contains_rev(p, x);
        let k = choose|k: int| 0 <= k < files.len() && files[k] == x;
        assert(files[k].name@ != name);
    }
    assert(has_file_name(name)(f2[f2.len() - 1]));
    lemma_first_index(f2, has_file_name(name), f2.len() - 1);
}

/// `b2` is `b` after the file `source` was added into the directory keyed
/// `parent`, under some fresh file and component keys.
pub open spec fn file_step(b: &MsiBuilder, b2: &MsiBuilder, source: SourceFile, parent: Seq<char>) -> bool {
    exists|fid: Seq<char>, cid: Seq<char>| file_added(b, b2, source, parent, fid, cid)
}

/// The first `j` steps of a run of file additions that starts without a
/// disk: one disk, number 1, whose cabinet holds the `j` files in the order
/// they were added and whose last sequence number is `j`.
proof fn lemma_files_fill_prefix(bs: Seq<MsiBuilder>, sources: Seq<SourceFile>, parents: Seq<Seq<char>>, j: int)
    requires
        bs.len() == sources.len() + 1,
        parents.len() == sources.len(),
        bs[0].media_entries().len() == 0,
        forall|i: int| 0 <= i < sources.len() ==> #[trigger] file_step(&bs[i], &bs[i + 1], sources[i], parents[i]),
        1 <= j <= sources.len(),
    ensures
        bs[j].media_entries().len() == 1,
        bs[j].media_entries()[0].disk_id == 1,
        bs[j].media_entries()[0].last_sequence == j,
        last_media_cabinet_files(&bs[j]).len() == j,
        forall|i: int| 0 <= i < j ==> {
            &&& (#[trigger] last_media_cabinet_files(&bs[j])[i]).path == sources[i].path
            &&& last_media_cabinet_files(&bs[j])[i].id@ == bs[i + 1].file_entries().last().file@
        },
    decreases j,
{
    let s = j - 1;
    if j > 1 {
        lemma_files_fill_prefix(bs, sources, parents, s);
    }
    assert(file_step(&bs[s], &bs[s + 1], sources[s], parents[s]));
    let (fid, cid) = choose|fid: Seq<char>, cid: Seq<char>| #[trigger] file_added(&bs[s], &bs[s + 1], sources[s], parents[s], fid, cid);
    assert(bs[s + 1] == bs[j]);
    let before = last_media_cabinet_files(&bs[s]);
    let after = last_media_cabinet_files(&bs[j]);
    if j == 1 {
        assert(before.len() == 0);
    }
    assert(after.drop_last() == before);
    assert forall|i: int| 0 <= i < j implies {
        &&& (#[trigger] last_media_cabinet_files(&bs[j])[i]).path == sources[i].path
        &&& last_media_cabinet_files(&bs[j])[i].id@ == bs[i + 1].file_entries().last().file@
    } by {
        if i < s {
            assert(after[i] == after.drop_last()[i]);
        }
    }
}

/// Files added one after another to a package that has no disk yet all go
/// to one disk, number 1, with a cabinet: the cabinet lists the files in the
/// order in which they were added, each under the key of its File entry,
/// and the disk's last sequence number is the number of files.
pub proof fn lemma_files_fill_first_disk(bs: Seq<MsiBuilder>, sources: Seq<SourceFile>, parents: Seq<Seq<char>>)
    requires
        bs.len() == sources.len() + 1,
        parents.len() == sources.len(),
        sources.len() > 0,
        bs[0].media_entries().len() == 0,
        forall|i: int| 0 <= i < sources.len() ==> #[trigger] file_step(&bs[i], &bs[i + 1], sources[i], parents[i]),
    ensures
        bs.last().media_entries().len() == 1,
        bs.last().media_entries()[0].disk_id == 1,
        bs.last().media_entries()[0].cabinet is Some,
        bs.last().media_entries()[0].last_sequence == sources.len(),
        last_media_cabinet_files(&bs.last()).len() == sources.len(),
        forall|i: int| 0 <= i < sources.len() ==> {
            &&& (#[trigger] last_media_cabinet_files(&bs.last())[i]).path == sources[i].path
            &&& last_media_cabinet_files(&bs.last())[i].id@ == bs[i + 1].file_entries().last().file@
        },
{
    let k = sources.len() as int;
    lemma_files_fill_prefix(bs, sources, parents, k);
    assert(bs.last() == bs[k]);
}

/// What is found at a path on the building machine: a file to install, or
/// a directory named `name` with what it holds.
pub enum SourceTree {
    File(SourceFile),
    Directory { name: String, children: Vec<SourceTree> },
}

/// The parts of a builder that adding source files and directories changes.
pub open spec fn tree_parts() -> Set<Part> {
    set![
        Part::Identifiers,
        Part::Directory,
        Part::Cabinets,
        Part::Media,
        Part::File,
        Part::Component,
        Part::MsiFileHash,
        Part::FeatureComponents,
        Part::InstallExecuteSequence,
    ]
}

/// The key that the next directory added to `b` gets.
pub open spec fn next_directory_key(b: &MsiBuilder) -> Seq<char> {
    first_free_id(b.registered_ids(), "DIRECTORY_"@)
}

/// What adding `c` inside the directory keyed `parent` did to `b`, giving
/// `b2`: a file is added as by `add_file_path`; a directory is added as by
/// `add_directory`, under the next directory key, and then what it holds is
/// added inside it.
pub open spec fn child_added(b: &MsiBuilder, b2: &MsiBuilder, c: SourceTree, parent: Seq<char>) -> bool
    decreases c, 1int,
{
    match c {
        SourceTree::File(f) => exists|fid: Seq<char>, cid: Seq<char>| file_added(b, b2, f, parent, fid, cid),
        SourceTree::Directory { name, children } => {
            proof {
                assert(decreases_to!(children => children@));
            }
            exists|bm: MsiBuilder|
                #[trigger] directory_added(b, &bm, name@, parent, next_directory_key(b)) && children_added(
                    &bm,
                    b2,
                    children@,
                    next_directory_key(b),
                )
        },
    }
}

/// What adding each of `cs` in turn inside the directory keyed `parent` did
/// to `b`, giving `b2`, through consistent builders.
pub open spec fn children_added(b: &MsiBuilder, b2: &MsiBuilder, cs: Seq<SourceTree>, parent: Seq<char>) -> bool
    decreases cs, 0int,
{
    if cs.len() == 0 {
        *b2 == *b
    } else {
        proof {
            assert(decreases_to!(cs => cs[cs.len() - 1]));
            assert(decreases_to!(cs => cs.subrange(0, cs.len() - 1)));
        }
        exists|bm: MsiBuilder|
            #[trigger] bm.wf() && children_added(b, &bm, cs.subrange(0, cs.len() - 1), parent) && child_added(
                &bm,
                b2,
                cs[cs.len() - 1],
                parent,
            )
    }
}

/// Every directory name in `c` is a valid file name.
pub open spec fn tree_names_valid(c: SourceTree) -> bool
    decreases c, 1int,
{
    match c {
        SourceTree::File(_) => true,
        SourceTree::Directory { name, children } => {
            proof {
                assert(decreases_to!(children => children@));
            }
            valid_filename(name@) && all_names_valid(children@)
        },
    }
}

/// Every directory name in each of `cs` is a valid file name.
pub open spec fn all_names_valid(cs: Seq<SourceTree>) -> bool
    decreases cs, 0int,
{
    if cs.len() == 0 {
        true
    } else {
        proof {
            assert(decreases_to!(cs => cs[cs.len() - 1]));
            assert(decreases_to!(cs => cs.subrange(0, cs.len() - 1)));
        }
        all_names_valid(cs.subrange(0, cs.len() - 1)) && tree_names_valid(cs[cs.len() - 1])
    }
}

/// The number of files in `c`.
pub open spec fn tree_file_count(c: SourceTree) -> nat
    decreases c, 1int,
{
    match c {
        SourceTree::File(_) => 1,
        SourceTree::Directory { name, children } => {
            proof {
                assert(decreases_to!(children => children@));
            }
            all_file_count(children@)
        },
    }
}

/// The number of files in all of `cs`.
pub open spec fn all_file_count(cs: Seq<SourceTree>) -> nat
    decreases cs, 0int,
{
    if cs.len() == 0 {
        0
    } else {
        proof {
            assert(decreases_to!(cs => cs[cs.len() - 1]));
            assert(decreases_to!(cs => cs.subrange(0, cs.len() - 1)));
        }
        all_file_count(cs.subrange(0, cs.len() - 1)) + tree_file_count(cs[cs.len() - 1])
    }
}

/// What adding the contents at a path inside the directory keyed `parent`
/// did to `b`, giving `b2`: a file is added itself; for a directory, what it
/// holds is added, each in turn.
pub open spec fn tree_added(b: &MsiBuilder, b2: &MsiBuilder, tree: SourceTree, parent: Seq<char>) -> bool {
    match tree {
        SourceTree::File(_) => child_added(b, b2, tree, parent),
        SourceTree::Directory { name, children } => children_added(b, b2, children@, parent),
    }
}

/// Every directory name that adding the contents of `tree` uses is a valid
/// file name.
pub open spec fn contents_names_valid(tree: SourceTree) -> bool {
    match tree {
        SourceTree::File(_) => true,
        SourceTree::Directory { name, children } => all_names_valid(children@),
    }
}

/// The number of files that adding the contents of `tree` adds.
pub open spec fn contents_file_count(tree: SourceTree) -> nat {
    match tree {
        SourceTree::File(_) => 1,
        SourceTree::Directory { name, children } => all_file_count(children@),
    }
}

/// The counts and names of a prefix of `cs`, one more element at a time.
proof fn lemma_prefix_step(cs: Seq<SourceTree>, k: int)
    requires
        0 <= k < cs.len(),
    ensures
        all_file_count(cs.take(k + 1)) == all_file_count(cs.take(k)) + tree_file_count(cs[k]),
        all_names_valid(cs.take(k + 1)) == (all_names_valid(cs.take(k)) && tree_names_valid(cs[k])),
{
    let t = cs.take(k + 1);
    assert(t.subrange(0, t.len() - 1) =~= cs.take(k));
    assert(t[t.len() - 1] == cs[k]);
}

/// A prefix of `cs` holds no more files than `cs`, and its names are valid
/// when those of `cs` are.
proof fn lemma_prefix_bound(cs: Seq<SourceTree>, k: int)
    requires
        0 <= k <= cs.len(),
    ensures
        all_file_count(cs.take(k)) <= all_file_count(cs),
        all_names_valid(cs) ==> all_names_valid(cs.take(k)),
    decreases cs.len() - k,
{
    if k < cs.len() {
        lemma_prefix_step(cs, k);
        lemma_prefix_bound(cs, k + 1);
    } else {
        assert(cs.take(k) =~= cs);
    }
}

/// A copy of a source file.
fn copy_source(f: &SourceFile) -> (r: SourceFile)
    ensures
        r == *f,
{
    SourceFile { path: f.path.clone(), name: f.name.clone(), size: f.size, hash: f.hash }
}

impl MsiBuilder {
    /// Adds `c` inside the directory keyed `parent`: a file as by
    /// `add_file_path`; a directory as by `add_directory`, then what it
    /// holds inside it.
    fn add_child(&mut self, c: &SourceTree, parent: &DirectoryIdentifier) -> (r: Result<(), MsiBuilderError>)
        requires
            old(self).wf(),
        ensures
            final(self).wf(),
            same_except(&*old(self), &*final(self), tree_parts()),
            r matches Err(e) ==> e is InvalidFilename || e is SequenceOverflow,
            r is Ok ==> child_added(&*old(self), &*final(self), *c, parent@),
            r is Ok ==> last_media_cabinet_files(&*final(self)).len() == last_media_cabinet_files(&*old(self)).len()
                + tree_file_count(*c),
            tree_names_valid(*c) && last_media_cabinet_files(&*old(self)).len() + tree_file_count(*c) <= LAST_SEQUENCE_MAX
                ==> r is Ok,
        decreases c, 1int,
    {
        match c {
            SourceTree::File(f) => {
                let source = copy_source(f);
                let r = self.add_file_path(source, parent.clone());
                proof {
                    if r is Ok {
                        let (fid, cid) = choose|fid: Seq<char>, cid: Seq<char>|
                            file_added(&*old(self), &*self, *f, parent@, fid, cid);
                        assert(file_added(&*old(self), &*self, *f, parent@, fid, cid));
                        assert(*c == SourceTree::File(*f));
                        assert(child_added(&*old(self), &*self, SourceTree::File(*f), parent@));
                    }
                }
                r
            },
            SourceTree::Directory { name, children } => {
                let ghost b0 = *self;
                let id = match self.add_directory(name.as_str(), parent.clone()) {
                    Ok(id) => id,
                    Err(e) => {
                        return Err(e);
                    },
                };
                let ghost bm = *self;
                proof {
                    lemma_first_free_unique(b0.registered_ids(), "DIRECTORY_"@, id@);
                    assert(last_media_cabinet_files(&bm) == last_media_cabinet_files(&b0));
                    assert(decreases_to!(children => children@));
                }
                let r = self.add_children(children, &id);
                proof {
                    if r is Ok {
                        assert(directory_added(&b0, &bm, name@, parent@, next_directory_key(&b0)));
                        assert(children_added(&bm, &*self, children@, next_directory_key(&b0)));
                    }
                }
                r
            },
        }
    }

    /// Adds each of `cs` in turn inside the directory keyed `parent`,
    /// stopping at the first that fails.
    fn add_children(&mut self, cs: &Vec<SourceTree>, parent: &DirectoryIdentifier) -> (r: Result<(), MsiBuilderError>)
        requires
            old(self).wf(),
        ensures
            final(self).wf(),
            same_except(&*old(self), &*final(self), tree_parts()),
            r matches Err(e) ==> e is InvalidFilename || e is SequenceOverflow,
            r is Ok ==> children_added(&*old(self), &*final(self), cs@, parent@),
            r is Ok ==> last_media_cabinet_files(&*final(self)).len() == last_media_cabinet_files(&*old(self)).len()
                + all_file_count(cs@),
            all_names_valid(cs@) && last_media_cabinet_files(&*old(self)).len() + all_file_count(cs@) <= LAST_SEQUENCE_MAX
                ==> r is Ok,
        decreases cs, 0int,
    {
        let ghost b0 = *self;
        let ghost s = cs@;
        let ghost start = last_media_cabinet_files(&b0).len();
        let mut k: usize = 0;
        assert(s.take(0) =~= Seq::<SourceTree>::empty());
        while k < cs.len()
            invariant
                s == cs@,
                b0 == *old(self),
                start == last_media_cabinet_files(&b0).len(),
                k <= cs.len(),
                self.wf(),
                same_except(&b0, &*self, tree_parts()),
                children_added(&b0, &*self, s.take(k as int), parent@),
                last_media_cabinet_files(&*self).len() == start + all_file_count(s.take(k as int)),
            decreases cs.len() - k,
        {
            let ghost before = *self;
            proof {
                lemma_prefix_step(s, k as int);
                lemma_prefix_bound(s, k as int);
                lemma_prefix_bound(s, k + 1);
                if all_names_valid(s) {
                    assert(all_names_valid(s.take(k + 1)));
                }
                assert(decreases_to!(cs => cs[k as int]));
            }
            let r = self.add_child(&cs[k], parent);
            match r {
                Ok(()) => {},
                Err(e) => {
                    return Err(e);
                },
            }
            proof {
                let t = s.take(k + 1);
                assert(t.subrange(0, t.len() - 1) =~= s.take(k as int));
                assert(t[t.len() - 1] == s[k as int]);
                assert(children_added(&b0, &before, t.subrange(0, t.len() - 1), parent@));
                assert(child_added(&before, &*self, t[t.len() - 1], parent@));
                assert(t.len() > 0);
                assert(before.wf());
                assert(children_added(&b0, &*self, t, parent@));
            }
            k = k + 1;
        }
        assert(s.take(cs.len() as int) =~= s);
        Ok(())
    }

    /// Adds the contents found at a path inside the directory keyed
    /// `parent`: a file is added itself, as by `add_file_path`; for a
    /// directory, each file and directory it holds is added in turn, a file
    /// as by `add_file_path` and a directory as by `add_directory` followed
    /// by what it holds. Fails with `InvalidFilename` at a directory name
    /// that is no valid file name and with `SequenceOverflow` when the
    /// cabinet would count too many files; what was added before stays.
    /// Succeeds when every directory name is valid and the files fit.
    pub fn add_path_contents(&mut self, contents: &SourceTree, parent: DirectoryIdentifier) -> (r: Result<
        (),
        MsiBuilderError,
    >)
        requires
            old(self).wf(),
        ensures
            final(self).wf(),
            same_except(&*old(self), &*final(self), tree_parts()),
            r matches Err(e) ==> e is InvalidFilename || e is SequenceOverflow,
            r is Ok ==> tree_added(&*old(self), &*final(self), *contents, parent@),
            r is Ok ==> last_media_cabinet_files(&*final(self)).len() == last_media_cabinet_files(&*old(self)).len()
                + contents_file_count(*contents),
            contents_names_valid(*contents) && last_media_cabinet_files(&*old(self)).len() + contents_file_count(*contents)
                <= LAST_SEQUENCE_MAX ==> r is Ok,
    {
        match contents {
            SourceTree::File(_) => self.add_child(contents, &parent),
            SourceTree::Directory { name: _, children } => self.add_children(children, &parent),
        }
    }

    /// The builder with the contents found at a path added inside the
    /// directory keyed `parent`, as by `add_path_contents`.
    pub fn with_path_contents(self, contents: &SourceTree, parent: DirectoryIdentifier) -> (r: Result<
        MsiBuilder,
        MsiBuilderError,
    >)
        requires
            self.wf(),
        ensures
            r matches Err(e) ==> e is InvalidFilename || e is SequenceOverflow,
            r matches Ok(b) ==> b.wf() && tree_added(&self, &b, *contents, parent@),
            contents_names_valid(*contents) && last_media_cabinet_files(&self).len() + contents_file_count(*contents)
                <= LAST_SEQUENCE_MAX ==> r is Ok,
    {
        let mut b = self;
        match b.add_path_contents(contents, parent) {
            Ok(()) => Ok(b),
            Err(e) => Err(e),
        }
    }
}


/// Scheduling two different actions `a` then `c`: every action scheduled
/// before stays scheduled, `a` is scheduled, and so is `c` unless `a` was
/// scheduled already.
proof fn lemma_schedule_pair(s: Seq<SequenceDao>, a: StandardAction, c: StandardAction)
    requires
        a != c,
    ensures
        forall|x: StandardAction| #[trigger] schedules(s, x) ==> schedules(add_all_result(s, scheduled_all(seq![a, c])).0, x),
        schedules(add_all_result(s, scheduled_all(seq![a, c])).0, a),
        !schedules(s, a) ==> schedules(add_all_result(s, scheduled_all(seq![a, c])).0, c),
{
    let acts = seq![a, c];
    lemma_schedule_all(s, acts);
    lemma_schedule_keeps(s, acts);
    if !schedules(s, a) && !schedules(s, c) {
        assert forall|k: int| 0 <= k < acts.len() implies !schedules(s, #[trigger] acts[k]) by {
            if k == 0 {} else {}
        }
        assert(acts[1] == c);
    }
}

/// Scheduling actions keeps every action that was scheduled before.
proof fn lemma_schedule_keeps(s: Seq<SequenceDao>, acts: Seq<StandardAction>)
    ensures
        forall|x: StandardAction| #[trigger] schedules(s, x) ==> schedules(add_all_result(s, scheduled_all(acts)).0, x),
{
    let r = add_all_result(s, scheduled_all(acts)).0;
    lemma_schedule_all(s, acts);
    assert forall|x: StandardAction| #[trigger] schedules(s, x) implies schedules(r, x) by {
        let i = choose|i: int| 0 <= i < s.len() && (#[trigger] s[i]).action == crate::tables::sequence::ActionIdentifier::StandardAction(x);
        assert(r.take(s.len() as int)[i] == s[i]);
        assert(r[i] == s[i]);
    }
}

/// Adding a shortcut, with or without an icon, keeps every action that the
/// install sequence scheduled, schedules removing shortcuts, and schedules
/// creating them unless removing them was scheduled already.
pub proof fn lemma_shortcut_schedules_actions(
    b: &MsiBuilder,
    b2: &MsiBuilder,
    dir: Seq<char>,
    target: Shortcut,
    icon_path: Seq<char>,
    cid: Seq<char>,
    sid: Seq<char>,
    icon: Seq<char>,
)
    requires
        shortcut_added(b, b2, dir, target, icon_path, cid, sid, icon) || plain_shortcut_added(b, b2, dir, target, cid, sid),
    ensures
        forall|x: StandardAction| #[trigger] schedules(b.install_execute_sequence_entries(), x)
            ==> schedules(b2.install_execute_sequence_entries(), x),
        schedules(b2.install_execute_sequence_entries(), StandardAction::RemoveShortcuts),
        !schedules(b.install_execute_sequence_entries(), StandardAction::RemoveShortcuts)
            ==> schedules(b2.install_execute_sequence_entries(), StandardAction::CreateShortcuts),
{
    assert(shortcut_actions() =~= seq![StandardAction::RemoveShortcuts, StandardAction::CreateShortcuts]);
    lemma_schedule_pair(b.install_execute_sequence_entries(), StandardAction::RemoveShortcuts, StandardAction::CreateShortcuts);
}

/// Adding a file keeps every action that the install sequence scheduled,
/// schedules removing files, and schedules installing them unless removing
/// them was scheduled already.
pub proof fn lemma_file_schedules_actions(
    b: &MsiBuilder,
    b2: &MsiBuilder,
    source: SourceFile,
    parent: Seq<char>,
    fid: Seq<char>,
    cid: Seq<char>,
)
    requires
        file_added(b, b2, source, parent, fid, cid),
    ensures
        forall|x: StandardAction| #[trigger] schedules(b.install_execute_sequence_entries(), x)
            ==> schedules(b2.install_execute_sequence_entries(), x),
        schedules(b2.install_execute_sequence_entries(), StandardAction::RemoveFiles),
        !schedules(b.install_execute_sequence_entries(), StandardAction::RemoveFiles)
            ==> schedules(b2.install_execute_sequence_entries(), StandardAction::InstallFiles),
{
    assert(file_actions() =~= seq![StandardAction::RemoveFiles, StandardAction::InstallFiles]);
    lemma_schedule_pair(b.install_execute_sequence_entries(), StandardAction::RemoveFiles, StandardAction::InstallFiles);
}

/// Adding a directory keeps every action that the install sequence
/// scheduled, schedules removing folders, and schedules creating them
/// unless removing them was scheduled already.
pub proof fn lemma_directory_schedules_actions(b: &MsiBuilder, b2: &MsiBuilder, name: Seq<char>, parent: Seq<char>, id: Seq<char>)
    requires
        directory_added(b, b2, name, parent, id),
    ensures
        forall|x: StandardAction| #[trigger] schedules(b.install_execute_sequence_entries(), x)
            ==> schedules(b2.install_execute_sequence_entries(), x),
        schedules(b2.install_execute_sequence_entries(), StandardAction::RemoveFolders),
        !schedules(b.install_execute_sequence_entries(), StandardAction::RemoveFolders)
            ==> schedules(b2.install_execute_sequence_entries(), StandardAction::CreateFolders),
{
    assert(directory_actions() =~= seq![StandardAction::RemoveFolders, StandardAction::CreateFolders]);
    lemma_schedule_pair(b.install_execute_sequence_entries(), StandardAction::RemoveFolders, StandardAction::CreateFolders);
}

/// Installing a service keeps every action that the install sequence
/// scheduled and schedules stopping services; when none of stopping,
/// deleting, installing and starting services was scheduled before, all
/// four are scheduled afterwards.
pub proof fn lemma_service_schedules_actions(
    b: &MsiBuilder,
    b2: &MsiBuilder,
    name: Formatted,
    service_type: ServiceType,
    start_type: StartType,
    error_control: ErrorControl,
    file_id: Seq<char>,
    directory_id: Seq<char>,
    sid: Seq<char>,
    cid: Seq<char>,
)
    requires
        service_installed(b, b2, name, service_type, start_type, error_control, file_id, directory_id, sid, cid),
    ensures
        forall|x: StandardAction| #[trigger] schedules(b.install_execute_sequence_entries(), x)
            ==> schedules(b2.install_execute_sequence_entries(), x),
        schedules(b2.install_execute_sequence_entries(), StandardAction::StopServices),
        !schedules(b.install_execute_sequence_entries(), StandardAction::StopServices)
            && !schedules(b.install_execute_sequence_entries(), StandardAction::DeleteServices)
            && !schedules(b.install_execute_sequence_entries(), StandardAction::InstallServices)
            && !schedules(b.install_execute_sequence_entries(), StandardAction::StartServices) ==> {
            &&& schedules(b2.install_execute_sequence_entries(), StandardAction::DeleteServices)
            &&& schedules(b2.install_execute_sequence_entries(), StandardAction::InstallServices)
            &&& schedules(b2.install_execute_sequence_entries(), StandardAction::StartServices)
        },
{
    let s = b.install_execute_sequence_entries();
    let acts = service_actions();
    lemma_schedule_all(s, acts);
    lemma_schedule_keeps(s, acts);
    assert(acts[0] == StandardAction::StopServices);
    if !schedules(s, StandardAction::StopServices) && !schedules(s, StandardAction::DeleteServices)
        && !schedules(s, StandardAction::InstallServices) && !schedules(s, StandardAction::StartServices) {
        assert forall|k: int| 0 <= k < acts.len() implies !schedules(s, #[trigger] acts[k]) by {
            if k == 0 {} else if k == 1 {} else if k == 2 {} else {}
        }
        assert(acts.no_duplicates());
        assert(acts[1] == StandardAction::DeleteServices);
        assert(acts[2] == StandardAction::InstallServices);
        assert(acts[3] == StandardAction::StartServices);
    }
}
} // verus!
