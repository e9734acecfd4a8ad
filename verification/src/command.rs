//! Building a package from a configuration: its properties, the directories
//! of its install paths, its services and its permissions.

use vstd::prelude::*;
use crate::builder::{
    MsiBuilder, Part, builder_properties, directory_for_name, first_index, has_directory_file_name, has_file_name, ids_of_path,
    lemma_first_index, lemma_first_index_none, service_installed, directory_actions, directory_attempts, directory_named, directory_state,
    directory_steps, directory_view, folder_directory_view, same_except,
};
use crate::error::MsiBuilderError;
use crate::identifier::{DirectoryIdentifier, FileIdentifier, Identifier, valid_identifier};
use crate::registry::{first_free_id, lemma_first_free_unique, lemma_id_multiset_has};
use crate::resolve::{
    component_values, components_values, get_last_component, last_component_spec, pairs_view, path_components,
    path_components_spec, portable_path, path_resolves_portably, lemma_all_reach_each, resolve_components, result_view, strings_view,
};
use crate::system_folder::{SystemFolder, folder_name, parse_folder};
use crate::tables::dao::{DaoContainer, add_all_result};
use crate::tables::directory::DirectoryDao;
use crate::tables::sequence::{SequenceDao, scheduled_all};
use crate::types::{DefaultDir, Filename, same_default_dir, valid_filename};
use crate::config::{ControlCondition, Permission, ServiceControlConfigInfo, ServiceInstallConfigInfo};
use crate::tables::lock_permissions::{LockObject, LockPermissionsDao, lock_object_key, same_lock_object};
use crate::tables::service::{Event, ServiceInstallDao};

verus! {

/// What a directory entry says: its key, its parent's key and its name.
pub type DirectoryView = (Seq<char>, Option<Seq<char>>, Seq<char>);

/// The register, the directory entries, and the InstallExecuteSequence
/// rows.
pub type PathState = (Seq<Seq<char>>, Seq<DirectoryView>, Seq<SequenceDao>);

/// The register, the directory entries and the InstallExecuteSequence rows
/// of a builder.
pub open spec fn path_state(b: &MsiBuilder) -> PathState {
    (directory_state(b).0, directory_state(b).1, b.install_execute_sequence_entries())
}

/// The directory entries that adding the entry of a system folder tries.
pub open spec fn folder_attempts(f: SystemFolder) -> Seq<DirectoryView> {
    directory_attempts(folder_directory_view(f))
}

/// One component `name` of an install path added under the parent keyed
/// `parent`: a system folder gets its entry (and that of `TARGETDIR`), each
/// unless its key is registered, and becomes the parent; any other name
/// becomes a directory inside the parent under a fresh key `_DIRECTORY_<n>`,
/// with the folder actions scheduled, and becomes the parent. `None` when
/// the name is no valid file name.
pub open spec fn path_step(st: PathState, parent: Seq<char>, name: Seq<char>) -> Option<(PathState, Seq<char>)> {
    match parse_folder(name) {
        Some(f) => {
            let d = directory_steps((st.0, st.1), folder_attempts(f));
            Some(((d.0, d.1, st.2), folder_name(f)))
        },
        None => if valid_filename(name) {
            let id = first_free_id(st.0, "DIRECTORY_"@);
            let d = directory_steps((st.0, st.1), directory_attempts((id, Some(parent), name)));
            Some(((d.0, d.1, add_all_result(st.2, scheduled_all(directory_actions())).0), id))
        } else {
            None
        },
    }
}

/// The components `names` added in turn from the parent `parent`: the state
/// and the last parent, or the state where the first invalid name stopped.
pub open spec fn path_steps(st: PathState, parent: Seq<char>, names: Seq<Seq<char>>) -> (PathState, Option<Seq<char>>)
    decreases names.len(),
{
    if names.len() == 0 {
        (st, Some(parent))
    } else {
        let prev = path_steps(st, parent, names.drop_last());
        match prev.1 {
            None => prev,
            Some(p) => match path_step(prev.0, p, names.last()) {
                Some(next) => (next.0, Some(next.1)),
                None => (prev.0, None),
            },
        }
    }
}

/// Once adding the components stops at an invalid name, the rest are not
/// added.
proof fn lemma_path_steps_stop(st: PathState, parent: Seq<char>, names: Seq<Seq<char>>, k: int)
    requires
        0 <= k <= names.len(),
        path_steps(st, parent, names.take(k)).1 is None,
    ensures
        path_steps(st, parent, names) == path_steps(st, parent, names.take(k)),
    decreases names.len() - k,
{
    if k < names.len() {
        assert(names.take(k + 1).drop_last() =~= names.take(k));
        lemma_path_steps_stop(st, parent, names, k + 1);
    } else {
        assert(names.take(k) =~= names);
    }
}

/// Adds the directories of the install path `path`, whose components may
/// hold property references resolved with `properties`, starting from the
/// directory keyed `initial_parent`, and returns the key of the last one.
/// The resolved names are taken in path order, outermost first: a system
/// folder stands for itself, and every other name becomes a directory
/// inside the one before it, so `[[ProgramFilesFolder]]/Vendor` gives
/// `Vendor` inside `ProgramFilesFolder`. Fails with `InvalidIdentifier`, changing nothing, when `initial_parent`
/// is no identifier; with the error of resolving the components, changing
/// nothing; and with `InvalidFilename` at the first resolved name that is
/// neither a system folder nor a valid file name, the directories before it
/// added. The directories are stated for paths that every platform reads
/// alike whose resolution reaches only such property values (see
/// `path_resolves_portably`).
pub fn add_components_to_directory_table(
    builder: &mut MsiBuilder,
    properties: &Vec<(String, String)>,
    initial_parent: &str,
    path: &str,
) -> (r: Result<DirectoryIdentifier, MsiBuilderError>)
    requires
        old(builder).wf(),
    ensures
        final(builder).wf(),
        same_except(&*old(builder), &*final(builder), set![Part::Identifiers, Part::Directory, Part::InstallExecuteSequence]),
        !valid_identifier(initial_parent@) ==> (r matches Err(e) && e is InvalidIdentifier) && path_state(&*final(builder))
            == path_state(&*old(builder)),
        valid_identifier(initial_parent@) && path_resolves_portably(pairs_view(properties@), path@) ==> match components_values(
            pairs_view(properties@),
            path_components_spec(path@),
            properties@.len(),
        ) {
            Err(e) => r == Err::<DirectoryIdentifier, MsiBuilderError>(e) && path_state(&*final(builder)) == path_state(
                &*old(builder),
            ),
            Ok(names) => {
                let steps = path_steps(path_state(&*old(builder)), initial_parent@, names);
                &&& path_state(&*final(builder)) == steps.0
                &&& match steps.1 {
                    Some(id) => r matches Ok(d) && d@ == id,
                    None => r matches Err(e) && e is InvalidFilename,
                }
            },
        },
{
    let first = match Identifier::from_str(initial_parent) {
        Ok(p) => p,
        Err(e) => {
            return Err(e);
        },
    };
    let components = path_components(path);
    let names = match resolve_components(&components, properties) {
        Ok(n) => n,
        Err(e) => {
            return Err(e);
        },
    };
    let ghost start = path_state(&*builder);
    let ghost names_view = strings_view(names@);
    let mut parent = first;
    let mut i: usize = 0;
    assert(names_view.take(0) =~= Seq::<Seq<char>>::empty());
    while i < names.len()
        invariant
            builder.wf(),
            same_except(&*old(builder), &*builder, set![Part::Identifiers, Part::Directory, Part::InstallExecuteSequence]),
            start == path_state(&*old(builder)),
            names_view == strings_view(names@),
            valid_identifier(initial_parent@),
            path_resolves_portably(pairs_view(properties@), path@) ==> components_values(
                pairs_view(properties@),
                path_components_spec(path@),
                properties@.len(),
            ) == Ok::<Seq<Seq<char>>, MsiBuilderError>(names_view),
            i <= names.len(),
            path_steps(start, initial_parent@, names_view.take(i as int)) == (path_state(&*builder), Some(parent@)),
        decreases names.len() - i,
    {
        let ghost before = path_state(&*builder);
        let ghost p = parent@;
        let name = names[i].as_str();
        proof {
            assert(names_view.take(i + 1).drop_last() =~= names_view.take(i as int));
            assert(names_view.take(i + 1).last() == name@);
        }
        match SystemFolder::from_str(name) {
            Some(folder) => {
                let dao = DirectoryDao::from(folder);
                proof {
                    reveal_strlit("SourceDir");
                    reveal_strlit(".");
                    assert(directory_view(dao) == folder_directory_view(folder));
                }
                let _ = builder.add_directory_dao(dao);
                parent = folder.to_identifier();
            },
            None => {
                let ghost ids = before.0;
                match builder.add_directory(name, parent) {
                    Ok(id) => {
                        proof {
                            lemma_first_free_unique(ids, "DIRECTORY_"@, id@);
                        }
                        parent = id;
                    },
                    Err(e) => {
                        proof {
                            lemma_path_steps_stop(start, initial_parent@, names_view, i + 1);
                        }
                        return Err(e);
                    },
                }
            },
        }
        i = i + 1;
    }
    assert(names_view.take(names.len() as int) =~= names_view);
    Ok(parent)
}

/// What adding the properties `items` (name, value) in turn does to the
/// properties `entries`: each is appended, until the first that is refused,
/// whose error is returned: `InvalidIdentifier` for a name that is no
/// identifier, `EmptyPropertyValue` for an empty value, `EntryConflict` for
/// a name already set.
pub open spec fn property_steps(entries: Seq<(Seq<char>, Seq<char>)>, items: Seq<(Seq<char>, Seq<char>)>) -> (
    Seq<(Seq<char>, Seq<char>)>,
    Option<MsiBuilderError>,
)
    decreases items.len(),
{
    if items.len() == 0 {
        (entries, None)
    } else {
        let prev = property_steps(entries, items.drop_last());
        let (key, value) = items.last();
        if prev.1 is Some {
            prev
        } else if !valid_identifier(key) {
            (prev.0, Some(MsiBuilderError::InvalidIdentifier))
        } else if value.len() == 0 {
            (prev.0, Some(MsiBuilderError::EmptyPropertyValue))
        } else if exists|i: int| 0 <= i < prev.0.len() && (#[trigger] prev.0[i]).0 == key {
            (prev.0, Some(MsiBuilderError::EntryConflict))
        } else {
            (prev.0.push((key, value)), None)
        }
    }
}

/// Sets the properties `properties` (name, value) in turn, stopping at the
/// first that `MsiBuilder::add_property` refuses, with its error.
pub fn add_properties(builder: &mut MsiBuilder, properties: &Vec<(String, String)>) -> (r: Result<(), MsiBuilderError>)
    requires
        old(builder).wf(),
    ensures
        final(builder).wf(),
        same_except(&*old(builder), &*final(builder), set![Part::Property]),
        builder_properties(&*final(builder)) == property_steps(builder_properties(&*old(builder)), pairs_view(properties@)).0,
        match property_steps(builder_properties(&*old(builder)), pairs_view(properties@)).1 {
            Some(e) => r == Err::<(), MsiBuilderError>(e),
            None => r is Ok,
        },
{
    let ghost start = builder_properties(&*builder);
    let ghost items = pairs_view(properties@);
    let mut i: usize = 0;
    assert(items.take(0) =~= Seq::<(Seq<char>, Seq<char>)>::empty());
    while i < properties.len()
        invariant
            builder.wf(),
            same_except(&*old(builder), &*builder, set![Part::Property]),
            start == builder_properties(&*old(builder)),
            items == pairs_view(properties@),
            i <= properties.len(),
            property_steps(start, items.take(i as int)) == (builder_properties(&*builder), None::<MsiBuilderError>),
        decreases properties.len() - i,
    {
        let ghost before = *builder;
        proof {
            assert(items.take(i + 1).drop_last() =~= items.take(i as int));
            assert(items.take(i + 1).last() == (properties@[i as int].0@, properties@[i as int].1@));
        }
        let added = builder.add_property(properties[i].0.as_str(), properties[i].1.as_str());
        proof {
            let key = properties@[i as int].0@;
            let entries = before.property_entries();
            assert((exists|j: int| 0 <= j < builder_properties(&before).len() && (#[trigger] builder_properties(&before)[j]).0 == key)
                == (exists|j: int| 0 <= j < entries.len() && (#[trigger] entries[j]).property@ == key)) by {
                if exists|j: int| 0 <= j < entries.len() && (#[trigger] entries[j]).property@ == key {
                    let j = choose|j: int| 0 <= j < entries.len() && (#[trigger] entries[j]).property@ == key;
                    assert(builder_properties(&before)[j].0 == key);
                }
            }
            if added is Ok {
                assert(builder_properties(&*builder) =~= builder_properties(&before).push((key, properties@[i as int].1@)));
            }
        }
        match added {
            Ok(()) => {},
            Err(e) => {
                proof {
                    lemma_property_steps_stop(start, items, i + 1);
                }
                return Err(e);
            },
        }
        i = i + 1;
    }
    assert(items.take(properties.len() as int) =~= items);
    Ok(())
}

/// Once adding properties stops at a refused one, the rest are not added.
proof fn lemma_property_steps_stop(entries: Seq<(Seq<char>, Seq<char>)>, items: Seq<(Seq<char>, Seq<char>)>, k: int)
    requires
        0 <= k <= items.len(),
        property_steps(entries, items.take(k)).1 is Some,
    ensures
        property_steps(entries, items) == property_steps(entries, items.take(k)),
    decreases items.len() - k,
{
    if k < items.len() {
        assert(items.take(k + 1).drop_last() =~= items.take(k));
        lemma_property_steps_stop(entries, items, k + 1);
    } else {
        assert(items.take(k) =~= items);
    }
}

/// The key of the directory that the path `path` names, given the
/// properties `properties`: the system folder that the last value of its
/// last component names, whose entry (and that of `TARGETDIR`) is added to
/// the builder unless its key is registered; or else the first directory
/// with that file name. Stated for paths that every platform reads alike
/// whose resolution reaches only such property values.
pub fn get_directory_id_of_path(path: &str, builder: &mut MsiBuilder, properties: &Vec<(String, String)>) -> (r: Option<
    DirectoryIdentifier,
>)
    requires
        old(builder).wf(),
        path@.len() > 0,
    ensures
        final(builder).wf(),
        same_except(&*old(builder), &*final(builder), set![Part::Identifiers, Part::Directory]),
        path_resolves_portably(pairs_view(properties@), path@) ==> match last_component_spec(
            pairs_view(properties@),
            path@,
        ) {
            None => r is None && directory_state(&*final(builder)) == directory_state(&*old(builder)),
            Some(name) => match parse_folder(name) {
                Some(f) => (r matches Some(d) && d@ == folder_name(f)) && directory_state(&*final(builder)) == directory_steps(
                    directory_state(&*old(builder)),
                    folder_attempts(f),
                ),
                None => directory_state(&*final(builder)) == directory_state(&*old(builder)) && (if valid_filename(name) {
                    match directory_named(old(builder).directory_entries(), name) {
                        Some(d) => r matches Some(x) && x@ == d,
                        None => r is None,
                    }
                } else {
                    r is None
                }),
            },
        },
{
    let name = match get_last_component(path, properties) {
        Some(n) => n,
        None => {
            return None;
        },
    };
    match SystemFolder::from_str(name.as_str()) {
        Some(folder) => {
            let dao = DirectoryDao::from(folder);
            proof {
                reveal_strlit("SourceDir");
                reveal_strlit(".");
                assert(directory_view(dao) == folder_directory_view(folder));
            }
            let _ = builder.add_directory_dao(dao);
            return Some(folder.to_identifier());
        },
        None => {},
    }
    builder.directory_for(name.as_str())
}

/// The operation flags that a control condition asks for, given the flags
/// for doing it on installation and on uninstallation: none, one of them,
/// or, for both, the flags the two have in common.
pub open spec fn condition_bits(c: ControlCondition, install: i16, uninstall: i16) -> i16 {
    match c {
        ControlCondition::Never => 0,
        ControlCondition::Install => install,
        ControlCondition::Uninstall => uninstall,
        ControlCondition::InstallAndUninstall => install & uninstall,
    }
}

/// The operation flags of a service control: those for starting (1 on
/// installation, 32 on uninstallation), stopping (4, 64) and removing
/// (16, 256), added to no flags.
pub open spec fn control_bits(c: ServiceControlConfigInfo) -> i16 {
    ((0i16 | condition_bits(c.start, 1, 32)) | condition_bits(c.stop, 4, 64)) | condition_bits(c.remove, 16, 256)
}

fn condition_event(c: ControlCondition, install: Event, uninstall: Event) -> (r: Event)
    ensures
        r.bits == condition_bits(c, install.bits, uninstall.bits),
{
    match c {
        ControlCondition::Never => Event::empty(),
        ControlCondition::Install => install,
        ControlCondition::Uninstall => uninstall,
        ControlCondition::InstallAndUninstall => install.intersection(uninstall),
    }
}

/// The operations that a service control asks for.
pub fn control_event(control: &ServiceControlConfigInfo) -> (r: Event)
    ensures
        r.bits == control_bits(*control),
{
    let start = condition_event(control.start, Event::install_start(), Event::uninstall_start());
    let stop = condition_event(control.stop, Event::install_stop(), Event::uninstall_stop());
    let remove = condition_event(control.remove, Event::install_delete(), Event::uninstall_delete());
    Event::empty().union(start).union(stop).union(remove)
}

/// The number of services among `services` that have a control.
pub open spec fn control_count(services: Seq<ServiceInstallConfigInfo>) -> nat
    decreases services.len(),
{
    if services.len() == 0 {
        0
    } else {
        control_count(services.drop_last()) + if services.last().control is Some {
            1nat
        } else {
            0nat
        }
    }
}

/// Every executable of `services` is a path that every platform reads
/// alike.
pub open spec fn portable_executables(b: &MsiBuilder, services: Seq<ServiceInstallConfigInfo>) -> bool {
    forall|k: int|
        0 <= k < services.len() ==> path_resolves_portably(builder_properties(b), (#[trigger] services[k]).executable@)
}

/// The services `services` were installed into `b`, giving `b2`: one
/// ServiceInstall entry each, in order, with the service's name and types;
/// one Component entry each, in order, the service's component, in the
/// directory keyed `targets[k].1` with the file keyed `targets[k].0` as its
/// key path; and one ServiceControl entry for each service with a control,
/// in order, with the service's name, the control's operations and wait,
/// and the service's component.
pub open spec fn services_added(
    b: &MsiBuilder,
    b2: &MsiBuilder,
    services: Seq<ServiceInstallConfigInfo>,
    targets: Seq<(Seq<char>, Seq<char>)>,
) -> bool {
    let installs = b2.service_install_entries();
    let controls = b2.service_control_entries();
    let components = b2.component_entries();
    let n = b.service_install_entries().len();
    let m = b.service_control_entries().len();
    let c = b.component_entries().len();
    &&& installs.len() == n + services.len()
    &&& installs.take(n as int) == b.service_install_entries()
    &&& controls.len() == m + control_count(services)
    &&& controls.take(m as int) == b.service_control_entries()
    &&& components.len() == c + services.len()
    &&& components.take(c as int) == b.component_entries()
    &&& forall|k: int| 0 <= k < services.len() ==> {
        let s = #[trigger] services[k];
        let e = installs[n + k];
        let comp = components[c + k];
        &&& e.name@ == s.name@ && e.service_type == s.typ && e.start_type == s.start_time
        &&& e.error_control == s.error_control
        &&& comp.component@ == e.component_@ && comp.directory@ == targets[k].1
        &&& (comp.key_path matches Some(kp) && kp@ == targets[k].0)
        &&& s.control matches Some(c) ==> {
            let ctl = controls[m + control_count(services.take(k)) as int];
            &&& ctl.name@ == s.name@ && ctl.event.bits == control_bits(c)
            &&& ctl.wait == (if c.wait { Some(1i16) } else { None })
            &&& ctl.component_@ == e.component_@
        }
    }
}

/// How many services among the first `j` have a control grows with `j`,
/// and passing a service with a control adds one.
proof fn lemma_control_count_grows(s: Seq<ServiceInstallConfigInfo>, j: int, k: int)
    requires
        0 <= j <= k <= s.len(),
    ensures
        control_count(s.take(j)) <= control_count(s.take(k)),
        j < k && s[j].control is Some ==> control_count(s.take(j)) + 1 <= control_count(s.take(k)),
    decreases k - j,
{
    if j < k {
        lemma_control_count_grows(s, j, k - 1);
        assert(s.take(k).drop_last() =~= s.take(k - 1));
        if j == k - 1 {
            assert(s.take(k).last() == s[j]);
        }
    }
}

/// Adding one more service, as the loop of `add_services` does, extends
/// `services_added` by that service.
proof fn lemma_services_added_step(
    b0: MsiBuilder,
    before: MsiBuilder,
    after: MsiBuilder,
    services: Seq<ServiceInstallConfigInfo>,
    k: int,
    x: ServiceInstallDao,
    targets: Seq<(Seq<char>, Seq<char>)>,
)
    requires
        0 <= k < services.len(),
        k < targets.len(),
        services_added(&b0, &before, services.take(k), targets.take(k)),
        after.service_install_entries() == before.service_install_entries().push(x),
        after.component_entries().len() == before.component_entries().len() + 1,
        after.component_entries().drop_last() == before.component_entries(),
        after.component_entries().last().component@ == x.component_@,
        after.component_entries().last().directory@ == targets[k].1,
        after.component_entries().last().key_path matches Some(kp) && kp@ == targets[k].0,
        x.name@ == services[k].name@,
        x.service_type == services[k].typ,
        x.start_type == services[k].start_time,
        x.error_control == services[k].error_control,
        match services[k].control {
            Some(c) => {
                let t = after.service_control_entries().last();
                &&& after.service_control_entries() == before.service_control_entries().push(t)
                &&& t.name@ == services[k].name@ && t.event.bits == control_bits(c)
                &&& t.wait == (if c.wait { Some(1i16) } else { None })
                &&& t.component_@ == x.component_@
            },
            None => after.service_control_entries() == before.service_control_entries(),
        },
    ensures
        services_added(&b0, &after, services.take(k + 1), targets.take(k + 1)),
{
    let n = b0.service_install_entries().len();
    let m = b0.service_control_entries().len();
    let c = b0.component_entries().len();
    assert(after.component_entries().take(c as int) =~= before.component_entries().take(c as int));
    let s1 = services.take(k + 1);
    let s0 = services.take(k);
    assert(s1.drop_last() =~= s0);
    assert(s1.last() == services[k]);
    assert(after.service_install_entries().take(n as int) =~= before.service_install_entries().take(n as int));
    assert(after.service_control_entries().take(m as int) =~= before.service_control_entries().take(m as int));
    assert forall|j: int| 0 <= j < s1.len() implies {
        let s = #[trigger] s1[j];
        let e = after.service_install_entries()[n + j];
        let comp = after.component_entries()[c + j];
        &&& e.name@ == s.name@ && e.service_type == s.typ && e.start_type == s.start_time
        &&& e.error_control == s.error_control
        &&& comp.component@ == e.component_@ && comp.directory@ == targets.take(k + 1)[j].1
        &&& (comp.key_path matches Some(kp) && kp@ == targets.take(k + 1)[j].0)
        &&& s.control matches Some(c) ==> {
            let ctl = after.service_control_entries()[m + control_count(s1.take(j)) as int];
            &&& ctl.name@ == s.name@ && ctl.event.bits == control_bits(c)
            &&& ctl.wait == (if c.wait { Some(1i16) } else { None })
            &&& ctl.component_@ == e.component_@
        }
    } by {
        assert(s1.take(j) =~= services.take(j));
        if j < k {
            assert(s1[j] == s0[j]);
            assert(s0.take(j) =~= services.take(j));
            assert(after.service_install_entries()[n + j] == before.service_install_entries()[n + j]);
            assert(after.component_entries()[c + j] == before.component_entries()[c + j]);
            assert(targets.take(k + 1)[j] == targets.take(k)[j]);
            if s1[j].control is Some {
                lemma_control_count_grows(services, j, k);
                assert(after.service_control_entries()[m + control_count(services.take(j)) as int]
                    == before.service_control_entries()[m + control_count(services.take(j)) as int]);
            }
        }
    }
}

/// The keys of the file and of the directory that the executable path of
/// each of `services` names (see `ids_of_path`).
pub open spec fn executable_ids(b: &MsiBuilder, services: Seq<ServiceInstallConfigInfo>) -> Seq<(Seq<char>, Seq<char>)> {
    services.map_values(
        |s: ServiceInstallConfigInfo|
            match ids_of_path(b, s.executable@) {
                Some(t) => t,
                None => (Seq::empty(), Seq::empty()),
            },
    )
}

/// Installs the services `service_installs` in turn, each run from the file
/// that its executable path names (see `MsiBuilder::get_ids_of_path`), and
/// controls each service that has a control. Fails with
/// `ServiceExecutableNotFound`, changing nothing, when an executable names
/// no file; whether one does is stated for executable paths that every
/// platform reads alike whose resolution reaches only such property values.
pub fn add_services(builder: &mut MsiBuilder, service_installs: &Vec<ServiceInstallConfigInfo>) -> (r: Result<
    (),
    MsiBuilderError,
>)
    requires
        old(builder).wf(),
    ensures
        final(builder).wf(),
        same_except(
            &*old(builder),
            &*final(builder),
            set![
                Part::Identifiers,
                Part::Component,
                Part::FeatureComponents,
                Part::ServiceInstall,
                Part::ServiceControl,
                Part::InstallExecuteSequence,
            ],
        ),
        r matches Err(e) ==> e is ServiceExecutableNotFound && same_except(&*old(builder), &*final(builder), Set::empty()),
        portable_executables(&*old(builder), service_installs@) ==> (r is Ok <==> forall|k: int|
            0 <= k < service_installs@.len() ==> ids_of_path(&*old(builder), (#[trigger] service_installs@[k]).executable@) is Some),
        r is Ok ==> exists|targets: Seq<(Seq<char>, Seq<char>)>|
            services_added(&*old(builder), &*final(builder), service_installs@, targets),
        r is Ok && portable_executables(&*old(builder), service_installs@)
            ==> services_added(&*old(builder), &*final(builder), service_installs@, executable_ids(&*old(builder), service_installs@)),
{
    let ghost b0 = *builder;
    let ghost services = service_installs@;
    let mut targets: Vec<(FileIdentifier, DirectoryIdentifier)> = Vec::new();
    let mut i: usize = 0;
    while i < service_installs.len()
        invariant
            *builder == b0,
            b0.wf(),
            services == service_installs@,
            i <= service_installs.len(),
            targets@.len() == i,
            portable_executables(&b0, services) ==> forall|k: int|
                0 <= k < i ==> ids_of_path(&b0, (#[trigger] services[k]).executable@) == Some((targets@[k].0@, targets@[k].1@)),
        decreases service_installs.len() - i,
    {
        match builder.get_ids_of_path(service_installs[i].executable.as_str()) {
            Some(ids) => {
                proof {
                    if portable_executables(&b0, services) {
                        assert(path_resolves_portably(builder_properties(&b0), services[i as int].executable@));
                    }
                }
                targets.push(ids);
            },
            None => {
                return Err(MsiBuilderError::ServiceExecutableNotFound);
            },
        }
        i = i + 1;
    }
    let ghost target_view = targets@.map_values(|t: (FileIdentifier, DirectoryIdentifier)| (t.0@, t.1@));
    proof {
        if portable_executables(&b0, services) {
            assert(target_view =~= executable_ids(&b0, services));
        }
    }
    let n = builder.service_install().len();
    let m = builder.service_control().len();
    let mut k: usize = 0;
    assert(services.take(0) =~= Seq::<ServiceInstallConfigInfo>::empty());
    assert(b0.component_entries().take(b0.component_entries().len() as int) =~= b0.component_entries());
    assert(b0.service_install_entries().take(n as int) =~= b0.service_install_entries());
    assert(b0.service_control_entries().take(m as int) =~= b0.service_control_entries());
    assert(control_count(services.take(0)) == 0);
    while k < service_installs.len()
        invariant
            builder.wf(),
            services == service_installs@,
            targets@.len() == services.len(),
            n == b0.service_install_entries().len(),
            m == b0.service_control_entries().len(),
            k <= services.len(),
            same_except(
                &b0,
                &*builder,
                set![
                    Part::Identifiers,
                    Part::Component,
                    Part::FeatureComponents,
                    Part::ServiceInstall,
                    Part::ServiceControl,
                    Part::InstallExecuteSequence,
                ],
            ),
            services_added(&b0, &*builder, services.take(k as int), target_view.take(k as int)),
            target_view == targets@.map_values(|t: (FileIdentifier, DirectoryIdentifier)| (t.0@, t.1@)),
            portable_executables(&b0, services) ==> target_view == executable_ids(&b0, services),
        decreases services.len() - k,
    {
        let service = &service_installs[k];
        let ghost before = *builder;
        let service_id = match builder.add_service_install(
            service.name.clone(),
            service.typ,
            service.start_time,
            service.error_control,
            targets[k].0.clone(),
            targets[k].1.clone(),
        ) {
            Ok(id) => id,
            Err(e) => {
                return Err(e);
            },
        };
        let ghost middle = *builder;
        let ghost x = middle.service_install_entries().last();
        proof {
            let cid = choose|cid: Seq<char>|
                service_installed(&before, &middle, service.name, service.typ, service.start_time, service.error_control, targets@[k as int].0@, targets@[k as int].1@, service_id@, cid);
            assert(middle.service_install_entries() =~= before.service_install_entries().push(x));
            assert(target_view[k as int] == (targets@[k as int].0@, targets@[k as int].1@));
        }
        match &service.control {
            Some(control) => {
                let event = control_event(control);
                match builder.add_service_control(&service_id, service.name.clone(), event, control.wait) {
                    Ok(_) => {},
                    Err(e) => {
                        return Err(e);
                    },
                }
                proof {
                    let t = builder.service_control_entries().last();
                    assert(builder.service_control_entries() =~= middle.service_control_entries().push(t));
                    let i = choose|i: int|
                        0 <= i < middle.service_install_entries().len()
                            && (#[trigger] middle.service_install_entries()[i]).identifier@ == service_id@
                            && t.component_@ == middle.service_install_entries()[i].component_@;
                    let last = middle.service_install_entries().len() - 1;
                    if i != last {
                        let e = before.service_install_entries()[i];
                        assert(middle.service_install_entries()[i] == e);
                        lemma_id_multiset_has(before.service_install_entries(), i);
                        assert(before.package_ids().count(service_id@) > 0);
                    }
                }
            },
            None => {},
        }
        proof {
            lemma_services_added_step(b0, before, *builder, services, k as int, x, target_view);
            assert(target_view.take(k + 1).take(k as int) =~= target_view.take(k as int));
        }
        k = k + 1;
    }
    assert(services.take(services.len() as int) =~= services);
    assert(target_view.take(services.len() as int) =~= target_view);
    Ok(())
}

/// The key of the file that a permission path names: the first file named
/// by the last value of the path's last component. Fails with
/// `PermissionPathNotFound` when the path resolves to nothing or names no
/// file or directory, `InvalidFilename` when the name is no valid file name,
/// and `UnsupportedDirectoryPermission` when it names a directory.
pub open spec fn permission_target(b: &MsiBuilder, props: Seq<(Seq<char>, Seq<char>)>, path: Seq<char>) -> Result<
    Seq<char>,
    MsiBuilderError,
> {
    match last_component_spec(props, path) {
        None => Err(MsiBuilderError::PermissionPathNotFound),
        Some(name) => if !valid_filename(name) {
            Err(MsiBuilderError::InvalidFilename)
        } else {
            match first_index(b.file_entries(), has_file_name(name)) {
                Some(i) => Ok(b.file_entries()[i].file@),
                None => if directory_named(b.directory_entries(), name) is Some {
                    Err(MsiBuilderError::UnsupportedDirectoryPermission)
                } else {
                    Err(MsiBuilderError::PermissionPathNotFound)
                },
            }
        },
    }
}

/// The error kinds that resolving a permission path can give.
pub open spec fn permission_error(e: MsiBuilderError) -> bool {
    e is PermissionPathNotFound || e is InvalidFilename || e is UnsupportedDirectoryPermission
}

fn resolve_permission_target(builder: &MsiBuilder, path: &str, properties: &Vec<(String, String)>) -> (r: Result<
    FileIdentifier,
    MsiBuilderError,
>)
    ensures
        r matches Err(e) ==> permission_error(e),
        path_resolves_portably(pairs_view(properties@), path@) ==> match permission_target(
            builder,
            pairs_view(properties@),
            path@,
        ) {
            Ok(f) => r matches Ok(x) && x@ == f,
            Err(e) => r == Err::<FileIdentifier, MsiBuilderError>(e),
        },
{
    if path.unicode_len() == 0 {
        proof {
            assert(path@ =~= Seq::<char>::empty());
            crate::resolve::lemma_empty_path_components();
        }
        return Err(MsiBuilderError::PermissionPathNotFound);
    }
    let name = match get_last_component(path, properties) {
        Some(n) => n,
        None => {
            return Err(MsiBuilderError::PermissionPathNotFound);
        },
    };
    let filename = match Filename::strict_parse(name.as_str()) {
        Ok(f) => f,
        Err(e) => {
            return Err(e);
        },
    };
    let ghost p = has_file_name(name@);
    match builder.file().entry_with_name(name.as_str()) {
        Some(file) => {
            proof {
                let i = choose|i: int|
                    0 <= i < builder.file_entries().len() && builder.file_entries()[i] == *file && file.name@ == name@
                        && forall|k: int| 0 <= k < i ==> (#[trigger] builder.file_entries()[k]).name@ != name@;
                assert forall|k: int| 0 <= k < i implies !#[trigger] p(builder.file_entries()[k]) by {}
                lemma_first_index(builder.file_entries(), p, i);
            }
            Ok(file.file.clone())
        },
        None => {
            proof {
                assert forall|k: int| 0 <= k < builder.file_entries().len() implies !#[trigger] p(builder.file_entries()[k]) by {}
                lemma_first_index_none(builder.file_entries(), p);
            }
            let key = DefaultDir::Filename(filename);
            let ghost q = has_directory_file_name(name@);
            match builder.directory().entry_with_name(&key) {
                Some(d) => {
                    proof {
                        let i = choose|i: int|
                            0 <= i < builder.directory_entries().len() && builder.directory_entries()[i] == *d
                                && same_default_dir(d.default_dir, key) && forall|k: int|
                                0 <= k < i ==> !same_default_dir((#[trigger] builder.directory_entries()[k]).default_dir, key);
                        assert forall|k: int| 0 <= k < i implies !#[trigger] q(builder.directory_entries()[k]) by {
                            assert(!same_default_dir(builder.directory_entries()[k].default_dir, key));
                        }
                        lemma_first_index(builder.directory_entries(), q, i);
                    }
                    Err(MsiBuilderError::UnsupportedDirectoryPermission)
                },
                None => {
                    proof {
                        assert forall|k: int| 0 <= k < builder.directory_entries().len() implies !#[trigger] q(builder.directory_entries()[k]) by {
                            assert(!same_default_dir(builder.directory_entries()[k].default_dir, key));
                        }
                        lemma_first_index_none(builder.directory_entries(), q);
                    }
                    Err(MsiBuilderError::PermissionPathNotFound)
                },
            }
        },
    }
}

/// The first permission of `items` whose path fails to resolve, if any, and
/// its error.
pub open spec fn first_permission_failure(
    b: &MsiBuilder,
    props: Seq<(Seq<char>, Seq<char>)>,
    items: Seq<(String, Permission)>,
) -> Option<MsiBuilderError>
    decreases items.len(),
{
    if items.len() == 0 {
        None
    } else {
        match first_permission_failure(b, props, items.drop_last()) {
            Some(e) => Some(e),
            None => match permission_target(b, props, items.last().0@) {
                Err(e) => Some(e),
                Ok(_) => None,
            },
        }
    }
}

/// Every path of `items` is a path that every platform reads alike.
pub open spec fn portable_permission_paths(props: Seq<(Seq<char>, Seq<char>)>, items: Seq<(String, Permission)>) -> bool {
    forall|k: int| 0 <= k < items.len() ==> path_resolves_portably(props, (#[trigger] items[k]).0@)
}

/// The permissions `items` were set in `b`, giving `b2`: one
/// LockPermissions entry each, in order, on the file keyed `targets[k]`,
/// for the item's user, with its level, in no domain.
pub open spec fn permissions_added(b: &MsiBuilder, b2: &MsiBuilder, targets: Seq<Seq<char>>, items: Seq<(String, Permission)>) -> bool {
    let n = b.lock_permissions_entries().len();
    let locks = b2.lock_permissions_entries();
    &&& locks.len() == n + items.len()
    &&& locks.take(n as int) == b.lock_permissions_entries()
    &&& forall|k: int| 0 <= k < items.len() ==> {
        let e = #[trigger] locks[n + k];
        &&& e.lock_object is File && lock_object_key(e.lock_object) == targets[k]
        &&& e.user@ == items[k].1.user@ && e.permission == items[k].1.level && e.domain is None
    }
}

/// The keys of the files that the paths of `items` name, each path
/// resolved with `props` (see `permission_target`).
pub open spec fn permission_targets(
    b: &MsiBuilder,
    props: Seq<(Seq<char>, Seq<char>)>,
    items: Seq<(String, Permission)>,
) -> Seq<Seq<char>> {
    items.map_values(
        |it: (String, Permission)|
            match permission_target(b, props, it.0@) {
                Ok(t) => t,
                Err(_) => Seq::empty(),
            },
    )
}

/// Whether `user` holds, in no domain, a lock on the file keyed `target`
/// among `locks`.
pub open spec fn lock_taken(locks: Seq<LockPermissionsDao>, target: Seq<char>, user: Seq<char>) -> bool {
    exists|i: int|
        0 <= i < locks.len() && (#[trigger] locks[i]).lock_object is File && lock_object_key(locks[i].lock_object)
            == target && locks[i].domain is None && locks[i].user@ == user
}

/// Whether the `k`th permission of `items`, on the file keyed `targets[k]`,
/// cannot be set after those before it: its user holds a lock on that file
/// among `locks` already, or an earlier permission is for the same user on
/// the same file.
pub open spec fn permission_conflicts(
    locks: Seq<LockPermissionsDao>,
    targets: Seq<Seq<char>>,
    items: Seq<(String, Permission)>,
    k: int,
) -> bool {
    ||| lock_taken(locks, targets[k], items[k].1.user@)
    ||| exists|j: int| 0 <= j < k && targets[j] == targets[k] && (#[trigger] items[j]).1.user@ == items[k].1.user@
}

/// Sets the permissions `permissions` (path, permission), each on the file
/// that its path names (see `permission_target`), resolved with
/// `properties`. Every path is resolved first: the first that fails gives
/// the error, and nothing changes. Then the permissions are set in turn,
/// stopping with `EntryConflict` at the first that conflicts (see
/// `permission_conflicts`), those before it set. Stated for paths that every
/// platform reads alike whose resolution reaches only such property values.
pub fn add_permissions(
    builder: &mut MsiBuilder,
    permissions: &Vec<(String, Permission)>,
    properties: &Vec<(String, String)>,
) -> (r: Result<(), MsiBuilderError>)
    requires
        old(builder).wf(),
    ensures
        final(builder).wf(),
        same_except(&*old(builder), &*final(builder), set![Part::LockPermissions]),
        r matches Err(e) ==> permission_error(e) || e is EntryConflict,
        r matches Err(e) && permission_error(e) ==> same_except(&*old(builder), &*final(builder), Set::empty()),
        portable_permission_paths(pairs_view(properties@), permissions@) ==> match first_permission_failure(
            &*old(builder),
            pairs_view(properties@),
            permissions@,
        ) {
            Some(e) => r == Err::<(), MsiBuilderError>(e),
            None => {
                let targets = permission_targets(&*old(builder), pairs_view(properties@), permissions@);
                let locks = old(builder).lock_permissions_entries();
                &&& r is Ok <==> forall|k: int|
                    0 <= k < permissions@.len() ==> !#[trigger] permission_conflicts(locks, targets, permissions@, k)
                &&& r is Ok ==> permissions_added(&*old(builder), &*final(builder), targets, permissions@)
                &&& r is Err ==> exists|k: int|
                    0 <= k < permissions@.len() && #[trigger] permission_conflicts(locks, targets, permissions@, k)
                        && (forall|j: int| 0 <= j < k ==> !#[trigger] permission_conflicts(locks, targets, permissions@, j))
                        && permissions_added(&*old(builder), &*final(builder), targets.take(k), permissions@.take(k))
            },
        },
        r is Ok ==> exists|targets: Seq<Seq<char>>| permissions_added(&*old(builder), &*final(builder), targets, permissions@),
{
    let ghost b0 = *builder;
    let ghost props = pairs_view(properties@);
    let ghost items = permissions@;
    let mut targets: Vec<FileIdentifier> = Vec::new();
    let mut i: usize = 0;
    assert(items.take(0) =~= Seq::<(String, Permission)>::empty());
    while i < permissions.len()
        invariant
            b0 == *old(builder),
            *builder == b0,
            b0.wf(),
            props == pairs_view(properties@),
            items == permissions@,
            i <= permissions.len(),
            targets@.len() == i,
            portable_permission_paths(props, items) ==> first_permission_failure(&b0, props, items.take(i as int)) is None,
            portable_permission_paths(props, items) ==> forall|j: int|
                0 <= j < i ==> permission_target(&b0, props, #[trigger] items[j].0@) == Ok::<Seq<char>, MsiBuilderError>(targets@[j]@),
        decreases permissions.len() - i,
    {
        proof {
            assert(items.take(i + 1).drop_last() =~= items.take(i as int));
            assert(items.take(i + 1).last() == items[i as int]);
        }
        match resolve_permission_target(builder, permissions[i].0.as_str(), properties) {
            Ok(f) => {
                proof {
                    if portable_permission_paths(props, items) {
                        assert(path_resolves_portably(props, items[i as int].0@));
                    }
                }
                targets.push(f);
            },
            Err(e) => {
                proof {
                    if portable_permission_paths(props, items) {
                        assert(path_resolves_portably(props, items[i as int].0@));
                        lemma_permission_failure_stops(b0, props, items, i + 1);
                    }
                }
                return Err(e);
            },
        }
        i = i + 1;
    }
    let ghost target_view = targets@.map_values(|t: FileIdentifier| t@);
    assert(items.take(items.len() as int) =~= items);
    proof {
        if portable_permission_paths(props, items) {
            assert(target_view =~= permission_targets(&b0, props, items));
        }
    }
    let ghost locks0 = b0.lock_permissions_entries();
    let n = builder.lock_permissions().len();
    let mut k: usize = 0;
    assert(b0.lock_permissions_entries().take(n as int) =~= b0.lock_permissions_entries());
    while k < permissions.len()
        invariant
            builder.wf(),
            b0 == *old(builder),
            items == permissions@,
            targets@.len() == items.len(),
            target_view == targets@.map_values(|t: FileIdentifier| t@),
            n == b0.lock_permissions_entries().len(),
            k <= items.len(),
            props == pairs_view(properties@),
            portable_permission_paths(props, items) ==> first_permission_failure(&b0, props, items) is None,
            same_except(&b0, &*builder, set![Part::LockPermissions]),
            permissions_added(&b0, &*builder, target_view.take(k as int), items.take(k as int)),
            locks0 == b0.lock_permissions_entries(),
            portable_permission_paths(props, items) ==> target_view == permission_targets(&b0, props, items),
            forall|j: int| 0 <= j < k ==> !#[trigger] permission_conflicts(locks0, target_view, items, j),
        decreases items.len() - k,
    {
        let ghost before = *builder;
        proof {
            let locks = builder.lock_permissions_entries();
            let lo = LockObject::File(targets@[k as int]);
            let u = items[k as int].1.user@;
            let taken = exists|i: int|
                0 <= i < locks.len() && same_lock_object((#[trigger] locks[i]).lock_object, lo) && locks[i].domain is None
                    && locks[i].user@ == u;
            if taken {
                let i = choose|i: int|
                    0 <= i < locks.len() && same_lock_object((#[trigger] locks[i]).lock_object, lo) && locks[i].domain is None
                        && locks[i].user@ == u;
                if i < n {
                    assert(locks.take(n as int)[i] == locks0[i]);
                    assert(lock_taken(locks0, target_view[k as int], u));
                } else {
                    let j = i - n;
                    assert(locks[n + j].lock_object is File && lock_object_key(locks[n + j].lock_object) == target_view.take(k as int)[j]);
                    assert(items.take(k as int)[j] == items[j]);
                    assert(target_view[j] == target_view[k as int]);
                    assert(items[j].1.user@ == u);
                }
                assert(permission_conflicts(locks0, target_view, items, k as int));
            } else {
                if lock_taken(locks0, target_view[k as int], u) {
                    let i = choose|i: int|
                        0 <= i < locks0.len() && (#[trigger] locks0[i]).lock_object is File && lock_object_key(locks0[i].lock_object)
                            == target_view[k as int] && locks0[i].domain is None && locks0[i].user@ == u;
                    assert(locks.take(n as int)[i] == locks[i]);
                    assert(same_lock_object(locks[i].lock_object, lo));
                }
                if exists|j: int| 0 <= j < k && target_view[j] == target_view[k as int] && (#[trigger] items[j]).1.user@ == u {
                    let j = choose|j: int| 0 <= j < k && target_view[j] == target_view[k as int] && (#[trigger] items[j]).1.user@ == u;
                    assert(items.take(k as int)[j] == items[j]);
                    assert(target_view.take(k as int)[j] == target_view[j]);
                    assert(same_lock_object(locks[n + j].lock_object, lo));
                }
                assert(!permission_conflicts(locks0, target_view, items, k as int));
            }
        }
        let added = builder.add_lock_permissions(
            LockObject::File(targets[k].clone()),
            permissions[k].1.user.clone(),
            permissions[k].1.level,
        );
        match added {
            Ok(()) => {},
            Err(e) => {
                proof {
                    assert(permission_conflicts(locks0, target_view, items, k as int));
                    assert(builder.lock_permissions_entries() == before.lock_permissions_entries());
                }
                return Err(e);
            },
        }
        proof {
            let locks = builder.lock_permissions_entries();
            assert(locks.take(n as int) =~= before.lock_permissions_entries().take(n as int));
            assert forall|j: int| 0 <= j < k + 1 implies {
                let e = #[trigger] locks[n + j];
                &&& e.lock_object is File && lock_object_key(e.lock_object) == target_view.take(k + 1)[j]
                &&& e.user@ == items.take(k + 1)[j].1.user@ && e.permission == items.take(k + 1)[j].1.level
                &&& e.domain is None
            } by {
                if j < k {
                    assert(locks[n + j] == before.lock_permissions_entries()[n + j]);
                    assert(target_view.take(k as int)[j] == target_view.take(k + 1)[j]);
                    assert(items.take(k as int)[j] == items.take(k + 1)[j]);
                }
            }
        }
        k = k + 1;
    }
    assert(items.take(items.len() as int) =~= items);
    assert(permissions_added(&b0, &*builder, target_view.take(items.len() as int), items));
    Ok(())
}

/// Once a path fails to resolve, it is the first failure of the whole list.
proof fn lemma_permission_failure_stops(b: MsiBuilder, props: Seq<(Seq<char>, Seq<char>)>, items: Seq<(String, Permission)>, k: int)
    requires
        0 <= k <= items.len(),
        first_permission_failure(&b, props, items.take(k)) is Some,
    ensures
        first_permission_failure(&b, props, items) == first_permission_failure(&b, props, items.take(k)),
    decreases items.len() - k,
{
    if k < items.len() {
        assert(items.take(k + 1).drop_last() =~= items.take(k));
        lemma_permission_failure_stops(b, props, items, k + 1);
    } else {
        assert(items.take(k) =~= items);
    }
}

/// Where the icon of a shortcut is found.
#[derive(Clone, Copy, Debug, PartialEq, Eq, Structural)]
pub enum IconLocation {
    /// The icon path has more than one component: it is taken relative to
    /// the base path.
    UnderBase,
    /// The icon path is a bare file name: the candidate file at this
    /// position is the one file of that name.
    Found(usize),
}

/// How many of `names` are `name`.
pub open spec fn name_count(names: Seq<Seq<char>>, name: Seq<char>) -> nat
    decreases names.len(),
{
    if names.len() == 0 {
        0
    } else {
        name_count(names.drop_last(), name) + if names.last() == name {
            1nat
        } else {
            0nat
        }
    }
}

/// Finds the icon file that `icon_path` names. A path of more than one
/// component is taken relative to the base path; a bare file name must be
/// the name of exactly one of the candidate files `candidate_names` (the
/// names of the files under the configured paths), else the icon is not
/// found. Stated for paths that every platform reads alike.
pub fn find_icon_path(icon_path: &str, candidate_names: &Vec<String>) -> (r: Result<IconLocation, MsiBuilderError>)
    ensures
        r matches Err(e) ==> e is IconNotFound,
        portable_path(icon_path@) ==> {
            let components = path_components_spec(icon_path@);
            if components.len() > 1 {
                r matches Ok(IconLocation::UnderBase)
            } else if components.len() == 0 || components[0] == seq!['.'] {
                r is Err
            } else if name_count(strings_view(candidate_names@), components[0]) == 1 {
                r matches Ok(IconLocation::Found(k)) && k < candidate_names@.len() && candidate_names@[k as int]@
                    == components[0]
            } else {
                r is Err
            }
        },
{
    let components = path_components(icon_path);
    if components.len() > 1 {
        return Ok(IconLocation::UnderBase);
    }
    if components.len() == 0 {
        return Err(MsiBuilderError::IconNotFound);
    }
    let name = components[0].as_str();
    proof {
        reveal_strlit(".");
        assert("."@ =~= seq!['.']);
    }
    if crate::text::str_eq(name, ".") {
        return Err(MsiBuilderError::IconNotFound);
    }
    let ghost names = strings_view(candidate_names@);
    let mut found: Option<usize> = None;
    let mut count: usize = 0;
    let mut i: usize = 0;
    assert(names.take(0) =~= Seq::<Seq<char>>::empty());
    while i < candidate_names.len()
        invariant
            names == strings_view(candidate_names@),
            i <= candidate_names.len(),
            count == name_count(names.take(i as int), name@),
            count <= i,
            count == 0 <==> found is None,
            found matches Some(k) ==> k < i && candidate_names@[k as int]@ == name@,
        decreases candidate_names.len() - i,
    {
        assert(names.take(i + 1).drop_last() =~= names.take(i as int));
        assert(names.take(i + 1).last() == candidate_names@[i as int]@);
        if crate::text::str_eq(candidate_names[i].as_str(), name) {
            count = count + 1;
            if found.is_none() {
                found = Some(i);
            }
        }
        i = i + 1;
    }
    assert(names.take(candidate_names.len() as int) =~= names);
    if count == 1 {
        match found {
            Some(k) => Ok(IconLocation::Found(k)),
            None => Err(MsiBuilderError::IconNotFound),
        }
    } else {
        Err(MsiBuilderError::IconNotFound)
    }
}

} // verus!
