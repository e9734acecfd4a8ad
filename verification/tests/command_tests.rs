use whimsi::builder::{MsiBuilder, SourceFile};
use whimsi::command::{
    add_components_to_directory_table, add_permissions, add_properties, add_services, control_event, find_icon_path,
    get_directory_id_of_path, IconLocation,
};
use whimsi::config::{ControlCondition, Permission, ServiceControlConfigInfo, ServiceInstallConfigInfo};
use whimsi::error::MsiBuilderError;
use whimsi::system_folder::SystemFolder;
use whimsi::tables::dao::{DaoContainer, IsDao};
use whimsi::tables::lock_permissions::{LockObject, LockPermissions};
use whimsi::tables::service::{ErrorControl, ServiceType, StartType};
use whimsi::types::Filename;
use whimsi::value::Value;

fn props(pairs: &[(&str, &str)]) -> Vec<(String, String)> {
    pairs.iter().map(|(k, v)| (k.to_string(), v.to_string())).collect()
}

fn str_row(cells: &[Option<&str>]) -> Vec<Value> {
    cells
        .iter()
        .map(|c| match c {
            Some(s) => Value::Str(s.to_string()),
            None => Value::Null,
        })
        .collect()
}

fn builder_with_tool() -> MsiBuilder {
    let mut b = MsiBuilder::default();
    let p = props(&[]);
    let dir = add_components_to_directory_table(&mut b, &p, "TARGETDIR", "[[ProgramFilesFolder]]/Manny").unwrap();
    b.add_file_path(
        SourceFile {
            path: "/src/tool.exe".to_string(),
            name: Filename::strict_parse("tool.exe").unwrap(),
            size: 100,
            hash: (0, 0, 0, 0),
        },
        dir,
    )
    .unwrap();
    b
}

fn service(executable: &str, control: Option<ServiceControlConfigInfo>) -> ServiceInstallConfigInfo {
    ServiceInstallConfigInfo {
        name: "manny".to_string(),
        description: "Unit test for WHIMSI".to_string(),
        executable: executable.to_string(),
        start_time: StartType::AutoStart,
        typ: ServiceType::OwnProcess,
        interactive: false,
        error_control: ErrorControl::Normal,
        vital: true,
        control,
    }
}

#[test]
fn components_become_directories_in_path_order() {
    let mut b = MsiBuilder::default();
    let p = props(&[("INSTALLDIR", "[[ProgramFilesFolder]]/Manny")]);
    let id = add_components_to_directory_table(&mut b, &p, "TARGETDIR", "[INSTALLDIR]/Bin").unwrap();
    assert_eq!(id.as_str(), "_DIRECTORY_1");
    let rows: Vec<Vec<Value>> = b.directory().entries().iter().map(|d| d.to_row()).collect();
    assert_eq!(
        rows,
        vec![
            str_row(&[Some("TARGETDIR"), None, Some("SourceDir")]),
            str_row(&[Some("ProgramFilesFolder"), Some("TARGETDIR"), Some(".")]),
            str_row(&[Some("_DIRECTORY_0"), Some("ProgramFilesFolder"), Some("Manny")]),
            str_row(&[Some("_DIRECTORY_1"), Some("_DIRECTORY_0"), Some("Bin")]),
        ]
    );
}

#[test]
fn components_with_an_unknown_property_fail() {
    let mut b = MsiBuilder::default();
    let p = props(&[]);
    let r = add_components_to_directory_table(&mut b, &p, "TARGETDIR", "[NOWHERE]/Bin");
    assert_eq!(r.unwrap_err(), MsiBuilderError::PropertyNotFound);
    assert!(b.directory().entries().is_empty());
}

#[test]
fn properties_are_added_in_order() {
    let mut b = MsiBuilder::default();
    let p = props(&[("Manny", "Bianca"), ("Fran", "Katz")]);
    add_properties(&mut b, &p).unwrap();
    assert_eq!(b.property_pairs(), p);
    let bad = props(&[("Dennis", "")]);
    assert_eq!(add_properties(&mut b, &bad).unwrap_err(), MsiBuilderError::EmptyPropertyValue);
}

#[test]
fn directory_id_of_a_folder_path_adds_the_folder() {
    let mut b = MsiBuilder::default();
    let p = props(&[]);
    let id = get_directory_id_of_path("[[DesktopFolder]]", &mut b, &p).unwrap();
    assert_eq!(id.as_str(), "DesktopFolder");
    assert_eq!(b.directory().entries().len(), 2);
    let mut b = builder_with_tool();
    let id = get_directory_id_of_path("[[ProgramFilesFolder]]/Manny", &mut b, &p).unwrap();
    assert_eq!(id.as_str(), "_DIRECTORY_0");
    assert!(get_directory_id_of_path("Nowhere", &mut b, &p).is_none());
}

#[test]
fn control_event_flags() {
    let control = ServiceControlConfigInfo {
        start: ControlCondition::Install,
        stop: ControlCondition::Uninstall,
        remove: ControlCondition::Uninstall,
        wait: true,
    };
    assert_eq!(control_event(&control).bits(), 321);
    let both = ServiceControlConfigInfo {
        start: ControlCondition::InstallAndUninstall,
        stop: ControlCondition::Never,
        remove: ControlCondition::Never,
        wait: false,
    };
    assert_eq!(control_event(&both).bits(), 0);
    let all_install = ServiceControlConfigInfo {
        start: ControlCondition::Install,
        stop: ControlCondition::Install,
        remove: ControlCondition::Install,
        wait: false,
    };
    assert_eq!(control_event(&all_install).bits(), 1 | 4 | 16);
}

#[test]
fn services_install_and_control() {
    let mut b = builder_with_tool();
    let control = ServiceControlConfigInfo {
        start: ControlCondition::Install,
        stop: ControlCondition::Uninstall,
        remove: ControlCondition::Uninstall,
        wait: true,
    };
    let services = vec![service("[[ProgramFilesFolder]]/Manny/tool.exe", Some(control))];
    add_services(&mut b, &services).unwrap();
    assert_eq!(b.service_install().entries().len(), 1);
    let install = &b.service_install().entries()[0];
    assert_eq!(install.service_type.value(), 16);
    assert_eq!(install.start_type.value(), 2);
    assert_eq!(install.error_control.value(), 1);
    assert_eq!(b.service_control().entries().len(), 1);
    assert_eq!(b.service_control().entries()[0].event.bits(), 321);
}

#[test]
fn service_with_unknown_executable_fails_and_changes_nothing() {
    let mut b = builder_with_tool();
    let services = vec![service("[[ProgramFilesFolder]]/Manny/none.exe", None)];
    assert_eq!(add_services(&mut b, &services).unwrap_err(), MsiBuilderError::ServiceExecutableNotFound);
    assert!(b.service_install().entries().is_empty());
}

#[test]
fn permissions_on_files() {
    let mut b = builder_with_tool();
    let p = props(&[]);
    let perms = vec![(
        "[[ProgramFilesFolder]]/Manny/tool.exe".to_string(),
        Permission { user: "Everyone".to_string(), level: LockPermissions::ALL },
    )];
    add_permissions(&mut b, &perms, &p).unwrap();
    let locks = b.lock_permissions().entries();
    assert_eq!(locks.len(), 1);
    let row = locks[0].to_row();
    assert_eq!(row[1], Value::Str("File".to_string()));
    assert_eq!(row[4], Value::Int(0));
    assert_eq!(add_permissions(&mut b, &perms, &p).unwrap_err(), MsiBuilderError::EntryConflict);
    let missing = vec![(
        "[[ProgramFilesFolder]]/Manny/none.exe".to_string(),
        Permission { user: "Everyone".to_string(), level: LockPermissions::WRITE },
    )];
    assert_eq!(add_permissions(&mut b, &missing, &p).unwrap_err(), MsiBuilderError::PermissionPathNotFound);
    let directory = vec![(
        "[[ProgramFilesFolder]]/Manny".to_string(),
        Permission { user: "Everyone".to_string(), level: LockPermissions::EXECUTE },
    )];
    assert_eq!(
        add_permissions(&mut b, &directory, &p).unwrap_err(),
        MsiBuilderError::UnsupportedDirectoryPermission
    );
    assert_eq!(b.lock_permissions().entries().len(), 1);
}

#[test]
fn lock_objects_name_their_tables() {
    let id = SystemFolder::TARGETDIR.to_identifier();
    assert_eq!(LockObject::File(id.clone()).table(), "File");
    assert_eq!(LockObject::Registry(id.clone()).table(), "Registry");
    assert_eq!(LockObject::ServiceInstall(id).table(), "ServiceInstall");
    assert_eq!(LockPermissions::ALL.mask(), 0x10000000);
    assert_eq!(LockPermissions::ALL.to_value(), Value::Int(0));
}

#[test]
fn icon_paths() {
    let names = vec!["app.ico".to_string(), "other.ico".to_string(), "dup.ico".to_string(), "dup.ico".to_string()];
    assert_eq!(find_icon_path("icons/app.ico", &names).unwrap(), IconLocation::UnderBase);
    assert_eq!(find_icon_path("other.ico", &names).unwrap(), IconLocation::Found(1));
    assert_eq!(find_icon_path("dup.ico", &names).unwrap_err(), MsiBuilderError::IconNotFound);
    assert_eq!(find_icon_path("none.ico", &names).unwrap_err(), MsiBuilderError::IconNotFound);
    assert_eq!(find_icon_path("/usr/share/app.ico", &names).unwrap(), IconLocation::UnderBase);
    assert_eq!(find_icon_path("/other.ico", &names).unwrap(), IconLocation::UnderBase);
}

#[test]
fn permissions_stop_at_the_first_conflict() {
    let mut b = builder_with_tool();
    let p = props(&[]);
    let perms = vec![
        (
            "[[ProgramFilesFolder]]/Manny/tool.exe".to_string(),
            Permission { user: "Everyone".to_string(), level: LockPermissions::ALL },
        ),
        (
            "[[ProgramFilesFolder]]/Manny/tool.exe".to_string(),
            Permission { user: "Admins".to_string(), level: LockPermissions::WRITE },
        ),
        (
            "[[ProgramFilesFolder]]/Manny/tool.exe".to_string(),
            Permission { user: "Everyone".to_string(), level: LockPermissions::EXECUTE },
        ),
    ];
    assert_eq!(add_permissions(&mut b, &perms, &p).unwrap_err(), MsiBuilderError::EntryConflict);
    let locks = b.lock_permissions().entries();
    assert_eq!(locks.len(), 2);
    assert_eq!(locks[0].to_row()[3], Value::Str("Everyone".to_string()));
    assert_eq!(locks[1].to_row()[3], Value::Str("Admins".to_string()));
}

#[test]
fn service_component_holds_the_executable() {
    let mut b = builder_with_tool();
    let file_key = b.file().entries()[0].file.as_str().to_string();
    let services = vec![service("[[ProgramFilesFolder]]/Manny/tool.exe", None)];
    add_services(&mut b, &services).unwrap();
    let install = &b.service_install().entries()[0];
    let component = b.component().entries().last().unwrap();
    let row = component.to_row();
    assert_eq!(row[0], Value::Str(install.component_.as_str().to_string()));
    assert_eq!(row[2], Value::Str("_DIRECTORY_0".to_string()));
    assert_eq!(row[5], Value::Str(file_key));
    assert!(b.service_control().entries().is_empty());
}
