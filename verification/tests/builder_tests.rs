use whimsi::builder::{MsiBuilder, SourceFile, SourceTree};
use whimsi::error::MsiBuilderError;
use whimsi::identifier::Identifier;
use whimsi::system_folder::SystemFolder;
use whimsi::tables::dao::{DaoContainer, IsDao};
use whimsi::tables::directory::DirectoryDao;
use whimsi::types::{Filename, Shortcut};
use whimsi::value::Value;

fn id(s: &str) -> Identifier {
    Identifier::from_str(s).unwrap()
}

fn str_row(cells: &[Option<&str>]) -> Vec<Value> {
    cells
        .iter()
        .map(|c| match c {
            Some(s) => Value::Str(s.to_string()),
            None => Value::Null,
        })
        .collect()
}

fn source(path: &str, name: &str) -> SourceFile {
    SourceFile {
        path: path.to_string(),
        name: Filename::strict_parse(name).unwrap(),
        size: 12,
        hash: (1, 2, 3, 4),
    }
}

#[test]
fn default_builder_holds_default_feature_and_standard_actions() {
    let b = MsiBuilder::default();
    assert!(b.meta().is_none());
    assert_eq!(b.identifiers().len(), 1);
    assert_eq!(b.identifiers()[0].as_str(), "DEFAULT_FEATURE");
    let feature = b.feature().get_default_feature().expect("default feature");
    assert_eq!(feature.title.as_deref(), Some("Default Feature"));
    assert_eq!(feature.display, Some(2));
    assert_eq!(feature.level, 1);
    assert_eq!(feature.attributes, 0);
    assert!(b.directory().entries().is_empty());
    assert!(b.file().entries().is_empty());
    assert!(!b.install_execute_sequence().entries().is_empty());
    assert!(!b.install_ui_sequence().entries().is_empty());
    assert!(!b.admin_execute_sequence().entries().is_empty());
    assert!(!b.admin_ui_sequence().entries().is_empty());
    assert!(!b.advt_execute_sequence().entries().is_empty());
}

#[test]
fn add_directory_gets_first_free_key_and_parent_folders() {
    let mut b = MsiBuilder::default();
    let d0 = b.add_directory("Manny", SystemFolder::ProgramFilesFolder.to_identifier()).unwrap();
    assert_eq!(d0.as_str(), "_DIRECTORY_0");
    let d1 = b.add_directory("Dennis", d0.clone()).unwrap();
    assert_eq!(d1.as_str(), "_DIRECTORY_1");
    let rows: Vec<Vec<Value>> = b.directory().entries().iter().map(|d| d.to_row()).collect();
    assert_eq!(
        rows,
        vec![
            str_row(&[Some("TARGETDIR"), None, Some("SourceDir")]),
            str_row(&[Some("ProgramFilesFolder"), Some("TARGETDIR"), Some(".")]),
            str_row(&[Some("_DIRECTORY_0"), Some("ProgramFilesFolder"), Some("Manny")]),
            str_row(&[Some("_DIRECTORY_1"), Some("_DIRECTORY_0"), Some("Dennis")]),
        ]
    );
}

#[test]
fn add_directory_with_invalid_name_changes_nothing() {
    let mut b = MsiBuilder::default();
    let r = b.add_directory("a/b", SystemFolder::TARGETDIR.to_identifier());
    assert_eq!(r.unwrap_err(), MsiBuilderError::InvalidFilename);
    assert!(b.directory().entries().is_empty());
    assert_eq!(b.identifiers().len(), 1);
}

#[test]
fn add_directory_dao_of_a_folder_twice_conflicts() {
    let mut b = MsiBuilder::default();
    b.add_directory_dao(DirectoryDao::from(SystemFolder::DesktopFolder)).unwrap();
    assert_eq!(b.directory().entries().len(), 2);
    let again = b.add_directory_dao(DirectoryDao::from(SystemFolder::DesktopFolder));
    assert!(matches!(again, Err(MsiBuilderError::IdentifierConflict { .. })));
    assert_eq!(b.directory().entries().len(), 2);
}

#[test]
fn files_get_sequence_numbers_in_order_and_share_a_cabinet() {
    let mut b = MsiBuilder::default();
    let dir = b.add_directory("Manny", SystemFolder::ProgramFilesFolder.to_identifier()).unwrap();
    b.add_file_path(source("/src/a.txt", "a.txt"), dir.clone()).unwrap();
    b.add_file_path(source("/src/b.txt", "b.txt"), dir.clone()).unwrap();
    b.add_file_path(source("/src/c.txt", "c.txt"), dir.clone()).unwrap();
    let sequences: Vec<i32> = b.file().entries().iter().map(|f| f.sequence).collect();
    assert_eq!(sequences, vec![1, 2, 3]);
    assert_eq!(b.component().entries().len(), 3);
    assert_eq!(b.feature_components().entries().len(), 3);
    assert_eq!(b.msi_file_hash().entries().len(), 3);
    assert_eq!(b.media().entries().len(), 1);
    assert_eq!(b.media().entries()[0].last_sequence, 3);
    assert_eq!(b.media().entries()[0].disk_id, 1);
    assert_eq!(b.media().entries()[0].cabinet_id().unwrap().as_str(), "_CABINET_0");
    assert_eq!(b.file_entries_with_directory_id(&dir).len(), 3);
    let named = b.file().entry_with_name("b.txt").expect("file b.txt");
    assert_eq!(named.sequence, 2);
}

#[test]
fn ids_of_path_find_the_file_and_its_directory() {
    let mut b = MsiBuilder::default();
    let dir = b.add_directory("Manny", SystemFolder::ProgramFilesFolder.to_identifier()).unwrap();
    b.add_file_path(source("/src/tool.exe", "tool.exe"), dir.clone()).unwrap();
    let (file, directory) = b.get_ids_of_path("[ProgramFilesFolder]/Manny/tool.exe").expect("ids");
    assert_eq!(directory.as_str(), "_DIRECTORY_0");
    assert_eq!(file.as_str(), b.file().entries()[0].file.as_str());
    assert!(b.get_ids_of_path("[ProgramFilesFolder]/Manny/other.exe").is_none());
}

#[test]
fn property_read_after_write() {
    let mut b = MsiBuilder::default();
    b.add_property("Manny", "Bianca").unwrap();
    assert_eq!(b.property().get("Manny").map(|s| s.as_str()), Some("Bianca"));
    assert_eq!(b.add_property("Manny", "Fran").unwrap_err(), MsiBuilderError::EntryConflict);
    assert_eq!(b.property().get("Manny").map(|s| s.as_str()), Some("Bianca"));
    assert_eq!(b.add_property("9lives", "x").unwrap_err(), MsiBuilderError::InvalidIdentifier);
    assert_eq!(b.add_property("Fran", "").unwrap_err(), MsiBuilderError::EmptyPropertyValue);
    assert_eq!(b.property().entries().len(), 1);
    let b = b.with_property("Fran", "Katz").unwrap();
    let pairs = b.property_pairs();
    assert_eq!(pairs, vec![
        ("Manny".to_string(), "Bianca".to_string()),
        ("Fran".to_string(), "Katz".to_string()),
    ]);
}

#[test]
fn icons_get_their_own_keys() {
    let mut b = MsiBuilder::default();
    let first = b.add_icon("/icons/app.ico").unwrap();
    let second = b.add_icon("/icons/app.ico").unwrap();
    assert_eq!(first.as_str(), "_ICON_0");
    assert_eq!(second.as_str(), "_ICON_1");
    assert_eq!(b.icon().entries().len(), 2);
    assert_eq!(b.icon_information().len(), 2);
}

#[test]
fn shortcut_to_an_unknown_file_is_refused() {
    let mut b = MsiBuilder::default();
    let desktop = SystemFolder::DesktopFolder.to_identifier();
    let r = b.add_shortcut(desktop, Shortcut::Formatted("[ProgramFilesFolder]/Manny/none.exe".to_string()), "/icons/app.ico");
    assert_eq!(r.unwrap_err(), MsiBuilderError::ShortcutSourceNotFound);
    assert!(b.shortcut().entries().is_empty());
    assert!(b.icon().entries().is_empty());
}

#[test]
fn shortcut_to_a_known_file_adds_shortcut_and_icon() {
    let mut b = MsiBuilder::default();
    let dir = b.add_directory("Manny", SystemFolder::ProgramFilesFolder.to_identifier()).unwrap();
    b.add_file_path(source("/src/tool.exe", "tool.exe"), dir).unwrap();
    let desktop = SystemFolder::DesktopFolder.to_identifier();
    let sid = b
        .add_shortcut(desktop, Shortcut::Formatted("[ProgramFilesFolder]/Manny/tool.exe".to_string()), "/icons/app.ico")
        .unwrap();
    assert_eq!(sid.as_str(), "_SHORTCUT_0");
    assert_eq!(b.shortcut().entries().len(), 1);
    assert_eq!(b.icon().entries().len(), 1);
    assert_eq!(b.icon().entries()[0].to_row()[0], Value::Str("_ICON_0".to_string()));
}

#[test]
fn shortcut_ignores_properties_that_its_target_does_not_use() {
    let mut b = MsiBuilder::default();
    b.add_property("ELSEWHERE", "/opt/app").unwrap();
    b.add_property("ODD", "C:\\odd").unwrap();
    let dir = b.add_directory("Manny", SystemFolder::ProgramFilesFolder.to_identifier()).unwrap();
    b.add_file_path(source("/src/tool.exe", "tool.exe"), dir).unwrap();
    let desktop = SystemFolder::DesktopFolder.to_identifier();
    let sid = b
        .add_shortcut(desktop.clone(), Shortcut::Formatted("[ProgramFilesFolder]/Manny/tool.exe".to_string()), "/icons/app.ico")
        .unwrap();
    assert_eq!(sid.as_str(), "_SHORTCUT_0");
    let rooted = b.add_shortcut(desktop, Shortcut::Formatted("/Manny/tool.exe".to_string()), "/icons/app.ico").unwrap();
    assert_eq!(rooted.as_str(), "_SHORTCUT_1");
    assert_eq!(b.shortcut().entries().len(), 2);
}

#[test]
fn shortcut_without_icon_adds_no_icon() {
    let mut b = MsiBuilder::default();
    let dir = b.add_directory("Manny", SystemFolder::ProgramFilesFolder.to_identifier()).unwrap();
    b.add_file_path(source("/src/tool.exe", "tool.exe"), dir).unwrap();
    let desktop = SystemFolder::DesktopFolder.to_identifier();
    let missing = b.add_shortcut_without_icon(desktop.clone(), Shortcut::Formatted("[ProgramFilesFolder]/Manny/none.exe".to_string()));
    assert_eq!(missing.unwrap_err(), MsiBuilderError::ShortcutSourceNotFound);
    let sid = b
        .add_shortcut_without_icon(desktop, Shortcut::Formatted("[ProgramFilesFolder]/Manny/tool.exe".to_string()))
        .unwrap();
    assert_eq!(sid.as_str(), "_SHORTCUT_0");
    assert_eq!(b.shortcut().entries().len(), 1);
    assert!(b.shortcut().entries()[0].icon_.is_none());
    assert!(b.shortcut().entries()[0].icon_index.is_none());
    assert!(b.icon().entries().is_empty());
    assert!(b.icon_information().is_empty());
}

#[test]
fn directory_from_path_is_named_after_the_last_component() {
    let mut b = MsiBuilder::default();
    let d = b.add_directory_from_path("some/where/Manny", SystemFolder::TARGETDIR.to_identifier()).unwrap();
    let entry = b.directory().entries().last().unwrap();
    assert_eq!(entry.directory().as_str(), d.as_str());
    assert_eq!(entry.to_row()[2], Value::Str("Manny".to_string()));
    let none = b.add_directory_from_path("some/..", SystemFolder::TARGETDIR.to_identifier());
    assert_eq!(none.unwrap_err(), MsiBuilderError::NoDirectoryName);
}

#[test]
fn keys_stay_unique() {
    let mut b = MsiBuilder::default();
    let dir = b.add_directory("Manny", SystemFolder::ProgramFilesFolder.to_identifier()).unwrap();
    b.add_file_path(source("/src/a.txt", "a.txt"), dir.clone()).unwrap();
    b.add_icon("/icons/app.ico").unwrap();
    b.add_directory("Dennis", dir).unwrap();
    let ids: Vec<&str> = b.identifiers().iter().map(|i| i.as_str()).collect();
    for (i, a) in ids.iter().enumerate() {
        for b2 in ids.iter().skip(i + 1) {
            assert_ne!(a, b2);
        }
    }
    assert!(ids.contains(&"_FILE_0"));
    assert!(ids.contains(&"_COMPONENT_0"));
    let _ = id("TARGETDIR");
}

#[test]
fn directory_read_after_write() {
    let mut b = MsiBuilder::default();
    let d = b.add_directory("Manny", SystemFolder::ProgramFilesFolder.to_identifier()).unwrap();
    assert_eq!(b.directory_for("Manny").unwrap().as_str(), d.as_str());
    assert_eq!(b.directory_for("DesktopFolder").unwrap().as_str(), "DesktopFolder");
    assert!(b.directory_for("Bernard").is_none());
    assert_eq!(b.get_directory_id_of_path("[[ProgramFilesFolder]]/Manny").unwrap().as_str(), d.as_str());
}

fn file_tree(path: &str, name: &str) -> SourceTree {
    SourceTree::File(source(path, name))
}

fn dir_tree(name: &str, children: Vec<SourceTree>) -> SourceTree {
    SourceTree::Directory { name: name.to_string(), children }
}

#[test]
fn path_contents_example() {
    // temp_dir/ holding file1.txt, child_dir1/, and child_dir2/ holding
    // file2.pdf, installed into ProgramFilesFolder.
    let tree = dir_tree(
        "temp_dir",
        vec![
            file_tree("/tmp/temp_dir/file1.txt", "file1.txt"),
            dir_tree("child_dir1", vec![]),
            dir_tree("child_dir2", vec![file_tree("/tmp/temp_dir/child_dir2/file2.pdf", "file2.pdf")]),
        ],
    );
    let b = MsiBuilder::default().with_path_contents(&tree, SystemFolder::ProgramFilesFolder.to_identifier()).unwrap();
    assert_eq!(b.directory().entries().len(), 4);
    assert_eq!(b.file().entries().len(), 2);
    let rows: Vec<Vec<Value>> = b.directory().entries().iter().map(|d| d.to_row()).collect();
    assert_eq!(
        rows,
        vec![
            str_row(&[Some("TARGETDIR"), None, Some("SourceDir")]),
            str_row(&[Some("ProgramFilesFolder"), Some("TARGETDIR"), Some(".")]),
            str_row(&[Some("_DIRECTORY_0"), Some("ProgramFilesFolder"), Some("child_dir1")]),
            str_row(&[Some("_DIRECTORY_1"), Some("ProgramFilesFolder"), Some("child_dir2")]),
        ]
    );
    let dir2 = b.directory_for("child_dir2").unwrap();
    let in_dir2 = b.file_entries_with_directory_id(&dir2);
    assert_eq!(in_dir2.len(), 1);
    assert_eq!(in_dir2[0].name.as_str(), "file2.pdf");
}

#[test]
fn path_contents_of_a_file_add_just_that_file() {
    let mut b = MsiBuilder::default();
    let tree = file_tree("/tmp/single.txt", "single.txt");
    b.add_path_contents(&tree, SystemFolder::ProgramFilesFolder.to_identifier()).unwrap();
    assert_eq!(b.file().entries().len(), 1);
    assert!(b.directory().entries().is_empty());
    assert_eq!(b.file().entries()[0].sequence, 1);
}

#[test]
fn path_contents_with_an_invalid_directory_name_fail() {
    let mut b = MsiBuilder::default();
    let tree = dir_tree("root", vec![file_tree("/r/a.txt", "a.txt"), dir_tree("bad|name", vec![])]);
    let r = b.add_path_contents(&tree, SystemFolder::TARGETDIR.to_identifier());
    assert_eq!(r.unwrap_err(), MsiBuilderError::InvalidFilename);
    assert_eq!(b.file().entries().len(), 1);
}

#[test]
fn cabinets_are_written_in_sequence_order() {
    let mut b = MsiBuilder::default();
    assert!(b.cabinets_to_write().is_empty());
    let dir = b.add_directory("Manny", SystemFolder::ProgramFilesFolder.to_identifier()).unwrap();
    b.add_file_path(source("/src/a.txt", "a.txt"), dir.clone()).unwrap();
    b.add_file_path(source("/src/b.txt", "b.txt"), dir).unwrap();
    let cabinets = b.cabinets_to_write();
    assert_eq!(cabinets.len(), 1);
    assert_eq!(cabinets[0].id.as_str(), "_CABINET_0");
    let paths: Vec<&str> = cabinets[0].files.iter().map(|f| f.path.as_str()).collect();
    assert_eq!(paths, vec!["/src/a.txt", "/src/b.txt"]);
    assert_eq!(b.icon_information().len(), 0);
    b.add_icon("/icons/app.ico").unwrap();
    assert_eq!(b.icon_information()[0].stream_name(), "Icon._ICON_0");
}
