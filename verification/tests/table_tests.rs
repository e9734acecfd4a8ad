use whimsi::identifier::Identifier;
use whimsi::system_folder::SystemFolder;
use whimsi::tables::dao::{DaoContainer, IsDao, PackageWriter};
use whimsi::tables::directory::DirectoryTable;
use whimsi::tables::media::{MediaDao, MediaTable};
use whimsi::tables::meta::{DocSecurity, MetaInformation, PackageType};
use whimsi::tables::sequence::{AdvtExecuteSequenceTable, InstallExecuteSequenceTable, SequenceDao, StandardAction};
use whimsi::error::MsiBuilderError;
use whimsi::value::Value;

#[test]
fn standard_actions_have_names_and_suggested_places() {
    assert_eq!(StandardAction::InstallFiles.name(), "InstallFiles");
    assert_eq!(StandardAction::InstallFiles.sequence(), 4000);
    assert_eq!(StandardAction::CostInitialize.sequence(), 800);
    assert_eq!(StandardAction::InstallFinalize.sequence(), 6600);
    let row = SequenceDao::scheduled(StandardAction::CreateFolders).to_row();
    assert_eq!(row, vec![Value::Str("CreateFolders".to_string()), Value::Null, Value::Int(3700)]);
}

#[test]
fn advertise_sequence_defaults() {
    let t = AdvtExecuteSequenceTable::default();
    let names: Vec<String> = t.entries().iter().map(|e| e.action.to_string()).collect();
    assert_eq!(
        names,
        vec!["InstallValidate", "CostInitialize", "CostFinalize", "InstallFinalize", "PublishFeatures", "PublishProduct"]
    );
    assert_eq!(t.name(), "AdvtExecuteSequence");
}

#[test]
fn table_rows_come_out_sorted_by_first_cell() {
    let t = InstallExecuteSequenceTable::default();
    let rows = t.rows();
    assert_eq!(rows.len(), t.entries().len());
    for pair in rows.windows(2) {
        match (&pair[0][0], &pair[1][0]) {
            (Value::Str(a), Value::Str(b)) => assert!(a <= b),
            _ => panic!("action cells are strings"),
        }
    }
    assert_eq!(t.primary_key_indices(), vec![0]);
}

#[test]
fn rows_with_one_cell_per_column() {
    let t = DirectoryTable::new();
    let cols = t.columns();
    assert_eq!(cols.len(), 3);
    assert_eq!(cols[0].name, "Directory");
    let dao = whimsi::tables::directory::DirectoryDao::from(SystemFolder::DesktopFolder);
    assert_eq!(dao.to_row().len(), cols.len());
}

#[test]
fn media_entries() {
    let cab = Identifier::from_str("_CABINET_0").unwrap();
    let mut m = MediaDao::internal(1, cab.clone()).unwrap();
    assert_eq!(m.last_sequence, 0);
    assert_eq!(m.set_last_sequence(3), Ok(3));
    assert_eq!(m.set_last_sequence(40000), Err(MsiBuilderError::SequenceOverflow));
    assert_eq!(m.last_sequence, 3);
    assert_eq!(MediaDao::internal(0, cab).unwrap_err(), MsiBuilderError::InvalidDiskId);
    let mut table = MediaTable::new();
    assert!(table.get_last_internal_media_mut().is_none());
}

#[test]
fn document_security_follows_package_type() {
    let meta = MetaInformation::new(PackageType::Installer, "Manny".to_string());
    assert_eq!(meta.doc_security(), DocSecurity::ReadOnlyRecommended);
    assert_eq!(meta.doc_security().value(), 2);
    let patch = MetaInformation::new(PackageType::Patch, "Manny".to_string());
    assert_eq!(patch.doc_security(), DocSecurity::ReadOnlyEnforced);
    let set = patch.with_security(Some(DocSecurity::NoRestriction));
    assert_eq!(set.doc_security().value(), 0);
    let meta = meta.with_author(Some("Bernard".to_string())).with_comments(Some("Black Books".to_string()));
    assert_eq!(meta.author.as_deref(), Some("Bernard"));
    assert_eq!(meta.comments.as_deref(), Some("Black Books"));
}

#[test]
fn system_folder_names_round_trip() {
    for folder in [SystemFolder::TARGETDIR, SystemFolder::ProgramFilesFolder, SystemFolder::DesktopFolder, SystemFolder::WindowsVolume] {
        assert_eq!(SystemFolder::from_str(folder.name()), Some(folder));
    }
    assert_eq!(SystemFolder::from_str("NotAFolder"), None);
}
