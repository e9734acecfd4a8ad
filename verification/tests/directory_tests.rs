use whimsi::system_folder::SystemFolder;
use whimsi::tables::dao::IsDao;
use whimsi::tables::directory::DirectoryDao;
use whimsi::types::Filename;
use whimsi::value::Value;

#[test]
fn try_from() {
    let pf_dao: DirectoryDao = DirectoryDao::from(SystemFolder::ProgramFilesFolder);
    assert_eq!(
        *pf_dao.default_dir(),
        Filename::strict_parse(".")
            .expect("Failed to parse `.` directory name to Identifier for system folder.")
            .into()
    )
}

#[test]
fn to_row() {
    let pf_dao: DirectoryDao = DirectoryDao::from(SystemFolder::ProgramFilesFolder);
    let row = pf_dao.to_row();
    assert_eq!(row.len(), 3, "Directory DAO row number mismatch");
    assert_eq!(
        *row.get(0).unwrap(),
        Value::Str("ProgramFilesFolder".to_string()),
        "Directory DAO directory name mismatch"
    );
    assert_eq!(
        *row.get(1).unwrap(),
        Value::Str("TARGETDIR".to_string()),
        "Directory DAO parent name mismatch"
    );
    assert_eq!(
        *row.get(2).unwrap(),
        Value::Str(".".to_string()),
        "Directory DAO default dir name mismatch"
    );
}
