use whimsi::cfb::is_cfb_signature;
use whimsi::error::MsiBuilderError;
use whimsi::models::{identifier_from_random, new_identifier, MsiDirectory, MsiFile};
use whimsi::identifier::Identifier;

fn is_lower_hex(c: char) -> bool {
    c.is_ascii_digit() || ('a'..='f').contains(&c)
}

#[test]
fn fresh_identifiers_are_underscore_and_hex() {
    let a = new_identifier().unwrap();
    let b = new_identifier().unwrap();
    let s = a.as_str();
    assert_eq!(s.chars().count(), 33);
    assert!(s.starts_with('_'));
    assert!(s.chars().skip(1).all(is_lower_hex));
    assert_ne!(a.as_str(), b.as_str());
}

#[test]
fn identifier_from_random_sets_version_and_variant() {
    let id = identifier_from_random([0xff; 16]);
    assert_eq!(id.as_str(), "_ffffffffffff4fffbfffffffffffffff");
    let id = identifier_from_random([
        0x00, 0x11, 0x22, 0x33, 0x44, 0x55, 0x66, 0x77, 0x88, 0x99, 0xaa, 0xbb, 0xcc, 0xdd, 0xee, 0xff,
    ]);
    assert_eq!(id.as_str(), "_00112233445546778899aabbccddeeff");
}

#[test]
fn file_model_with_given_keys() {
    let c = Identifier::from_str("comp").unwrap();
    let k = Identifier::from_str("key").unwrap();
    let f = MsiFile::with_keys(c, k, "/usr/share/app/readme.txt", 7).unwrap();
    assert_eq!(f.name(), "readme.txt");
    assert_eq!(f.component_id().as_str(), "comp");
    assert_eq!(f.file_id().as_str(), "key");
    assert_eq!(f.size(), 7);
    let c = Identifier::from_str("comp").unwrap();
    let k = Identifier::from_str("key").unwrap();
    assert_eq!(MsiFile::with_keys(c, k, "/", 7).unwrap_err(), MsiBuilderError::NoFileName);
}

#[test]
fn file_model_from_source() {
    let f = MsiFile::new("/src/file_1.txt", 42).unwrap();
    assert_eq!(f.name(), "file_1.txt");
    assert_eq!(f.source(), "/src/file_1.txt");
    assert_eq!(f.size(), 42);
    assert!(!f.vital());
    assert_ne!(f.component_id().as_str(), f.file_id().as_str());
    for key in [f.component_id().as_str(), f.file_id().as_str()] {
        assert_eq!(key.chars().count(), 33);
        assert!(key.starts_with('_'));
        assert!(key.chars().skip(1).all(is_lower_hex));
    }
    let nested = MsiFile::new("dir/file.txt", 1).unwrap();
    assert_eq!(nested.name(), "file.txt");
    assert_eq!(nested.source(), "dir/file.txt");
    assert_eq!(MsiFile::new("dir/..", 1).unwrap_err(), MsiBuilderError::NoFileName);
    assert_eq!(MsiFile::new("", 1).unwrap_err(), MsiBuilderError::NoFileName);
}

#[test]
fn directory_tree_counts() {
    const PARENT_ID: &str = "TARGETDIR";
    let root_id = new_identifier().unwrap();
    let child1_id = new_identifier().unwrap();
    let child1 = MsiDirectory::new(
        child1_id,
        root_id.as_str(),
        "/tmp/root/child1",
        Vec::new(),
        vec![MsiFile::new("/tmp/root/child1/file2.pdf", 0).unwrap()],
    )
    .unwrap();
    let child2 = MsiDirectory::new(new_identifier().unwrap(), root_id.as_str(), "/tmp/root/child2", Vec::new(), Vec::new()).unwrap();
    let root_key = root_id.as_str().to_string();
    let msi_directory = MsiDirectory::new(
        root_id,
        PARENT_ID,
        "/tmp/root",
        vec![child1, child2],
        vec![MsiFile::new("/tmp/root/file_1.txt", 0).unwrap()],
    )
    .unwrap();
    assert_eq!(msi_directory.parent_id().clone().unwrap(), PARENT_ID);
    assert_eq!(msi_directory.name(), "root");
    assert_eq!(msi_directory.directories().len(), 2, "Incorrect directory count");
    assert_eq!(msi_directory.flatten_directories().len(), 2, "Incorrect recursive directory count");
    assert_eq!(msi_directory.files().len(), 1, "Incorrect file count");
    assert_eq!(msi_directory.flatten_files().len(), 2, "Incorrect recursive file count");
    assert!(msi_directory.directories().iter().all(|d| d.parent_id().clone().unwrap() == root_key));
    assert_eq!(msi_directory.id().as_str(), root_key);
}

#[test]
fn flattening_goes_level_by_level_within_each_child() {
    let root = new_identifier().unwrap();
    let a = new_identifier().unwrap();
    let grandchild = MsiDirectory::new(new_identifier().unwrap(), a.as_str(), "r/a/g", Vec::new(), vec![MsiFile::new("r/a/g/3", 3).unwrap()])
        .unwrap();
    let child_a = MsiDirectory::new(a, root.as_str(), "r/a", vec![grandchild], vec![MsiFile::new("r/a/2", 2).unwrap()]).unwrap();
    let child_b = MsiDirectory::new(new_identifier().unwrap(), root.as_str(), "r/b", Vec::new(), vec![MsiFile::new("r/b/4", 4).unwrap()]).unwrap();
    let top = MsiDirectory::new(root, "TARGETDIR", "r", vec![child_a, child_b], vec![MsiFile::new("r/1", 1).unwrap()]).unwrap();
    let names: Vec<String> = top.flatten_directories().iter().map(|d| d.name().clone()).collect();
    assert_eq!(names, vec!["a".to_string(), "b".to_string(), "g".to_string()]);
    let sizes: Vec<u64> = top.flatten_files().iter().map(|f| f.size()).collect();
    assert_eq!(sizes, vec![1, 2, 3, 4]);
    let copy = top.clone();
    assert_eq!(copy.flatten_files().len(), 4);
    assert_eq!(copy.id().as_str(), top.id().as_str());
}

#[test]
fn directory_needs_a_name() {
    let r = MsiDirectory::new(new_identifier().unwrap(), "TARGETDIR", "a/..", Vec::new(), Vec::new());
    assert_eq!(r.unwrap_err(), MsiBuilderError::NoDirectoryName);
    let r = MsiDirectory::new(new_identifier().unwrap(), "TARGETDIR", "", Vec::new(), Vec::new());
    assert_eq!(r.unwrap_err(), MsiBuilderError::NoDirectoryName);
}

#[test]
fn compound_file_signature() {
    assert!(is_cfb_signature(&[0xD0, 0xCF, 0x11, 0xE0, 0xA1, 0xB1, 0x1A, 0xE1]));
    assert!(!is_cfb_signature(&[0xD0, 0xCF, 0x11, 0xE0, 0xA1, 0xB1, 0x1A, 0xE0]));
    assert!(!is_cfb_signature(&[0xD0, 0xCF, 0x11]));
    assert!(!is_cfb_signature(&[]));
}
