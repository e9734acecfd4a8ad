use whimsi::builder::MsiBuilder;
use whimsi::error::MsiBuilderError;
use whimsi::resolve::{get_component_value, get_last_component, get_reserved_property};

fn props(pairs: &[(&str, &str)]) -> Vec<(String, String)> {
    pairs.iter().map(|(k, v)| (k.to_string(), v.to_string())).collect()
}

fn strings(v: &[&str]) -> Vec<String> {
    v.iter().map(|s| s.to_string()).collect()
}

#[test]
fn reserved_references_name_system_folders() {
    assert_eq!(get_reserved_property("[[ProgramFilesFolder]]"), Ok(Some("ProgramFilesFolder".to_string())));
    assert_eq!(get_reserved_property("x[[DesktopFolder]]y"), Ok(Some("DesktopFolder".to_string())));
    assert_eq!(get_reserved_property("[[Nowhere]]"), Err(MsiBuilderError::InvalidReservedProperty));
    assert_eq!(get_reserved_property("[INSTALLDIR]"), Ok(None));
    assert_eq!(get_reserved_property("plain"), Ok(None));
    assert_eq!(MsiBuilder::get_reserved_property("[[TempFolder]]"), Ok(Some("TempFolder".to_string())));
}

#[test]
fn component_values_expand_properties() {
    let p = props(&[("INSTALLDIR", "[[ProgramFilesFolder]]/Manny"), ("BIN", "[INSTALLDIR]/bin")]);
    assert_eq!(get_component_value("plain", &p), Ok(strings(&["plain"])));
    assert_eq!(get_component_value("[[WindowsFolder]]", &p), Ok(strings(&["WindowsFolder"])));
    assert_eq!(get_component_value("[INSTALLDIR]", &p), Ok(strings(&["ProgramFilesFolder", "Manny"])));
    assert_eq!(get_component_value("[BIN]", &p), Ok(strings(&["ProgramFilesFolder", "Manny", "bin"])));
    assert_eq!(get_component_value("[MISSING]", &p), Err(MsiBuilderError::PropertyNotFound));
}

#[test]
fn self_referring_property_is_a_cycle() {
    let p = props(&[("LOOP", "[LOOP]")]);
    assert_eq!(get_component_value("[LOOP]", &p), Err(MsiBuilderError::PropertyCycle));
}

#[test]
fn last_component_of_a_path() {
    let p = props(&[("INSTALLDIR", "[[ProgramFilesFolder]]/Manny")]);
    assert_eq!(get_last_component("a/b/c", &p), Some("c".to_string()));
    assert_eq!(get_last_component("[[ProgramFilesFolder]]/[INSTALLDIR]", &p), Some("Manny".to_string()));
    assert_eq!(get_last_component("[[DesktopFolder]]", &p), Some("DesktopFolder".to_string()));
    assert_eq!(get_last_component("x/[MISSING]", &p), None);
}

#[test]
fn builder_resolves_with_its_own_properties() {
    let mut b = MsiBuilder::default();
    b.add_property("INSTALLDIR", "[[ProgramFilesFolder]]/Manny").unwrap();
    assert_eq!(b.get_component_value("[INSTALLDIR]"), Ok(strings(&["ProgramFilesFolder", "Manny"])));
    assert_eq!(b.get_last_component("[INSTALLDIR]"), Some("Manny".to_string()));
}

#[test]
fn absolute_paths_resolve_with_the_root_first() {
    let p = props(&[("ROOTED", "/opt/app"), ("INSTALLDIR", "[[ProgramFilesFolder]]/Manny")]);
    assert_eq!(get_component_value("[ROOTED]", &p), Ok(strings(&["/", "opt", "app"])));
    assert_eq!(get_component_value("[INSTALLDIR]", &p), Ok(strings(&["ProgramFilesFolder", "Manny"])));
    assert_eq!(get_last_component("/usr/share/app", &p), Some("app".to_string()));
    assert_eq!(get_last_component("/usr/[INSTALLDIR]", &p), Some("Manny".to_string()));
    assert_eq!(get_last_component("x/[ROOTED]", &p), Some("app".to_string()));
}
