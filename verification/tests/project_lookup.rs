use project_lookup::ManifestKind;
use project_lookup::format::{format_output, PrintFormat};
use project_lookup::locate::{locate, match_entries};
use project_lookup::manifest::{read_cargo_toml, read_manifest, read_poetry_toml, ProjectDetails};

fn details(name: &str, version: &str) -> ProjectDetails {
    ProjectDetails {
        icon: "\u{e7a8}".to_owned(),
        alt_icon: "\u{1f980}".to_owned(),
        name: name.to_owned(),
        version: version.to_owned(),
    }
}

fn strings(names: &[&str]) -> Vec<String> {
    names.iter().map(|n| n.to_string()).collect()
}

#[test]
fn cargo_manifest_round_trip() {
    let text = "[package]\nname = \"foo\"\nversion = \"1.2.3\"\n";
    let d = read_cargo_toml(text).unwrap();
    assert_eq!(d.name, "foo");
    assert_eq!(d.version, "1.2.3");
    assert_eq!(d.icon, "\u{e7a8}");
    assert_eq!(d.alt_icon, "🦀");
}

#[test]
fn poetry_manifest_round_trip() {
    let text = "[tool.poetry]\nname = \"bar\"\nversion = \"0.1.0\"\n";
    let d = read_poetry_toml(text).unwrap();
    assert_eq!(d.name, "bar");
    assert_eq!(d.version, "0.1.0");
    assert_eq!(d.icon, "\u{e73c}");
    assert_eq!(d.alt_icon, "🐍");
}

#[test]
fn read_manifest_dispatches_by_kind() {
    let cargo = "[package]\nname = \"foo\"\nversion = \"1.2.3\"\n";
    let poetry = "[tool.poetry]\nname = \"bar\"\nversion = \"0.1.0\"\n";
    let d = read_manifest(ManifestKind::SystemsPackage, cargo).unwrap();
    assert_eq!(d.name, "foo");
    let d = read_manifest(ManifestKind::ScriptingProject, poetry).unwrap();
    assert_eq!(d.name, "bar");
    // A manifest of one kind holds nothing under the other kind's key path.
    assert!(read_manifest(ManifestKind::ScriptingProject, cargo).is_none());
    assert!(read_manifest(ManifestKind::SystemsPackage, poetry).is_none());
}

#[test]
fn missing_version_yields_nothing() {
    let text = "[package]\nname = \"foo\"\n";
    assert!(read_cargo_toml(text).is_none());
}

#[test]
fn missing_name_yields_nothing() {
    let text = "[package]\nversion = \"1.2.3\"\n";
    assert!(read_cargo_toml(text).is_none());
}

#[test]
fn invalid_document_yields_nothing() {
    let text = "[package\nname = \"foo\"";
    assert!(read_cargo_toml(text).is_none());
    assert!(read_poetry_toml(text).is_none());
}

#[test]
fn wrong_field_type_yields_nothing() {
    let text = "[package]\nname = \"foo\"\nversion = 3\n";
    assert!(read_cargo_toml(text).is_none());
}

#[test]
fn poetry_fields_must_be_nested() {
    let text = "name = \"bar\"\nversion = \"0.1.0\"\n";
    assert!(read_poetry_toml(text).is_none());
}

#[test]
fn name_is_read_verbatim() {
    let text = "[package]\nname = \"Weird NAME  \"\nversion = \"0.0.0+local\"\n";
    let d = read_cargo_toml(text).unwrap();
    assert_eq!(d.name, "Weird NAME  ");
    assert_eq!(d.version, "0.0.0+local");
}

#[test]
fn basic_format_is_name_colon_version() {
    let s = format_output(details("foo", "1.2.3"), PrintFormat::Basic);
    assert_eq!(s, "foo:1.2.3");
}

#[test]
fn formal_format_prepends_icon() {
    let s = format_output(details("foo", "1.2.3"), PrintFormat::Formal);
    assert_eq!(s, "\u{e7a8} foo:1.2.3");
}

#[test]
fn playful_format_prepends_alt_icon() {
    let s = format_output(details("foo", "1.2.3"), PrintFormat::Playful);
    assert_eq!(s, "🦀 foo:1.2.3");
}

#[test]
fn match_entries_finds_each_kind() {
    assert_eq!(
        match_entries(&strings(&["src", "Cargo.toml", "README.md"])),
        Some(ManifestKind::SystemsPackage)
    );
    assert_eq!(
        match_entries(&strings(&["pyproject.toml"])),
        Some(ManifestKind::ScriptingProject)
    );
}

#[test]
fn match_entries_is_case_sensitive_and_exact() {
    assert_eq!(match_entries(&strings(&[])), None);
    assert_eq!(match_entries(&strings(&["cargo.toml", "Pyproject.toml"])), None);
    assert_eq!(match_entries(&strings(&["Cargo.toml.bak", "aCargo.toml"])), None);
}

#[test]
fn match_entries_takes_first_in_listing_order() {
    assert_eq!(
        match_entries(&strings(&["pyproject.toml", "Cargo.toml"])),
        Some(ManifestKind::ScriptingProject)
    );
    assert_eq!(
        match_entries(&strings(&["Cargo.toml", "pyproject.toml"])),
        Some(ManifestKind::SystemsPackage)
    );
}

#[test]
fn locate_returns_nearest_ancestor() {
    let listings = vec![
        strings(&["src", "notes.txt"]),
        strings(&["Cargo.toml", "src"]),
        strings(&["pyproject.toml"]),
    ];
    assert_eq!(locate(&listings), Some((1, ManifestKind::SystemsPackage)));
}

#[test]
fn locate_prefers_the_starting_directory() {
    let listings = vec![strings(&["pyproject.toml"]), strings(&["Cargo.toml"])];
    assert_eq!(locate(&listings), Some((0, ManifestKind::ScriptingProject)));
}

#[test]
fn locate_without_manifest_yields_nothing() {
    let listings = vec![
        strings(&["a", "b"]),
        strings(&[]),
        strings(&["deep", "deeper", "deepest"]),
        strings(&["etc"]),
        strings(&["home", "usr", "etc"]),
    ];
    assert_eq!(locate(&listings), None);
}

#[test]
fn locate_on_no_listings_yields_nothing() {
    let listings: Vec<Vec<String>> = Vec::new();
    assert_eq!(locate(&listings), None);
}

#[test]
fn filenames_and_glyphs_per_kind() {
    assert_eq!(ManifestKind::SystemsPackage.filename(), "Cargo.toml");
    assert_eq!(ManifestKind::ScriptingProject.filename(), "pyproject.toml");
    assert_eq!(ManifestKind::SystemsPackage.icon(), "\u{e7a8}");
    assert_eq!(ManifestKind::SystemsPackage.alt_icon(), "🦀");
    assert_eq!(ManifestKind::ScriptingProject.icon(), "\u{e73c}");
    assert_eq!(ManifestKind::ScriptingProject.alt_icon(), "🐍");
}
