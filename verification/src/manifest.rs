//! Reading a recognized manifest text: parse it as a TOML document and
//! extract the project's name and version from the fixed key path of the
//! manifest's kind.

use vstd::prelude::*;
use vstd::string::*;
use crate::ManifestKind;

verus! {

/// The extracted project identity: a fixed pair of display glyphs for the
/// manifest's kind, and the name and version read verbatim from the manifest.
pub struct ProjectDetails {
    pub icon: String,
    pub alt_icon: String,
    pub name: String,
    pub version: String,
}

/// The mathematical content of a `ProjectDetails`: each field as a
/// sequence of characters.
pub struct DetailsView {
    pub icon: Seq<char>,
    pub alt_icon: Seq<char>,
    pub name: Seq<char>,
    pub version: Seq<char>,
}

impl View for ProjectDetails {
    type V = DetailsView;

    open spec fn view(&self) -> DetailsView {
        DetailsView {
            icon: self.icon@,
            alt_icon: self.alt_icon@,
            name: self.name@,
            version: self.version@,
        }
    }
}

/// The string value of a TOML document `text` under the key path `path`:
/// each key in turn indexes a table, and the value reached last is a string.
/// `None` when the document does not parse, a key is absent, an intermediate
/// value is not a table, or the final value is not a string.
pub uninterp spec fn toml_str_at(text: Seq<char>, path: Seq<Seq<char>>) -> Option<Seq<char>>;

/// The views of a sequence of keys.
pub open spec fn key_views(path: Seq<String>) -> Seq<Seq<char>> {
    path.map_values(|k: String| k@)
}

/// Relies on `toml::from_str` and `toml::Value::{get, as_str}`: parses `text`
/// as a TOML document and looks up the string value under the key path
/// `path`, indexing a table with each key in order. The result depends on
/// `text` and `path` alone.
#[verifier::external_body]
fn toml_string_at(text: &str, path: &Vec<String>) -> (r: Option<String>)
    ensures
        (match r {
            Some(s) => toml_str_at(text@, key_views(path@)) == Some(s@),
            None => toml_str_at(text@, key_views(path@)) is None,
        }),
{
    let doc: toml::Value = match toml::from_str(text) {
        Ok(d) => d,
        Err(_) => return None,
    };
    let mut v: &toml::Value = &doc;
    for key in path.iter() {
        v = match v.get(key.as_str()) {
            Some(inner) => inner,
            None => return None,
        };
    }
    v.as_str().map(|s| s.to_owned())
}

/// The key path under which a manifest of this kind holds the project name.
pub open spec fn spec_name_path(kind: ManifestKind) -> Seq<Seq<char>> {
    match kind {
        ManifestKind::SystemsPackage => seq!["package"@, "name"@],
        ManifestKind::ScriptingProject => seq!["tool"@, "poetry"@, "name"@],
    }
}

/// The key path under which a manifest of this kind holds the project version.
pub open spec fn spec_version_path(kind: ManifestKind) -> Seq<Seq<char>> {
    match kind {
        ManifestKind::SystemsPackage => seq!["package"@, "version"@],
        ManifestKind::ScriptingProject => seq!["tool"@, "poetry"@, "version"@],
    }
}

/// The name and version a manifest text of the given kind yields: both the
/// kind's name path and its version path must reach a string in the document.
pub open spec fn manifest_fields(kind: ManifestKind, text: Seq<char>) -> Option<(Seq<char>, Seq<char>)> {
    match (toml_str_at(text, spec_name_path(kind)), toml_str_at(text, spec_version_path(kind))) {
        (Some(n), Some(v)) => Some((n, v)),
        _ => None,
    }
}

fn name_path(kind: ManifestKind) -> (r: Vec<String>)
    ensures
        key_views(r@) == spec_name_path(kind),
{
    let mut p: Vec<String> = Vec::new();
    match kind {
        ManifestKind::SystemsPackage => {
            p.push("package".to_owned());
            p.push("name".to_owned());
        }
        ManifestKind::ScriptingProject => {
            p.push("tool".to_owned());
            p.push("poetry".to_owned());
            p.push("name".to_owned());
        }
    }
    proof {
        assert(key_views(p@) =~= spec_name_path(kind));
    }
    p
}

fn version_path(kind: ManifestKind) -> (r: Vec<String>)
    ensures
        key_views(r@) == spec_version_path(kind),
{
    let mut p: Vec<String> = Vec::new();
    match kind {
        ManifestKind::SystemsPackage => {
            p.push("package".to_owned());
            p.push("version".to_owned());
        }
        ManifestKind::ScriptingProject => {
            p.push("tool".to_owned());
            p.push("poetry".to_owned());
            p.push("version".to_owned());
        }
    }
    proof {
        assert(key_views(p@) =~= spec_version_path(kind));
    }
    p
}

/// Read a manifest text of the given kind: the project's name and version
/// from the kind's fixed key paths, together with the kind's fixed glyphs.
/// Yields `None` exactly when the text does not hold both fields, for
/// whatever reason: a document that does not parse, a missing key, or a
/// field of the wrong type.
pub fn read_manifest(kind: ManifestKind, text: &str) -> (r: Option<ProjectDetails>)
    ensures
        (match r {
            Some(d) => manifest_fields(kind, text@) == Some((d.name@, d.version@))
                && d.icon@ == kind.spec_icon()
                && d.alt_icon@ == kind.spec_alt_icon(),
            None => manifest_fields(kind, text@) is None,
        }),
{
    let name = match toml_string_at(text, &name_path(kind)) {
        Some(n) => n,
        None => return None,
    };
    let version = match toml_string_at(text, &version_path(kind)) {
        Some(v) => v,
        None => return None,
    };
    Some(ProjectDetails { icon: kind.icon(), alt_icon: kind.alt_icon(), name, version })
}

/// Read a systems-package manifest text.
pub fn read_cargo_toml(text: &str) -> (r: Option<ProjectDetails>)
    ensures
        (match r {
            Some(d) => manifest_fields(ManifestKind::SystemsPackage, text@) == Some((d.name@, d.version@))
                && d.icon@ == ManifestKind::SystemsPackage.spec_icon()
                && d.alt_icon@ == ManifestKind::SystemsPackage.spec_alt_icon(),
            None => manifest_fields(ManifestKind::SystemsPackage, text@) is None,
        }),
{
    read_manifest(ManifestKind::SystemsPackage, text)
}

/// Read a scripting-project manifest text.
pub fn read_poetry_toml(text: &str) -> (r: Option<ProjectDetails>)
    ensures
        (match r {
            Some(d) => manifest_fields(ManifestKind::ScriptingProject, text@) == Some((d.name@, d.version@))
                && d.icon@ == ManifestKind::ScriptingProject.spec_icon()
                && d.alt_icon@ == ManifestKind::ScriptingProject.spec_alt_icon(),
            None => manifest_fields(ManifestKind::ScriptingProject, text@) is None,
        }),
{
    read_manifest(ManifestKind::ScriptingProject, text)
}

} // verus!
