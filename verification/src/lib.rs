//! Finds the nearest enclosing project manifest above a starting path and
//! derives a printable project identifier from it.
//!
//! The library holds the verified core: the decision logic of the upward
//! directory walk, the extraction of a project's name and version from a
//! manifest text, and the output formatting. Reading directories and files
//! is left to the surrounding binary, which hands the library plain values.

use vstd::prelude::*;

pub mod format;
pub mod locate;
pub mod manifest;

verus! {

/// The closed set of recognized manifest kinds. Each kind maps to a fixed
/// manifest filename and a fixed pair of display glyphs.
#[derive(Clone, Copy, PartialEq, Eq, Structural, Debug)]
pub enum ManifestKind {
    /// A systems-language package manifest (`Cargo.toml`).
    SystemsPackage,
    /// A scripting-language project manifest (`pyproject.toml`).
    ScriptingProject,
}

impl ManifestKind {
    /// The manifest filename that identifies this kind during the walk.
    pub open spec fn spec_filename(self) -> Seq<char> {
        match self {
            ManifestKind::SystemsPackage => "Cargo.toml"@,
            ManifestKind::ScriptingProject => "pyproject.toml"@,
        }
    }

    /// The primary display glyph attached to projects of this kind.
    pub open spec fn spec_icon(self) -> Seq<char> {
        match self {
            ManifestKind::SystemsPackage => "\u{e7a8}"@,
            ManifestKind::ScriptingProject => "\u{e73c}"@,
        }
    }

    /// The secondary display glyph attached to projects of this kind.
    pub open spec fn spec_alt_icon(self) -> Seq<char> {
        match self {
            ManifestKind::SystemsPackage => "\u{1f980}"@,
            ManifestKind::ScriptingProject => "\u{1f40d}"@,
        }
    }

    /// The primary display glyph of this kind, as an owned string.
    pub fn icon(self) -> (r: String)
        ensures
            r@ == self.spec_icon(),
    {
        match self {
            ManifestKind::SystemsPackage => "\u{e7a8}".to_owned(),
            ManifestKind::ScriptingProject => "\u{e73c}".to_owned(),
        }
    }

    /// The secondary display glyph of this kind, as an owned string.
    pub fn alt_icon(self) -> (r: String)
        ensures
            r@ == self.spec_alt_icon(),
    {
        match self {
            ManifestKind::SystemsPackage => "\u{1f980}".to_owned(),
            ManifestKind::ScriptingProject => "\u{1f40d}".to_owned(),
        }
    }

    /// The manifest filename of this kind, as an owned string.
    pub fn filename(self) -> (r: String)
        ensures
            r@ == self.spec_filename(),
    {
        match self {
            ManifestKind::SystemsPackage => "Cargo.toml".to_owned(),
            ManifestKind::ScriptingProject => "pyproject.toml".to_owned(),
        }
    }
}

} // verus!
