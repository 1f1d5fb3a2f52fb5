//! Output formatting: substitute the fields of a `ProjectDetails` into one
//! of three fixed templates. All four fields are always present, so
//! substitution cannot fail.

use vstd::prelude::*;
use vstd::string::*;
use crate::manifest::{DetailsView, ProjectDetails};

verus! {

/// The chosen output format.
#[derive(Clone, Copy, PartialEq, Eq, Structural, Debug)]
pub enum PrintFormat {
    /// Prints output with the format: {name}:{version}
    Basic,
    /// Prints output with the format: {icon} {name}:{version}
    Formal,
    /// Prints output with the format: {alt_icon} {name}:{version}
    Playful,
}

/// What formatting yields: the name and version joined by a colon, prefixed
/// under the formal and playful formats by the respective glyph and a space.
pub open spec fn formatted(d: DetailsView, f: PrintFormat) -> Seq<char> {
    match f {
        PrintFormat::Basic => d.name + ":"@ + d.version,
        PrintFormat::Formal => d.icon + " "@ + d.name + ":"@ + d.version,
        PrintFormat::Playful => d.alt_icon + " "@ + d.name + ":"@ + d.version,
    }
}

/// Render the project details under the chosen format.
pub fn format_output(details: ProjectDetails, print_format: PrintFormat) -> (r: String)
    ensures
        r@ == formatted(details@, print_format),
{
    let mut out = String::new();
    match print_format {
        PrintFormat::Basic => {}
        PrintFormat::Formal => {
            out.append(details.icon.as_str());
            out.append(" ");
        }
        PrintFormat::Playful => {
            out.append(details.alt_icon.as_str());
            out.append(" ");
        }
    }
    out.append(details.name.as_str());
    out.append(":");
    out.append(details.version.as_str());
    proof {
        assert(out@ =~= formatted(details@, print_format));
    }
    out
}

} // verus!
