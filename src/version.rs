//! Which version is selected: the project's `.nvmdrc` first, then the
//! global `default` file under the tool's home.
use vstd::prelude::*;

verus! {

/// The selected version, from the texts of the project file and of the
/// global default file (`None` where a file could not be read).
pub open spec fn version_spec(project: Option<Seq<char>>, global: Option<Seq<char>>) -> Seq<char> {
    match project {
        Some(v) if v.len() > 0 => v,
        _ => match global {
            Some(g) => g,
            None => Seq::empty(),
        },
    }
}

/// The selected version: the project file's text where it is non-empty,
/// else the global default file's text, else empty. Neither is trimmed.
pub fn get_version(project: Option<String>, global: Option<String>) -> (r: String)
    ensures
        r@ == version_spec(
            match project {
                Some(v) => Some(v@),
                None => None,
            },
            match global {
                Some(g) => Some(g@),
                None => None,
            },
        ),
{
    if let Some(v) = project {
        if !v.as_str().is_empty() {
            return v;
        }
    }
    match global {
        Some(g) => g,
        None => String::new(),
    }
}

} // verus!
