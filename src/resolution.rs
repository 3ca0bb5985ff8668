//! The whole resolution, from what was read to the toolchain-mode search path.
use crate::layout::version_bin_spec;
use crate::paths::Platform;
use crate::search_path::search_path_spec;
use crate::settings::{default_root_spec, installation_root_spec};
use crate::version::version_spec;
use vstd::prelude::*;

verus! {

/// What resolution reads from outside: the texts of the project version
/// file, the global default file and the settings document (`None` where
/// unreadable), the tool's home, whether the candidate directory exists,
/// and the inherited search-path entries.
pub struct ResolutionInputs {
    pub project: Option<Seq<char>>,
    pub global: Option<Seq<char>>,
    pub settings: Option<Seq<char>>,
    pub nvmd_path: Seq<char>,
    pub dir_exists: bool,
    pub inherited: Option<Seq<Seq<char>>>,
}

/// The selected version and the toolchain-mode search path that the
/// library's functions compute from `i`.
pub open spec fn resolution_spec(i: ResolutionInputs, p: Platform) -> (Seq<char>, Seq<char>) {
    let version = version_spec(i.project, i.global);
    let root = installation_root_spec(i.settings, default_root_spec(i.nvmd_path, p));
    let dir = version_bin_spec(root, version, p);
    (version, search_path_spec(version, dir, i.dir_exists, i.inherited, p))
}

/// Resolving the same inputs twice gives the same version and the same
/// search path, character for character.
pub proof fn lemma_resolution_repeatable(a: ResolutionInputs, b: ResolutionInputs, p: Platform)
    requires
        a == b,
    ensures
        resolution_spec(a, p) == resolution_spec(b, p),
{
}

} // verus!
