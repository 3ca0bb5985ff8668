//! Where a version's executables live, in each resolution mode.
use crate::paths::{bin_dir, bin_dir_spec, join_path, join_spec, Platform};
use vstd::prelude::*;

verus! {

/// Toolchain mode: `<root>/<version>[/bin]`, empty where no version is selected.
pub open spec fn version_bin_spec(root: Seq<char>, version: Seq<char>, p: Platform) -> Seq<char> {
    if version.len() == 0 {
        Seq::empty()
    } else {
        bin_dir_spec(join_spec(root, version, p), p)
    }
}

/// The directory of the selected version's executables under the
/// installation root, or empty where no version is selected.
pub fn get_bin_path(root: &str, version: &str, p: Platform) -> (r: String)
    ensures
        r@ == version_bin_spec(root@, version@, p),
{
    if version.is_empty() {
        return String::new();
    }
    let dir = join_path(root, version, p);
    bin_dir(dir.as_str(), p)
}

/// Binary mode: the package manager's global prefix, with `bin` where the
/// platform keeps executables there.
pub fn get_binary_bin_path(prefix: &str, p: Platform) -> (r: String)
    ensures
        r@ == bin_dir_spec(prefix@, p),
{
    bin_dir(prefix, p)
}

} // verus!
