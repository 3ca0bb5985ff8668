//! Paths as text: joining components and the per-platform `bin` layout.
use vstd::prelude::*;

verus! {

/// The two platform families whose installers lay versions out differently.
#[derive(Clone, Copy, Debug, PartialEq, Eq, Structural)]
pub enum Platform {
    /// Unix-like systems: separator `/`, executables under `bin`, list separator `:`.
    Posix,
    /// Windows-like systems: separator `\`, executables at the top, list separator `;`.
    Windows,
}

impl Platform {
    /// The separator that joining inserts between two components.
    pub open spec fn separator(self) -> char {
        match self {
            Platform::Posix => '/',
            Platform::Windows => '\\',
        }
    }

    /// Whether `c` already separates components on this platform.
    pub open spec fn is_separator(self, c: char) -> bool {
        match self {
            Platform::Posix => c == '/',
            Platform::Windows => c == '\\' || c == '/',
        }
    }

    /// Whether a version's executables sit in a `bin` subdirectory.
    pub open spec fn uses_bin_dir(self) -> bool {
        self is Posix
    }
}

/// `base` followed by the component `part`, with one separator between
/// them unless `base` is empty or already ends in one.
pub open spec fn join_spec(base: Seq<char>, part: Seq<char>, p: Platform) -> Seq<char> {
    if base.len() == 0 {
        part
    } else if p.is_separator(base.last()) {
        base + part
    } else {
        base + seq![p.separator()] + part
    }
}

/// The directory holding a version's executables inside its own directory.
pub open spec fn bin_dir_spec(dir: Seq<char>, p: Platform) -> Seq<char> {
    if p.uses_bin_dir() {
        join_spec(dir, seq!['b', 'i', 'n'], p)
    } else {
        dir
    }
}

/// Appends the component `part` to the path `base`.
pub fn join_path(base: &str, part: &str, p: Platform) -> (r: String)
    ensures
        r@ == join_spec(base@, part@, p),
{
    let n = base.unicode_len();
    let mut r = String::from_str(base);
    if n == 0 {
        return String::from_str(part);
    }
    let last = base.get_char(n - 1);
    let ends_in_separator = match p {
        Platform::Posix => last == '/',
        Platform::Windows => last == '\\' || last == '/',
    };
    if !ends_in_separator {
        match p {
            Platform::Posix => {
                let s = "/";
                proof {
                    reveal_strlit("/");
                }
                r.append(s);
            },
            Platform::Windows => {
                let s = "\\";
                proof {
                    reveal_strlit("\\");
                }
                r.append(s);
            },
        }
    }
    r.append(part);
    r
}

/// `dir`, followed by `bin` where the platform keeps executables there.
pub fn bin_dir(dir: &str, p: Platform) -> (r: String)
    ensures
        r@ == bin_dir_spec(dir@, p),
{
    match p {
        Platform::Posix => {
            let b = "bin";
            proof {
                reveal_strlit("bin");
            }
            join_path(dir, b, p)
        },
        Platform::Windows => String::from_str(dir),
    }
}

} // verus!
