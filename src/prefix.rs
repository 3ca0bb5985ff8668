//! The package manager's global prefix, picked from what it printed.
use vstd::prelude::*;

verus! {

/// One line of the package manager's output, and whether that line names
/// an existing directory.
#[derive(Debug)]
pub struct PrefixLine {
    pub text: String,
    pub is_dir: bool,
}

/// The last line that names an existing directory, or empty where none does.
pub open spec fn last_dir_line(lines: Seq<PrefixLine>) -> Seq<char>
    decreases lines.len(),
{
    if lines.len() == 0 {
        Seq::empty()
    } else if lines.last().is_dir {
        lines.last().text@
    } else {
        last_dir_line(lines.drop_last())
    }
}

/// The global prefix: the last output line that names an existing
/// directory, so that notices printed before it never win; empty where no
/// line does.
pub fn get_npm_prefix(lines: &Vec<PrefixLine>) -> (r: String)
    ensures
        r@ == last_dir_line(lines@),
{
    let mut prefix = String::new();
    let mut i: usize = 0;
    while i < lines.len()
        invariant
            i <= lines.len(),
            prefix@ == last_dir_line(lines@.take(i as int)),
        decreases lines.len() - i,
    {
        assert(lines@.take(i + 1).drop_last() =~= lines@.take(i as int));
        if lines[i].is_dir {
            prefix = lines[i].text.clone();
        }
        i = i + 1;
    }
    assert(lines@.take(lines.len() as int) =~= lines@);
    prefix
}

} // verus!
