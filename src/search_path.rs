//! The augmented search path: one directory put in front of the inherited
//! list of directories, or the empty value that means "leave it alone".
use crate::paths::Platform;
use vstd::prelude::*;

verus! {

impl Platform {
    /// The character between two entries of a search-path list.
    pub open spec fn list_separator(self) -> char {
        match self {
            Platform::Posix => ':',
            Platform::Windows => ';',
        }
    }

    /// The character that no entry may hold if the list is to be written.
    pub open spec fn list_forbidden(self) -> char {
        match self {
            Platform::Posix => ':',
            Platform::Windows => '"',
        }
    }
}

/// How one entry is written into the list: on Windows an entry that holds
/// the list separator is put in double quotes.
pub open spec fn entry_text(e: Seq<char>, p: Platform) -> Seq<char> {
    if p is Windows && e.contains(';') {
        seq!['"'] + e + seq!['"']
    } else {
        e
    }
}

/// Whether every entry can be written into a list.
pub open spec fn joinable(entries: Seq<Seq<char>>, p: Platform) -> bool {
    forall|i: int| 0 <= i < entries.len() ==> !(#[trigger] entries[i]).contains(p.list_forbidden())
}

/// The entries written one after the other, separated by the list separator.
pub open spec fn joined(entries: Seq<Seq<char>>, p: Platform) -> Seq<char>
    decreases entries.len(),
{
    if entries.len() == 0 {
        Seq::empty()
    } else if entries.len() == 1 {
        entry_text(entries[0], p)
    } else {
        joined(entries.drop_last(), p) + seq![p.list_separator()] + entry_text(entries.last(), p)
    }
}

/// The list with `dir` in front, or `None` where it cannot be written.
pub open spec fn prepended(dir: Seq<char>, entries: Seq<Seq<char>>, p: Platform) -> Option<Seq<char>> {
    let all = seq![dir] + entries;
    if joinable(all, p) {
        Some(joined(all, p))
    } else {
        None
    }
}

/// The augmented search path for the selected `version` and the candidate
/// directory `dir`: empty where no version is selected or `dir` does not
/// exist; `dir` alone where nothing is inherited; else `dir` in front of
/// the inherited entries, or empty where that list cannot be written.
pub open spec fn search_path_spec(
    version: Seq<char>,
    dir: Seq<char>,
    dir_exists: bool,
    inherited: Option<Seq<Seq<char>>>,
    p: Platform,
) -> Seq<char> {
    if version.len() == 0 || !dir_exists {
        Seq::empty()
    } else {
        match inherited {
            None => dir,
            Some(entries) => match prepended(dir, entries, p) {
                Some(list) => list,
                None => Seq::empty(),
            },
        }
    }
}

/// The views of a list of strings.
pub open spec fn texts(v: Seq<String>) -> Seq<Seq<char>> {
    v.map_values(|s: String| s@)
}

/// Whether `s` holds the character `c`.
pub fn has_char(s: &str, c: char) -> (r: bool)
    ensures
        r == s@.contains(c),
{
    let n = s.unicode_len();
    let mut i: usize = 0;
    while i < n
        invariant
            n == s@.len(),
            i <= n,
            forall|j: int| 0 <= j < i ==> s@[j] != c,
        decreases n - i,
    {
        if s.get_char(i) == c {
            return true;
        }
        i = i + 1;
    }
    false
}

/// Writes `entry` at the end of `out` as a list entry.
fn push_entry(out: &mut String, entry: &str, p: Platform)
    ensures
        final(out)@ == old(out)@ + entry_text(entry@, p),
{
    let quote = match p {
        Platform::Posix => false,
        Platform::Windows => has_char(entry, ';'),
    };
    if quote {
        let q = "\"";
        proof {
            reveal_strlit("\"");
        }
        out.append(q);
        out.append(entry);
        out.append(q);
    } else {
        out.append(entry);
    }
}

/// Joins `entries` into one search-path list, or `None` where an entry
/// holds a character that the list cannot carry.
pub fn join_search_path(entries: &Vec<String>, p: Platform) -> (r: Option<String>)
    ensures
        joinable(texts(entries@), p) ==> r is Some && r->0@ == joined(texts(entries@), p),
        !joinable(texts(entries@), p) ==> r is None,
{
    let ghost es = texts(entries@);
    let forbidden = match p {
        Platform::Posix => ':',
        Platform::Windows => '"',
    };
    let mut out = String::new();
    let mut i: usize = 0;
    while i < entries.len()
        invariant
            es == texts(entries@),
            forbidden == p.list_forbidden(),
            i <= entries.len(),
            joinable(es.take(i as int), p),
            out@ == joined(es.take(i as int), p),
        decreases entries.len() - i,
    {
        if has_char(entries[i].as_str(), forbidden) {
            assert(!joinable(es, p)) by {
                assert(es[i as int] == entries@[i as int]@);
            }
            return None;
        }
        if i > 0 {
            match p {
                Platform::Posix => {
                    let s = ":";
                    proof {
                        reveal_strlit(":");
                    }
                    out.append(s);
                },
                Platform::Windows => {
                    let s = ";";
                    proof {
                        reveal_strlit(";");
                    }
                    out.append(s);
                },
            }
        }
        push_entry(&mut out, entries[i].as_str(), p);
        proof {
            let next = es.take(i + 1);
            assert(next.drop_last() =~= es.take(i as int));
            assert(next.last() == entries@[i as int]@);
            assert(joinable(next, p)) by {
                assert forall|j: int| 0 <= j < next.len() implies !(#[trigger] next[j]).contains(
                    p.list_forbidden(),
                ) by {
                    if j < i {
                        assert(next[j] == es.take(i as int)[j]);
                    }
                }
            }
        }
        i = i + 1;
    }
    assert(es.take(entries.len() as int) =~= es);
    Some(out)
}

/// Puts `dir` in front of the inherited search path; the result is empty
/// where no version is selected, where `dir` does not exist, or where the
/// list cannot be written; it is `dir` alone where nothing is inherited.
pub fn get_env_path(
    version: &str,
    dir: &str,
    dir_exists: bool,
    inherited: Option<Vec<String>>,
    p: Platform,
) -> (r: String)
    ensures
        r@ == search_path_spec(
            version@,
            dir@,
            dir_exists,
            match inherited {
                Some(v) => Some(texts(v@)),
                None => None,
            },
            p,
        ),
{
    if version.is_empty() || !dir_exists {
        return String::new();
    }
    match inherited {
        None => String::from_str(dir),
        Some(entries) => {
            let mut all: Vec<String> = Vec::new();
            all.push(String::from_str(dir));
            let mut i: usize = 0;
            while i < entries.len()
                invariant
                    i <= entries.len(),
                    texts(all@) =~= seq![dir@] + texts(entries@).take(i as int),
                decreases entries.len() - i,
            {
                let e = entries[i].clone();
                let ghost before = all@;
                all.push(e);
                proof {
                    assert(all@ == before.push(e));
                    assert(texts(all@) =~= texts(before).push(e@));
                    assert(texts(entries@).take(i + 1) =~= texts(entries@).take(i as int).push(e@));
                }
                i = i + 1;
            }
            assert(texts(entries@).take(entries.len() as int) =~= texts(entries@));
            match join_search_path(&all, p) {
                Some(list) => list,
                None => String::new(),
            }
        },
    }
}

} // verus!

verus! {

/// Writing a directory in front of a non-empty list gives that directory,
/// one separator, and the list as it was written before.
proof fn lemma_joined_front(d: Seq<char>, es: Seq<Seq<char>>, p: Platform)
    requires
        es.len() >= 1,
    ensures
        joined(seq![d] + es, p) == entry_text(d, p) + seq![p.list_separator()] + joined(es, p),
    decreases es.len(),
{
    let all = seq![d] + es;
    if es.len() == 1 {
        assert(all.drop_last() =~= seq![d]);
        assert(seq![d][0] == d);
        assert(seq![d].len() == 1);
        assert(joined(seq![d], p) == entry_text(d, p));
        assert(all.len() == 2);
        assert(all.last() == es[0]);
        assert(joined(es, p) == entry_text(es[0], p));
        assert(joined(all, p) =~= entry_text(d, p) + seq![p.list_separator()] + joined(es, p));
    } else {
        assert(all.drop_last() =~= seq![d] + es.drop_last());
        lemma_joined_front(d, es.drop_last(), p);
        assert(all.last() == es.last());
        assert(joined(all, p) =~= entry_text(d, p) + seq![p.list_separator()] + joined(es, p));
    }
}

/// Without a selected version, or where the candidate directory does not
/// exist, the augmented search path is empty, whatever is inherited.
pub proof fn lemma_no_override(
    version: Seq<char>,
    dir: Seq<char>,
    dir_exists: bool,
    inherited: Option<Seq<Seq<char>>>,
    p: Platform,
)
    requires
        version.len() == 0 || !dir_exists,
    ensures
        search_path_spec(version, dir, dir_exists, inherited, p) == Seq::<char>::empty(),
{
}

/// On a Posix system, with a version selected and an existing directory,
/// the augmented search path is the directory, `:`, and the inherited
/// entries as they were, in their order, none dropped or repeated.
pub proof fn lemma_prepend_keeps_entries(
    version: Seq<char>,
    dir: Seq<char>,
    entries: Seq<Seq<char>>,
)
    requires
        version.len() > 0,
        entries.len() > 0,
        joinable(seq![dir] + entries, Platform::Posix),
    ensures
        search_path_spec(version, dir, true, Some(entries), Platform::Posix) == dir + seq![':']
            + joined(entries, Platform::Posix),
{
    lemma_joined_front(dir, entries, Platform::Posix);
}

} // verus!
