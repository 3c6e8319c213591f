//! Resolution of a loosely given history location into a concrete file path.
use vstd::prelude::*;

verus! {

/// The file name used when the history location names a directory.
pub const DEFAULT_HISTORY_FILE_NAME: &'static str = ".repl_history";

/// What the filesystem holds at a location, as far as resolution needs it.
#[derive(Clone, Copy, Debug, PartialEq, Eq, Structural)]
pub enum PathKind {
    /// An existing regular file.
    File,
    /// An existing directory.
    Directory,
    /// Nothing, or something that is neither a file nor a directory.
    Missing,
}

/// The characters of the default history file name.
pub open spec fn default_file_name() -> Seq<char> {
    seq!['.', 'r', 'e', 'p', 'l', '_', 'h', 'i', 's', 't', 'o', 'r', 'y']
}

/// Whether `s` holds a path separator.
pub open spec fn has_separator(s: Seq<char>) -> bool {
    s.contains('/')
}

/// `name` appended to the directory `base` as one more path component.
pub open spec fn join(base: Seq<char>, name: Seq<char>) -> Seq<char> {
    if base.len() == 0 {
        name
    } else if base.last() == '/' {
        base + name
    } else {
        base + seq!['/'] + name
    }
}

/// The history file for `location`, given what the filesystem holds there and
/// the home directory, if one is known.
///
/// An absent location disables history. An existing file is used as it is; an
/// existing directory gets the default file name. Anything else is taken as a
/// bare file name in the home directory; a location that holds a separator
/// names a place of its own and is never moved under the home directory, so
/// when nothing exists there history is disabled.
pub open spec fn resolve(location: Option<Seq<char>>, kind: PathKind, home: Option<Seq<char>>) -> Option<Seq<char>> {
    match location {
        None => None,
        Some(s) => match kind {
            PathKind::File => Some(s),
            PathKind::Directory => Some(join(s, default_file_name())),
            PathKind::Missing => {
                if has_separator(s) {
                    None
                } else {
                    match home {
                        Some(h) => Some(join(h, s)),
                        None => None,
                    }
                }
            },
        },
    }
}

/// The characters of an optional string.
pub open spec fn opt_chars(o: Option<String>) -> Option<Seq<char>> {
    match o {
        Some(s) => Some(s@),
        None => None,
    }
}

/// Whether `s` holds a path separator.
pub fn contains_separator(s: &str) -> (r: bool)
    ensures
        r == has_separator(s@),
{
    let n = s.unicode_len();
    let mut i: usize = 0;
    while i < n
        invariant
            n == s@.len(),
            i <= n,
            forall|j: int| 0 <= j < i ==> s@[j] != '/',
        decreases n - i,
    {
        if s.get_char(i) == '/' {
            return true;
        }
        i = i + 1;
    }
    false
}

/// Appends `name` to the directory `base` as one more path component.
pub fn join_path(base: &str, name: &str) -> (r: String)
    ensures
        r@ == join(base@, name@),
{
    let n = base.unicode_len();
    if n == 0 {
        String::from_str(name)
    } else if base.get_char(n - 1) == '/' {
        String::from_str(base).concat(name)
    } else {
        let r = String::from_str(base).concat("/").concat(name);
        proof {
            reveal_strlit("/");
        }
        r
    }
}

/// The history file for `location`, given what the filesystem holds there and
/// the home directory, if one is known.
pub fn resolve_history_path(location: Option<String>, kind: PathKind, home: Option<String>) -> (r: Option<String>)
    ensures
        opt_chars(r) == resolve(opt_chars(location), kind, opt_chars(home)),
{
    match location {
        None => None,
        Some(s) => match kind {
            PathKind::File => Some(s),
            PathKind::Directory => {
                proof {
                    reveal_strlit(".repl_history");
                    assert(DEFAULT_HISTORY_FILE_NAME@ =~= default_file_name());
                }
                Some(join_path(s.as_str(), DEFAULT_HISTORY_FILE_NAME))
            },
            PathKind::Missing => {
                if contains_separator(s.as_str()) {
                    None
                } else {
                    match home {
                        Some(h) => Some(join_path(h.as_str(), s.as_str())),
                        None => None,
                    }
                }
            },
        },
    }
}

/// Relies on std::path::Path::is_file: whether a regular file stands at
/// `location`. The answer depends on the filesystem, so nothing is promised.
#[verifier::external_body]
fn is_existing_file(location: &str) -> (r: bool) {
    std::path::Path::new(location).is_file()
}

/// Relies on std::path::Path::is_dir: whether a directory stands at
/// `location`. The answer depends on the filesystem, so nothing is promised.
#[verifier::external_body]
fn is_existing_dir(location: &str) -> (r: bool) {
    std::path::Path::new(location).is_dir()
}

/// Relies on dirs::home_dir: the current user's home directory, if one can be
/// found. It depends on the environment, so nothing is promised of it.
#[verifier::external_body]
fn home_directory() -> (r: Option<String>) {
    dirs::home_dir().map(|p| p.to_string_lossy().into_owned())
}

/// Looks at what the filesystem holds at `location`.
fn probe_path_kind(location: &str) -> (r: PathKind) {
    if is_existing_file(location) {
        PathKind::File
    } else if is_existing_dir(location) {
        PathKind::Directory
    } else {
        PathKind::Missing
    }
}

/// The history file for `history_file_name`, resolved against the filesystem
/// and the home directory as they are now. Only the filesystem is probed;
/// nothing is created or changed.
pub fn get_history_file_path(history_file_name: Option<String>) -> (r: Option<String>)
    ensures
        exists|kind: PathKind, home: Option<Seq<char>>|
            opt_chars(r) == #[trigger] resolve(opt_chars(history_file_name), kind, home),
        history_file_name is None ==> r is None,
{
    match history_file_name {
        None => None,
        Some(s) => {
            let kind = probe_path_kind(s.as_str());
            let home = match kind {
                PathKind::Missing => home_directory(),
                _ => None,
            };
            resolve_history_path(Some(s), kind, home)
        },
    }
}

} // verus!
