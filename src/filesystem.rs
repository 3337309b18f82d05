use vstd::prelude::*;

use crate::text::{starts_with, str_eq};

verus! {

/// Errors of the file-system facilities. Failures of the platform carry
/// their message as text.
#[derive(Debug, Clone, PartialEq, Eq)]
pub enum FileSystemError {
    PathNotFound(String),
    NotADirectory(String),
    PermissionDenied(String),
    Io(String),
    Other(String),
}

/// A file or directory.
#[derive(Debug, Clone, PartialEq, Eq)]
pub struct FileSystemEntry {
    pub name: String,
    pub path: String,
    pub is_dir: bool,
    pub is_file: bool,
    pub is_symlink: bool,
    /// Size in bytes, for files.
    pub size: Option<u64>,
    /// Modification time, in seconds since the Unix epoch.
    pub modified: Option<u64>,
    pub is_hidden: bool,
}

/// A directory and what it holds.
#[derive(Debug, Clone, PartialEq, Eq)]
pub struct DirectoryInfo {
    pub path: String,
    pub name: String,
    pub parent: Option<String>,
    pub directories: Vec<FileSystemEntry>,
    pub files: Vec<FileSystemEntry>,
    pub accessible: bool,
}

/// A file.
#[derive(Debug, Clone, PartialEq, Eq)]
pub struct FileInfo {
    pub path: String,
    pub name: String,
    pub size: u64,
    pub modified: Option<u64>,
    pub extension: Option<String>,
    pub is_text: bool,
}

/// How to search for files.
#[derive(Debug, Clone, PartialEq, Eq)]
pub struct SearchOptions {
    /// A glob pattern.
    pub pattern: String,
    pub recursive: bool,
    pub include_hidden: bool,
    pub max_depth: usize,
    pub max_results: usize,
}

pub fn default_recursive() -> (r: bool)
    ensures
        r,
{
    true
}

pub fn default_max_depth() -> (r: usize)
    ensures
        r == 10,
{
    10
}

pub fn default_max_results() -> (r: usize)
    ensures
        r == 100,
{
    100
}

impl SearchOptions {
    /// Options for `pattern` with the defaults: recursive, no hidden files,
    /// depth 10, 100 results.
    pub fn with_pattern(pattern: String) -> (r: Self)
        ensures
            r.pattern == pattern,
            r.recursive,
            !r.include_hidden,
            r.max_depth == 10,
            r.max_results == 100,
    {
        SearchOptions {
            pattern,
            recursive: default_recursive(),
            include_hidden: false,
            max_depth: default_max_depth(),
            max_results: default_max_results(),
        }
    }
}

/// What a search found.
#[derive(Debug, Clone, PartialEq, Eq)]
pub struct SearchResult {
    pub files: Vec<FileSystemEntry>,
    pub total: usize,
    pub truncated: bool,
}

/// `s` without its trailing `/` characters.
pub open spec fn without_trailing_slashes(s: Seq<char>) -> Seq<char>
    decreases s.len(),
{
    if s.len() > 0 && s.last() == '/' {
        without_trailing_slashes(s.drop_last())
    } else {
        s
    }
}

/// Whether the absolute, normalised path `path` lies under `root`, compared
/// component by component: the root itself, or below it.
pub open spec fn path_under(path: Seq<char>, root: Seq<char>) -> bool {
    let r = without_trailing_slashes(root);
    r.len() == 0 || path == r || (r.len() < path.len() && path.subrange(0, r.len() as int) == r && path[r.len() as int] == '/')
}

fn trailing_trimmed_len(s: &str) -> (r: usize)
    ensures
        r <= s@.len(),
        s@.subrange(0, r as int) == without_trailing_slashes(s@),
{
    let mut k = s.unicode_len();
    proof {
        assert(s@.subrange(0, k as int) =~= s@);
    }
    while k > 0 && s.get_char(k - 1) == '/'
        invariant
            k <= s@.len(),
            without_trailing_slashes(s@) == without_trailing_slashes(s@.subrange(0, k as int)),
        decreases k,
    {
        proof {
            assert(s@.subrange(0, k as int).drop_last() =~= s@.subrange(0, k - 1));
        }
        k = k - 1;
    }
    k
}

/// Access to the file system, limited to a set of root directories.
#[derive(Debug, Clone)]
pub struct FileSystemCapabilities {
    allowed_roots: Vec<String>,
}

impl FileSystemCapabilities {
    /// The roots under which access is allowed.
    pub closed spec fn roots(&self) -> Seq<Seq<char>> {
        self.allowed_roots@.map_values(|s: String| s@)
    }

    /// Access to the whole file system.
    pub fn new() -> (r: Self)
        ensures
            r.roots() == seq!["/"@],
    {
        let mut roots: Vec<String> = Vec::new();
        roots.push(String::from_str("/"));
        let r = FileSystemCapabilities { allowed_roots: roots };
        assert(r.roots() =~= seq!["/"@]);
        r
    }

    /// Access limited to `roots`; with none given, the whole file system.
    pub fn with_allowed_roots(roots: Vec<String>) -> (r: Self)
        ensures
            roots@.len() == 0 ==> r.roots() == seq!["/"@],
            roots@.len() > 0 ==> r.roots() == roots@.map_values(|s: String| s@),
    {
        if roots.len() == 0 {
            FileSystemCapabilities::new()
        } else {
            FileSystemCapabilities { allowed_roots: roots }
        }
    }

    /// Whether the canonical path `canonical` lies under one of the roots.
    pub fn is_path_allowed(&self, canonical: &str) -> (r: bool)
        ensures
            r == exists|i: int| 0 <= i < self.roots().len() && path_under(canonical@, #[trigger] self.roots()[i]),
    {
        let n = canonical.unicode_len();
        let mut i: usize = 0;
        while i < self.allowed_roots.len()
            invariant
                i <= self.roots().len(),
                self.roots().len() == self.allowed_roots@.len(),
                n == canonical@.len(),
                forall|j: int| 0 <= j < i ==> !path_under(canonical@, #[trigger] self.roots()[j]),
            decreases self.roots().len() - i,
        {
            let root = self.allowed_roots[i].as_str();
            assert(self.roots()[i as int] == root@);
            let k = trailing_trimmed_len(root);
            let r = root.substring_char(0, k);
            let under = if k == 0 {
                true
            } else if str_eq(canonical, r) {
                true
            } else if k < n && starts_with(canonical, r) {
                canonical.get_char(k) == '/'
            } else {
                false
            };
            if under {
                return true;
            }
            i = i + 1;
        }
        false
    }
}

} // verus!
