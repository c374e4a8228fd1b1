//! The directory-listing tool's parameters and entries.

use vstd::prelude::*;

verus! {

/// Parameters of a listing.
#[derive(Clone, Debug)]
pub struct LsToolParams {
    /// Directory to list (defaults to the current directory).
    pub directory: String,
    /// Whether to list recursively.
    pub recursive: bool,
    /// Whether to show files whose name starts with a dot.
    pub show_hidden: bool,
    /// Whether to show size, permissions and the like.
    pub long_format: bool,
    /// How deep a recursive listing goes; none for no bound.
    pub max_depth: Option<u32>,
    /// How many entries to return at most; none for no bound.
    pub max_files: Option<u32>,
}

/// The directory listed when none is given.
pub fn default_directory() -> (r: String)
    ensures
        r@ == "."@,
{
    String::from_str(".")
}

/// The bound on entries when none is given, to keep listings readable.
pub fn default_max_files() -> (r: Option<u32>)
    ensures
        r == Some(200u32),
{
    Some(200)
}

impl LsToolParams {
    /// The parameters of a call that gives none.
    pub fn with_defaults() -> (r: LsToolParams)
        ensures
            r.directory@ == "."@,
            !r.recursive && !r.show_hidden && !r.long_format,
            r.max_depth is None,
            r.max_files == Some(200u32),
    {
        LsToolParams {
            directory: default_directory(),
            recursive: false,
            show_hidden: false,
            long_format: false,
            max_depth: None,
            max_files: default_max_files(),
        }
    }
}

/// One listed entry.
#[derive(Clone, Debug)]
pub struct FileInfo {
    pub name: String,
    pub path: String,
    pub is_dir: bool,
    pub size: u64,
    /// Modification time, in whole seconds since the Unix epoch, if known.
    pub modified: Option<u64>,
    pub permissions: String,
}

} // verus!
