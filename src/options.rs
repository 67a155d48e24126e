//! The options of one listing.

use vstd::prelude::*;
use vstd::string::*;

verus! {

/// What the user asked for. The sort flags are accepted but do not change the
/// order of the listing, which stays the order in which the directory is read.
pub struct Options {
    /// The directory to list; the current directory when absent.
    pub path: Option<String>,
    /// Show entries whose name starts with a dot.
    pub all: bool,
    pub size: bool,
    pub time: bool,
    pub reverse: bool,
    pub name: bool,
}

impl Options {
    /// The directory to list: the given path, else `"."`.
    pub fn target_path(&self) -> (r: String)
        ensures
            r@ == match self.path {
                Some(p) => p@,
                None => seq!['.'],
            },
    {
        match &self.path {
            Some(p) => p.clone(),
            None => {
                proof { reveal_strlit("."); }
                String::from_str(".")
            },
        }
    }
}

} // verus!
