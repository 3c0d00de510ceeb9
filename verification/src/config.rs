//! The default configuration path.

use vstd::prelude::*;

verus! {

/// The path that is used when no override applies.
pub const DEFAULT_PATH: &'static str = ".config";

/// The characters of [`DEFAULT_PATH`].
pub open spec fn default_path_chars() -> Seq<char> {
    seq!['.', 'c', 'o', 'n', 'f', 'i', 'g']
}

/// Returns the default configuration path, `".config"`.
pub fn default_path() -> (path: &'static str)
    ensures
        path@ == default_path_chars(),
{
    proof {
        reveal_strlit(".config");
    }
    DEFAULT_PATH
}

} // verus!
