//! The traversal filter: which directory entries never enter an archive.
//!
//! The policy is closed. It is applied to the name of every entry that a
//! traversal comes to, so that a directory that is left out is never entered.

use vstd::prelude::*;
use vstd::string::*;
use crate::text::same_text;

verus! {

/// The name of the local output cache directory.
pub open spec fn cache_dir_name() -> Seq<char> {
    seq!['b', 'u', 'i', 'l', 'd']
}

/// The name that a traversal gives to its own root.
pub open spec fn root_marker() -> Seq<char> {
    seq!['.']
}

/// A name that starts with a dot.
pub open spec fn is_dot_prefixed(name: Seq<char>) -> bool {
    name.len() > 0 && name[0] == '.'
}

/// The exclusion policy. An entry is left out when it is the artifact being
/// produced, when it is dot-prefixed without being the traversal's root, or
/// when it is the output cache directory. Each of the three is enough, and
/// nothing else is left out.
pub open spec fn excluded(name: Seq<char>, is_root_marker: bool, artifact_name: Seq<char>) -> bool {
    ||| name == artifact_name
    ||| (!is_root_marker && is_dot_prefixed(name))
    ||| name == cache_dir_name()
}

/// The policy for an entry that is known by its name alone: the traversal's
/// root is the entry named `.`.
pub open spec fn hidden(name: Seq<char>, artifact_name: Seq<char>) -> bool {
    excluded(name, name == root_marker(), artifact_name)
}

/// Decides whether an entry is kept out of the archive. `is_root_marker`
/// says whether the entry is the root of the traversal, which may be
/// dot-prefixed; `destination_file_name` is the file name of the artifact
/// being produced.
pub fn exclude(entry_name: &str, is_root_marker: bool, destination_file_name: &str) -> (r: bool)
    ensures
        r == excluded(entry_name@, is_root_marker, destination_file_name@),
{
    proof {
        reveal_strlit("build");
        assert("build"@ =~= cache_dir_name());
    }
    if same_text(entry_name, destination_file_name) || same_text(entry_name, "build") {
        return true;
    }
    if is_root_marker {
        return false;
    }
    let n: usize = entry_name.unicode_len();
    n > 0 && entry_name.get_char(0) == '.'
}

/// Decides whether a directory entry named `entry_name` is kept out of the
/// archive whose file is named `zip_file_name`. The entry named `.` is taken
/// for the root of the traversal.
pub fn is_hidden(entry_name: &str, zip_file_name: &str) -> (r: bool)
    ensures
        r == hidden(entry_name@, zip_file_name@),
{
    proof {
        reveal_strlit(".");
        assert("."@ =~= root_marker());
    }
    let is_root_marker = same_text(entry_name, ".");
    exclude(entry_name, is_root_marker, zip_file_name)
}

} // verus!
