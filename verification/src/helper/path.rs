//! Paths below a directory, written the Unix way.

use crate::helper::constants::UDS_SOCKET_NAME;
use crate::helper::text::chars_of;
use vstd::prelude::*;
use vstd::string::StringExecFns;

verus! {

/// The path of `name` below `dir`: the two joined by a slash, unless `dir`
/// is empty or ends in one already.
pub open spec fn joined(dir: Seq<char>, name: Seq<char>) -> Seq<char> {
    if dir.len() > 0 && dir.last() != '/' {
        dir + "/"@ + name
    } else {
        dir + name
    }
}

/// The path of the relative `name` below `dir`.
pub fn join_path(dir: &str, name: &str) -> (path: String)
    ensures
        path@ == joined(dir@, name@),
{
    let chars = chars_of(dir);
    if chars.len() > 0 && chars[chars.len() - 1] != '/' {
        String::from_str(dir).concat("/").concat(name)
    } else {
        String::from_str(dir).concat(name)
    }
}

/// The path of the Unix domain socket below the temporary directory
/// `tmp_path`.
pub fn get_socket_path(tmp_path: &str) -> (path: String)
    ensures
        path@ == joined(tmp_path@, UDS_SOCKET_NAME@),
{
    join_path(tmp_path, UDS_SOCKET_NAME)
}

} // verus!
