//! The two plain request handlers of the bridge: accepting a write request
//! and answering a read request.

use vstd::prelude::*;
use vstd::string::StringExecFns;

verus! {

/// The text that answers a read request: a fixed prefix followed by the
/// requested path.
pub open spec fn spec_read_reply(path: Seq<char>) -> Seq<char> {
    "file data "@ + path
}

/// A write request is accepted exactly when both the path and the data are
/// non-empty.
pub fn write_file(path: &str, data: &str) -> (accepted: bool)
    ensures
        accepted == (path@.len() > 0 && data@.len() > 0),
{
    !path.is_empty() && !data.is_empty()
}

/// Answers a read request with the reply text for `path`.
pub fn read_file(path: &str) -> (reply: String)
    ensures
        reply@ == spec_read_reply(path@),
{
    let mut reply = String::from_str("file data ");
    reply.append(path);
    reply
}

/// The reply to a read request always embeds the requested path: it stands
/// unchanged right after the fixed prefix.
pub proof fn lemma_read_reply_contains_path(path: Seq<char>)
    ensures
        exists|i: int|
            0 <= i && i + path.len() <= spec_read_reply(path).len()
                && #[trigger] spec_read_reply(path).subrange(i, i + path.len() as int) == path,
{
    reveal_strlit("file data ");
    let prefix_len = "file data "@.len() as int;
    assert(spec_read_reply(path).subrange(prefix_len, prefix_len + path.len() as int) =~= path);
}

} // verus!
