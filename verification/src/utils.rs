//! What the HTTP adapter needs computed for it.

use vstd::prelude::*;
use vstd::string::*;

verus! {

/// The part of `path` that comes before its last `tail_len` characters;
/// empty where the path has no more than that.
pub open spec fn before_tail(path: Seq<char>, tail_len: nat) -> Seq<char> {
    if tail_len <= path.len() {
        path.subrange(0, path.len() - tail_len)
    } else {
        Seq::empty()
    }
}

/// The prefix under which a request was routed: what comes before the tail
/// that the route matched, unless that is nothing or the root alone.
pub open spec fn prefix_model(path: Seq<char>, tail: Seq<char>) -> Option<Seq<char>> {
    let head = before_tail(path, tail.len());
    if head.len() == 0 || head == seq!['/'] {
        None
    } else {
        Some(head)
    }
}

/// The prefix under which a request was routed, given the path that was
/// matched and the tail that the route left unprocessed.
pub fn request_prefix(path: &str, tail: &str) -> (r: Option<String>)
    ensures
        match r {
            Some(s) => prefix_model(path@, tail@) == Some(s@),
            None => prefix_model(path@, tail@) is None,
        },
{
    let path_len: usize = path.unicode_len();
    let tail_len: usize = tail.unicode_len();
    if tail_len >= path_len {
        return None;
    }
    let head = path.substring_char(0, path_len - tail_len);
    if path_len - tail_len == 1 && head.get_char(0) == '/' {
        assert(head@ =~= seq!['/']);
        return None;
    }
    assert(head@ == seq!['/'] ==> head@.len() == 1);
    Some(String::from_str(head))
}

} // verus!
