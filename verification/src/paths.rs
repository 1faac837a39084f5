//! Paths as text, joined the way `PathBuf::join` joins them on Unix.

use vstd::prelude::*;
use crate::text::{concat2, concat3, first_char, last_char};

verus! {

/// `tail` resolved against `base`: an absolute `tail` replaces `base`; otherwise
/// `tail` is appended, with one separator unless `base` is empty or already ends
/// with one.
pub open spec fn spec_join(base: Seq<char>, tail: Seq<char>) -> Seq<char> {
    if tail.len() > 0 && tail[0] == '/' {
        tail
    } else if base.len() == 0 || base.last() == '/' {
        base + tail
    } else {
        base + seq!['/'] + tail
    }
}

/// Joins `tail` onto `base` as a path.
pub fn join_path(base: &str, tail: &str) -> (r: String)
    ensures
        r@ == spec_join(base@, tail@),
{
    let starts_with_root = match first_char(tail) {
        Some(c) => c == '/',
        None => false,
    };
    if starts_with_root {
        return String::from_str(tail);
    }
    let needs_separator = match last_char(base) {
        Some(c) => c != '/',
        None => false,
    };
    if needs_separator {
        let r = concat3(base, "/", tail);
        proof {
            reveal_strlit("/");
        }
        r
    } else {
        concat2(base, tail)
    }
}

} // verus!
