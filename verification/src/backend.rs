//! The log that the backend's starter leaves behind.

use vstd::prelude::*;
use vstd::string::*;
use crate::text::{join, joined, texts};

verus! {

/// What is written to the log: the lines, each on its own, and after them the
/// extra line where there is one.
pub open spec fn log_content_of(lines: Seq<Seq<char>>, extra: Seq<char>) -> Seq<char> {
    if extra.len() == 0 {
        joined(lines, "\n"@)
    } else {
        joined(lines, "\n"@) + "\n"@ + extra
    }
}

/// Puts the log together.
pub fn log_content(lines: &Vec<String>, extra: &str) -> (r: String)
    ensures
        r@ == log_content_of(texts(lines@), extra@),
{
    let body = join(lines, "\n");
    if extra.unicode_len() == 0 {
        body
    } else {
        body.concat("\n").concat(extra)
    }
}

} // verus!
