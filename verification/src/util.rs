//! Small bounded string helpers used by the flag renderer.

use vstd::prelude::*;
use vstd::string::*;

verus! {

/// Appends at most `n` characters of `src` to `dest`.
pub fn strncat(dest: &mut String, src: String, n: usize)
    ensures
        final(dest)@ == old(dest)@ + (if n < src@.len() {
            src@.subrange(0, n as int)
        } else {
            src@
        }),
{
    let len = src.as_str().unicode_len();
    if n < len {
        let part = src.as_str().substring_char(0, n);
        dest.append(part);
    } else {
        dest.append(src.as_str());
    }
}

/// The length of `src` in characters, capped at `max_len`.
pub fn strnlen(src: &str, max_len: usize) -> (r: usize)
    ensures
        r == if src@.len() < max_len {
            src@.len() as int
        } else {
            max_len as int
        },
{
    let len = src.unicode_len();
    if len < max_len {
        len
    } else {
        max_len
    }
}

} // verus!
