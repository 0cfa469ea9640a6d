pub mod byte;
pub mod file;
pub mod words;

use vstd::prelude::*;

use crate::key::Key;

verus! {

/// The character of a `Key::Char` press.
pub fn get_key_char(k: Key) -> (c: char)
    requires
        k is Char,
    ensures
        k == Key::Char(c),
{
    match k {
        Key::Char(c) => c,
        _ => {
            proof {
                assert(false);
            }
            ' '
        },
    }
}

} // verus!
