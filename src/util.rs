use vstd::prelude::*;

use crate::text::joined;

verus! {

/// Marks on standard error where the output for one nested root begins and
/// ends.
pub struct Delimiter {
    pub path: String,
}

/// The line that opens (`<<< path`) or closes (`>>> path`) the output for
/// the root at `path`.
pub open spec fn delimiter_line(path: Seq<char>, opening: bool) -> Seq<char> {
    (if opening {
        "<<< "@
    } else {
        ">>> "@
    }) + path
}

impl Delimiter {
    /// A delimiter for the root at `path`.
    pub fn new(path: &str) -> (r: Delimiter)
        ensures
            r.path@ == path@,
    {
        Delimiter { path: String::from_str(path) }
    }

    /// The opening (`opening`) or closing line of this delimiter.
    pub fn message(&self, opening: bool) -> (r: String)
        ensures
            r@ == delimiter_line(self.path@, opening),
    {
        if opening {
            joined("<<< ", self.path.as_str())
        } else {
            joined(">>> ", self.path.as_str())
        }
    }
}

} // verus!
