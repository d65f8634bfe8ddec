//! The two file names of one run.

use crate::engine::string_of;
use crate::text::{chars_of, push_range};
use vstd::prelude::*;

verus! {

/// Where the document is read from and where the result is written to.
pub struct Arguments {
    pub input: String,
    pub out: String,
}

/// The output name that goes with an input name when none is given: the
/// input name without its last character.
pub open spec fn default_out(input: Seq<char>) -> Seq<char> {
    input.drop_last()
}

impl Arguments {
    /// The arguments of a run from the input name and the output name, if
    /// one was given.
    pub fn resolve(input: String, out: Option<String>) -> (r: Arguments)
        requires
            input@.len() > 0,
        ensures
            r.input@ == input@,
            r.out@ == match out {
                Some(name) => name@,
                None => default_out(input@),
            },
    {
        match out {
            Some(name) => Arguments { input, out: name },
            None => {
                let name = chars_of(input.as_str());
                let mut short: Vec<char> = Vec::new();
                push_range(&mut short, &name, 0, name.len() - 1);
                assert(short@ =~= default_out(input@));
                Arguments { out: string_of(&short), input }
            },
        }
    }
}

} // verus!
