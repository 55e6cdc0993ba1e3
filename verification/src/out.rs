//! Names of the two standard output destinations, as configuration text.

use vstd::prelude::*;

verus! {

pub const STDOUT: &'static str = "stdout";

pub const STDERR: &'static str = "stderr";

/// The standard output destination, as configuration text.
pub fn stdout() -> (r: Option<String>)
    ensures
        match r {
            Some(s) => s@ == "stdout"@,
            None => false,
        },
{
    Some(STDOUT.to_owned())
}

/// The standard error destination, as configuration text.
pub fn stderr() -> (r: Option<String>)
    ensures
        match r {
            Some(s) => s@ == "stderr"@,
            None => false,
        },
{
    Some(STDERR.to_owned())
}

} // verus!
