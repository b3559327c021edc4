//! The command line: a seed URL and a target directory.

use vstd::prelude::*;

verus! {

/// The line that tells how `program` is to be called.
pub open spec fn usage_of(program: Seq<char>) -> Seq<char> {
    "Usage: "@ + program + " <url> <target_directory>"@
}

/// The line that tells how `program` is to be called.
pub fn usage(program: &str) -> (line: String)
    ensures
        line@ == usage_of(program@),
{
    String::from_str("Usage: ").concat(program).concat(" <url> <target_directory>")
}

/// Reads the arguments that follow the program's name. There must be exactly
/// two: the seed URL, then the target directory, which are handed back in that
/// order. With any other number the usage line comes back as the error.
pub fn arguments(program: &str, given: &Vec<String>) -> (read: Result<(String, String), String>)
    ensures
        match read {
            Ok((seed, directory)) => given.len() == 2 && seed@ == given[0]@ && directory@
                == given[1]@,
            Err(line) => given.len() != 2 && line@ == usage_of(program@),
        },
{
    if given.len() == 2 {
        Ok((given[0].clone(), given[1].clone()))
    } else {
        Err(usage(program))
    }
}

} // verus!
