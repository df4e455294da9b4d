//! Settings shared across the game.
use vstd::prelude::*;

verus! {

/// Debug settings: whether diagnostic messages are printed.
#[derive(Clone, Copy, PartialEq, Eq, Structural, Debug)]
pub struct DbgOptions {
    pub print_statements: bool,
}

impl DbgOptions {
    /// The settings for a run with the given command line: messages are
    /// printed when one of the arguments is `-debug`.
    pub fn from_args(args: &Vec<String>) -> (r: Self)
        ensures
            r.print_statements == exists|i: int| 0 <= i < args@.len() && #[trigger] args@[i]@ == "-debug"@,
    {
        let flag = "-debug".to_string();
        let mut found = false;
        let mut i: usize = 0;
        while i < args.len()
            invariant
                0 <= i <= args@.len(),
                flag@ == "-debug"@,
                found == exists|j: int| 0 <= j < i && #[trigger] args@[j]@ == "-debug"@,
            decreases args@.len() - i,
        {
            if args[i] == flag {
                found = true;
            }
            i = i + 1;
        }
        DbgOptions { print_statements: found }
    }
}

} // verus!
