//! Run configuration: which file holds the event stream.

use vstd::prelude::*;

verus! {

/// The configuration a run needs: the path of the input file.
pub struct Config {
    pub file_path: String,
}

impl Config {
    /// Builds a configuration from the command-line arguments: the
    /// argument after the program name is the input file path.
    pub fn build(args: &[String]) -> (r: Result<Config, &'static str>)
        ensures
            match r {
                Ok(c) => args@.len() >= 2 && c.file_path@ == args@[1]@,
                Err(e) => args@.len() < 2 && e@ == "not enough arguments"@,
            },
    {
        if args.len() < 2 {
            return Err("not enough arguments");
        }

        let file_path = args[1].clone();

        Ok(Config { file_path })
    }
}

} // verus!
