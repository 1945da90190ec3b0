//! The run options, as argument parsing hands them to the library.

use vstd::prelude::*;

verus! {

/// One invocation's options: the configuration path, whether to only
/// show what would be done, whether to keep debug artifacts, the
/// verbosity, and whether to print the example configuration and exit.
#[derive(Clone, Debug)]
pub struct Args {
    pub config: String,
    pub dry_run: bool,
    pub debug: bool,
    pub verbose: u8,
    pub print_config: bool,
}

impl Default for Args {
    /// The defaults: read `config.yaml`, mutate for real, no debug
    /// artifacts, quiet.
    fn default() -> (r: Self)
        ensures
            r.config@ == "config.yaml"@,
            !r.dry_run,
            !r.debug,
            r.verbose == 0,
            !r.print_config,
    {
        Args {
            config: "config.yaml".to_owned(),
            dry_run: false,
            debug: false,
            verbose: 0,
            print_config: false,
        }
    }
}

} // verus!
