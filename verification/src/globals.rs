//! Names and numbers that the whole shell shares.

use vstd::prelude::*;

verus! {

/// The file, in the user's home directory, that holds the configuration.
pub const CONF_FILE_NAME: &'static str = ".rush";

/// The descriptor of standard input.
pub const STDIN: u16 = 0;

/// The descriptor of standard output.
pub const STDOUT: u16 = 1;

/// The descriptor of standard error.
pub const STDERR: u16 = 2;

} // verus!
