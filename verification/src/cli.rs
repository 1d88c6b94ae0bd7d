//! Command-line arguments of the service.

use std::path::PathBuf;
use vstd::prelude::*;

verus! {

/// `std::path::PathBuf`, a file path, carried through unopened.
#[verifier::external_type_specification]
#[verifier::external_body]
pub struct ExPathBuf(std::path::PathBuf);

/// What the command line asks of the service.
#[derive(Debug)]
pub struct CliArgs {
    /// Where to write the process identifier at startup, if anywhere.
    pub pidfile: Option<PathBuf>,
}

} // verus!
