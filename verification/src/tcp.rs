//! The TCP probe mode, declared by the tool but not implemented.

use vstd::prelude::*;
use vstd::string::StringExecFns;

verus! {

/// The TCP probe mode. It is not implemented: the type names the mode so
/// the command line can list it, and nothing more.
pub struct TcpPing;

impl TcpPing {
    /// The subcommand name of this mode.
    pub fn name() -> (r: String)
        ensures
            r@ == "tcp"@,
    {
        String::from_str("tcp")
    }
}

} // verus!
