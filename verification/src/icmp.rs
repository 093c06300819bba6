//! The ICMP probe mode, declared by the tool but not implemented.

use vstd::prelude::*;
use vstd::string::StringExecFns;

verus! {

/// The ICMP echo probe mode. It is not implemented: the type names the mode
/// so the command line can list it, and nothing more.
pub struct IcmpPing;

impl IcmpPing {
    /// The subcommand name of this mode.
    pub fn name() -> (r: String)
        ensures
            r@ == "icmp"@,
    {
        String::from_str("icmp")
    }
}

} // verus!
