//! How the application was started: safe mode turns off user stylesheets.

use vstd::prelude::*;

use crate::text::str_equals;

verus! {

/// The command-line argument that starts the application in safe mode.
pub open spec fn safe_mode_argument() -> Seq<char> {
    "--safe-mode"@
}

/// Whether the application runs in safe mode.
#[derive(Clone, Copy, Debug)]
pub struct RuntimeRecoveryState {
    pub safe_mode: bool,
}

impl RuntimeRecoveryState {
    /// Safe mode is on when some argument is exactly `--safe-mode`.
    pub fn from_args(args: &Vec<String>) -> (r: Self)
        ensures
            r.safe_mode == exists|i: int| 0 <= i < args.len() && #[trigger] args@[i]@ == safe_mode_argument(),
    {
        let mut i: usize = 0;
        while i < args.len()
            invariant
                i <= args.len(),
                forall|j: int| 0 <= j < i ==> #[trigger] args@[j]@ != safe_mode_argument(),
            decreases args.len() - i,
        {
            if str_equals(args[i].as_str(), "--safe-mode") {
                return RuntimeRecoveryState { safe_mode: true };
            }
            i = i + 1;
        }
        RuntimeRecoveryState { safe_mode: false }
    }
}

} // verus!
