//! Arguments of `doctor`.

use vstd::prelude::*;

verus! {

/// The arguments of `doctor`.
pub struct Args {
    pub fix: bool,
}

} // verus!
