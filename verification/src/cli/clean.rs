//! Arguments of `clean`.

use vstd::prelude::*;

verus! {

/// Which platform's build outputs `clean` removes.
#[derive(Clone, Copy, Debug, PartialEq, Eq, Structural)]
pub enum TargetPlatform {
    Apple,
    Android,
    All,
}

/// The arguments of `clean`.
pub struct Args {
    pub platform: TargetPlatform,
    pub path: String,
}

} // verus!
