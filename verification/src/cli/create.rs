//! Arguments of `create`.

use vstd::prelude::*;

verus! {

/// The arguments of `create`.
pub struct Args {
    pub name: Option<String>,
    pub bundle_id: Option<String>,
    pub platform: Option<Vec<String>>,
    pub waterui_path: Option<String>,
    pub dev: bool,
    pub playground: bool,
}

} // verus!
