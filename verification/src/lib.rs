//! Software-rendered windows: packed pixel buffers, a manager of several windows with the
//! worker that realizes them, and the catalog types of the UI toolkit.

pub mod enums;
pub mod functions;
pub mod renderer;
pub mod structs;
pub mod traits;

use vstd::prelude::*;

verus! {

/// The version of the UI toolkit that the catalogs follow.
pub fn get_gpui_version() -> (version: String)
    ensures
        version@ == "0.2.2"@,
{
    "0.2.2".to_string()
}

} // verus!
