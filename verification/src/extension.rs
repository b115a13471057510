//! The extension type that the functions of this crate belong to.

use vstd::prelude::*;

verus! {

/// The Mojo extension. Its functions are associated functions of this type,
/// grouped by concern over the modules of the crate.
pub struct MojoExtension;

} // verus!
