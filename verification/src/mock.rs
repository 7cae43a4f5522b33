//! Handle for the demo data source.  The generated battery, thermal and
//! fan values themselves are produced by unverified demo code outside
//! this library.

use vstd::prelude::*;

verus! {

/// The demo data source.
#[derive(Debug, Clone, Copy, Default)]
pub struct Mock {}

impl Mock {
    pub fn new() -> (r: Mock) {
        Mock {  }
    }
}

} // verus!
