//! Handle for the USB Type-C connector-system dashboard module; its
//! rendering lives outside this library.

use vstd::prelude::*;

verus! {

/// The USB Type-C connector-system module.
#[derive(Debug, Default)]
pub struct Ucsi {}

impl Ucsi {
    pub fn new() -> (r: Ucsi) {
        Ucsi {  }
    }
}

} // verus!
