//! Handle for the real-time-clock dashboard module; its rendering lives
//! outside this library.

use vstd::prelude::*;

verus! {

/// The real-time-clock module.
#[derive(Debug, Default)]
pub struct Rtc {}

impl Rtc {
    pub fn new() -> (r: Rtc) {
        Rtc {  }
    }
}

} // verus!
