//! The wire record of the prediction service, as the decoder hands it to the
//! library: plain epoch-second values, nothing zoned or parsed further.

use vstd::prelude::*;

verus! {

/// One predicted pass as the prediction service reports it: a visible
/// duration in seconds and a rise time as seconds since the Unix epoch (UTC).
#[derive(Copy, Clone, Debug)]
pub struct Pass {
    pub duration: u64,
    pub risetime: i64,
}

} // verus!
