//! Frame capture and encoding session logic for recording rendered scenes to video.
//!
//! - `flip`: puts the rows of a captured frame in top-down order.
//! - `timebase`: exact conversion of timestamps between rational time bases.
//! - `scaler`: reuse of the colour conversion context while its parameters hold.
//! - `session`: the recording session's configuration, lifecycle and per-frame decisions.
use vstd::prelude::*;

pub mod flip;
pub mod timebase;
pub mod scaler;
pub mod session;

verus! {

} // verus!
