//! Series annotations: what a track records about each series drawn into
//! its body, for later legend or label use.

use vstd::prelude::*;

verus! {

/// The annotation record allocated for one drawn series. The drawing itself
/// is the external series drawer's work; the track only keeps this handle.
#[derive(Clone, Debug)]
pub struct LogGraphSeries {
    pub label: Option<String>,
}

impl LogGraphSeries {
    /// A fresh, unlabeled annotation.
    pub fn new() -> (r: LogGraphSeries)
        ensures
            r.label is None,
    {
        LogGraphSeries { label: None }
    }
}

} // verus!
