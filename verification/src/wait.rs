//! Waiting for a scan: which scan, and whether there is anything to wait
//! for.

use vstd::prelude::*;
use crate::text::same;
use crate::utils::api::ScanResponse;

verus! {

/// The scan to wait for.
pub struct Awaited {
    pub scan_id: String,
    /// The scan is done already, and there is nothing to wait for.
    pub processed: bool,
}

/// The scan to wait for: the one that is named, with what its status says
/// of it, or else the first in the list of the project's scans, which is
/// done where its status is `Complete`. Nothing where no scan is named and
/// the list is empty.
pub fn run(scan_id: Option<String>, named_is_complete: bool, scans: &Vec<ScanResponse>) -> (awaited:
    Option<Awaited>)
    ensures
        match scan_id {
            Some(id) => awaited matches Some(a) && a.scan_id == id && a.processed
                == named_is_complete,
            None => if scans@.len() > 0 {
                awaited matches Some(a) && a.scan_id@ == scans@[0].id@ && a.processed == (
                scans@[0].status@ == "Complete"@)
            } else {
                awaited is None
            },
        },
{
    match scan_id {
        Some(id) => Some(Awaited { scan_id: id, processed: named_is_complete }),
        None => {
            if scans.len() > 0 {
                Some(
                    Awaited {
                        scan_id: scans[0].id.clone(),
                        processed: same(scans[0].status.as_str(), "Complete"),
                    },
                )
            } else {
                None
            }
        },
    }
}

} // verus!
