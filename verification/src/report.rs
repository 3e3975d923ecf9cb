//! Fan-in of one roster scan: given every player's lookup outcome,
//! decide what the scan reports — which players are flagged, and which
//! lookups failed without aborting the rest of the scan.

use vstd::prelude::*;

use crate::models::{IpQualityApiResponse, LookupError, Player};

verus! {

/// What one scan reports: one warning record per flagged player, one
/// error record per failed lookup. A scan never aborts on either; the
/// poll loop emits these and waits for the next tick.
pub struct ScanReport {
    pub flagged: Vec<(Player, IpQualityApiResponse)>,
    pub failed: Vec<(Player, LookupError)>,
}

/// The flagged players among the scan's outcomes, in roster order: those
/// whose lookup succeeded with the proxy or the VPN bit set.
pub open spec fn flagged_of(results: Seq<(Player, Result<IpQualityApiResponse, LookupError>)>)
    -> Seq<(Player, IpQualityApiResponse)>
    decreases results.len(),
{
    if results.len() == 0 {
        Seq::empty()
    } else {
        let rest = flagged_of(results.drop_last());
        match results.last().1 {
            Ok(v) => if v.spec_flagged() {
                rest.push((results.last().0, v))
            } else {
                rest
            },
            Err(_) => rest,
        }
    }
}

/// The failed lookups among the scan's outcomes, in roster order.
pub open spec fn failed_of(results: Seq<(Player, Result<IpQualityApiResponse, LookupError>)>)
    -> Seq<(Player, LookupError)>
    decreases results.len(),
{
    if results.len() == 0 {
        Seq::empty()
    } else {
        let rest = failed_of(results.drop_last());
        match results.last().1 {
            Ok(_) => rest,
            Err(e) => rest.push((results.last().0, e)),
        }
    }
}

/// Turn one scan's outcomes into its report: exactly the flagged players
/// become warning records, exactly the failed lookups become error
/// records, and a failure for one player never drops another player's
/// record.
pub fn scan_report(results: &Vec<(Player, Result<IpQualityApiResponse, LookupError>)>) -> (r:
    ScanReport)
    ensures
        r.flagged@ == flagged_of(results@),
        r.failed@ == failed_of(results@),
{
    let mut flagged: Vec<(Player, IpQualityApiResponse)> = Vec::new();
    let mut failed: Vec<(Player, LookupError)> = Vec::new();
    let n = results.len();
    let mut i: usize = 0;
    while i < n
        invariant
            n == results@.len(),
            i <= n,
            flagged@ == flagged_of(results@.take(i as int)),
            failed@ == failed_of(results@.take(i as int)),
        decreases n - i,
    {
        let pair = &results[i];
        match &pair.1 {
            Ok(v) => {
                if v.is_flagged() {
                    flagged.push((pair.0.clone(), v.clone()));
                }
            },
            Err(e) => {
                failed.push((pair.0.clone(), e.clone()));
            },
        }
        proof {
            assert(results@.take(i as int + 1).drop_last() =~= results@.take(i as int));
            assert(results@.take(i as int + 1).last() == results@[i as int]);
        }
        i += 1;
    }
    proof {
        assert(results@.take(n as int) =~= results@);
    }
    ScanReport { flagged, failed }
}

} // verus!
