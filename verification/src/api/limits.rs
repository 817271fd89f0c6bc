//! The limits that the tracking server sets on one batch of logged items.

use vstd::prelude::*;
use crate::api::error::{BatchError, BatchErrorView};

verus! {

/// The most metrics that one batch may hold.
pub const BATCH_METRICS: usize = 1000;

/// The most parameters that one batch may hold.
pub const BATCH_PARAMS: usize = 100;

/// The most tags that one batch may hold.
pub const BATCH_TAGS: usize = 100;

/// The most items of all kinds together that one batch may hold.
pub const BATCH_TOTAL: usize = 1000;

/// The first limit that a batch of the given counts is over, with the
/// count that is over it: first the metrics, then the parameters, then the
/// tags, then all together. `None` for a batch within every limit.
pub open spec fn batch_violation(metrics: nat, params: nat, tags: nat) -> Option<BatchErrorView> {
    if metrics > BATCH_METRICS {
        Some(BatchErrorView::TooManyMetrics(metrics as usize))
    } else if params > BATCH_PARAMS {
        Some(BatchErrorView::TooManyParams(params as usize))
    } else if tags > BATCH_TAGS {
        Some(BatchErrorView::TooManyTags(tags as usize))
    } else if metrics + params + tags > BATCH_TOTAL {
        Some(BatchErrorView::TooManyItems((metrics + params + tags) as usize))
    } else {
        None
    }
}

/// Holds a batch of the given counts against the limits.
pub fn check_batch(metrics: usize, params: usize, tags: usize) -> (r: Result<(), BatchError>)
    ensures
        match r {
            Ok(()) => batch_violation(metrics as nat, params as nat, tags as nat) is None,
            Err(e) => batch_violation(metrics as nat, params as nat, tags as nat) == Some(
                e.deep_view(),
            ),
        },
{
    if metrics > BATCH_METRICS {
        return Err(BatchError::TooManyMetrics(metrics));
    }
    if params > BATCH_PARAMS {
        return Err(BatchError::TooManyParams(params));
    }
    if tags > BATCH_TAGS {
        return Err(BatchError::TooManyTags(tags));
    }
    let total: usize = metrics + params + tags;
    if total > BATCH_TOTAL {
        return Err(BatchError::TooManyItems(total));
    }
    Ok(())
}

/// A batch within each single limit can still be over the limit on all
/// items together: 999 metrics, one parameter and one tag are.
pub proof fn lemma_total_limit_is_its_own(metrics: nat, params: nat, tags: nat)
    requires
        metrics <= BATCH_METRICS,
        params <= BATCH_PARAMS,
        tags <= BATCH_TAGS,
    ensures
        batch_violation(metrics, params, tags) == if metrics + params + tags > BATCH_TOTAL {
            Some(BatchErrorView::TooManyItems((metrics + params + tags) as usize))
        } else {
            None::<BatchErrorView>
        },
{
}

} // verus!
