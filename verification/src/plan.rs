//! The range planner: the first and the last slot of a run.

use vstd::prelude::*;
use crate::error::SyncError;
use crate::text::{decimal_text_value, parse_decimal};
use crate::types::BlockHeadersData;

verus! {

/// The first slot at which blob sidecars exist.
pub const DANCUN_SLOT: usize = 8626176;

/// The slots of a run, both ends included, and the number of slots fetched
/// together.
#[derive(Debug, Clone, Copy, PartialEq, Eq, Structural)]
pub struct SyncPlan {
    /// The first slot to synchronise.
    pub start: usize,
    /// The last slot to synchronise.
    pub end: usize,
    /// Slots per window.
    pub window: usize,
    /// Whether the requested start lay before the first slot with sidecars
    /// and was moved there; the caller warns of it.
    pub clamped: bool,
}

/// The start that is used for a requested one: never before `DANCUN_SLOT`.
pub open spec fn effective_start(requested: usize) -> usize {
    if requested < DANCUN_SLOT {
        DANCUN_SLOT
    } else {
        requested
    }
}

/// The slot of the head: that of the first header in the answer to the head
/// query. `HeadNotFound` where the answer holds no header, `DecodeError`
/// where the slot is no decimal numeral that fits the machine word.
pub open spec fn head_slot(headers: BlockHeadersData) -> Result<usize, SyncError> {
    if headers.data@.len() == 0 {
        Err(SyncError::HeadNotFound)
    } else {
        match decimal_text_value(headers.data@[0].header.message.slot@) {
            Some(slot) => if slot <= usize::MAX {
                Ok(slot as usize)
            } else {
                Err(SyncError::DecodeError)
            },
            None => Err(SyncError::DecodeError),
        }
    }
}

/// The last slot of a run: the one asked for, else the slot of the head. A
/// run without a requested end and without an answer to the head query has
/// none: `HeadNotFound`.
pub open spec fn resolved_end(to_slot: Option<usize>, head: Option<BlockHeadersData>) -> Result<
    usize,
    SyncError,
> {
    match to_slot {
        Some(end) => Ok(end),
        None => match head {
            Some(headers) => head_slot(headers),
            None => Err(SyncError::HeadNotFound),
        },
    }
}

/// Moves a requested start that lies before `DANCUN_SLOT` to that slot.
pub fn clamp_start(requested: usize) -> (start: usize)
    ensures
        start == effective_start(requested),
        requested < DANCUN_SLOT ==> start == DANCUN_SLOT,
        requested >= DANCUN_SLOT ==> start == requested,
{
    if requested < DANCUN_SLOT {
        DANCUN_SLOT
    } else {
        requested
    }
}

/// Whether the head has to be queried: exactly where no end was asked for.
pub fn needs_head(to_slot: Option<usize>) -> (r: bool)
    ensures
        r == (to_slot is None),
{
    to_slot.is_none()
}

/// Reads the slot of the head from the answer to the head query.
pub fn get_current_slot_number(headers: &BlockHeadersData) -> (r: Result<usize, SyncError>)
    ensures
        r == head_slot(*headers),
{
    if headers.data.len() == 0 {
        return Err(SyncError::HeadNotFound);
    }
    match parse_decimal(headers.data[0].header.message.slot.as_str()) {
        Some(slot) => {
            if slot <= usize::MAX as u64 {
                Ok(slot as usize)
            } else {
                Err(SyncError::DecodeError)
            }
        },
        None => Err(SyncError::DecodeError),
    }
}

/// Settles the last slot of a run.
pub fn resolve_end(to_slot: Option<usize>, head: Option<&BlockHeadersData>) -> (r: Result<
    usize,
    SyncError,
>)
    ensures
        r == resolved_end(
            to_slot,
            match head {
                Some(headers) => Some(*headers),
                None => None,
            },
        ),
{
    match to_slot {
        Some(end) => Ok(end),
        None => match head {
            Some(headers) => get_current_slot_number(headers),
            None => Err(SyncError::HeadNotFound),
        },
    }
}

/// Plans a run from what was asked for: the start clamped, the end
/// resolved, `concurrency` slots per window.
pub fn plan_range(
    from_slot: usize,
    to_slot: Option<usize>,
    head: Option<&BlockHeadersData>,
    concurrency: usize,
) -> (r: Result<SyncPlan, SyncError>)
    ensures
        match resolved_end(
            to_slot,
            match head {
                Some(headers) => Some(*headers),
                None => None,
            },
        ) {
            Ok(end) => r == Ok::<SyncPlan, SyncError>(
                SyncPlan {
                    start: effective_start(from_slot),
                    end,
                    window: concurrency,
                    clamped: from_slot < DANCUN_SLOT,
                },
            ),
            Err(e) => r == Err::<SyncPlan, SyncError>(e),
        },
{
    match resolve_end(to_slot, head) {
        Ok(end) => Ok(
            SyncPlan {
                start: clamp_start(from_slot),
                end,
                window: concurrency,
                clamped: from_slot < DANCUN_SLOT,
            },
        ),
        Err(e) => Err(e),
    }
}

} // verus!
